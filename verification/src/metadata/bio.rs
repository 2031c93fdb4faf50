//! Biographies of artists, composers and other entities.
//!
//! MusicBrainz settles who is meant; then Wikipedia, Wikidata, Last.fm and
//! TheAudioDB are asked side by side, and whatever they have is the answer.

use crate::json::opt_view;
use crate::metadata::cache::{key_of, EnrichmentCache};
use crate::metadata::cascade::{
    bare_response, CascadeResponse, CascadeStatus, EntityRef, EntityType, ProviderCatalogue,
    ProviderId, SourceEntry,
};
use crate::metadata::config::{key_text, non_blank};
use crate::metadata::fetch::{
    answer, answer_of, query_views, CachedFetch, QueryModel, SummaryLadder, SummaryQuery,
};
use crate::metadata::locale::{language_of, normalise as normalise_locale};
use crate::metadata::normalise::{normal_form, normalise};
use crate::metadata::request::Decoded;
use crate::metadata::sources::{
    audiodb_artist_source, audiodb_artist_source_of, facts_source, is_stub, lastfm_bio_source,
    lastfm_source_of, opt_source, wikidata_source, AudioDbArtist, LastfmText, Sitelink, SourceKind,
    WikidataEntity,
};
use crate::text::{
    chars_of, clone_opt, decimal, decimal_of, joined, lemma_trim_is_idempotent, opt_str_view,
    same_text, str_views, trim, trim_of,
};
use crate::metadata::cascade::{ResponseModel, SourceModel};
use crate::metadata::fetch::law_the_answer_shows_every_find;
use vstd::prelude::*;

verus! {

/// The search score from which a match settles who is meant.
pub const ARTIST_CONFIDENCE_FLOOR: u32 = 85;

/// A request for a biography: an entity, or an artist by name.
pub struct EntityBioRequest {
    pub v: u8,
    pub entity: Option<EntityRef>,
    pub artist: Option<String>,
    pub artist_mbid: Option<String>,
    pub locale: Option<String>,
}

/// What an [`EntityRef`] says.
pub struct EntityModel {
    pub entity_type: EntityType,
    pub name: Seq<char>,
    pub mbid: Option<Seq<char>>,
}

impl View for EntityRef {
    type V = EntityModel;

    open spec fn view(&self) -> EntityModel {
        EntityModel {
            entity_type: self.entity_type,
            name: self.name@,
            mbid: opt_view(self.mbid),
        }
    }
}

/// The entity that a request names, or why it names none.
pub open spec fn requested_entity(q: EntityBioRequest) -> Result<EntityModel, Seq<char>> {
    match q.entity {
        Some(e) => if trim_of(e.name@).len() > 0 {
            Ok(e@)
        } else {
            Err("entity.name is required and must be non-empty"@)
        },
        None => match key_text(opt_view(q.artist)) {
            Some(name) => Ok(
                EntityModel { entity_type: EntityType::Artist, name, mbid: opt_view(q.artist_mbid) },
            ),
            None => Err(
                "either `entity` (new shape) or `artist` (legacy shape) is required and must be non-empty"@,
            ),
        },
    }
}

/// Whether any provider may be asked for a biography.
pub open spec fn has_bio_provider(c: ProviderCatalogue) -> bool {
    ||| c.config.permits(ProviderId::MusicBrainz)
    ||| c.config.permits(ProviderId::Wikipedia)
    ||| c.config.permits(ProviderId::Wikidata)
    ||| c.asks(ProviderId::Lastfm)
    ||| c.asks(ProviderId::TheAudioDb)
}

/// Why nobody is asked for a biography.
pub const NO_BIO_PROVIDER: &'static str =
    "every bio provider is disabled or unavailable on this device; enable at least one under Settings → Metadata → Sources";

/// A query for a biography.
pub struct BioQuery {
    pub catalogue: ProviderCatalogue,
    pub entity: EntityRef,
    pub locale: String,
    /// Who is meant, as far as settled.
    pub resolved_mbid: Option<String>,
    pub canonical_name: Option<String>,
    pub wikipedia_url: Option<String>,
    /// The language of the page at `wikipedia_url`.
    pub wikipedia_language: Option<String>,
    pub wikidata_url: Option<String>,
}

/// What a [`BioQuery`] says.
pub struct BioModel {
    pub catalogue: ProviderCatalogue,
    pub entity: EntityModel,
    pub locale: Seq<char>,
    pub resolved_mbid: Option<Seq<char>>,
    pub canonical_name: Option<Seq<char>>,
    pub wikipedia_url: Option<Seq<char>>,
    pub wikipedia_language: Option<Seq<char>>,
    pub wikidata_url: Option<Seq<char>>,
}

impl View for BioQuery {
    type V = BioModel;

    open spec fn view(&self) -> BioModel {
        BioModel {
            catalogue: self.catalogue,
            entity: self.entity@,
            locale: self.locale@,
            resolved_mbid: opt_view(self.resolved_mbid),
            canonical_name: opt_view(self.canonical_name),
            wikipedia_url: opt_view(self.wikipedia_url),
            wikipedia_language: opt_view(self.wikipedia_language),
            wikidata_url: opt_view(self.wikidata_url),
        }
    }
}

/// A query of which nothing is settled but what the caller knows.
pub open spec fn fresh_bio(
    catalogue: ProviderCatalogue,
    entity: EntityModel,
    locale: Option<Seq<char>>,
) -> BioModel {
    BioModel {
        catalogue,
        entity,
        locale: language_of(locale),
        resolved_mbid: key_text(entity.mbid),
        canonical_name: None,
        wikipedia_url: None,
        wikipedia_language: None,
        wikidata_url: None,
    }
}

// ---------------------------------------------------------------------
// Who is meant
// ---------------------------------------------------------------------

/// The best match of an artist search.
pub struct ArtistHit {
    pub artist_mbid: String,
    pub canonical_name: String,
    pub confidence_percent: u32,
}

/// What a lookup tells of an artist.
pub struct ArtistLookup {
    pub canonical_name: String,
    pub wikipedia_url: Option<String>,
    /// The language of the page at `wikipedia_url`, where the address names one.
    pub wikipedia_language: Option<String>,
    pub wikidata_url: Option<String>,
}

/// A query whose artist is to be searched for by name.
pub struct BioSearch {
    pub query: BioQuery,
}

/// A query whose artist is to be looked up by identifier.
pub struct BioLookUp {
    pub query: BioQuery,
}

/// A query that is settled: its sources are to be fetched.
pub struct BioFetches {
    pub query: BioQuery,
}

/// Where a request leads.
pub enum BioStart {
    /// The request cannot be read.
    Refused(String),
    Answer(CascadeResponse),
    Search(BioSearch),
    LookUp(BioLookUp),
    Fetch(BioFetches),
}

/// Where a search leads.
pub enum AfterBioSearch {
    LookUp(BioLookUp),
    Fetch(BioFetches),
}

/// Where a request for a biography leads.
pub open spec fn bio_starts(
    decoded: Decoded<EntityBioRequest>,
    catalogue: ProviderCatalogue,
    r: BioStart,
) -> bool {
    match decoded {
        Decoded::Empty => r is Answer && r->Answer_0@ == bare_response(
            CascadeStatus::BadRequest,
            Some("empty payload"@),
        ),
        Decoded::Rejected(e) => r == BioStart::Refused(e),
        Decoded::Request(q) => if q.v != 1 {
            r is Answer && r->Answer_0@ == bare_response(
                CascadeStatus::BadRequest,
                Some("unsupported v: "@ + decimal_of(q.v as nat)),
            )
        } else {
            match requested_entity(q) {
                Err(e) => r is Answer && r->Answer_0@ == bare_response(
                    CascadeStatus::BadRequest,
                    Some(e),
                ),
                Ok(entity) => if !has_bio_provider(catalogue) {
                    r is Answer && r->Answer_0@ == bare_response(
                        CascadeStatus::NotConfigured,
                        Some(NO_BIO_PROVIDER@),
                    )
                } else {
                    let fresh = fresh_bio(catalogue, entity, opt_view(q.locale));
                    if !catalogue.asks(ProviderId::MusicBrainz) {
                        r is Fetch && r->Fetch_0.query@ == fresh
                    } else if fresh.resolved_mbid is None {
                        r is Search && r->Search_0.query@ == fresh
                    } else {
                        r is LookUp && r->LookUp_0.query@ == fresh
                    }
                },
            }
        },
    }
}

/// Starts a query: MusicBrainz is searched unless the identifier is known, and
/// left out if it may not be asked.
pub fn begin_entity_bio(decoded: Decoded<EntityBioRequest>, catalogue: ProviderCatalogue) -> (r:
    BioStart)
    ensures
        bio_starts(decoded, catalogue, r),
{
    let q = match decoded {
        Decoded::Empty => {
            return BioStart::Answer(CascadeResponse::bad_request("empty payload".to_owned()));
        },
        Decoded::Rejected(e) => {
            return BioStart::Refused(e);
        },
        Decoded::Request(q) => q,
    };
    if q.v != 1 {
        return BioStart::Answer(
            CascadeResponse::bad_request(joined("unsupported v: ", decimal(q.v as u64).as_str())),
        );
    }
    let entity = match q.entity {
        Some(e) => e,
        None => match non_blank(&q.artist) {
            Some(name) => EntityRef { entity_type: EntityType::Artist, name, mbid: q.artist_mbid },
            None => {
                return BioStart::Answer(
                    CascadeResponse::bad_request(
                        "either `entity` (new shape) or `artist` (legacy shape) is required and must be non-empty".to_owned(),
                    ),
                );
            },
        },
    };
    let whole = chars_of(entity.name.as_str());
    if trim(whole.as_slice()).len() == 0 {
        proof {
            if q.entity is None {
                lemma_trim_is_idempotent(opt_view(q.artist)->Some_0);
            }
        }
        return BioStart::Answer(
            CascadeResponse::bad_request("entity.name is required and must be non-empty".to_owned()),
        );
    }
    let any = catalogue.config.is_effectively_enabled(ProviderId::MusicBrainz)
        || catalogue.config.is_effectively_enabled(ProviderId::Wikipedia)
        || catalogue.config.is_effectively_enabled(ProviderId::Wikidata) || catalogue.wants(
        ProviderId::Lastfm,
    ) || catalogue.wants(ProviderId::TheAudioDb);
    if !any {
        return BioStart::Answer(CascadeResponse::not_configured(NO_BIO_PROVIDER.to_owned()));
    }
    let hint: Option<&str> = match &q.locale {
        Some(l) => Some(l.as_str()),
        None => None,
    };
    let locale = normalise_locale(hint);
    let resolved_mbid = non_blank(&entity.mbid);
    let known = resolved_mbid.is_some();
    let query = BioQuery {
        catalogue,
        entity,
        locale,
        resolved_mbid,
        canonical_name: None,
        wikipedia_url: None,
        wikipedia_language: None,
        wikidata_url: None,
    };
    if !catalogue.wants(ProviderId::MusicBrainz) {
        BioStart::Fetch(BioFetches { query })
    } else if known {
        BioStart::LookUp(BioLookUp { query })
    } else {
        BioStart::Search(BioSearch { query })
    }
}

/// What a search settles: a match of sufficient score.
pub open spec fn searched(m: BioModel, found: Result<Option<ArtistHit>, String>) -> BioModel {
    match found {
        Ok(Some(hit)) => if hit.confidence_percent >= ARTIST_CONFIDENCE_FLOOR {
            BioModel {
                resolved_mbid: Some(hit.artist_mbid@),
                canonical_name: Some(hit.canonical_name@),
                ..m
            }
        } else {
            m
        },
        _ => m,
    }
}

/// What a lookup settles: the pages, and the name unless the search has.
pub open spec fn looked_up(m: BioModel, found: Result<ArtistLookup, String>) -> BioModel {
    match found {
        Ok(l) => BioModel {
            wikipedia_url: opt_view(l.wikipedia_url),
            wikipedia_language: opt_view(l.wikipedia_language),
            wikidata_url: opt_view(l.wikidata_url),
            canonical_name: match m.canonical_name {
                Some(_) => m.canonical_name,
                None => Some(l.canonical_name@),
            },
            ..m
        },
        Err(_) => m,
    }
}

impl BioSearch {
    /// The name to search for.
    pub fn name(&self) -> (r: &str)
        ensures
            r@ == self.query@.entity.name,
    {
        self.query.entity.name.as_str()
    }

    /// Takes in what came of the search.
    pub fn on_search(self, found: Result<Option<ArtistHit>, String>) -> (r: AfterBioSearch)
        requires
            self.query@.resolved_mbid is None,
        ensures
            ({
                let m = searched(self.query@, found);
                if m.resolved_mbid is Some {
                    r is LookUp && r->LookUp_0.query@ == m
                } else {
                    r is Fetch && r->Fetch_0.query@ == m
                }
            }),
    {
        let mut query = self.query;
        if let Ok(Some(hit)) = found {
            if hit.confidence_percent >= ARTIST_CONFIDENCE_FLOOR {
                query.resolved_mbid = Some(hit.artist_mbid);
                query.canonical_name = Some(hit.canonical_name);
                return AfterBioSearch::LookUp(BioLookUp { query });
            }
        }
        AfterBioSearch::Fetch(BioFetches { query })
    }
}

impl BioLookUp {
    /// The identifier to look up.
    pub fn mbid(&self) -> (r: &str)
        requires
            self.query@.resolved_mbid is Some,
        ensures
            Some(r@) == self.query@.resolved_mbid,
    {
        match &self.query.resolved_mbid {
            Some(m) => m.as_str(),
            None => "",
        }
    }

    /// Takes in what came of the lookup.
    pub fn on_lookup(self, found: Result<ArtistLookup, String>) -> (r: BioFetches)
        ensures
            r.query@ == looked_up(self.query@, found),
    {
        let mut query = self.query;
        if let Ok(l) = found {
            query.wikipedia_url = l.wikipedia_url;
            query.wikipedia_language = l.wikipedia_language;
            query.wikidata_url = l.wikidata_url;
            if query.canonical_name.is_none() {
                query.canonical_name = Some(l.canonical_name);
            }
        }
        BioFetches { query }
    }
}

// ---------------------------------------------------------------------
// Keys
// ---------------------------------------------------------------------

/// What a biography's key is made of: the identifier, where it is known, else the
/// name, each in a namespace of its own.
pub open spec fn bio_key_parts(
    entity: EntityModel,
    resolved_mbid: Option<Seq<char>>,
    provider: ProviderId,
    locale: Seq<char>,
) -> Seq<Seq<char>> {
    match resolved_mbid {
        Some(mbid) => seq![
            "entity_bio"@,
            entity.entity_type.name(),
            "mbid"@,
            mbid,
            provider.name(),
            "loc"@,
            locale,
        ],
        None => seq![
            "entity_bio"@,
            entity.entity_type.name(),
            "name"@,
            normal_form(entity.name),
            provider.name(),
            "loc"@,
            locale,
        ],
    }
}

/// The key of a biography.
pub fn bio_cache_key_with_locale(
    entity: &EntityRef,
    resolved_mbid: Option<&str>,
    provider: ProviderId,
    locale: &str,
) -> (r: String)
    ensures
        r@ == key_of(
            bio_key_parts(entity@, opt_str_view(resolved_mbid), provider, locale@),
        ),
{
    let name = normalise(entity.name.as_str());
    let (space, id): (&str, &str) = match resolved_mbid {
        Some(mbid) => ("mbid", mbid),
        None => ("name", name.as_str()),
    };
    let parts: [&str; 7] = [
        "entity_bio",
        entity.entity_type.as_str(),
        space,
        id,
        provider.as_str(),
        "loc",
        locale,
    ];
    assert(str_views(parts@) =~= bio_key_parts(
        entity@,
        opt_str_view(resolved_mbid),
        provider,
        locale@,
    ));
    EnrichmentCache::key_for(parts.as_slice())
}

/// An entity known by its identifier and one known by its name alone never share
/// a key's parts, nor do two identifiers, two sorts of entity, two providers or two
/// languages; two names of one identifier do.
pub proof fn law_bio_keys_are_told_apart(
    a: EntityModel,
    b: EntityModel,
    mbid: Seq<char>,
    other: Seq<char>,
    p: ProviderId,
    q: ProviderId,
    locale: Seq<char>,
    tongue: Seq<char>,
)
    ensures
        bio_key_parts(a, Some(mbid), p, locale) != bio_key_parts(b, None, q, tongue),
        mbid != other ==> bio_key_parts(a, Some(mbid), p, locale) != bio_key_parts(
            b,
            Some(other),
            q,
            tongue,
        ),
        a.entity_type != b.entity_type ==> bio_key_parts(a, Some(mbid), p, locale)
            != bio_key_parts(b, Some(other), q, tongue) && bio_key_parts(a, None, p, locale)
            != bio_key_parts(b, None, q, tongue),
        p != q ==> bio_key_parts(a, Some(mbid), p, locale) != bio_key_parts(
            b,
            Some(other),
            q,
            tongue,
        ) && bio_key_parts(a, None, p, locale) != bio_key_parts(b, None, q, tongue),
        locale != tongue ==> bio_key_parts(a, Some(mbid), p, locale) != bio_key_parts(
            b,
            Some(other),
            q,
            tongue,
        ) && bio_key_parts(a, None, p, locale) != bio_key_parts(b, None, q, tongue),
        a.entity_type == b.entity_type ==> bio_key_parts(a, Some(mbid), p, locale)
            == bio_key_parts(b, Some(mbid), p, locale),
{
    reveal_strlit("mbid");
    reveal_strlit("name");
    assert("mbid"@[1] == 'b' && "name"@[1] == 'a');
    let one = bio_key_parts(a, Some(mbid), p, locale);
    let two = bio_key_parts(b, Some(other), q, tongue);
    let three = bio_key_parts(a, None, p, locale);
    let four = bio_key_parts(b, None, q, tongue);
    assert(one[2] != four[2]);
    if mbid != other {
        assert(one[3] != two[3]);
    }
    if a.entity_type != b.entity_type {
        crate::metadata::cascade::law_entity_names_are_distinct(a.entity_type, b.entity_type);
        assert(one[1] != two[1]);
        assert(three[1] != four[1]);
    }
    if p != q {
        crate::metadata::cascade::law_provider_names_round_trip(p);
        crate::metadata::cascade::law_provider_names_round_trip(q);
        assert(one[4] != two[4]);
        assert(three[4] != four[4]);
    }
    if locale != tongue {
        assert(one[6] != two[6]);
        assert(three[6] != four[6]);
    }
}

// ---------------------------------------------------------------------
// Pages
// ---------------------------------------------------------------------

/// The title of an entity's page on a site.
pub open spec fn sitelink_title(links: Seq<Sitelink>, site: Seq<char>) -> Option<Seq<char>>
    decreases links.len(),
{
    if links.len() == 0 {
        None
    } else if links[0].site@ == site {
        Some(links[0].title@)
    } else {
        sitelink_title(links.drop_first(), site)
    }
}

fn find_sitelink(links: &Vec<Sitelink>, site: &str) -> (r: Option<String>)
    ensures
        opt_view(r) == sitelink_title(links@, site@),
{
    let n: usize = links.len();
    assert(links@.skip(0) =~= links@);
    for i in 0..n
        invariant
            n == links@.len(),
            sitelink_title(links@, site@) == sitelink_title(links@.skip(i as int), site@),
    {
        assert(links@.skip(i as int).drop_first() =~= links@.skip(i + 1));
        if same_text(links[i].site.as_str(), site) {
            return Some(links[i].title.clone());
        }
    }
    None
}

/// The title of an entity's page on a site, where the entity is known.
pub open spec fn page_title(entity: Option<WikidataEntity>, site: Seq<char>) -> Option<Seq<char>> {
    match entity {
        Some(e) => sitelink_title(e.sitelinks@, site),
        None => None,
    }
}

/// The name to ask by: the canonical one, where it is settled.
pub open spec fn effective_name(m: BioModel) -> Seq<char> {
    match m.canonical_name {
        Some(n) => n,
        None => m.entity.name,
    }
}

/// Whether a page may be asked for by bare name: not for an artist whose name has
/// not been settled to another one, since it may be a common noun.
pub open spec fn may_search_by_name(m: BioModel) -> bool {
    ||| m.entity.entity_type != EntityType::Artist
    ||| (m.resolved_mbid is Some && effective_name(m) != m.entity.name)
}

/// One query, or none.
pub open spec fn one_if(condition: bool, q: QueryModel) -> Seq<QueryModel> {
    if condition {
        seq![q]
    } else {
        Seq::empty()
    }
}

/// A page by its title in an edition, where there is one.
pub open spec fn titled(title: Option<Seq<char>>, language: Seq<char>) -> Seq<QueryModel> {
    match title {
        Some(t) => seq![QueryModel::Title(t, language)],
        None => Seq::empty(),
    }
}

/// A page by its address, where there is one.
pub open spec fn addressed(url: Option<Seq<char>>) -> Seq<QueryModel> {
    match url {
        Some(u) => seq![QueryModel::Url(u)],
        None => Seq::empty(),
    }
}

/// The pages to try, in order: the entity's page in the operator's language, the
/// settled address if it is in that language, the entity's English page, the
/// settled address in any other language, and then, where that is allowed, the
/// bare name in the operator's language and in English.
pub open spec fn pages_to_try(
    locale: Seq<char>,
    name: Seq<char>,
    by_name: bool,
    url: Option<Seq<char>>,
    url_language: Option<Seq<char>>,
    entity: Option<WikidataEntity>,
) -> Seq<QueryModel> {
    let foreign = locale != "en"@;
    let local = url_language == Some(locale);
    titled(page_title(entity, locale + "wiki"@), locale) + (if local {
        addressed(url)
    } else {
        Seq::empty()
    }) + (if foreign {
        titled(page_title(entity, "enwiki"@), "en"@)
    } else {
        Seq::empty()
    }) + (if local {
        Seq::empty()
    } else {
        addressed(url)
    }) + one_if(by_name, QueryModel::Title(name, locale)) + one_if(
        by_name && foreign,
        QueryModel::Title(name, "en"@),
    )
}

/// The pages to try for a query.
pub open spec fn bio_pages(m: BioModel, entity: Option<WikidataEntity>) -> Seq<QueryModel> {
    pages_to_try(
        m.locale,
        effective_name(m),
        may_search_by_name(m),
        m.wikipedia_url,
        m.wikipedia_language,
        entity,
    )
}

/// An artist whose name is not settled to another one is never looked up by bare
/// name: every page is the entity's own or the settled address.
pub proof fn law_no_common_noun_trap(m: BioModel, entity: Option<WikidataEntity>, i: int)
    requires
        m.entity.entity_type == EntityType::Artist,
        m.resolved_mbid is None || effective_name(m) == m.entity.name,
        0 <= i < bio_pages(m, entity).len(),
    ensures
        match bio_pages(m, entity)[i] {
            QueryModel::Url(u) => m.wikipedia_url == Some(u),
            QueryModel::Title(t, language) => page_title(entity, language + "wiki"@) == Some(t),
        },
{
    assert("en"@ + "wiki"@ =~= "enwiki"@) by {
        reveal_strlit("en");
        reveal_strlit("wiki");
        reveal_strlit("enwiki");
    }
}

/// An artist known by name alone has no page to try, so that nothing is ever kept
/// under such a name: whatever the search found, unless it settled who is meant,
/// no address is known and the bare name may not be asked for.
pub proof fn law_bare_artist_names_lead_nowhere(
    catalogue: ProviderCatalogue,
    entity: EntityModel,
    locale: Option<Seq<char>>,
    found: Result<Option<ArtistHit>, String>,
)
    requires
        entity.entity_type == EntityType::Artist,
        searched(fresh_bio(catalogue, entity, locale), found).resolved_mbid is None,
    ensures
        searched(fresh_bio(catalogue, entity, locale), found).wikidata_url is None,
        bio_pages(searched(fresh_bio(catalogue, entity, locale), found), None).len() == 0,
{
}

/// What the pages of a biography are chosen from.
pub struct BioPages {
    pub entity_type: EntityType,
    pub name: String,
    pub effective_name: String,
    pub resolved: bool,
    pub locale: String,
    pub wikipedia_url: Option<String>,
    pub wikipedia_language: Option<String>,
    /// The entity to consult first, where there is one and Wikidata may be asked.
    pub wikidata_url: Option<String>,
}

impl BioPages {
    /// Whether the choice is that of a query.
    pub open spec fn serves(&self, m: BioModel) -> bool {
        &&& self.entity_type == m.entity.entity_type
        &&& self.name@ == m.entity.name
        &&& self.effective_name@ == effective_name(m)
        &&& self.resolved == m.resolved_mbid is Some
        &&& self.locale@ == m.locale
        &&& opt_view(self.wikipedia_url) == m.wikipedia_url
        &&& opt_view(self.wikipedia_language) == m.wikipedia_language
        &&& opt_view(self.wikidata_url) == (if m.catalogue.asks(ProviderId::Wikidata) {
            m.wikidata_url
        } else {
            None
        })
    }

    /// The pages to try; those of the query that the choice serves.
    pub open spec fn pages(&self, entity: Option<WikidataEntity>) -> Seq<QueryModel> {
        pages_to_try(
            self.locale@,
            self.effective_name@,
            self.entity_type != EntityType::Artist || (self.resolved && self.effective_name@
                != self.name@),
            opt_view(self.wikipedia_url),
            opt_view(self.wikipedia_language),
            entity,
        )
    }

    /// The pages to try, given what Wikidata tells of the entity; nothing, where
    /// it was not consulted, has none or failed.
    pub fn ladder(self, entity: &Option<WikidataEntity>) -> (r: SummaryLadder)
        ensures
            r.well_formed(),
            r.left() == self.pages(*entity),
    {
        let foreign = !same_text(self.locale.as_str(), "en");
        let local = match &self.wikipedia_language {
            Some(l) => same_text(l.as_str(), self.locale.as_str()),
            None => false,
        };
        let by_name = match self.entity_type {
            EntityType::Artist => self.resolved && !same_text(
                self.effective_name.as_str(),
                self.name.as_str(),
            ),
            _ => true,
        };
        let mut queries: Vec<SummaryQuery> = Vec::new();
        assert(query_views(queries@) =~= Seq::<QueryModel>::empty());
        let site = joined(self.locale.as_str(), "wiki");
        push_page(&mut queries, find_page(entity, site.as_str()), self.locale.as_str());
        assert(Seq::<QueryModel>::empty() + titled(
            page_title(*entity, self.locale@ + "wiki"@),
            self.locale@,
        ) =~= titled(page_title(*entity, self.locale@ + "wiki"@), self.locale@));
        if local {
            push_address(&mut queries, &self.wikipedia_url);
        } else {
            assert(query_views(queries@) =~= query_views(queries@) + Seq::empty());
        }
        if foreign {
            push_page(&mut queries, find_page(entity, "enwiki"), "en");
        } else {
            assert(query_views(queries@) =~= query_views(queries@) + Seq::empty());
        }
        if !local {
            push_address(&mut queries, &self.wikipedia_url);
        } else {
            assert(query_views(queries@) =~= query_views(queries@) + Seq::empty());
        }
        push_title(&mut queries, by_name, self.effective_name.as_str(), self.locale.as_str());
        push_title(&mut queries, by_name && foreign, self.effective_name.as_str(), "en");
        SummaryLadder::new(queries)
    }
}

fn find_page(entity: &Option<WikidataEntity>, site: &str) -> (r: Option<String>)
    ensures
        opt_view(r) == page_title(*entity, site@),
{
    match entity {
        Some(e) => find_sitelink(&e.sitelinks, site),
        None => None,
    }
}

fn push_page(queries: &mut Vec<SummaryQuery>, title: Option<String>, language: &str)
    ensures
        query_views(final(queries)@) == query_views(old(queries)@) + titled(
            opt_view(title),
            language@,
        ),
{
    let ghost before = queries@;
    if let Some(t) = title {
        queries.push(SummaryQuery::Title { title: t, language: language.to_owned() });
    }
    assert(query_views(queries@) =~= query_views(before) + titled(opt_view(title), language@));
}

fn push_address(queries: &mut Vec<SummaryQuery>, url: &Option<String>)
    ensures
        query_views(final(queries)@) == query_views(old(queries)@) + addressed(opt_view(*url)),
{
    let ghost before = queries@;
    if let Some(u) = url {
        queries.push(SummaryQuery::Url(u.clone()));
    }
    assert(query_views(queries@) =~= query_views(before) + addressed(opt_view(*url)));
}

fn push_title(queries: &mut Vec<SummaryQuery>, wanted: bool, title: &str, language: &str)
    ensures
        query_views(final(queries)@) == query_views(old(queries)@) + one_if(
            wanted,
            QueryModel::Title(title@, language@),
        ),
{
    let ghost before = queries@;
    if wanted {
        queries.push(
            SummaryQuery::Title { title: title.to_owned(), language: language.to_owned() },
        );
    }
    assert(query_views(queries@) =~= query_views(before) + one_if(
        wanted,
        QueryModel::Title(title@, language@),
    ));
}

/// The pages that a choice yields are those of the query it serves.
pub proof fn law_choice_yields_the_pages(
    choice: BioPages,
    m: BioModel,
    entity: Option<WikidataEntity>,
)
    requires
        choice.serves(m),
    ensures
        choice.pages(entity) == bio_pages(m, entity),
{
}

// ---------------------------------------------------------------------
// Fetches
// ---------------------------------------------------------------------

/// What Last.fm is asked for.
pub struct LastfmArtistAsk {
    pub name: String,
    pub mbid: Option<String>,
}

impl LastfmArtistAsk {
    /// The source in a reply: a text that is one artist's.
    pub fn on_reply(&self, reply: Result<Option<LastfmText>, String>) -> (r: Option<SourceEntry>)
        ensures
            opt_source(r) == (match reply {
                Ok(Some(t)) => if is_stub(t) {
                    None
                } else {
                    Some(lastfm_source_of(t))
                },
                _ => None,
            }),
    {
        match reply {
            Ok(Some(t)) => lastfm_bio_source(&t),
            _ => None,
        }
    }
}

/// An artist to be asked of TheAudioDB by identifier.
pub struct AudioDbByMbid {
    pub mbid: String,
    pub name: String,
}

/// An artist to be asked of TheAudioDB by name.
pub struct AudioDbByName {
    pub name: String,
}

/// How TheAudioDB is asked first.
pub enum AudioDbAsk {
    ByMbid(AudioDbByMbid),
    ByName(AudioDbByName),
}

/// Where a reply to an identifier leads.
pub enum AfterMbid {
    Done(Option<SourceEntry>),
    ByName(AudioDbByName),
}

impl AudioDbByMbid {
    /// A record is the source; an unknown identifier leads to the name; a failure
    /// ends the fetch.
    pub fn on_reply(self, reply: Result<Option<AudioDbArtist>, String>) -> (r: AfterMbid)
        ensures
            match reply {
                Ok(Some(a)) => r is Done && opt_source(r->Done_0) == audiodb_artist_source_of(a),
                Ok(None) => r == AfterMbid::ByName(AudioDbByName { name: self.name }),
                Err(_) => r is Done && r->Done_0 is None,
            },
    {
        match reply {
            Ok(Some(a)) => AfterMbid::Done(audiodb_artist_source(&a)),
            Ok(None) => AfterMbid::ByName(AudioDbByName { name: self.name }),
            Err(_) => AfterMbid::Done(None),
        }
    }
}

impl AudioDbByName {
    /// A record is the source; anything else is none.
    pub fn on_reply(self, reply: Result<Option<AudioDbArtist>, String>) -> (r: Option<SourceEntry>)
        ensures
            opt_source(r) == (match reply {
                Ok(Some(a)) => audiodb_artist_source_of(a),
                _ => None,
            }),
    {
        match reply {
            Ok(Some(a)) => audiodb_artist_source(&a),
            _ => None,
        }
    }
}

/// The source in Wikidata's reply.
pub fn facts_from_reply(reply: Result<Option<WikidataEntity>, String>) -> (r: Option<SourceEntry>)
    ensures
        opt_source(r) == (match reply {
            Ok(Some(e)) => Some(facts_source(e)),
            _ => None,
        }),
{
    match reply {
        Ok(Some(e)) => Some(wikidata_source(&e)),
        _ => None,
    }
}

/// The key of Last.fm's biography: language plays no part in it.
pub open spec fn lastfm_bio_key_parts(m: BioModel) -> Seq<Seq<char>> {
    seq![
        "entity_bio"@,
        m.entity.entity_type.name(),
        normal_form(effective_name(m)),
        ProviderId::Lastfm.name(),
    ]
}

/// The key of TheAudioDB's biography.
pub open spec fn audiodb_bio_key_parts(m: BioModel) -> Seq<Seq<char>> {
    seq![
        "entity_bio"@,
        m.entity.entity_type.name(),
        normal_form(effective_name(m)),
        ProviderId::TheAudioDb.name(),
        "loc"@,
        m.locale,
    ]
}

/// What says that nobody had a biography.
pub open spec fn no_bio(entity: EntityModel) -> Seq<char> {
    "no bio found for "@ + entity.entity_type.name() + "="@ + entity.name
        + " across enabled providers"@
}

/// The answer made of what each provider has on an entity.
pub open spec fn bio_answer(
    m: BioModel,
    wikipedia: Option<SourceModel>,
    wikidata: Option<SourceModel>,
    lastfm: Option<SourceModel>,
    theaudiodb: Option<SourceModel>,
) -> ResponseModel {
    answer_of(seq![wikipedia, wikidata, lastfm, theaudiodb], m.catalogue.config, no_bio(m.entity))
}

impl BioFetches {
    fn ask_name(&self) -> (r: &str)
        ensures
            r@ == effective_name(self.query@),
    {
        match &self.query.canonical_name {
            Some(n) => n.as_str(),
            None => self.query.entity.name.as_str(),
        }
    }

    fn key_of_provider(&self, provider: ProviderId) -> (r: String)
        ensures
            r@ == key_of(
                bio_key_parts(
                    self.query@.entity,
                    self.query@.resolved_mbid,
                    provider,
                    self.query@.locale,
                ),
            ),
    {
        let mbid: Option<&str> = match &self.query.resolved_mbid {
            Some(m) => Some(m.as_str()),
            None => None,
        };
        bio_cache_key_with_locale(&self.query.entity, mbid, provider, self.query.locale.as_str())
    }

    /// The fetch from Wikipedia, if it may be asked.
    pub fn wikipedia(&self) -> (r: Option<CachedFetch<BioPages>>)
        ensures
            match r {
                Some(f) => {
                    &&& self.query@.catalogue.asks(ProviderId::Wikipedia)
                    &&& f.kind == SourceKind::Wikipedia
                    &&& f.key@ == key_of(
                        bio_key_parts(
                            self.query@.entity,
                            self.query@.resolved_mbid,
                            ProviderId::Wikipedia,
                            self.query@.locale,
                        ),
                    )
                    &&& f.next.serves(self.query@)
                },
                None => !self.query@.catalogue.asks(ProviderId::Wikipedia),
            },
    {
        if !self.query.catalogue.wants(ProviderId::Wikipedia) {
            return None;
        }
        let wikidata_url = if self.query.catalogue.wants(ProviderId::Wikidata) {
            clone_opt(&self.query.wikidata_url)
        } else {
            None
        };
        let next = BioPages {
            entity_type: self.query.entity.entity_type,
            name: self.query.entity.name.clone(),
            effective_name: self.ask_name().to_owned(),
            resolved: self.query.resolved_mbid.is_some(),
            locale: self.query.locale.clone(),
            wikipedia_url: clone_opt(&self.query.wikipedia_url),
            wikipedia_language: clone_opt(&self.query.wikipedia_language),
            wikidata_url,
        };
        Some(
            CachedFetch {
                kind: SourceKind::Wikipedia,
                key: self.key_of_provider(ProviderId::Wikipedia),
                next,
            },
        )
    }

    /// The fetch from Wikidata, if it may be asked; when the cache has no answer,
    /// the entity at the settled address is asked for, where there is one.
    pub fn wikidata(&self) -> (r: Option<CachedFetch<Option<String>>>)
        ensures
            match r {
                Some(f) => {
                    &&& self.query@.catalogue.asks(ProviderId::Wikidata)
                    &&& f.kind == SourceKind::Wikidata
                    &&& f.key@ == key_of(
                        bio_key_parts(
                            self.query@.entity,
                            self.query@.resolved_mbid,
                            ProviderId::Wikidata,
                            self.query@.locale,
                        ),
                    )
                    &&& opt_view(f.next) == self.query@.wikidata_url
                },
                None => !self.query@.catalogue.asks(ProviderId::Wikidata),
            },
    {
        if !self.query.catalogue.wants(ProviderId::Wikidata) {
            return None;
        }
        Some(
            CachedFetch {
                kind: SourceKind::Wikidata,
                key: self.key_of_provider(ProviderId::Wikidata),
                next: clone_opt(&self.query.wikidata_url),
            },
        )
    }

    /// The fetch from Last.fm, for artists, if it may be asked.
    pub fn lastfm(&self) -> (r: Option<CachedFetch<LastfmArtistAsk>>)
        ensures
            match r {
                Some(f) => {
                    &&& self.query@.catalogue.asks(ProviderId::Lastfm)
                    &&& self.query@.entity.entity_type == EntityType::Artist
                    &&& f.kind == SourceKind::Lastfm
                    &&& f.key@ == key_of(lastfm_bio_key_parts(self.query@))
                    &&& f.next.name@ == effective_name(self.query@)
                    &&& opt_view(f.next.mbid) == self.query@.entity.mbid
                },
                None => !self.query@.catalogue.asks(ProviderId::Lastfm)
                    || self.query@.entity.entity_type != EntityType::Artist,
            },
    {
        if !self.query.catalogue.wants(ProviderId::Lastfm) || self.query.entity.entity_type
            != EntityType::Artist {
            return None;
        }
        let name = normalise(self.ask_name());
        let parts: [&str; 4] = [
            "entity_bio",
            self.query.entity.entity_type.as_str(),
            name.as_str(),
            ProviderId::Lastfm.as_str(),
        ];
        assert(str_views(parts@) =~= lastfm_bio_key_parts(self.query@));
        Some(
            CachedFetch {
                kind: SourceKind::Lastfm,
                key: EnrichmentCache::key_for(parts.as_slice()),
                next: LastfmArtistAsk {
                    name: self.ask_name().to_owned(),
                    mbid: clone_opt(&self.query.entity.mbid),
                },
            },
        )
    }

    /// The fetch from TheAudioDB, for artists, if it may be asked: by identifier,
    /// where it is settled, else by name.
    pub fn theaudiodb(&self) -> (r: Option<CachedFetch<AudioDbAsk>>)
        ensures
            match r {
                Some(f) => {
                    &&& self.query@.catalogue.asks(ProviderId::TheAudioDb)
                    &&& self.query@.entity.entity_type == EntityType::Artist
                    &&& f.kind == SourceKind::TheAudioDb
                    &&& f.key@ == key_of(audiodb_bio_key_parts(self.query@))
                    &&& match f.next {
                        AudioDbAsk::ByMbid(a) => self.query@.resolved_mbid == Some(a.mbid@)
                            && a.name@ == effective_name(self.query@),
                        AudioDbAsk::ByName(a) => self.query@.resolved_mbid is None && a.name@
                            == effective_name(self.query@),
                    }
                },
                None => !self.query@.catalogue.asks(ProviderId::TheAudioDb)
                    || self.query@.entity.entity_type != EntityType::Artist,
            },
    {
        if !self.query.catalogue.wants(ProviderId::TheAudioDb) || self.query.entity.entity_type
            != EntityType::Artist {
            return None;
        }
        let name = normalise(self.ask_name());
        let parts: [&str; 6] = [
            "entity_bio",
            self.query.entity.entity_type.as_str(),
            name.as_str(),
            ProviderId::TheAudioDb.as_str(),
            "loc",
            self.query.locale.as_str(),
        ];
        assert(str_views(parts@) =~= audiodb_bio_key_parts(self.query@));
        let next = match &self.query.resolved_mbid {
            Some(m) => AudioDbAsk::ByMbid(
                AudioDbByMbid { mbid: m.clone(), name: self.ask_name().to_owned() },
            ),
            None => AudioDbAsk::ByName(AudioDbByName { name: self.ask_name().to_owned() }),
        };
        Some(
            CachedFetch {
                kind: SourceKind::TheAudioDb,
                key: EnrichmentCache::key_for(parts.as_slice()),
                next,
            },
        )
    }

    /// The answer made of what the fetches found.
    pub fn finish(
        self,
        wikipedia: Option<SourceEntry>,
        wikidata: Option<SourceEntry>,
        lastfm: Option<SourceEntry>,
        theaudiodb: Option<SourceEntry>,
    ) -> (r: CascadeResponse)
        ensures
            r@ == bio_answer(
                self.query@,
                opt_source(wikipedia),
                opt_source(wikidata),
                opt_source(lastfm),
                opt_source(theaudiodb),
            ),
            r@ == answer_of(
                seq![
                    opt_source(wikipedia),
                    opt_source(wikidata),
                    opt_source(lastfm),
                    opt_source(theaudiodb),
                ],
                self.query@.catalogue.config,
                no_bio(self.query@.entity),
            ),
    {
        let mut miss = joined("no bio found for ", self.query.entity.entity_type.as_str());
        miss.append("=");
        miss.append(self.query.entity.name.as_str());
        miss.append(" across enabled providers");
        let mut found: Vec<Option<SourceEntry>> = Vec::new();
        found.push(wikipedia);
        found.push(wikidata);
        found.push(lastfm);
        found.push(theaudiodb);
        assert(crate::metadata::fetch::found_views(found@) =~= seq![
            opt_source(wikipedia),
            opt_source(wikidata),
            opt_source(lastfm),
            opt_source(theaudiodb),
        ]);
        answer(found, &self.query.catalogue.config, miss)
    }
}

/// Whatever the providers have on an entity is shown, and nothing else.
pub proof fn law_every_biography_is_shown(
    m: BioModel,
    wikipedia: Option<SourceModel>,
    wikidata: Option<SourceModel>,
    lastfm: Option<SourceModel>,
    theaudiodb: Option<SourceModel>,
)
    ensures
        ({
            let r = bio_answer(m, wikipedia, wikidata, lastfm, theaudiodb);
            &&& r.status is Success <==> wikipedia is Some || wikidata is Some || lastfm is Some || theaudiodb is Some
            &&& !(r.status is Success) ==> r.status is NotFound && r.payload is None
                && r.sources.len() == 0 && r.detail == Some(no_bio(m.entity))
            &&& wikipedia matches Some(s) ==> r.sources.contains(s)
            &&& wikidata matches Some(s) ==> r.sources.contains(s)
            &&& lastfm matches Some(s) ==> r.sources.contains(s)
            &&& theaudiodb matches Some(s) ==> r.sources.contains(s)
            &&& forall|i: int|
                0 <= i < r.sources.len() ==> wikipedia == Some(#[trigger] r.sources[i]) || wikidata == Some(r.sources[i]) || lastfm == Some(r.sources[i]) || theaudiodb == Some(r.sources[i])
            &&& r.status is Success ==> r.payload == Some(r.sources[0].payload) && r.attribution
                == Some(r.sources[0].attribution)
        }),
{
    let found = seq![wikipedia, wikidata, lastfm, theaudiodb];
    law_the_answer_shows_every_find(found, m.catalogue.config, no_bio(m.entity));
    let r = bio_answer(m, wikipedia, wikidata, lastfm, theaudiodb);
    assert(found[0] == wikipedia);
    if let Some(s) = wikipedia {
        assert(found.contains(Some(s)));
    }
    assert(found[1] == wikidata);
    if let Some(s) = wikidata {
        assert(found.contains(Some(s)));
    }
    assert(found[2] == lastfm);
    if let Some(s) = lastfm {
        assert(found.contains(Some(s)));
    }
    assert(found[3] == theaudiodb);
    if let Some(s) = theaudiodb {
        assert(found.contains(Some(s)));
    }
    assert forall|i: int| 0 <= i < r.sources.len() implies wikipedia == Some(#[trigger] r.sources[i]) || wikidata == Some(r.sources[i]) || lastfm == Some(r.sources[i]) || theaudiodb == Some(r.sources[i]) by {
        let s = r.sources[i];
        assert(r.sources.contains(s));
        assert(found.contains(Some(s)));
        let k = choose|k: int| 0 <= k < found.len() && found[k] == Some(s);
    }
}

/// A match of sufficient score settles who is meant, by identifier and by name;
/// one of a lower score, none, and a failure settle nothing. Nothing else of the
/// query changes.
pub proof fn law_a_sure_match_settles_who_is_meant(m: BioModel, hit: ArtistHit, e: String)
    ensures
        ({
            let after = searched(m, Ok(Some(hit)));
            &&& hit.confidence_percent >= 85 ==> after.resolved_mbid == Some(hit.artist_mbid@)
                && effective_name(after) == hit.canonical_name@
            &&& hit.confidence_percent < 85 ==> after == m
            &&& after.entity == m.entity && after.locale == m.locale && after.catalogue
                == m.catalogue && after.wikipedia_url == m.wikipedia_url && after.wikidata_url
                == m.wikidata_url
        }),
        searched(m, Ok(None)) == m,
        searched(m, Err(e)) == m,
{
}

/// A lookup tells the artist's pages, and the name where the search told none; a
/// failed one changes nothing.
pub proof fn law_a_lookup_tells_the_pages(m: BioModel, l: ArtistLookup, e: String)
    ensures
        ({
            let after = looked_up(m, Ok(l));
            &&& after.wikipedia_url == opt_view(l.wikipedia_url)
            &&& after.wikipedia_language == opt_view(l.wikipedia_language)
            &&& after.wikidata_url == opt_view(l.wikidata_url)
            &&& m.canonical_name is Some ==> effective_name(after) == effective_name(m)
            &&& m.canonical_name is None ==> effective_name(after) == l.canonical_name@
            &&& after.entity == m.entity && after.locale == m.locale && after.catalogue
                == m.catalogue && after.resolved_mbid == m.resolved_mbid
        }),
        looked_up(m, Err(e)) == m,
        m.canonical_name is None ==> effective_name(m) == m.entity.name,
{
}

/// A request means the entity it names, or else the artist it names; one that
/// names nobody is refused. A blank name names nobody.
pub proof fn law_the_named_entity_is_meant(q: EntityBioRequest)
    ensures
        q.entity matches Some(e) ==> (requested_entity(q) is Ok <==> trim_of(e.name@).len() > 0) && (
        requested_entity(q) matches Ok(m) ==> m.name == e.name@ && m.entity_type == e.entity_type
            && m.mbid == opt_view(e.mbid)),
        q.entity is None ==> (requested_entity(q) is Ok <==> q.artist is Some && trim_of(
            q.artist->Some_0@,
        ).len() > 0) && (requested_entity(q) matches Ok(m) ==> m.name == trim_of(q.artist->Some_0@)
            && m.entity_type == EntityType::Artist && m.mbid == opt_view(q.artist_mbid)),
{
}

/// A query starts with what the caller knows: the identifier, where one is given,
/// and nothing that only a provider can tell.
pub proof fn law_queries_start_with_what_is_known(
    catalogue: ProviderCatalogue,
    entity: EntityModel,
    locale: Option<Seq<char>>,
)
    ensures
        ({
            let m = fresh_bio(catalogue, entity, locale);
            &&& m.entity == entity && m.catalogue == catalogue && m.locale == language_of(locale)
            &&& m.resolved_mbid is Some <==> entity.mbid is Some && trim_of(
                entity.mbid->Some_0,
            ).len() > 0
            &&& m.resolved_mbid matches Some(id) ==> id == trim_of(entity.mbid->Some_0)
            &&& m.canonical_name is None && m.wikipedia_url is None && m.wikidata_url is None
        }),
{
}

/// Somebody is asked as long as one of the five providers may be; Last.fm and
/// TheAudioDB also need a client.
pub proof fn law_one_provider_suffices_for_a_biography(c: ProviderCatalogue)
    ensures
        c.asks(ProviderId::MusicBrainz) || c.asks(ProviderId::Wikipedia) || c.asks(
            ProviderId::Wikidata,
        ) || c.asks(ProviderId::Lastfm) || c.asks(ProviderId::TheAudioDb) ==> has_bio_provider(c),
        has_bio_provider(c) ==> c.config.permits(ProviderId::MusicBrainz) || c.config.permits(
            ProviderId::Wikipedia,
        ) || c.config.permits(ProviderId::Wikidata) || c.config.permits(ProviderId::Lastfm)
            || c.config.permits(ProviderId::TheAudioDb),
        !c.config.permits(ProviderId::MusicBrainz) && !c.config.permits(ProviderId::Wikipedia)
            && !c.config.permits(ProviderId::Wikidata) && !c.has(ProviderId::Lastfm) && !c.has(
            ProviderId::TheAudioDb,
        ) ==> !has_bio_provider(c),
{
}

/// The page of an entity on a site is the one that its first link to the site
/// names.
pub proof fn law_the_first_link_names_the_page(links: Seq<Sitelink>, k: int)
    requires
        0 <= k < links.len(),
        forall|i: int| 0 <= i < k ==> (#[trigger] links[i]).site@ != links[k].site@,
    ensures
        sitelink_title(links, links[k].site@) == Some(links[k].title@),
    decreases k,
{
    if k > 0 {
        let rest = links.drop_first();
        assert(links[0].site@ != links[k].site@);
        assert forall|i: int| 0 <= i < k - 1 implies (#[trigger] rest[i]).site@ != rest[k
            - 1].site@ by {
            assert(rest[i] == links[i + 1]);
        }
        law_the_first_link_names_the_page(rest, k - 1);
    }
}

/// Pages are tried from the surest to the least sure: the entity's own page in the
/// operator's language first; the settled address before the English page where it
/// is in the operator's language, and behind it where it is not; and the bare name
/// last of all, in the operator's language and then in English. None that is known
/// is left out, and none is tried twice over.
pub proof fn law_the_surest_page_comes_first(
    locale: Seq<char>,
    name: Seq<char>,
    by_name: bool,
    url: Option<Seq<char>>,
    url_language: Option<Seq<char>>,
    entity: Option<WikidataEntity>,
)
    ensures
        ({
            let p = pages_to_try(locale, name, by_name, url, url_language, entity);
            let own = page_title(entity, locale + "wiki"@);
            let english = if locale != "en"@ {
                page_title(entity, "enwiki"@)
            } else {
                None
            };
            let a: int = if own is Some {
                1
            } else {
                0
            };
            let b: int = if english is Some {
                1
            } else {
                0
            };
            let c: int = if url is Some {
                1
            } else {
                0
            };
            let d: int = if !by_name {
                0
            } else if locale == "en"@ {
                1
            } else {
                2
            };
            &&& p.len() == a + b + c + d
            &&& own matches Some(t) ==> p[0] == QueryModel::Title(t, locale)
            &&& url matches Some(u) ==> p[if url_language == Some(locale) {
                a
            } else {
                a + b
            }] == QueryModel::Url(u)
            &&& english matches Some(t) ==> p[if url_language == Some(locale) {
                a + c
            } else {
                a
            }] == QueryModel::Title(t, "en"@)
            &&& by_name ==> p[a + b + c] == QueryModel::Title(name, locale)
            &&& by_name && locale != "en"@ ==> p[a + b + c + 1] == QueryModel::Title(name, "en"@)
        }),
{
    let foreign = locale != "en"@;
    let local = url_language == Some(locale);
    let s1 = titled(page_title(entity, locale + "wiki"@), locale);
    let s2 = if local {
        addressed(url)
    } else {
        Seq::empty()
    };
    let s3 = if foreign {
        titled(page_title(entity, "enwiki"@), "en"@)
    } else {
        Seq::empty()
    };
    let s4 = if local {
        Seq::empty()
    } else {
        addressed(url)
    };
    let s5 = one_if(by_name, QueryModel::Title(name, locale));
    let s6 = one_if(by_name && foreign, QueryModel::Title(name, "en"@));
    let p = pages_to_try(locale, name, by_name, url, url_language, entity);
    assert(p == s1 + s2 + s3 + s4 + s5 + s6);
    let n1 = s1.len() as int;
    let n2 = n1 + s2.len();
    let n3 = n2 + s3.len();
    let n4 = n3 + s4.len();
    let n5 = n4 + s5.len();
    assert(forall|i: int| 0 <= i < s1.len() ==> p[i] == s1[i]);
    assert(forall|i: int| 0 <= i < s2.len() ==> p[n1 + i] == #[trigger] s2[i]);
    assert(forall|i: int| 0 <= i < s3.len() ==> p[n2 + i] == #[trigger] s3[i]);
    assert(forall|i: int| 0 <= i < s4.len() ==> p[n3 + i] == #[trigger] s4[i]);
    assert(forall|i: int| 0 <= i < s5.len() ==> p[n4 + i] == #[trigger] s5[i]);
    assert(forall|i: int| 0 <= i < s6.len() ==> p[n5 + i] == #[trigger] s6[i]);
    assert(s1.len() > 0 ==> p[0] == s1[0]);
    assert(s2.len() > 0 ==> p[n1] == s2[0]);
    assert(s3.len() > 0 ==> p[n2] == s3[0]);
    assert(s4.len() > 0 ==> p[n3] == s4[0]);
    assert(s5.len() > 0 ==> p[n4] == s5[0]);
    assert(s6.len() > 0 ==> p[n5] == s6[0]);
}

/// An artist is asked for by bare name only where the name was settled to another
/// one; any other entity may be.
pub proof fn law_when_the_bare_name_is_asked_for(m: BioModel)
    ensures
        may_search_by_name(m) <==> m.entity.entity_type != EntityType::Artist || (m.resolved_mbid
            is Some && m.canonical_name is Some && m.canonical_name->Some_0 != m.entity.name),
{
}

/// What Last.fm and TheAudioDB have on an artist is kept apart: by provider, by
/// artist, and TheAudioDB's by language too.
pub proof fn law_artist_keys_are_told_apart(m: BioModel, n: BioModel)
    ensures
        lastfm_bio_key_parts(m) != audiodb_bio_key_parts(n),
        normal_form(effective_name(m)) != normal_form(effective_name(n)) ==> lastfm_bio_key_parts(m)
            != lastfm_bio_key_parts(n) && audiodb_bio_key_parts(m) != audiodb_bio_key_parts(n),
        m.entity.entity_type != n.entity.entity_type ==> lastfm_bio_key_parts(m)
            != lastfm_bio_key_parts(n) && audiodb_bio_key_parts(m) != audiodb_bio_key_parts(n),
        m.locale != n.locale ==> audiodb_bio_key_parts(m) != audiodb_bio_key_parts(n),
{
    assert(lastfm_bio_key_parts(m).len() == 4 && audiodb_bio_key_parts(n).len() == 6);
    assert(lastfm_bio_key_parts(m)[2] == normal_form(effective_name(m)));
    assert(lastfm_bio_key_parts(n)[2] == normal_form(effective_name(n)));
    assert(audiodb_bio_key_parts(m)[2] == normal_form(effective_name(m)));
    assert(audiodb_bio_key_parts(n)[2] == normal_form(effective_name(n)));
    assert(audiodb_bio_key_parts(m)[5] == m.locale && audiodb_bio_key_parts(n)[5] == n.locale);
    if m.entity.entity_type != n.entity.entity_type {
        crate::metadata::cascade::law_entity_names_are_distinct(
            m.entity.entity_type,
            n.entity.entity_type,
        );
        assert(lastfm_bio_key_parts(m)[1] != lastfm_bio_key_parts(n)[1]);
        assert(audiodb_bio_key_parts(m)[1] != audiodb_bio_key_parts(n)[1]);
    }
}

/// A name alone, where no identifier is known, tells entities apart by their
/// normal forms.
pub proof fn law_named_entities_are_told_apart(
    a: EntityModel,
    b: EntityModel,
    p: ProviderId,
    locale: Seq<char>,
)
    ensures
        normal_form(a.name) != normal_form(b.name) ==> bio_key_parts(a, None, p, locale)
            != bio_key_parts(b, None, p, locale),
{
    assert(bio_key_parts(a, None, p, locale)[3] == normal_form(a.name));
    assert(bio_key_parts(b, None, p, locale)[3] == normal_form(b.name));
}

/// Somebody is asked for a biography exactly if the request, in the one version there
/// is, names an entity and some provider may be asked. Who is meant is looked up by the
/// identifier that the caller gave, searched for without one, and taken as named where
/// MusicBrainz is not asked.
pub proof fn law_who_gets_a_biography(q: EntityBioRequest, c: ProviderCatalogue, r: BioStart)
    requires
        bio_starts(Decoded::Request(q), c, r),
    ensures
        !(r is Refused),
        r is Answer <==> q.v != 1 || requested_entity(q) is Err || !has_bio_provider(c),
        r is Answer && (q.v != 1 || requested_entity(q) is Err) ==> r->Answer_0@.status
            == CascadeStatus::BadRequest,
        r is Answer && q.v == 1 && requested_entity(q) is Ok ==> r->Answer_0@.status
            == CascadeStatus::NotConfigured,
        r is Answer ==> r->Answer_0@.payload is None && r->Answer_0@.sources.len() == 0,
        r is Fetch ==> !c.asks(ProviderId::MusicBrainz) && r->Fetch_0.query@.entity
            == requested_entity(q)->Ok_0,
        r is Search ==> c.asks(ProviderId::MusicBrainz) && r->Search_0.query@.resolved_mbid is None
            && r->Search_0.query@.entity == requested_entity(q)->Ok_0,
        r is LookUp ==> c.asks(ProviderId::MusicBrainz) && r->LookUp_0.query@.resolved_mbid is Some
            && r->LookUp_0.query@.entity == requested_entity(q)->Ok_0,
{
}

/// A request that says nothing is a bad request; one that cannot be read is refused
/// for the reason that it cannot.
pub proof fn law_unreadable_biography_requests(e: String, c: ProviderCatalogue, r: BioStart)
    ensures
        bio_starts(Decoded::Empty, c, r) ==> r is Answer && r->Answer_0@.status
            == CascadeStatus::BadRequest && r->Answer_0@.detail == Some("empty payload"@),
        bio_starts(Decoded::Rejected(e), c, r) ==> r == BioStart::Refused(e),
{
}

} // verus!
