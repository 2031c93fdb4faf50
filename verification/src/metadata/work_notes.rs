//! Notes on musical works, from Wikipedia and Wikidata.
//!
//! MusicBrainz settles which work is meant; its pages are then asked for.

use crate::json::opt_view;
use crate::metadata::cache::{key_of, EnrichmentCache};
use crate::metadata::cascade::{
    bare_response, CascadeResponse, CascadeStatus, ProviderCatalogue, ProviderId, SourceEntry,
};
use crate::metadata::config::{key_text, non_blank};
use crate::metadata::fetch::{
    answer, answer_of, found_views, languages_for, query_views, title_queries, titles_by_language,
    CachedFetch, QueryModel, SummaryLadder, SummaryQuery,
};
use crate::metadata::locale::{language_of, normalise as normalise_locale};
use crate::metadata::normalise::{normal_form, normalise};
use crate::metadata::request::Decoded;
use crate::metadata::sources::{
    opt_source, wikidata_work_source, work_facts_source, SourceKind, WikidataEntity, WorkIdentity,
};
use crate::text::{clone_opt, decimal, decimal_of, joined, str_views, trim_of, views};
use crate::metadata::cascade::{ResponseModel, SourceModel};
use crate::metadata::fetch::law_the_answer_shows_every_find;
use crate::metadata::cascade::law_provider_names_round_trip;
use crate::metadata::fetch::law_operator_language_comes_first;
use vstd::prelude::*;

verus! {

/// The search score from which a match settles which work is meant.
pub const WORK_SEARCH_CONFIDENCE_FLOOR: u32 = 85;

/// A request for notes on a work.
pub struct WorkNotesCascadeRequest {
    pub v: u8,
    pub work_name: Option<String>,
    pub work_mbid: Option<String>,
    pub composer: Option<String>,
    pub locale: Option<String>,
}

/// Why nobody is asked for notes on a work.
pub const NO_WORK_PROVIDER: &'static str =
    "every work-notes provider is disabled or unavailable on this device; enable at least one under Settings → Metadata → Sources";

/// Whether any provider may be asked for notes on a work.
pub open spec fn has_work_provider(c: ProviderCatalogue) -> bool {
    ||| c.asks(ProviderId::MusicBrainz)
    ||| c.asks(ProviderId::Wikipedia)
    ||| c.asks(ProviderId::Wikidata)
}

/// A query for notes on a work.
pub struct WorkQuery {
    pub catalogue: ProviderCatalogue,
    pub work_name: Option<String>,
    pub composer: Option<String>,
    pub locale: String,
    /// Which work is meant, as far as settled.
    pub work_mbid: Option<String>,
    pub canonical_title: Option<String>,
    pub work_type: Option<String>,
    pub wikipedia_url: Option<String>,
    pub wikidata_url: Option<String>,
}

/// What a [`WorkQuery`] says.
pub struct WorkModel {
    pub catalogue: ProviderCatalogue,
    pub work_name: Option<Seq<char>>,
    pub composer: Option<Seq<char>>,
    pub locale: Seq<char>,
    pub work_mbid: Option<Seq<char>>,
    pub canonical_title: Option<Seq<char>>,
    pub work_type: Option<Seq<char>>,
    pub wikipedia_url: Option<Seq<char>>,
    pub wikidata_url: Option<Seq<char>>,
}

impl View for WorkQuery {
    type V = WorkModel;

    open spec fn view(&self) -> WorkModel {
        WorkModel {
            catalogue: self.catalogue,
            work_name: opt_view(self.work_name),
            composer: opt_view(self.composer),
            locale: self.locale@,
            work_mbid: opt_view(self.work_mbid),
            canonical_title: opt_view(self.canonical_title),
            work_type: opt_view(self.work_type),
            wikipedia_url: opt_view(self.wikipedia_url),
            wikidata_url: opt_view(self.wikidata_url),
        }
    }
}

/// A query of which nothing is settled but what the caller knows.
pub open spec fn fresh_work(q: WorkNotesCascadeRequest, catalogue: ProviderCatalogue) -> WorkModel {
    WorkModel {
        catalogue,
        work_name: key_text(opt_view(q.work_name)),
        composer: key_text(opt_view(q.composer)),
        locale: language_of(opt_view(q.locale)),
        work_mbid: key_text(opt_view(q.work_mbid)),
        canonical_title: None,
        work_type: None,
        wikipedia_url: None,
        wikidata_url: None,
    }
}

// ---------------------------------------------------------------------
// Which work is meant
// ---------------------------------------------------------------------

/// The best match of a work search.
pub struct WorkHit {
    pub work_mbid: String,
    pub confidence_percent: u32,
}

/// What a lookup tells of a work.
pub struct WorkLookup {
    pub canonical_title: String,
    pub work_type: Option<String>,
    pub wikipedia_url: Option<String>,
    pub wikidata_url: Option<String>,
}

/// A query whose work is to be searched for by name and composer.
pub struct WorkSearch {
    pub query: WorkQuery,
}

/// A query whose work is to be looked up by identifier.
pub struct WorkLookUp {
    pub query: WorkQuery,
}

/// A query that is settled: its sources are to be fetched.
pub struct WorkFetches {
    pub query: WorkQuery,
}

/// Where a request leads.
pub enum WorkStart {
    /// The request cannot be read.
    Refused(String),
    Answer(CascadeResponse),
    Search(WorkSearch),
    LookUp(WorkLookUp),
    Fetch(WorkFetches),
}

/// Where a search leads.
pub enum AfterWorkSearch {
    LookUp(WorkLookUp),
    Fetch(WorkFetches),
}

/// Where a request for notes on a work leads.
pub open spec fn work_starts(
    decoded: Decoded<WorkNotesCascadeRequest>,
    catalogue: ProviderCatalogue,
    r: WorkStart,
) -> bool {
    match decoded {
        Decoded::Empty => r is Answer && r->Answer_0@ == bare_response(
            CascadeStatus::BadRequest,
            Some("empty payload"@),
        ),
        Decoded::Rejected(e) => r == WorkStart::Refused(e),
        Decoded::Request(q) => if q.v != 1 {
            r is Answer && r->Answer_0@ == bare_response(
                CascadeStatus::BadRequest,
                Some("unsupported v: "@ + decimal_of(q.v as nat)),
            )
        } else {
            let fresh = fresh_work(q, catalogue);
            if fresh.work_name is None && fresh.work_mbid is None {
                r is Answer && r->Answer_0@ == bare_response(
                    CascadeStatus::BadRequest,
                    Some("at least one of `work_name` or `work_mbid` is required"@),
                )
            } else if !has_work_provider(catalogue) {
                r is Answer && r->Answer_0@ == bare_response(
                    CascadeStatus::NotConfigured,
                    Some(NO_WORK_PROVIDER@),
                )
            } else if !catalogue.asks(ProviderId::MusicBrainz) {
                r is Fetch && r->Fetch_0.query@ == fresh
            } else if fresh.work_mbid is None {
                r is Search && r->Search_0.query@ == fresh
            } else {
                r is LookUp && r->LookUp_0.query@ == fresh
            }
        },
    }
}

/// Starts a query: MusicBrainz is searched unless the identifier is known, and
/// left out if it may not be asked.
pub fn begin_work_notes(
    decoded: Decoded<WorkNotesCascadeRequest>,
    catalogue: ProviderCatalogue,
) -> (r: WorkStart)
    ensures
        work_starts(decoded, catalogue, r),
{
    let q = match decoded {
        Decoded::Empty => {
            return WorkStart::Answer(CascadeResponse::bad_request("empty payload".to_owned()));
        },
        Decoded::Rejected(e) => {
            return WorkStart::Refused(e);
        },
        Decoded::Request(q) => q,
    };
    if q.v != 1 {
        return WorkStart::Answer(
            CascadeResponse::bad_request(joined("unsupported v: ", decimal(q.v as u64).as_str())),
        );
    }
    let work_name = non_blank(&q.work_name);
    let work_mbid = non_blank(&q.work_mbid);
    if work_name.is_none() && work_mbid.is_none() {
        return WorkStart::Answer(
            CascadeResponse::bad_request(
                "at least one of `work_name` or `work_mbid` is required".to_owned(),
            ),
        );
    }
    let any = catalogue.wants(ProviderId::MusicBrainz) || catalogue.wants(ProviderId::Wikipedia)
        || catalogue.wants(ProviderId::Wikidata);
    if !any {
        return WorkStart::Answer(CascadeResponse::not_configured(NO_WORK_PROVIDER.to_owned()));
    }
    let hint: Option<&str> = match &q.locale {
        Some(l) => Some(l.as_str()),
        None => None,
    };
    let known = work_mbid.is_some();
    let query = WorkQuery {
        catalogue,
        work_name,
        composer: non_blank(&q.composer),
        locale: normalise_locale(hint),
        work_mbid,
        canonical_title: None,
        work_type: None,
        wikipedia_url: None,
        wikidata_url: None,
    };
    if !catalogue.wants(ProviderId::MusicBrainz) {
        WorkStart::Fetch(WorkFetches { query })
    } else if known {
        WorkStart::LookUp(WorkLookUp { query })
    } else {
        WorkStart::Search(WorkSearch { query })
    }
}

/// What a search settles: a match of sufficient score.
pub open spec fn searched(m: WorkModel, found: Result<Option<WorkHit>, String>) -> WorkModel {
    match found {
        Ok(Some(hit)) => if hit.confidence_percent >= WORK_SEARCH_CONFIDENCE_FLOOR {
            WorkModel { work_mbid: Some(hit.work_mbid@), ..m }
        } else {
            m
        },
        _ => m,
    }
}

/// What a lookup settles: the title, the type and the pages.
pub open spec fn looked_up(m: WorkModel, found: Result<WorkLookup, String>) -> WorkModel {
    match found {
        Ok(l) => WorkModel {
            canonical_title: Some(l.canonical_title@),
            work_type: opt_view(l.work_type),
            wikipedia_url: opt_view(l.wikipedia_url),
            wikidata_url: opt_view(l.wikidata_url),
            ..m
        },
        Err(_) => m,
    }
}

impl WorkSearch {
    /// The name to search for.
    pub fn name(&self) -> (r: &str)
        requires
            self.query@.work_name is Some,
        ensures
            Some(r@) == self.query@.work_name,
    {
        match &self.query.work_name {
            Some(n) => n.as_str(),
            None => "",
        }
    }

    /// The composer to search for, where the caller names one.
    pub fn composer(&self) -> (r: &Option<String>)
        ensures
            opt_view(*r) == self.query@.composer,
    {
        &self.query.composer
    }

    /// Takes in what came of the search.
    pub fn on_search(self, found: Result<Option<WorkHit>, String>) -> (r: AfterWorkSearch)
        requires
            self.query@.work_mbid is None,
        ensures
            ({
                let m = searched(self.query@, found);
                if m.work_mbid is Some {
                    r is LookUp && r->LookUp_0.query@ == m
                } else {
                    r is Fetch && r->Fetch_0.query@ == m
                }
            }),
    {
        let mut query = self.query;
        if let Ok(Some(hit)) = found {
            if hit.confidence_percent >= WORK_SEARCH_CONFIDENCE_FLOOR {
                query.work_mbid = Some(hit.work_mbid);
                return AfterWorkSearch::LookUp(WorkLookUp { query });
            }
        }
        AfterWorkSearch::Fetch(WorkFetches { query })
    }
}

impl WorkLookUp {
    /// The identifier to look up.
    pub fn mbid(&self) -> (r: &str)
        requires
            self.query@.work_mbid is Some,
        ensures
            Some(r@) == self.query@.work_mbid,
    {
        match &self.query.work_mbid {
            Some(m) => m.as_str(),
            None => "",
        }
    }

    /// Takes in what came of the lookup.
    pub fn on_lookup(self, found: Result<WorkLookup, String>) -> (r: WorkFetches)
        ensures
            r.query@ == looked_up(self.query@, found),
    {
        let mut query = self.query;
        if let Ok(l) = found {
            query.canonical_title = Some(l.canonical_title);
            query.work_type = l.work_type;
            query.wikipedia_url = l.wikipedia_url;
            query.wikidata_url = l.wikidata_url;
        }
        WorkFetches { query }
    }
}

// ---------------------------------------------------------------------
// Fetches
// ---------------------------------------------------------------------

/// The name that a work is kept under: the canonical title, else the caller's.
pub open spec fn kept_name(m: WorkModel) -> Seq<char> {
    match m.canonical_title {
        Some(t) => t,
        None => match m.work_name {
            Some(n) => n,
            None => Seq::empty(),
        },
    }
}

/// What a key of notes on a work is made of.
pub open spec fn work_key_parts(m: WorkModel, provider: ProviderId) -> Seq<Seq<char>> {
    seq![
        "work_notes"@,
        "work"@,
        normal_form(kept_name(m)),
        provider.name(),
        "loc"@,
        m.locale,
    ]
}

/// The titles under which a work may have a page.
pub open spec fn work_titles(m: WorkModel) -> Seq<Seq<char>> {
    (match m.canonical_title {
        Some(t) => seq![t],
        None => Seq::empty(),
    }) + (match m.work_name {
        Some(n) => seq![n],
        None => Seq::empty(),
    })
}

/// The pages to try: the settled address alone, where there is one, else the
/// titles in the operator's language and then in English.
pub open spec fn work_pages(m: WorkModel) -> Seq<QueryModel> {
    match m.wikipedia_url {
        Some(u) => seq![QueryModel::Url(u)],
        None => titles_by_language(work_titles(m), languages_for(m.locale)),
    }
}

/// A work's pages, and what is known of the work.
pub struct WorkPages {
    pub ladder: SummaryLadder,
    pub identity: WorkIdentity,
}

/// A work's entity, and what is known of the work.
pub struct WorkFacts {
    pub wikidata_url: String,
    pub identity: WorkIdentity,
}

impl WorkFacts {
    /// The facts are the source.
    pub fn on_reply(self, reply: Result<Option<WikidataEntity>, String>) -> (r: Option<SourceEntry>)
        ensures
            opt_source(r) == (match reply {
                Ok(Some(e)) => Some(work_facts_source(e, self.identity)),
                _ => None,
            }),
    {
        match reply {
            Ok(Some(e)) => Some(wikidata_work_source(&e, &self.identity)),
            _ => None,
        }
    }
}

/// What says that nobody had notes on a work.
pub open spec fn no_work_notes(m: WorkModel) -> Seq<char> {
    "no work notes found for "@ + (match m.canonical_title {
        Some(t) => t,
        None => match m.work_name {
            Some(n) => n,
            None => "the requested work"@,
        },
    }) + " across enabled providers"@
}

/// The answer made of what each provider has on a work.
pub open spec fn work_answer(
    m: WorkModel,
    wikipedia: Option<SourceModel>,
    wikidata: Option<SourceModel>,
) -> ResponseModel {
    answer_of(seq![wikipedia, wikidata], m.catalogue.config, no_work_notes(m))
}

impl WorkFetches {
    fn key_of_provider(&self, provider: ProviderId) -> (r: String)
        ensures
            r@ == key_of(work_key_parts(self.query@, provider)),
    {
        let name = match &self.query.canonical_title {
            Some(t) => t.clone(),
            None => match &self.query.work_name {
                Some(n) => n.clone(),
                None => String::new(),
            },
        };
        assert(name@ =~= kept_name(self.query@));
        let kept = normalise(name.as_str());
        let parts: [&str; 6] = [
            "work_notes",
            "work",
            kept.as_str(),
            provider.as_str(),
            "loc",
            self.query.locale.as_str(),
        ];
        assert(str_views(parts@) =~= work_key_parts(self.query@, provider));
        EnrichmentCache::key_for(parts.as_slice())
    }

    fn identity(&self) -> (r: WorkIdentity)
        ensures
            opt_view(r.work_mbid) == self.query@.work_mbid,
            opt_view(r.work_type) == self.query@.work_type,
    {
        WorkIdentity {
            work_mbid: clone_opt(&self.query.work_mbid),
            work_type: clone_opt(&self.query.work_type),
        }
    }

    /// The fetch from Wikipedia, if it may be asked.
    pub fn wikipedia(&self) -> (r: Option<CachedFetch<WorkPages>>)
        ensures
            match r {
                Some(f) => {
                    &&& self.query@.catalogue.asks(ProviderId::Wikipedia)
                    &&& f.kind == SourceKind::Wikipedia
                    &&& f.key@ == key_of(work_key_parts(self.query@, ProviderId::Wikipedia))
                    &&& f.next.ladder.well_formed()
                    &&& f.next.ladder.left() == work_pages(self.query@)
                    &&& opt_view(f.next.identity.work_mbid) == self.query@.work_mbid
                    &&& opt_view(f.next.identity.work_type) == self.query@.work_type
                },
                None => !self.query@.catalogue.asks(ProviderId::Wikipedia),
            },
    {
        if !self.query.catalogue.wants(ProviderId::Wikipedia) {
            return None;
        }
        let queries = match &self.query.wikipedia_url {
            Some(u) => {
                let mut one: Vec<SummaryQuery> = Vec::new();
                one.push(SummaryQuery::Url(u.clone()));
                assert(query_views(one@) =~= seq![QueryModel::Url(u@)]);
                one
            },
            None => {
                let mut titles: Vec<String> = Vec::new();
                if let Some(t) = &self.query.canonical_title {
                    titles.push(t.clone());
                }
                if let Some(n) = &self.query.work_name {
                    titles.push(n.clone());
                }
                assert(views(titles@) =~= work_titles(self.query@));
                title_queries(&titles, self.query.locale.as_str())
            },
        };
        Some(
            CachedFetch {
                kind: SourceKind::Wikipedia,
                key: self.key_of_provider(ProviderId::Wikipedia),
                next: WorkPages { ladder: SummaryLadder::new(queries), identity: self.identity() },
            },
        )
    }

    /// The fetch from Wikidata, if it may be asked and the work has an entity.
    pub fn wikidata(&self) -> (r: Option<CachedFetch<WorkFacts>>)
        ensures
            match r {
                Some(f) => {
                    &&& self.query@.catalogue.asks(ProviderId::Wikidata)
                    &&& f.kind == SourceKind::Wikidata
                    &&& f.key@ == key_of(work_key_parts(self.query@, ProviderId::Wikidata))
                    &&& Some(f.next.wikidata_url@) == self.query@.wikidata_url
                    &&& opt_view(f.next.identity.work_mbid) == self.query@.work_mbid
                    &&& opt_view(f.next.identity.work_type) == self.query@.work_type
                },
                None => !self.query@.catalogue.asks(ProviderId::Wikidata)
                    || self.query@.wikidata_url is None,
            },
    {
        if !self.query.catalogue.wants(ProviderId::Wikidata) {
            return None;
        }
        match &self.query.wikidata_url {
            Some(u) => Some(
                CachedFetch {
                    kind: SourceKind::Wikidata,
                    key: self.key_of_provider(ProviderId::Wikidata),
                    next: WorkFacts { wikidata_url: u.clone(), identity: self.identity() },
                },
            ),
            None => None,
        }
    }

    /// The answer made of what the fetches found.
    pub fn finish(self, wikipedia: Option<SourceEntry>, wikidata: Option<SourceEntry>) -> (r:
        CascadeResponse)
        ensures
            r@ == work_answer(
                self.query@,
                opt_source(wikipedia),
                opt_source(wikidata),
            ),
            r@ == answer_of(
                seq![opt_source(wikipedia), opt_source(wikidata)],
                self.query@.catalogue.config,
                no_work_notes(self.query@),
            ),
    {
        let name = match &self.query.canonical_title {
            Some(t) => t.clone(),
            None => match &self.query.work_name {
                Some(n) => n.clone(),
                None => "the requested work".to_owned(),
            },
        };
        let mut miss = joined("no work notes found for ", name.as_str());
        miss.append(" across enabled providers");
        let mut found: Vec<Option<SourceEntry>> = Vec::new();
        found.push(wikipedia);
        found.push(wikidata);
        assert(found_views(found@) =~= seq![opt_source(wikipedia), opt_source(wikidata)]);
        answer(found, &self.query.catalogue.config, miss)
    }
}

/// Whatever the providers have on a work is shown, and nothing else.
pub proof fn law_all_work_notes_are_shown(
    m: WorkModel,
    wikipedia: Option<SourceModel>,
    wikidata: Option<SourceModel>,
)
    ensures
        ({
            let r = work_answer(m, wikipedia, wikidata);
            &&& r.status is Success <==> wikipedia is Some || wikidata is Some
            &&& !(r.status is Success) ==> r.status is NotFound && r.payload is None
                && r.sources.len() == 0 && r.detail == Some(no_work_notes(m))
            &&& wikipedia matches Some(s) ==> r.sources.contains(s)
            &&& wikidata matches Some(s) ==> r.sources.contains(s)
            &&& forall|i: int|
                0 <= i < r.sources.len() ==> wikipedia == Some(#[trigger] r.sources[i]) || wikidata == Some(r.sources[i])
            &&& r.status is Success ==> r.payload == Some(r.sources[0].payload) && r.attribution
                == Some(r.sources[0].attribution)
        }),
{
    let found = seq![wikipedia, wikidata];
    law_the_answer_shows_every_find(found, m.catalogue.config, no_work_notes(m));
    let r = work_answer(m, wikipedia, wikidata);
    assert(found[0] == wikipedia);
    if let Some(s) = wikipedia {
        assert(found.contains(Some(s)));
    }
    assert(found[1] == wikidata);
    if let Some(s) = wikidata {
        assert(found.contains(Some(s)));
    }
    assert forall|i: int| 0 <= i < r.sources.len() implies wikipedia == Some(#[trigger] r.sources[i]) || wikidata == Some(r.sources[i]) by {
        let s = r.sources[i];
        assert(r.sources.contains(s));
        assert(found.contains(Some(s)));
        let k = choose|k: int| 0 <= k < found.len() && found[k] == Some(s);
    }
}

/// A match of sufficient score settles which work is meant; anything else settles
/// nothing.
pub proof fn law_a_sure_match_settles_the_work(m: WorkModel, hit: WorkHit, e: String)
    ensures
        hit.confidence_percent >= 85 ==> searched(m, Ok(Some(hit))) == (WorkModel {
            work_mbid: Some(hit.work_mbid@),
            ..m
        }),
        hit.confidence_percent < 85 ==> searched(m, Ok(Some(hit))) == m,
        searched(m, Ok(None)) == m,
        searched(m, Err(e)) == m,
{
}

/// A lookup tells the work's title, type and pages; a failed one changes nothing.
pub proof fn law_a_lookup_tells_the_work(m: WorkModel, l: WorkLookup, e: String)
    ensures
        ({
            let after = looked_up(m, Ok(l));
            &&& after.canonical_title == Some(l.canonical_title@)
            &&& after.work_type == opt_view(l.work_type)
            &&& after.wikipedia_url == opt_view(l.wikipedia_url)
            &&& after.wikidata_url == opt_view(l.wikidata_url)
            &&& after.work_mbid == m.work_mbid && after.work_name == m.work_name && after.locale
                == m.locale && after.catalogue == m.catalogue && after.composer == m.composer
            &&& kept_name(after) == l.canonical_title@
        }),
        looked_up(m, Err(e)) == m,
{
}

/// A work whose page is known is asked for by that page alone; any other by its
/// titles, the canonical one first, all of them in the operator's language before
/// any in English.
pub proof fn law_the_known_page_suffices(m: WorkModel, i: int)
    requires
        0 <= i < work_pages(m).len(),
    ensures
        m.wikipedia_url matches Some(u) ==> work_pages(m) == seq![QueryModel::Url(u)],
        m.wikipedia_url is None ==> {
            let titles = work_titles(m);
            let n = titles.len() as int;
            &&& work_pages(m)[i] == if i < n {
                QueryModel::Title(titles[i], m.locale)
            } else {
                QueryModel::Title(titles[i - n], "en"@)
            }
            &&& m.canonical_title matches Some(t) ==> titles[0] == t
            &&& m.work_name matches Some(w) ==> titles.last() == w
        },
{
    if m.wikipedia_url is None {
        law_operator_language_comes_first(work_titles(m), m.locale, i);
    }
}

/// Notes on a work are kept apart by work, by provider and by language.
pub proof fn law_work_keys_are_told_apart(m: WorkModel, n: WorkModel, p: ProviderId, q: ProviderId)
    ensures
        normal_form(kept_name(m)) != normal_form(kept_name(n)) ==> work_key_parts(m, p)
            != work_key_parts(n, q),
        m.locale != n.locale ==> work_key_parts(m, p) != work_key_parts(n, q),
        p != q ==> work_key_parts(m, p) != work_key_parts(n, q),
        m.canonical_title is None && m.work_name is Some ==> kept_name(m) == m.work_name->Some_0,
{
    let a = work_key_parts(m, p);
    let b = work_key_parts(n, q);
    assert(a[2] == normal_form(kept_name(m)) && b[2] == normal_form(kept_name(n)));
    assert(a[5] == m.locale && b[5] == n.locale);
    assert(a[3] == p.name() && b[3] == q.name());
    law_provider_names_round_trip(p);
    law_provider_names_round_trip(q);
}

/// Somebody is asked as long as one of the three providers may be.
pub proof fn law_one_provider_suffices_for_a_work(c: ProviderCatalogue, p: ProviderId)
    ensures
        p is MusicBrainz || p is Wikipedia || p is Wikidata ==> (c.asks(p) ==> has_work_provider(c)),
        !c.asks(ProviderId::MusicBrainz) && !c.asks(ProviderId::Wikipedia) && !c.asks(
            ProviderId::Wikidata,
        ) ==> !has_work_provider(c),
{
}

/// Somebody is asked about a work exactly if the request, in the one version there is,
/// names the work or its identifier and some provider may be asked. The work is looked up
/// by its identifier, searched for without one, and taken as named where MusicBrainz is
/// not asked.
pub proof fn law_who_gets_work_notes(
    q: WorkNotesCascadeRequest,
    c: ProviderCatalogue,
    r: WorkStart,
)
    requires
        work_starts(Decoded::Request(q), c, r),
    ensures
        ({
            let named = (q.work_name is Some && trim_of(q.work_name->Some_0@).len() > 0);
            let identified = (q.work_mbid is Some && trim_of(q.work_mbid->Some_0@).len() > 0);
            &&& !(r is Refused)
            &&& r is Answer <==> q.v != 1 || !(named || identified) || !has_work_provider(c)
            &&& r is Answer && !(q.v == 1 && (named || identified)) ==> r->Answer_0@.status
                == CascadeStatus::BadRequest
            &&& r is Answer && q.v == 1 && (named || identified) ==> r->Answer_0@.status
                == CascadeStatus::NotConfigured
            &&& r is Fetch ==> !c.asks(ProviderId::MusicBrainz)
            &&& r is Search ==> c.asks(ProviderId::MusicBrainz) && !identified
            &&& r is LookUp ==> c.asks(ProviderId::MusicBrainz) && identified
            &&& r is LookUp ==> r->LookUp_0.query@.work_mbid == Some(trim_of(q.work_mbid->Some_0@))
            &&& r is Search ==> r->Search_0.query@.work_name == Some(trim_of(q.work_name->Some_0@))
            &&& r is Search ==> r->Search_0.query@.composer == key_text(opt_view(q.composer))
                && r->Search_0.query@.locale == language_of(opt_view(q.locale))
        }),
{
}

/// A request that says nothing is a bad request; one that cannot be read is refused
/// for the reason that it cannot.
pub proof fn law_unreadable_requests_for_work_notes(
    e: String,
    c: ProviderCatalogue,
    r: WorkStart,
)
    ensures
        work_starts(Decoded::Empty, c, r) ==> r is Answer && r->Answer_0@.status
            == CascadeStatus::BadRequest && r->Answer_0@.detail == Some("empty payload"@),
        work_starts(Decoded::Rejected(e), c, r) ==> r == WorkStart::Refused(e),
{
}

} // verus!
