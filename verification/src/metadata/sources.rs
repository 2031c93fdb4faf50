//! What providers hand over, and the sources made of it.
//!
//! A source read back from the cache says the same as the one that was kept: all
//! of it but the payload follows from the provider and the payload.

use crate::json::{array, models, number, number_model, opt_text, opt_text_model, opt_view, text};
use crate::json::{
    lemma_key_tags, lemma_last_member_push, lemma_member_absent, lemma_member_at, member,
};
use crate::json::{member_text, opt_number, opt_number_model, Json, JsonModel, ObjectWriter};
use crate::metadata::cache::{EnrichmentEntry, EnrichmentModel};
use crate::metadata::cascade::{
    Attribution, AttributionModel, ProviderId, SourceEntry, SourceModel,
};
use crate::metadata::config::{key_text, non_blank};
use crate::metadata::normalise::{
    is_lastfm_disambiguation_stub, law_a_part_that_tells_apart_suffices, tells_apart,
};
use crate::text::{
    chars_of, clone_opt, decimal, decimal_of, joined, same_text, trim, trim_of, views,
};
use vstd::prelude::*;

verus! {

// ---------------------------------------------------------------------
// Providers as sources
// ---------------------------------------------------------------------

/// A provider whose content is shown.
#[derive(Debug, Clone, Copy, PartialEq, Eq, Structural)]
pub enum SourceKind {
    MusicBrainz,
    Wikipedia,
    Wikidata,
    TheAudioDb,
    Lastfm,
    Discogs,
    Genius,
}

impl SourceKind {
    /// The provider.
    pub open spec fn id(self) -> ProviderId {
        match self {
            SourceKind::MusicBrainz => ProviderId::MusicBrainz,
            SourceKind::Wikipedia => ProviderId::Wikipedia,
            SourceKind::Wikidata => ProviderId::Wikidata,
            SourceKind::TheAudioDb => ProviderId::TheAudioDb,
            SourceKind::Lastfm => ProviderId::Lastfm,
            SourceKind::Discogs => ProviderId::Discogs,
            SourceKind::Genius => ProviderId::Genius,
        }
    }

    /// The provider.
    pub fn provider(self) -> (r: ProviderId)
        ensures
            r == self.id(),
    {
        match self {
            SourceKind::MusicBrainz => ProviderId::MusicBrainz,
            SourceKind::Wikipedia => ProviderId::Wikipedia,
            SourceKind::Wikidata => ProviderId::Wikidata,
            SourceKind::TheAudioDb => ProviderId::TheAudioDb,
            SourceKind::Lastfm => ProviderId::Lastfm,
            SourceKind::Discogs => ProviderId::Discogs,
            SourceKind::Genius => ProviderId::Genius,
        }
    }

    /// The name to attribute content to.
    pub open spec fn title(self) -> Seq<char> {
        match self {
            SourceKind::MusicBrainz => "MusicBrainz"@,
            SourceKind::Wikipedia => "Wikipedia"@,
            SourceKind::Wikidata => "Wikidata"@,
            SourceKind::TheAudioDb => "TheAudioDB"@,
            SourceKind::Lastfm => "Last.fm"@,
            SourceKind::Discogs => "Discogs"@,
            SourceKind::Genius => "Genius"@,
        }
    }

    fn title_text(self) -> (r: &'static str)
        ensures
            r@ == self.title(),
    {
        match self {
            SourceKind::MusicBrainz => "MusicBrainz",
            SourceKind::Wikipedia => "Wikipedia",
            SourceKind::Wikidata => "Wikidata",
            SourceKind::TheAudioDb => "TheAudioDB",
            SourceKind::Lastfm => "Last.fm",
            SourceKind::Discogs => "Discogs",
            SourceKind::Genius => "Genius",
        }
    }

    /// The terms that content is under.
    pub open spec fn license(self) -> Seq<char> {
        match self {
            SourceKind::MusicBrainz => "CC0"@,
            SourceKind::Wikipedia => "CC BY-SA"@,
            SourceKind::Wikidata => "CC0"@,
            SourceKind::TheAudioDb => "TheAudioDB terms of use"@,
            SourceKind::Lastfm => "Last.fm terms of use"@,
            SourceKind::Discogs => "Discogs terms of use"@,
            SourceKind::Genius => "Genius terms of use"@,
        }
    }

    fn license_text(self) -> (r: &'static str)
        ensures
            r@ == self.license(),
    {
        match self {
            SourceKind::MusicBrainz => "CC0",
            SourceKind::Wikipedia => "CC BY-SA",
            SourceKind::Wikidata => "CC0",
            SourceKind::TheAudioDb => "TheAudioDB terms of use",
            SourceKind::Lastfm => "Last.fm terms of use",
            SourceKind::Discogs => "Discogs terms of use",
            SourceKind::Genius => "Genius terms of use",
        }
    }

    /// Whether payloads may name their language.
    pub open spec fn has_language(self) -> bool {
        match self {
            SourceKind::Wikipedia | SourceKind::Wikidata | SourceKind::TheAudioDb
            | SourceKind::Lastfm => true,
            _ => false,
        }
    }
}

/// A source of a provider.
pub open spec fn source_of(
    kind: SourceKind,
    language: Option<Seq<char>>,
    payload: JsonModel,
    url: Option<Seq<char>>,
) -> SourceModel {
    SourceModel {
        provider_id: kind.id().name(),
        privacy_class: kind.id().class().name(),
        language,
        payload,
        attribution: AttributionModel {
            source_name: kind.title(),
            source_url: url,
            license: kind.license(),
        },
    }
}

fn make_source(
    kind: SourceKind,
    language: Option<String>,
    payload: Json,
    url: Option<String>,
) -> (r: SourceEntry)
    ensures
        r@ == source_of(kind, opt_view(language), payload@, opt_view(url)),
{
    SourceEntry {
        provider_id: kind.provider().as_str().to_owned(),
        privacy_class: kind.provider().privacy_class().as_str().to_owned(),
        language,
        payload,
        attribution: Attribution {
            source_name: kind.title_text().to_owned(),
            source_url: url,
            license: kind.license_text().to_owned(),
        },
    }
}

/// A text, unless it is blank; as it stands otherwise.
pub open spec fn unless_blank(o: Option<Seq<char>>) -> Option<Seq<char>> {
    match o {
        Some(s) => if trim_of(s).len() > 0 {
            Some(s)
        } else {
            None
        },
        None => None,
    }
}

/// The language that a payload names.
pub open spec fn payload_language(payload: JsonModel) -> Option<Seq<char>> {
    unless_blank(member_text(payload, "language"@))
}

/// The page that a payload names.
pub open spec fn payload_url(payload: JsonModel) -> Option<Seq<char>> {
    member_text(payload, "source_url"@)
}

/// The language that a payload names.
pub fn language_from_payload(payload: &Json) -> (r: Option<String>)
    ensures
        opt_view(r) == payload_language(payload@),
{
    match payload.get_text("language") {
        Some(t) => {
            let whole = chars_of(t.as_str());
            if trim(whole.as_slice()).len() > 0 {
                Some(t)
            } else {
                None
            }
        },
        None => None,
    }
}

/// The page that a payload names.
pub fn source_url_from_payload(payload: &Json) -> (r: Option<String>)
    ensures
        opt_view(r) == payload_url(payload@),
{
    payload.get_text("source_url")
}

/// The source that a kept payload stands for.
pub open spec fn kept_source(kind: SourceKind, payload: JsonModel) -> SourceModel {
    source_of(
        kind,
        if kind.has_language() {
            payload_language(payload)
        } else {
            None
        },
        payload,
        payload_url(payload),
    )
}

/// The source that a kept payload stands for.
pub fn source_from_cached_payload(kind: SourceKind, payload: Json) -> (r: SourceEntry)
    ensures
        r@ == kept_source(kind, payload@),
{
    let url = source_url_from_payload(&payload);
    let language = match kind {
        SourceKind::Wikipedia | SourceKind::Wikidata | SourceKind::TheAudioDb
        | SourceKind::Lastfm => language_from_payload(&payload),
        _ => None,
    };
    make_source(kind, language, payload, url)
}

/// What a read of the cache answers: the kept payload, where the entry is a hit.
pub open spec fn cache_answer(kind: SourceKind, entry: Option<EnrichmentModel>) -> Option<
    SourceModel,
> {
    match entry {
        Some(e) => if e.status == "ok"@ {
            match e.payload {
                Some(p) => Some(kept_source(kind, p)),
                None => None,
            }
        } else {
            None
        },
        None => None,
    }
}

/// What an optional entry says.
pub open spec fn opt_entry(o: Option<EnrichmentEntry>) -> Option<EnrichmentModel> {
    match o {
        Some(e) => Some(e@),
        None => None,
    }
}

/// What an optional source says.
pub open spec fn opt_source(o: Option<SourceEntry>) -> Option<SourceModel> {
    match o {
        Some(s) => Some(s@),
        None => None,
    }
}

/// What a read of the cache answers.
pub fn answer_from_cache(kind: SourceKind, entry: Option<EnrichmentEntry>) -> (r: Option<
    SourceEntry,
>)
    ensures
        opt_source(r) == cache_answer(kind, opt_entry(entry)),
{
    match entry {
        Some(e) => if same_text(e.status.as_str(), "ok") {
            match e.payload {
                Some(p) => Some(source_from_cached_payload(kind, p)),
                None => None,
            }
        } else {
            None
        },
        None => None,
    }
}

// ---------------------------------------------------------------------
// Wikipedia
// ---------------------------------------------------------------------

/// The summary of a page.
#[derive(Debug, PartialEq, Eq)]
pub struct Summary {
    pub title: String,
    pub extract: String,
    pub language: String,
    pub page_url: String,
}

/// The payload of a summary.
pub open spec fn summary_payload(s: Summary) -> JsonModel {
    JsonModel::Object(
        seq![
            ("title"@, JsonModel::Text(s.title@)),
            ("summary"@, JsonModel::Text(s.extract@)),
            ("language"@, JsonModel::Text(s.language@)),
            ("source_url"@, JsonModel::Text(s.page_url@)),
        ],
    )
}

/// The source of a summary.
pub open spec fn summary_source(s: Summary) -> SourceModel {
    source_of(
        SourceKind::Wikipedia,
        Some(s.language@),
        summary_payload(s),
        Some(s.page_url@),
    )
}

/// The source of a summary.
pub fn wikipedia_source(s: &Summary) -> (r: SourceEntry)
    ensures
        r@ == summary_source(*s),
{
    let mut w = ObjectWriter::new();
    w.put("title", text(s.title.as_str()));
    w.put("summary", text(s.extract.as_str()));
    w.put("language", text(s.language.as_str()));
    w.put("source_url", text(s.page_url.as_str()));
    assert(w@ =~= summary_payload(*s)->Object_0);
    make_source(
        SourceKind::Wikipedia,
        Some(s.language.clone()),
        w.finish(),
        Some(s.page_url.clone()),
    )
}

/// What is known of a work.
pub struct WorkIdentity {
    pub work_mbid: Option<String>,
    pub work_type: Option<String>,
}

/// The payload of a work's summary.
pub open spec fn work_summary_payload(s: Summary, work: WorkIdentity) -> JsonModel {
    JsonModel::Object(
        seq![
            ("title"@, JsonModel::Text(s.title@)),
            ("summary"@, JsonModel::Text(s.extract@)),
            ("language"@, JsonModel::Text(s.language@)),
            ("work_mbid"@, opt_text_model(opt_view(work.work_mbid))),
            ("work_type"@, opt_text_model(opt_view(work.work_type))),
            ("source_url"@, JsonModel::Text(s.page_url@)),
        ],
    )
}

/// The source of a work's summary.
pub open spec fn work_summary_source(s: Summary, work: WorkIdentity) -> SourceModel {
    source_of(
        SourceKind::Wikipedia,
        Some(s.language@),
        work_summary_payload(s, work),
        Some(s.page_url@),
    )
}

/// The source of a work's summary.
pub fn wikipedia_work_source(s: &Summary, work: &WorkIdentity) -> (r: SourceEntry)
    ensures
        r@ == work_summary_source(*s, *work),
{
    let mut w = ObjectWriter::new();
    w.put("title", text(s.title.as_str()));
    w.put("summary", text(s.extract.as_str()));
    w.put("language", text(s.language.as_str()));
    w.put("work_mbid", opt_text(&work.work_mbid));
    w.put("work_type", opt_text(&work.work_type));
    w.put("source_url", text(s.page_url.as_str()));
    assert(w@ =~= work_summary_payload(*s, *work)->Object_0);
    make_source(
        SourceKind::Wikipedia,
        Some(s.language.clone()),
        w.finish(),
        Some(s.page_url.clone()),
    )
}

// ---------------------------------------------------------------------
// Wikidata
// ---------------------------------------------------------------------

/// A text in the language that was served for the operator's.
pub struct Localised {
    pub text: String,
    pub language: String,
}

/// The text of an optional localised text.
pub open spec fn localised_text(o: Option<Localised>) -> Option<Seq<char>> {
    match o {
        Some(l) => Some(l.text@),
        None => None,
    }
}

/// The language of an optional localised text.
pub open spec fn localised_language(o: Option<Localised>) -> Option<Seq<char>> {
    match o {
        Some(l) => Some(l.language@),
        None => None,
    }
}

fn text_of_localised(o: &Option<Localised>) -> (r: Option<String>)
    ensures
        opt_view(r) == localised_text(*o),
{
    match o {
        Some(l) => Some(l.text.clone()),
        None => None,
    }
}

fn language_of_localised(o: &Option<Localised>) -> (r: Option<String>)
    ensures
        opt_view(r) == localised_language(*o),
{
    match o {
        Some(l) => Some(l.language.clone()),
        None => None,
    }
}

/// A page of an entity on one of the encyclopedia's sites.
pub struct Sitelink {
    pub site: String,
    pub title: String,
}

/// What Wikidata tells of an entity.
pub struct WikidataEntity {
    pub label: Option<Localised>,
    pub description: Option<Localised>,
    pub date_of_birth: Option<String>,
    pub date_of_death: Option<String>,
    pub inception: Option<String>,
    pub dissolution: Option<String>,
    pub genre_ids: Vec<String>,
    pub entity_url: String,
    pub sitelinks: Vec<Sitelink>,
}

/// The language served: that of the description, else that of the label.
pub open spec fn facts_language(e: WikidataEntity) -> Option<Seq<char>> {
    match e.description {
        Some(d) => Some(d.language@),
        None => localised_language(e.label),
    }
}

fn served_language(e: &WikidataEntity) -> (r: Option<String>)
    ensures
        opt_view(r) == facts_language(*e),
{
    match &e.description {
        Some(d) => Some(d.language.clone()),
        None => language_of_localised(&e.label),
    }
}

/// The payload of a person's or group's facts.
pub open spec fn facts_payload(e: WikidataEntity) -> JsonModel {
    JsonModel::Object(
        seq![
            ("label"@, opt_text_model(localised_text(e.label))),
            ("description"@, opt_text_model(localised_text(e.description))),
            ("language"@, opt_text_model(facts_language(e))),
            ("date_of_birth"@, opt_text_model(opt_view(e.date_of_birth))),
            ("date_of_death"@, opt_text_model(opt_view(e.date_of_death))),
            ("inception"@, opt_text_model(opt_view(e.inception))),
            ("dissolution"@, opt_text_model(opt_view(e.dissolution))),
            ("source_url"@, JsonModel::Text(e.entity_url@)),
        ],
    )
}

/// The source of a person's or group's facts.
pub open spec fn facts_source(e: WikidataEntity) -> SourceModel {
    source_of(
        SourceKind::Wikidata,
        facts_language(e),
        facts_payload(e),
        Some(e.entity_url@),
    )
}

/// The source of a person's or group's facts.
pub fn wikidata_source(e: &WikidataEntity) -> (r: SourceEntry)
    ensures
        r@ == facts_source(*e),
{
    let language = served_language(e);
    let mut w = ObjectWriter::new();
    w.put("label", opt_text(&text_of_localised(&e.label)));
    w.put("description", opt_text(&text_of_localised(&e.description)));
    w.put("language", opt_text(&language));
    w.put("date_of_birth", opt_text(&e.date_of_birth));
    w.put("date_of_death", opt_text(&e.date_of_death));
    w.put("inception", opt_text(&e.inception));
    w.put("dissolution", opt_text(&e.dissolution));
    w.put("source_url", text(e.entity_url.as_str()));
    assert(w@ =~= facts_payload(*e)->Object_0);
    make_source(SourceKind::Wikidata, language, w.finish(), Some(e.entity_url.clone()))
}

/// Texts as a JSON array.
pub open spec fn text_array(v: Seq<Seq<char>>) -> JsonModel {
    JsonModel::Array(Seq::new(v.len(), |i: int| JsonModel::Text(v[i])))
}

fn texts(v: &Vec<String>) -> (r: Json)
    ensures
        r@ == text_array(views(v@)),
{
    let mut items: Vec<Json> = Vec::new();
    let n: usize = v.len();
    for i in 0..n
        invariant
            n == v@.len(),
            items@.len() == i,
            forall|k: int| 0 <= k < i ==> (#[trigger] items@[k])@ == JsonModel::Text(v@[k]@),
    {
        items.push(text(v[i].as_str()));
    }
    assert(models(items@) =~= text_array(views(v@))->Array_0);
    array(items)
}

/// The payload of a work's facts.
pub open spec fn work_facts_payload(e: WikidataEntity, work: WorkIdentity) -> JsonModel {
    JsonModel::Object(
        seq![
            ("label"@, opt_text_model(localised_text(e.label))),
            ("description"@, opt_text_model(localised_text(e.description))),
            ("language"@, opt_text_model(facts_language(e))),
            ("inception"@, opt_text_model(opt_view(e.inception))),
            ("genre_ids"@, text_array(views(e.genre_ids@))),
            ("work_mbid"@, opt_text_model(opt_view(work.work_mbid))),
            ("work_type"@, opt_text_model(opt_view(work.work_type))),
            ("source_url"@, JsonModel::Text(e.entity_url@)),
        ],
    )
}

/// The source of a work's facts.
pub open spec fn work_facts_source(e: WikidataEntity, work: WorkIdentity) -> SourceModel {
    source_of(
        SourceKind::Wikidata,
        facts_language(e),
        work_facts_payload(e, work),
        Some(e.entity_url@),
    )
}

/// The source of a work's facts.
pub fn wikidata_work_source(e: &WikidataEntity, work: &WorkIdentity) -> (r: SourceEntry)
    ensures
        r@ == work_facts_source(*e, *work),
{
    let language = served_language(e);
    let mut w = ObjectWriter::new();
    w.put("label", opt_text(&text_of_localised(&e.label)));
    w.put("description", opt_text(&text_of_localised(&e.description)));
    w.put("language", opt_text(&language));
    w.put("inception", opt_text(&e.inception));
    w.put("genre_ids", texts(&e.genre_ids));
    w.put("work_mbid", opt_text(&work.work_mbid));
    w.put("work_type", opt_text(&work.work_type));
    w.put("source_url", text(e.entity_url.as_str()));
    assert(w@ =~= work_facts_payload(*e, *work)->Object_0);
    make_source(SourceKind::Wikidata, language, w.finish(), Some(e.entity_url.clone()))
}

// ---------------------------------------------------------------------
// Last.fm
// ---------------------------------------------------------------------

/// What Last.fm tells of an artist or album.
pub struct LastfmText {
    pub summary: Option<String>,
    pub content: Option<String>,
    pub source_url: Option<String>,
}

/// The payload of a Last.fm text.
pub open spec fn lastfm_payload(t: LastfmText) -> JsonModel {
    JsonModel::Object(
        seq![
            ("summary"@, opt_text_model(opt_view(t.summary))),
            ("content"@, opt_text_model(opt_view(t.content))),
            ("source_url"@, opt_text_model(opt_view(t.source_url))),
        ],
    )
}

/// The source of a Last.fm text.
pub open spec fn lastfm_source_of(t: LastfmText) -> SourceModel {
    source_of(SourceKind::Lastfm, None, lastfm_payload(t), opt_view(t.source_url))
}

/// The source of a Last.fm text.
pub fn lastfm_source(t: &LastfmText) -> (r: SourceEntry)
    ensures
        r@ == lastfm_source_of(*t),
{
    let mut w = ObjectWriter::new();
    w.put("summary", opt_text(&t.summary));
    w.put("content", opt_text(&t.content));
    w.put("source_url", opt_text(&t.source_url));
    assert(w@ =~= lastfm_payload(*t)->Object_0);
    make_source(SourceKind::Lastfm, None, w.finish(), clone_opt(&t.source_url))
}

/// A text, or nothing.
pub open spec fn or_empty(o: Option<Seq<char>>) -> Seq<char> {
    match o {
        Some(s) => s,
        None => Seq::empty(),
    }
}

/// Whether a text is no artist's biography but tells artists of one name apart.
pub open spec fn is_stub(t: LastfmText) -> bool {
    tells_apart(or_empty(opt_view(t.summary)) + "\n"@ + or_empty(opt_view(t.content)))
}

/// The source of an artist's biography, unless it is none.
pub fn lastfm_bio_source(t: &LastfmText) -> (r: Option<SourceEntry>)
    ensures
        opt_source(r) == (if is_stub(*t) {
            None
        } else {
            Some(lastfm_source_of(*t))
        }),
{
    let mut prose = match &t.summary {
        Some(s) => s.clone(),
        None => String::new(),
    };
    prose.append("\n");
    if let Some(c) = &t.content {
        prose.append(c.as_str());
    }
    assert(prose@ =~= or_empty(opt_view(t.summary)) + "\n"@ + or_empty(opt_view(t.content)));
    if is_lastfm_disambiguation_stub(prose.as_str()) {
        None
    } else {
        Some(lastfm_source(t))
    }
}

// ---------------------------------------------------------------------
// TheAudioDB
// ---------------------------------------------------------------------

/// What TheAudioDB tells of an artist.
pub struct AudioDbArtist {
    pub bio: Option<Localised>,
    pub genre: Option<String>,
    pub formed_year: Option<u64>,
    pub source_url: String,
}

/// The payload of an artist's record.
pub open spec fn audiodb_artist_payload(a: AudioDbArtist) -> JsonModel {
    JsonModel::Object(
        seq![
            ("summary"@, opt_text_model(localised_text(a.bio))),
            ("language"@, opt_text_model(localised_language(a.bio))),
            ("genre"@, opt_text_model(opt_view(a.genre))),
            ("formed_year"@, opt_number_model(a.formed_year)),
            ("source_url"@, JsonModel::Text(a.source_url@)),
        ],
    )
}

/// The source of an artist's record; none where the record says nothing.
pub open spec fn audiodb_artist_source_of(a: AudioDbArtist) -> Option<SourceModel> {
    if a.bio is None && a.genre is None && a.formed_year is None {
        None
    } else {
        Some(
            source_of(
                SourceKind::TheAudioDb,
                localised_language(a.bio),
                audiodb_artist_payload(a),
                Some(a.source_url@),
            ),
        )
    }
}

/// The source of an artist's record.
pub fn audiodb_artist_source(a: &AudioDbArtist) -> (r: Option<SourceEntry>)
    ensures
        opt_source(r) == audiodb_artist_source_of(*a),
{
    if a.bio.is_none() && a.genre.is_none() && a.formed_year.is_none() {
        return None;
    }
    let language = language_of_localised(&a.bio);
    let mut w = ObjectWriter::new();
    w.put("summary", opt_text(&text_of_localised(&a.bio)));
    w.put("language", opt_text(&language));
    w.put("genre", opt_text(&a.genre));
    w.put("formed_year", opt_number(a.formed_year));
    w.put("source_url", text(a.source_url.as_str()));
    assert(w@ =~= audiodb_artist_payload(*a)->Object_0);
    Some(make_source(SourceKind::TheAudioDb, language, w.finish(), Some(a.source_url.clone())))
}

/// What TheAudioDB tells of an album.
pub struct AudioDbAlbum {
    pub description: Option<Localised>,
    pub review: Option<String>,
    pub year: Option<u64>,
    pub label: Option<String>,
    pub source_url: String,
}

/// The payload of an album's record.
pub open spec fn audiodb_album_payload(a: AudioDbAlbum) -> JsonModel {
    JsonModel::Object(
        seq![
            ("summary"@, opt_text_model(localised_text(a.description))),
            ("language"@, opt_text_model(localised_language(a.description))),
            ("review"@, opt_text_model(opt_view(a.review))),
            ("year"@, opt_number_model(a.year)),
            ("label"@, opt_text_model(opt_view(a.label))),
            ("source_url"@, JsonModel::Text(a.source_url@)),
        ],
    )
}

/// The source of an album's record; none where the record says nothing.
pub open spec fn audiodb_album_source_of(a: AudioDbAlbum) -> Option<SourceModel> {
    if a.description is None && key_text(opt_view(a.review)) is None && a.year is None
        && a.label is None {
        None
    } else {
        Some(
            source_of(
                SourceKind::TheAudioDb,
                localised_language(a.description),
                audiodb_album_payload(a),
                Some(a.source_url@),
            ),
        )
    }
}

/// The source of an album's record.
pub fn audiodb_album_source(a: &AudioDbAlbum) -> (r: Option<SourceEntry>)
    ensures
        opt_source(r) == audiodb_album_source_of(*a),
{
    if a.description.is_none() && non_blank(&a.review).is_none() && a.year.is_none()
        && a.label.is_none() {
        return None;
    }
    let language = language_of_localised(&a.description);
    let mut w = ObjectWriter::new();
    w.put("summary", opt_text(&text_of_localised(&a.description)));
    w.put("language", opt_text(&language));
    w.put("review", opt_text(&a.review));
    w.put("year", opt_number(a.year));
    w.put("label", opt_text(&a.label));
    w.put("source_url", text(a.source_url.as_str()));
    assert(w@ =~= audiodb_album_payload(*a)->Object_0);
    Some(make_source(SourceKind::TheAudioDb, language, w.finish(), Some(a.source_url.clone())))
}

// ---------------------------------------------------------------------
// Discogs
// ---------------------------------------------------------------------

/// What Discogs tells of a release.
pub struct DiscogsRelease {
    pub release_id: u64,
    pub label: Option<String>,
    pub catalog_number: Option<String>,
    pub year: Option<u64>,
    pub country: Option<String>,
    pub format: Option<String>,
    pub notes: Option<String>,
    pub source_url: Option<String>,
}

/// The payload of a release's credits.
pub open spec fn discogs_credits_payload(d: DiscogsRelease) -> JsonModel {
    JsonModel::Object(
        seq![
            ("release_id"@, number_model(d.release_id as nat)),
            ("label"@, opt_text_model(opt_view(d.label))),
            ("catalog_number"@, opt_text_model(opt_view(d.catalog_number))),
            ("year"@, opt_number_model(d.year)),
            ("country"@, opt_text_model(opt_view(d.country))),
            ("format"@, opt_text_model(opt_view(d.format))),
            ("notes"@, opt_text_model(opt_view(d.notes))),
            ("source_url"@, opt_text_model(opt_view(d.source_url))),
        ],
    )
}

/// The source of a release's credits.
pub open spec fn discogs_credits_source_of(d: DiscogsRelease) -> SourceModel {
    source_of(SourceKind::Discogs, None, discogs_credits_payload(d), opt_view(d.source_url))
}

/// The source of a release's credits.
pub fn discogs_credits_source(d: &DiscogsRelease) -> (r: SourceEntry)
    ensures
        r@ == discogs_credits_source_of(*d),
{
    let mut w = ObjectWriter::new();
    w.put("release_id", number(d.release_id));
    w.put("label", opt_text(&d.label));
    w.put("catalog_number", opt_text(&d.catalog_number));
    w.put("year", opt_number(d.year));
    w.put("country", opt_text(&d.country));
    w.put("format", opt_text(&d.format));
    w.put("notes", opt_text(&d.notes));
    w.put("source_url", opt_text(&d.source_url));
    assert(w@ =~= discogs_credits_payload(*d)->Object_0);
    make_source(SourceKind::Discogs, None, w.finish(), clone_opt(&d.source_url))
}

/// The page of a release: as told, else by its number.
pub open spec fn discogs_page(d: DiscogsRelease) -> Seq<char> {
    match d.source_url {
        Some(u) => u@,
        None => "https://www.discogs.com/release/"@ + decimal_of(d.release_id as nat),
    }
}

/// The payload of an album's notes.
pub open spec fn discogs_notes_payload(d: DiscogsRelease) -> JsonModel {
    JsonModel::Object(
        seq![
            ("summary"@, opt_text_model(key_text(opt_view(d.notes)))),
            ("label"@, opt_text_model(opt_view(d.label))),
            ("catalog_number"@, opt_text_model(opt_view(d.catalog_number))),
            ("format"@, opt_text_model(opt_view(d.format))),
            ("year"@, opt_number_model(d.year)),
            ("country"@, opt_text_model(opt_view(d.country))),
            ("release_id"@, number_model(d.release_id as nat)),
            ("source_url"@, JsonModel::Text(discogs_page(d))),
        ],
    )
}

/// The source of an album's notes; none where the release says nothing.
pub open spec fn discogs_notes_source_of(d: DiscogsRelease) -> Option<SourceModel> {
    if key_text(opt_view(d.notes)) is None && d.label is None && d.format is None
        && d.year is None {
        None
    } else {
        Some(
            source_of(
                SourceKind::Discogs,
                None,
                discogs_notes_payload(d),
                Some(discogs_page(d)),
            ),
        )
    }
}

/// The source of an album's notes.
pub fn discogs_notes_source(d: &DiscogsRelease) -> (r: Option<SourceEntry>)
    ensures
        opt_source(r) == discogs_notes_source_of(*d),
{
    let notes = non_blank(&d.notes);
    if notes.is_none() && d.label.is_none() && d.format.is_none() && d.year.is_none() {
        return None;
    }
    let page = match &d.source_url {
        Some(u) => u.clone(),
        None => joined("https://www.discogs.com/release/", decimal(d.release_id).as_str()),
    };
    let mut w = ObjectWriter::new();
    w.put("summary", opt_text(&notes));
    w.put("label", opt_text(&d.label));
    w.put("catalog_number", opt_text(&d.catalog_number));
    w.put("format", opt_text(&d.format));
    w.put("year", opt_number(d.year));
    w.put("country", opt_text(&d.country));
    w.put("release_id", number(d.release_id));
    w.put("source_url", text(page.as_str()));
    assert(w@ =~= discogs_notes_payload(*d)->Object_0);
    Some(make_source(SourceKind::Discogs, None, w.finish(), Some(page)))
}

// ---------------------------------------------------------------------
// Genius
// ---------------------------------------------------------------------

/// What Genius tells of a song.
pub struct GeniusAnnotation {
    pub song_id: u64,
    pub description: Option<String>,
    pub source_url: Option<String>,
}

/// The payload of a song's annotation.
pub open spec fn genius_payload(g: GeniusAnnotation) -> JsonModel {
    JsonModel::Object(
        seq![
            ("song_id"@, number_model(g.song_id as nat)),
            ("description"@, opt_text_model(opt_view(g.description))),
            ("source_url"@, opt_text_model(opt_view(g.source_url))),
        ],
    )
}

/// The source of a song's annotation.
pub open spec fn genius_source_of(g: GeniusAnnotation) -> SourceModel {
    source_of(SourceKind::Genius, None, genius_payload(g), opt_view(g.source_url))
}

/// The source of a song's annotation.
pub fn genius_source(g: &GeniusAnnotation) -> (r: SourceEntry)
    ensures
        r@ == genius_source_of(*g),
{
    let mut w = ObjectWriter::new();
    w.put("song_id", number(g.song_id));
    w.put("description", opt_text(&g.description));
    w.put("source_url", opt_text(&g.source_url));
    assert(w@ =~= genius_payload(*g)->Object_0);
    make_source(SourceKind::Genius, None, w.finish(), clone_opt(&g.source_url))
}

// ---------------------------------------------------------------------
// MusicBrainz
// ---------------------------------------------------------------------

/// The credits of a track.
pub struct TrackCredit {
    pub position: u64,
    pub title: String,
    pub length_ms: Option<u64>,
    pub track_artist: Option<String>,
    pub composer: Option<String>,
    pub conductor: Option<String>,
    pub performer: Option<String>,
    pub work_mbid: Option<String>,
}

/// The credits of a release.
pub struct ReleaseCredits {
    pub release_mbid: String,
    pub first_release_year: Option<u64>,
    pub recording_type: String,
    pub label_name: Option<String>,
    pub catalog_number: Option<String>,
    pub album_artist: Option<String>,
    pub country: Option<String>,
    pub tracks: Vec<TrackCredit>,
}

/// The page of a release.
pub open spec fn musicbrainz_page(mbid: Seq<char>) -> Seq<char> {
    "https://musicbrainz.org/release/"@ + mbid
}

/// A track's credits in a payload.
pub open spec fn track_json(t: TrackCredit) -> JsonModel {
    JsonModel::Object(
        seq![
            ("position"@, number_model(t.position as nat)),
            ("title"@, JsonModel::Text(t.title@)),
            ("length_ms"@, opt_number_model(t.length_ms)),
            ("track_artist"@, opt_text_model(opt_view(t.track_artist))),
            ("composer"@, opt_text_model(opt_view(t.composer))),
            ("conductor"@, opt_text_model(opt_view(t.conductor))),
            ("performer"@, opt_text_model(opt_view(t.performer))),
            ("work_mbid"@, opt_text_model(opt_view(t.work_mbid))),
        ],
    )
}

/// The payload of a release's credits.
pub open spec fn credits_payload(c: ReleaseCredits) -> JsonModel {
    JsonModel::Object(
        seq![
            ("release_mbid"@, JsonModel::Text(c.release_mbid@)),
            ("first_release_year"@, opt_number_model(c.first_release_year)),
            ("recording_type"@, JsonModel::Text(c.recording_type@)),
            ("label_name"@, opt_text_model(opt_view(c.label_name))),
            ("catalog_number"@, opt_text_model(opt_view(c.catalog_number))),
            ("album_artist"@, opt_text_model(opt_view(c.album_artist))),
            ("country"@, opt_text_model(opt_view(c.country))),
            (
                "tracks"@,
                JsonModel::Array(Seq::new(c.tracks@.len(), |i: int| track_json(c.tracks@[i]))),
            ),
            ("source_url"@, JsonModel::Text(musicbrainz_page(c.release_mbid@))),
        ],
    )
}

/// The source of a release's credits.
pub open spec fn credits_source_of(c: ReleaseCredits) -> SourceModel {
    source_of(
        SourceKind::MusicBrainz,
        None,
        credits_payload(c),
        Some(musicbrainz_page(c.release_mbid@)),
    )
}

fn track_payload(t: &TrackCredit) -> (r: Json)
    ensures
        r@ == track_json(*t),
{
    let mut w = ObjectWriter::new();
    w.put("position", number(t.position));
    w.put("title", text(t.title.as_str()));
    w.put("length_ms", opt_number(t.length_ms));
    w.put("track_artist", opt_text(&t.track_artist));
    w.put("composer", opt_text(&t.composer));
    w.put("conductor", opt_text(&t.conductor));
    w.put("performer", opt_text(&t.performer));
    w.put("work_mbid", opt_text(&t.work_mbid));
    assert(w@ =~= track_json(*t)->Object_0);
    w.finish()
}

/// The payload of a release's credits.
pub fn release_credits_payload(c: &ReleaseCredits) -> (r: Json)
    ensures
        r@ == credits_payload(*c),
{
    let mut tracks: Vec<Json> = Vec::new();
    let n: usize = c.tracks.len();
    for i in 0..n
        invariant
            n == c.tracks@.len(),
            tracks@.len() == i,
            forall|k: int| 0 <= k < i ==> (#[trigger] tracks@[k])@ == track_json(c.tracks@[k]),
    {
        tracks.push(track_payload(&c.tracks[i]));
    }
    assert(models(tracks@) =~= Seq::new(c.tracks@.len(), |i: int| track_json(c.tracks@[i])));
    let page = joined("https://musicbrainz.org/release/", c.release_mbid.as_str());
    let mut w = ObjectWriter::new();
    w.put("release_mbid", text(c.release_mbid.as_str()));
    w.put("first_release_year", opt_number(c.first_release_year));
    w.put("recording_type", text(c.recording_type.as_str()));
    w.put("label_name", opt_text(&c.label_name));
    w.put("catalog_number", opt_text(&c.catalog_number));
    w.put("album_artist", opt_text(&c.album_artist));
    w.put("country", opt_text(&c.country));
    w.put("tracks", array(tracks));
    w.put("source_url", text(page.as_str()));
    assert(w@ =~= credits_payload(*c)->Object_0);
    w.finish()
}

/// The source of a release's credits.
pub fn musicbrainz_credits_source(c: &ReleaseCredits) -> (r: SourceEntry)
    ensures
        r@ == credits_source_of(*c),
{
    let page = joined("https://musicbrainz.org/release/", c.release_mbid.as_str());
    make_source(SourceKind::MusicBrainz, None, release_credits_payload(c), Some(page))
}

// ---------------------------------------------------------------------
// Laws
// ---------------------------------------------------------------------

/// No other member of a payload is named like the two that are read back.
proof fn lemma_member_names()
    ensures
        "source_url"@ != "language"@,
        "album_artist"@ != "source_url"@ && "album_artist"@ != "language"@,
        "catalog_number"@ != "source_url"@ && "catalog_number"@ != "language"@,
        "content"@ != "source_url"@ && "content"@ != "language"@,
        "country"@ != "source_url"@ && "country"@ != "language"@,
        "date_of_birth"@ != "source_url"@ && "date_of_birth"@ != "language"@,
        "date_of_death"@ != "source_url"@ && "date_of_death"@ != "language"@,
        "description"@ != "source_url"@ && "description"@ != "language"@,
        "dissolution"@ != "source_url"@ && "dissolution"@ != "language"@,
        "first_release_year"@ != "source_url"@ && "first_release_year"@ != "language"@,
        "format"@ != "source_url"@ && "format"@ != "language"@,
        "formed_year"@ != "source_url"@ && "formed_year"@ != "language"@,
        "genre"@ != "source_url"@ && "genre"@ != "language"@,
        "genre_ids"@ != "source_url"@ && "genre_ids"@ != "language"@,
        "inception"@ != "source_url"@ && "inception"@ != "language"@,
        "label"@ != "source_url"@ && "label"@ != "language"@,
        "label_name"@ != "source_url"@ && "label_name"@ != "language"@,
        "notes"@ != "source_url"@ && "notes"@ != "language"@,
        "recording_type"@ != "source_url"@ && "recording_type"@ != "language"@,
        "release_id"@ != "source_url"@ && "release_id"@ != "language"@,
        "release_mbid"@ != "source_url"@ && "release_mbid"@ != "language"@,
        "review"@ != "source_url"@ && "review"@ != "language"@,
        "song_id"@ != "source_url"@ && "song_id"@ != "language"@,
        "summary"@ != "source_url"@ && "summary"@ != "language"@,
        "title"@ != "source_url"@ && "title"@ != "language"@,
        "tracks"@ != "source_url"@ && "tracks"@ != "language"@,
        "work_mbid"@ != "source_url"@ && "work_mbid"@ != "language"@,
        "work_type"@ != "source_url"@ && "work_type"@ != "language"@,
        "year"@ != "source_url"@ && "year"@ != "language"@,
{
    reveal_strlit("album_artist");
    reveal_strlit("catalog_number");
    reveal_strlit("content");
    reveal_strlit("country");
    reveal_strlit("date_of_birth");
    reveal_strlit("date_of_death");
    reveal_strlit("description");
    reveal_strlit("dissolution");
    reveal_strlit("first_release_year");
    reveal_strlit("format");
    reveal_strlit("formed_year");
    reveal_strlit("genre");
    reveal_strlit("genre_ids");
    reveal_strlit("inception");
    reveal_strlit("label");
    reveal_strlit("label_name");
    reveal_strlit("notes");
    reveal_strlit("recording_type");
    reveal_strlit("release_id");
    reveal_strlit("release_mbid");
    reveal_strlit("review");
    reveal_strlit("song_id");
    reveal_strlit("summary");
    reveal_strlit("title");
    reveal_strlit("tracks");
    reveal_strlit("work_mbid");
    reveal_strlit("work_type");
    reveal_strlit("year");
    reveal_strlit("source_url");
    reveal_strlit("language");
    assert("album_artist"@.len() == 12);
    assert("catalog_number"@.len() == 14);
    assert("content"@.len() == 7);
    assert("country"@.len() == 7);
    assert("date_of_birth"@.len() == 13);
    assert("date_of_death"@.len() == 13);
    assert("description"@.len() == 11);
    assert("dissolution"@.len() == 11);
    assert("first_release_year"@.len() == 18);
    assert("format"@.len() == 6);
    assert("formed_year"@.len() == 11);
    assert("genre"@.len() == 5);
    assert("genre_ids"@.len() == 9);
    assert("inception"@.len() == 9);
    assert("label"@.len() == 5);
    assert("label_name"@.len() == 10);
    assert("notes"@.len() == 5);
    assert("recording_type"@.len() == 14);
    assert("release_id"@.len() == 10);
    assert("release_mbid"@.len() == 12);
    assert("review"@.len() == 6);
    assert("song_id"@.len() == 7);
    assert("summary"@.len() == 7);
    assert("title"@.len() == 5);
    assert("tracks"@.len() == 6);
    assert("work_mbid"@.len() == 9);
    assert("work_type"@.len() == 9);
    assert("year"@.len() == 4);
    assert("source_url"@.len() == 10);
    assert("language"@.len() == 8);
    assert("label_name"@[0] == 'l' && "source_url"@[0] == 's');
    assert("release_id"@[0] == 'r' && "source_url"@[0] == 's');
}

/// A page's summary read back from the cache is the fresh source, unless
/// its language is blank.
pub proof fn law_kept_summary_is_unchanged(s: Summary)
    requires
        trim_of(s.language@).len() > 0,
    ensures
        summary_source(s) == kept_source(SourceKind::Wikipedia, summary_payload(s)),
{
    lemma_member_names();
    let members = summary_payload(s)->Object_0;
    assert(members[0].0 == "title"@);
    assert(members[1].0 == "summary"@);
    assert(members[2].0 == "language"@);
    assert(members[3].0 == "source_url"@);
    lemma_member_at(members, "source_url"@, 3);
    lemma_member_at(members, "language"@, 2);
}

/// A work's summary read back from the cache is the fresh source, unless
/// its language is blank.
pub proof fn law_kept_work_summary_is_unchanged(s: Summary, work: WorkIdentity)
    requires
        trim_of(s.language@).len() > 0,
    ensures
        work_summary_source(s, work) == kept_source(SourceKind::Wikipedia, work_summary_payload(s, work)),
{
    lemma_member_names();
    let members = work_summary_payload(s, work)->Object_0;
    assert(members[0].0 == "title"@);
    assert(members[1].0 == "summary"@);
    assert(members[2].0 == "language"@);
    assert(members[3].0 == "work_mbid"@);
    assert(members[4].0 == "work_type"@);
    assert(members[5].0 == "source_url"@);
    lemma_member_at(members, "source_url"@, 5);
    lemma_member_at(members, "language"@, 2);
}

/// A person's or group's facts read back from the cache are the fresh source, unless
/// their language is blank.
pub proof fn law_kept_facts_is_unchanged(e: WikidataEntity)
    requires
        facts_language(e) matches Some(l) ==> trim_of(l).len() > 0,
    ensures
        facts_source(e) == kept_source(SourceKind::Wikidata, facts_payload(e)),
{
    lemma_member_names();
    let members = facts_payload(e)->Object_0;
    assert(members[0].0 == "label"@);
    assert(members[1].0 == "description"@);
    assert(members[2].0 == "language"@);
    assert(members[3].0 == "date_of_birth"@);
    assert(members[4].0 == "date_of_death"@);
    assert(members[5].0 == "inception"@);
    assert(members[6].0 == "dissolution"@);
    assert(members[7].0 == "source_url"@);
    lemma_member_at(members, "source_url"@, 7);
    lemma_member_at(members, "language"@, 2);
}

/// A work's facts read back from the cache are the fresh source, unless their
/// language is blank.
pub proof fn law_kept_work_facts_is_unchanged(e: WikidataEntity, work: WorkIdentity)
    requires
        facts_language(e) matches Some(l) ==> trim_of(l).len() > 0,
    ensures
        work_facts_source(e, work) == kept_source(SourceKind::Wikidata, work_facts_payload(e, work)),
{
    lemma_member_names();
    let members = work_facts_payload(e, work)->Object_0;
    assert(members[0].0 == "label"@);
    assert(members[1].0 == "description"@);
    assert(members[2].0 == "language"@);
    assert(members[3].0 == "inception"@);
    assert(members[4].0 == "genre_ids"@);
    assert(members[5].0 == "work_mbid"@);
    assert(members[6].0 == "work_type"@);
    assert(members[7].0 == "source_url"@);
    lemma_member_at(members, "source_url"@, 7);
    lemma_member_at(members, "language"@, 2);
}

/// A Last.fm text read back from the cache is the fresh source.
pub proof fn law_kept_lastfm_is_unchanged(t: LastfmText)
    ensures
        lastfm_source_of(t) == kept_source(SourceKind::Lastfm, lastfm_payload(t)),
{
    lemma_member_names();
    let members = lastfm_payload(t)->Object_0;
    assert(members[0].0 == "summary"@);
    assert(members[1].0 == "content"@);
    assert(members[2].0 == "source_url"@);
    lemma_member_at(members, "source_url"@, 2);
    lemma_member_absent(members, "language"@);
}

/// An artist's record read back from the cache is the fresh source, unless
/// its language is blank.
pub proof fn law_kept_audiodb_artist_is_unchanged(a: AudioDbArtist)
    requires
        audiodb_artist_source_of(a) is Some,
        localised_language(a.bio) matches Some(l) ==> trim_of(l).len() > 0,
    ensures
        audiodb_artist_source_of(a) == Some(kept_source(SourceKind::TheAudioDb, audiodb_artist_payload(a))),
{
    lemma_member_names();
    let members = audiodb_artist_payload(a)->Object_0;
    assert(members[0].0 == "summary"@);
    assert(members[1].0 == "language"@);
    assert(members[2].0 == "genre"@);
    assert(members[3].0 == "formed_year"@);
    assert(members[4].0 == "source_url"@);
    lemma_member_at(members, "source_url"@, 4);
    lemma_member_at(members, "language"@, 1);
}

/// An album's record read back from the cache is the fresh source, unless
/// its language is blank.
pub proof fn law_kept_audiodb_album_is_unchanged(a: AudioDbAlbum)
    requires
        audiodb_album_source_of(a) is Some,
        localised_language(a.description) matches Some(l) ==> trim_of(l).len() > 0,
    ensures
        audiodb_album_source_of(a) == Some(kept_source(SourceKind::TheAudioDb, audiodb_album_payload(a))),
{
    lemma_member_names();
    let members = audiodb_album_payload(a)->Object_0;
    assert(members[0].0 == "summary"@);
    assert(members[1].0 == "language"@);
    assert(members[2].0 == "review"@);
    assert(members[3].0 == "year"@);
    assert(members[4].0 == "label"@);
    assert(members[5].0 == "source_url"@);
    lemma_member_at(members, "source_url"@, 5);
    lemma_member_at(members, "language"@, 1);
}

/// Discogs's credits read back from the cache are the fresh source.
pub proof fn law_kept_discogs_credits_is_unchanged(d: DiscogsRelease)
    ensures
        discogs_credits_source_of(d) == kept_source(SourceKind::Discogs, discogs_credits_payload(d)),
{
    lemma_member_names();
    let members = discogs_credits_payload(d)->Object_0;
    assert(members[0].0 == "release_id"@);
    assert(members[1].0 == "label"@);
    assert(members[2].0 == "catalog_number"@);
    assert(members[3].0 == "year"@);
    assert(members[4].0 == "country"@);
    assert(members[5].0 == "format"@);
    assert(members[6].0 == "notes"@);
    assert(members[7].0 == "source_url"@);
    lemma_member_at(members, "source_url"@, 7);
}

/// Discogs's notes read back from the cache are the fresh source.
pub proof fn law_kept_discogs_notes_is_unchanged(d: DiscogsRelease)
    requires
        discogs_notes_source_of(d) is Some,
    ensures
        discogs_notes_source_of(d) == Some(kept_source(SourceKind::Discogs, discogs_notes_payload(d))),
{
    lemma_member_names();
    let members = discogs_notes_payload(d)->Object_0;
    assert(members[0].0 == "summary"@);
    assert(members[1].0 == "label"@);
    assert(members[2].0 == "catalog_number"@);
    assert(members[3].0 == "format"@);
    assert(members[4].0 == "year"@);
    assert(members[5].0 == "country"@);
    assert(members[6].0 == "release_id"@);
    assert(members[7].0 == "source_url"@);
    lemma_member_at(members, "source_url"@, 7);
}

/// A song's annotation read back from the cache is the fresh source.
pub proof fn law_kept_genius_is_unchanged(g: GeniusAnnotation)
    ensures
        genius_source_of(g) == kept_source(SourceKind::Genius, genius_payload(g)),
{
    lemma_member_names();
    let members = genius_payload(g)->Object_0;
    assert(members[0].0 == "song_id"@);
    assert(members[1].0 == "description"@);
    assert(members[2].0 == "source_url"@);
    lemma_member_at(members, "source_url"@, 2);
}

/// MusicBrainz's credits read back from the cache are the fresh source.
pub proof fn law_kept_credits_is_unchanged(c: ReleaseCredits)
    ensures
        credits_source_of(c) == kept_source(SourceKind::MusicBrainz, credits_payload(c)),
{
    lemma_member_names();
    let members = credits_payload(c)->Object_0;
    assert(members[0].0 == "release_mbid"@);
    assert(members[1].0 == "first_release_year"@);
    assert(members[2].0 == "recording_type"@);
    assert(members[3].0 == "label_name"@);
    assert(members[4].0 == "catalog_number"@);
    assert(members[5].0 == "album_artist"@);
    assert(members[6].0 == "country"@);
    assert(members[7].0 == "tracks"@);
    assert(members[8].0 == "source_url"@);
    lemma_member_at(members, "source_url"@, 8);
}

// ---------------------------------------------------------------------
// What the payloads tell
// ---------------------------------------------------------------------

/// A Wikipedia source shows the page: its extract under `summary`, its title under
/// `title`, in its language, attributed to that very page.
pub proof fn law_wikipedia_shows_the_page(s: Summary)
    ensures
        ({
            let r = summary_source(s);
            let p = r.payload;
            &&& member(p, "title"@) == Some(JsonModel::Text(s.title@))
            &&& member(p, "summary"@) == Some(JsonModel::Text(s.extract@))
            &&& member(p, "language"@) == Some(JsonModel::Text(s.language@))
            &&& member(p, "source_url"@) == Some(JsonModel::Text(s.page_url@))
            &&& r.provider_id == "wikipedia"@ && r.privacy_class == "anonymous"@
            &&& r.language == Some(s.language@)
            &&& r.attribution.source_name == "Wikipedia"@ && r.attribution.license == "CC BY-SA"@
            &&& r.attribution.source_url == Some(s.page_url@)
        }),
{
    broadcast use lemma_last_member_push;

    lemma_key_tags();
    let ms = summary_payload(s)->Object_0;
    assert(ms =~= Seq::empty().push(ms[0]).push(ms[1]).push(ms[2]).push(ms[3]));
}

/// A work's Wikipedia source shows the page as any other does, and with it which
/// work it is and of what kind.
pub proof fn law_wikipedia_shows_the_work(s: Summary, work: WorkIdentity)
    ensures
        ({
            let r = work_summary_source(s, work);
            let p = r.payload;
            &&& member(p, "title"@) == Some(JsonModel::Text(s.title@))
            &&& member(p, "summary"@) == Some(JsonModel::Text(s.extract@))
            &&& member(p, "language"@) == Some(JsonModel::Text(s.language@))
            &&& member(p, "work_mbid"@) == Some(opt_text_model(opt_view(work.work_mbid)))
            &&& member(p, "work_type"@) == Some(opt_text_model(opt_view(work.work_type)))
            &&& member(p, "source_url"@) == Some(JsonModel::Text(s.page_url@))
            &&& r.provider_id == "wikipedia"@ && r.privacy_class == "anonymous"@
            &&& r.language == Some(s.language@)
            &&& r.attribution.source_name == "Wikipedia"@ && r.attribution.license == "CC BY-SA"@
            &&& r.attribution.source_url == Some(s.page_url@)
        }),
{
    broadcast use lemma_last_member_push;

    lemma_key_tags();
    let ms = work_summary_payload(s, work)->Object_0;
    assert(ms =~= Seq::empty().push(ms[0]).push(ms[1]).push(ms[2]).push(ms[3]).push(ms[4]).push(ms[5]));
}

/// A Wikidata source tells the entity's facts, each under its own name, in the
/// language of the description, or of the label where there is no description.
pub proof fn law_wikidata_tells_the_facts(e: WikidataEntity)
    ensures
        ({
            let r = facts_source(e);
            let p = r.payload;
            let served = match e.description {
                Some(d) => Some(d.language@),
                None => match e.label {
                    Some(l) => Some(l.language@),
                    None => None,
                },
            };
            let label = match e.label {
                Some(l) => Some(l.text@),
                None => None,
            };
            let description = match e.description {
                Some(l) => Some(l.text@),
                None => None,
            };
            &&& member(p, "label"@) == Some(opt_text_model(label))
            &&& member(p, "description"@) == Some(opt_text_model(description))
            &&& member(p, "language"@) == Some(opt_text_model(served))
            &&& member(p, "date_of_birth"@) == Some(opt_text_model(opt_view(e.date_of_birth)))
            &&& member(p, "date_of_death"@) == Some(opt_text_model(opt_view(e.date_of_death)))
            &&& member(p, "inception"@) == Some(opt_text_model(opt_view(e.inception)))
            &&& member(p, "dissolution"@) == Some(opt_text_model(opt_view(e.dissolution)))
            &&& member(p, "source_url"@) == Some(JsonModel::Text(e.entity_url@))
            &&& r.provider_id == "wikidata"@ && r.privacy_class == "anonymous"@
            &&& r.language == served
            &&& r.attribution.source_name == "Wikidata"@ && r.attribution.license == "CC0"@
            &&& r.attribution.source_url == Some(e.entity_url@)
        }),
{
    broadcast use lemma_last_member_push;

    lemma_key_tags();
    let ms = facts_payload(e)->Object_0;
    assert(ms =~= Seq::empty().push(ms[0]).push(ms[1]).push(ms[2]).push(ms[3]).push(ms[4]).push(ms[5]).push(ms[6]).push(ms[7]));
}

/// A work's Wikidata source tells the work's facts, each under its own name, and
/// which work it is.
pub proof fn law_wikidata_tells_the_work(e: WikidataEntity, work: WorkIdentity)
    ensures
        ({
            let r = work_facts_source(e, work);
            let p = r.payload;
            let served = match e.description {
                Some(d) => Some(d.language@),
                None => match e.label {
                    Some(l) => Some(l.language@),
                    None => None,
                },
            };
            let label = match e.label {
                Some(l) => Some(l.text@),
                None => None,
            };
            let description = match e.description {
                Some(l) => Some(l.text@),
                None => None,
            };
            &&& member(p, "label"@) == Some(opt_text_model(label))
            &&& member(p, "description"@) == Some(opt_text_model(description))
            &&& member(p, "language"@) == Some(opt_text_model(served))
            &&& member(p, "inception"@) == Some(opt_text_model(opt_view(e.inception)))
            &&& member(p, "genre_ids"@) == Some(JsonModel::Array(
                Seq::new(e.genre_ids@.len(), |i: int| JsonModel::Text(e.genre_ids@[i]@)),
            ))
            &&& member(p, "work_mbid"@) == Some(opt_text_model(opt_view(work.work_mbid)))
            &&& member(p, "work_type"@) == Some(opt_text_model(opt_view(work.work_type)))
            &&& member(p, "source_url"@) == Some(JsonModel::Text(e.entity_url@))
            &&& r.provider_id == "wikidata"@ && r.privacy_class == "anonymous"@
            &&& r.language == served
            &&& r.attribution.source_name == "Wikidata"@ && r.attribution.license == "CC0"@
            &&& r.attribution.source_url == Some(e.entity_url@)
        }),
{
    broadcast use lemma_last_member_push;

    lemma_key_tags();
    let ms = work_facts_payload(e, work)->Object_0;
    assert(ms =~= Seq::empty().push(ms[0]).push(ms[1]).push(ms[2]).push(ms[3]).push(ms[4]).push(ms[5]).push(ms[6]).push(ms[7]));
    let ids = e.genre_ids@;
    assert(Seq::new(ids.len(), |i: int| JsonModel::Text(views(ids)[i])) =~= Seq::new(
        ids.len(),
        |i: int| JsonModel::Text(ids[i]@),
    ));
}

/// A Last.fm source shows the short text under `summary` and the long one under
/// `content`.
pub proof fn law_lastfm_shows_both_texts(t: LastfmText)
    ensures
        ({
            let r = lastfm_source_of(t);
            let p = r.payload;
            &&& member(p, "summary"@) == Some(opt_text_model(opt_view(t.summary)))
            &&& member(p, "content"@) == Some(opt_text_model(opt_view(t.content)))
            &&& member(p, "source_url"@) == Some(opt_text_model(opt_view(t.source_url)))
            &&& r.provider_id == "lastfm"@ && r.privacy_class == "identity_bearing"@
            &&& r.language == None::<Seq<char>>
            &&& r.attribution.source_name == "Last.fm"@ && r.attribution.license == "Last.fm terms of use"@
            &&& r.attribution.source_url == opt_view(t.source_url)
        }),
{
    broadcast use lemma_last_member_push;

    lemma_key_tags();
    let ms = lastfm_payload(t)->Object_0;
    assert(ms =~= Seq::empty().push(ms[0]).push(ms[1]).push(ms[2]));
}

/// A TheAudioDB source of an artist shows the biography, the genre and the year of
/// formation; there is one exactly if the record tells one of these.
pub proof fn law_audiodb_shows_the_artist(a: AudioDbArtist)
    ensures
        ({
            let told = audiodb_artist_source_of(a);
            let r = told->Some_0;
            let p = r.payload;
            let bio = match a.bio {
                Some(l) => Some(l.text@),
                None => None,
            };
            let served = match a.bio {
                Some(l) => Some(l.language@),
                None => None,
            };
            &&& told is Some <==> a.bio is Some || a.genre is Some || a.formed_year is Some
            &&& told is Some ==> member(p, "summary"@) == Some(opt_text_model(bio))
            &&& told is Some ==> member(p, "language"@) == Some(opt_text_model(served))
            &&& told is Some ==> member(p, "genre"@) == Some(opt_text_model(opt_view(a.genre)))
            &&& told is Some ==> member(p, "formed_year"@) == Some(opt_number_model(a.formed_year))
            &&& told is Some ==> member(p, "source_url"@) == Some(JsonModel::Text(a.source_url@))
            &&& told is Some ==> r.provider_id == "theaudiodb"@ && r.privacy_class == "anonymous"@
            &&& told is Some ==> r.language == served
            &&& told is Some ==> r.attribution.source_name == "TheAudioDB"@ && r.attribution.license == "TheAudioDB terms of use"@
            &&& told is Some ==> r.attribution.source_url == Some(a.source_url@)
        }),
{
    broadcast use lemma_last_member_push;

    lemma_key_tags();
    let ms = audiodb_artist_payload(a)->Object_0;
    assert(ms =~= Seq::empty().push(ms[0]).push(ms[1]).push(ms[2]).push(ms[3]).push(ms[4]));
}

/// A TheAudioDB source of an album shows the description, the review, the year and
/// the label; there is one exactly if the record tells one of these, a blank review
/// telling nothing.
pub proof fn law_audiodb_shows_the_album(a: AudioDbAlbum)
    ensures
        ({
            let told = audiodb_album_source_of(a);
            let r = told->Some_0;
            let p = r.payload;
            let about = match a.description {
                Some(l) => Some(l.text@),
                None => None,
            };
            let served = match a.description {
                Some(l) => Some(l.language@),
                None => None,
            };
            &&& told is Some <==> a.description is Some || (a.review matches Some(v) && trim_of(v@).len() > 0)
                || a.year is Some || a.label is Some
            &&& told is Some ==> member(p, "summary"@) == Some(opt_text_model(about))
            &&& told is Some ==> member(p, "language"@) == Some(opt_text_model(served))
            &&& told is Some ==> member(p, "review"@) == Some(opt_text_model(opt_view(a.review)))
            &&& told is Some ==> member(p, "year"@) == Some(opt_number_model(a.year))
            &&& told is Some ==> member(p, "label"@) == Some(opt_text_model(opt_view(a.label)))
            &&& told is Some ==> member(p, "source_url"@) == Some(JsonModel::Text(a.source_url@))
            &&& told is Some ==> r.provider_id == "theaudiodb"@ && r.privacy_class == "anonymous"@
            &&& told is Some ==> r.language == served
            &&& told is Some ==> r.attribution.source_name == "TheAudioDB"@ && r.attribution.license == "TheAudioDB terms of use"@
            &&& told is Some ==> r.attribution.source_url == Some(a.source_url@)
        }),
{
    broadcast use lemma_last_member_push;

    lemma_key_tags();
    let ms = audiodb_album_payload(a)->Object_0;
    assert(ms =~= Seq::empty().push(ms[0]).push(ms[1]).push(ms[2]).push(ms[3]).push(ms[4]).push(ms[5]));
}

/// Discogs's credits show the release's data, each under its own name.
pub proof fn law_discogs_shows_the_credits(d: DiscogsRelease)
    ensures
        ({
            let r = discogs_credits_source_of(d);
            let p = r.payload;
            &&& member(p, "release_id"@) == Some(JsonModel::Number(decimal_of(d.release_id as nat)))
            &&& member(p, "label"@) == Some(opt_text_model(opt_view(d.label)))
            &&& member(p, "catalog_number"@) == Some(opt_text_model(opt_view(d.catalog_number)))
            &&& member(p, "year"@) == Some(opt_number_model(d.year))
            &&& member(p, "country"@) == Some(opt_text_model(opt_view(d.country)))
            &&& member(p, "format"@) == Some(opt_text_model(opt_view(d.format)))
            &&& member(p, "notes"@) == Some(opt_text_model(opt_view(d.notes)))
            &&& member(p, "source_url"@) == Some(opt_text_model(opt_view(d.source_url)))
            &&& r.provider_id == "discogs"@ && r.privacy_class == "identity_bearing"@
            &&& r.language == None::<Seq<char>>
            &&& r.attribution.source_name == "Discogs"@ && r.attribution.license == "Discogs terms of use"@
            &&& r.attribution.source_url == opt_view(d.source_url)
        }),
{
    broadcast use lemma_last_member_push;

    lemma_key_tags();
    let ms = discogs_credits_payload(d)->Object_0;
    assert(ms =~= Seq::empty().push(ms[0]).push(ms[1]).push(ms[2]).push(ms[3]).push(ms[4]).push(ms[5]).push(ms[6]).push(ms[7]));
}

/// Discogs's album notes show the notes, trimmed, under `summary`, and the release's
/// data beside them; there are some exactly if the release tells notes that are not
/// blank, a label, a format or a year. They are attributed to the release's page.
pub proof fn law_discogs_shows_the_notes(d: DiscogsRelease)
    ensures
        ({
            let told = discogs_notes_source_of(d);
            let r = told->Some_0;
            let p = r.payload;
            let notes = match d.notes {
                Some(n) => if trim_of(n@).len() > 0 {
                    Some(trim_of(n@))
                } else {
                    None
                },
                None => None,
            };
            let page = match d.source_url {
                Some(u) => u@,
                None => "https://www.discogs.com/release/"@ + decimal_of(d.release_id as nat),
            };
            &&& told is Some <==> notes is Some || d.label is Some || d.format is Some || d.year is Some
            &&& told is Some ==> member(p, "summary"@) == Some(opt_text_model(notes))
            &&& told is Some ==> member(p, "label"@) == Some(opt_text_model(opt_view(d.label)))
            &&& told is Some ==> member(p, "catalog_number"@) == Some(opt_text_model(opt_view(d.catalog_number)))
            &&& told is Some ==> member(p, "format"@) == Some(opt_text_model(opt_view(d.format)))
            &&& told is Some ==> member(p, "year"@) == Some(opt_number_model(d.year))
            &&& told is Some ==> member(p, "country"@) == Some(opt_text_model(opt_view(d.country)))
            &&& told is Some ==> member(p, "release_id"@) == Some(JsonModel::Number(decimal_of(d.release_id as nat)))
            &&& told is Some ==> member(p, "source_url"@) == Some(JsonModel::Text(page))
            &&& told is Some ==> r.provider_id == "discogs"@ && r.privacy_class == "identity_bearing"@
            &&& told is Some ==> r.language == None::<Seq<char>>
            &&& told is Some ==> r.attribution.source_name == "Discogs"@ && r.attribution.license == "Discogs terms of use"@
            &&& told is Some ==> r.attribution.source_url == Some(page)
        }),
{
    broadcast use lemma_last_member_push;

    lemma_key_tags();
    let ms = discogs_notes_payload(d)->Object_0;
    assert(ms =~= Seq::empty().push(ms[0]).push(ms[1]).push(ms[2]).push(ms[3]).push(ms[4]).push(ms[5]).push(ms[6]).push(ms[7]));
}

/// A Genius source shows the song's annotation under `description`.
pub proof fn law_genius_shows_the_annotation(g: GeniusAnnotation)
    ensures
        ({
            let r = genius_source_of(g);
            let p = r.payload;
            &&& member(p, "song_id"@) == Some(JsonModel::Number(decimal_of(g.song_id as nat)))
            &&& member(p, "description"@) == Some(opt_text_model(opt_view(g.description)))
            &&& member(p, "source_url"@) == Some(opt_text_model(opt_view(g.source_url)))
            &&& r.provider_id == "genius"@ && r.privacy_class == "identity_bearing"@
            &&& r.language == None::<Seq<char>>
            &&& r.attribution.source_name == "Genius"@ && r.attribution.license == "Genius terms of use"@
            &&& r.attribution.source_url == opt_view(g.source_url)
        }),
{
    broadcast use lemma_last_member_push;

    lemma_key_tags();
    let ms = genius_payload(g)->Object_0;
    assert(ms =~= Seq::empty().push(ms[0]).push(ms[1]).push(ms[2]));
}

/// A track's credits name each contributor under the contributor's own part.
pub proof fn law_tracks_credit_their_contributors(t: TrackCredit)
    ensures
        ({
            let p = track_json(t);
            &&& member(p, "position"@) == Some(JsonModel::Number(decimal_of(t.position as nat)))
            &&& member(p, "title"@) == Some(JsonModel::Text(t.title@))
            &&& member(p, "length_ms"@) == Some(opt_number_model(t.length_ms))
            &&& member(p, "track_artist"@) == Some(opt_text_model(opt_view(t.track_artist)))
            &&& member(p, "composer"@) == Some(opt_text_model(opt_view(t.composer)))
            &&& member(p, "conductor"@) == Some(opt_text_model(opt_view(t.conductor)))
            &&& member(p, "performer"@) == Some(opt_text_model(opt_view(t.performer)))
            &&& member(p, "work_mbid"@) == Some(opt_text_model(opt_view(t.work_mbid)))
        }),
{
    broadcast use lemma_last_member_push;

    lemma_key_tags();
    let ms = track_json(t)->Object_0;
    assert(ms =~= Seq::empty().push(ms[0]).push(ms[1]).push(ms[2]).push(ms[3]).push(ms[4]).push(ms[5]).push(ms[6]).push(ms[7]));
}

/// MusicBrainz's credits show the release's data, each under its own name, and every
/// track in order. They are attributed to the release's page.
pub proof fn law_musicbrainz_shows_the_credits(c: ReleaseCredits)
    ensures
        ({
            let r = credits_source_of(c);
            let p = r.payload;
            let page = "https://musicbrainz.org/release/"@ + c.release_mbid@;
            &&& member(p, "release_mbid"@) == Some(JsonModel::Text(c.release_mbid@))
            &&& member(p, "first_release_year"@) == Some(opt_number_model(c.first_release_year))
            &&& member(p, "recording_type"@) == Some(JsonModel::Text(c.recording_type@))
            &&& member(p, "label_name"@) == Some(opt_text_model(opt_view(c.label_name)))
            &&& member(p, "catalog_number"@) == Some(opt_text_model(opt_view(c.catalog_number)))
            &&& member(p, "album_artist"@) == Some(opt_text_model(opt_view(c.album_artist)))
            &&& member(p, "country"@) == Some(opt_text_model(opt_view(c.country)))
            &&& member(p, "tracks"@) matches Some(JsonModel::Array(tracks)) && tracks.len()
                == c.tracks@.len() && forall|i: int|
                0 <= i < tracks.len() ==> #[trigger] tracks[i] == track_json(c.tracks@[i])
            &&& member(p, "source_url"@) == Some(JsonModel::Text(page))
            &&& r.provider_id == "musicbrainz"@ && r.privacy_class == "anonymous"@
            &&& r.language == None::<Seq<char>>
            &&& r.attribution.source_name == "MusicBrainz"@ && r.attribution.license == "CC0"@
            &&& r.attribution.source_url == Some(page)
        }),
{
    broadcast use lemma_last_member_push;

    lemma_key_tags();
    let ms = credits_payload(c)->Object_0;
    assert(ms =~= Seq::empty().push(ms[0]).push(ms[1]).push(ms[2]).push(ms[3]).push(ms[4]).push(ms[5]).push(ms[6]).push(ms[7]).push(ms[8]));
}

/// A Last.fm biography is none as soon as its summary or its content tells several
/// artists of one name apart.
pub proof fn law_either_text_makes_a_stub(t: LastfmText)
    ensures
        t.summary matches Some(s) ==> (tells_apart(s@) ==> is_stub(t)),
        t.content matches Some(s) ==> (tells_apart(s@) ==> is_stub(t)),
{
    let summary = or_empty(opt_view(t.summary));
    let content = or_empty(opt_view(t.content));
    let none = Seq::<char>::empty();
    law_a_part_that_tells_apart_suffices(none, summary, "\n"@ + content);
    law_a_part_that_tells_apart_suffices(summary + "\n"@, content, none);
    assert(none + summary + ("\n"@ + content) =~= summary + "\n"@ + content);
    assert(summary + "\n"@ + content + none =~= summary + "\n"@ + content);
}

/// A kept payload names its page, and its language where the provider writes in
/// several and the name is not blank; everything else follows from the provider.
pub proof fn law_kept_payloads_name_language_and_page(kind: SourceKind, payload: JsonModel)
    ensures
        ({
            let kept = kept_source(kind, payload);
            let several = kind is Wikipedia || kind is Wikidata || kind is TheAudioDb
                || kind is Lastfm;
            &&& kept.payload == payload
            &&& kept.provider_id == kind.id().name()
            &&& kept.attribution.source_name == kind.title()
            &&& kept.attribution.license == kind.license()
            &&& kept.attribution.source_url == member_text(payload, "source_url"@)
            &&& !several ==> kept.language is None
            &&& several ==> (member_text(payload, "language"@) matches Some(l) ==> (trim_of(l).len()
                > 0 ==> kept.language == Some(l)))
            &&& several ==> (kept.language matches Some(l) ==> member_text(payload, "language"@)
                == Some(l) && trim_of(l).len() > 0)
        }),
{
}

} // verus!
