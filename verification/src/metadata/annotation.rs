//! Annotations of tracks, from Wikipedia and Genius.

use crate::json::opt_view;
use crate::metadata::cache::{key_of, EnrichmentCache};
use crate::metadata::cascade::{
    bare_response, CascadeResponse, CascadeStatus, ProviderCatalogue, ProviderId, SourceEntry,
};
use crate::metadata::config::{key_text, non_blank};
use crate::metadata::fetch::{
    answer, answer_of, found_views, languages_for, title_queries, titles_by_language, CachedFetch,
    SummaryLadder,
};
use crate::metadata::locale::{language_of, normalise as normalise_locale};
use crate::metadata::normalise::{normal_form, normalise};
use crate::metadata::request::Decoded;
use crate::metadata::sources::{
    genius_source, genius_source_of, opt_source, GeniusAnnotation, SourceKind,
};
use crate::text::{decimal, decimal_of, joined, push_owned, str_views, trim_of, views};
use crate::metadata::cascade::{ResponseModel, SourceModel};
use crate::metadata::fetch::law_the_answer_shows_every_find;
use vstd::prelude::*;

verus! {

/// A request for an annotation.
pub struct TrackAnnotationCascadeRequest {
    pub v: u8,
    pub artist: Option<String>,
    pub track: Option<String>,
    pub recording_mbid: Option<String>,
    pub locale: Option<String>,
}

/// Why nobody is asked for an annotation.
pub const NO_ANNOTATION_PROVIDER: &'static str =
    "every track-annotation provider is disabled or unavailable on this device; enable at least one under Settings → Metadata → Sources";

/// A query for an annotation.
pub struct AnnotationQuery {
    pub catalogue: ProviderCatalogue,
    pub artist: String,
    pub track: String,
    pub locale: String,
}

/// Whether any provider may be asked for an annotation.
pub open spec fn has_annotation_provider(c: ProviderCatalogue) -> bool {
    ||| c.asks(ProviderId::Wikipedia)
    ||| c.asks(ProviderId::Genius)
}

/// Where a request leads.
pub enum AnnotationStart {
    /// The request cannot be read.
    Refused(String),
    Answer(CascadeResponse),
    Fetch(AnnotationQuery),
}

/// Where a request for an annotation leads.
pub open spec fn annotation_starts(
    decoded: Decoded<TrackAnnotationCascadeRequest>,
    catalogue: ProviderCatalogue,
    r: AnnotationStart,
) -> bool {
    match decoded {
        Decoded::Empty => r is Answer && r->Answer_0@ == bare_response(
            CascadeStatus::BadRequest,
            Some("empty payload"@),
        ),
        Decoded::Rejected(e) => r == AnnotationStart::Refused(e),
        Decoded::Request(q) => if q.v != 1 {
            r is Answer && r->Answer_0@ == bare_response(
                CascadeStatus::BadRequest,
                Some("unsupported v: "@ + decimal_of(q.v as nat)),
            )
        } else {
            match (key_text(opt_view(q.artist)), key_text(opt_view(q.track))) {
                (Some(artist), Some(track)) => if has_annotation_provider(catalogue) {
                    &&& r matches AnnotationStart::Fetch(a)
                    &&& a.catalogue == catalogue
                    &&& a.artist@ == artist
                    &&& a.track@ == track
                    &&& a.locale@ == language_of(opt_view(q.locale))
                } else {
                    r is Answer && r->Answer_0@ == bare_response(
                        CascadeStatus::NotConfigured,
                        Some(NO_ANNOTATION_PROVIDER@),
                    )
                },
                _ => r is Answer && r->Answer_0@ == bare_response(
                    CascadeStatus::BadRequest,
                    Some("artist and track are required and must be non-empty"@),
                ),
            }
        },
    }
}

/// Starts a query.
pub fn begin_track_annotation(
    decoded: Decoded<TrackAnnotationCascadeRequest>,
    catalogue: ProviderCatalogue,
) -> (r: AnnotationStart)
    ensures
        annotation_starts(decoded, catalogue, r),
{
    let q = match decoded {
        Decoded::Empty => {
            return AnnotationStart::Answer(
                CascadeResponse::bad_request("empty payload".to_owned()),
            );
        },
        Decoded::Rejected(e) => {
            return AnnotationStart::Refused(e);
        },
        Decoded::Request(q) => q,
    };
    if q.v != 1 {
        return AnnotationStart::Answer(
            CascadeResponse::bad_request(joined("unsupported v: ", decimal(q.v as u64).as_str())),
        );
    }
    match (non_blank(&q.artist), non_blank(&q.track)) {
        (Some(artist), Some(track)) => {
            if !(catalogue.wants(ProviderId::Wikipedia) || catalogue.wants(ProviderId::Genius)) {
                return AnnotationStart::Answer(
                    CascadeResponse::not_configured(NO_ANNOTATION_PROVIDER.to_owned()),
                );
            }
            let hint: Option<&str> = match &q.locale {
                Some(l) => Some(l.as_str()),
                None => None,
            };
            AnnotationStart::Fetch(
                AnnotationQuery { catalogue, artist, track, locale: normalise_locale(hint) },
            )
        },
        _ => AnnotationStart::Answer(
            CascadeResponse::bad_request(
                "artist and track are required and must be non-empty".to_owned(),
            ),
        ),
    }
}

/// The titles under which a song may have a page.
pub open spec fn song_titles(artist: Seq<char>, track: Seq<char>) -> Seq<Seq<char>> {
    seq![track + " ("@ + artist + " song)"@, track + " (song)"@, track]
}

/// What Wikipedia's key of an annotation is made of.
pub open spec fn wikipedia_song_key_parts(
    artist: Seq<char>,
    track: Seq<char>,
    locale: Seq<char>,
) -> Seq<Seq<char>> {
    seq![
        "track_annotation"@,
        "song"@,
        normal_form(artist),
        normal_form(track),
        ProviderId::Wikipedia.name(),
        "loc"@,
        locale,
    ]
}

/// What Genius's key of an annotation is made of.
pub open spec fn genius_key_parts(artist: Seq<char>, track: Seq<char>) -> Seq<Seq<char>> {
    seq![
        "track_annotation"@,
        "song"@,
        normal_form(artist),
        normal_form(track),
        ProviderId::Genius.name(),
    ]
}

/// A song to be asked of Genius.
pub struct GeniusAsk {
    pub artist: String,
    pub track: String,
}

impl GeniusAsk {
    /// The annotation is the source.
    pub fn on_reply(self, reply: Result<Option<GeniusAnnotation>, String>) -> (r: Option<
        SourceEntry,
    >)
        ensures
            opt_source(r) == (match reply {
                Ok(Some(g)) => Some(genius_source_of(g)),
                _ => None,
            }),
    {
        match reply {
            Ok(Some(g)) => Some(genius_source(&g)),
            _ => None,
        }
    }
}

/// What says that nobody had an annotation.
pub open spec fn no_annotation(artist: Seq<char>, track: Seq<char>) -> Seq<char> {
    "no track annotation found for "@ + artist + " — "@ + track + " across enabled providers"@
}

/// The answer made of what each provider has on a track.
pub open spec fn annotation_answer(
    q: AnnotationQuery,
    wikipedia: Option<SourceModel>,
    genius: Option<SourceModel>,
) -> ResponseModel {
    answer_of(seq![wikipedia, genius], q.catalogue.config, no_annotation(q.artist@, q.track@))
}

impl AnnotationQuery {
    /// The fetch from Wikipedia, if it may be asked: the song's pages, all of
    /// them in the operator's language before any in English.
    pub fn wikipedia(&self) -> (r: Option<CachedFetch<SummaryLadder>>)
        ensures
            match r {
                Some(f) => {
                    &&& self.catalogue.asks(ProviderId::Wikipedia)
                    &&& f.kind == SourceKind::Wikipedia
                    &&& f.key@ == key_of(
                        wikipedia_song_key_parts(self.artist@, self.track@, self.locale@),
                    )
                    &&& f.next.well_formed()
                    &&& f.next.left() == titles_by_language(
                        song_titles(self.artist@, self.track@),
                        languages_for(self.locale@),
                    )
                },
                None => !self.catalogue.asks(ProviderId::Wikipedia),
            },
    {
        if !self.catalogue.wants(ProviderId::Wikipedia) {
            return None;
        }
        let artist = normalise(self.artist.as_str());
        let track = normalise(self.track.as_str());
        let parts: [&str; 7] = [
            "track_annotation",
            "song",
            artist.as_str(),
            track.as_str(),
            ProviderId::Wikipedia.as_str(),
            "loc",
            self.locale.as_str(),
        ];
        assert(str_views(parts@) =~= wikipedia_song_key_parts(
            self.artist@,
            self.track@,
            self.locale@,
        ));
        let mut by_artist = joined(self.track.as_str(), " (");
        by_artist.append(self.artist.as_str());
        by_artist.append(" song)");
        let mut titles: Vec<String> = Vec::new();
        push_owned(&mut titles, by_artist);
        push_owned(&mut titles, joined(self.track.as_str(), " (song)"));
        push_owned(&mut titles, self.track.clone());
        assert(views(titles@) =~= song_titles(self.artist@, self.track@));
        Some(
            CachedFetch {
                kind: SourceKind::Wikipedia,
                key: EnrichmentCache::key_for(parts.as_slice()),
                next: SummaryLadder::new(title_queries(&titles, self.locale.as_str())),
            },
        )
    }

    /// The fetch from Genius, if it may be asked.
    pub fn genius(&self) -> (r: Option<CachedFetch<GeniusAsk>>)
        ensures
            match r {
                Some(f) => {
                    &&& self.catalogue.asks(ProviderId::Genius)
                    &&& f.kind == SourceKind::Genius
                    &&& f.key@ == key_of(genius_key_parts(self.artist@, self.track@))
                    &&& f.next.artist@ == self.artist@
                    &&& f.next.track@ == self.track@
                },
                None => !self.catalogue.asks(ProviderId::Genius),
            },
    {
        if !self.catalogue.wants(ProviderId::Genius) {
            return None;
        }
        let artist = normalise(self.artist.as_str());
        let track = normalise(self.track.as_str());
        let parts: [&str; 5] = [
            "track_annotation",
            "song",
            artist.as_str(),
            track.as_str(),
            ProviderId::Genius.as_str(),
        ];
        assert(str_views(parts@) =~= genius_key_parts(self.artist@, self.track@));
        Some(
            CachedFetch {
                kind: SourceKind::Genius,
                key: EnrichmentCache::key_for(parts.as_slice()),
                next: GeniusAsk { artist: self.artist.clone(), track: self.track.clone() },
            },
        )
    }

    /// The answer made of what the fetches found.
    pub fn finish(self, wikipedia: Option<SourceEntry>, genius: Option<SourceEntry>) -> (r:
        CascadeResponse)
        ensures
            r@ == annotation_answer(
                self,
                opt_source(wikipedia),
                opt_source(genius),
            ),
            r@ == answer_of(
                seq![opt_source(wikipedia), opt_source(genius)],
                self.catalogue.config,
                no_annotation(self.artist@, self.track@),
            ),
    {
        let mut miss = joined("no track annotation found for ", self.artist.as_str());
        miss.append(" — ");
        miss.append(self.track.as_str());
        miss.append(" across enabled providers");
        let mut found: Vec<Option<SourceEntry>> = Vec::new();
        found.push(wikipedia);
        found.push(genius);
        assert(found_views(found@) =~= seq![opt_source(wikipedia), opt_source(genius)]);
        answer(found, &self.catalogue.config, miss)
    }
}

/// Whatever the providers have on a track is shown, and nothing else.
pub proof fn law_every_annotation_is_shown(
    q: AnnotationQuery,
    wikipedia: Option<SourceModel>,
    genius: Option<SourceModel>,
)
    ensures
        ({
            let r = annotation_answer(q, wikipedia, genius);
            &&& r.status is Success <==> wikipedia is Some || genius is Some
            &&& !(r.status is Success) ==> r.status is NotFound && r.payload is None
                && r.sources.len() == 0 && r.detail == Some(no_annotation(q.artist@, q.track@))
            &&& wikipedia matches Some(s) ==> r.sources.contains(s)
            &&& genius matches Some(s) ==> r.sources.contains(s)
            &&& forall|i: int|
                0 <= i < r.sources.len() ==> wikipedia == Some(#[trigger] r.sources[i]) || genius == Some(r.sources[i])
            &&& r.status is Success ==> r.payload == Some(r.sources[0].payload) && r.attribution
                == Some(r.sources[0].attribution)
        }),
{
    let found = seq![wikipedia, genius];
    law_the_answer_shows_every_find(found, q.catalogue.config, no_annotation(q.artist@, q.track@));
    let r = annotation_answer(q, wikipedia, genius);
    assert(found[0] == wikipedia);
    if let Some(s) = wikipedia {
        assert(found.contains(Some(s)));
    }
    assert(found[1] == genius);
    if let Some(s) = genius {
        assert(found.contains(Some(s)));
    }
    assert forall|i: int| 0 <= i < r.sources.len() implies wikipedia == Some(#[trigger] r.sources[i]) || genius == Some(r.sources[i]) by {
        let s = r.sources[i];
        assert(r.sources.contains(s));
        assert(found.contains(Some(s)));
        let k = choose|k: int| 0 <= k < found.len() && found[k] == Some(s);
    }
}

/// Annotations are kept apart by artist, by track and by provider, and
/// Wikipedia's by language too.
pub proof fn law_annotation_keys_are_told_apart(
    artist: Seq<char>,
    other: Seq<char>,
    track: Seq<char>,
    another: Seq<char>,
    locale: Seq<char>,
    tongue: Seq<char>,
)
    ensures
        wikipedia_song_key_parts(artist, track, locale) != genius_key_parts(other, another),
        normal_form(artist) != normal_form(other) || normal_form(track) != normal_form(another)
            ==> wikipedia_song_key_parts(artist, track, locale) != wikipedia_song_key_parts(
            other,
            another,
            tongue,
        ) && genius_key_parts(artist, track) != genius_key_parts(other, another),
        locale != tongue ==> wikipedia_song_key_parts(artist, track, locale)
            != wikipedia_song_key_parts(other, another, tongue),
{
    let a = wikipedia_song_key_parts(artist, track, locale);
    let b = wikipedia_song_key_parts(other, another, tongue);
    let c = genius_key_parts(artist, track);
    let d = genius_key_parts(other, another);
    assert(a.len() == 7 && d.len() == 5);
    assert(a[2] == normal_form(artist) && b[2] == normal_form(other));
    assert(a[3] == normal_form(track) && b[3] == normal_form(another));
    assert(a[6] == locale && b[6] == tongue);
    assert(c[2] == normal_form(artist) && d[2] == normal_form(other));
    assert(c[3] == normal_form(track) && d[3] == normal_form(another));
}

/// A song's page is sought under the most telling title first: with the artist,
/// then as a song, then by its bare name.
pub proof fn law_the_most_telling_song_title_comes_first(artist: Seq<char>, track: Seq<char>)
    ensures
        song_titles(artist, track).len() == 3,
        song_titles(artist, track)[0] == track + " ("@ + artist + " song)"@,
        song_titles(artist, track)[1] == track + " (song)"@,
        song_titles(artist, track)[2] == track,
{
}

/// Somebody is asked as long as Wikipedia or Genius may be.
pub proof fn law_one_provider_suffices_for_an_annotation(c: ProviderCatalogue)
    ensures
        c.asks(ProviderId::Wikipedia) || c.asks(ProviderId::Genius) <==> has_annotation_provider(c),
{
}

/// Somebody is asked for an annotation exactly if the request, in the one version there is,
/// names both its parts and some provider may be asked. What is asked for is what was
/// named, without the white around it.
pub proof fn law_who_gets_an_annotation(
    q: TrackAnnotationCascadeRequest,
    c: ProviderCatalogue,
    r: AnnotationStart,
)
    requires
        annotation_starts(Decoded::Request(q), c, r),
    ensures
        !(r is Refused),
        r is Fetch <==> q.v == 1
            && (q.artist is Some && trim_of(q.artist->Some_0@).len() > 0)
            && (q.track is Some && trim_of(q.track->Some_0@).len() > 0)
            && has_annotation_provider(c),
        r matches AnnotationStart::Fetch(n) ==> n.catalogue == c && n.artist@ == trim_of(q.artist->Some_0@) && n.track@
            == trim_of(q.track->Some_0@) && n.locale@ == language_of(
            opt_view(q.locale),
        ),
        r is Answer && q.v == 1
            && (q.artist is Some && trim_of(q.artist->Some_0@).len() > 0)
            && (q.track is Some && trim_of(q.track->Some_0@).len() > 0)
            ==> r->Answer_0@.status == CascadeStatus::NotConfigured,
        r is Answer && !(q.v == 1
            && (q.artist is Some && trim_of(q.artist->Some_0@).len() > 0)
            && (q.track is Some && trim_of(q.track->Some_0@).len() > 0))
            ==> r->Answer_0@.status == CascadeStatus::BadRequest,
        r is Answer ==> r->Answer_0@.payload is None && r->Answer_0@.sources.len() == 0,
{
}

/// A request that says nothing is a bad request; one that cannot be read is refused
/// for the reason that it cannot.
pub proof fn law_unreadable_requests_for_an_annotation(
    e: String,
    c: ProviderCatalogue,
    r: AnnotationStart,
)
    ensures
        annotation_starts(Decoded::Empty, c, r) ==> r is Answer && r->Answer_0@.status
            == CascadeStatus::BadRequest && r->Answer_0@.detail == Some("empty payload"@),
        annotation_starts(Decoded::Rejected(e), c, r) ==> r == AnnotationStart::Refused(e),
{
}

} // verus!
