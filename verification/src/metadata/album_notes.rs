//! Notes on albums, from Wikipedia, Last.fm, TheAudioDB and Discogs.

use crate::json::opt_view;
use crate::metadata::cache::{key_of, EnrichmentCache};
use crate::metadata::cascade::{
    bare_response, CascadeResponse, CascadeStatus, ProviderCatalogue, ProviderId, SourceEntry,
};
use crate::metadata::config::{key_text, non_blank};
use crate::metadata::fetch::{
    answer, answer_of, found_views, languages_for, title_queries, titles_by_language, CachedFetch,
    SummaryLadder,
};
use crate::metadata::locale::{language_of, normalise as normalise_locale};
use crate::metadata::normalise::{album_query, normal_form, normalise, normalise_album_query};
use crate::metadata::request::Decoded;
use crate::metadata::sources::{
    audiodb_album_source, audiodb_album_source_of, discogs_notes_source, discogs_notes_source_of,
    lastfm_source, lastfm_source_of, opt_source, AudioDbAlbum, DiscogsRelease, LastfmText,
    SourceKind,
};
use crate::text::{clone_opt, decimal, decimal_of, joined, push_owned, str_views, trim_of, views};
use crate::metadata::cascade::{ResponseModel, SourceModel};
use crate::metadata::fetch::law_the_answer_shows_every_find;
use crate::metadata::cascade::law_provider_names_round_trip;
use vstd::prelude::*;

verus! {

/// A request for notes.
pub struct AlbumNotesCascadeRequest {
    pub v: u8,
    pub artist: Option<String>,
    pub album: Option<String>,
    pub release_mbid: Option<String>,
    pub locale: Option<String>,
}

/// Why nobody is asked for notes.
pub const NO_NOTES_PROVIDER: &'static str =
    "every album-notes provider is disabled or unavailable on this device; enable at least one under Settings → Metadata → Sources";

/// Whether any provider may be asked for notes.
pub open spec fn has_notes_provider(c: ProviderCatalogue) -> bool {
    ||| c.asks(ProviderId::Wikipedia)
    ||| c.asks(ProviderId::Lastfm)
    ||| c.asks(ProviderId::TheAudioDb)
    ||| c.asks(ProviderId::Discogs)
}

/// A query for notes.
pub struct NotesQuery {
    pub catalogue: ProviderCatalogue,
    pub artist: String,
    pub album: String,
    pub release_mbid: Option<String>,
    pub locale: String,
}

/// Where a request leads.
pub enum NotesStart {
    /// The request cannot be read.
    Refused(String),
    Answer(CascadeResponse),
    Fetch(NotesQuery),
}

/// Where a request for album notes leads.
pub open spec fn notes_start(
    decoded: Decoded<AlbumNotesCascadeRequest>,
    catalogue: ProviderCatalogue,
    r: NotesStart,
) -> bool {
    match decoded {
        Decoded::Empty => r is Answer && r->Answer_0@ == bare_response(
            CascadeStatus::BadRequest,
            Some("empty payload"@),
        ),
        Decoded::Rejected(e) => r == NotesStart::Refused(e),
        Decoded::Request(q) => if q.v != 1 {
            r is Answer && r->Answer_0@ == bare_response(
                CascadeStatus::BadRequest,
                Some("unsupported v: "@ + decimal_of(q.v as nat)),
            )
        } else {
            match (key_text(opt_view(q.artist)), key_text(opt_view(q.album))) {
                (Some(artist), Some(album)) => if has_notes_provider(catalogue) {
                    &&& r matches NotesStart::Fetch(n)
                    &&& n.catalogue == catalogue
                    &&& n.artist@ == artist
                    &&& n.album@ == album
                    &&& opt_view(n.release_mbid) == key_text(opt_view(q.release_mbid))
                    &&& n.locale@ == language_of(opt_view(q.locale))
                } else {
                    r is Answer && r->Answer_0@ == bare_response(
                        CascadeStatus::NotConfigured,
                        Some(NO_NOTES_PROVIDER@),
                    )
                },
                _ => r is Answer && r->Answer_0@ == bare_response(
                    CascadeStatus::BadRequest,
                    Some("artist and album are required and must be non-empty"@),
                ),
            }
        },
    }
}

/// Starts a query.
pub fn begin_album_notes(
    decoded: Decoded<AlbumNotesCascadeRequest>,
    catalogue: ProviderCatalogue,
) -> (r: NotesStart)
    ensures
        notes_start(decoded, catalogue, r),
{
    let q = match decoded {
        Decoded::Empty => {
            return NotesStart::Answer(CascadeResponse::bad_request("empty payload".to_owned()));
        },
        Decoded::Rejected(e) => {
            return NotesStart::Refused(e);
        },
        Decoded::Request(q) => q,
    };
    if q.v != 1 {
        return NotesStart::Answer(
            CascadeResponse::bad_request(joined("unsupported v: ", decimal(q.v as u64).as_str())),
        );
    }
    match (non_blank(&q.artist), non_blank(&q.album)) {
        (Some(artist), Some(album)) => {
            let any = catalogue.wants(ProviderId::Wikipedia) || catalogue.wants(ProviderId::Lastfm)
                || catalogue.wants(ProviderId::TheAudioDb) || catalogue.wants(ProviderId::Discogs);
            if !any {
                return NotesStart::Answer(
                    CascadeResponse::not_configured(NO_NOTES_PROVIDER.to_owned()),
                );
            }
            let hint: Option<&str> = match &q.locale {
                Some(l) => Some(l.as_str()),
                None => None,
            };
            NotesStart::Fetch(
                NotesQuery {
                    catalogue,
                    artist,
                    album,
                    release_mbid: non_blank(&q.release_mbid),
                    locale: normalise_locale(hint),
                },
            )
        },
        _ => NotesStart::Answer(
            CascadeResponse::bad_request(
                "artist and album are required and must be non-empty".to_owned(),
            ),
        ),
    }
}

// ---------------------------------------------------------------------
// Keys and titles
// ---------------------------------------------------------------------

/// What every key of notes starts with.
pub open spec fn notes_key_parts(
    artist: Seq<char>,
    album: Seq<char>,
    provider: ProviderId,
) -> Seq<Seq<char>> {
    seq![
        "album_notes"@,
        "album"@,
        normal_form(artist),
        normal_form(album_query(album)),
        provider.name(),
    ]
}

/// What a key of notes in a language is made of.
pub open spec fn localised_notes_key_parts(
    artist: Seq<char>,
    album: Seq<char>,
    provider: ProviderId,
    locale: Seq<char>,
) -> Seq<Seq<char>> {
    notes_key_parts(artist, album, provider) + seq!["loc"@, locale]
}

/// What Discogs's key of notes is made of; the last part names the form of the entry.
pub open spec fn discogs_notes_key_parts(artist: Seq<char>, album: Seq<char>) -> Seq<Seq<char>> {
    notes_key_parts(artist, album, ProviderId::Discogs) + seq!["v2"@]
}

/// The titles under which an album may have a page.
pub open spec fn album_titles(artist: Seq<char>, album: Seq<char>) -> Seq<Seq<char>> {
    let plain = album_query(album);
    seq![plain + " ("@ + artist + " album)"@, plain + " (album)"@, plain]
}

// ---------------------------------------------------------------------
// Replies
// ---------------------------------------------------------------------

/// An album to be asked of Last.fm.
pub struct LastfmAlbumAsk {
    pub artist: String,
    pub album: String,
    pub mbid: Option<String>,
}

impl LastfmAlbumAsk {
    /// The text is the source.
    pub fn on_reply(self, reply: Result<Option<LastfmText>, String>) -> (r: Option<SourceEntry>)
        ensures
            opt_source(r) == (match reply {
                Ok(Some(t)) => Some(lastfm_source_of(t)),
                _ => None,
            }),
    {
        match reply {
            Ok(Some(t)) => Some(lastfm_source(&t)),
            _ => None,
        }
    }
}

/// An album to be asked of TheAudioDB.
pub struct AudioDbAlbumAsk {
    pub artist: String,
    pub album: String,
}

impl AudioDbAlbumAsk {
    /// The record is the source, if it says anything.
    pub fn on_reply(self, reply: Result<Option<AudioDbAlbum>, String>) -> (r: Option<SourceEntry>)
        ensures
            opt_source(r) == (match reply {
                Ok(Some(a)) => audiodb_album_source_of(a),
                _ => None,
            }),
    {
        match reply {
            Ok(Some(a)) => audiodb_album_source(&a),
            _ => None,
        }
    }
}

/// A release whose link to Discogs is to be looked up at MusicBrainz.
pub struct DiscogsLink {
    pub release_mbid: String,
    pub search: DiscogsSearch,
}

/// A release to be asked of Discogs by number.
pub struct DiscogsById {
    pub release_id: u64,
    pub search: DiscogsSearch,
}

/// A release to be searched for at Discogs.
pub struct DiscogsSearch {
    pub artist: String,
    pub album: String,
}

/// How Discogs is asked first.
pub enum DiscogsNotesAsk {
    Link(DiscogsLink),
    Search(DiscogsSearch),
}

/// Where a link leads.
pub enum AfterLink {
    ById(DiscogsById),
    Search(DiscogsSearch),
}

/// Where a number leads.
pub enum AfterId {
    Done(Option<SourceEntry>),
    Search(DiscogsSearch),
}

impl DiscogsLink {
    /// A linked release is asked for by its number; without a link, or where the
    /// lookup failed, Discogs is searched.
    pub fn on_link(self, linked: Option<u64>) -> (r: AfterLink)
        ensures
            r == (match linked {
                Some(release_id) => AfterLink::ById(
                    DiscogsById { release_id, search: self.search },
                ),
                None => AfterLink::Search(self.search),
            }),
    {
        match linked {
            Some(release_id) => AfterLink::ById(DiscogsById { release_id, search: self.search }),
            None => AfterLink::Search(self.search),
        }
    }
}

impl DiscogsById {
    /// The release is the source, if it says anything; a number that is unknown
    /// or could not be asked for leads to the search.
    pub fn on_reply(self, reply: Result<Option<DiscogsRelease>, String>) -> (r: AfterId)
        ensures
            match reply {
                Ok(Some(d)) => r is Done && opt_source(r->Done_0) == discogs_notes_source_of(d),
                _ => r == AfterId::Search(self.search),
            },
    {
        match reply {
            Ok(Some(d)) => AfterId::Done(discogs_notes_source(&d)),
            _ => AfterId::Search(self.search),
        }
    }
}

impl DiscogsSearch {
    /// The release is the source, if it says anything.
    pub fn on_reply(self, reply: Result<Option<DiscogsRelease>, String>) -> (r: Option<SourceEntry>)
        ensures
            opt_source(r) == (match reply {
                Ok(Some(d)) => discogs_notes_source_of(d),
                _ => None,
            }),
    {
        match reply {
            Ok(Some(d)) => discogs_notes_source(&d),
            _ => None,
        }
    }
}

// ---------------------------------------------------------------------
// Fetches
// ---------------------------------------------------------------------

/// What says that nobody had notes.
pub open spec fn no_notes(artist: Seq<char>, album: Seq<char>) -> Seq<char> {
    "no album notes found for "@ + artist + " — "@ + album + " across enabled providers"@
}

/// The answer made of what each provider has on an album.
pub open spec fn notes_answer(
    q: NotesQuery,
    wikipedia: Option<SourceModel>,
    lastfm: Option<SourceModel>,
    theaudiodb: Option<SourceModel>,
    discogs: Option<SourceModel>,
) -> ResponseModel {
    answer_of(seq![wikipedia, lastfm, theaudiodb, discogs], q.catalogue.config, no_notes(q.artist@, q.album@))
}

impl NotesQuery {
    /// The fetch from Wikipedia, if it may be asked: the album's pages, all of
    /// them in the operator's language before any in English.
    pub fn wikipedia(&self) -> (r: Option<CachedFetch<SummaryLadder>>)
        ensures
            match r {
                Some(f) => {
                    &&& self.catalogue.asks(ProviderId::Wikipedia)
                    &&& f.kind == SourceKind::Wikipedia
                    &&& f.key@ == key_of(
                        localised_notes_key_parts(
                            self.artist@,
                            self.album@,
                            ProviderId::Wikipedia,
                            self.locale@,
                        ),
                    )
                    &&& f.next.well_formed()
                    &&& f.next.left() == titles_by_language(
                        album_titles(self.artist@, self.album@),
                        languages_for(self.locale@),
                    )
                },
                None => !self.catalogue.asks(ProviderId::Wikipedia),
            },
    {
        if !self.catalogue.wants(ProviderId::Wikipedia) {
            return None;
        }
        let plain = normalise_album_query(self.album.as_str());
        let mut by_artist = joined(plain.as_str(), " (");
        by_artist.append(self.artist.as_str());
        by_artist.append(" album)");
        let mut titles: Vec<String> = Vec::new();
        push_owned(&mut titles, by_artist);
        push_owned(&mut titles, joined(plain.as_str(), " (album)"));
        push_owned(&mut titles, plain);
        assert(views(titles@) =~= album_titles(self.artist@, self.album@));
        Some(
            CachedFetch {
                kind: SourceKind::Wikipedia,
                key: self.localised_key(ProviderId::Wikipedia),
                next: SummaryLadder::new(title_queries(&titles, self.locale.as_str())),
            },
        )
    }

    fn localised_key(&self, provider: ProviderId) -> (r: String)
        ensures
            r@ == key_of(
                localised_notes_key_parts(self.artist@, self.album@, provider, self.locale@),
            ),
    {
        let artist = normalise(self.artist.as_str());
        let album = normalise(normalise_album_query(self.album.as_str()).as_str());
        let parts: [&str; 7] = [
            "album_notes",
            "album",
            artist.as_str(),
            album.as_str(),
            provider.as_str(),
            "loc",
            self.locale.as_str(),
        ];
        assert(str_views(parts@) =~= localised_notes_key_parts(
            self.artist@,
            self.album@,
            provider,
            self.locale@,
        ));
        EnrichmentCache::key_for(parts.as_slice())
    }

    /// The fetch from Last.fm, if it may be asked.
    pub fn lastfm(&self) -> (r: Option<CachedFetch<LastfmAlbumAsk>>)
        ensures
            match r {
                Some(f) => {
                    &&& self.catalogue.asks(ProviderId::Lastfm)
                    &&& f.kind == SourceKind::Lastfm
                    &&& f.key@ == key_of(
                        notes_key_parts(self.artist@, self.album@, ProviderId::Lastfm),
                    )
                    &&& f.next.artist@ == self.artist@
                    &&& f.next.album@ == album_query(self.album@)
                    &&& f.next.mbid == self.release_mbid
                },
                None => !self.catalogue.asks(ProviderId::Lastfm),
            },
    {
        if !self.catalogue.wants(ProviderId::Lastfm) {
            return None;
        }
        let artist = normalise(self.artist.as_str());
        let plain = normalise_album_query(self.album.as_str());
        let album = normalise(plain.as_str());
        let parts: [&str; 5] = [
            "album_notes",
            "album",
            artist.as_str(),
            album.as_str(),
            ProviderId::Lastfm.as_str(),
        ];
        assert(str_views(parts@) =~= notes_key_parts(
            self.artist@,
            self.album@,
            ProviderId::Lastfm,
        ));
        Some(
            CachedFetch {
                kind: SourceKind::Lastfm,
                key: EnrichmentCache::key_for(parts.as_slice()),
                next: LastfmAlbumAsk {
                    artist: self.artist.clone(),
                    album: plain,
                    mbid: clone_opt(&self.release_mbid),
                },
            },
        )
    }

    /// The fetch from TheAudioDB, if it may be asked.
    pub fn theaudiodb(&self) -> (r: Option<CachedFetch<AudioDbAlbumAsk>>)
        ensures
            match r {
                Some(f) => {
                    &&& self.catalogue.asks(ProviderId::TheAudioDb)
                    &&& f.kind == SourceKind::TheAudioDb
                    &&& f.key@ == key_of(
                        localised_notes_key_parts(
                            self.artist@,
                            self.album@,
                            ProviderId::TheAudioDb,
                            self.locale@,
                        ),
                    )
                    &&& f.next.artist@ == self.artist@
                    &&& f.next.album@ == album_query(self.album@)
                },
                None => !self.catalogue.asks(ProviderId::TheAudioDb),
            },
    {
        if !self.catalogue.wants(ProviderId::TheAudioDb) {
            return None;
        }
        Some(
            CachedFetch {
                kind: SourceKind::TheAudioDb,
                key: self.localised_key(ProviderId::TheAudioDb),
                next: AudioDbAlbumAsk {
                    artist: self.artist.clone(),
                    album: normalise_album_query(self.album.as_str()),
                },
            },
        )
    }

    /// The fetch from Discogs, if it may be asked: by way of MusicBrainz's link,
    /// where the caller knows the release and MusicBrainz may be asked, else by
    /// search.
    pub fn discogs(&self) -> (r: Option<CachedFetch<DiscogsNotesAsk>>)
        ensures
            match r {
                Some(f) => {
                    &&& self.catalogue.asks(ProviderId::Discogs)
                    &&& f.kind == SourceKind::Discogs
                    &&& f.key@ == key_of(discogs_notes_key_parts(self.artist@, self.album@))
                    &&& match f.next {
                        DiscogsNotesAsk::Link(l) => {
                            &&& self.catalogue.asks(ProviderId::MusicBrainz)
                            &&& opt_view(self.release_mbid) == Some(l.release_mbid@)
                            &&& l.search.artist@ == self.artist@
                            &&& l.search.album@ == album_query(self.album@)
                        },
                        DiscogsNotesAsk::Search(s) => {
                            &&& !self.catalogue.asks(ProviderId::MusicBrainz)
                                || self.release_mbid is None
                            &&& s.artist@ == self.artist@
                            &&& s.album@ == album_query(self.album@)
                        },
                    }
                },
                None => !self.catalogue.asks(ProviderId::Discogs),
            },
    {
        if !self.catalogue.wants(ProviderId::Discogs) {
            return None;
        }
        let artist = normalise(self.artist.as_str());
        let plain = normalise_album_query(self.album.as_str());
        let album = normalise(plain.as_str());
        let parts: [&str; 6] = [
            "album_notes",
            "album",
            artist.as_str(),
            album.as_str(),
            ProviderId::Discogs.as_str(),
            "v2",
        ];
        assert(str_views(parts@) =~= discogs_notes_key_parts(self.artist@, self.album@));
        let search = DiscogsSearch { artist: self.artist.clone(), album: plain };
        let linked = if self.catalogue.wants(ProviderId::MusicBrainz) {
            clone_opt(&self.release_mbid)
        } else {
            None
        };
        let next = match linked {
            Some(release_mbid) => DiscogsNotesAsk::Link(DiscogsLink { release_mbid, search }),
            None => DiscogsNotesAsk::Search(search),
        };
        Some(
            CachedFetch {
                kind: SourceKind::Discogs,
                key: EnrichmentCache::key_for(parts.as_slice()),
                next,
            },
        )
    }

    /// The answer made of what the fetches found.
    pub fn finish(
        self,
        wikipedia: Option<SourceEntry>,
        lastfm: Option<SourceEntry>,
        theaudiodb: Option<SourceEntry>,
        discogs: Option<SourceEntry>,
    ) -> (r: CascadeResponse)
        ensures
            r@ == notes_answer(
                self,
                opt_source(wikipedia),
                opt_source(lastfm),
                opt_source(theaudiodb),
                opt_source(discogs),
            ),
            r@ == answer_of(
                seq![
                    opt_source(wikipedia),
                    opt_source(lastfm),
                    opt_source(theaudiodb),
                    opt_source(discogs),
                ],
                self.catalogue.config,
                no_notes(self.artist@, self.album@),
            ),
    {
        let mut miss = joined("no album notes found for ", self.artist.as_str());
        miss.append(" — ");
        miss.append(self.album.as_str());
        miss.append(" across enabled providers");
        let mut found: Vec<Option<SourceEntry>> = Vec::new();
        found.push(wikipedia);
        found.push(lastfm);
        found.push(theaudiodb);
        found.push(discogs);
        assert(found_views(found@) =~= seq![
            opt_source(wikipedia),
            opt_source(lastfm),
            opt_source(theaudiodb),
            opt_source(discogs),
        ]);
        answer(found, &self.catalogue.config, miss)
    }
}

/// Whatever the providers have on an album is shown, and nothing else.
pub proof fn law_all_album_notes_are_shown(
    q: NotesQuery,
    wikipedia: Option<SourceModel>,
    lastfm: Option<SourceModel>,
    theaudiodb: Option<SourceModel>,
    discogs: Option<SourceModel>,
)
    ensures
        ({
            let r = notes_answer(q, wikipedia, lastfm, theaudiodb, discogs);
            &&& r.status is Success <==> wikipedia is Some || lastfm is Some || theaudiodb is Some || discogs is Some
            &&& !(r.status is Success) ==> r.status is NotFound && r.payload is None
                && r.sources.len() == 0 && r.detail == Some(no_notes(q.artist@, q.album@))
            &&& wikipedia matches Some(s) ==> r.sources.contains(s)
            &&& lastfm matches Some(s) ==> r.sources.contains(s)
            &&& theaudiodb matches Some(s) ==> r.sources.contains(s)
            &&& discogs matches Some(s) ==> r.sources.contains(s)
            &&& forall|i: int|
                0 <= i < r.sources.len() ==> wikipedia == Some(#[trigger] r.sources[i]) || lastfm == Some(r.sources[i]) || theaudiodb == Some(r.sources[i]) || discogs == Some(r.sources[i])
            &&& r.status is Success ==> r.payload == Some(r.sources[0].payload) && r.attribution
                == Some(r.sources[0].attribution)
        }),
{
    let found = seq![wikipedia, lastfm, theaudiodb, discogs];
    law_the_answer_shows_every_find(found, q.catalogue.config, no_notes(q.artist@, q.album@));
    let r = notes_answer(q, wikipedia, lastfm, theaudiodb, discogs);
    assert(found[0] == wikipedia);
    if let Some(s) = wikipedia {
        assert(found.contains(Some(s)));
    }
    assert(found[1] == lastfm);
    if let Some(s) = lastfm {
        assert(found.contains(Some(s)));
    }
    assert(found[2] == theaudiodb);
    if let Some(s) = theaudiodb {
        assert(found.contains(Some(s)));
    }
    assert(found[3] == discogs);
    if let Some(s) = discogs {
        assert(found.contains(Some(s)));
    }
    assert forall|i: int| 0 <= i < r.sources.len() implies wikipedia == Some(#[trigger] r.sources[i]) || lastfm == Some(r.sources[i]) || theaudiodb == Some(r.sources[i]) || discogs == Some(r.sources[i]) by {
        let s = r.sources[i];
        assert(r.sources.contains(s));
        assert(found.contains(Some(s)));
        let k = choose|k: int| 0 <= k < found.len() && found[k] == Some(s);
    }
}

/// Notes on an album are kept apart by artist, by album, by provider and by
/// language.
pub proof fn law_notes_keys_are_told_apart(
    artist: Seq<char>,
    other: Seq<char>,
    album: Seq<char>,
    another: Seq<char>,
    p: ProviderId,
    q: ProviderId,
    locale: Seq<char>,
    tongue: Seq<char>,
)
    requires
        normal_form(artist) != normal_form(other) || normal_form(album_query(album)) != normal_form(
            album_query(another),
        ) || p != q || locale != tongue,
    ensures
        localised_notes_key_parts(artist, album, p, locale) != localised_notes_key_parts(
            other,
            another,
            q,
            tongue,
        ),
        normal_form(artist) != normal_form(other) || normal_form(album_query(album)) != normal_form(
            album_query(another),
        ) ==> discogs_notes_key_parts(artist, album) != discogs_notes_key_parts(other, another)
            && notes_key_parts(artist, album, p) != notes_key_parts(other, another, q),
        p != q ==> notes_key_parts(artist, album, p) != notes_key_parts(other, another, q),
        discogs_notes_key_parts(artist, album) != localised_notes_key_parts(
            other,
            another,
            q,
            tongue,
        ),
{
    law_provider_names_round_trip(p);
    law_provider_names_round_trip(q);
    let a = notes_key_parts(artist, album, p);
    let b = notes_key_parts(other, another, q);
    assert(a[2] == normal_form(artist) && b[2] == normal_form(other));
    assert(a[3] == normal_form(album_query(album)) && b[3] == normal_form(album_query(another)));
    assert(a[4] == p.name() && b[4] == q.name());
    let c = localised_notes_key_parts(artist, album, p, locale);
    let d = localised_notes_key_parts(other, another, q, tongue);
    assert(c[2] == a[2] && c[3] == a[3] && c[4] == a[4] && c[6] == locale && c.len() == 7);
    assert(d[2] == b[2] && d[3] == b[3] && d[4] == b[4] && d[6] == tongue && d.len() == 7);
    let e = discogs_notes_key_parts(artist, album);
    let f = discogs_notes_key_parts(other, another);
    assert(e[2] == a[2] && e[3] == a[3] && e.len() == 6);
    assert(f[2] == b[2] && f[3] == b[3]);
}

/// An album's page is sought under the most telling title first: with the artist,
/// then as an album, then by its bare name.
pub proof fn law_the_most_telling_album_title_comes_first(artist: Seq<char>, album: Seq<char>)
    ensures
        album_titles(artist, album).len() == 3,
        album_titles(artist, album)[0] == album_query(album) + " ("@ + artist + " album)"@,
        album_titles(artist, album)[1] == album_query(album) + " (album)"@,
        album_titles(artist, album)[2] == album_query(album),
{
}

/// Somebody is asked as long as one of the four providers may be.
pub proof fn law_one_provider_suffices_for_notes(c: ProviderCatalogue, p: ProviderId)
    ensures
        p is Wikipedia || p is Lastfm || p is TheAudioDb || p is Discogs ==> (c.asks(p)
            ==> has_notes_provider(c)),
        !c.asks(ProviderId::Wikipedia) && !c.asks(ProviderId::Lastfm) && !c.asks(
            ProviderId::TheAudioDb,
        ) && !c.asks(ProviderId::Discogs) ==> !has_notes_provider(c),
{
}

/// Somebody is asked for album notes exactly if the request, in the one version there is,
/// names both its parts and some provider may be asked. What is asked for is what was
/// named, without the white around it.
pub proof fn law_who_gets_album_notes(
    q: AlbumNotesCascadeRequest,
    c: ProviderCatalogue,
    r: NotesStart,
)
    requires
        notes_start(Decoded::Request(q), c, r),
    ensures
        !(r is Refused),
        r is Fetch <==> q.v == 1
            && (q.artist is Some && trim_of(q.artist->Some_0@).len() > 0)
            && (q.album is Some && trim_of(q.album->Some_0@).len() > 0)
            && has_notes_provider(c),
        r matches NotesStart::Fetch(n) ==> n.catalogue == c && n.artist@ == trim_of(q.artist->Some_0@) && n.album@
            == trim_of(q.album->Some_0@) && opt_view(n.release_mbid)
            == key_text(opt_view(q.release_mbid)) && n.locale@ == language_of(
            opt_view(q.locale),
        ),
        r is Answer && q.v == 1
            && (q.artist is Some && trim_of(q.artist->Some_0@).len() > 0)
            && (q.album is Some && trim_of(q.album->Some_0@).len() > 0)
            ==> r->Answer_0@.status == CascadeStatus::NotConfigured,
        r is Answer && !(q.v == 1
            && (q.artist is Some && trim_of(q.artist->Some_0@).len() > 0)
            && (q.album is Some && trim_of(q.album->Some_0@).len() > 0))
            ==> r->Answer_0@.status == CascadeStatus::BadRequest,
        r is Answer ==> r->Answer_0@.payload is None && r->Answer_0@.sources.len() == 0,
{
}

/// A request that says nothing is a bad request; one that cannot be read is refused
/// for the reason that it cannot.
pub proof fn law_unreadable_requests_for_album_notes(
    e: String,
    c: ProviderCatalogue,
    r: NotesStart,
)
    ensures
        notes_start(Decoded::Empty, c, r) ==> r is Answer && r->Answer_0@.status
            == CascadeStatus::BadRequest && r->Answer_0@.detail == Some("empty payload"@),
        notes_start(Decoded::Rejected(e), c, r) ==> r == NotesStart::Refused(e),
{
}

} // verus!
