//! Credits of releases, from MusicBrainz and Discogs.

use crate::json::opt_view;
use crate::metadata::cache::{key_of, EnrichmentCache};
use crate::metadata::cascade::{
    bare_response, CascadeResponse, CascadeStatus, ProviderCatalogue, ProviderId, SourceEntry,
};
use crate::metadata::config::{key_text, non_blank};
use crate::metadata::fetch::{answer, answer_of, found_views, CachedFetch};
use crate::metadata::normalise::{album_query, normal_form, normalise, normalise_album_query};
use crate::metadata::reconcile::MIN_CONFIDENCE_PERCENT;
use crate::metadata::request::Decoded;
use crate::metadata::sources::{
    credits_source_of, discogs_credits_source, discogs_credits_source_of,
    musicbrainz_credits_source, opt_source, DiscogsRelease, ReleaseCredits, SourceKind,
};
use crate::text::{decimal, decimal_of, joined, str_views, trim_of};
use crate::metadata::cascade::{ResponseModel, SourceModel};
use crate::metadata::fetch::law_the_answer_shows_every_find;
use crate::metadata::cascade::law_provider_names_round_trip;
use vstd::prelude::*;

verus! {

/// The search score from which a match settles which release is meant: the one
/// that a reconciliation asks for.
pub const RELEASE_SEARCH_CONFIDENCE_FLOOR: u32 = MIN_CONFIDENCE_PERCENT;

/// A request for credits.
pub struct ReleaseCreditsCascadeRequest {
    pub v: u8,
    pub artist: Option<String>,
    pub album: Option<String>,
    pub release_mbid: Option<String>,
    pub locale: Option<String>,
}

/// Why nobody is asked for credits.
pub const NO_CREDITS_PROVIDER: &'static str =
    "every release-credits provider is disabled or unavailable on this device; enable at least one under Settings → Metadata → Sources";

/// A query for credits.
pub struct CreditsQuery {
    pub catalogue: ProviderCatalogue,
    pub artist: String,
    pub album: String,
    pub release_mbid: Option<String>,
}

/// Whether any provider may be asked for credits.
pub open spec fn has_credits_provider(c: ProviderCatalogue) -> bool {
    ||| c.asks(ProviderId::MusicBrainz)
    ||| c.asks(ProviderId::Discogs)
}

/// Where a request leads.
pub enum CreditsStart {
    /// The request cannot be read.
    Refused(String),
    Answer(CascadeResponse),
    Fetch(CreditsQuery),
}

/// Where a request for credits leads.
pub open spec fn credits_start(
    decoded: Decoded<ReleaseCreditsCascadeRequest>,
    catalogue: ProviderCatalogue,
    r: CreditsStart,
) -> bool {
    match decoded {
        Decoded::Empty => r is Answer && r->Answer_0@ == bare_response(
            CascadeStatus::BadRequest,
            Some("empty payload"@),
        ),
        Decoded::Rejected(e) => r == CreditsStart::Refused(e),
        Decoded::Request(q) => if q.v != 1 {
            r is Answer && r->Answer_0@ == bare_response(
                CascadeStatus::BadRequest,
                Some("unsupported v: "@ + decimal_of(q.v as nat)),
            )
        } else {
            match (key_text(opt_view(q.artist)), key_text(opt_view(q.album))) {
                (Some(artist), Some(album)) => if has_credits_provider(catalogue) {
                    &&& r matches CreditsStart::Fetch(c)
                    &&& c.catalogue == catalogue
                    &&& c.artist@ == artist
                    &&& c.album@ == album
                    &&& opt_view(c.release_mbid) == key_text(opt_view(q.release_mbid))
                } else {
                    r is Answer && r->Answer_0@ == bare_response(
                        CascadeStatus::NotConfigured,
                        Some(NO_CREDITS_PROVIDER@),
                    )
                },
                _ => r is Answer && r->Answer_0@ == bare_response(
                    CascadeStatus::BadRequest,
                    Some("artist and album are required and must be non-empty"@),
                ),
            }
        },
    }
}

/// Starts a query.
pub fn begin_release_credits(
    decoded: Decoded<ReleaseCreditsCascadeRequest>,
    catalogue: ProviderCatalogue,
) -> (r: CreditsStart)
    ensures
        credits_start(decoded, catalogue, r),
{
    let q = match decoded {
        Decoded::Empty => {
            return CreditsStart::Answer(CascadeResponse::bad_request("empty payload".to_owned()));
        },
        Decoded::Rejected(e) => {
            return CreditsStart::Refused(e);
        },
        Decoded::Request(q) => q,
    };
    if q.v != 1 {
        return CreditsStart::Answer(
            CascadeResponse::bad_request(joined("unsupported v: ", decimal(q.v as u64).as_str())),
        );
    }
    match (non_blank(&q.artist), non_blank(&q.album)) {
        (Some(artist), Some(album)) => {
            if !(catalogue.wants(ProviderId::MusicBrainz) || catalogue.wants(ProviderId::Discogs)) {
                return CreditsStart::Answer(
                    CascadeResponse::not_configured(NO_CREDITS_PROVIDER.to_owned()),
                );
            }
            CreditsStart::Fetch(
                CreditsQuery { catalogue, artist, album, release_mbid: non_blank(&q.release_mbid) },
            )
        },
        _ => CreditsStart::Answer(
            CascadeResponse::bad_request(
                "artist and album are required and must be non-empty".to_owned(),
            ),
        ),
    }
}

/// What a key of credits is made of.
pub open spec fn credits_key_parts(
    artist: Seq<char>,
    album: Seq<char>,
    provider: ProviderId,
) -> Seq<Seq<char>> {
    seq![
        "release_credits"@,
        "release"@,
        normal_form(artist),
        normal_form(album_query(album)),
        provider.name(),
    ]
}

/// The best match of a release search.
pub struct ReleaseMatch {
    pub release_mbid: String,
    pub confidence_percent: u32,
}

/// A release to be searched for at MusicBrainz.
pub struct CreditsSearch {
    pub artist: String,
    pub album: String,
}

/// A release to be looked up at MusicBrainz.
pub struct CreditsLookUp {
    pub release_mbid: String,
}

/// How MusicBrainz is asked first.
pub enum CreditsAsk {
    Search(CreditsSearch),
    LookUp(CreditsLookUp),
}

impl CreditsSearch {
    /// A match of sufficient score is looked up; anything else ends the fetch.
    pub fn on_search(self, found: Result<Option<ReleaseMatch>, String>) -> (r: Option<
        CreditsLookUp,
    >)
        ensures
            r == (match found {
                Ok(Some(m)) => if m.confidence_percent >= RELEASE_SEARCH_CONFIDENCE_FLOOR {
                    Some(CreditsLookUp { release_mbid: m.release_mbid })
                } else {
                    None
                },
                _ => None,
            }),
    {
        match found {
            Ok(Some(m)) => if m.confidence_percent >= RELEASE_SEARCH_CONFIDENCE_FLOOR {
                Some(CreditsLookUp { release_mbid: m.release_mbid })
            } else {
                None
            },
            _ => None,
        }
    }
}

impl CreditsLookUp {
    /// The looked-up credits are the source.
    pub fn on_lookup(self, found: Result<ReleaseCredits, String>) -> (r: Option<SourceEntry>)
        ensures
            opt_source(r) == (match found {
                Ok(c) => Some(credits_source_of(c)),
                Err(_) => None,
            }),
    {
        match found {
            Ok(c) => Some(musicbrainz_credits_source(&c)),
            Err(_) => None,
        }
    }
}

/// A release to be asked of Discogs.
pub struct DiscogsAsk {
    pub artist: String,
    pub album: String,
}

impl DiscogsAsk {
    /// The release's credits are the source.
    pub fn on_reply(self, reply: Result<Option<DiscogsRelease>, String>) -> (r: Option<SourceEntry>)
        ensures
            opt_source(r) == (match reply {
                Ok(Some(d)) => Some(discogs_credits_source_of(d)),
                _ => None,
            }),
    {
        match reply {
            Ok(Some(d)) => Some(discogs_credits_source(&d)),
            _ => None,
        }
    }
}

/// What says that nobody had credits.
pub open spec fn no_credits(artist: Seq<char>, album: Seq<char>) -> Seq<char> {
    "no release-credits found for "@ + artist + " — "@ + album
}

/// The answer made of what each provider credits on a release.
pub open spec fn credits_answer(
    q: CreditsQuery,
    musicbrainz: Option<SourceModel>,
    discogs: Option<SourceModel>,
) -> ResponseModel {
    answer_of(seq![musicbrainz, discogs], q.catalogue.config, no_credits(q.artist@, q.album@))
}

impl CreditsQuery {
    fn key_of_provider(&self, provider: ProviderId) -> (r: String)
        ensures
            r@ == key_of(credits_key_parts(self.artist@, self.album@, provider)),
    {
        let artist = normalise(self.artist.as_str());
        let album = normalise(normalise_album_query(self.album.as_str()).as_str());
        let parts: [&str; 5] = [
            "release_credits",
            "release",
            artist.as_str(),
            album.as_str(),
            provider.as_str(),
        ];
        assert(str_views(parts@) =~= credits_key_parts(self.artist@, self.album@, provider));
        EnrichmentCache::key_for(parts.as_slice())
    }

    /// The fetch from MusicBrainz, if it may be asked: by identifier, where the
    /// caller knows it, else by search.
    pub fn musicbrainz(&self) -> (r: Option<CachedFetch<CreditsAsk>>)
        ensures
            match r {
                Some(f) => {
                    &&& self.catalogue.asks(ProviderId::MusicBrainz)
                    &&& f.kind == SourceKind::MusicBrainz
                    &&& f.key@ == key_of(
                        credits_key_parts(self.artist@, self.album@, ProviderId::MusicBrainz),
                    )
                    &&& match f.next {
                        CreditsAsk::LookUp(l) => opt_view(self.release_mbid) == Some(
                            l.release_mbid@,
                        ),
                        CreditsAsk::Search(s) => self.release_mbid is None && s.artist@
                            == self.artist@ && s.album@ == album_query(self.album@),
                    }
                },
                None => !self.catalogue.asks(ProviderId::MusicBrainz),
            },
    {
        if !self.catalogue.wants(ProviderId::MusicBrainz) {
            return None;
        }
        let next = match &self.release_mbid {
            Some(m) => CreditsAsk::LookUp(CreditsLookUp { release_mbid: m.clone() }),
            None => CreditsAsk::Search(
                CreditsSearch {
                    artist: self.artist.clone(),
                    album: normalise_album_query(self.album.as_str()),
                },
            ),
        };
        Some(
            CachedFetch {
                kind: SourceKind::MusicBrainz,
                key: self.key_of_provider(ProviderId::MusicBrainz),
                next,
            },
        )
    }

    /// The fetch from Discogs, if it may be asked.
    pub fn discogs(&self) -> (r: Option<CachedFetch<DiscogsAsk>>)
        ensures
            match r {
                Some(f) => {
                    &&& self.catalogue.asks(ProviderId::Discogs)
                    &&& f.kind == SourceKind::Discogs
                    &&& f.key@ == key_of(
                        credits_key_parts(self.artist@, self.album@, ProviderId::Discogs),
                    )
                    &&& f.next.artist@ == self.artist@
                    &&& f.next.album@ == album_query(self.album@)
                },
                None => !self.catalogue.asks(ProviderId::Discogs),
            },
    {
        if !self.catalogue.wants(ProviderId::Discogs) {
            return None;
        }
        Some(
            CachedFetch {
                kind: SourceKind::Discogs,
                key: self.key_of_provider(ProviderId::Discogs),
                next: DiscogsAsk {
                    artist: self.artist.clone(),
                    album: normalise_album_query(self.album.as_str()),
                },
            },
        )
    }

    /// The answer made of what the fetches found.
    pub fn finish(self, musicbrainz: Option<SourceEntry>, discogs: Option<SourceEntry>) -> (r:
        CascadeResponse)
        ensures
            r@ == credits_answer(
                self,
                opt_source(musicbrainz),
                opt_source(discogs),
            ),
            r@ == answer_of(
                seq![opt_source(musicbrainz), opt_source(discogs)],
                self.catalogue.config,
                no_credits(self.artist@, self.album@),
            ),
    {
        let mut miss = joined("no release-credits found for ", self.artist.as_str());
        miss.append(" — ");
        miss.append(self.album.as_str());
        let mut found: Vec<Option<SourceEntry>> = Vec::new();
        found.push(musicbrainz);
        found.push(discogs);
        assert(found_views(found@) =~= seq![opt_source(musicbrainz), opt_source(discogs)]);
        answer(found, &self.catalogue.config, miss)
    }
}

/// Whatever the providers credit on a release is shown, and nothing else.
pub proof fn law_all_credits_are_shown(
    q: CreditsQuery,
    musicbrainz: Option<SourceModel>,
    discogs: Option<SourceModel>,
)
    ensures
        ({
            let r = credits_answer(q, musicbrainz, discogs);
            &&& r.status is Success <==> musicbrainz is Some || discogs is Some
            &&& !(r.status is Success) ==> r.status is NotFound && r.payload is None
                && r.sources.len() == 0 && r.detail == Some(no_credits(q.artist@, q.album@))
            &&& musicbrainz matches Some(s) ==> r.sources.contains(s)
            &&& discogs matches Some(s) ==> r.sources.contains(s)
            &&& forall|i: int|
                0 <= i < r.sources.len() ==> musicbrainz == Some(#[trigger] r.sources[i]) || discogs == Some(r.sources[i])
            &&& r.status is Success ==> r.payload == Some(r.sources[0].payload) && r.attribution
                == Some(r.sources[0].attribution)
        }),
{
    let found = seq![musicbrainz, discogs];
    law_the_answer_shows_every_find(found, q.catalogue.config, no_credits(q.artist@, q.album@));
    let r = credits_answer(q, musicbrainz, discogs);
    assert(found[0] == musicbrainz);
    if let Some(s) = musicbrainz {
        assert(found.contains(Some(s)));
    }
    assert(found[1] == discogs);
    if let Some(s) = discogs {
        assert(found.contains(Some(s)));
    }
    assert forall|i: int| 0 <= i < r.sources.len() implies musicbrainz == Some(#[trigger] r.sources[i]) || discogs == Some(r.sources[i]) by {
        let s = r.sources[i];
        assert(r.sources.contains(s));
        assert(found.contains(Some(s)));
        let k = choose|k: int| 0 <= k < found.len() && found[k] == Some(s);
    }
}

/// Credits are kept apart by artist, by album and by provider.
pub proof fn law_credits_keys_are_told_apart(
    artist: Seq<char>,
    other: Seq<char>,
    album: Seq<char>,
    another: Seq<char>,
    p: ProviderId,
    q: ProviderId,
)
    requires
        normal_form(artist) != normal_form(other) || normal_form(album_query(album)) != normal_form(
            album_query(another),
        ) || p != q,
    ensures
        credits_key_parts(artist, album, p) != credits_key_parts(other, another, q),
{
    law_provider_names_round_trip(p);
    law_provider_names_round_trip(q);
    let a = credits_key_parts(artist, album, p);
    let b = credits_key_parts(other, another, q);
    assert(a[2] == normal_form(artist) && b[2] == normal_form(other));
    assert(a[3] == normal_form(album_query(album)) && b[3] == normal_form(album_query(another)));
    assert(a[4] == p.name() && b[4] == q.name());
}

/// Somebody is asked as long as MusicBrainz or Discogs may be.
pub proof fn law_one_provider_suffices_for_credits(c: ProviderCatalogue)
    ensures
        c.asks(ProviderId::MusicBrainz) || c.asks(ProviderId::Discogs) <==> has_credits_provider(c),
{
}

/// Somebody is asked for credits exactly if the request, in the one version there is,
/// names both its parts and some provider may be asked. What is asked for is what was
/// named, without the white around it.
pub proof fn law_who_gets_credits(
    q: ReleaseCreditsCascadeRequest,
    c: ProviderCatalogue,
    r: CreditsStart,
)
    requires
        credits_start(Decoded::Request(q), c, r),
    ensures
        !(r is Refused),
        r is Fetch <==> q.v == 1
            && (q.artist is Some && trim_of(q.artist->Some_0@).len() > 0)
            && (q.album is Some && trim_of(q.album->Some_0@).len() > 0)
            && has_credits_provider(c),
        r matches CreditsStart::Fetch(n) ==> n.catalogue == c && n.artist@ == trim_of(q.artist->Some_0@) && n.album@
            == trim_of(q.album->Some_0@) && opt_view(n.release_mbid)
            == key_text(opt_view(q.release_mbid)),
        r is Answer && q.v == 1
            && (q.artist is Some && trim_of(q.artist->Some_0@).len() > 0)
            && (q.album is Some && trim_of(q.album->Some_0@).len() > 0)
            ==> r->Answer_0@.status == CascadeStatus::NotConfigured,
        r is Answer && !(q.v == 1
            && (q.artist is Some && trim_of(q.artist->Some_0@).len() > 0)
            && (q.album is Some && trim_of(q.album->Some_0@).len() > 0))
            ==> r->Answer_0@.status == CascadeStatus::BadRequest,
        r is Answer ==> r->Answer_0@.payload is None && r->Answer_0@.sources.len() == 0,
{
}

/// A request that says nothing is a bad request; one that cannot be read is refused
/// for the reason that it cannot.
pub proof fn law_unreadable_requests_for_credits(
    e: String,
    c: ProviderCatalogue,
    r: CreditsStart,
)
    ensures
        credits_start(Decoded::Empty, c, r) ==> r is Answer && r->Answer_0@.status
            == CascadeStatus::BadRequest && r->Answer_0@.detail == Some("empty payload"@),
        credits_start(Decoded::Rejected(e), c, r) ==> r == CreditsStart::Refused(e),
{
}

} // verus!
