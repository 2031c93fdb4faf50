//! Reconciling an artist and album with MusicBrainz.
//!
//! A query goes through the cache, then a search, then a lookup. Each step is a
//! value that only the step before it hands out.

use crate::json::{number, number_model, opt_view, text, with_member, with_text};
use crate::json::{lemma_key_tags, lemma_last_member_push, lemma_two_members, member};
use crate::json::{Json, JsonModel, ObjectWriter};
use crate::metadata::cache::{
    key_of, opt_identity, CacheEntry, CacheModel, CanonicalIdentity, IdentityModel, ReconcileCache,
};
use crate::metadata::cascade::written;
use crate::metadata::config::{key_text, non_blank};
use crate::metadata::normalise::{lowered_words, normal_form, normalise};
use crate::metadata::request::Decoded;
use crate::text::{
    chars_of, clone_opt, decimal, decimal_of, joined, same_text, text_of, trim_of, words_of,
};
use vstd::prelude::*;
use vstd::slice::slice_subrange;

verus! {

/// The search score below which a match does not count.
pub const MIN_CONFIDENCE_PERCENT: u32 = 90;

/// What MusicBrainz failed with.
#[derive(Debug, PartialEq, Eq)]
pub enum MusicBrainzError {
    Http(String),
    Status { status: u16, body: String },
    Decode(String),
}

impl MusicBrainzError {
    /// The failure in words: at most 200 characters of a response body.
    pub open spec fn message(&self) -> Seq<char> {
        match *self {
            MusicBrainzError::Http(e) => "http: "@ + e@,
            MusicBrainzError::Status { status, body } => "status="@ + decimal_of(status as nat)
                + " body="@ + if body@.len() > 200 {
                body@.take(200)
            } else {
                body@
            },
            MusicBrainzError::Decode(e) => "decode: "@ + e@,
        }
    }
}

/// The failure in words.
pub fn mb_error_detail(e: &MusicBrainzError) -> (r: String)
    ensures
        r@ == e.message(),
{
    match e {
        MusicBrainzError::Http(e) => joined("http: ", e.as_str()),
        MusicBrainzError::Decode(e) => joined("decode: ", e.as_str()),
        MusicBrainzError::Status { status, body } => {
            let mut r = joined("status=", decimal(*status as u64).as_str());
            r.append(" body=");
            let whole = chars_of(body.as_str());
            if whole.len() > 200 {
                let cut = slice_subrange(whole.as_slice(), 0, 200);
                assert(cut@ =~= body@.take(200));
                r.append(text_of(cut).as_str());
            } else {
                r.append(body.as_str());
            }
            r
        },
    }
}

/// A request to reconcile.
pub struct ReconcileRequest {
    pub v: u8,
    pub artist: Option<String>,
    pub album: Option<String>,
}

/// The best match of a search.
pub struct ReleaseHit {
    pub canonical_artist: String,
    pub canonical_album: String,
    pub release_mbid: String,
    pub release_group_mbid: Option<String>,
    pub artist_mbid: Option<String>,
    pub confidence_percent: u32,
}

/// What a lookup tells of a release.
pub struct ReleaseLookup {
    pub first_release_year: Option<u16>,
    pub recording_type: String,
    pub track_count: Option<u32>,
}

/// How a reconciliation ended.
#[derive(Debug, Clone, Copy, PartialEq, Eq, Structural)]
pub enum ReconcileStatus {
    Success,
    NotFound,
    BadRequest,
}

impl ReconcileStatus {
    /// The wire name.
    pub open spec fn name(self) -> Seq<char> {
        match self {
            ReconcileStatus::Success => "ok"@,
            ReconcileStatus::NotFound => "not_found"@,
            ReconcileStatus::BadRequest => "bad_request"@,
        }
    }

    /// The wire name.
    pub fn as_str(self) -> (r: &'static str)
        ensures
            r@ == self.name(),
    {
        match self {
            ReconcileStatus::Success => "ok",
            ReconcileStatus::NotFound => "not_found",
            ReconcileStatus::BadRequest => "bad_request",
        }
    }
}

/// The answer to a request to reconcile.
#[derive(Debug, PartialEq, Eq)]
pub struct ReconcileResponse {
    pub v: u8,
    pub status: ReconcileStatus,
    pub canonical: Option<CanonicalIdentity>,
    pub provider_id: Option<String>,
    pub confidence_percent: Option<u32>,
    pub detail: Option<String>,
}

/// What a [`ReconcileResponse`] says.
pub struct ReconcileModel {
    pub v: u8,
    pub status: ReconcileStatus,
    pub canonical: Option<IdentityModel>,
    pub provider_id: Option<Seq<char>>,
    pub confidence_percent: Option<u32>,
    pub detail: Option<Seq<char>>,
}

impl View for ReconcileResponse {
    type V = ReconcileModel;

    open spec fn view(&self) -> ReconcileModel {
        ReconcileModel {
            v: self.v,
            status: self.status,
            canonical: opt_identity(self.canonical),
            provider_id: opt_view(self.provider_id),
            confidence_percent: self.confidence_percent,
            detail: opt_view(self.detail),
        }
    }
}

/// A copy of an identity.
fn copy_identity(c: &CanonicalIdentity) -> (r: CanonicalIdentity)
    ensures
        r@ == c@,
{
    CanonicalIdentity {
        artist: c.artist.clone(),
        album: c.album.clone(),
        release_mbid: c.release_mbid.clone(),
        release_group_mbid: clone_opt(&c.release_group_mbid),
        artist_mbid: clone_opt(&c.artist_mbid),
        first_release_year: c.first_release_year,
        recording_type: c.recording_type.clone(),
        track_count: c.track_count,
    }
}

// ---------------------------------------------------------------------
// The query
// ---------------------------------------------------------------------

/// The answer to a request that is not usable.
pub open spec fn unusable(detail: Seq<char>) -> ReconcileModel {
    ReconcileModel {
        v: 1,
        status: ReconcileStatus::BadRequest,
        canonical: None,
        provider_id: None,
        confidence_percent: None,
        detail: Some(detail),
    }
}

/// The answer to a request that MusicBrainz has no match for: no release is
/// accepted, so there is no score either.
pub open spec fn unmatched(detail: Seq<char>) -> ReconcileModel {
    ReconcileModel {
        v: 1,
        status: ReconcileStatus::NotFound,
        canonical: None,
        provider_id: Some("musicbrainz"@),
        confidence_percent: None,
        detail: Some(detail),
    }
}

/// What a kept entry answers.
pub open spec fn kept_answer(entry: CacheModel) -> ReconcileModel {
    if entry.status == "ok"@ {
        ReconcileModel {
            v: 1,
            status: ReconcileStatus::Success,
            canonical: entry.canonical,
            provider_id: Some("cache"@),
            confidence_percent: entry.confidence_percent,
            detail: entry.detail,
        }
    } else {
        ReconcileModel {
            v: 1,
            status: ReconcileStatus::NotFound,
            canonical: None,
            provider_id: Some("cache"@),
            confidence_percent: None,
            detail: entry.detail,
        }
    }
}

/// What a match and its lookup make of a release.
pub open spec fn identity_of(hit: ReleaseHit, lookup: ReleaseLookup) -> IdentityModel {
    IdentityModel {
        artist: hit.canonical_artist@,
        album: hit.canonical_album@,
        release_mbid: hit.release_mbid@,
        release_group_mbid: opt_view(hit.release_group_mbid),
        artist_mbid: opt_view(hit.artist_mbid),
        first_release_year: lookup.first_release_year,
        recording_type: lookup.recording_type@,
        track_count: lookup.track_count,
    }
}

/// Whether a match is good enough to be looked up.
pub open spec fn accepted(found: Result<Option<ReleaseHit>, MusicBrainzError>) -> bool {
    match found {
        Ok(Some(hit)) => hit.confidence_percent >= MIN_CONFIDENCE_PERCENT,
        _ => false,
    }
}

/// The answer made of a match and its lookup.
pub open spec fn matched(hit: ReleaseHit, lookup: ReleaseLookup) -> ReconcileModel {
    ReconcileModel {
        v: 1,
        status: ReconcileStatus::Success,
        canonical: Some(identity_of(hit, lookup)),
        provider_id: Some("musicbrainz"@),
        confidence_percent: Some(hit.confidence_percent),
        detail: None,
    }
}

/// What the key of a reconciliation is made of.
pub open spec fn reconcile_key_parts(artist: Seq<char>, album: Seq<char>) -> Seq<Seq<char>> {
    seq![normal_form(artist), normal_form(album)]
}

/// Why a search without results is a miss.
pub const NO_RELEASES: &'static str = "MB search returned zero releases for the (artist, album) pair";

/// Why a weak match is a miss.
pub open spec fn weak_match(confidence: u32) -> Seq<char> {
    "MB best match confidence "@ + decimal_of(confidence as nat) + " < min threshold "@
        + decimal_of(MIN_CONFIDENCE_PERCENT as nat)
        + " — treating as not_found (raw tags win)"@
}

/// Where a request leads.
pub enum ReconcileStart {
    /// The request cannot be read.
    Refused(String),
    Answer(ReconcileResponse),
    /// The cache is to be read.
    Pending(ReconcileQuery),
}

/// A query whose cache entry is to be read.
pub struct ReconcileQuery {
    pub artist: String,
    pub album: String,
    pub key: String,
}

/// A query that MusicBrainz is to be searched for.
pub struct ReconcileSearch {
    pub artist: String,
    pub album: String,
    pub key: String,
}

/// A match that is to be looked up.
pub struct ReconcileLookup {
    pub key: String,
    pub hit: ReleaseHit,
}

/// Where the cache leads.
pub enum AfterCache {
    Answer(ReconcileResponse),
    Search(ReconcileSearch),
}

/// Where a search leads.
pub enum AfterSearch {
    /// MusicBrainz failed; nothing is kept.
    Refused(String),
    /// The answer is a miss, to be kept with this detail under the key.
    Miss { response: ReconcileResponse, key: String, detail: String },
    LookUp(ReconcileLookup),
}

/// Where a lookup leads.
pub enum AfterLookup {
    /// MusicBrainz failed; nothing is kept.
    Refused(String),
    /// The answer, and the identity to be kept with its score under the key.
    Hit {
        response: ReconcileResponse,
        key: String,
        canonical: CanonicalIdentity,
        confidence_percent: u32,
    },
}

fn bad_request(detail: String) -> (r: ReconcileResponse)
    ensures
        r@ == unusable(detail@),
{
    ReconcileResponse {
        v: 1,
        status: ReconcileStatus::BadRequest,
        canonical: None,
        provider_id: None,
        confidence_percent: None,
        detail: Some(detail),
    }
}

/// Where a reconciliation request leads.
pub open spec fn reconcile_starts(
    decoded: Decoded<ReconcileRequest>,
    r: ReconcileStart,
) -> bool {
    match decoded {
        Decoded::Empty => r is Answer && r->Answer_0@ == unusable("empty payload"@),
        Decoded::Rejected(e) => r == ReconcileStart::Refused(e),
        Decoded::Request(q) => if q.v != 1 {
            r is Answer && r->Answer_0@ == unusable(
                "unsupported request v: "@ + decimal_of(q.v as nat),
            )
        } else {
            match (key_text(opt_view(q.artist)), key_text(opt_view(q.album))) {
                (Some(artist), Some(album)) => {
                    &&& r matches ReconcileStart::Pending(p)
                    &&& p.artist@ == artist
                    &&& p.album@ == album
                    &&& p.key@ == key_of(reconcile_key_parts(artist, album))
                    &&& p.key@ == key_of(seq![normal_form(artist), normal_form(album)])
                },
                _ => r is Answer && r->Answer_0@ == unusable(
                    "artist and album are required and must be non-empty"@,
                ),
            }
        },
    }
}

/// Starts a reconciliation.
pub fn begin_reconcile(decoded: Decoded<ReconcileRequest>) -> (r: ReconcileStart)
    ensures
        reconcile_starts(decoded, r),
{
    let q = match decoded {
        Decoded::Empty => {
            return ReconcileStart::Answer(bad_request("empty payload".to_owned()));
        },
        Decoded::Rejected(e) => {
            return ReconcileStart::Refused(e);
        },
        Decoded::Request(q) => q,
    };
    if q.v != 1 {
        return ReconcileStart::Answer(
            bad_request(joined("unsupported request v: ", decimal(q.v as u64).as_str())),
        );
    }
    match (non_blank(&q.artist), non_blank(&q.album)) {
        (Some(artist), Some(album)) => {
            let key = ReconcileCache::key_for(
                normalise(artist.as_str()).as_str(),
                normalise(album.as_str()).as_str(),
            );
            ReconcileStart::Pending(ReconcileQuery { artist, album, key })
        },
        _ => ReconcileStart::Answer(
            bad_request("artist and album are required and must be non-empty".to_owned()),
        ),
    }
}

/// What a kept entry answers.
pub fn from_cache(entry: CacheEntry) -> (r: ReconcileResponse)
    ensures
        r@ == kept_answer(entry@),
{
    if same_text(entry.status.as_str(), "ok") {
        ReconcileResponse {
            v: 1,
            status: ReconcileStatus::Success,
            canonical: entry.canonical,
            provider_id: Some("cache".to_owned()),
            confidence_percent: entry.confidence_percent,
            detail: entry.detail,
        }
    } else {
        ReconcileResponse {
            v: 1,
            status: ReconcileStatus::NotFound,
            canonical: None,
            provider_id: Some("cache".to_owned()),
            confidence_percent: None,
            detail: entry.detail,
        }
    }
}

impl ReconcileQuery {
    /// A kept entry answers the query; without one MusicBrainz is searched.
    pub fn on_cache(self, entry: Option<CacheEntry>) -> (r: AfterCache)
        ensures
            match entry {
                Some(e) => r is Answer && r->Answer_0@ == kept_answer(e@),
                None => r == AfterCache::Search(
                    ReconcileSearch { artist: self.artist, album: self.album, key: self.key },
                ),
            },
    {
        match entry {
            Some(e) => AfterCache::Answer(from_cache(e)),
            None => AfterCache::Search(
                ReconcileSearch { artist: self.artist, album: self.album, key: self.key },
            ),
        }
    }
}

impl ReconcileSearch {
    /// A match of sufficient score is looked up; no match and a weak one are
    /// misses, which are kept; a failure is not.
    pub fn on_search(self, found: Result<Option<ReleaseHit>, MusicBrainzError>) -> (r: AfterSearch)
        ensures
            r is LookUp <==> accepted(found),
            match found {
                Err(e) => r is Refused && r->Refused_0@ == "musicbrainz search failed: "@
                    + e.message(),
                Ok(None) => {
                    &&& r matches AfterSearch::Miss { response, key, detail }
                    &&& response@ == unmatched(NO_RELEASES@)
                    &&& key == self.key
                    &&& detail@ == NO_RELEASES@
                },
                Ok(Some(hit)) => if hit.confidence_percent < MIN_CONFIDENCE_PERCENT {
                    &&& r matches AfterSearch::Miss { response, key, detail }
                    &&& response@ == unmatched(weak_match(hit.confidence_percent))
                    &&& key == self.key
                    &&& detail@ == weak_match(hit.confidence_percent)
                } else {
                    r == AfterSearch::LookUp(ReconcileLookup { key: self.key, hit })
                },
            },
    {
        match found {
            Err(e) => AfterSearch::Refused(
                joined("musicbrainz search failed: ", mb_error_detail(&e).as_str()),
            ),
            Ok(None) => AfterSearch::Miss {
                response: ReconcileResponse {
                    v: 1,
                    status: ReconcileStatus::NotFound,
                    canonical: None,
                    provider_id: Some("musicbrainz".to_owned()),
                    confidence_percent: None,
                    detail: Some(NO_RELEASES.to_owned()),
                },
                key: self.key,
                detail: NO_RELEASES.to_owned(),
            },
            Ok(Some(hit)) => {
                if hit.confidence_percent < MIN_CONFIDENCE_PERCENT {
                    let mut detail = joined(
                        "MB best match confidence ",
                        decimal(hit.confidence_percent as u64).as_str(),
                    );
                    detail.append(" < min threshold ");
                    detail.append(decimal(MIN_CONFIDENCE_PERCENT as u64).as_str());
                    detail.append(" — treating as not_found (raw tags win)");
                    AfterSearch::Miss {
                        response: ReconcileResponse {
                            v: 1,
                            status: ReconcileStatus::NotFound,
                            canonical: None,
                            provider_id: Some("musicbrainz".to_owned()),
                            confidence_percent: None,
                            detail: Some(detail.clone()),
                        },
                        key: self.key,
                        detail,
                    }
                } else {
                    AfterSearch::LookUp(ReconcileLookup { key: self.key, hit })
                }
            },
        }
    }
}

impl ReconcileLookup {
    /// The looked-up release is the answer, and is kept; a failure is not.
    pub fn on_lookup(self, found: Result<ReleaseLookup, MusicBrainzError>) -> (r: AfterLookup)
        ensures
            match found {
                Err(e) => r is Refused && r->Refused_0@ == "musicbrainz release lookup failed for "@
                    + self.hit.release_mbid@ + ": "@ + e.message(),
                Ok(lookup) => {
                    &&& r matches AfterLookup::Hit { response, key, canonical, confidence_percent }
                    &&& response@ == matched(self.hit, lookup)
                    &&& response@ == (ReconcileModel {
                        v: 1,
                        status: ReconcileStatus::Success,
                        canonical: Some(identity_of(self.hit, lookup)),
                        provider_id: Some("musicbrainz"@),
                        confidence_percent: Some(self.hit.confidence_percent),
                        detail: None,
                    })
                    &&& key == self.key
                    &&& canonical@ == identity_of(self.hit, lookup)
                    &&& confidence_percent == self.hit.confidence_percent
                },
            },
    {
        let lookup = match found {
            Err(e) => {
                let mut m = joined(
                    "musicbrainz release lookup failed for ",
                    self.hit.release_mbid.as_str(),
                );
                m.append(": ");
                m.append(mb_error_detail(&e).as_str());
                return AfterLookup::Refused(m);
            },
            Ok(l) => l,
        };
        let confidence: u32 = self.hit.confidence_percent;
        let canonical = CanonicalIdentity {
            artist: self.hit.canonical_artist,
            album: self.hit.canonical_album,
            release_mbid: self.hit.release_mbid,
            release_group_mbid: self.hit.release_group_mbid,
            artist_mbid: self.hit.artist_mbid,
            first_release_year: lookup.first_release_year,
            recording_type: lookup.recording_type,
            track_count: lookup.track_count,
        };
        let kept = copy_identity(&canonical);
        AfterLookup::Hit {
            response: ReconcileResponse {
                v: 1,
                status: ReconcileStatus::Success,
                canonical: Some(canonical),
                provider_id: Some("musicbrainz".to_owned()),
                confidence_percent: Some(confidence),
                detail: None,
            },
            key: self.key,
            canonical: kept,
            confidence_percent: confidence,
        }
    }
}

/// Artists and albums that differ in case and white space alone share a cache
/// entry.
pub proof fn law_tag_drift_shares_an_entry(
    artist: Seq<char>,
    album: Seq<char>,
    other_artist: Seq<char>,
    other_album: Seq<char>,
)
    requires
        lowered_words(words_of(artist)) == lowered_words(words_of(other_artist)),
        lowered_words(words_of(album)) == lowered_words(words_of(other_album)),
    ensures
        key_of(seq![normal_form(artist), normal_form(album)]) == key_of(
            seq![normal_form(other_artist), normal_form(other_album)],
        ),
{
}

// ---------------------------------------------------------------------
// Wire form
// ---------------------------------------------------------------------

/// An identity on the wire: what is absent is left out.
pub open spec fn identity_json(c: IdentityModel) -> JsonModel {
    let head = seq![
        ("artist"@, JsonModel::Text(c.artist)),
        ("album"@, JsonModel::Text(c.album)),
        ("release_mbid"@, JsonModel::Text(c.release_mbid)),
    ];
    let head = with_text(head, "release_group_mbid"@, c.release_group_mbid);
    let head = with_text(head, "artist_mbid"@, c.artist_mbid);
    let head = with_member(
        head,
        "first_release_year"@,
        match c.first_release_year {
            Some(y) => Some(number_model(y as nat)),
            None => None,
        },
    );
    let head = head.push(("recording_type"@, JsonModel::Text(c.recording_type)));
    JsonModel::Object(
        with_member(
            head,
            "track_count"@,
            match c.track_count {
                Some(n) => Some(number_model(n as nat)),
                None => None,
            },
        ),
    )
}

/// A response on the wire: what is absent is left out.
pub open spec fn reconcile_json(r: ReconcileModel) -> JsonModel {
    let head = seq![
        ("v"@, number_model(r.v as nat)),
        ("status"@, JsonModel::Text(r.status.name())),
    ];
    let head = with_member(
        head,
        "canonical"@,
        match r.canonical {
            Some(c) => Some(identity_json(c)),
            None => None,
        },
    );
    let head = with_text(head, "provider_id"@, r.provider_id);
    let head = with_member(
        head,
        "confidence_percent"@,
        match r.confidence_percent {
            Some(n) => Some(number_model(n as nat)),
            None => None,
        },
    );
    JsonModel::Object(with_text(head, "detail"@, r.detail))
}

fn some_number(n: Option<u32>) -> (r: Option<Json>)
    ensures
        match n {
            Some(v) => r is Some && r->Some_0@ == number_model(v as nat),
            None => r is None,
        },
{
    match n {
        Some(v) => Some(number(v as u64)),
        None => None,
    }
}

impl CanonicalIdentity {
    /// On the wire.
    pub fn to_json(&self) -> (r: Json)
        ensures
            r@ == identity_json(self@),
    {
        let mut w = ObjectWriter::new();
        w.put("artist", text(self.artist.as_str()));
        w.put("album", text(self.album.as_str()));
        w.put("release_mbid", text(self.release_mbid.as_str()));
        assert(w@ =~= seq![
            ("artist"@, JsonModel::Text(self@.artist)),
            ("album"@, JsonModel::Text(self@.album)),
            ("release_mbid"@, JsonModel::Text(self@.release_mbid)),
        ]);
        w.put_text_if_some("release_group_mbid", &self.release_group_mbid);
        w.put_text_if_some("artist_mbid", &self.artist_mbid);
        let year = match self.first_release_year {
            Some(y) => Some(number(y as u64)),
            None => None,
        };
        w.put_some("first_release_year", year);
        w.put("recording_type", text(self.recording_type.as_str()));
        w.put_some("track_count", some_number(self.track_count));
        w.finish()
    }
}

impl ReconcileResponse {
    /// On the wire.
    pub fn to_json(&self) -> (r: Json)
        ensures
            r@ == reconcile_json(self@),
    {
        let mut w = ObjectWriter::new();
        w.put("v", number(self.v as u64));
        w.put("status", text(self.status.as_str()));
        assert(w@ =~= seq![
            ("v"@, number_model(self.v as nat)),
            ("status"@, JsonModel::Text(self.status.name())),
        ]);
        let canonical = match &self.canonical {
            Some(c) => Some(c.to_json()),
            None => None,
        };
        w.put_some("canonical", canonical);
        w.put_text_if_some("provider_id", &self.provider_id);
        w.put_some("confidence_percent", some_number(self.confidence_percent));
        w.put_text_if_some("detail", &self.detail);
        w.finish()
    }
}

// ---------------------------------------------------------------------
// Laws
// ---------------------------------------------------------------------

/// A match counts from a score of 90 on; below it the raw tags win.
pub proof fn law_weak_matches_do_not_count(hit: ReleaseHit, e: MusicBrainzError)
    ensures
        accepted(Ok(Some(hit))) <==> hit.confidence_percent >= 90,
        !accepted(Ok(None)),
        !accepted(Err(e)),
        unmatched(weak_match(hit.confidence_percent)).canonical is None,
        unmatched(weak_match(hit.confidence_percent)).status is NotFound,
        unmatched(weak_match(hit.confidence_percent)).confidence_percent is None,
{
}

/// The answer names the release that was matched, by the match's names and
/// identifiers and the lookup's year, type and track count, each for what it is;
/// and on the wire each stands under its own name.
pub proof fn law_the_answer_is_the_matched_release(hit: ReleaseHit, lookup: ReleaseLookup)
    ensures
        ({
            let r = matched(hit, lookup);
            let c = r.canonical->Some_0;
            let j = identity_json(c);
            &&& r.status is Success && r.canonical is Some && r.confidence_percent == Some(
                hit.confidence_percent,
            )
            &&& member(j, "artist"@) == Some(JsonModel::Text(hit.canonical_artist@))
            &&& member(j, "album"@) == Some(JsonModel::Text(hit.canonical_album@))
            &&& member(j, "release_mbid"@) == Some(JsonModel::Text(hit.release_mbid@))
            &&& member(j, "release_group_mbid"@) == written(opt_view(hit.release_group_mbid))
            &&& member(j, "artist_mbid"@) == written(opt_view(hit.artist_mbid))
            &&& member(j, "first_release_year"@) == (match lookup.first_release_year {
                Some(y) => Some(JsonModel::Number(decimal_of(y as nat))),
                None => None,
            })
            &&& member(j, "recording_type"@) == Some(JsonModel::Text(lookup.recording_type@))
            &&& member(j, "track_count"@) == (match lookup.track_count {
                Some(n) => Some(JsonModel::Number(decimal_of(n as nat))),
                None => None,
            })
        }),
{
    law_identities_are_written_whole(matched(hit, lookup).canonical->Some_0);
}

/// On the wire an identity tells each of its parts under its own name.
#[verifier::rlimit(40)]
pub proof fn law_identities_are_written_whole(c: IdentityModel)
    ensures
        ({
            let j = identity_json(c);
            &&& member(j, "artist"@) == Some(JsonModel::Text(c.artist))
            &&& member(j, "album"@) == Some(JsonModel::Text(c.album))
            &&& member(j, "release_mbid"@) == Some(JsonModel::Text(c.release_mbid))
            &&& member(j, "release_group_mbid"@) == written(c.release_group_mbid)
            &&& member(j, "artist_mbid"@) == written(c.artist_mbid)
            &&& member(j, "first_release_year"@) == (match c.first_release_year {
                Some(y) => Some(JsonModel::Number(decimal_of(y as nat))),
                None => None,
            })
            &&& member(j, "recording_type"@) == Some(JsonModel::Text(c.recording_type))
            &&& member(j, "track_count"@) == (match c.track_count {
                Some(n) => Some(JsonModel::Number(decimal_of(n as nat))),
                None => None,
            })
        }),
{
    broadcast use lemma_last_member_push;

    lemma_key_tags();
    let head = seq![
        ("artist"@, JsonModel::Text(c.artist)),
        ("album"@, JsonModel::Text(c.album)),
        ("release_mbid"@, JsonModel::Text(c.release_mbid)),
    ];
    assert(head =~= Seq::empty().push(head[0]).push(head[1]).push(head[2]));
}

/// On the wire an answer tells each of its parts under its own name, and leaves
/// out what it does not say.
pub proof fn law_reconciliations_are_written_whole(r: ReconcileModel)
    ensures
        ({
            let j = reconcile_json(r);
            &&& member(j, "v"@) == Some(JsonModel::Number(decimal_of(r.v as nat)))
            &&& member(j, "status"@) == Some(JsonModel::Text(r.status.name()))
            &&& member(j, "canonical"@) == (match r.canonical {
                Some(c) => Some(identity_json(c)),
                None => None,
            })
            &&& member(j, "provider_id"@) == written(r.provider_id)
            &&& member(j, "confidence_percent"@) == (match r.confidence_percent {
                Some(n) => Some(JsonModel::Number(decimal_of(n as nat))),
                None => None,
            })
            &&& member(j, "detail"@) == written(r.detail)
        }),
{
    broadcast use lemma_last_member_push;

    lemma_key_tags();
    let head = seq![
        ("v"@, number_model(r.v as nat)),
        ("status"@, JsonModel::Text(r.status.name())),
    ];
    lemma_two_members(head);
}

/// A kept entry answers with what was kept: a hit with its identity and score, and
/// anything else with a miss and its reason.
pub proof fn law_kept_entries_answer_as_kept(entry: CacheModel)
    ensures
        entry.status == "ok"@ ==> kept_answer(entry).status is Success && kept_answer(
            entry,
        ).canonical == entry.canonical && kept_answer(entry).confidence_percent
            == entry.confidence_percent,
        entry.status != "ok"@ ==> kept_answer(entry).status is NotFound && kept_answer(
            entry,
        ).canonical is None && kept_answer(entry).detail == entry.detail,
{
}

/// Reconciliations are kept apart by artist and by album, and which is which
/// counts.
pub proof fn law_reconcile_keys_are_told_apart(
    artist: Seq<char>,
    album: Seq<char>,
    other: Seq<char>,
    another: Seq<char>,
)
    requires
        normal_form(artist) != normal_form(other) || normal_form(album) != normal_form(another),
    ensures
        reconcile_key_parts(artist, album) != reconcile_key_parts(other, another),
{
    assert(reconcile_key_parts(artist, album)[0] == normal_form(artist));
    assert(reconcile_key_parts(artist, album)[1] == normal_form(album));
    assert(reconcile_key_parts(other, another)[0] == normal_form(other));
    assert(reconcile_key_parts(other, another)[1] == normal_form(another));
}

/// A release is looked for exactly if the request, in the one version there is, names an
/// artist and an album. What is looked for is what was named, without the white around it.
pub proof fn law_who_is_reconciled(q: ReconcileRequest, r: ReconcileStart)
    requires
        reconcile_starts(Decoded::Request(q), r),
    ensures
        r is Pending <==> q.v == 1
            && (q.artist is Some && trim_of(q.artist->Some_0@).len() > 0)
            && (q.album is Some && trim_of(q.album->Some_0@).len() > 0),
        r is Pending || r is Answer,
        r matches ReconcileStart::Pending(p) ==> p.artist@ == trim_of(q.artist->Some_0@) && p.album@
            == trim_of(q.album->Some_0@),
        r is Answer ==> r->Answer_0@.status == ReconcileStatus::BadRequest
            && r->Answer_0@.canonical is None && r->Answer_0@.detail is Some,
{
}

/// A match that is too weak is told by its own confidence, before the one that would
/// do.
pub proof fn law_weak_matches_tell_their_confidence(confidence: u32)
    ensures
        weak_match(confidence) == "MB best match confidence "@ + decimal_of(confidence as nat)
            + " < min threshold "@ + decimal_of(90)
            + " — treating as not_found (raw tags win)"@,
{
}

} // verus!
