//! Lyrics, from LRCLIB.
//!
//! An answer from the cache reads exactly as the answer that was kept.

use crate::json::{number_model, opt_text, opt_text_model, opt_view, text, with_member, with_text};
use crate::json::{
    lemma_key_tags, lemma_last_member_push, lemma_two_members, member,
};
use crate::json::{number, opt_number, opt_number_model, Json, JsonModel, ObjectWriter};
use crate::metadata::cache::{key_of, positive_entry, EnrichmentCache, EnrichmentEntry};
use crate::metadata::cache::EnrichmentModel;
use crate::metadata::cascade::{opt_json, CascadeStatus, ProviderConfig, ProviderId};
use crate::metadata::config::{key_text, non_blank};
use crate::metadata::normalise::{normal_form, normalise};
use crate::metadata::request::Decoded;
use crate::metadata::sources::opt_entry;
use crate::text::{
    decimal, decimal_of, joined, law_decimals_read_back, law_signed_decimals_are_distinct,
    same_text, signed_decimal, signed_decimal_of, str_views, trim_of,
};
use vstd::prelude::*;

verus! {

/// A request for lyrics.
pub struct LyricsRequest {
    pub v: u8,
    pub artist: Option<String>,
    pub track: Option<String>,
    pub album: Option<String>,
    /// The track's length, rounded to whole seconds.
    pub duration_rounded: Option<i64>,
}

/// The answer to a request for lyrics.
#[derive(Debug, PartialEq, Eq)]
pub struct EnrichmentResponse {
    pub v: u8,
    pub status: CascadeStatus,
    pub provider_id: Option<String>,
    pub payload: Option<Json>,
    pub detail: Option<String>,
}

/// What an [`EnrichmentResponse`] says.
pub struct LyricsModel {
    pub v: u8,
    pub status: CascadeStatus,
    pub provider_id: Option<Seq<char>>,
    pub payload: Option<JsonModel>,
    pub detail: Option<Seq<char>>,
}

impl View for EnrichmentResponse {
    type V = LyricsModel;

    open spec fn view(&self) -> LyricsModel {
        LyricsModel {
            v: self.v,
            status: self.status,
            provider_id: opt_view(self.provider_id),
            payload: opt_json(self.payload),
            detail: opt_view(self.detail),
        }
    }
}

/// An answer that names no provider.
pub open spec fn plain_answer(status: CascadeStatus, detail: Seq<char>) -> LyricsModel {
    LyricsModel { v: 1, status, provider_id: None, payload: None, detail: Some(detail) }
}

/// An answer with lyrics.
pub open spec fn lyrics_answer(provider_id: Seq<char>, payload: JsonModel) -> LyricsModel {
    LyricsModel {
        v: 1,
        status: CascadeStatus::Success,
        provider_id: Some(provider_id),
        payload: Some(payload),
        detail: None,
    }
}

/// An answer without lyrics.
pub open spec fn no_lyrics(detail: Option<Seq<char>>) -> LyricsModel {
    LyricsModel {
        v: 1,
        status: CascadeStatus::NotFound,
        provider_id: Some("lrclib"@),
        payload: None,
        detail,
    }
}

/// Why LRCLIB is not asked.
pub const LRCLIB_DISABLED: &'static str =
    "LRCLIB is disabled by the operator's privacy selection; enable it under Settings → Metadata → Sources";

/// Why there are no lyrics.
pub const NO_LYRICS: &'static str = "LRCLIB returned no lyrics for this track";

/// What LRCLIB has of a track.
pub struct LyricsHit {
    pub synced_lyrics: Option<String>,
    pub plain_lyrics: Option<String>,
    pub is_synced: bool,
    pub lrclib_id: Option<u64>,
}

/// The page of lyrics.
pub open spec fn lyrics_page(id: Option<u64>) -> Option<Seq<char>> {
    match id {
        Some(n) => Some("https://lrclib.net/lyrics/"@ + decimal_of(n as nat)),
        None => None,
    }
}

/// The payload of lyrics.
pub open spec fn lyrics_payload(h: LyricsHit) -> JsonModel {
    JsonModel::Object(
        seq![
            ("synced_lyrics"@, opt_text_model(opt_view(h.synced_lyrics))),
            ("plain_lyrics"@, opt_text_model(opt_view(h.plain_lyrics))),
            ("is_synced"@, JsonModel::Bool(h.is_synced)),
            ("lrclib_id"@, opt_number_model(h.lrclib_id)),
            ("source_url"@, opt_text_model(lyrics_page(h.lrclib_id))),
        ],
    )
}

/// What the key of lyrics is made of.
pub open spec fn lyrics_key_parts(
    artist: Seq<char>,
    track: Seq<char>,
    album: Option<Seq<char>>,
    duration: Option<i64>,
) -> Seq<Seq<char>> {
    seq![
        "lyrics"@,
        normal_form(artist),
        normal_form(track),
        match album {
            Some(a) => normal_form(a),
            None => Seq::empty(),
        },
        match duration {
            Some(d) => signed_decimal_of(d as int),
            None => Seq::empty(),
        },
    ]
}

/// A query whose cache entry is to be read.
pub struct LyricsQuery {
    pub artist: String,
    pub track: String,
    /// The album as the caller names it.
    pub album: Option<String>,
    pub key: String,
}

/// A query that LRCLIB is to be asked.
pub struct LyricsAsk {
    pub artist: String,
    pub track: String,
    pub album: Option<String>,
    pub key: String,
}

/// Where a request leads.
pub enum LyricsStart {
    /// The request cannot be read.
    Refused(String),
    Answer(EnrichmentResponse),
    Pending(LyricsQuery),
}

/// Where the cache leads.
pub enum AfterLyricsCache {
    Answer(EnrichmentResponse),
    Ask(LyricsAsk),
}

/// Where a reply leads.
pub enum AfterLyrics {
    /// LRCLIB failed; nothing is kept.
    Refused(String),
    /// The answer is a miss, to be kept with this detail under the key.
    Miss { response: EnrichmentResponse, key: String, detail: String },
    /// The answer, and the entry to keep under the key.
    Hit { response: EnrichmentResponse, key: String, entry: EnrichmentEntry },
}

fn plain(status: CascadeStatus, detail: String) -> (r: EnrichmentResponse)
    ensures
        r@ == plain_answer(status, detail@),
{
    EnrichmentResponse { v: 1, status, provider_id: None, payload: None, detail: Some(detail) }
}

/// Where a lyrics request leads.
pub open spec fn lyrics_starts(
    decoded: Decoded<LyricsRequest>,
    config: ProviderConfig,
    r: LyricsStart,
) -> bool {
    match decoded {
        Decoded::Empty => r is Answer && r->Answer_0@ == plain_answer(
            CascadeStatus::BadRequest,
            "empty payload"@,
        ),
        _ => if !config.permits(ProviderId::Lrclib) {
            r is Answer && r->Answer_0@ == plain_answer(
                CascadeStatus::NotConfigured,
                LRCLIB_DISABLED@,
            )
        } else {
            match decoded {
                Decoded::Rejected(e) => r == LyricsStart::Refused(e),
                Decoded::Request(q) => if q.v != 1 {
                    r is Answer && r->Answer_0@ == plain_answer(
                        CascadeStatus::BadRequest,
                        "unsupported v: "@ + decimal_of(q.v as nat),
                    )
                } else {
                    match (key_text(opt_view(q.artist)), key_text(opt_view(q.track))) {
                        (Some(artist), Some(track)) => {
                            &&& r matches LyricsStart::Pending(l)
                            &&& l.artist@ == artist
                            &&& l.track@ == track
                            &&& l.album == q.album
                            &&& l.key@ == key_of(
                                lyrics_key_parts(
                                    artist,
                                    track,
                                    key_text(opt_view(q.album)),
                                    q.duration_rounded,
                                ),
                            )
                        },
                        _ => r is Answer && r->Answer_0@ == plain_answer(
                            CascadeStatus::BadRequest,
                            "artist and track are required and must be non-empty"@,
                        ),
                    }
                },
                Decoded::Empty => true,
            }
        },
    }
}

/// Starts a query. Whether LRCLIB may be asked is settled before the payload is
/// read.
pub fn begin_lyrics(decoded: Decoded<LyricsRequest>, config: &ProviderConfig) -> (r: LyricsStart)
    ensures
        lyrics_starts(decoded, *config, r),
{
    if let Decoded::Empty = decoded {
        return LyricsStart::Answer(plain(CascadeStatus::BadRequest, "empty payload".to_owned()));
    }
    if !config.is_effectively_enabled(ProviderId::Lrclib) {
        return LyricsStart::Answer(
            plain(CascadeStatus::NotConfigured, LRCLIB_DISABLED.to_owned()),
        );
    }
    let q = match decoded {
        Decoded::Empty => {
            return LyricsStart::Answer(
                plain(CascadeStatus::BadRequest, "empty payload".to_owned()),
            );
        },
        Decoded::Rejected(e) => {
            return LyricsStart::Refused(e);
        },
        Decoded::Request(q) => q,
    };
    if q.v != 1 {
        return LyricsStart::Answer(
            plain(
                CascadeStatus::BadRequest,
                joined("unsupported v: ", decimal(q.v as u64).as_str()),
            ),
        );
    }
    match (non_blank(&q.artist), non_blank(&q.track)) {
        (Some(artist), Some(track)) => {
            let album = match non_blank(&q.album) {
                Some(a) => normalise(a.as_str()),
                None => String::new(),
            };
            let duration = match q.duration_rounded {
                Some(d) => signed_decimal(d),
                None => String::new(),
            };
            let artist_form = normalise(artist.as_str());
            let track_form = normalise(track.as_str());
            let parts: [&str; 5] = [
                "lyrics",
                artist_form.as_str(),
                track_form.as_str(),
                album.as_str(),
                duration.as_str(),
            ];
            assert(q.duration_rounded is None ==> duration@ =~= Seq::<char>::empty());
            assert(key_text(opt_view(q.album)) is None ==> album@ =~= Seq::<char>::empty());
            assert(str_views(parts@) =~= lyrics_key_parts(
                artist@,
                track@,
                key_text(opt_view(q.album)),
                q.duration_rounded,
            ));
            let key = EnrichmentCache::key_for(parts.as_slice());
            LyricsStart::Pending(LyricsQuery { artist, track, album: q.album, key })
        },
        _ => LyricsStart::Answer(
            plain(
                CascadeStatus::BadRequest,
                "artist and track are required and must be non-empty".to_owned(),
            ),
        ),
    }
}

/// What a kept entry answers: a hit reads as the answer that was kept, under the
/// provider that it came from; anything else is a miss.
pub open spec fn kept_lyrics(e: EnrichmentModel) -> LyricsModel {
    if e.status == "ok"@ && e.payload is Some {
        lyrics_answer(
            match e.provider_id {
                Some(p) => p,
                None => "lrclib"@,
            },
            e.payload->Some_0,
        )
    } else {
        no_lyrics(e.detail)
    }
}

impl LyricsQuery {
    /// A kept entry answers the query; without one LRCLIB is asked.
    pub fn on_cache(self, entry: Option<EnrichmentEntry>) -> (r: AfterLyricsCache)
        ensures
            match opt_entry(entry) {
                Some(e) => r is Answer && r->Answer_0@ == kept_lyrics(e),
                None => r == AfterLyricsCache::Ask(
                    LyricsAsk {
                        artist: self.artist,
                        track: self.track,
                        album: self.album,
                        key: self.key,
                    },
                ),
            },
    {
        let e = match entry {
            Some(e) => e,
            None => {
                return AfterLyricsCache::Ask(
                    LyricsAsk {
                        artist: self.artist,
                        track: self.track,
                        album: self.album,
                        key: self.key,
                    },
                );
            },
        };
        if same_text(e.status.as_str(), "ok") {
            if let Some(p) = e.payload {
                let provider = match e.provider_id {
                    Some(id) => id,
                    None => "lrclib".to_owned(),
                };
                return AfterLyricsCache::Answer(
                    EnrichmentResponse {
                        v: 1,
                        status: CascadeStatus::Success,
                        provider_id: Some(provider),
                        payload: Some(p),
                        detail: None,
                    },
                );
            }
        }
        AfterLyricsCache::Answer(
            EnrichmentResponse {
                v: 1,
                status: CascadeStatus::NotFound,
                provider_id: Some("lrclib".to_owned()),
                payload: None,
                detail: e.detail,
            },
        )
    }
}

fn payload_of(h: &LyricsHit) -> (r: Json)
    ensures
        r@ == lyrics_payload(*h),
{
    let page = match h.lrclib_id {
        Some(n) => Some(joined("https://lrclib.net/lyrics/", decimal(n).as_str())),
        None => None,
    };
    let mut w = ObjectWriter::new();
    w.put("synced_lyrics", opt_text(&h.synced_lyrics));
    w.put("plain_lyrics", opt_text(&h.plain_lyrics));
    w.put("is_synced", Json::Bool(h.is_synced));
    w.put("lrclib_id", opt_number(h.lrclib_id));
    w.put("source_url", opt_text(&page));
    assert(w@ =~= lyrics_payload(*h)->Object_0);
    w.finish()
}

impl LyricsAsk {
    /// Lyrics are the answer, and are kept; so is their absence; a failure is not.
    pub fn on_reply(self, reply: Result<Option<LyricsHit>, String>) -> (r: AfterLyrics)
        ensures
            match reply {
                Err(e) => r is Refused && r->Refused_0@ == "LRCLIB error: "@ + e@,
                Ok(None) => {
                    &&& r matches AfterLyrics::Miss { response, key, detail }
                    &&& response@ == no_lyrics(Some(NO_LYRICS@))
                    &&& key == self.key
                    &&& detail@ == NO_LYRICS@
                },
                Ok(Some(h)) => {
                    &&& r matches AfterLyrics::Hit { response, key, entry }
                    &&& response@ == lyrics_answer("lrclib"@, lyrics_payload(h))
                    &&& key == self.key
                    &&& entry@ == positive_entry(lyrics_payload(h), "lrclib"@)
                },
            },
    {
        match reply {
            Err(e) => AfterLyrics::Refused(joined("LRCLIB error: ", e.as_str())),
            Ok(None) => AfterLyrics::Miss {
                response: EnrichmentResponse {
                    v: 1,
                    status: CascadeStatus::NotFound,
                    provider_id: Some("lrclib".to_owned()),
                    payload: None,
                    detail: Some(NO_LYRICS.to_owned()),
                },
                key: self.key,
                detail: NO_LYRICS.to_owned(),
            },
            Ok(Some(h)) => {
                let payload = payload_of(&h);
                let entry = EnrichmentEntry {
                    status: "ok".to_owned(),
                    provider_id: Some("lrclib".to_owned()),
                    payload: Some(payload.copy()),
                    expires_at_epoch_secs: None,
                    detail: None,
                };
                AfterLyrics::Hit {
                    response: EnrichmentResponse {
                        v: 1,
                        status: CascadeStatus::Success,
                        provider_id: Some("lrclib".to_owned()),
                        payload: Some(payload),
                        detail: None,
                    },
                    key: self.key,
                    entry,
                }
            },
        }
    }
}

/// What was kept of lyrics answers the next query as LRCLIB's reply did.
pub proof fn law_kept_lyrics_read_the_same(h: LyricsHit)
    ensures
        kept_lyrics(positive_entry(lyrics_payload(h), "lrclib"@)) == lyrics_answer(
            "lrclib"@,
            lyrics_payload(h),
        ),
{
}

/// What was kept of a miss answers the next query as LRCLIB's reply did.
pub proof fn law_kept_misses_read_the_same(expires_at: u64)
    ensures
        kept_lyrics(crate::metadata::cache::negative_entry(NO_LYRICS@, expires_at)) == no_lyrics(
            Some(NO_LYRICS@),
        ),
{
}

/// Tracks of different length are kept apart, and so are those of known and of
/// unknown length.
pub proof fn law_lengths_are_kept_apart(
    artist: Seq<char>,
    track: Seq<char>,
    album: Option<Seq<char>>,
    one: Option<i64>,
    two: Option<i64>,
)
    requires
        one != two,
    ensures
        lyrics_key_parts(artist, track, album, one) != lyrics_key_parts(artist, track, album, two),
{
    let a = lyrics_key_parts(artist, track, album, one)[4];
    let b = lyrics_key_parts(artist, track, album, two)[4];
    if one is Some {
        lemma_length_is_written(one->Some_0 as int);
    }
    if two is Some {
        lemma_length_is_written(two->Some_0 as int);
    }
    if a == b && one is Some && two is Some {
        law_signed_decimals_are_distinct(one->Some_0 as int, two->Some_0 as int);
    }
    assert(a != b);
}

proof fn lemma_length_is_written(n: int)
    ensures
        signed_decimal_of(n).len() > 0,
{
    if n < 0 {
        law_decimals_read_back((-n) as nat);
    } else {
        law_decimals_read_back(n as nat);
    }
}

// ---------------------------------------------------------------------
// Wire form
// ---------------------------------------------------------------------

/// An answer on the wire: what is absent is left out.
pub open spec fn lyrics_json(r: LyricsModel) -> JsonModel {
    let head = seq![
        ("v"@, number_model(r.v as nat)),
        ("status"@, JsonModel::Text(r.status.name())),
    ];
    let head = with_text(head, "provider_id"@, r.provider_id);
    let head = with_member(head, "payload"@, r.payload);
    JsonModel::Object(with_text(head, "detail"@, r.detail))
}

impl EnrichmentResponse {
    /// On the wire.
    pub fn to_json(&self) -> (r: Json)
        ensures
            r@ == lyrics_json(self@),
    {
        let mut w = ObjectWriter::new();
        w.put("v", number(self.v as u64));
        w.put("status", text(self.status.as_str()));
        assert(w@ =~= seq![
            ("v"@, number_model(self.v as nat)),
            ("status"@, JsonModel::Text(self.status.name())),
        ]);
        w.put_text_if_some("provider_id", &self.provider_id);
        let payload = match &self.payload {
            Some(p) => Some(p.copy()),
            None => None,
        };
        w.put_some("payload", payload);
        w.put_text_if_some("detail", &self.detail);
        w.finish()
    }
}

/// An answer with lyrics carries LRCLIB's reply: the synced text under
/// `synced_lyrics`, the plain one under `plain_lyrics`, and so it is kept.
pub proof fn law_lyrics_are_those_of_the_reply(h: LyricsHit, provider_id: Seq<char>)
    ensures
        ({
            let answer = lyrics_answer(provider_id, lyrics_payload(h));
            let kept = kept_lyrics(positive_entry(lyrics_payload(h), provider_id));
            let p = answer.payload->Some_0;
            &&& answer.payload is Some && kept.payload == answer.payload
            &&& answer.provider_id == Some(provider_id) && kept.provider_id == Some(provider_id)
            &&& answer.status == CascadeStatus::Success && kept.status == CascadeStatus::Success
            &&& member(p, "synced_lyrics"@) == Some(
                match h.synced_lyrics {
                    Some(t) => JsonModel::Text(t@),
                    None => JsonModel::Null,
                },
            )
            &&& member(p, "plain_lyrics"@) == Some(
                match h.plain_lyrics {
                    Some(t) => JsonModel::Text(t@),
                    None => JsonModel::Null,
                },
            )
            &&& member(p, "is_synced"@) == Some(JsonModel::Bool(h.is_synced))
            &&& member(p, "lrclib_id"@) == Some(
                match h.lrclib_id {
                    Some(n) => JsonModel::Number(decimal_of(n as nat)),
                    None => JsonModel::Null,
                },
            )
            &&& member(p, "source_url"@) == Some(
                match h.lrclib_id {
                    Some(n) => JsonModel::Text(
                        "https://lrclib.net/lyrics/"@ + decimal_of(n as nat),
                    ),
                    None => JsonModel::Null,
                },
            )
        }),
{
    broadcast use lemma_last_member_push;

    lemma_key_tags();
    let ms = lyrics_payload(h)->Object_0;
    assert(ms =~= Seq::empty().push(ms[0]).push(ms[1]).push(ms[2]).push(ms[3]).push(ms[4]));
}

/// On the wire an answer says all that it says, each part under its own name,
/// and leaves out what it does not say.
pub proof fn law_lyrics_answers_are_written_whole(r: LyricsModel)
    ensures
        ({
            let j = lyrics_json(r);
            &&& member(j, "v"@) == Some(JsonModel::Number(decimal_of(r.v as nat)))
            &&& member(j, "status"@) == Some(JsonModel::Text(r.status.name()))
            &&& member(j, "provider_id"@) == (match r.provider_id {
                Some(t) => Some(JsonModel::Text(t)),
                None => None,
            })
            &&& member(j, "payload"@) == r.payload
            &&& member(j, "detail"@) == (match r.detail {
                Some(t) => Some(JsonModel::Text(t)),
                None => None,
            })
        }),
{
    broadcast use lemma_last_member_push;

    lemma_key_tags();
    let head = seq![
        ("v"@, number_model(r.v as nat)),
        ("status"@, JsonModel::Text(r.status.name())),
    ];
    lemma_two_members(head);
}

/// A miss names LRCLIB and carries no payload; a refusal names nobody.
pub proof fn law_misses_carry_no_lyrics(
    status: CascadeStatus,
    text: Seq<char>,
    detail: Option<Seq<char>>,
)
    ensures
        no_lyrics(detail).status == CascadeStatus::NotFound,
        no_lyrics(detail).provider_id == Some("lrclib"@),
        no_lyrics(detail).payload is None,
        no_lyrics(detail).detail == detail,
        plain_answer(status, text).status == status,
        plain_answer(status, text).payload is None,
        plain_answer(status, text).provider_id is None,
        plain_answer(status, text).detail == Some(text),
{
}

/// Lyrics are kept apart by artist, by track and by album.
pub proof fn law_lyrics_keys_are_told_apart(
    artist: Seq<char>,
    other: Seq<char>,
    track: Seq<char>,
    another: Seq<char>,
    album: Seq<char>,
    second: Seq<char>,
    duration: Option<i64>,
)
    requires
        normal_form(artist) != normal_form(other) || normal_form(track) != normal_form(another)
            || normal_form(album) != normal_form(second),
    ensures
        lyrics_key_parts(artist, track, Some(album), duration) != lyrics_key_parts(
            other,
            another,
            Some(second),
            duration,
        ),
{
    let a = lyrics_key_parts(artist, track, Some(album), duration);
    let b = lyrics_key_parts(other, another, Some(second), duration);
    assert(a[1] == normal_form(artist) && b[1] == normal_form(other));
    assert(a[2] == normal_form(track) && b[2] == normal_form(another));
    assert(a[3] == normal_form(album) && b[3] == normal_form(second));
}

/// Lyrics are looked for exactly if LRCLIB may be asked and the request, in the one
/// version there is, names an artist and a track. What is looked for is what was named,
/// without the white around it.
pub proof fn law_who_gets_lyrics(q: LyricsRequest, config: ProviderConfig, r: LyricsStart)
    requires
        lyrics_starts(Decoded::Request(q), config, r),
    ensures
        r is Pending <==> config.permits(ProviderId::Lrclib) && q.v == 1
            && (q.artist is Some && trim_of(q.artist->Some_0@).len() > 0)
            && (q.track is Some && trim_of(q.track->Some_0@).len() > 0),
        r matches LyricsStart::Pending(l) ==> l.artist@ == trim_of(q.artist->Some_0@) && l.track@
            == trim_of(q.track->Some_0@) && l.album == q.album,
        !(r is Pending) ==> r is Answer && r->Answer_0@.payload is None,
        !config.permits(ProviderId::Lrclib) ==> r->Answer_0@.status == CascadeStatus::NotConfigured,
        config.permits(ProviderId::Lrclib) && !(r is Pending) ==> r->Answer_0@.status
            == CascadeStatus::BadRequest,
{
}

/// A lyrics request that says nothing is a bad request; one that cannot be read is
/// refused for the reason that it cannot, where LRCLIB may be asked at all.
pub proof fn law_unreadable_lyrics_requests(e: String, config: ProviderConfig, r: LyricsStart)
    ensures
        lyrics_starts(Decoded::Empty, config, r) ==> r is Answer && r->Answer_0@.status
            == CascadeStatus::BadRequest && r->Answer_0@.detail == Some("empty payload"@),
        lyrics_starts(Decoded::Rejected(e), config, r) && config.permits(ProviderId::Lrclib) ==> r
            == LyricsStart::Refused(e),
{
}

} // verus!
