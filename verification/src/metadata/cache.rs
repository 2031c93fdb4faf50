//! Cache entries and the keys they are kept under.
//!
//! Positive entries never expire; negative ones do. One file per key; the host
//! reads and writes the files, by a rename from a temporary name.

use crate::json::{opt_view, Json, JsonModel};
use crate::metadata::cascade::opt_json;
use crate::text::{hex, hex_of, joined, str_views, text_of};
use std::collections::hash_map::DefaultHasher;
use std::hash::{Hash, Hasher};
use vstd::prelude::*;
use vstd::std_specs::hash::DefaultHasherAdditionalSpecFns;

verus! {

// ---------------------------------------------------------------------
// Keys
// ---------------------------------------------------------------------

/// What feeding a text to a [`DefaultHasher`] makes of its state.
pub uninterp spec fn after_feeding(state: Seq<Seq<u8>>, s: Seq<char>) -> Seq<Seq<u8>>;

/// `str::hash` on a [`DefaultHasher`]. The hasher's new state depends on its state
/// before and on the text alone; how is not spelled out here.
#[verifier::external_body]
fn feed(hasher: &mut DefaultHasher, s: &str)
    ensures
        final(hasher)@ == after_feeding(old(hasher)@, s@),
{
    s.hash(hasher)
}

/// The state of a hasher that was fed the parts, with a bar between each two.
pub open spec fn fed(parts: Seq<Seq<char>>) -> Seq<Seq<u8>>
    decreases parts.len(),
{
    if parts.len() == 0 {
        Seq::empty()
    } else if parts.len() == 1 {
        after_feeding(Seq::empty(), parts[0])
    } else {
        after_feeding(after_feeding(fed(parts.drop_last()), "|"@), parts.last())
    }
}

/// The key of a list of parts: the hash of the fed parts, in hexadecimal.
pub open spec fn key_of(parts: Seq<Seq<char>>) -> Seq<char> {
    hex_of(DefaultHasher::spec_finish(fed(parts)) as nat, 16)
}

fn key_for_parts(parts: &[&str]) -> (r: String)
    ensures
        r@ == key_of(str_views(parts@)),
{
    let mut hasher = DefaultHasher::new();
    let n: usize = parts.len();
    let ghost all = str_views(parts@);
    for i in 0..n
        invariant
            n == parts@.len(),
            all == str_views(parts@),
            hasher@ == fed(all.take(i as int)),
    {
        assert(all.take(i + 1).drop_last() =~= all.take(i as int));
        if i > 0 {
            feed(&mut hasher, "|");
        }
        feed(&mut hasher, parts[i]);
    }
    assert(all.take(n as int) =~= all);
    text_of(hex(hasher.finish(), 16).as_slice())
}

/// The file that holds a key's entry.
pub open spec fn file_of(key: Seq<char>) -> Seq<char> {
    key + ".json"@
}

/// The file that holds a key's entry.
pub fn entry_file_name(key: &str) -> (r: String)
    ensures
        r@ == file_of(key@),
{
    joined(key, ".json")
}

/// The file that a key's entry is written to before it is renamed.
pub open spec fn temp_file_of(key: Seq<char>) -> Seq<char> {
    key + ".json.tmp"@
}

/// The file that a key's entry is written to before it is renamed.
pub fn entry_temp_name(key: &str) -> (r: String)
    ensures
        r@ == temp_file_of(key@),
{
    joined(key, ".json.tmp")
}

/// Whether an entry that expires at `expires_at` still counts at `now`.
pub open spec fn is_current(expires_at: Option<u64>, now: u64) -> bool {
    match expires_at {
        Some(t) => now < t,
        None => true,
    }
}

// ---------------------------------------------------------------------
// Enrichment entries
// ---------------------------------------------------------------------

/// What is kept of one provider's answer.
#[derive(Debug, PartialEq, Eq)]
pub struct EnrichmentEntry {
    /// `ok` or `not_found`.
    pub status: String,
    pub provider_id: Option<String>,
    pub payload: Option<Json>,
    /// Seconds of the epoch; none for an entry that does not expire.
    pub expires_at_epoch_secs: Option<u64>,
    pub detail: Option<String>,
}

/// What an [`EnrichmentEntry`] says.
pub struct EnrichmentModel {
    pub status: Seq<char>,
    pub provider_id: Option<Seq<char>>,
    pub payload: Option<JsonModel>,
    pub expires_at: Option<u64>,
    pub detail: Option<Seq<char>>,
}

impl View for EnrichmentEntry {
    type V = EnrichmentModel;

    open spec fn view(&self) -> EnrichmentModel {
        EnrichmentModel {
            status: self.status@,
            provider_id: opt_view(self.provider_id),
            payload: opt_json(self.payload),
            expires_at: self.expires_at_epoch_secs,
            detail: opt_view(self.detail),
        }
    }
}

impl EnrichmentEntry {
    /// Whether the entry still counts.
    pub fn is_fresh(&self, now_epoch_secs: u64) -> (r: bool)
        ensures
            r == is_current(self@.expires_at, now_epoch_secs),
    {
        match self.expires_at_epoch_secs {
            Some(t) => now_epoch_secs < t,
            None => true,
        }
    }
}

/// What an optional entry says.
pub open spec fn opt_enrichment(o: Option<EnrichmentEntry>) -> Option<EnrichmentModel> {
    match o {
        Some(e) => Some(e@),
        None => None,
    }
}

/// What a read yields of what is stored: the entry, while it counts.
pub open spec fn enrichment_read(stored: Option<EnrichmentModel>, now: u64) -> Option<
    EnrichmentModel,
> {
    match stored {
        Some(e) => if is_current(e.expires_at, now) {
            Some(e)
        } else {
            None
        },
        None => None,
    }
}

/// A hit to keep.
pub open spec fn positive_entry(payload: JsonModel, provider_id: Seq<char>) -> EnrichmentModel {
    EnrichmentModel {
        status: "ok"@,
        provider_id: Some(provider_id),
        payload: Some(payload),
        expires_at: None,
        detail: None,
    }
}

/// A miss to keep until `expires_at`.
pub open spec fn negative_entry(detail: Seq<char>, expires_at: u64) -> EnrichmentModel {
    EnrichmentModel {
        status: "not_found"@,
        provider_id: None,
        payload: None,
        expires_at: Some(expires_at),
        detail: Some(detail),
    }
}

/// A cache of enrichment entries.
#[derive(Debug, PartialEq, Eq)]
pub struct EnrichmentCache {
    pub root: String,
    pub negative_ttl_secs: u64,
}

impl EnrichmentCache {
    /// A cache under a directory.
    pub fn new(root: String, negative_ttl_secs: u64) -> (r: EnrichmentCache)
        ensures
            r == (EnrichmentCache { root, negative_ttl_secs }),
    {
        EnrichmentCache { root, negative_ttl_secs }
    }

    /// The key of normalised components.
    pub fn key_for(components: &[&str]) -> (r: String)
        ensures
            r@ == key_of(str_views(components@)),
    {
        key_for_parts(components)
    }

    /// What a read yields: the stored entry, while it counts.
    pub fn get(&self, stored: Option<EnrichmentEntry>, now_epoch_secs: u64) -> (r: Option<
        EnrichmentEntry,
    >)
        ensures
            match stored {
                Some(e) => if is_current(e@.expires_at, now_epoch_secs) {
                    r == Some(e)
                } else {
                    r is None
                },
                None => r is None,
            },
            opt_enrichment(r) == enrichment_read(opt_enrichment(stored), now_epoch_secs),
    {
        match stored {
            Some(e) => if e.is_fresh(now_epoch_secs) {
                Some(e)
            } else {
                None
            },
            None => None,
        }
    }

    /// The entry that keeps a hit, for good.
    pub fn put_positive(&self, payload: Json, provider_id: &str) -> (r: EnrichmentEntry)
        ensures
            r@ == positive_entry(payload@, provider_id@),
    {
        EnrichmentEntry {
            status: "ok".to_owned(),
            provider_id: Some(provider_id.to_owned()),
            payload: Some(payload),
            expires_at_epoch_secs: None,
            detail: None,
        }
    }

    /// The entry that keeps a miss, for the cache's time.
    pub fn put_negative(&self, detail: String, now_epoch_secs: u64) -> (r: EnrichmentEntry)
        requires
            now_epoch_secs + self.negative_ttl_secs <= u64::MAX,
        ensures
            r@ == negative_entry(detail@, (now_epoch_secs + self.negative_ttl_secs) as u64),
    {
        EnrichmentEntry {
            status: "not_found".to_owned(),
            provider_id: None,
            payload: None,
            expires_at_epoch_secs: Some(now_epoch_secs + self.negative_ttl_secs),
            detail: Some(detail),
        }
    }
}

// ---------------------------------------------------------------------
// Reconciliation entries
// ---------------------------------------------------------------------

/// A release's canonical identity.
#[derive(Debug, PartialEq, Eq)]
pub struct CanonicalIdentity {
    pub artist: String,
    pub album: String,
    pub release_mbid: String,
    pub release_group_mbid: Option<String>,
    pub artist_mbid: Option<String>,
    pub first_release_year: Option<u16>,
    pub recording_type: String,
    pub track_count: Option<u32>,
}

/// What a [`CanonicalIdentity`] says.
pub struct IdentityModel {
    pub artist: Seq<char>,
    pub album: Seq<char>,
    pub release_mbid: Seq<char>,
    pub release_group_mbid: Option<Seq<char>>,
    pub artist_mbid: Option<Seq<char>>,
    pub first_release_year: Option<u16>,
    pub recording_type: Seq<char>,
    pub track_count: Option<u32>,
}

impl View for CanonicalIdentity {
    type V = IdentityModel;

    open spec fn view(&self) -> IdentityModel {
        IdentityModel {
            artist: self.artist@,
            album: self.album@,
            release_mbid: self.release_mbid@,
            release_group_mbid: opt_view(self.release_group_mbid),
            artist_mbid: opt_view(self.artist_mbid),
            first_release_year: self.first_release_year,
            recording_type: self.recording_type@,
            track_count: self.track_count,
        }
    }
}

/// What an optional identity says.
pub open spec fn opt_identity(o: Option<CanonicalIdentity>) -> Option<IdentityModel> {
    match o {
        Some(c) => Some(c@),
        None => None,
    }
}

/// What is kept of a reconciliation.
#[derive(Debug, PartialEq, Eq)]
pub struct CacheEntry {
    /// `ok` or `not_found`.
    pub status: String,
    /// The identity, where one is stored that can be read.
    pub canonical: Option<CanonicalIdentity>,
    pub provider_id: Option<String>,
    pub confidence_percent: Option<u32>,
    /// Seconds of the epoch; none for an entry that does not expire.
    pub expires_at_epoch_secs: Option<u64>,
    pub detail: Option<String>,
}

/// What a [`CacheEntry`] says.
pub struct CacheModel {
    pub status: Seq<char>,
    pub canonical: Option<IdentityModel>,
    pub provider_id: Option<Seq<char>>,
    pub confidence_percent: Option<u32>,
    pub expires_at: Option<u64>,
    pub detail: Option<Seq<char>>,
}

impl View for CacheEntry {
    type V = CacheModel;

    open spec fn view(&self) -> CacheModel {
        CacheModel {
            status: self.status@,
            canonical: opt_identity(self.canonical),
            provider_id: opt_view(self.provider_id),
            confidence_percent: self.confidence_percent,
            expires_at: self.expires_at_epoch_secs,
            detail: opt_view(self.detail),
        }
    }
}

impl CacheEntry {
    /// Whether the entry still counts.
    pub fn is_fresh(&self, now_epoch_secs: u64) -> (r: bool)
        ensures
            r == is_current(self@.expires_at, now_epoch_secs),
    {
        match self.expires_at_epoch_secs {
            Some(t) => now_epoch_secs < t,
            None => true,
        }
    }
}

/// What an optional entry says.
pub open spec fn opt_cached(o: Option<CacheEntry>) -> Option<CacheModel> {
    match o {
        Some(e) => Some(e@),
        None => None,
    }
}

/// What a read yields of what is stored: the entry, while it counts.
pub open spec fn reconciliation_read(stored: Option<CacheModel>, now: u64) -> Option<CacheModel> {
    match stored {
        Some(e) => if is_current(e.expires_at, now) {
            Some(e)
        } else {
            None
        },
        None => None,
    }
}

/// An identity to keep.
pub open spec fn reconciled_entry(
    canonical: IdentityModel,
    provider_id: Seq<char>,
    confidence_percent: u32,
) -> CacheModel {
    CacheModel {
        status: "ok"@,
        canonical: Some(canonical),
        provider_id: Some(provider_id),
        confidence_percent: Some(confidence_percent),
        expires_at: None,
        detail: None,
    }
}

/// A miss to keep until `expires_at`.
pub open spec fn unreconciled_entry(detail: Seq<char>, expires_at: u64) -> CacheModel {
    CacheModel {
        status: "not_found"@,
        canonical: None,
        provider_id: None,
        confidence_percent: None,
        expires_at: Some(expires_at),
        detail: Some(detail),
    }
}

/// A cache of reconciliations.
#[derive(Debug, PartialEq, Eq)]
pub struct ReconcileCache {
    pub root: String,
    pub negative_ttl_secs: u64,
}

impl ReconcileCache {
    /// A cache under a directory.
    pub fn new(root: String, negative_ttl_secs: u64) -> (r: ReconcileCache)
        ensures
            r == (ReconcileCache { root, negative_ttl_secs }),
    {
        ReconcileCache { root, negative_ttl_secs }
    }

    /// The key of a normalised artist and album.
    pub fn key_for(normalised_artist: &str, normalised_album: &str) -> (r: String)
        ensures
            r@ == key_of(seq![normalised_artist@, normalised_album@]),
    {
        let parts: [&str; 2] = [normalised_artist, normalised_album];
        assert(str_views(parts@) =~= seq![normalised_artist@, normalised_album@]);
        key_for_parts(parts.as_slice())
    }

    /// What a read yields: the stored entry, while it counts.
    pub fn get(&self, stored: Option<CacheEntry>, now_epoch_secs: u64) -> (r: Option<CacheEntry>)
        ensures
            match stored {
                Some(e) => if is_current(e@.expires_at, now_epoch_secs) {
                    r == Some(e)
                } else {
                    r is None
                },
                None => r is None,
            },
            opt_cached(r) == reconciliation_read(opt_cached(stored), now_epoch_secs),
    {
        match stored {
            Some(e) => if e.is_fresh(now_epoch_secs) {
                Some(e)
            } else {
                None
            },
            None => None,
        }
    }

    /// The entry that keeps a hit, for good.
    pub fn put_positive(
        &self,
        canonical: CanonicalIdentity,
        provider_id: &str,
        confidence_percent: u32,
    ) -> (r: CacheEntry)
        ensures
            r@ == reconciled_entry(canonical@, provider_id@, confidence_percent),
    {
        CacheEntry {
            status: "ok".to_owned(),
            canonical: Some(canonical),
            provider_id: Some(provider_id.to_owned()),
            confidence_percent: Some(confidence_percent),
            expires_at_epoch_secs: None,
            detail: None,
        }
    }

    /// The entry that keeps a miss, for the cache's time.
    pub fn put_negative(&self, detail: String, now_epoch_secs: u64) -> (r: CacheEntry)
        requires
            now_epoch_secs + self.negative_ttl_secs <= u64::MAX,
        ensures
            r@ == unreconciled_entry(detail@, (now_epoch_secs + self.negative_ttl_secs) as u64),
    {
        CacheEntry {
            status: "not_found".to_owned(),
            canonical: None,
            provider_id: None,
            confidence_percent: None,
            expires_at_epoch_secs: Some(now_epoch_secs + self.negative_ttl_secs),
            detail: Some(detail),
        }
    }
}

// ---------------------------------------------------------------------
// The directory
// ---------------------------------------------------------------------

/// The files of a cache's directory after entries were written to it, each under
/// its key: a write replaces what its file held.
pub open spec fn files_after<T>(files: Map<Seq<char>, T>, writes: Seq<(Seq<char>, T)>) -> Map<
    Seq<char>,
    T,
>
    decreases writes.len(),
{
    if writes.len() == 0 {
        files
    } else {
        files_after(files, writes.drop_last()).insert(file_of(writes.last().0), writes.last().1)
    }
}

/// What the directory holds under a key.
pub open spec fn stored_under<T>(files: Map<Seq<char>, T>, key: Seq<char>) -> Option<T> {
    if files.dom().contains(file_of(key)) {
        Some(files[file_of(key)])
    } else {
        None
    }
}

// ---------------------------------------------------------------------
// Laws
// ---------------------------------------------------------------------

/// Every key has a file of its own, and no temporary file is ever taken for an
/// entry.
pub proof fn law_keys_have_their_own_files(key: Seq<char>, other: Seq<char>)
    ensures
        file_of(key) == file_of(other) ==> key == other,
        temp_file_of(key) == temp_file_of(other) ==> key == other,
        temp_file_of(key) != file_of(other),
{
    reveal_strlit(".json");
    reveal_strlit(".json.tmp");
    let n = key.len() as int;
    if file_of(key) == file_of(other) {
        assert(file_of(key).take(n) =~= key);
        assert(file_of(other).take(n) =~= other);
    }
    if temp_file_of(key) == temp_file_of(other) {
        assert(temp_file_of(key).len() == n + 9);
        assert(temp_file_of(other).len() == other.len() + 9);
        assert(temp_file_of(key).take(n) =~= key);
        assert(temp_file_of(other).take(n) =~= other);
    }
    assert(temp_file_of(key).last() == 'p');
    assert(file_of(other).last() == 'n');
}

/// A directory holds under a key what was last written under it: writes under
/// other keys leave it alone, and where nothing was ever written there is nothing.
pub proof fn law_the_last_write_is_stored<T>(
    files: Map<Seq<char>, T>,
    writes: Seq<(Seq<char>, T)>,
    key: Seq<char>,
    last: int,
)
    requires
        -1 <= last < writes.len(),
        last >= 0 ==> writes[last].0 == key,
        forall|i: int| last < i < writes.len() ==> (#[trigger] writes[i]).0 != key,
    ensures
        stored_under(files_after(files, writes), key) == (if last >= 0 {
            Some(writes[last].1)
        } else {
            stored_under(files, key)
        }),
        stored_under(Map::<Seq<char>, T>::empty(), key) is None,
    decreases writes.len(),
{
    if writes.len() > 0 {
        law_keys_have_their_own_files(key, writes.last().0);
        if last < writes.len() - 1 {
            assert(writes[writes.len() - 1].0 != key);
            let front = writes.drop_last();
            assert forall|i: int| last < i < front.len() implies (#[trigger] front[i]).0 != key by {
                assert(front[i] == writes[i]);
            }
            law_the_last_write_is_stored(files, front, key, last);
        }
    }
}

/// A reconciliation is read back as it was kept. Whatever else has been written
/// since under other keys: an identity that was the last to be kept under a key is
/// read back at any later time; a miss exactly until the cache's time is over, and
/// then nothing; and under a key that nothing was kept under, nothing is read.
pub proof fn law_reconciliations_are_read_back(
    writes: Seq<(Seq<char>, CacheModel)>,
    key: Seq<char>,
    last: int,
    canonical: IdentityModel,
    provider_id: Seq<char>,
    confidence_percent: u32,
    detail: Seq<char>,
    kept_at: u64,
    ttl: u64,
    now: u64,
)
    requires
        kept_at + ttl <= u64::MAX,
        -1 <= last < writes.len(),
        last >= 0 ==> writes[last].0 == key,
        forall|i: int| last < i < writes.len() ==> (#[trigger] writes[i]).0 != key,
    ensures
        ({
            let files = files_after(Map::<Seq<char>, CacheModel>::empty(), writes);
            let read = reconciliation_read(stored_under(files, key), now);
            let hit = reconciled_entry(canonical, provider_id, confidence_percent);
            let miss = unreconciled_entry(detail, (kept_at + ttl) as u64);
            &&& last >= 0 && writes[last].1 == hit ==> read == Some(hit)
            &&& last >= 0 && writes[last].1 == miss ==> read == (if now < kept_at + ttl {
                Some(miss)
            } else {
                None
            })
            &&& last < 0 ==> read is None
        }),
{
    law_the_last_write_is_stored(Map::<Seq<char>, CacheModel>::empty(), writes, key, last);
}

/// An enrichment entry is read back as it was kept, as a reconciliation is.
pub proof fn law_enrichments_are_read_back(
    writes: Seq<(Seq<char>, EnrichmentModel)>,
    key: Seq<char>,
    last: int,
    payload: JsonModel,
    provider_id: Seq<char>,
    detail: Seq<char>,
    kept_at: u64,
    ttl: u64,
    now: u64,
)
    requires
        kept_at + ttl <= u64::MAX,
        -1 <= last < writes.len(),
        last >= 0 ==> writes[last].0 == key,
        forall|i: int| last < i < writes.len() ==> (#[trigger] writes[i]).0 != key,
    ensures
        ({
            let files = files_after(Map::<Seq<char>, EnrichmentModel>::empty(), writes);
            let read = enrichment_read(stored_under(files, key), now);
            let hit = positive_entry(payload, provider_id);
            let miss = negative_entry(detail, (kept_at + ttl) as u64);
            &&& last >= 0 && writes[last].1 == hit ==> read == Some(hit)
            &&& last >= 0 && writes[last].1 == miss ==> read == (if now < kept_at + ttl {
                Some(miss)
            } else {
                None
            })
            &&& last < 0 ==> read is None
        }),
{
    law_the_last_write_is_stored(Map::<Seq<char>, EnrichmentModel>::empty(), writes, key, last);
}

/// A kept hit counts at any later time.
pub proof fn law_hits_never_expire(
    payload: JsonModel,
    canonical: IdentityModel,
    provider_id: Seq<char>,
    confidence_percent: u32,
    now: u64,
)
    ensures
        is_current(positive_entry(payload, provider_id).expires_at, now),
        is_current(
            reconciled_entry(canonical, provider_id, confidence_percent).expires_at,
            now,
        ),
{
}

/// A kept miss counts for exactly the cache's time.
pub proof fn law_misses_expire(detail: Seq<char>, kept_at: u64, ttl: u64, now: u64)
    requires
        kept_at + ttl <= u64::MAX,
    ensures
        is_current(negative_entry(detail, (kept_at + ttl) as u64).expires_at, now) <==> now
            < kept_at + ttl,
        is_current(unreconciled_entry(detail, (kept_at + ttl) as u64).expires_at, now) <==> now
            < kept_at + ttl,
{
}

/// A kept hit carries what was found, and a kept miss why nothing was.
pub proof fn law_entries_carry_what_was_kept(
    payload: JsonModel,
    canonical: IdentityModel,
    provider_id: Seq<char>,
    confidence_percent: u32,
    detail: Seq<char>,
    expires_at: u64,
)
    ensures
        positive_entry(payload, provider_id).payload == Some(payload),
        positive_entry(payload, provider_id).provider_id == Some(provider_id),
        positive_entry(payload, provider_id).status != negative_entry(detail, expires_at).status,
        negative_entry(detail, expires_at).payload is None,
        negative_entry(detail, expires_at).detail == Some(detail),
        ({
            let hit = reconciled_entry(canonical, provider_id, confidence_percent);
            let miss = unreconciled_entry(detail, expires_at);
            &&& hit.canonical == Some(canonical) && hit.provider_id == Some(provider_id)
            &&& hit.confidence_percent == Some(confidence_percent)
            &&& hit.status != miss.status
            &&& miss.canonical is None && miss.detail == Some(detail)
        }),
{
    reveal_strlit("ok");
    reveal_strlit("not_found");
    assert("ok"@.len() == 2 && "not_found"@.len() == 9);
}

/// Every part of a key counts, in its place: one more part is fed behind a bar to
/// what the parts before it made.
pub proof fn law_every_part_of_a_key_is_fed(parts: Seq<Seq<char>>, part: Seq<char>)
    ensures
        parts.len() > 0 ==> fed(parts.push(part)) == after_feeding(
            after_feeding(fed(parts), "|"@),
            part,
        ),
        fed(seq![part]) == after_feeding(Seq::empty(), part),
        key_of(parts) == hex_of(DefaultHasher::spec_finish(fed(parts)) as nat, 16),
{
    assert(parts.push(part).drop_last() =~= parts);
}

} // verus!
