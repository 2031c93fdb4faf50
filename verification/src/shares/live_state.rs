//! Live state of shares and where it is published.

use crate::json::opt_view;
use crate::shares::records::{MountState, ShareId};
use crate::text::clone_opt;
use vstd::prelude::*;

verus! {

/// Subject type of the configured shares.
pub const CONFIGURED_SUBJECT_TYPE: &'static str = "system_network_shares_configured";

/// Subject type of the discovered hosts.
pub const DISCOVERED_SUBJECT_TYPE: &'static str = "system_network_shares_discovered";

/// Subject type of one share's state.
pub const SHARE_STATE_SUBJECT_TYPE: &'static str = "network_share_state";

/// Addressing scheme of the configured shares.
pub const CONFIGURED_SUBJECT_SCHEME: &'static str = "evo.network.shares.configured";

/// Addressing scheme of the discovered hosts.
pub const DISCOVERED_SUBJECT_SCHEME: &'static str = "evo.network.shares.discovered";

/// Addressing scheme of one share's state.
pub const SHARE_STATE_SUBJECT_SCHEME: &'static str = "evo.network.share.state";

/// Addressing value of the singletons.
pub const SINGLETON_ADDRESSING_VALUE: &'static str = "local";

// ---------------------------------------------------------------------
// Addressing
// ---------------------------------------------------------------------

/// Where a subject is addressed.
#[derive(Debug, PartialEq, Eq)]
pub struct ExternalAddressing {
    pub scheme: String,
    pub value: String,
}

/// Address of the configured shares.
pub fn configured_singleton_addressing() -> (r: ExternalAddressing)
    ensures
        r.scheme@ == CONFIGURED_SUBJECT_SCHEME@,
        r.value@ == SINGLETON_ADDRESSING_VALUE@,
{
    ExternalAddressing {
        scheme: CONFIGURED_SUBJECT_SCHEME.to_owned(),
        value: SINGLETON_ADDRESSING_VALUE.to_owned(),
    }
}

/// Address of the discovered hosts.
pub fn discovered_singleton_addressing() -> (r: ExternalAddressing)
    ensures
        r.scheme@ == DISCOVERED_SUBJECT_SCHEME@,
        r.value@ == SINGLETON_ADDRESSING_VALUE@,
{
    ExternalAddressing {
        scheme: DISCOVERED_SUBJECT_SCHEME.to_owned(),
        value: SINGLETON_ADDRESSING_VALUE.to_owned(),
    }
}

/// Address of one share's state.
pub fn share_state_addressing(share_id: &ShareId) -> (r: ExternalAddressing)
    ensures
        r.scheme@ == SHARE_STATE_SUBJECT_SCHEME@,
        r.value@ == share_id@,
{
    ExternalAddressing {
        scheme: SHARE_STATE_SUBJECT_SCHEME.to_owned(),
        value: share_id.to_text(),
    }
}

// ---------------------------------------------------------------------
// Live state of shares
// ---------------------------------------------------------------------

/// Live state of one share.
#[derive(Debug, PartialEq, Eq)]
pub struct ShareStateEntry {
    pub alias: String,
    pub state: MountState,
    /// Why the share failed, while it is failed.
    pub reason: Option<String>,
    /// Dialect or version, while mounted.
    pub negotiated_vers: Option<String>,
    pub last_transition_at_ms: u64,
}

/// What a [`ShareStateEntry`] says.
pub struct EntryModel {
    pub alias: Seq<char>,
    pub state: MountState,
    pub reason: Option<Seq<char>>,
    pub negotiated_vers: Option<Seq<char>>,
    pub last_transition_at_ms: u64,
}

impl View for ShareStateEntry {
    type V = EntryModel;

    open spec fn view(&self) -> EntryModel {
        EntryModel {
            alias: self.alias@,
            state: self.state,
            reason: opt_view(self.reason),
            negotiated_vers: opt_view(self.negotiated_vers),
            last_transition_at_ms: self.last_transition_at_ms,
        }
    }
}

/// Published state of one share.
#[derive(Debug, PartialEq, Eq)]
pub struct ShareStateEnvelope {
    pub share_id: ShareId,
    pub alias: String,
    pub state: MountState,
    pub reason: Option<String>,
    pub negotiated_vers: Option<String>,
    pub last_transition_at_ms: u64,
}

/// What a [`ShareStateEnvelope`] says.
pub struct EnvelopeModel {
    pub share_id: Seq<char>,
    pub entry: EntryModel,
}

impl View for ShareStateEnvelope {
    type V = EnvelopeModel;

    open spec fn view(&self) -> EnvelopeModel {
        EnvelopeModel {
            share_id: self.share_id@,
            entry: EntryModel {
                alias: self.alias@,
                state: self.state,
                reason: opt_view(self.reason),
                negotiated_vers: opt_view(self.negotiated_vers),
                last_transition_at_ms: self.last_transition_at_ms,
            },
        }
    }
}

impl ShareStateEntry {
    /// The envelope that publishes the entry under `share_id`.
    pub fn to_envelope(&self, share_id: &ShareId) -> (r: ShareStateEnvelope)
        ensures
            r@ == (EnvelopeModel { share_id: share_id@, entry: self@ }),
    {
        ShareStateEnvelope {
            share_id: share_id.clone(),
            alias: self.alias.clone(),
            state: self.state,
            reason: clone_opt(&self.reason),
            negotiated_vers: clone_opt(&self.negotiated_vers),
            last_transition_at_ms: self.last_transition_at_ms,
        }
    }
}

/// The live states of shares, keyed by identifier.
pub struct ShareStates {
    slots: Vec<(ShareId, ShareStateEntry)>,
}

spec fn slot_at(slots: Seq<(ShareId, ShareStateEntry)>, id: Seq<char>, i: int) -> bool {
    0 <= i < slots.len() && slots[i].0@ == id
}

impl View for ShareStates {
    type V = Map<Seq<char>, EntryModel>;

    closed spec fn view(&self) -> Map<Seq<char>, EntryModel> {
        Map::new(
            |id: Seq<char>| exists|i: int| slot_at(self.slots@, id, i),
            |id: Seq<char>| self.slots@[choose|i: int| slot_at(self.slots@, id, i)].1@,
        )
    }
}

impl ShareStates {
    /// No identifier has two entries.
    pub closed spec fn well_formed(&self) -> bool {
        forall|i: int, j: int|
            0 <= i < j < self.slots@.len() ==> (#[trigger] self.slots@[i]).0@ != (
            #[trigger] self.slots@[j]).0@
    }

    proof fn lemma_entry(&self, id: Seq<char>, i: int)
        requires
            self.well_formed(),
            slot_at(self.slots@, id, i),
        ensures
            self@.dom().contains(id),
            self@[id] == self.slots@[i].1@,
    {
        let k = choose|k: int| slot_at(self.slots@, id, k);
        assert(slot_at(self.slots@, id, k));
        assert(k == i);
    }

    /// No entries.
    pub fn new() -> (r: ShareStates)
        ensures
            r.well_formed(),
            r@ == Map::<Seq<char>, EntryModel>::empty(),
    {
        let r = ShareStates { slots: Vec::new() };
        assert(r@ =~= Map::<Seq<char>, EntryModel>::empty());
        r
    }

    fn position(&self, id: &ShareId) -> (r: Option<usize>)
        ensures
            match r {
                Some(i) => slot_at(self.slots@, id@, i as int),
                None => forall|i: int| !slot_at(self.slots@, id@, i),
            },
    {
        let n: usize = self.slots.len();
        for i in 0..n
            invariant
                n == self.slots@.len(),
                forall|j: int| 0 <= j < i ==> !slot_at(self.slots@, id@, j),
        {
            if self.slots[i].0.same(id) {
                return Some(i);
            }
        }
        None
    }

    /// The entry of a share.
    pub fn get(&self, id: &ShareId) -> (r: Option<&ShareStateEntry>)
        requires
            self.well_formed(),
        ensures
            match r {
                Some(e) => self@.dom().contains(id@) && e@ == self@[id@],
                None => !self@.dom().contains(id@),
            },
    {
        match self.position(id) {
            Some(i) => {
                proof {
                    self.lemma_entry(id@, i as int);
                }
                Some(&self.slots[i].1)
            },
            None => None,
        }
    }

    /// Sets the entry of a share.
    pub fn set(&mut self, id: ShareId, entry: ShareStateEntry)
        requires
            old(self).well_formed(),
        ensures
            final(self).well_formed(),
            final(self)@ == old(self)@.insert(id@, entry@),
    {
        let ghost before = *self;
        match self.position(&id) {
            Some(i) => {
                self.slots.set(i, (id, entry));
                proof {
                    assert forall|k: Seq<char>| #[trigger]
                        self@.dom().contains(k) == before@.insert(id@, entry@).dom().contains(
                            k,
                        ) by {
                        if k == id@ {
                            assert(slot_at(self.slots@, k, i as int));
                        }
                        if exists|j: int| slot_at(before.slots@, k, j) {
                            let j = choose|j: int| slot_at(before.slots@, k, j);
                            assert(slot_at(self.slots@, k, j));
                        }
                        if exists|j: int| slot_at(self.slots@, k, j) {
                            let j = choose|j: int| slot_at(self.slots@, k, j);
                            if j != i {
                                assert(slot_at(before.slots@, k, j));
                            }
                        }
                    }
                    assert forall|k: Seq<char>| #[trigger]
                        self@.dom().contains(k) implies self@[k] == before@.insert(
                        id@,
                        entry@,
                    )[k] by {
                        let j = choose|j: int| slot_at(self.slots@, k, j);
                        assert(slot_at(self.slots@, k, j));
                        self.lemma_entry(k, j);
                        if j != i {
                            assert(slot_at(before.slots@, k, j));
                            before.lemma_entry(k, j);
                            assert(before.slots@[i as int].0@ != k);
                        }
                    }
                    assert(self@ =~= before@.insert(id@, entry@));
                }
            },
            None => {
                self.slots.push((id, entry));
                let ghost n = before.slots@.len() as int;
                proof {
                    assert forall|i: int, j: int| 0 <= i < j < self.slots@.len() implies (
                    #[trigger] self.slots@[i]).0@ != (#[trigger] self.slots@[j]).0@ by {
                        if j == n {
                            assert(!slot_at(before.slots@, id@, i));
                        }
                    }
                    assert forall|k: Seq<char>| #[trigger]
                        self@.dom().contains(k) == before@.insert(id@, entry@).dom().contains(
                            k,
                        ) by {
                        if k == id@ {
                            assert(slot_at(self.slots@, k, n));
                        }
                        if exists|j: int| slot_at(before.slots@, k, j) {
                            let j = choose|j: int| slot_at(before.slots@, k, j);
                            assert(slot_at(self.slots@, k, j));
                        }
                        if exists|j: int| slot_at(self.slots@, k, j) {
                            let j = choose|j: int| slot_at(self.slots@, k, j);
                            if j != n {
                                assert(slot_at(before.slots@, k, j));
                            }
                        }
                    }
                    assert forall|k: Seq<char>| #[trigger]
                        self@.dom().contains(k) implies self@[k] == before@.insert(
                        id@,
                        entry@,
                    )[k] by {
                        let j = choose|j: int| slot_at(self.slots@, k, j);
                        assert(slot_at(self.slots@, k, j));
                        self.lemma_entry(k, j);
                        if j != n {
                            assert(slot_at(before.slots@, k, j));
                            before.lemma_entry(k, j);
                        }
                    }
                    assert(self@ =~= before@.insert(id@, entry@));
                }
            },
        }
    }

    /// Drops the entry of a share.
    pub fn remove(&mut self, id: &ShareId)
        requires
            old(self).well_formed(),
        ensures
            final(self).well_formed(),
            final(self)@ == old(self)@.remove(id@),
    {
        let ghost before = *self;
        match self.position(id) {
            None => {
                assert(self@ =~= before@.remove(id@));
            },
            Some(i) => {
                let _ = self.slots.remove(i);
                proof {
                    let at = |j: int|
                        if j < i {
                            j
                        } else {
                            j + 1
                        };
                    assert forall|j: int, k: int| 0 <= j < k < self.slots@.len() implies (
                    #[trigger] self.slots@[j]).0@ != (#[trigger] self.slots@[k]).0@ by {
                        assert(self.slots@[j] == before.slots@[at(j)]);
                        assert(self.slots@[k] == before.slots@[at(k)]);
                    }
                    assert forall|k: Seq<char>| #[trigger]
                        self@.dom().contains(k) == before@.remove(id@).dom().contains(k) by {
                        if exists|j: int| slot_at(before.slots@, k, j) {
                            let j = choose|j: int| slot_at(before.slots@, k, j);
                            if j < i {
                                assert(slot_at(self.slots@, k, j));
                            } else if j > i {
                                assert(slot_at(self.slots@, k, j - 1));
                            }
                        }
                        if exists|j: int| slot_at(self.slots@, k, j) {
                            let j = choose|j: int| slot_at(self.slots@, k, j);
                            assert(slot_at(before.slots@, k, at(j)));
                            assert(before.slots@[i as int].0@ == id@);
                            assert(at(j) != i);
                            if at(j) < i {
                                assert(before.slots@[at(j)].0@ != before.slots@[i as int].0@);
                            } else {
                                assert(before.slots@[i as int].0@ != before.slots@[at(j)].0@);
                            }
                        }
                    }
                    assert forall|k: Seq<char>| #[trigger]
                        self@.dom().contains(k) implies self@[k] == before@.remove(id@)[k] by {
                        let j = choose|j: int| slot_at(self.slots@, k, j);
                        assert(slot_at(self.slots@, k, j));
                        self.lemma_entry(k, j);
                        assert(slot_at(before.slots@, k, at(j)));
                        before.lemma_entry(k, at(j));
                    }
                    assert(self@ =~= before@.remove(id@));
                }
            },
        }
    }

    /// The envelopes of all entries, one per share.
    pub fn envelopes(&self) -> (r: Vec<ShareStateEnvelope>)
        requires
            self.well_formed(),
        ensures
            are_envelopes_of(r@, self@),
    {
        let mut r: Vec<ShareStateEnvelope> = Vec::new();
        let n: usize = self.slots.len();
        for i in 0..n
            invariant
                self.well_formed(),
                n == self.slots@.len(),
                r@.len() == i,
                forall|j: int|
                    0 <= j < i ==> (#[trigger] r@[j])@ == (EnvelopeModel {
                        share_id: self.slots@[j].0@,
                        entry: self.slots@[j].1@,
                    }),
        {
            r.push(self.slots[i].1.to_envelope(&self.slots[i].0));
        }
        proof {
            assert forall|i: int| 0 <= i < r@.len() implies self@.dom().contains(
                (#[trigger] r@[i])@.share_id,
            ) && r@[i]@.entry == self@[r@[i]@.share_id] by {
                assert(slot_at(self.slots@, self.slots@[i].0@, i));
                self.lemma_entry(self.slots@[i].0@, i);
            }
            assert forall|id: Seq<char>| #[trigger] self@.dom().contains(id) implies exists|i: int|
                0 <= i < r@.len() && (#[trigger] r@[i])@.share_id == id by {
                let i = choose|i: int| slot_at(self.slots@, id, i);
                assert(slot_at(self.slots@, id, i));
                assert(r@[i]@.share_id == id);
            }
        }
        r
    }

    /// The shares to retry: those failed or unmounted, each once.
    pub fn retry_candidates(&self) -> (r: Vec<ShareId>)
        requires
            self.well_formed(),
        ensures
            are_retries_of(r@, self@),
    {
        let mut r: Vec<ShareId> = Vec::new();
        let ghost mut src: Seq<int> = Seq::empty();
        let n: usize = self.slots.len();
        for i in 0..n
            invariant
                self.well_formed(),
                n == self.slots@.len(),
                src.len() == r@.len(),
                forall|k: int|
                    0 <= k < src.len() ==> 0 <= #[trigger] src[k] < i && r@[k]@
                        == self.slots@[src[k]].0@ && needs_retry(self.slots@[src[k]].1@),
                forall|k: int, l: int|
                    0 <= k < l < src.len() ==> #[trigger] src[k] < #[trigger] src[l],
                forall|j: int|
                    0 <= j < i && needs_retry((#[trigger] self.slots@[j]).1@) ==> src.contains(j),
        {
            let s = self.slots[i].1.state;
            let ghost before = src;
            if s == MountState::Failed || s == MountState::Unmounted {
                r.push(self.slots[i].0.clone());
                proof {
                    src = before.push(i as int);
                    assert(src[before.len() as int] == i);
                    assert forall|j: int|
                        0 <= j < i + 1 && needs_retry(
                            (#[trigger] self.slots@[j]).1@,
                        ) implies src.contains(j) by {
                        if j < i {
                            let k = choose|k: int| 0 <= k < before.len() && before[k] == j;
                            assert(src[k] == j);
                        }
                    }
                }
            }
        }
        proof {
            assert forall|i: int| 0 <= i < r@.len() implies self@.dom().contains(
                (#[trigger] r@[i])@,
            ) && needs_retry(self@[r@[i]@]) by {
                assert(slot_at(self.slots@, r@[i]@, src[i]));
                self.lemma_entry(r@[i]@, src[i]);
            }
            assert forall|id: Seq<char>|
                #![trigger self@.dom().contains(id)]
                self@.dom().contains(id) && needs_retry(self@[id]) implies exists|i: int|
                0 <= i < r@.len() && (#[trigger] r@[i])@ == id by {
                let j = choose|j: int| slot_at(self.slots@, id, j);
                assert(slot_at(self.slots@, id, j));
                self.lemma_entry(id, j);
                assert(needs_retry(self.slots@[j].1@));
                let k = choose|k: int| 0 <= k < src.len() && src[k] == j;
                assert(r@[k]@ == id);
            }
            assert forall|i: int, j: int| 0 <= i < j < r@.len() implies (#[trigger] r@[i])@ != (
            #[trigger] r@[j])@ by {
                assert(src[i] < src[j]);
                assert(self.slots@[src[i]].0@ != self.slots@[src[j]].0@);
            }
        }
        r
    }
}

/// Whether the background task retries a share in this state.
pub open spec fn needs_retry(e: EntryModel) -> bool {
    e.state == MountState::Failed || e.state == MountState::Unmounted
}

/// The envelopes of all entries, one per share, in any order.
pub open spec fn are_envelopes_of(
    r: Seq<ShareStateEnvelope>,
    entries: Map<Seq<char>, EntryModel>,
) -> bool {
    &&& forall|i: int|
        0 <= i < r.len() ==> entries.dom().contains((#[trigger] r[i])@.share_id) && r[i]@.entry
            == entries[r[i]@.share_id]
    &&& forall|id: Seq<char>| #[trigger]
        entries.dom().contains(id) ==> exists|i: int|
            0 <= i < r.len() && (#[trigger] r[i])@.share_id == id
    &&& forall|i: int, j: int|
        0 <= i < j < r.len() ==> (#[trigger] r[i])@.share_id != (#[trigger] r[j])@.share_id
}

/// The shares to retry, each once, in any order.
pub open spec fn are_retries_of(r: Seq<ShareId>, entries: Map<Seq<char>, EntryModel>) -> bool {
    &&& forall|i: int|
        0 <= i < r.len() ==> entries.dom().contains((#[trigger] r[i])@) && needs_retry(
            entries[r[i]@],
        )
    &&& forall|id: Seq<char>|
        #![trigger entries.dom().contains(id)]
        entries.dom().contains(id) && needs_retry(entries[id]) ==> exists|i: int|
            0 <= i < r.len() && (#[trigger] r[i])@ == id
    &&& forall|i: int, j: int|
        0 <= i < j < r.len() ==> (#[trigger] r[i])@ != (#[trigger] r[j])@
}

/// A share is retried if and only if it is failed or unmounted: one that is mounted
/// or being mounted is left alone.
pub proof fn law_who_is_retried(r: Seq<ShareId>, entries: Map<Seq<char>, EntryModel>, id: Seq<char>)
    requires
        are_retries_of(r, entries),
        entries.dom().contains(id),
    ensures
        entries[id].state == MountState::Failed || entries[id].state == MountState::Unmounted
            ==> exists|i: int| 0 <= i < r.len() && (#[trigger] r[i])@ == id,
        entries[id].state == MountState::Mounted || entries[id].state == MountState::Mounting
            ==> forall|i: int| 0 <= i < r.len() ==> (#[trigger] r[i])@ != id,
{
}

/// The envelopes of all entries tell each entry as it is, and exactly once.
pub proof fn law_every_entry_has_its_envelope(
    r: Seq<ShareStateEnvelope>,
    entries: Map<Seq<char>, EntryModel>,
    id: Seq<char>,
)
    requires
        are_envelopes_of(r, entries),
        entries.dom().contains(id),
    ensures
        exists|i: int|
            {
                &&& 0 <= i < r.len()
                &&& (#[trigger] r[i])@.share_id == id
                &&& r[i]@.entry == entries[id]
                &&& forall|j: int| 0 <= j < r.len() && j != i ==> (#[trigger] r[j])@.share_id != id
            },
{
    let i = choose|i: int| 0 <= i < r.len() && (#[trigger] r[i])@.share_id == id;
    assert(r[i]@.entry == entries[id]);
    assert forall|j: int| 0 <= j < r.len() && j != i implies (#[trigger] r[j])@.share_id != id by {
        if j < i {
            assert(r[j]@.share_id != r[i]@.share_id);
        } else {
            assert(r[i]@.share_id != r[j]@.share_id);
        }
    }
}

} // verus!
