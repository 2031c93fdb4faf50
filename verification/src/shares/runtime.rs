//! The network-shares runtime: configured shares, their live state, the
//! discovered hosts, and what is to be published about them.
//!
//! The runtime performs no work of its own. Where a verb has to save, mount or
//! unmount, the host does so between two calls; what the operator surface should
//! show afterwards is appended to the outbox.

use crate::json::opt_view;
use crate::shares::discovery::{
    copy_nas, nas_views, DiscoveredNas, DiscoverySweep, NasModel, DEFAULT_AVAHI_BROWSE_TIMEOUT_MS,
    DEFAULT_SMBCLIENT_TIMEOUT_MS,
};
use crate::shares::live_state::{
    are_envelopes_of, are_retries_of, configured_singleton_addressing,
    discovered_singleton_addressing, share_state_addressing, EntryModel, EnvelopeModel,
    ExternalAddressing, ShareStateEntry, ShareStateEnvelope, ShareStates,
    CONFIGURED_SUBJECT_SCHEME, DISCOVERED_SUBJECT_SCHEME, SHARE_STATE_SUBJECT_SCHEME,
    SINGLETON_ADDRESSING_VALUE,
};
use crate::shares::mount_args::{build_umount_args, umount_args};
use crate::shares::mounting::{
    begun, stepped, CommandOutput, MountAttempt, MountError,
    MountErrorModel, MountEvent, MountReport, MountStep, ReportModel, StepModel,
    DEFAULT_MOUNT_TIMEOUT_MS,
};
use crate::shares::records::{
    FsType, MountState, RecordModel, ShareEdits, ShareId, ShareRecord,
};
use crate::shares::state::{
    distinct_ids, has_id, is_first_with_id, records_of, NetworkSharesState, SharesStateError, StateModel,
};
use crate::text::{clone_opt, lossy_text, utf8_lossy, views};
use vstd::prelude::*;

verus! {

/// Cadence of the background remount, in milliseconds.
pub const DEFAULT_REMOUNT_CADENCE_MS: u64 = 300_000;

/// Cadence of the background discovery, in milliseconds.
pub const DEFAULT_DISCOVERY_CADENCE_MS: u64 = 300_000;

/// A copy of a record list.
pub fn copy_records(shares: &Vec<ShareRecord>) -> (r: Vec<ShareRecord>)
    ensures
        records_of(r@) == records_of(shares@),
{
    let mut r: Vec<ShareRecord> = Vec::new();
    let n: usize = shares.len();
    for i in 0..n
        invariant
            n == shares@.len(),
            r@.len() == i,
            forall|j: int| 0 <= j < i ==> r@[j]@ == shares@[j]@,
    {
        r.push(shares[i].clone());
    }
    assert(records_of(r@) =~= records_of(shares@));
    r
}

// ---------------------------------------------------------------------
// What is published
// ---------------------------------------------------------------------

/// Snapshot of the configured shares.
#[derive(Debug, PartialEq, Eq)]
pub struct ConfiguredSharesEnvelope {
    pub shares: Vec<ShareRecord>,
    /// When the snapshot was taken, in milliseconds of the epoch.
    pub last_update_at: u64,
}

/// Snapshot of the discovered hosts.
#[derive(Debug, PartialEq, Eq)]
pub struct DiscoveredNasEnvelope {
    pub nas: Vec<DiscoveredNas>,
    /// When the last refresh was completed, in milliseconds of the epoch; as long
    /// as none was, when the snapshot was taken.
    pub last_refresh_at: u64,
}

/// One change to the published subjects.
#[derive(Debug, PartialEq, Eq)]
pub enum Publication {
    Configured(ConfiguredSharesEnvelope),
    Discovered(DiscoveredNasEnvelope),
    /// A share's subject comes into being.
    Announce(ShareStateEnvelope),
    /// A share's subject changes.
    Update(ShareStateEnvelope),
    /// A share's subject goes away.
    Retract(ShareId),
}

/// What a [`Publication`] says.
pub enum PublicationModel {
    Configured(Seq<RecordModel>, u64),
    Discovered(Seq<NasModel>, u64),
    Announce(EnvelopeModel),
    Update(EnvelopeModel),
    Retract(Seq<char>),
}

impl View for Publication {
    type V = PublicationModel;

    open spec fn view(&self) -> PublicationModel {
        match *self {
            Publication::Configured(e) => PublicationModel::Configured(
                records_of(e.shares@),
                e.last_update_at,
            ),
            Publication::Discovered(e) => PublicationModel::Discovered(
                nas_views(e.nas@),
                e.last_refresh_at,
            ),
            Publication::Announce(e) => PublicationModel::Announce(e@),
            Publication::Update(e) => PublicationModel::Update(e@),
            Publication::Retract(id) => PublicationModel::Retract(id@),
        }
    }
}

/// Why a removed share's subject is retracted.
pub const RETRACTION_REASON: &'static str = "share removed";

/// The subject of a publication: scheme and value.
pub open spec fn subject_of(p: PublicationModel) -> (Seq<char>, Seq<char>) {
    match p {
        PublicationModel::Configured(_, _) => (
            CONFIGURED_SUBJECT_SCHEME@,
            SINGLETON_ADDRESSING_VALUE@,
        ),
        PublicationModel::Discovered(_, _) => (
            DISCOVERED_SUBJECT_SCHEME@,
            SINGLETON_ADDRESSING_VALUE@,
        ),
        PublicationModel::Announce(e) => (SHARE_STATE_SUBJECT_SCHEME@, e.share_id),
        PublicationModel::Update(e) => (SHARE_STATE_SUBJECT_SCHEME@, e.share_id),
        PublicationModel::Retract(id) => (SHARE_STATE_SUBJECT_SCHEME@, id),
    }
}

/// Arguments of the unmount of a share: lazy for CIFS, plain for NFS.
pub open spec fn unmount_of(m: RecordModel) -> Seq<Seq<char>> {
    umount_args(m.mount_root, m.fstype == FsType::Cifs)
}

impl Publication {
    /// Which subject the publication is about.
    pub fn addressing(&self) -> (r: ExternalAddressing)
        ensures
            (r.scheme@, r.value@) == subject_of(self@),
    {
        match self {
            Publication::Configured(_) => configured_singleton_addressing(),
            Publication::Discovered(_) => discovered_singleton_addressing(),
            Publication::Announce(e) => share_state_addressing(&e.share_id),
            Publication::Update(e) => share_state_addressing(&e.share_id),
            Publication::Retract(id) => share_state_addressing(id),
        }
    }
}

/// What publications say, in order.
pub open spec fn publications(v: Seq<Publication>) -> Seq<PublicationModel> {
    Seq::new(v.len(), |i: int| v[i]@)
}

// ---------------------------------------------------------------------
// The runtime
// ---------------------------------------------------------------------

/// Programs and deadlines.
#[derive(Debug, PartialEq, Eq)]
pub struct RuntimeSettings {
    pub mount_program: String,
    pub umount_program: String,
    pub mount_timeout_ms: u64,
    pub avahi_browse_program: String,
    pub avahi_browse_timeout_ms: u64,
    pub smbclient_program: String,
    pub smbclient_timeout_ms: u64,
}

/// The runtime.
pub struct NetworkSharesRuntime {
    pub state: NetworkSharesState,
    pub share_states: ShareStates,
    pub discovered: Vec<DiscoveredNas>,
    /// When the last refresh was completed, in milliseconds of the epoch.
    pub refreshed_at_ms: Option<u64>,
    pub outbox: Vec<Publication>,
    pub settings: RuntimeSettings,
}

/// What a [`NetworkSharesRuntime`] holds.
#[verifier::ext_equal]
pub struct RuntimeModel {
    pub state: StateModel,
    pub share_states: Map<Seq<char>, EntryModel>,
    pub discovered: Seq<NasModel>,
    pub refreshed_at_ms: Option<u64>,
    pub outbox: Seq<PublicationModel>,
    pub settings: RuntimeSettings,
}

impl View for NetworkSharesRuntime {
    type V = RuntimeModel;

    open spec fn view(&self) -> RuntimeModel {
        RuntimeModel {
            state: self.state@,
            share_states: self.share_states@,
            discovered: nas_views(self.discovered@),
            refreshed_at_ms: self.refreshed_at_ms,
            outbox: publications(self.outbox@),
            settings: self.settings,
        }
    }
}

/// The entry of a share that has only been configured.
pub open spec fn seeded(alias: Seq<char>, now_ms: u64) -> EntryModel {
    EntryModel {
        alias,
        state: MountState::Unmounted,
        reason: None,
        negotiated_vers: None,
        last_transition_at_ms: now_ms,
    }
}

/// One seeded entry per configured share; of shares with one identifier the last
/// counts.
pub open spec fn seeds(shares: Seq<RecordModel>, now_ms: u64) -> Map<Seq<char>, EntryModel>
    decreases shares.len(),
{
    if shares.len() == 0 {
        Map::empty()
    } else {
        seeds(shares.drop_last(), now_ms).insert(
            shares.last().share_id,
            seeded(shares.last().alias, now_ms),
        )
    }
}

/// Seeds the live state of every configured share.
pub fn seed_share_states(state: &NetworkSharesState, now_ms: u64) -> (r: ShareStates)
    ensures
        r.well_formed(),
        r@ == seeds(state@.shares, now_ms),
{
    let mut r = ShareStates::new();
    let n: usize = state.shares.len();
    for i in 0..n
        invariant
            n == state.shares@.len(),
            r.well_formed(),
            r@ == seeds(state@.shares.take(i as int), now_ms),
    {
        assert(state@.shares.take(i + 1).drop_last() =~= state@.shares.take(i as int));
        assert(state@.shares.take(i + 1).last() == state.shares@[i as int]@);
        r.set(state.shares[i].share_id.clone(), seed(state.shares[i].alias.clone(), now_ms));
    }
    assert(state@.shares.take(n as int) =~= state@.shares);
    r
}

fn seed(alias: String, now_ms: u64) -> (r: ShareStateEntry)
    ensures
        r@ == seeded(alias@, now_ms),
{
    ShareStateEntry {
        alias,
        state: MountState::Unmounted,
        reason: None,
        negotiated_vers: None,
        last_transition_at_ms: now_ms,
    }
}

impl RuntimeModel {
    /// With one more publication.
    pub open spec fn publishing(self, p: PublicationModel) -> RuntimeModel {
        RuntimeModel { outbox: self.outbox.push(p), ..self }
    }

    /// The entry of a share after it entered `state`.
    pub open spec fn entered(
        self,
        id: Seq<char>,
        state: MountState,
        reason: Option<Seq<char>>,
        vers: Option<Seq<char>>,
        now_ms: u64,
    ) -> EntryModel {
        EntryModel {
            alias: if self.share_states.dom().contains(id) {
                self.share_states[id].alias
            } else {
                Seq::empty()
            },
            state,
            reason,
            negotiated_vers: vers,
            last_transition_at_ms: now_ms,
        }
    }

    /// The runtime after a share entered `state`: its entry is replaced and
    /// published.
    pub open spec fn transitioned(
        self,
        id: Seq<char>,
        state: MountState,
        reason: Option<Seq<char>>,
        vers: Option<Seq<char>>,
        now_ms: u64,
    ) -> RuntimeModel {
        let entry = self.entered(id, state, reason, vers, now_ms);
        (RuntimeModel {
            share_states: self.share_states.insert(id, entry),
            ..self
        }).publishing(PublicationModel::Update(EnvelopeModel { share_id: id, entry }))
    }

    /// The runtime after a mount of `id` ended.
    pub open spec fn mount_ended(
        self,
        id: Seq<char>,
        outcome: Result<ReportModel, MountErrorModel>,
        now_ms: u64,
    ) -> RuntimeModel {
        match outcome {
            Ok(report) => self.transitioned(
                id,
                MountState::Mounted,
                None,
                report.negotiated_version,
                now_ms,
            ),
            Err(e) => self.transitioned(id, MountState::Failed, Some(e.message()), None, now_ms),
        }
    }

    /// The runtime after a new share was saved.
    pub open spec fn share_was_added(self, id: Seq<char>, alias: Seq<char>, now_ms: u64) -> RuntimeModel {
        (RuntimeModel {
            share_states: self.share_states.insert(id, seeded(alias, now_ms)),
            ..self
        }).publishing(
            PublicationModel::Announce(
                EnvelopeModel { share_id: id, entry: seeded(alias, now_ms) },
            ),
        ).publishing(self.configured(now_ms))
    }

    /// The runtime after an edited share was saved.
    pub open spec fn share_was_edited(self, id: Seq<char>, alias: Seq<char>, now_ms: u64) ->
        RuntimeModel {
        if self.share_states.dom().contains(id) {
            let entry = EntryModel { alias, ..self.share_states[id] };
            (RuntimeModel {
                share_states: self.share_states.insert(id, entry),
                ..self
            }).publishing(
                PublicationModel::Update(EnvelopeModel { share_id: id, entry }),
            ).publishing(self.configured(now_ms))
        } else {
            self.publishing(self.configured(now_ms))
        }
    }

    /// The runtime after a removal was saved.
    pub open spec fn share_was_removed(self, id: Seq<char>, now_ms: u64) -> RuntimeModel {
        (RuntimeModel {
            share_states: self.share_states.remove(id),
            ..self
        }).publishing(PublicationModel::Retract(id)).publishing(self.configured(now_ms))
    }

    /// The runtime after an unmount of `id` ended, and what came of it.
    pub open spec fn unmount_ended(
        self,
        id: Seq<char>,
        result: Result<CommandOutput, MountError>,
        now_ms: u64,
    ) -> (RuntimeModel, Result<(), MountErrorModel>) {
        match result {
            Err(e) => (self, Err(e@)),
            Ok(out) => if out.exit_code == Some(0i32) {
                (self.transitioned(id, MountState::Unmounted, None, None, now_ms), Ok(()))
            } else {
                let e = MountErrorModel::MountFailed {
                    id,
                    exit_code: out.exit_code,
                    stderr: utf8_lossy(out.stderr@),
                };
                (
                    self.transitioned(id, MountState::Failed, Some(e.message()), None, now_ms),
                    Err(e),
                )
            },
        }
    }

    /// The runtime after a sweep found `found`.
    pub open spec fn discovery_ended(self, found: Seq<NasModel>, now_ms: u64) -> RuntimeModel {
        (RuntimeModel {
            discovered: found,
            refreshed_at_ms: Some(now_ms),
            ..self
        }).publishing(PublicationModel::Discovered(found, now_ms))
    }

    /// The configured shares as published at `now_ms`.
    pub open spec fn configured(self, now_ms: u64) -> PublicationModel {
        PublicationModel::Configured(self.state.shares, now_ms)
    }
}

impl NetworkSharesRuntime {
    /// What every operation keeps.
    pub open spec fn well_formed(&self) -> bool {
        self.share_states.well_formed()
    }

    /// A runtime over the given shares, all of them unmounted.
    pub fn with_settings(state: NetworkSharesState, settings: RuntimeSettings, now_ms: u64) -> (r:
        NetworkSharesRuntime)
        ensures
            r.well_formed(),
            r@ == (RuntimeModel {
                state: state@,
                share_states: seeds(state@.shares, now_ms),
                discovered: Seq::empty(),
                refreshed_at_ms: None,
                outbox: Seq::empty(),
                settings,
            }),
    {
        let share_states = seed_share_states(&state, now_ms);
        let r = NetworkSharesRuntime {
            state,
            share_states,
            discovered: Vec::new(),
            refreshed_at_ms: None,
            outbox: Vec::new(),
            settings,
        };
        assert(r@.discovered =~= Seq::<NasModel>::empty());
        assert(r@.outbox =~= Seq::<PublicationModel>::empty());
        r
    }

    /// A runtime over the given shares with default programs and deadlines.
    pub fn open(state: NetworkSharesState, now_ms: u64) -> (r: NetworkSharesRuntime)
        ensures
            r.well_formed(),
            r.settings.is_default(),
            r@ == (RuntimeModel {
                state: state@,
                share_states: seeds(state@.shares, now_ms),
                discovered: Seq::empty(),
                refreshed_at_ms: None,
                outbox: Seq::empty(),
                settings: r.settings,
            }),
    {
        NetworkSharesRuntime::with_settings(state, RuntimeSettings::defaults(), now_ms)
    }

    /// Starts a builder over the given shares.
    pub fn builder(state: NetworkSharesState) -> (r: NetworkSharesRuntimeBuilder)
        ensures
            r == (NetworkSharesRuntimeBuilder {
                state,
                mount_program: None,
                umount_program: None,
                mount_timeout_ms: None,
                avahi_browse_program: None,
                avahi_browse_timeout_ms: None,
                smbclient_program: None,
                smbclient_timeout_ms: None,
            }),
    {
        NetworkSharesRuntimeBuilder {
            state,
            mount_program: None,
            umount_program: None,
            mount_timeout_ms: None,
            avahi_browse_program: None,
            avahi_browse_timeout_ms: None,
            smbclient_program: None,
            smbclient_timeout_ms: None,
        }
    }

    fn publish(&mut self, p: Publication)
        ensures
            final(self)@ == old(self)@.publishing(p@),
            final(self).well_formed() == old(self).well_formed(),
    {
        let ghost before = self.outbox@;
        self.outbox.push(p);
        assert(publications(self.outbox@) =~= publications(before).push(p@));
    }

    /// Takes what is to be published, oldest first.
    pub fn take_outbox(&mut self) -> (r: Vec<Publication>)
        ensures
            publications(r@) == old(self)@.outbox,
            final(self)@ == (RuntimeModel { outbox: Seq::empty(), ..old(self)@ }),
            final(self).well_formed() == old(self).well_formed(),
    {
        let mut taken: Vec<Publication> = Vec::new();
        std::mem::swap(&mut taken, &mut self.outbox);
        assert(self@.outbox =~= Seq::<PublicationModel>::empty());
        taken
    }

    /// All configured shares, in creation order.
    pub fn list_configured(&self) -> (r: Vec<ShareRecord>)
        ensures
            records_of(r@) == self@.state.shares,
    {
        copy_records(&self.state.shares)
    }

    /// One configured share.
    pub fn get_share(&self, id: &ShareId) -> (r: Option<ShareRecord>)
        ensures
            match r {
                Some(record) => exists|i: int|
                    is_first_with_id(self@.state.shares, id@, i) && record == self.state.shares@[i],
                None => !has_id(self@.state.shares, id@),
            },
    {
        match self.state.find(id) {
            Some(record) => Some(record.clone()),
            None => None,
        }
    }

    /// The hosts found by the last sweep.
    pub fn list_discovered(&self) -> (r: Vec<DiscoveredNas>)
        ensures
            nas_views(r@) == self@.discovered,
    {
        copy_nas(&self.discovered)
    }

    /// Snapshot of the configured shares.
    pub fn configured_envelope(&self, now_ms: u64) -> (r: ConfiguredSharesEnvelope)
        ensures
            records_of(r.shares@) == self@.state.shares,
            r.last_update_at == now_ms,
    {
        ConfiguredSharesEnvelope { shares: copy_records(&self.state.shares), last_update_at: now_ms }
    }

    /// Snapshot of the discovered hosts.
    pub fn discovered_envelope(&self, now_ms: u64) -> (r: DiscoveredNasEnvelope)
        ensures
            nas_views(r.nas@) == self@.discovered,
            r.last_refresh_at == or_number(self@.refreshed_at_ms, now_ms),
    {
        DiscoveredNasEnvelope {
            nas: copy_nas(&self.discovered),
            last_refresh_at: number_or(self.refreshed_at_ms, now_ms),
        }
    }

    /// Snapshot of one share's state.
    pub fn share_state_envelope(&self, id: &ShareId) -> (r: Option<ShareStateEnvelope>)
        requires
            self.well_formed(),
        ensures
            match r {
                Some(e) => self@.share_states.dom().contains(id@) && e@ == (EnvelopeModel {
                    share_id: id@,
                    entry: self@.share_states[id@],
                }),
                None => !self@.share_states.dom().contains(id@),
            },
    {
        match self.share_states.get(id) {
            Some(e) => Some(e.to_envelope(id)),
            None => None,
        }
    }

    /// Puts a share into `state` and publishes that.
    pub fn set_share_state(
        &mut self,
        id: &ShareId,
        state: MountState,
        reason: Option<String>,
        negotiated_vers: Option<String>,
        now_ms: u64,
    )
        requires
            old(self).well_formed(),
        ensures
            final(self).well_formed(),
            final(self)@ == old(self)@.transitioned(
                id@,
                state,
                opt_view(reason),
                opt_view(negotiated_vers),
                now_ms,
            ),
    {
        let alias = match self.share_states.get(id) {
            Some(e) => e.alias.clone(),
            None => String::new(),
        };
        let entry = ShareStateEntry {
            alias,
            state,
            reason,
            negotiated_vers,
            last_transition_at_ms: now_ms,
        };
        let envelope = entry.to_envelope(id);
        self.share_states.set(id.clone(), entry);
        self.publish(Publication::Update(envelope));
    }

    /// Accepts a new share. Once the state is saved, [`Self::share_added`] is due.
    pub fn add_share(&mut self, record: ShareRecord) -> (r: Result<ShareId, SharesStateError>)
        ensures
            final(self).well_formed() == old(self).well_formed(),
            if has_id(old(self)@.state.shares, record@.share_id) {
                &&& r == Err::<ShareId, SharesStateError>(
                    SharesStateError::DuplicateShareId { id: record.share_id },
                )
                &&& final(self)@ == old(self)@
            } else {
                &&& r == Ok::<ShareId, SharesStateError>(record.share_id)
                &&& final(self)@ == (RuntimeModel {
                    state: StateModel {
                        shares: old(self)@.state.shares.push(record@),
                        ..old(self)@.state
                    },
                    ..old(self)@
                })
            },
    {
        let id = record.share_id.clone();
        match self.state.insert(record) {
            Ok(()) => Ok(id),
            Err(e) => Err(e),
        }
    }

    /// A share has been added and saved: its state is seeded and announced, and
    /// the configured shares are published.
    pub fn share_added(&mut self, id: &ShareId, alias: &str, now_ms: u64)
        requires
            old(self).well_formed(),
        ensures
            final(self).well_formed(),
            final(self)@ == old(self)@.share_was_added(id@, alias@, now_ms),
    {
        let entry = seed(alias.to_owned(), now_ms);
        let envelope = entry.to_envelope(id);
        self.share_states.set(id.clone(), entry);
        self.publish(Publication::Announce(envelope));
        let configured = self.configured_envelope(now_ms);
        self.publish(Publication::Configured(configured));
    }

    /// Edits a share. Returns whether anything changed; if so, and once the state
    /// is saved, [`Self::share_edited`] is due.
    pub fn edit_share(&mut self, id: &ShareId, edits: ShareEdits) -> (r: Result<
        bool,
        SharesStateError,
    >)
        ensures
            final(self).well_formed() == old(self).well_formed(),
            match r {
                Ok(changed) => exists|i: int|
                    {
                        &&& is_first_with_id(old(self)@.state.shares, id@, i)
                        &&& final(self)@ == (RuntimeModel {
                            state: StateModel {
                                shares: old(self)@.state.shares.update(
                                    i,
                                    edits.applied(old(self)@.state.shares[i]),
                                ),
                                ..old(self)@.state
                            },
                            ..old(self)@
                        })
                        &&& changed == (edits.applied(old(self)@.state.shares[i])
                            != old(self)@.state.shares[i])
                    },
                Err(e) => {
                    &&& !has_id(old(self)@.state.shares, id@)
                    &&& e == (SharesStateError::ShareNotFound { id: *id })
                    &&& final(self)@ == old(self)@
                },
            },
    {
        let changed = match self.state.find_mut(id) {
            Some(record) => edits.apply_to(record),
            None => {
                return Err(SharesStateError::ShareNotFound { id: id.clone() });
            },
        };
        proof {
            let i = choose|i: int|
                is_first_with_id(old(self)@.state.shares, id@, i) && self.state.shares@.len() == old(
                    self,
                ).state.shares@.len() && self.state.shares@[i]@ == edits.applied(
                    old(self)@.state.shares[i],
                ) && (forall|j: int|
                    0 <= j < self.state.shares@.len() && j != i ==> self.state.shares@[j] == old(
                        self,
                    ).state.shares@[j]);
            assert(is_first_with_id(old(self)@.state.shares, id@, i));
            assert(self@.state.shares =~= old(self)@.state.shares.update(
                i,
                edits.applied(old(self)@.state.shares[i]),
            ));
        }
        Ok(changed)
    }

    /// A share has been edited and saved: its alias is carried over and published
    /// where it has a state, and the configured shares are published.
    pub fn share_edited(&mut self, id: &ShareId, alias: &str, now_ms: u64)
        requires
            old(self).well_formed(),
        ensures
            final(self).well_formed(),
            final(self)@ == old(self)@.share_was_edited(id@, alias@, now_ms),
    {
        let renamed = match self.share_states.get(id) {
            Some(e) => Some(
                ShareStateEntry {
                    alias: alias.to_owned(),
                    state: e.state,
                    reason: clone_opt(&e.reason),
                    negotiated_vers: clone_opt(&e.negotiated_vers),
                    last_transition_at_ms: e.last_transition_at_ms,
                },
            ),
            None => None,
        };
        if let Some(entry) = renamed {
            let envelope = entry.to_envelope(id);
            self.share_states.set(id.clone(), entry);
            self.publish(Publication::Update(envelope));
        }
        let configured = self.configured_envelope(now_ms);
        self.publish(Publication::Configured(configured));
    }

    /// Removes a share. Once the state is saved, [`Self::share_removed`] is due.
    pub fn remove_share(&mut self, id: &ShareId) -> (r: Result<ShareRecord, SharesStateError>)
        ensures
            final(self).well_formed() == old(self).well_formed(),
            match r {
                Ok(record) => exists|i: int|
                    {
                        &&& is_first_with_id(old(self)@.state.shares, id@, i)
                        &&& record == old(self).state.shares@[i]
                        &&& final(self)@ == (RuntimeModel {
                            state: StateModel {
                                shares: old(self)@.state.shares.remove(i),
                                ..old(self)@.state
                            },
                            ..old(self)@
                        })
                    },
                Err(e) => {
                    &&& !has_id(old(self)@.state.shares, id@)
                    &&& e == (SharesStateError::ShareNotFound { id: *id })
                    &&& final(self)@ == old(self)@
                },
            },
    {
        self.state.remove(id)
    }

    /// A share has been removed and saved: its state is dropped and retracted,
    /// and the configured shares are published.
    pub fn share_removed(&mut self, id: &ShareId, now_ms: u64)
        requires
            old(self).well_formed(),
        ensures
            final(self).well_formed(),
            final(self)@ == old(self)@.share_was_removed(id@, now_ms),
    {
        self.share_states.remove(id);
        self.publish(Publication::Retract(id.clone()));
        let configured = self.configured_envelope(now_ms);
        self.publish(Publication::Configured(configured));
    }

    /// Starts mounting a share: it is `Mounting` from now on.
    pub fn begin_mount(&mut self, id: &ShareId, now_ms: u64) -> (r: Result<
        (MountAttempt, MountStep),
        MountError,
    >)
        requires
            old(self).well_formed(),
        ensures
            final(self).well_formed(),
            match r {
                Ok((attempt, step)) => {
                    &&& exists|i: int|
                        is_first_with_id(old(self)@.state.shares, id@, i) && (attempt@, step@)
                            == begun(old(self)@.state.shares[i], now_ms)
                    &&& attempt@.well_formed()
                    &&& final(self)@ == old(self)@.transitioned(
                        id@,
                        MountState::Mounting,
                        None,
                        None,
                        now_ms,
                    )
                },
                Err(e) => {
                    &&& !has_id(old(self)@.state.shares, id@)
                    &&& e@ == (MountErrorModel::ShareNotFound { id: id@ })
                    &&& final(self)@ == old(self)@
                },
            },
    {
        let record = match self.state.find(id) {
            Some(record) => record.clone(),
            None => {
                return Err(MountError::ShareNotFound { id: id.clone() });
            },
        };
        proof {
            let i = choose|i: int|
                is_first_with_id(self@.state.shares, id@, i) && record == self.state.shares@[i];
            assert(is_first_with_id(old(self)@.state.shares, id@, i));
            assert(record@ == old(self)@.state.shares[i]);
        }
        self.set_share_state(id, MountState::Mounting, None, None, now_ms);
        Ok(MountAttempt::begin(record, now_ms))
    }

    /// Carries a mount on. When it ends, the share is `Mounted` or `Failed`.
    pub fn continue_mount(
        &mut self,
        id: &ShareId,
        attempt: &mut MountAttempt,
        event: MountEvent,
        now_ms: u64,
    ) -> (r: MountStep)
        requires
            old(self).well_formed(),
            old(attempt)@.well_formed(),
            old(attempt)@.expects(event),
        ensures
            final(self).well_formed(),
            final(attempt)@.well_formed(),
            ({
                let next = stepped(old(attempt)@, old(self)@.state, event, now_ms);
                let m = RuntimeModel { state: next.1, ..old(self)@ };
                &&& final(attempt)@ == next.0
                &&& r@ == next.2
                &&& final(self)@ == (match next.2 {
                    StepModel::Done(outcome) => m.mount_ended(id@, outcome, now_ms),
                    _ => m,
                })
            }),
    {
        let step = attempt.step(&mut self.state, event, now_ms);
        match &step {
            MountStep::Done(Ok(report)) => {
                let version = clone_opt(&report.negotiated_version);
                self.set_share_state(id, MountState::Mounted, None, version, now_ms);
            },
            MountStep::Done(Err(e)) => {
                let reason = Some(e.to_text());
                self.set_share_state(id, MountState::Failed, reason, None, now_ms);
            },
            _ => {},
        }
        step
    }

    /// Arguments of the unmount of a share: lazy for CIFS, plain for NFS.
    pub fn begin_unmount(&self, id: &ShareId) -> (r: Result<Vec<String>, MountError>)
        ensures
            match r {
                Ok(args) => exists|i: int|
                    is_first_with_id(self@.state.shares, id@, i) && views(args@) == unmount_of(
                        self@.state.shares[i],
                    ),
                Err(e) => !has_id(self@.state.shares, id@) && e@ == (
                MountErrorModel::ShareNotFound { id: id@ }),
            },
    {
        match self.state.find(id) {
            Some(record) => {
                proof {
                    let i = choose|i: int|
                        is_first_with_id(self@.state.shares, id@, i) && *record
                            == self.state.shares@[i];
                    assert(is_first_with_id(self@.state.shares, id@, i));
                    assert(record@ == self@.state.shares[i]);
                }
                Ok(build_umount_args(record.mount_root.as_str(), record.fstype == FsType::Cifs))
            },
            None => Err(MountError::ShareNotFound { id: id.clone() }),
        }
    }

    /// Takes in what came of the unmount. A command that could not be run changes
    /// nothing; one that failed leaves the share `Failed`.
    pub fn finish_unmount(
        &mut self,
        id: &ShareId,
        result: Result<CommandOutput, MountError>,
        now_ms: u64,
    ) -> (r: Result<(), MountError>)
        requires
            old(self).well_formed(),
        ensures
            final(self).well_formed(),
            final(self)@ == old(self)@.unmount_ended(id@, result, now_ms).0,
            match old(self)@.unmount_ended(id@, result, now_ms).1 {
                Ok(()) => r is Ok,
                Err(e) => r is Err && r->Err_0@ == e,
            },
    {
        let out = match result {
            Err(e) => {
                return Err(e);
            },
            Ok(o) => o,
        };
        let fine = match out.exit_code {
            Some(c) => c == 0,
            None => false,
        };
        if fine {
            self.set_share_state(id, MountState::Unmounted, None, None, now_ms);
            Ok(())
        } else {
            let e = MountError::MountFailed {
                id: id.clone(),
                exit_code: out.exit_code,
                stderr: lossy_text(out.stderr.as_slice()),
            };
            let reason = Some(e.to_text());
            self.set_share_state(id, MountState::Failed, reason, None, now_ms);
            Err(e)
        }
    }

    /// Adopts the result of a sweep that has listed all its hosts, and publishes
    /// it.
    pub fn finish_discovery(&mut self, sweep: DiscoverySweep, now_ms: u64) -> (r: Vec<DiscoveredNas>)
        requires
            sweep@.found.len() == sweep@.hosts.len(),
        ensures
            final(self).well_formed() == old(self).well_formed(),
            nas_views(r@) == sweep@.found,
            final(self)@ == old(self)@.discovery_ended(sweep@.found, now_ms),
    {
        self.discovered = sweep.into_found();
        self.refreshed_at_ms = Some(now_ms);
        let envelope = self.discovered_envelope(now_ms);
        self.publish(Publication::Discovered(envelope));
        copy_nas(&self.discovered)
    }

    /// The shares whose mount is to be tried again: those failed or unmounted.
    pub fn remount_ids(&self) -> (r: Vec<ShareId>)
        requires
            self.well_formed(),
        ensures
            are_retries_of(r@, self@.share_states),
    {
        self.share_states.retry_candidates()
    }

    /// What is announced when a publisher is attached: the configured shares, the
    /// discovered hosts, and each share's state.
    pub fn initial_announcements(&self, now_ms: u64) -> (r: (
        ConfiguredSharesEnvelope,
        DiscoveredNasEnvelope,
        Vec<ShareStateEnvelope>,
    ))
        requires
            self.well_formed(),
        ensures
            records_of(r.0.shares@) == self@.state.shares,
            r.0.last_update_at == now_ms,
            nas_views(r.1.nas@) == self@.discovered,
            r.1.last_refresh_at == or_number(self@.refreshed_at_ms, now_ms),
            are_envelopes_of(r.2@, self@.share_states),
    {
        (
            self.configured_envelope(now_ms),
            self.discovered_envelope(now_ms),
            self.share_states.envelopes(),
        )
    }

    /// The shares to mount at boot, in creation order.
    pub fn boot_mount_ids(&self) -> (r: Vec<ShareId>)
        ensures
            r@.len() == self@.state.shares.len(),
            forall|i: int| 0 <= i < r@.len() ==> (#[trigger] r@[i])@ == self@.state.shares[i].share_id,
    {
        let mut r: Vec<ShareId> = Vec::new();
        let n: usize = self.state.shares.len();
        for i in 0..n
            invariant
                n == self.state.shares@.len(),
                r@.len() == i,
                forall|j: int|
                    0 <= j < i ==> (#[trigger] r@[j])@ == self.state.shares@[j].share_id@,
        {
            r.push(self.state.shares[i].share_id.clone());
        }
        r
    }
}

impl RuntimeSettings {
    /// Whether every program and deadline has its default.
    pub open spec fn is_default(&self) -> bool {
        &&& self.mount_program@ == "/bin/mount"@
        &&& self.umount_program@ == "/bin/umount"@
        &&& self.mount_timeout_ms == DEFAULT_MOUNT_TIMEOUT_MS
        &&& self.avahi_browse_program@ == "/usr/bin/avahi-browse"@
        &&& self.avahi_browse_timeout_ms == DEFAULT_AVAHI_BROWSE_TIMEOUT_MS
        &&& self.smbclient_program@ == "/usr/bin/smbclient"@
        &&& self.smbclient_timeout_ms == DEFAULT_SMBCLIENT_TIMEOUT_MS
    }

    /// Default programs and deadlines.
    pub fn defaults() -> (r: RuntimeSettings)
        ensures
            r.is_default(),
    {
        RuntimeSettings {
            mount_program: "/bin/mount".to_owned(),
            umount_program: "/bin/umount".to_owned(),
            mount_timeout_ms: DEFAULT_MOUNT_TIMEOUT_MS,
            avahi_browse_program: "/usr/bin/avahi-browse".to_owned(),
            avahi_browse_timeout_ms: DEFAULT_AVAHI_BROWSE_TIMEOUT_MS,
            smbclient_program: "/usr/bin/smbclient".to_owned(),
            smbclient_timeout_ms: DEFAULT_SMBCLIENT_TIMEOUT_MS,
        }
    }
}

/// Builds a runtime with other programs or deadlines than the default ones.
pub struct NetworkSharesRuntimeBuilder {
    pub state: NetworkSharesState,
    pub mount_program: Option<String>,
    pub umount_program: Option<String>,
    pub mount_timeout_ms: Option<u64>,
    pub avahi_browse_program: Option<String>,
    pub avahi_browse_timeout_ms: Option<u64>,
    pub smbclient_program: Option<String>,
    pub smbclient_timeout_ms: Option<u64>,
}

/// An override's text, or the default.
pub open spec fn or_default(o: Option<String>, default: Seq<char>) -> Seq<char> {
    match o {
        Some(s) => s@,
        None => default,
    }
}

/// An override, or the default.
pub open spec fn or_number(o: Option<u64>, default: u64) -> u64 {
    match o {
        Some(n) => n,
        None => default,
    }
}

fn text_or(o: Option<String>, default: &str) -> (r: String)
    ensures
        r@ == or_default(o, default@),
{
    match o {
        Some(s) => s,
        None => default.to_owned(),
    }
}

fn number_or(o: Option<u64>, default: u64) -> (r: u64)
    ensures
        r == or_number(o, default),
{
    match o {
        Some(n) => n,
        None => default,
    }
}

impl NetworkSharesRuntimeBuilder {
    /// Overrides the mount program.
    pub fn with_mount_program(self, program: String) -> (r: Self)
        ensures
            r == (NetworkSharesRuntimeBuilder { mount_program: Some(program), ..self }),
    {
        let mut b = self;
        b.mount_program = Some(program);
        b
    }

    /// Overrides the unmount program.
    pub fn with_umount_program(self, program: String) -> (r: Self)
        ensures
            r == (NetworkSharesRuntimeBuilder { umount_program: Some(program), ..self }),
    {
        let mut b = self;
        b.umount_program = Some(program);
        b
    }

    /// Overrides the service browser.
    pub fn with_avahi_browse_program(self, program: String) -> (r: Self)
        ensures
            r == (NetworkSharesRuntimeBuilder { avahi_browse_program: Some(program), ..self }),
    {
        let mut b = self;
        b.avahi_browse_program = Some(program);
        b
    }

    /// Overrides the deadline of the service browser.
    pub fn with_avahi_browse_timeout_ms(self, timeout_ms: u64) -> (r: Self)
        ensures
            r == (NetworkSharesRuntimeBuilder {
                avahi_browse_timeout_ms: Some(timeout_ms),
                ..self
            }),
    {
        let mut b = self;
        b.avahi_browse_timeout_ms = Some(timeout_ms);
        b
    }

    /// Overrides the share lister.
    pub fn with_smbclient_program(self, program: String) -> (r: Self)
        ensures
            r == (NetworkSharesRuntimeBuilder { smbclient_program: Some(program), ..self }),
    {
        let mut b = self;
        b.smbclient_program = Some(program);
        b
    }

    /// Overrides the deadline of the share lister.
    pub fn with_smbclient_timeout_ms(self, timeout_ms: u64) -> (r: Self)
        ensures
            r == (NetworkSharesRuntimeBuilder { smbclient_timeout_ms: Some(timeout_ms), ..self }),
    {
        let mut b = self;
        b.smbclient_timeout_ms = Some(timeout_ms);
        b
    }

    /// Overrides the deadline of a mount attempt.
    pub fn with_mount_timeout_ms(self, timeout_ms: u64) -> (r: Self)
        ensures
            r == (NetworkSharesRuntimeBuilder { mount_timeout_ms: Some(timeout_ms), ..self }),
    {
        let mut b = self;
        b.mount_timeout_ms = Some(timeout_ms);
        b
    }

    /// Finishes the runtime.
    pub fn build(self, now_ms: u64) -> (r: NetworkSharesRuntime)
        ensures
            r.well_formed(),
            r@ == (RuntimeModel {
                state: self.state@,
                share_states: seeds(self.state@.shares, now_ms),
                discovered: Seq::empty(),
                refreshed_at_ms: None,
                outbox: Seq::empty(),
                settings: r.settings,
            }),
            r.settings.mount_program@ == or_default(self.mount_program, "/bin/mount"@),
            r.settings.umount_program@ == or_default(self.umount_program, "/bin/umount"@),
            r.settings.mount_timeout_ms == or_number(
                self.mount_timeout_ms,
                DEFAULT_MOUNT_TIMEOUT_MS,
            ),
            r.settings.avahi_browse_program@ == or_default(
                self.avahi_browse_program,
                "/usr/bin/avahi-browse"@,
            ),
            r.settings.avahi_browse_timeout_ms == or_number(
                self.avahi_browse_timeout_ms,
                DEFAULT_AVAHI_BROWSE_TIMEOUT_MS,
            ),
            r.settings.smbclient_program@ == or_default(
                self.smbclient_program,
                "/usr/bin/smbclient"@,
            ),
            r.settings.smbclient_timeout_ms == or_number(
                self.smbclient_timeout_ms,
                DEFAULT_SMBCLIENT_TIMEOUT_MS,
            ),
    {
        let settings = RuntimeSettings {
            mount_program: text_or(self.mount_program, "/bin/mount"),
            umount_program: text_or(self.umount_program, "/bin/umount"),
            mount_timeout_ms: number_or(self.mount_timeout_ms, DEFAULT_MOUNT_TIMEOUT_MS),
            avahi_browse_program: text_or(self.avahi_browse_program, "/usr/bin/avahi-browse"),
            avahi_browse_timeout_ms: number_or(
                self.avahi_browse_timeout_ms,
                DEFAULT_AVAHI_BROWSE_TIMEOUT_MS,
            ),
            smbclient_program: text_or(self.smbclient_program, "/usr/bin/smbclient"),
            smbclient_timeout_ms: number_or(
                self.smbclient_timeout_ms,
                DEFAULT_SMBCLIENT_TIMEOUT_MS,
            ),
        };
        NetworkSharesRuntime::with_settings(self.state, settings, now_ms)
    }
}

// ---------------------------------------------------------------------
// Boot
// ---------------------------------------------------------------------

/// What came of mounting one share at boot.
pub struct BootMountOutcome {
    pub share_id: ShareId,
    pub result: Result<MountReport, MountError>,
}

impl BootMountOutcome {
    /// Whether the mount succeeded.
    pub fn is_ok(&self) -> (r: bool)
        ensures
            r == (self.result is Ok),
    {
        self.result.is_ok()
    }
}

/// What came of mounting all shares at boot.
pub struct BootMountReport {
    /// One outcome per configured share, in order.
    pub outcomes: Vec<BootMountOutcome>,
}

/// How many outcomes are successes.
pub open spec fn successes(outcomes: Seq<BootMountOutcome>) -> nat
    decreases outcomes.len(),
{
    if outcomes.len() == 0 {
        0
    } else {
        successes(outcomes.drop_last()) + if outcomes.last().result is Ok {
            1nat
        } else {
            0nat
        }
    }
}

impl BootMountReport {
    /// How many shares were mounted.
    pub fn success_count(&self) -> (r: usize)
        ensures
            r == successes(self.outcomes@),
            r <= self.outcomes@.len(),
    {
        let mut r: usize = 0;
        let n: usize = self.outcomes.len();
        for i in 0..n
            invariant
                n == self.outcomes@.len(),
                r == successes(self.outcomes@.take(i as int)),
                r <= i,
        {
            assert(self.outcomes@.take(i + 1).drop_last() =~= self.outcomes@.take(i as int));
            if self.outcomes[i].is_ok() {
                r = r + 1;
            }
        }
        assert(self.outcomes@.take(n as int) =~= self.outcomes@);
        r
    }

    /// How many shares were not mounted.
    pub fn failure_count(&self) -> (r: usize)
        ensures
            r == self.outcomes@.len() - successes(self.outcomes@),
    {
        self.outcomes.len() - self.success_count()
    }
}

// ---------------------------------------------------------------------
// Laws
// ---------------------------------------------------------------------

/// Every transition is shown as it is: the entry that the runtime keeps is the
/// one that is published last, under the share's identifier, and no other share
/// is touched.
pub proof fn law_transitions_are_published(
    m: RuntimeModel,
    id: Seq<char>,
    state: MountState,
    reason: Option<Seq<char>>,
    vers: Option<Seq<char>>,
    now_ms: u64,
)
    ensures
        ({
            let after = m.transitioned(id, state, reason, vers, now_ms);
            &&& after.share_states.dom().contains(id)
            &&& after.share_states[id].state == state
            &&& after.share_states[id].reason == reason
            &&& after.share_states[id].negotiated_vers == vers
            &&& m.share_states.dom().contains(id) ==> after.share_states[id].alias
                == m.share_states[id].alias
            &&& after.share_states[id].last_transition_at_ms == now_ms
            &&& after.outbox.len() == m.outbox.len() + 1
            &&& after.outbox.last() == PublicationModel::Update(
                EnvelopeModel { share_id: id, entry: after.share_states[id] },
            )
            &&& forall|other: Seq<char>|
                other != id && m.share_states.dom().contains(other)
                    ==> after.share_states.dom().contains(other)
                    && #[trigger] after.share_states[other] == m.share_states[other]
            &&& after.state == m.state && after.discovered == m.discovered
        }),
{
}

/// A mount that ended leaves its share mounted, with the negotiated version, or
/// failed, with the reason; never in between.
pub proof fn law_ended_mounts_settle(
    m: RuntimeModel,
    id: Seq<char>,
    outcome: Result<ReportModel, MountErrorModel>,
    now_ms: u64,
)
    ensures
        ({
            let entry = m.mount_ended(id, outcome, now_ms).share_states[id];
            match outcome {
                Ok(report) => entry.state == MountState::Mounted && entry.reason is None
                    && entry.negotiated_vers == report.negotiated_version,
                Err(e) => entry.state == MountState::Failed && entry.reason == Some(e.message())
                    && entry.negotiated_vers is None,
            }
        }),
{
}

/// The live states of a fresh runtime are those of its configured shares, all of
/// them unmounted.
pub proof fn law_fresh_states_are_unmounted(shares: Seq<RecordModel>, now_ms: u64, id: Seq<char>)
    ensures
        seeds(shares, now_ms).dom().contains(id) == has_id(shares, id),
        seeds(shares, now_ms).dom().contains(id) ==> seeds(shares, now_ms)[id].state
            == MountState::Unmounted && seeds(shares, now_ms)[id].last_transition_at_ms == now_ms,
    decreases shares.len(),
{
    if shares.len() > 0 {
        let rest = shares.drop_last();
        law_fresh_states_are_unmounted(rest, now_ms, id);
        if has_id(rest, id) {
            let i = choose|i: int| 0 <= i < rest.len() && (#[trigger] rest[i]).share_id == id;
            assert(shares[i].share_id == id);
        }
        if has_id(shares, id) {
            let i = choose|i: int| 0 <= i < shares.len() && (#[trigger] shares[i]).share_id == id;
            if i < rest.len() {
                assert(rest[i].share_id == id);
            }
        }
        if shares.last().share_id == id {
            assert(shares[shares.len() - 1].share_id == id);
        }
    }
}

/// The live state of a configured share bears the share's own alias.
pub proof fn law_fresh_states_bear_the_alias(shares: Seq<RecordModel>, now_ms: u64, k: int)
    requires
        0 <= k < shares.len(),
        distinct_ids(shares),
    ensures
        seeds(shares, now_ms)[shares[k].share_id].alias == shares[k].alias,
        seeds(shares, now_ms)[shares[k].share_id].reason is None,
        seeds(shares, now_ms)[shares[k].share_id].negotiated_vers is None,
    decreases shares.len(),
{
    let rest = shares.drop_last();
    if k < rest.len() {
        assert forall|i: int, j: int| 0 <= i < j < rest.len() implies (
        #[trigger] rest[i]).share_id != (#[trigger] rest[j]).share_id by {
            assert(shares[i].share_id != shares[j].share_id);
        }
        law_fresh_states_bear_the_alias(rest, now_ms, k);
        assert(shares[k].share_id != shares[shares.len() - 1].share_id);
    }
}

/// A share that was added is shown as unmounted under its alias, announced before
/// the list of configured shares that holds it; no other share is touched.
pub proof fn law_added_shares_are_announced(
    m: RuntimeModel,
    id: Seq<char>,
    alias: Seq<char>,
    now_ms: u64,
)
    ensures
        ({
            let after = m.share_was_added(id, alias, now_ms);
            let n = m.outbox.len() as int;
            &&& after.share_states.dom().contains(id)
            &&& after.share_states[id].alias == alias
            &&& after.share_states[id].state == MountState::Unmounted
            &&& after.share_states[id].reason is None
            &&& after.share_states[id].last_transition_at_ms == now_ms
            &&& after.outbox.len() == n + 2
            &&& after.outbox[n] == PublicationModel::Announce(
                EnvelopeModel { share_id: id, entry: after.share_states[id] },
            )
            &&& after.outbox[n + 1] == PublicationModel::Configured(m.state.shares, now_ms)
            &&& forall|other: Seq<char>|
                other != id ==> (#[trigger] after.share_states.dom().contains(other)
                    == m.share_states.dom().contains(other)) && after.share_states[other]
                    == m.share_states[other]
            &&& after.state == m.state && after.discovered == m.discovered
        }),
{
    let after = m.share_was_added(id, alias, now_ms);
    assert forall|other: Seq<char>| other != id implies (
    #[trigger] after.share_states.dom().contains(other) == m.share_states.dom().contains(other))
        && after.share_states[other] == m.share_states[other] by {}
}

/// An edit carries the alias into the live state and nothing else: the share stays
/// mounted, failed or whatever it was, since when it was so. It is shown if the
/// share has a live state, and the configured shares are shown in any case.
pub proof fn law_edits_keep_the_live_state(
    m: RuntimeModel,
    id: Seq<char>,
    alias: Seq<char>,
    now_ms: u64,
)
    ensures
        ({
            let after = m.share_was_edited(id, alias, now_ms);
            let n = m.outbox.len() as int;
            &&& after.share_states.dom() == m.share_states.dom()
            &&& m.share_states.dom().contains(id) ==> {
                &&& after.share_states[id].alias == alias
                &&& after.share_states[id].state == m.share_states[id].state
                &&& after.share_states[id].reason == m.share_states[id].reason
                &&& after.share_states[id].negotiated_vers == m.share_states[id].negotiated_vers
                &&& after.share_states[id].last_transition_at_ms
                    == m.share_states[id].last_transition_at_ms
                &&& after.outbox.len() == n + 2
                &&& after.outbox[n] == PublicationModel::Update(
                    EnvelopeModel { share_id: id, entry: after.share_states[id] },
                )
            }
            &&& !m.share_states.dom().contains(id) ==> after.outbox.len() == n + 1
            &&& after.outbox.last() == PublicationModel::Configured(m.state.shares, now_ms)
            &&& forall|other: Seq<char>|
                other != id && m.share_states.dom().contains(other)
                    ==> #[trigger] after.share_states[other] == m.share_states[other]
            &&& after.state == m.state && after.discovered == m.discovered
        }),
{
    let after = m.share_was_edited(id, alias, now_ms);
    assert(after.share_states.dom() =~= m.share_states.dom());
}

/// A share that was removed is retracted and has no live state; every other share
/// keeps its own.
pub proof fn law_removed_shares_are_retracted(m: RuntimeModel, id: Seq<char>, now_ms: u64)
    ensures
        ({
            let after = m.share_was_removed(id, now_ms);
            let n = m.outbox.len() as int;
            &&& !after.share_states.dom().contains(id)
            &&& after.outbox.len() == n + 2
            &&& after.outbox[n] == PublicationModel::Retract(id)
            &&& after.outbox[n + 1] == PublicationModel::Configured(m.state.shares, now_ms)
            &&& forall|other: Seq<char>|
                other != id && m.share_states.dom().contains(other)
                    ==> after.share_states.dom().contains(other)
                    && #[trigger] after.share_states[other] == m.share_states[other]
            &&& after.state == m.state && after.discovered == m.discovered
        }),
{
}

/// An unmount leaves a share unmounted if and only if the command ended well. One
/// that failed leaves the share failed for the reason that the verb reports; one that
/// could not be run leaves it as it was.
pub proof fn law_unmounts_settle(
    m: RuntimeModel,
    id: Seq<char>,
    result: Result<CommandOutput, MountError>,
    now_ms: u64,
)
    ensures
        ({
            let (after, outcome) = m.unmount_ended(id, result, now_ms);
            &&& outcome is Ok <==> (result is Ok && result->Ok_0.exit_code == Some(0i32))
            &&& outcome is Ok ==> after.share_states[id].state == MountState::Unmounted
                && after.share_states[id].reason is None
            &&& result matches Err(e) ==> after == m && outcome == Err::<(), _>(e@)
            &&& result is Ok && outcome is Err ==> {
                &&& after.share_states[id].state == MountState::Failed
                &&& after.share_states[id].reason == Some(outcome->Err_0.message())
                &&& outcome->Err_0 == (MountErrorModel::MountFailed {
                    id,
                    exit_code: result->Ok_0.exit_code,
                    stderr: utf8_lossy(result->Ok_0.stderr@),
                })
            }
            &&& result is Ok ==> after.outbox == m.outbox.push(
                PublicationModel::Update(
                    EnvelopeModel { share_id: id, entry: after.share_states[id] },
                ),
            )
        }),
{
}

/// CIFS shares are detached lazily, NFS shares are unmounted plainly, each at its
/// own mount point.
pub proof fn law_only_cifs_is_detached_lazily(m: RecordModel)
    ensures
        unmount_of(m).last() == m.mount_root,
        unmount_of(m).len() == 2 <==> m.fstype == FsType::Cifs,
        m.fstype == FsType::Cifs ==> unmount_of(m)[0] == "-l"@,
        m.fstype == FsType::Nfs ==> unmount_of(m).len() == 1,
{
}

/// What a sweep found replaces what was known of the network, and is shown with the
/// time of the sweep.
pub proof fn law_sweeps_replace_what_was_found(m: RuntimeModel, found: Seq<NasModel>, now_ms: u64)
    ensures
        ({
            let after = m.discovery_ended(found, now_ms);
            &&& after.discovered == found
            &&& or_number(after.refreshed_at_ms, 0) == now_ms
            &&& after.outbox == m.outbox.push(PublicationModel::Discovered(found, now_ms))
            &&& after.state == m.state && after.share_states == m.share_states
        }),
{
}

/// All publications about one share have one subject, and no two shares have the
/// same; neither list shares its subject with a share or with the other list.
pub proof fn law_subjects_are_told_apart(
    a: EnvelopeModel,
    b: EnvelopeModel,
    shares: Seq<RecordModel>,
    nas: Seq<NasModel>,
    now_ms: u64,
)
    ensures
        subject_of(PublicationModel::Announce(a)) == subject_of(PublicationModel::Update(a)),
        subject_of(PublicationModel::Announce(a)) == subject_of(
            PublicationModel::Retract(a.share_id),
        ),
        subject_of(PublicationModel::Update(a)) == subject_of(PublicationModel::Update(b))
            <==> a.share_id == b.share_id,
        subject_of(PublicationModel::Configured(shares, now_ms)) != subject_of(
            PublicationModel::Discovered(nas, now_ms),
        ),
        subject_of(PublicationModel::Configured(shares, now_ms)) != subject_of(
            PublicationModel::Update(a),
        ),
        subject_of(PublicationModel::Discovered(nas, now_ms)) != subject_of(
            PublicationModel::Update(a),
        ),
{
    reveal_strlit("evo.network.shares.configured");
    reveal_strlit("evo.network.shares.discovered");
    reveal_strlit("evo.network.share.state");
    assert("evo.network.shares.configured"@[19] == 'c');
    assert("evo.network.shares.discovered"@[19] == 'd');
    assert("evo.network.shares.configured"@.len() == 29);
    assert("evo.network.shares.discovered"@.len() == 29);
    assert("evo.network.share.state"@.len() == 23);
}

/// A success counts one, a failure nothing.
pub proof fn law_successes_are_counted(outcomes: Seq<BootMountOutcome>, next: BootMountOutcome)
    ensures
        successes(Seq::empty()) == 0,
        next.result is Ok ==> successes(outcomes.push(next)) == successes(outcomes) + 1,
        next.result is Err ==> successes(outcomes.push(next)) == successes(outcomes),
{
    assert(outcomes.push(next).drop_last() =~= outcomes);
}

/// What is overridden counts, and only what is not overridden has its default.
pub proof fn law_overrides_count(s: String, n: u64, text: Seq<char>, number: u64)
    ensures
        or_default(Some(s), text) == s@,
        or_default(None, text) == text,
        or_number(Some(n), number) == n,
        or_number(None, number) == number,
{
}

} // verus!
