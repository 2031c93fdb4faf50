//! Operator verbs: their names, requests and responses, and what each of them
//! asks of the runtime.

use crate::json::opt_view;
use crate::shares::discovery::DiscoveredNas;
use crate::shares::live_state::ShareStateEnvelope;
use crate::shares::mounting::{MountError, MountReport};
use crate::shares::records::{
    is_uuid_v4_text, mount_root_for, Credentials, FsType, RecordModel, ShareEdits, ShareId,
    ShareRecord,
};
use crate::shares::runtime::{ConfiguredSharesEnvelope, DiscoveredNasEnvelope};
use crate::shares::state::SharesStateError;
use crate::text::{joined, push_owned, same_text, views};
use vstd::prelude::*;

verus! {

// ---------------------------------------------------------------------
// Names
// ---------------------------------------------------------------------

/// A verb.
#[derive(Debug, Clone, Copy, PartialEq, Eq, Structural)]
pub enum Verb {
    Add,
    Edit,
    Remove,
    Mount,
    Unmount,
    Refresh,
    ListConfigured,
    ListDiscovered,
    GetState,
}

impl Verb {
    /// The verb's `request_type`.
    pub open spec fn name(self) -> Seq<char> {
        match self {
            Verb::Add => "network.share.add"@,
            Verb::Edit => "network.share.edit"@,
            Verb::Remove => "network.share.remove"@,
            Verb::Mount => "network.share.mount"@,
            Verb::Unmount => "network.share.unmount"@,
            Verb::Refresh => "network.discovery.refresh"@,
            Verb::ListConfigured => "network.share.list_configured"@,
            Verb::ListDiscovered => "network.discovery.list"@,
            Verb::GetState => "network.share.get_state"@,
        }
    }

    /// The verb's `request_type`.
    pub fn as_str(self) -> (r: &'static str)
        ensures
            r@ == self.name(),
    {
        match self {
            Verb::Add => "network.share.add",
            Verb::Edit => "network.share.edit",
            Verb::Remove => "network.share.remove",
            Verb::Mount => "network.share.mount",
            Verb::Unmount => "network.share.unmount",
            Verb::Refresh => "network.discovery.refresh",
            Verb::ListConfigured => "network.share.list_configured",
            Verb::ListDiscovered => "network.discovery.list",
            Verb::GetState => "network.share.get_state",
        }
    }
}

/// All names, mutations before reads.
pub open spec fn verb_names() -> Seq<Seq<char>> {
    seq![
        Verb::Add.name(),
        Verb::Edit.name(),
        Verb::Remove.name(),
        Verb::Mount.name(),
        Verb::Unmount.name(),
        Verb::Refresh.name(),
        Verb::ListConfigured.name(),
        Verb::ListDiscovered.name(),
        Verb::GetState.name(),
    ]
}

/// All names, mutations before reads.
pub fn network_shares_verbs() -> (r: Vec<String>)
    ensures
        views(r@) == verb_names(),
{
    let mut r: Vec<String> = Vec::new();
    push_owned(&mut r, Verb::Add.as_str().to_owned());
    push_owned(&mut r, Verb::Edit.as_str().to_owned());
    push_owned(&mut r, Verb::Remove.as_str().to_owned());
    push_owned(&mut r, Verb::Mount.as_str().to_owned());
    push_owned(&mut r, Verb::Unmount.as_str().to_owned());
    push_owned(&mut r, Verb::Refresh.as_str().to_owned());
    push_owned(&mut r, Verb::ListConfigured.as_str().to_owned());
    push_owned(&mut r, Verb::ListDiscovered.as_str().to_owned());
    push_owned(&mut r, Verb::GetState.as_str().to_owned());
    assert(views(r@) =~= verb_names());
    r
}

/// Different verbs have different names.
pub proof fn law_names_are_distinct(a: Verb, b: Verb)
    requires
        a.name() == b.name(),
    ensures
        a == b,
{
    reveal_strlit("network.share.add");
    reveal_strlit("network.share.edit");
    reveal_strlit("network.share.remove");
    reveal_strlit("network.share.mount");
    reveal_strlit("network.share.unmount");
    reveal_strlit("network.discovery.refresh");
    reveal_strlit("network.share.list_configured");
    reveal_strlit("network.discovery.list");
    reveal_strlit("network.share.get_state");
    assert("network.share.add"@.len() == 17);
    assert("network.share.edit"@.len() == 18);
    assert("network.share.remove"@.len() == 20);
    assert("network.share.mount"@.len() == 19);
    assert("network.share.unmount"@.len() == 21);
    assert("network.discovery.refresh"@.len() == 25);
    assert("network.share.list_configured"@.len() == 29);
    assert("network.discovery.list"@.len() == 22);
    assert("network.share.get_state"@.len() == 23);
}

/// The verb that a `request_type` names.
pub fn find_verb(request_type: &str) -> (r: Option<Verb>)
    ensures
        match r {
            Some(v) => v.name() == request_type@,
            None => !verb_names().contains(request_type@),
        },
{
    if same_text(request_type, Verb::Add.as_str()) {
        Some(Verb::Add)
    } else if same_text(request_type, Verb::Edit.as_str()) {
        Some(Verb::Edit)
    } else if same_text(request_type, Verb::Remove.as_str()) {
        Some(Verb::Remove)
    } else if same_text(request_type, Verb::Mount.as_str()) {
        Some(Verb::Mount)
    } else if same_text(request_type, Verb::Unmount.as_str()) {
        Some(Verb::Unmount)
    } else if same_text(request_type, Verb::Refresh.as_str()) {
        Some(Verb::Refresh)
    } else if same_text(request_type, Verb::ListConfigured.as_str()) {
        Some(Verb::ListConfigured)
    } else if same_text(request_type, Verb::ListDiscovered.as_str()) {
        Some(Verb::ListDiscovered)
    } else if same_text(request_type, Verb::GetState.as_str()) {
        Some(Verb::GetState)
    } else {
        None
    }
}

/// Whether a `request_type` names a verb.
pub fn is_network_shares_verb(request_type: &str) -> (r: bool)
    ensures
        r == verb_names().contains(request_type@),
{
    match find_verb(request_type) {
        Some(v) => {
            proof {
                lemma_name_is_listed(v);
            }
            true
        },
        None => false,
    }
}

pub proof fn lemma_name_is_listed(v: Verb)
    ensures
        verb_names().contains(v.name()),
{
    let names = verb_names();
    let i: int = match v {
        Verb::Add => 0,
        Verb::Edit => 1,
        Verb::Remove => 2,
        Verb::Mount => 3,
        Verb::Unmount => 4,
        Verb::Refresh => 5,
        Verb::ListConfigured => 6,
        Verb::ListDiscovered => 7,
        Verb::GetState => 8,
    };
    assert(names[i] == v.name());
}

/// The verb to run for a `request_type`.
pub fn route(request_type: &str) -> (r: Result<Verb, VerbDispatchError>)
    ensures
        match r {
            Ok(v) => v.name() == request_type@,
            Err(e) => {
                &&& !verb_names().contains(request_type@)
                &&& e matches VerbDispatchError::UnknownRequestType { request_type: t }
                &&& t@ == request_type@
            },
        },
{
    match find_verb(request_type) {
        Some(v) => Ok(v),
        None => Err(
            VerbDispatchError::UnknownRequestType { request_type: request_type.to_owned() },
        ),
    }
}

// ---------------------------------------------------------------------
// Requests and responses
// ---------------------------------------------------------------------

/// Request of `network.share.add`.
#[derive(Debug, PartialEq, Eq)]
pub struct AddShareRequest {
    pub alias: String,
    pub fstype: FsType,
    pub host: String,
    pub path: String,
    pub credentials: Credentials,
    /// Mount options of the operator; may be empty.
    pub advanced_options: String,
}

/// Response of `network.share.add`.
#[derive(Debug, PartialEq, Eq)]
pub struct AddShareResponse {
    pub share_id: ShareId,
    /// Present when the first mount succeeded.
    pub mount_report: Option<MountReport>,
    /// Why the first mount failed, when it did.
    pub mount_error: Option<String>,
}

/// Request of `network.share.edit`.
#[derive(Debug, PartialEq, Eq)]
pub struct EditShareRequest {
    pub share_id: ShareId,
    pub edits: ShareEdits,
}

/// Response of `network.share.edit`.
#[derive(Debug, PartialEq, Eq)]
pub struct EditShareResponse {
    /// Whether any field changed.
    pub changed: bool,
}

/// Request of `network.share.remove`.
#[derive(Debug, PartialEq, Eq)]
pub struct RemoveShareRequest {
    pub share_id: ShareId,
}

/// Response of `network.share.remove`.
#[derive(Debug, PartialEq, Eq)]
pub struct RemoveShareResponse {
    pub removed_record: ShareRecord,
}

/// Request of `network.share.mount`.
#[derive(Debug, PartialEq, Eq)]
pub struct MountShareRequest {
    pub share_id: ShareId,
}

/// Response of `network.share.mount`.
#[derive(Debug, PartialEq, Eq)]
pub struct MountShareResponse {
    pub report: MountReport,
}

/// Request of `network.share.unmount`.
#[derive(Debug, PartialEq, Eq)]
pub struct UnmountShareRequest {
    pub share_id: ShareId,
}

/// Response of `network.share.unmount`.
#[derive(Debug, PartialEq, Eq)]
pub struct UnmountShareResponse {}

/// Response of `network.discovery.refresh`.
#[derive(Debug, PartialEq, Eq)]
pub struct RefreshDiscoveryResponse {
    pub nas: Vec<DiscoveredNas>,
}

/// Response of `network.share.list_configured`.
#[derive(Debug, PartialEq, Eq)]
pub struct ListConfiguredResponse {
    pub envelope: ConfiguredSharesEnvelope,
}

/// Response of `network.discovery.list`.
#[derive(Debug, PartialEq, Eq)]
pub struct ListDiscoveredResponse {
    pub envelope: DiscoveredNasEnvelope,
}

/// Request of `network.share.get_state`.
#[derive(Debug, PartialEq, Eq)]
pub struct GetShareStateRequest {
    pub share_id: ShareId,
}

/// Response of `network.share.get_state`.
#[derive(Debug, PartialEq, Eq)]
pub struct GetShareStateResponse {
    /// None when no share has the identifier.
    pub envelope: Option<ShareStateEnvelope>,
}

/// Why a verb was not answered.
#[derive(Debug, PartialEq, Eq)]
pub enum VerbDispatchError {
    UnknownRequestType { request_type: String },
    PayloadDecode { request_type: String, detail: String },
    Persistence(SharesStateError),
    Mount(MountError),
    ResponseSerialise { request_type: String, detail: String },
}

impl VerbDispatchError {
    /// Operator-facing text.
    pub open spec fn message(&self) -> Seq<char> {
        match *self {
            VerbDispatchError::UnknownRequestType { request_type } => "unknown request_type: "@
                + request_type@,
            VerbDispatchError::PayloadDecode { request_type, detail } => {
                "payload decode failed for "@ + request_type@ + ": "@ + detail@
            },
            VerbDispatchError::Persistence(e) => "verb execution failed (persistence): "@
                + e.message(),
            VerbDispatchError::Mount(e) => "verb execution failed (mount): "@ + e@.message(),
            VerbDispatchError::ResponseSerialise { request_type, detail } => {
                "response serialise failed for "@ + request_type@ + ": "@ + detail@
            },
        }
    }

    /// Operator-facing text.
    pub fn to_text(&self) -> (r: String)
        ensures
            r@ == self.message(),
    {
        match self {
            VerbDispatchError::UnknownRequestType { request_type } => joined(
                "unknown request_type: ",
                request_type.as_str(),
            ),
            VerbDispatchError::PayloadDecode { request_type, detail } => {
                let mut r = joined("payload decode failed for ", request_type.as_str());
                r.append(": ");
                r.append(detail.as_str());
                r
            },
            VerbDispatchError::Persistence(e) => joined(
                "verb execution failed (persistence): ",
                e.to_text().as_str(),
            ),
            VerbDispatchError::Mount(e) => joined(
                "verb execution failed (mount): ",
                e.to_text().as_str(),
            ),
            VerbDispatchError::ResponseSerialise { request_type, detail } => {
                let mut r = joined("response serialise failed for ", request_type.as_str());
                r.append(": ");
                r.append(detail.as_str());
                r
            },
        }
    }
}

// ---------------------------------------------------------------------
// Dispatch
// ---------------------------------------------------------------------

/// A decoded request.
#[derive(Debug, PartialEq, Eq)]
pub enum VerbRequest {
    Add(AddShareRequest),
    Edit(EditShareRequest),
    Remove(RemoveShareRequest),
    Mount(MountShareRequest),
    Unmount(UnmountShareRequest),
    Refresh,
    ListConfigured,
    ListDiscovered,
    GetState(GetShareStateRequest),
}

/// A response.
#[derive(Debug, PartialEq, Eq)]
pub enum VerbResponse {
    Add(AddShareResponse),
    Edit(EditShareResponse),
    Remove(RemoveShareResponse),
    Mount(MountShareResponse),
    Unmount(UnmountShareResponse),
    Refresh(RefreshDiscoveryResponse),
    ListConfigured(ListConfiguredResponse),
    ListDiscovered(ListDiscoveredResponse),
    GetState(GetShareStateResponse),
}

/// What a verb asks for next.
#[derive(Debug, PartialEq, Eq)]
pub enum DispatchStep {
    /// Add a share and save.
    Add(ShareRecord),
    /// Edit a share and save if it changed.
    Edit(ShareId, ShareEdits),
    /// Remove a share and save.
    Remove(ShareId),
    Mount(ShareId),
    Unmount(ShareId),
    /// Sweep for hosts.
    Refresh,
    ReadConfigured,
    ReadDiscovered,
    ReadState(ShareId),
    /// The verb is answered.
    Done(Result<VerbResponse, VerbDispatchError>),
}

/// What came of a [`DispatchStep`].
#[derive(Debug, PartialEq, Eq)]
pub enum DispatchEvent {
    Added(Result<ShareId, SharesStateError>),
    Edited(Result<bool, SharesStateError>),
    Removed(Result<ShareRecord, SharesStateError>),
    Mounted(Result<MountReport, MountError>),
    Unmounted(Result<(), MountError>),
    Refreshed(Result<Vec<DiscoveredNas>, MountError>),
    Configured(ConfiguredSharesEnvelope),
    Discovered(DiscoveredNasEnvelope),
    State(Option<ShareStateEnvelope>),
}

/// What a verb in progress waits for.
pub enum Awaiting {
    Added,
    /// The first mount of an added share.
    AddedMounted(ShareId),
    Edited,
    /// The unmount that precedes a removal.
    RemovedUnmounted(ShareId),
    Removed,
    Mounted,
    Unmounted,
    Refreshed,
    Configured,
    Discovered,
    State,
    /// Nothing: the verb is answered.
    Nothing,
}

/// A verb in progress.
pub struct VerbDispatch {
    pub awaiting: Awaiting,
}

/// What a verb begins with: what it waits for, and the first step. An added share
/// gets a minted identifier and the mount point that goes with its alias; a share is
/// unmounted before it is removed.
pub open spec fn begins(
    request: VerbRequest,
    now_ms: u64,
    awaiting: Awaiting,
    step: DispatchStep,
) -> bool {
    match request {
        VerbRequest::Add(q) => {
            &&& awaiting is Added
            &&& step matches DispatchStep::Add(record)
            &&& is_uuid_v4_text(record.share_id@)
            &&& record@ == (RecordModel {
                share_id: record.share_id@,
                alias: q.alias@,
                fstype: q.fstype,
                host: q.host@,
                path: q.path@,
                credentials: q.credentials@,
                advanced_options: q.advanced_options@,
                persisted_vers: None,
                mount_root: mount_root_for(q.alias@),
                created_at_ms: now_ms as i64,
                last_mounted_at_ms: None,
            })
        },
        VerbRequest::Edit(q) => awaiting is Edited && step == DispatchStep::Edit(
            q.share_id,
            q.edits,
        ),
        VerbRequest::Remove(q) => awaiting == Awaiting::RemovedUnmounted(q.share_id)
            && step == DispatchStep::Unmount(q.share_id),
        VerbRequest::Mount(q) => awaiting is Mounted && step == DispatchStep::Mount(
            q.share_id,
        ),
        VerbRequest::Unmount(q) => awaiting is Unmounted && step
            == DispatchStep::Unmount(q.share_id),
        VerbRequest::Refresh => awaiting is Refreshed && step is Refresh,
        VerbRequest::ListConfigured => awaiting is Configured && step is ReadConfigured,
        VerbRequest::ListDiscovered => awaiting is Discovered && step is ReadDiscovered,
        VerbRequest::GetState(q) => awaiting is State && step == DispatchStep::ReadState(
            q.share_id,
        ),
    }
}

/// How a verb goes on after an event: what it then waits for, and the next step. An
/// added share is mounted at once, and a failure of that mount is part of the
/// response; a failed unmount does not keep a share from being removed; every other
/// failure is the verb's own.
pub open spec fn answers(
    before: Awaiting,
    event: DispatchEvent,
    after: Awaiting,
    step: DispatchStep,
) -> bool {
    &&& after == (match (before, event) {
        (Awaiting::Added, DispatchEvent::Added(Ok(id))) => Awaiting::AddedMounted(id),
        (Awaiting::RemovedUnmounted(_), _) => Awaiting::Removed,
        _ => Awaiting::Nothing,
    })
    &&& match event {
        DispatchEvent::Added(Ok(id)) => step == DispatchStep::Mount(id),
        DispatchEvent::Added(Err(e)) => step == DispatchStep::Done(
            Err::<VerbResponse, VerbDispatchError>(VerbDispatchError::Persistence(e)),
        ),
        DispatchEvent::Edited(Ok(changed)) => step == DispatchStep::Done(
            Ok::<VerbResponse, VerbDispatchError>(
                VerbResponse::Edit(EditShareResponse { changed }),
            ),
        ),
        DispatchEvent::Edited(Err(e)) => step == DispatchStep::Done(
            Err::<VerbResponse, VerbDispatchError>(VerbDispatchError::Persistence(e)),
        ),
        DispatchEvent::Removed(Ok(removed_record)) => step == DispatchStep::Done(
            Ok::<VerbResponse, VerbDispatchError>(
                VerbResponse::Remove(RemoveShareResponse { removed_record }),
            ),
        ),
        DispatchEvent::Removed(Err(e)) => step == DispatchStep::Done(
            Err::<VerbResponse, VerbDispatchError>(VerbDispatchError::Persistence(e)),
        ),
        DispatchEvent::Mounted(outcome) => match before {
            Awaiting::AddedMounted(id) => {
                &&& step matches DispatchStep::Done(Ok(VerbResponse::Add(a)))
                &&& a.share_id == id
                &&& match outcome {
                    Ok(report) => a.mount_report == Some(report) && a.mount_error is None,
                    Err(e) => a.mount_report is None && opt_view(a.mount_error) == Some(
                        e@.message(),
                    ),
                }
            },
            _ => match outcome {
                Ok(report) => step == DispatchStep::Done(
                    Ok::<VerbResponse, VerbDispatchError>(
                        VerbResponse::Mount(MountShareResponse { report }),
                    ),
                ),
                Err(e) => step == DispatchStep::Done(
                    Err::<VerbResponse, VerbDispatchError>(VerbDispatchError::Mount(e)),
                ),
            },
        },
        DispatchEvent::Unmounted(outcome) => match before {
            Awaiting::RemovedUnmounted(id) => step == DispatchStep::Remove(id),
            _ => match outcome {
                Ok(()) => step == DispatchStep::Done(
                    Ok::<VerbResponse, VerbDispatchError>(
                        VerbResponse::Unmount(UnmountShareResponse {  }),
                    ),
                ),
                Err(e) => step == DispatchStep::Done(
                    Err::<VerbResponse, VerbDispatchError>(VerbDispatchError::Mount(e)),
                ),
            },
        },
        DispatchEvent::Refreshed(Ok(nas)) => step == DispatchStep::Done(
            Ok::<VerbResponse, VerbDispatchError>(
                VerbResponse::Refresh(RefreshDiscoveryResponse { nas }),
            ),
        ),
        DispatchEvent::Refreshed(Err(e)) => step == DispatchStep::Done(
            Err::<VerbResponse, VerbDispatchError>(VerbDispatchError::Mount(e)),
        ),
        DispatchEvent::Configured(envelope) => step == DispatchStep::Done(
            Ok::<VerbResponse, VerbDispatchError>(
                VerbResponse::ListConfigured(ListConfiguredResponse { envelope }),
            ),
        ),
        DispatchEvent::Discovered(envelope) => step == DispatchStep::Done(
            Ok::<VerbResponse, VerbDispatchError>(
                VerbResponse::ListDiscovered(ListDiscoveredResponse { envelope }),
            ),
        ),
        DispatchEvent::State(envelope) => step == DispatchStep::Done(
            Ok::<VerbResponse, VerbDispatchError>(
                VerbResponse::GetState(GetShareStateResponse { envelope }),
            ),
        ),
    }
}

impl VerbDispatch {
    /// Whether the dispatch waits for an event of this sort.
    pub open spec fn expects(&self, event: DispatchEvent) -> bool {
        match event {
            DispatchEvent::Added(_) => self.awaiting is Added,
            DispatchEvent::Edited(_) => self.awaiting is Edited,
            DispatchEvent::Removed(_) => self.awaiting is Removed,
            DispatchEvent::Mounted(_) => self.awaiting is AddedMounted || self.awaiting is Mounted,
            DispatchEvent::Unmounted(_) => self.awaiting is RemovedUnmounted
                || self.awaiting is Unmounted,
            DispatchEvent::Refreshed(_) => self.awaiting is Refreshed,
            DispatchEvent::Configured(_) => self.awaiting is Configured,
            DispatchEvent::Discovered(_) => self.awaiting is Discovered,
            DispatchEvent::State(_) => self.awaiting is State,
        }
    }

    /// Starts a verb. An added share gets a minted identifier and the mount point
    /// that goes with its alias; a share is unmounted before it is removed.
    pub fn begin(request: VerbRequest, now_ms: u64) -> (r: (VerbDispatch, DispatchStep))
        ensures
            begins(request, now_ms, r.0.awaiting, r.1),
    {
        match request {
            VerbRequest::Add(q) => {
                let record = ShareRecord::new(
                    q.alias,
                    q.fstype,
                    q.host,
                    q.path,
                    q.credentials,
                    q.advanced_options,
                    #[verifier::truncate]
                    (now_ms as i64),
                );
                (VerbDispatch { awaiting: Awaiting::Added }, DispatchStep::Add(record))
            },
            VerbRequest::Edit(q) => (
                VerbDispatch { awaiting: Awaiting::Edited },
                DispatchStep::Edit(q.share_id, q.edits),
            ),
            VerbRequest::Remove(q) => (
                VerbDispatch { awaiting: Awaiting::RemovedUnmounted(q.share_id.clone()) },
                DispatchStep::Unmount(q.share_id),
            ),
            VerbRequest::Mount(q) => (
                VerbDispatch { awaiting: Awaiting::Mounted },
                DispatchStep::Mount(q.share_id),
            ),
            VerbRequest::Unmount(q) => (
                VerbDispatch { awaiting: Awaiting::Unmounted },
                DispatchStep::Unmount(q.share_id),
            ),
            VerbRequest::Refresh => (
                VerbDispatch { awaiting: Awaiting::Refreshed },
                DispatchStep::Refresh,
            ),
            VerbRequest::ListConfigured => (
                VerbDispatch { awaiting: Awaiting::Configured },
                DispatchStep::ReadConfigured,
            ),
            VerbRequest::ListDiscovered => (
                VerbDispatch { awaiting: Awaiting::Discovered },
                DispatchStep::ReadDiscovered,
            ),
            VerbRequest::GetState(q) => (
                VerbDispatch { awaiting: Awaiting::State },
                DispatchStep::ReadState(q.share_id),
            ),
        }
    }

    /// Carries a verb on. An added share is mounted at once, and a failure of that
    /// mount is part of the response; a failed unmount does not keep a share from
    /// being removed; every other failure is the verb's own.
    pub fn advance(&mut self, event: DispatchEvent) -> (r: DispatchStep)
        requires
            old(self).expects(event),
        ensures
            answers(old(self).awaiting, event, final(self).awaiting, r),
    {
        let mut awaiting = Awaiting::Nothing;
        std::mem::swap(&mut awaiting, &mut self.awaiting);
        match event {
            DispatchEvent::Added(Ok(id)) => {
                self.awaiting = Awaiting::AddedMounted(id.clone());
                DispatchStep::Mount(id)
            },
            DispatchEvent::Added(Err(e)) => DispatchStep::Done(
                Err(VerbDispatchError::Persistence(e)),
            ),
            DispatchEvent::Edited(Ok(changed)) => DispatchStep::Done(
                Ok(VerbResponse::Edit(EditShareResponse { changed })),
            ),
            DispatchEvent::Edited(Err(e)) => DispatchStep::Done(
                Err(VerbDispatchError::Persistence(e)),
            ),
            DispatchEvent::Removed(Ok(removed_record)) => DispatchStep::Done(
                Ok(VerbResponse::Remove(RemoveShareResponse { removed_record })),
            ),
            DispatchEvent::Removed(Err(e)) => DispatchStep::Done(
                Err(VerbDispatchError::Persistence(e)),
            ),
            DispatchEvent::Mounted(outcome) => match awaiting {
                Awaiting::AddedMounted(share_id) => {
                    let response = match outcome {
                        Ok(report) => AddShareResponse {
                            share_id,
                            mount_report: Some(report),
                            mount_error: None,
                        },
                        Err(e) => AddShareResponse {
                            share_id,
                            mount_report: None,
                            mount_error: Some(e.to_text()),
                        },
                    };
                    DispatchStep::Done(Ok(VerbResponse::Add(response)))
                },
                _ => match outcome {
                    Ok(report) => DispatchStep::Done(
                        Ok(VerbResponse::Mount(MountShareResponse { report })),
                    ),
                    Err(e) => DispatchStep::Done(Err(VerbDispatchError::Mount(e))),
                },
            },
            DispatchEvent::Unmounted(outcome) => match awaiting {
                Awaiting::RemovedUnmounted(share_id) => {
                    self.awaiting = Awaiting::Removed;
                    DispatchStep::Remove(share_id)
                },
                _ => match outcome {
                    Ok(()) => DispatchStep::Done(
                        Ok(VerbResponse::Unmount(UnmountShareResponse {  })),
                    ),
                    Err(e) => DispatchStep::Done(Err(VerbDispatchError::Mount(e))),
                },
            },
            DispatchEvent::Refreshed(Ok(nas)) => DispatchStep::Done(
                Ok(VerbResponse::Refresh(RefreshDiscoveryResponse { nas })),
            ),
            DispatchEvent::Refreshed(Err(e)) => DispatchStep::Done(
                Err(VerbDispatchError::Mount(e)),
            ),
            DispatchEvent::Configured(envelope) => DispatchStep::Done(
                Ok(VerbResponse::ListConfigured(ListConfiguredResponse { envelope })),
            ),
            DispatchEvent::Discovered(envelope) => DispatchStep::Done(
                Ok(VerbResponse::ListDiscovered(ListDiscoveredResponse { envelope })),
            ),
            DispatchEvent::State(envelope) => DispatchStep::Done(
                Ok(VerbResponse::GetState(GetShareStateResponse { envelope })),
            ),
        }
    }
}

// ---------------------------------------------------------------------
// Laws of the dispatch
// ---------------------------------------------------------------------

/// The verbs are these, and no other name is one.
pub proof fn law_the_verbs_are_these(name: Seq<char>)
    ensures
        verb_names().contains(name) <==> (name == "network.share.add"@ || name
            == "network.share.edit"@ || name == "network.share.remove"@ || name
            == "network.share.mount"@ || name == "network.share.unmount"@ || name
            == "network.discovery.refresh"@ || name == "network.share.list_configured"@ || name
            == "network.discovery.list"@ || name == "network.share.get_state"@),
{
    lemma_name_is_listed(Verb::Add);
    lemma_name_is_listed(Verb::Edit);
    lemma_name_is_listed(Verb::Remove);
    lemma_name_is_listed(Verb::Mount);
    lemma_name_is_listed(Verb::Unmount);
    lemma_name_is_listed(Verb::Refresh);
    lemma_name_is_listed(Verb::ListConfigured);
    lemma_name_is_listed(Verb::ListDiscovered);
    lemma_name_is_listed(Verb::GetState);
    if verb_names().contains(name) {
        let i = choose|i: int| 0 <= i < verb_names().len() && verb_names()[i] == name;
        assert(0 <= i < 9);
    }
}

/// A removal unmounts the share and then removes that same share, whatever came of
/// the unmount, and answers with the record that was removed.
pub proof fn law_removals_go_through_an_unmount(
    q: RemoveShareRequest,
    now_ms: u64,
    a0: Awaiting,
    s0: DispatchStep,
    unmounted: Result<(), MountError>,
    a1: Awaiting,
    s1: DispatchStep,
    removed: Result<ShareRecord, SharesStateError>,
    a2: Awaiting,
    s2: DispatchStep,
)
    requires
        begins(VerbRequest::Remove(q), now_ms, a0, s0),
        answers(a0, DispatchEvent::Unmounted(unmounted), a1, s1),
        answers(a1, DispatchEvent::Removed(removed), a2, s2),
    ensures
        s0 == DispatchStep::Unmount(q.share_id),
        s1 == DispatchStep::Remove(q.share_id),
        a2 is Nothing,
        s2 is Done,
        removed matches Ok(record) ==> (s2->Done_0 matches Ok(VerbResponse::Remove(r))
            && r.removed_record == record),
        removed matches Err(e) ==> s2->Done_0 == Err::<VerbResponse, _>(
            VerbDispatchError::Persistence(e),
        ),
{
}

/// An addition saves a record that says what was asked, unmounted so far and with its
/// mount point, mounts the share that was added, and answers with that share whether or
/// not the mount succeeded.
pub proof fn law_additions_are_mounted_at_once(
    q: AddShareRequest,
    now_ms: u64,
    a0: Awaiting,
    s0: DispatchStep,
    id: ShareId,
    a1: Awaiting,
    s1: DispatchStep,
    mounted: Result<MountReport, MountError>,
    a2: Awaiting,
    s2: DispatchStep,
)
    requires
        begins(VerbRequest::Add(q), now_ms, a0, s0),
        answers(a0, DispatchEvent::Added(Ok(id)), a1, s1),
        answers(a1, DispatchEvent::Mounted(mounted), a2, s2),
    ensures
        ({
            let record = s0->Add_0@;
            &&& s0 is Add
            &&& record.alias == q.alias@ && record.host == q.host@ && record.path == q.path@
            &&& record.fstype == q.fstype && record.credentials == q.credentials@
            &&& record.advanced_options == q.advanced_options@
            &&& record.mount_root == mount_root_for(q.alias@)
            &&& record.persisted_vers is None && record.last_mounted_at_ms is None
            &&& record.created_at_ms == now_ms as i64
            &&& is_uuid_v4_text(record.share_id)
        }),
        s1 == DispatchStep::Mount(id),
        a2 is Nothing,
        s2 matches DispatchStep::Done(Ok(VerbResponse::Add(r))) && r.share_id == id && (
        r.mount_report is Some <==> mounted is Ok) && (r.mount_error is Some <==> mounted is Err)
            && (mounted matches Ok(report) ==> r.mount_report == Some(report)) && (
        mounted matches Err(e) ==> r.mount_error->Some_0@ == e@.message()),
{
}

/// An addition that was not saved is not mounted: it fails for the reason of the save.
pub proof fn law_unsaved_additions_fail(
    q: AddShareRequest,
    now_ms: u64,
    a0: Awaiting,
    s0: DispatchStep,
    e: SharesStateError,
    a1: Awaiting,
    s1: DispatchStep,
)
    requires
        begins(VerbRequest::Add(q), now_ms, a0, s0),
        answers(a0, DispatchEvent::Added(Err(e)), a1, s1),
    ensures
        a1 is Nothing,
        s1 == DispatchStep::Done(Err::<VerbResponse, _>(VerbDispatchError::Persistence(e))),
{
}

/// A mount is of the share that was asked for, and is answered with its report or
/// its error.
pub proof fn law_mounts_are_answered(
    q: MountShareRequest,
    now_ms: u64,
    a0: Awaiting,
    s0: DispatchStep,
    outcome: Result<MountReport, MountError>,
    a1: Awaiting,
    s1: DispatchStep,
)
    requires
        begins(VerbRequest::Mount(q), now_ms, a0, s0),
        answers(a0, DispatchEvent::Mounted(outcome), a1, s1),
    ensures
        s0 == DispatchStep::Mount(q.share_id),
        a1 is Nothing,
        outcome matches Ok(report) ==> s1 == DispatchStep::Done(
            Ok::<_, VerbDispatchError>(VerbResponse::Mount(MountShareResponse { report })),
        ),
        outcome matches Err(e) ==> s1 == DispatchStep::Done(
            Err::<VerbResponse, _>(VerbDispatchError::Mount(e)),
        ),
{
}

/// An unmount is of the share that was asked for, and its failure is the verb's own.
pub proof fn law_unmounts_are_answered(
    q: UnmountShareRequest,
    now_ms: u64,
    a0: Awaiting,
    s0: DispatchStep,
    outcome: Result<(), MountError>,
    a1: Awaiting,
    s1: DispatchStep,
)
    requires
        begins(VerbRequest::Unmount(q), now_ms, a0, s0),
        answers(a0, DispatchEvent::Unmounted(outcome), a1, s1),
    ensures
        s0 == DispatchStep::Unmount(q.share_id),
        a1 is Nothing,
        outcome is Ok ==> (s1 matches DispatchStep::Done(Ok(r)) && r is Unmount),
        outcome matches Err(e) ==> s1 == DispatchStep::Done(
            Err::<VerbResponse, _>(VerbDispatchError::Mount(e)),
        ),
{
}

/// An edit is of the share that was asked for and with the edits that were asked for,
/// and is answered with whether anything changed.
pub proof fn law_edits_are_answered(
    q: EditShareRequest,
    now_ms: u64,
    a0: Awaiting,
    s0: DispatchStep,
    outcome: Result<bool, SharesStateError>,
    a1: Awaiting,
    s1: DispatchStep,
)
    requires
        begins(VerbRequest::Edit(q), now_ms, a0, s0),
        answers(a0, DispatchEvent::Edited(outcome), a1, s1),
    ensures
        s0 == DispatchStep::Edit(q.share_id, q.edits),
        a1 is Nothing,
        outcome matches Ok(changed) ==> (s1 matches DispatchStep::Done(Ok(VerbResponse::Edit(r)))
            && r.changed == changed),
        outcome matches Err(e) ==> s1 == DispatchStep::Done(
            Err::<VerbResponse, _>(VerbDispatchError::Persistence(e)),
        ),
{
}

/// Reads are answered with what was read: the configured shares, the hosts, or the
/// state of the share that was asked for.
pub proof fn law_reads_are_answered(
    q: GetShareStateRequest,
    now_ms: u64,
    a0: Awaiting,
    s0: DispatchStep,
    shares: ConfiguredSharesEnvelope,
    hosts: DiscoveredNasEnvelope,
    state: Option<ShareStateEnvelope>,
    a1: Awaiting,
    s1: DispatchStep,
)
    ensures
        begins(VerbRequest::ListConfigured, now_ms, a0, s0) ==> s0 is ReadConfigured && (answers(
            a0,
            DispatchEvent::Configured(shares),
            a1,
            s1,
        ) ==> (s1 matches DispatchStep::Done(Ok(VerbResponse::ListConfigured(r))) && r.envelope
            == shares)),
        begins(VerbRequest::ListDiscovered, now_ms, a0, s0) ==> s0 is ReadDiscovered && (answers(
            a0,
            DispatchEvent::Discovered(hosts),
            a1,
            s1,
        ) ==> (s1 matches DispatchStep::Done(Ok(VerbResponse::ListDiscovered(r))) && r.envelope
            == hosts)),
        begins(VerbRequest::GetState(q), now_ms, a0, s0) ==> s0 == DispatchStep::ReadState(
            q.share_id,
        ) && (answers(a0, DispatchEvent::State(state), a1, s1) ==> (s1 matches DispatchStep::Done(
            Ok(VerbResponse::GetState(r)),
        ) && r.envelope == state)),
{
}

/// A refresh sweeps for hosts and is answered with all that the sweep found, or with
/// the error of the sweep.
pub proof fn law_refreshes_are_answered(
    now_ms: u64,
    a0: Awaiting,
    s0: DispatchStep,
    outcome: Result<Vec<DiscoveredNas>, MountError>,
    a1: Awaiting,
    s1: DispatchStep,
)
    requires
        begins(VerbRequest::Refresh, now_ms, a0, s0),
        answers(a0, DispatchEvent::Refreshed(outcome), a1, s1),
    ensures
        s0 is Refresh,
        a1 is Nothing,
        outcome matches Ok(nas) ==> (s1 matches DispatchStep::Done(Ok(VerbResponse::Refresh(r)))
            && r.nas == nas),
        outcome matches Err(e) ==> s1 == DispatchStep::Done(
            Err::<VerbResponse, _>(VerbDispatchError::Mount(e)),
        ),
{
}

/// What the operator reads of a failed verb: which part of it failed, of which request,
/// and the words of the failure itself.
pub proof fn law_verb_messages_name_the_cause(
    t: String,
    detail: String,
    s: SharesStateError,
    m: MountError,
)
    ensures
        (VerbDispatchError::UnknownRequestType { request_type: t }).message()
            == "unknown request_type: "@ + t@,
        (VerbDispatchError::PayloadDecode { request_type: t, detail }).message()
            == "payload decode failed for "@ + t@ + ": "@ + detail@,
        (VerbDispatchError::ResponseSerialise { request_type: t, detail }).message()
            == "response serialise failed for "@ + t@ + ": "@ + detail@,
        VerbDispatchError::Persistence(s).message() == "verb execution failed (persistence): "@
            + s.message(),
        VerbDispatchError::Mount(m).message() == "verb execution failed (mount): "@ + m@.message(),
{
}

} // verus!
