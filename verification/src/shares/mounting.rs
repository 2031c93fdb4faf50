//! Mounting a share, one external action at a time.
//!
//! A mount alternates decisions with work that only the host can do: fetching a
//! password, running `mount`, reading the mount table, saving the state. A
//! [`MountAttempt`] makes the decisions. It names the next action, is told what
//! came of it, and so on until it is done.

use crate::json::opt_view;
use crate::shares::mount_args::{
    build_cifs_mount_args, build_nfs_mount_args, cifs_args, nfs_args,
};
use crate::shares::parsers::{parse_nfs_version_from_proc_mounts, version_in_lines};
use crate::shares::records::{
    Credentials, CredentialsModel, FsType, RecordModel, ShareId, ShareRecord,
};
use crate::shares::state::{
    has_id, is_first_with_id, NetworkSharesState, SharesStateError, StateModel,
};
use crate::text::{
    chars_of, debug_list, debug_list_of, decimal, decimal_of, joined, lines_of, lossy_text,
    opt_str_view, piece_views, push_owned, signed_decimal, signed_decimal_of, split, split_on, strip_prefix,
    text_of, utf8_lossy, utf8_reading, utf8_text, views, without_prefix,
};
use vstd::prelude::*;

verus! {

/// Deadline of one mount attempt, in milliseconds.
pub const DEFAULT_MOUNT_TIMEOUT_MS: u64 = 30_000;

// ---------------------------------------------------------------------
// Results
// ---------------------------------------------------------------------

/// What a finished subprocess left behind.
#[derive(Debug, PartialEq, Eq)]
pub struct CommandOutput {
    /// Exit code; none when a signal ended the process.
    pub exit_code: Option<i32>,
    pub stdout: Vec<u8>,
    pub stderr: Vec<u8>,
}

/// A successful mount.
#[derive(Debug, PartialEq, Eq)]
pub struct MountReport {
    pub share_id: ShareId,
    pub mount_root: String,
    /// Dialect (CIFS) or version (NFS), where known.
    pub negotiated_version: Option<String>,
    pub elapsed_ms: u64,
}

/// What a [`MountReport`] says.
pub struct ReportModel {
    pub share_id: Seq<char>,
    pub mount_root: Seq<char>,
    pub negotiated_version: Option<Seq<char>>,
    pub elapsed_ms: u64,
}

impl View for MountReport {
    type V = ReportModel;

    open spec fn view(&self) -> ReportModel {
        ReportModel {
            share_id: self.share_id@,
            mount_root: self.mount_root@,
            negotiated_version: opt_view(self.negotiated_version),
            elapsed_ms: self.elapsed_ms,
        }
    }
}

/// Why a mount, an unmount or a discovery failed.
#[derive(Debug, PartialEq, Eq)]
pub enum MountError {
    ShareNotFound { id: ShareId },
    Persistence(SharesStateError),
    CredentialMissing { key: String },
    /// No session is connected that could be asked for the password.
    NoResponderAvailable { key: String, reason: String },
    SubprocessIo(String),
    Timeout { id: ShareId, timeout_ms: u64 },
    /// No dialect worked. `last_error` holds the last attempt's exit code and error
    /// output.
    DialectProbeExhausted { attempted: Vec<String>, last_error: String },
    MountFailed { id: ShareId, exit_code: Option<i32>, stderr: String },
}

/// What a [`MountError`] says.
pub enum MountErrorModel {
    ShareNotFound { id: Seq<char> },
    Persistence(SharesStateError),
    CredentialMissing { key: Seq<char> },
    NoResponderAvailable { key: Seq<char>, reason: Seq<char> },
    SubprocessIo(Seq<char>),
    Timeout { id: Seq<char>, timeout_ms: u64 },
    DialectProbeExhausted { attempted: Seq<Seq<char>>, last_error: Seq<char> },
    MountFailed { id: Seq<char>, exit_code: Option<i32>, stderr: Seq<char> },
}

impl View for MountError {
    type V = MountErrorModel;

    open spec fn view(&self) -> MountErrorModel {
        match *self {
            MountError::ShareNotFound { id } => MountErrorModel::ShareNotFound { id: id@ },
            MountError::Persistence(e) => MountErrorModel::Persistence(e),
            MountError::CredentialMissing { key } => MountErrorModel::CredentialMissing { key: key@ },
            MountError::NoResponderAvailable { key, reason } => {
                MountErrorModel::NoResponderAvailable { key: key@, reason: reason@ }
            },
            MountError::SubprocessIo(e) => MountErrorModel::SubprocessIo(e@),
            MountError::Timeout { id, timeout_ms } => MountErrorModel::Timeout {
                id: id@,
                timeout_ms,
            },
            MountError::DialectProbeExhausted { attempted, last_error } => {
                MountErrorModel::DialectProbeExhausted {
                    attempted: views(attempted@),
                    last_error: last_error@,
                }
            },
            MountError::MountFailed { id, exit_code, stderr } => MountErrorModel::MountFailed {
                id: id@,
                exit_code,
                stderr: stderr@,
            },
        }
    }
}

/// An exit code as Rust's `Debug` renders it.
pub open spec fn exit_text(code: Option<i32>) -> Seq<char> {
    match code {
        Some(c) => "Some("@ + signed_decimal_of(c as int) + ")"@,
        None => "None"@,
    }
}

/// What a failed attempt said: its exit code and its error output.
pub open spec fn failure_text(out: CommandOutput) -> Seq<char> {
    "exit="@ + exit_text(out.exit_code) + ", stderr="@ + utf8_lossy(out.stderr@)
}

impl MountErrorModel {
    /// Operator-facing text.
    pub open spec fn message(self) -> Seq<char> {
        match self {
            MountErrorModel::ShareNotFound { id } => "share "@ + id + " not found"@,
            MountErrorModel::Persistence(e) => "persistence error while updating share state: "@
                + e.message(),
            MountErrorModel::CredentialMissing { key } => "credential vault has no entry for key "@
                + key,
            MountErrorModel::NoResponderAvailable { key, reason } => {
                "no responder available for credential key "@ + key + ": "@ + reason
            },
            MountErrorModel::SubprocessIo(e) => "mount subprocess I/O error: "@ + e,
            MountErrorModel::Timeout { id, timeout_ms } => "mount timed out after "@ + decimal_of(
                timeout_ms as nat,
            ) + "ms for share "@ + id,
            MountErrorModel::DialectProbeExhausted { attempted, last_error } => {
                "CIFS dialect probe exhausted; attempted: "@ + debug_list_of(attempted)
            },
            MountErrorModel::MountFailed { id, exit_code, stderr } => "mount failed for share "@ + id
                + ": exit="@ + exit_text(exit_code) + ", stderr="@ + stderr,
        }
    }
}

fn exit_code_text(code: Option<i32>) -> (r: String)
    ensures
        r@ == exit_text(code),
{
    match code {
        Some(c) => {
            let mut r = joined("Some(", signed_decimal(c as i64).as_str());
            r.append(")");
            r
        },
        None => "None".to_owned(),
    }
}

fn failure_of(out: &CommandOutput) -> (r: String)
    ensures
        r@ == failure_text(*out),
{
    let mut r = joined("exit=", exit_code_text(out.exit_code).as_str());
    r.append(", stderr=");
    r.append(lossy_text(out.stderr.as_slice()).as_str());
    r
}

impl MountError {
    /// Renders the operator-facing text.
    pub fn to_text(&self) -> (r: String)
        ensures
            r@ == self@.message(),
    {
        let mut r: String;
        match self {
            MountError::ShareNotFound { id } => {
                r = joined("share ", id.0.as_str());
                r.append(" not found");
            },
            MountError::Persistence(e) => {
                r = joined("persistence error while updating share state: ", e.to_text().as_str());
            },
            MountError::CredentialMissing { key } => {
                r = joined("credential vault has no entry for key ", key.as_str());
            },
            MountError::NoResponderAvailable { key, reason } => {
                r = joined("no responder available for credential key ", key.as_str());
                r.append(": ");
                r.append(reason.as_str());
            },
            MountError::SubprocessIo(e) => {
                r = joined("mount subprocess I/O error: ", e.as_str());
            },
            MountError::Timeout { id, timeout_ms } => {
                r = joined("mount timed out after ", decimal(*timeout_ms).as_str());
                r.append("ms for share ");
                r.append(id.0.as_str());
            },
            MountError::DialectProbeExhausted { attempted, .. } => {
                r = joined(
                    "CIFS dialect probe exhausted; attempted: ",
                    debug_list(attempted).as_str(),
                );
            },
            MountError::MountFailed { id, exit_code, stderr } => {
                r = joined("mount failed for share ", id.0.as_str());
                r.append(": exit=");
                r.append(exit_code_text(*exit_code).as_str());
                r.append(", stderr=");
                r.append(stderr.as_str());
            },
        }
        r
    }
}

/// The outcome of a mount, by what it says.
pub open spec fn mount_outcome(r: Result<MountReport, MountError>) -> Result<
    ReportModel,
    MountErrorModel,
> {
    match r {
        Ok(report) => Ok(report@),
        Err(e) => Err(e@),
    }
}

// ---------------------------------------------------------------------
// Which dialects to try
// ---------------------------------------------------------------------

/// CIFS dialects in the order in which they are probed. SMB1 is not among them.
pub open spec fn probe_ladder() -> Seq<Seq<char>> {
    seq!["2.0"@, "2.1"@, "3.0"@, "3.02"@, "3.1.1"@]
}

/// The dialect that the operator's options name: the value of the last option of
/// the form `vers=<value>` with a value.
pub open spec fn explicit_dialect(options: Seq<Seq<char>>) -> Option<Seq<char>>
    decreases options.len(),
{
    if options.len() == 0 {
        None
    } else {
        match without_prefix(options.last(), "vers="@) {
            Some(v) => if v.len() > 0 {
                Some(v)
            } else {
                explicit_dialect(options.drop_last())
            },
            None => explicit_dialect(options.drop_last()),
        }
    }
}

/// `dialects` without those equal to `d`.
pub open spec fn leaving_out(dialects: Seq<Seq<char>>, d: Seq<char>) -> Seq<Seq<char>>
    decreases dialects.len(),
{
    if dialects.len() == 0 {
        Seq::empty()
    } else if dialects.last() == d {
        leaving_out(dialects.drop_last(), d)
    } else {
        leaving_out(dialects.drop_last(), d).push(dialects.last())
    }
}

/// The dialect that the operator fixed for a share.
pub open spec fn fixed_dialect(m: RecordModel) -> Option<Seq<char>> {
    explicit_dialect(split_on(m.advanced_options, ','))
}

/// The dialects to try for a share, in order: the one that the operator fixed and
/// no other; else the one that worked last and then the rest of the ladder; else
/// the ladder.
pub open spec fn dialect_plan(m: RecordModel) -> Seq<Seq<char>> {
    match fixed_dialect(m) {
        Some(v) => seq![v],
        None => match m.persisted_vers {
            Some(p) => seq![p] + leaving_out(probe_ladder(), p),
            None => probe_ladder(),
        },
    }
}

/// The probe ladder as strings.
pub fn cifs_vers_probe_ladder() -> (r: Vec<String>)
    ensures
        views(r@) == probe_ladder(),
{
    let mut r: Vec<String> = Vec::new();
    push_owned(&mut r, "2.0".to_owned());
    push_owned(&mut r, "2.1".to_owned());
    push_owned(&mut r, "3.0".to_owned());
    push_owned(&mut r, "3.02".to_owned());
    push_owned(&mut r, "3.1.1".to_owned());
    assert(views(r@) =~= probe_ladder());
    r
}

fn find_fixed(advanced: &str) -> (r: Option<String>)
    ensures
        opt_view(r) == explicit_dialect(split_on(advanced@, ',')),
{
    let chars = chars_of(advanced);
    let options = split(chars.as_slice(), ',');
    let ghost all = piece_views(options@);
    let mut i: usize = options.len();
    assert(all.take(i as int) =~= all);
    while i > 0
        invariant
            i <= options@.len(),
            all == piece_views(options@),
            all == split_on(advanced@, ','),
            explicit_dialect(all) == explicit_dialect(all.take(i as int)),
        decreases i,
    {
        assert(all.take(i as int).last() == options@[i - 1]@);
        assert(all.take(i as int).drop_last() =~= all.take(i - 1));
        if let Some(v) = strip_prefix(options[i - 1].as_slice(), "vers=") {
            if v.len() > 0 {
                return Some(text_of(v));
            }
        }
        i = i - 1;
    }
    None
}

fn ladder_without(d: &String) -> (r: Vec<String>)
    ensures
        views(r@) == leaving_out(probe_ladder(), d@),
{
    let ladder = cifs_vers_probe_ladder();
    let ghost all = views(ladder@);
    let mut r: Vec<String> = Vec::new();
    let n: usize = ladder.len();
    assert(views(r@) =~= leaving_out(all.take(0), d@));
    for i in 0..n
        invariant
            n == ladder@.len(),
            all == views(ladder@),
            views(r@) == leaving_out(all.take(i as int), d@),
    {
        assert(all.take(i + 1).drop_last() =~= all.take(i as int));
        assert(all.take(i + 1).last() == ladder@[i as int]@);
        if ladder[i] != *d {
            push_owned(&mut r, ladder[i].clone());
        }
    }
    assert(all.take(n as int) =~= all);
    r
}

/// Plans the dialects to try for a share.
pub fn plan_dialects(record: &ShareRecord) -> (r: Vec<String>)
    ensures
        views(r@) == dialect_plan(record@),
        r@.len() > 0,
{
    if let Some(v) = find_fixed(record.advanced_options.as_str()) {
        let mut r: Vec<String> = Vec::new();
        push_owned(&mut r, v);
        assert(views(r@) =~= dialect_plan(record@));
        assert(views(r@).len() == r@.len());
        return r;
    }
    match &record.persisted_vers {
        None => {
            let r = cifs_vers_probe_ladder();
            assert(views(r@).len() == r@.len());
            r
        },
        Some(p) => {
            let rest = ladder_without(p);
            let mut r: Vec<String> = Vec::new();
            push_owned(&mut r, p.clone());
            let n: usize = rest.len();
            for i in 0..n
                invariant
                    n == rest@.len(),
                    views(r@) == seq![p@] + views(rest@).take(i as int),
            {
                push_owned(&mut r, rest[i].clone());
                assert(seq![p@] + views(rest@).take(i + 1) =~= (seq![p@] + views(rest@).take(
                    i as int,
                )).push(rest@[i as int]@));
            }
            assert(views(rest@).take(n as int) =~= views(rest@));
            assert(views(r@).len() == r@.len());
            r
        },
    }
}

// ---------------------------------------------------------------------
// The attempt
// ---------------------------------------------------------------------

/// What an attempt waits for.
#[derive(Debug, Clone, Copy, PartialEq, Eq, Structural)]
pub enum Stage {
    Password,
    CifsRun,
    /// Saving the state from which a stale dialect was cleared.
    ClearSave,
    NfsRun,
    MountTable,
    /// Saving the state after success.
    SuccessSave,
    Finished,
}

/// What the host reports back.
#[derive(Debug, PartialEq, Eq)]
pub enum MountEvent {
    /// What the credential vault holds under the key.
    Password(Option<Vec<u8>>),
    /// Nobody could be asked for the password, and why.
    NoResponder(String),
    /// The subprocess ended.
    Output(CommandOutput),
    /// The subprocess could not be run to its end.
    ExecutorFailed(MountError),
    Saved,
    SaveFailed(SharesStateError),
    /// The mount table, where it could be read.
    MountTable(Option<String>),
}

/// What the host has to do next.
#[derive(Debug, PartialEq, Eq)]
pub enum MountStep {
    FetchPassword { credential_key: String },
    /// Run `mount` with these arguments.
    Run { args: Vec<String> },
    Save,
    ReadMountTable,
    Done(Result<MountReport, MountError>),
}

/// What a [`MountStep`] says.
pub enum StepModel {
    FetchPassword { credential_key: Seq<char> },
    Run { args: Seq<Seq<char>> },
    Save,
    ReadMountTable,
    Done(Result<ReportModel, MountErrorModel>),
}

impl View for MountStep {
    type V = StepModel;

    open spec fn view(&self) -> StepModel {
        match *self {
            MountStep::FetchPassword { credential_key } => StepModel::FetchPassword {
                credential_key: credential_key@,
            },
            MountStep::Run { args } => StepModel::Run { args: views(args@) },
            MountStep::Save => StepModel::Save,
            MountStep::ReadMountTable => StepModel::ReadMountTable,
            MountStep::Done(r) => StepModel::Done(mount_outcome(r)),
        }
    }
}

/// A mount in progress.
pub struct MountAttempt {
    record: ShareRecord,
    start_ms: u64,
    stage: Stage,
    password: Option<String>,
    plan: Vec<String>,
    tried: usize,
    last_error: String,
    pending: Option<MountReport>,
}

/// What a [`MountAttempt`] holds.
#[verifier::ext_equal]
pub struct AttemptModel {
    pub record: RecordModel,
    pub start_ms: u64,
    pub stage: Stage,
    pub password: Option<Seq<char>>,
    /// Dialects to try, in order.
    pub plan: Seq<Seq<char>>,
    /// How many of them have failed.
    pub tried: nat,
    /// What the last failed attempt printed.
    pub last_error: Seq<char>,
    /// The report to give once the state is saved.
    pub pending: Option<ReportModel>,
}

impl View for MountAttempt {
    type V = AttemptModel;

    closed spec fn view(&self) -> AttemptModel {
        AttemptModel {
            record: self.record@,
            start_ms: self.start_ms,
            stage: self.stage,
            password: opt_view(self.password),
            plan: views(self.plan@),
            tried: self.tried as nat,
            last_error: self.last_error@,
            pending: match self.pending {
                Some(report) => Some(report@),
                None => None,
            },
        }
    }
}

impl AttemptModel {
    /// What holds between any two steps.
    pub open spec fn well_formed(self) -> bool {
        &&& self.plan == dialect_plan(self.record)
        &&& self.tried <= self.plan.len()
        &&& self.stage == Stage::CifsRun ==> self.tried < self.plan.len()
        &&& self.stage == Stage::Password ==> self.record.credentials is UserPassword && self.tried
            == 0 && self.plan.len() > 0
        &&& self.stage == Stage::SuccessSave ==> self.pending is Some
    }

    /// Whether `event` answers what the attempt waits for.
    pub open spec fn expects(self, event: MountEvent) -> bool {
        match self.stage {
            Stage::Password => event is Password || event is NoResponder,
            Stage::CifsRun | Stage::NfsRun => event is Output || event is ExecutorFailed,
            Stage::ClearSave | Stage::SuccessSave => event is Saved || event is SaveFailed,
            Stage::MountTable => event is MountTable,
            Stage::Finished => false,
        }
    }

    /// Goes on with the next dialect, or gives up when there is none left.
    pub open spec fn try_next(self) -> (AttemptModel, StepModel) {
        if self.tried < self.plan.len() {
            (
                AttemptModel { stage: Stage::CifsRun, ..self },
                StepModel::Run {
                    args: cifs_args(self.record, self.plan[self.tried as int], self.password),
                },
            )
        } else {
            (
                AttemptModel { stage: Stage::Finished, ..self },
                StepModel::Done(
                    Err(
                        MountErrorModel::DialectProbeExhausted {
                            attempted: self.plan,
                            last_error: self.last_error,
                        },
                    ),
                ),
            )
        }
    }

    /// Ends with an error.
    pub open spec fn fail(self, e: MountErrorModel) -> (AttemptModel, StepModel) {
        (AttemptModel { stage: Stage::Finished, ..self }, StepModel::Done(Err(e)))
    }

    /// Whether the dialect that failed first was the persisted one.
    pub open spec fn clears_persisted(self) -> bool {
        self.tried == 0 && fixed_dialect(self.record) is None && self.record.persisted_vers is Some
    }

    /// The report of a mount that succeeded at `now_ms`.
    pub open spec fn report(self, version: Option<Seq<char>>, now_ms: u64) -> ReportModel {
        ReportModel {
            share_id: self.record.share_id,
            mount_root: self.record.mount_root,
            negotiated_version: version,
            elapsed_ms: if now_ms >= self.start_ms {
                (now_ms - self.start_ms) as u64
            } else {
                0
            },
        }
    }
}

/// Position of the first share with identifier `id`.
pub open spec fn first_pos(shares: Seq<RecordModel>, id: Seq<char>) -> int {
    choose|i: int| is_first_with_id(shares, id, i)
}

/// The state with the first share of this identifier rewritten, where there is
/// one.
pub open spec fn rewritten(state: StateModel, id: Seq<char>, f: spec_fn(RecordModel) -> RecordModel) ->
    StateModel {
    if has_id(state.shares, id) {
        let i = first_pos(state.shares, id);
        StateModel { shares: state.shares.update(i, f(state.shares[i])), ..state }
    } else {
        state
    }
}

/// The state after a CIFS mount with `dialect` succeeded.
pub open spec fn with_dialect(state: StateModel, id: Seq<char>, dialect: Seq<char>, now_ms: u64) ->
    StateModel {
    rewritten(
        state,
        id,
        |m: RecordModel|
            RecordModel {
                persisted_vers: Some(dialect),
                last_mounted_at_ms: Some(now_ms as i64),
                ..m
            },
    )
}

/// The state after an NFS mount succeeded.
pub open spec fn with_mount_time(state: StateModel, id: Seq<char>, now_ms: u64) -> StateModel {
    rewritten(
        state,
        id,
        |m: RecordModel| RecordModel { last_mounted_at_ms: Some(now_ms as i64), ..m },
    )
}

/// The state without the persisted dialect of a share.
pub open spec fn without_dialect(state: StateModel, id: Seq<char>) -> StateModel {
    rewritten(state, id, |m: RecordModel| RecordModel { persisted_vers: None, ..m })
}

/// The first action of mounting `m`.
pub open spec fn begun(m: RecordModel, start_ms: u64) -> (AttemptModel, StepModel) {
    let a = AttemptModel {
        record: m,
        start_ms,
        stage: Stage::CifsRun,
        password: None,
        plan: dialect_plan(m),
        tried: 0,
        last_error: Seq::empty(),
        pending: None,
    };
    if m.fstype == FsType::Nfs {
        (AttemptModel { stage: Stage::NfsRun, ..a }, StepModel::Run { args: nfs_args(m) })
    } else {
        match m.credentials {
            CredentialsModel::UserPassword { credential_key, .. } => (
                AttemptModel { stage: Stage::Password, ..a },
                StepModel::FetchPassword { credential_key },
            ),
            _ => a.try_next(),
        }
    }
}

/// What an attempt makes of an event: its next state, the shares then held, and
/// the next action.
pub open spec fn stepped(a: AttemptModel, state: StateModel, event: MountEvent, now_ms: u64) -> (
    AttemptModel,
    StateModel,
    StepModel,
) {
    match event {
        MountEvent::Password(found) => {
            let key = a.record.credentials->UserPassword_credential_key;
            match found {
                None => {
                    let (b, s) = a.fail(MountErrorModel::CredentialMissing { key });
                    (b, state, s)
                },
                Some(bytes) => match utf8_reading(bytes@) {
                    Ok(pw) => {
                        let (b, s) = (AttemptModel { password: Some(pw), ..a }).try_next();
                        (b, state, s)
                    },
                    Err(e) => {
                        let (b, s) = a.fail(
                            MountErrorModel::CredentialMissing {
                                key: key + " (non-utf8 payload: "@ + e + ")"@,
                            },
                        );
                        (b, state, s)
                    },
                },
            }
        },
        MountEvent::NoResponder(reason) => {
            let (b, s) = a.fail(
                MountErrorModel::NoResponderAvailable {
                    key: a.record.credentials->UserPassword_credential_key,
                    reason: reason@,
                },
            );
            (b, state, s)
        },
        MountEvent::ExecutorFailed(e) => {
            let (b, s) = a.fail(e@);
            (b, state, s)
        },
        MountEvent::Output(out) => if a.stage == Stage::NfsRun {
            if out.exit_code == Some(0i32) {
                (
                    AttemptModel { stage: Stage::MountTable, ..a },
                    state,
                    StepModel::ReadMountTable,
                )
            } else {
                let (b, s) = a.fail(
                    MountErrorModel::MountFailed {
                        id: a.record.share_id,
                        exit_code: out.exit_code,
                        stderr: utf8_lossy(out.stderr@),
                    },
                );
                (b, state, s)
            }
        } else if out.exit_code == Some(0i32) {
            let dialect = a.plan[a.tried as int];
            (
                AttemptModel {
                    stage: Stage::SuccessSave,
                    pending: Some(a.report(Some(dialect), now_ms)),
                    ..a
                },
                with_dialect(state, a.record.share_id, dialect, now_ms),
                StepModel::Save,
            )
        } else {
            let b = AttemptModel { tried: a.tried + 1, last_error: failure_text(out), ..a };
            if a.clears_persisted() {
                (
                    AttemptModel { stage: Stage::ClearSave, ..b },
                    without_dialect(state, a.record.share_id),
                    StepModel::Save,
                )
            } else {
                let (c, s) = b.try_next();
                (c, state, s)
            }
        },
        MountEvent::MountTable(table) => {
            let version = match table {
                Some(t) => version_in_lines(lines_of(t@), a.record.mount_root),
                None => None,
            };
            (
                AttemptModel {
                    stage: Stage::SuccessSave,
                    pending: Some(a.report(version, now_ms)),
                    ..a
                },
                with_mount_time(state, a.record.share_id, now_ms),
                StepModel::Save,
            )
        },
        MountEvent::Saved => if a.stage == Stage::ClearSave {
            let (b, s) = a.try_next();
            (b, state, s)
        } else {
            (
                AttemptModel { stage: Stage::Finished, pending: None, ..a },
                state,
                StepModel::Done(Ok(a.pending->Some_0)),
            )
        },
        MountEvent::SaveFailed(e) => {
            let (b, s) = a.fail(MountErrorModel::Persistence(e));
            (b, state, s)
        },
    }
}

proof fn lemma_first_pos(shares: Seq<RecordModel>, id: Seq<char>, i: int)
    requires
        is_first_with_id(shares, id, i),
    ensures
        has_id(shares, id),
        first_pos(shares, id) == i,
{
    let j = first_pos(shares, id);
    assert(is_first_with_id(shares, id, j));
    if j < i {
        assert(shares[j].share_id == id);
    } else if i < j {
        assert(shares[i].share_id == id);
    }
}

/// `first_pos` is the only position that comes first.
proof fn lemma_first_pos_unique(shares: Seq<RecordModel>, id: Seq<char>)
    ensures
        forall|i: int| is_first_with_id(shares, id, i) ==> has_id(shares, id) && i == first_pos(
            shares,
            id,
        ),
{
    assert forall|i: int| is_first_with_id(shares, id, i) implies has_id(shares, id) && i
        == first_pos(shares, id) by {
        lemma_first_pos(shares, id, i);
    }
}

/// Records a successful CIFS mount.
fn mark_dialect(state: &mut NetworkSharesState, id: &ShareId, dialect: &String, now_ms: u64)
    ensures
        final(state)@ == with_dialect(old(state)@, id@, dialect@, now_ms),
{
    proof {
        lemma_first_pos_unique(state@.shares, id@);
    }
    match state.find_mut(id) {
        Some(record) => {
            record.persisted_vers = Some(dialect.clone());
            record.last_mounted_at_ms = Some(now_ms as i64);
        },
        None => {},
    }
    assert(state@ =~= with_dialect(old(state)@, id@, dialect@, now_ms));
}

/// Records a successful NFS mount.
fn mark_mount_time(state: &mut NetworkSharesState, id: &ShareId, now_ms: u64)
    ensures
        final(state)@ == with_mount_time(old(state)@, id@, now_ms),
{
    proof {
        lemma_first_pos_unique(state@.shares, id@);
    }
    match state.find_mut(id) {
        Some(record) => {
            record.last_mounted_at_ms = Some(now_ms as i64);
        },
        None => {},
    }
    assert(state@ =~= with_mount_time(old(state)@, id@, now_ms));
}

/// Forgets the persisted dialect of a share.
pub fn clear_persisted_vers(state: &mut NetworkSharesState, id: &ShareId)
    ensures
        final(state)@ == without_dialect(old(state)@, id@),
{
    proof {
        lemma_first_pos_unique(state@.shares, id@);
    }
    match state.find_mut(id) {
        Some(record) => {
            record.persisted_vers = None;
        },
        None => {},
    }
    assert(state@ =~= without_dialect(old(state)@, id@));
}

fn opt_as_str(o: &Option<String>) -> (r: Option<&str>)
    ensures
        opt_str_view(r) == opt_view(*o),
{
    match o {
        Some(s) => Some(s.as_str()),
        None => None,
    }
}

impl MountAttempt {
    /// Starts mounting a share.
    pub fn begin(record: ShareRecord, start_ms: u64) -> (r: (MountAttempt, MountStep))
        ensures
            (r.0@, r.1@) == begun(record@, start_ms),
            r.0@.well_formed(),
    {
        let plan = plan_dialects(&record);
        assert(views(plan@).len() == plan@.len());
        let mut a = MountAttempt {
            record,
            start_ms,
            stage: Stage::CifsRun,
            password: None,
            plan,
            tried: 0,
            last_error: String::new(),
            pending: None,
        };
        if a.record.fstype == FsType::Nfs {
            a.stage = Stage::NfsRun;
            let args = build_nfs_mount_args(&a.record);
            return (a, MountStep::Run { args });
        }
        let key = match &a.record.credentials {
            Credentials::UserPassword { credential_key, .. } => Some(credential_key.clone()),
            _ => None,
        };
        match key {
            Some(credential_key) => {
                a.stage = Stage::Password;
                (a, MountStep::FetchPassword { credential_key })
            },
            None => {
                let step = a.advance();
                (a, step)
            },
        }
    }

    fn advance(&mut self) -> (r: MountStep)
        requires
            old(self)@.tried <= old(self)@.plan.len(),
        ensures
            (final(self)@, r@) == old(self)@.try_next(),
    {
        assert(self@.plan.len() == self.plan@.len());
        if self.tried < self.plan.len() {
            self.stage = Stage::CifsRun;
            assert(self@.plan[self.tried as int] == self.plan@[self.tried as int]@);
            let args = build_cifs_mount_args(
                &self.record,
                self.plan[self.tried].as_str(),
                opt_as_str(&self.password),
            );
            MountStep::Run { args }
        } else {
            self.stage = Stage::Finished;
            let attempted = clone_list(&self.plan);
            MountStep::Done(
                Err(
                    MountError::DialectProbeExhausted {
                        attempted,
                        last_error: self.last_error.clone(),
                    },
                ),
            )
        }
    }

    fn finish_with(&mut self, e: MountError) -> (r: MountStep)
        ensures
            (final(self)@, r@) == old(self)@.fail(e@),
    {
        self.stage = Stage::Finished;
        MountStep::Done(Err(e))
    }

    fn report(&self, version: Option<String>, now_ms: u64) -> (r: MountReport)
        ensures
            r@ == self@.report(opt_view(version), now_ms),
    {
        MountReport {
            share_id: self.record.share_id.clone(),
            mount_root: self.record.mount_root.clone(),
            negotiated_version: version,
            elapsed_ms: now_ms.saturating_sub(self.start_ms),
        }
    }

    /// Takes in what came of the last action, updates the shares where the mount
    /// got that far, and names the next action.
    pub fn step(
        &mut self,
        state: &mut NetworkSharesState,
        event: MountEvent,
        now_ms: u64,
    ) -> (r: MountStep)
        requires
            old(self)@.well_formed(),
            old(self)@.expects(event),
        ensures
            (final(self)@, final(state)@, r@) == stepped(old(self)@, old(state)@, event, now_ms),
            final(self)@.well_formed(),
    {
        assert(self@.plan.len() == self.plan@.len());
        match event {
            MountEvent::Password(found) => self.on_password(found),
            MountEvent::NoResponder(reason) => {
                let key = self.credential_key();
                self.finish_with(MountError::NoResponderAvailable { key, reason })
            },
            MountEvent::ExecutorFailed(e) => self.finish_with(e),
            MountEvent::Output(out) => if self.stage == Stage::NfsRun {
                self.on_nfs_output(out)
            } else {
                self.on_cifs_output(state, out, now_ms)
            },
            MountEvent::MountTable(table) => {
                let version = match table {
                    Some(t) => parse_nfs_version_from_proc_mounts(
                        t.as_str(),
                        self.record.mount_root.as_str(),
                    ),
                    None => None,
                };
                let report = self.report(version, now_ms);
                self.pending = Some(report);
                self.stage = Stage::SuccessSave;
                mark_mount_time(state, &self.record.share_id, now_ms);
                MountStep::Save
            },
            MountEvent::Saved => if self.stage == Stage::ClearSave {
                self.advance()
            } else {
                self.stage = Stage::Finished;
                match self.pending.take() {
                    Some(report) => MountStep::Done(Ok(report)),
                    None => {
                        assert(false);
                        MountStep::Save
                    },
                }
            },
            MountEvent::SaveFailed(e) => self.finish_with(MountError::Persistence(e)),
        }
    }

    fn credential_key(&self) -> (r: String)
        requires
            self@.well_formed(),
            self@.stage == Stage::Password,
        ensures
            r@ == self@.record.credentials->UserPassword_credential_key,
    {
        match &self.record.credentials {
            Credentials::UserPassword { credential_key, .. } => credential_key.clone(),
            _ => String::new(),
        }
    }

    fn on_password(&mut self, found: Option<Vec<u8>>) -> (r: MountStep)
        requires
            old(self)@.well_formed(),
            old(self)@.stage == Stage::Password,
        ensures
            forall|state: StateModel, now_ms: u64|
                (final(self)@, state, r@) == #[trigger] stepped(
                    old(self)@,
                    state,
                    MountEvent::Password(found),
                    now_ms,
                ),
            final(self)@.well_formed(),
    {
        let key = self.credential_key();
        match found {
            None => self.finish_with(MountError::CredentialMissing { key }),
            Some(bytes) => match utf8_text(bytes) {
                Ok(pw) => {
                    self.password = Some(pw);
                    self.advance()
                },
                Err(e) => {
                    let mut k = joined(key.as_str(), " (non-utf8 payload: ");
                    k.append(e.as_str());
                    k.append(")");
                    self.finish_with(MountError::CredentialMissing { key: k })
                },
            },
        }
    }

    fn on_nfs_output(&mut self, out: CommandOutput) -> (r: MountStep)
        requires
            old(self)@.well_formed(),
            old(self)@.stage == Stage::NfsRun,
        ensures
            forall|state: StateModel, now_ms: u64|
                (final(self)@, state, r@) == #[trigger] stepped(
                    old(self)@,
                    state,
                    MountEvent::Output(out),
                    now_ms,
                ),
            final(self)@.well_formed(),
    {
        if is_success(&out) {
            self.stage = Stage::MountTable;
            MountStep::ReadMountTable
        } else {
            let e = MountError::MountFailed {
                id: self.record.share_id.clone(),
                exit_code: out.exit_code,
                stderr: lossy_text(out.stderr.as_slice()),
            };
            self.finish_with(e)
        }
    }

    fn on_cifs_output(&mut self, state: &mut NetworkSharesState, out: CommandOutput, now_ms: u64) -> (r:
        MountStep)
        requires
            old(self)@.well_formed(),
            old(self)@.stage == Stage::CifsRun,
        ensures
            (final(self)@, final(state)@, r@) == stepped(
                old(self)@,
                old(state)@,
                MountEvent::Output(out),
                now_ms,
            ),
            final(self)@.well_formed(),
    {
        assert(self@.plan.len() == self.plan@.len());
        if is_success(&out) {
            assert(self@.plan[self.tried as int] == self.plan@[self.tried as int]@);
            let dialect = self.plan[self.tried].clone();
            mark_dialect(state, &self.record.share_id, &dialect, now_ms);
            let report = self.report(Some(dialect), now_ms);
            self.pending = Some(report);
            self.stage = Stage::SuccessSave;
            return MountStep::Save;
        }
        let stale = self.tried == 0 && find_fixed(self.record.advanced_options.as_str()).is_none()
            && self.record.persisted_vers.is_some();
        assert(self.tried < self.plan.len());
        self.tried = self.tried + 1;
        self.last_error = failure_of(&out);
        if stale {
            clear_persisted_vers(state, &self.record.share_id);
            self.stage = Stage::ClearSave;
            return MountStep::Save;
        }
        self.advance()
    }
}

fn is_success(out: &CommandOutput) -> (r: bool)
    ensures
        r == (out.exit_code == Some(0i32)),
{
    match out.exit_code {
        Some(c) => c == 0,
        None => false,
    }
}

fn clone_list(v: &Vec<String>) -> (r: Vec<String>)
    ensures
        views(r@) == views(v@),
{
    let mut r: Vec<String> = Vec::new();
    let n: usize = v.len();
    for i in 0..n
        invariant
            n == v@.len(),
            r@.len() == i,
            forall|j: int| 0 <= j < i ==> r@[j]@ == v@[j]@,
    {
        r.push(v[i].clone());
    }
    assert(views(r@) =~= views(v@));
    r
}

// ---------------------------------------------------------------------
// Laws
// ---------------------------------------------------------------------

/// The attempt after a run of failed dialects, saving where it has to.
pub open spec fn after_failures(
    a: AttemptModel,
    state: StateModel,
    step: StepModel,
    outputs: Seq<CommandOutput>,
    now_ms: u64,
) -> (AttemptModel, StateModel, StepModel)
    decreases outputs.len(),
{
    if outputs.len() == 0 {
        (a, state, step)
    } else {
        let before = after_failures(a, state, step, outputs.drop_last(), now_ms);
        let next = stepped(before.0, before.1, MountEvent::Output(outputs.last()), now_ms);
        if next.2 is Save {
            stepped(next.0, next.1, MountEvent::Saved, now_ms)
        } else {
            next
        }
    }
}

/// The probe tries the planned dialects in order, each once: after any number of
/// failures the next command names the next dialect of the plan, and when the
/// plan is exhausted the error lists all of it with what the last attempt said.
/// The shares lose the persisted dialect once it has failed, and nothing else.
pub proof fn law_probe_follows_the_plan(
    m: RecordModel,
    password: Option<Seq<char>>,
    a: AttemptModel,
    state: StateModel,
    outputs: Seq<CommandOutput>,
    now_ms: u64,
)
    requires
        a.record == m,
        a.plan == dialect_plan(m),
        a.plan.len() > 0,
        a.password == password,
        a.stage == Stage::CifsRun,
        a.tried == 0,
        outputs.len() <= a.plan.len(),
        forall|i: int| 0 <= i < outputs.len() ==> (#[trigger] outputs[i]).exit_code != Some(0i32),
    ensures
        ({
            let start = StepModel::Run { args: cifs_args(m, a.plan[0], password) };
            let end = after_failures(a, state, start, outputs, now_ms);
            let n = outputs.len() as int;
            &&& end.0.record == m && end.0.plan == a.plan && end.0.password == password
            &&& end.0.start_ms == a.start_ms && end.0.tried == n
            &&& end.1 == if n > 0 && a.clears_persisted() {
                without_dialect(state, m.share_id)
            } else {
                state
            }
            &&& n < a.plan.len() ==> end.0.stage == Stage::CifsRun && end.2 == (StepModel::Run {
                args: cifs_args(m, a.plan[n], password),
            })
            &&& n == a.plan.len() ==> end.2 == StepModel::Done(
                Err::<ReportModel, _>(
                    MountErrorModel::DialectProbeExhausted {
                        attempted: dialect_plan(m),
                        last_error: failure_text(outputs[n - 1]),
                    },
                ),
            )
        }),
    decreases outputs.len(),
{
    if outputs.len() > 0 {
        law_probe_follows_the_plan(m, password, a, state, outputs.drop_last(), now_ms);
        assert(outputs[outputs.len() - 1].exit_code != Some(0i32));
    }
}

/// The first dialect to succeed wins: it is persisted with the time of the mount,
/// and once that is saved it is what the report gives.
pub proof fn law_first_success_is_persisted(
    a: AttemptModel,
    state: StateModel,
    out: CommandOutput,
    now_ms: u64,
)
    requires
        a.well_formed(),
        a.stage == Stage::CifsRun,
        out.exit_code == Some(0i32),
        has_id(state.shares, a.record.share_id),
    ensures
        ({
            let dialect = a.plan[a.tried as int];
            let saved = stepped(a, state, MountEvent::Output(out), now_ms);
            let done = stepped(saved.0, saved.1, MountEvent::Saved, now_ms);
            let i = first_pos(state.shares, a.record.share_id);
            &&& saved.2 is Save
            &&& saved.1.shares[i].persisted_vers == Some(dialect)
            &&& saved.1.shares[i].last_mounted_at_ms == Some(now_ms as i64)
            &&& saved.1.shares.len() == state.shares.len()
            &&& done.2 == StepModel::Done(
                Ok::<_, MountErrorModel>(a.report(Some(dialect), now_ms)),
            )
        }),
{
    let i = choose|i: int|
        0 <= i < state.shares.len() && (#[trigger] state.shares[i]).share_id == a.record.share_id;
    lemma_first_exists(state.shares, a.record.share_id, i);
}

/// A probe as a whole: however many dialects failed first, the one that then
/// works is what the share persists, with the time of the mount, and what the
/// report gives once that is saved. No other share changes.
pub proof fn law_the_working_dialect_wins(
    a: AttemptModel,
    state: StateModel,
    failed: Seq<CommandOutput>,
    out: CommandOutput,
    now_ms: u64,
)
    requires
        a.well_formed(),
        a.stage == Stage::CifsRun,
        a.tried == 0,
        failed.len() < a.plan.len(),
        forall|i: int| 0 <= i < failed.len() ==> (#[trigger] failed[i]).exit_code != Some(0i32),
        out.exit_code == Some(0i32),
        has_id(state.shares, a.record.share_id),
    ensures
        ({
            let start = StepModel::Run { args: cifs_args(a.record, a.plan[0], a.password) };
            let probed = after_failures(a, state, start, failed, now_ms);
            let saved = stepped(probed.0, probed.1, MountEvent::Output(out), now_ms);
            let done = stepped(saved.0, saved.1, MountEvent::Saved, now_ms);
            let dialect = a.plan[failed.len() as int];
            &&& saved.2 is Save
            &&& saved.1 == with_dialect(state, a.record.share_id, dialect, now_ms)
            &&& done.1 == saved.1
            &&& done.2 == StepModel::Done(
                Ok::<_, MountErrorModel>(a.report(Some(dialect), now_ms)),
            )
        }),
{
    let id = a.record.share_id;
    law_probe_follows_the_plan(a.record, a.password, a, state, failed, now_ms);
    let k = choose|k: int|
        0 <= k < state.shares.len() && (#[trigger] state.shares[k]).share_id == id;
    lemma_first_exists(state.shares, id, k);
    let i = first_pos(state.shares, id);
    let cleared = without_dialect(state, id);
    assert(cleared.shares[i].share_id == id);
    lemma_first_exists(cleared.shares, id, i);
    let j = first_pos(cleared.shares, id);
    assert(state.shares[j].share_id == id);
    assert(cleared.shares[j].share_id == id);
    assert(j == i);
    let dialect = a.plan[failed.len() as int];
    assert(with_dialect(cleared, id, dialect, now_ms).shares =~= with_dialect(
        state,
        id,
        dialect,
        now_ms,
    ).shares);
}

proof fn lemma_first_exists(shares: Seq<RecordModel>, id: Seq<char>, i: int)
    requires
        0 <= i < shares.len(),
        shares[i].share_id == id,
    ensures
        is_first_with_id(shares, id, first_pos(shares, id)),
    decreases i,
{
    if forall|j: int| 0 <= j < i ==> (#[trigger] shares[j]).share_id != id {
        assert(is_first_with_id(shares, id, i));
    } else {
        let j = choose|j: int| 0 <= j < i && (#[trigger] shares[j]).share_id == id;
        lemma_first_exists(shares, id, j);
    }
}

/// A persisted dialect that no longer works is forgotten before anything else is
/// tried, and it is not tried again.
pub proof fn law_stale_dialect_is_cleared(
    a: AttemptModel,
    state: StateModel,
    out: CommandOutput,
    now_ms: u64,
)
    requires
        a.well_formed(),
        a.stage == Stage::CifsRun,
        a.tried == 0,
        fixed_dialect(a.record) is None,
        a.record.persisted_vers is Some,
        out.exit_code != Some(0i32),
    ensures
        ({
            let next = stepped(a, state, MountEvent::Output(out), now_ms);
            &&& next.2 is Save
            &&& next.1 == without_dialect(state, a.record.share_id)
        }),
        a.plan[0] == a.record.persisted_vers->Some_0,
        forall|i: int|
            1 <= i < a.plan.len() ==> #[trigger] a.plan[i] != a.record.persisted_vers->Some_0,
{
    let p = a.record.persisted_vers->Some_0;
    lemma_leaving_out(probe_ladder(), p);
    assert forall|i: int| 1 <= i < a.plan.len() implies #[trigger] a.plan[i] != p by {
        assert(a.plan[i] == leaving_out(probe_ladder(), p)[i - 1]);
    }
}

proof fn lemma_leaving_out(dialects: Seq<Seq<char>>, d: Seq<char>)
    ensures
        forall|i: int| 0 <= i < leaving_out(dialects, d).len() ==> #[trigger] leaving_out(
            dialects,
            d,
        )[i] != d,
        forall|i: int|
            0 <= i < leaving_out(dialects, d).len() ==> dialects.contains(
                #[trigger] leaving_out(dialects, d)[i],
            ),
    decreases dialects.len(),
{
    if dialects.len() > 0 {
        let front = dialects.drop_last();
        lemma_leaving_out(front, d);
        assert forall|i: int| 0 <= i < leaving_out(dialects, d).len() implies dialects.contains(
            #[trigger] leaving_out(dialects, d)[i],
        ) by {
            if i < leaving_out(front, d).len() {
                let x = leaving_out(front, d)[i];
                assert(front.contains(x));
                let k = choose|k: int| 0 <= k < front.len() && front[k] == x;
                assert(dialects[k] == x);
            } else {
                assert(dialects[dialects.len() - 1] == leaving_out(dialects, d)[i]);
            }
        }
    }
}

/// SMB1 is never probed: every planned dialect is on the ladder, or worked last
/// time, or is what the operator asked for.
pub proof fn law_only_known_dialects_are_tried(m: RecordModel, i: int)
    requires
        0 <= i < dialect_plan(m).len(),
    ensures
        ({
            let d = dialect_plan(m)[i];
            ||| probe_ladder().contains(d)
            ||| m.persisted_vers == Some(d)
            ||| fixed_dialect(m) == Some(d)
        }),
{
    match fixed_dialect(m) {
        Some(v) => {},
        None => match m.persisted_vers {
            Some(p) => {
                lemma_leaving_out(probe_ladder(), p);
                if i > 0 {
                    assert(dialect_plan(m)[i] == leaving_out(probe_ladder(), p)[i - 1]);
                }
            },
            None => {
                assert(probe_ladder()[i] == dialect_plan(m)[i]);
            },
        },
    }
}

/// An NFS mount never persists a version: only the time of the mount changes.
pub proof fn law_nfs_persists_no_version(
    a: AttemptModel,
    state: StateModel,
    table: Option<String>,
    now_ms: u64,
)
    requires
        a.stage == Stage::MountTable,
    ensures
        ({
            let next = stepped(a, state, MountEvent::MountTable(table), now_ms).1;
            &&& next.shares.len() == state.shares.len()
            &&& forall|i: int|
                0 <= i < state.shares.len() ==> (#[trigger] next.shares[i]).persisted_vers
                    == state.shares[i].persisted_vers
        }),
{
    if has_id(state.shares, a.record.share_id) {
        let i = choose|i: int|
            0 <= i < state.shares.len() && (#[trigger] state.shares[i]).share_id
                == a.record.share_id;
        lemma_first_exists(state.shares, a.record.share_id, i);
    }
}

/// Passwords never reach the shares file: taking one in leaves the shares as they
/// are, and after that neither the shares nor how far the attempt has come depend
/// on what the password is.
pub proof fn law_passwords_stay_out_of_the_shares(
    a: AttemptModel,
    state: StateModel,
    event: MountEvent,
    now_ms: u64,
    other: Option<Seq<char>>,
)
    ensures
        event is Password ==> stepped(a, state, event, now_ms).1 == state,
        stepped(AttemptModel { password: other, ..a }, state, event, now_ms).1 == stepped(
            a,
            state,
            event,
            now_ms,
        ).1,
        stepped(AttemptModel { password: other, ..a }, state, event, now_ms).0.stage == stepped(
            a,
            state,
            event,
            now_ms,
        ).0.stage,
{
}

// ---------------------------------------------------------------------
// Running commands and fetching credentials
// ---------------------------------------------------------------------

/// How the run of a subprocess ended.
pub enum RunEnd {
    /// It could not be started.
    NotStarted(String),
    /// Waiting for it failed.
    NotAwaited(String),
    /// It outlived its deadline and was killed.
    Elapsed,
    /// It ended by itself.
    Finished(CommandOutput),
}

/// Runs commands as subprocesses.
#[derive(Debug, Clone, Copy)]
pub struct SubprocessMountExecutor;

impl SubprocessMountExecutor {
    /// The result of a run made on behalf of the share `id`.
    pub fn result_of(&self, end: RunEnd, id: &ShareId, timeout_ms: u64) -> (r: Result<
        CommandOutput,
        MountError,
    >)
        ensures
            r == (match end {
                RunEnd::NotStarted(e) => Err::<CommandOutput, MountError>(
                    MountError::SubprocessIo(e),
                ),
                RunEnd::NotAwaited(e) => Err(MountError::SubprocessIo(e)),
                RunEnd::Elapsed => Err(MountError::Timeout { id: *id, timeout_ms }),
                RunEnd::Finished(out) => Ok(out),
            }),
    {
        match end {
            RunEnd::NotStarted(e) => Err(MountError::SubprocessIo(e)),
            RunEnd::NotAwaited(e) => Err(MountError::SubprocessIo(e)),
            RunEnd::Elapsed => Err(MountError::Timeout { id: id.clone(), timeout_ms }),
            RunEnd::Finished(out) => Ok(out),
        }
    }
}

/// Looks up the secrets that shares refer to.
pub trait CredentialFetcher {
    /// The bytes stored under a key, if there are any.
    fn fetch_password(&self, credential_key: &str) -> Option<Vec<u8>>;
}

/// Knows no secret: for hosts that mount guest shares only.
#[derive(Debug, Clone, Copy)]
pub struct NoCredentialFetcher;

impl CredentialFetcher for NoCredentialFetcher {
    fn fetch_password(&self, credential_key: &str) -> (r: Option<Vec<u8>>)
        ensures
            r is None,
    {
        None
    }
}

// ---------------------------------------------------------------------
// Laws of the plan and of the steps
// ---------------------------------------------------------------------

/// The last `vers=` option with a value fixes the dialect, and no other option has
/// a say in it.
pub proof fn law_the_last_version_option_counts(
    options: Seq<Seq<char>>,
    value: Seq<char>,
    other: Seq<char>,
)
    ensures
        value.len() > 0 ==> explicit_dialect(options.push("vers="@ + value)) == Some(value),
        explicit_dialect(options.push("vers="@)) == explicit_dialect(options),
        without_prefix(other, "vers="@) is None ==> explicit_dialect(options.push(other))
            == explicit_dialect(options),
        explicit_dialect(Seq::empty()) is None,
{
    reveal_strlit("vers=");
    let mark = "vers="@;
    let o = mark + value;
    assert(o.subrange(0, mark.len() as int) =~= mark);
    assert(o.skip(mark.len() as int) =~= value);
    assert(mark.subrange(0, mark.len() as int) =~= mark);
    assert(mark.skip(mark.len() as int) =~= Seq::<char>::empty());
    assert(options.push(o).drop_last() =~= options);
    assert(options.push(mark).drop_last() =~= options);
    assert(options.push(other).drop_last() =~= options);
}

proof fn lemma_others_stay(dialects: Seq<Seq<char>>, d: Seq<char>, k: int)
    requires
        0 <= k < dialects.len(),
        dialects[k] != d,
    ensures
        leaving_out(dialects, d).contains(dialects[k]),
    decreases dialects.len(),
{
    let front = dialects.drop_last();
    if k < front.len() {
        lemma_others_stay(front, d, k);
        let i = choose|i: int|
            0 <= i < leaving_out(front, d).len() && leaving_out(front, d)[i] == front[k];
        assert(leaving_out(dialects, d)[i] == dialects[k]);
    } else {
        assert(leaving_out(dialects, d)[leaving_out(front, d).len() as int] == dialects[k]);
    }
}

/// A dialect that the operator fixed is the only one tried. Without one, every
/// dialect of the ladder is tried before the mount is given up, the one that worked
/// last before all others.
pub proof fn law_every_dialect_is_tried(m: RecordModel, d: Seq<char>)
    ensures
        fixed_dialect(m) matches Some(v) ==> dialect_plan(m) == seq![v],
        fixed_dialect(m) is None && (d == "2.0"@ || d == "2.1"@ || d == "3.0"@ || d == "3.02"@ || d
            == "3.1.1"@) ==> dialect_plan(m).contains(d),
        fixed_dialect(m) is None ==> (m.persisted_vers matches Some(p) ==> dialect_plan(m)[0] == p),
        fixed_dialect(m) is None && m.persisted_vers is None ==> dialect_plan(m).len() == 5
            && dialect_plan(m)[0] == "2.0"@ && dialect_plan(m)[4] == "3.1.1"@,
{
    let ladder = probe_ladder();
    assert(ladder[0] == "2.0"@ && ladder[1] == "2.1"@ && ladder[2] == "3.0"@ && ladder[3]
        == "3.02"@ && ladder[4] == "3.1.1"@);
    if fixed_dialect(m) is None && (d == "2.0"@ || d == "2.1"@ || d == "3.0"@ || d == "3.02"@ || d
        == "3.1.1"@) {
        assert(ladder.contains(d));
        let k = choose|k: int| 0 <= k < ladder.len() && ladder[k] == d;
        if let Some(p) = m.persisted_vers {
            let plan = dialect_plan(m);
            assert(plan[0] == p);
            if p != d {
                lemma_others_stay(ladder, p, k);
                let rest = leaving_out(ladder, p);
                let i = choose|i: int| 0 <= i < rest.len() && rest[i] == d;
                assert(plan[i + 1] == d);
            }
        }
    }
}

/// A mount begins with what the share needs: an NFS share is mounted at once; a
/// CIFS share with a user has its password fetched under the share's key; any other
/// is tried with the first dialect of the plan.
pub proof fn law_a_mount_begins_with_what_is_needed(m: RecordModel, start_ms: u64)
    ensures
        ({
            let (a, step) = begun(m, start_ms);
            &&& m.fstype == FsType::Nfs ==> step == (StepModel::Run { args: nfs_args(m) })
            &&& m.fstype != FsType::Nfs ==> (m.credentials matches CredentialsModel::UserPassword {
                credential_key,
                ..
            } ==> step == (StepModel::FetchPassword { credential_key }))
            &&& m.fstype != FsType::Nfs && !(m.credentials is UserPassword) && dialect_plan(m).len()
                > 0 ==> step == (StepModel::Run { args: cifs_args(m, dialect_plan(m)[0], None) })
            &&& a.record == m && a.start_ms == start_ms && a.tried == 0
        }),
{
}

/// The fetched password is the one that the share is mounted with; where the vault
/// has none the mount fails and says under which key, and nothing is run.
pub proof fn law_the_fetched_password_is_used(
    a: AttemptModel,
    state: StateModel,
    bytes: Vec<u8>,
    now_ms: u64,
    reason: String,
)
    requires
        a.well_formed(),
        a.stage == Stage::Password,
    ensures
        utf8_reading(bytes@) matches Ok(pw) ==> stepped(
            a,
            state,
            MountEvent::Password(Some(bytes)),
            now_ms,
        ).2 == (StepModel::Run { args: cifs_args(a.record, a.plan[0], Some(pw)) }),
        stepped(a, state, MountEvent::Password(None), now_ms).2 == StepModel::Done(
            Err::<ReportModel, _>(
                MountErrorModel::CredentialMissing {
                    key: a.record.credentials->UserPassword_credential_key,
                },
            ),
        ),
        stepped(a, state, MountEvent::NoResponder(reason), now_ms).2 == StepModel::Done(
            Err::<ReportModel, _>(
                MountErrorModel::NoResponderAvailable {
                    key: a.record.credentials->UserPassword_credential_key,
                    reason: reason@,
                },
            ),
        ),
{
}

/// An NFS mount that succeeds reports the version that the mount table tells for
/// the mount point and notes the time; one that fails says how, and changes no
/// share.
pub proof fn law_nfs_mounts_report_the_table(
    a: AttemptModel,
    state: StateModel,
    out: CommandOutput,
    table: Option<String>,
    now_ms: u64,
)
    requires
        a.well_formed(),
        a.stage == Stage::NfsRun,
        has_id(state.shares, a.record.share_id),
    ensures
        out.exit_code == Some(0i32) ==> {
            let ran = stepped(a, state, MountEvent::Output(out), now_ms);
            let read = stepped(ran.0, ran.1, MountEvent::MountTable(table), now_ms);
            let done = stepped(read.0, read.1, MountEvent::Saved, now_ms);
            let i = first_pos(state.shares, a.record.share_id);
            &&& ran.2 is ReadMountTable && read.2 is Save
            &&& done.2 matches StepModel::Done(Ok(r)) && r.share_id == a.record.share_id
                && r.mount_root == a.record.mount_root && r.negotiated_version == (match table {
                Some(t) => version_in_lines(lines_of(t@), a.record.mount_root),
                None => None,
            })
            &&& done.1.shares[i].last_mounted_at_ms == Some(now_ms as i64)
            &&& done.1.shares.len() == state.shares.len()
        },
        out.exit_code != Some(0i32) ==> {
            let ran = stepped(a, state, MountEvent::Output(out), now_ms);
            &&& ran.1 == state
            &&& ran.2 == StepModel::Done(
                Err::<ReportModel, _>(
                    MountErrorModel::MountFailed {
                        id: a.record.share_id,
                        exit_code: out.exit_code,
                        stderr: utf8_lossy(out.stderr@),
                    },
                ),
            )
        },
{
    let i = choose|i: int|
        0 <= i < state.shares.len() && (#[trigger] state.shares[i]).share_id == a.record.share_id;
    lemma_first_exists(state.shares, a.record.share_id, i);
}

/// A command that could not be run to its end, and a state that could not be saved,
/// end the mount with that very reason.
pub proof fn law_failures_end_the_mount(
    a: AttemptModel,
    state: StateModel,
    e: MountError,
    f: SharesStateError,
    now_ms: u64,
)
    ensures
        stepped(a, state, MountEvent::ExecutorFailed(e), now_ms).2 == StepModel::Done(
            Err::<ReportModel, _>(e@),
        ),
        stepped(a, state, MountEvent::ExecutorFailed(e), now_ms).1 == state,
        stepped(a, state, MountEvent::SaveFailed(f), now_ms).2 == StepModel::Done(
            Err::<ReportModel, _>(MountErrorModel::Persistence(f)),
        ),
        stepped(a, state, MountEvent::SaveFailed(f), now_ms).0.stage == Stage::Finished,
{
}

/// A report is of the share that was mounted, at its place, and tells how long the
/// mount took.
pub proof fn law_reports_are_of_the_share(
    a: AttemptModel,
    version: Option<Seq<char>>,
    now_ms: u64,
)
    ensures
        a.report(version, now_ms).share_id == a.record.share_id,
        a.report(version, now_ms).mount_root == a.record.mount_root,
        a.report(version, now_ms).negotiated_version == version,
        now_ms >= a.start_ms ==> a.report(version, now_ms).elapsed_ms == now_ms - a.start_ms,
        now_ms < a.start_ms ==> a.report(version, now_ms).elapsed_ms == 0,
{
}

/// Only the share that is mounted changes, and of it only the dialect and the time
/// of the mount.
pub proof fn law_a_mount_touches_its_share_alone(
    state: StateModel,
    id: Seq<char>,
    dialect: Seq<char>,
    now_ms: u64,
    k: int,
)
    requires
        0 <= k < state.shares.len(),
    ensures
        ({
            let after = with_dialect(state, id, dialect, now_ms);
            let here = after.shares[k];
            let there = state.shares[k];
            &&& after.shares.len() == state.shares.len()
            &&& here == there || (there.share_id == id && here == RecordModel {
                persisted_vers: Some(dialect),
                last_mounted_at_ms: Some(now_ms as i64),
                ..there
            })
        }),
        ({
            let after = without_dialect(state, id);
            let here = after.shares[k];
            let there = state.shares[k];
            &&& after.shares.len() == state.shares.len()
            &&& here == there || (there.share_id == id && here == RecordModel {
                persisted_vers: None,
                ..there
            })
        }),
{
    if has_id(state.shares, id) {
        let i = choose|i: int|
            0 <= i < state.shares.len() && (#[trigger] state.shares[i]).share_id == id;
        lemma_first_exists(state.shares, id, i);
    }
}

/// What the operator reads of a failed mount: which share, which key or which
/// dialects, and the words of the failure itself.
pub proof fn law_mount_messages_name_the_cause(
    id: Seq<char>,
    key: Seq<char>,
    reason: Seq<char>,
    e: SharesStateError,
    timeout_ms: u64,
    attempted: Seq<Seq<char>>,
    code: i32,
)
    ensures
        (MountErrorModel::ShareNotFound { id }).message() == "share "@ + id + " not found"@,
        MountErrorModel::Persistence(e).message()
            == "persistence error while updating share state: "@ + e.message(),
        (MountErrorModel::CredentialMissing { key }).message()
            == "credential vault has no entry for key "@ + key,
        (MountErrorModel::NoResponderAvailable { key, reason }).message()
            == "no responder available for credential key "@ + key + ": "@ + reason,
        MountErrorModel::SubprocessIo(reason).message() == "mount subprocess I/O error: "@ + reason,
        (MountErrorModel::Timeout { id, timeout_ms }).message() == "mount timed out after "@
            + decimal_of(timeout_ms as nat) + "ms for share "@ + id,
        (MountErrorModel::DialectProbeExhausted { attempted, last_error: reason }).message()
            == "CIFS dialect probe exhausted; attempted: "@ + debug_list_of(attempted),
        (MountErrorModel::MountFailed { id, exit_code: Some(code), stderr: reason }).message()
            == "mount failed for share "@ + id + ": exit="@ + ("Some("@ + signed_decimal_of(
            code as int,
        ) + ")"@) + ", stderr="@ + reason,
        (MountErrorModel::MountFailed { id, exit_code: None, stderr: reason }).message()
            == "mount failed for share "@ + id + ": exit="@ + "None"@ + ", stderr="@ + reason,
{
}

/// A failed attempt is told by its exit code and by what it printed to its error
/// output; attempts that differ in either by the same code differ in their text.
pub proof fn law_attempts_are_told_by_their_output(a: CommandOutput, b: CommandOutput)
    ensures
        failure_text(a) == "exit="@ + exit_text(a.exit_code) + ", stderr="@ + utf8_lossy(a.stderr@),
        a.exit_code == b.exit_code && failure_text(a) == failure_text(b) ==> utf8_lossy(a.stderr@)
            == utf8_lossy(b.stderr@),
{
    if a.exit_code == b.exit_code && failure_text(a) == failure_text(b) {
        let head = "exit="@ + exit_text(a.exit_code) + ", stderr="@;
        assert(failure_text(a).skip(head.len() as int) =~= utf8_lossy(a.stderr@));
        assert(failure_text(b).skip(head.len() as int) =~= utf8_lossy(b.stderr@));
    }
}

} // verus!
