//! The shares runtime, driven with scripted commands.

use std::collections::VecDeque;

use evo_device_plugins::shares::discovery::{DiscoveredNas, DiscoverySweep};
use evo_device_plugins::shares::live_state::{
    configured_singleton_addressing, discovered_singleton_addressing, share_state_addressing,
    ExternalAddressing,
};
use evo_device_plugins::shares::mount_args::build_avahi_browse_args;
use evo_device_plugins::shares::mounting::{
    cifs_vers_probe_ladder, CommandOutput, CredentialFetcher, MountError, MountEvent, MountReport,
    MountStep, NoCredentialFetcher, RunEnd, SubprocessMountExecutor,
};
use evo_device_plugins::shares::records::{
    Credentials, FsType, MountState, ShareEdits, ShareId, ShareRecord,
};
use evo_device_plugins::shares::runtime::{
    BootMountOutcome, BootMountReport, NetworkSharesRuntime, Publication, RETRACTION_REASON,
};
use evo_device_plugins::shares::state::{NetworkSharesState, SharesStateError};
use evo_device_plugins::shares::verbs::{
    route, AddShareRequest, DispatchEvent, DispatchStep, EditShareRequest, GetShareStateRequest,
    MountShareRequest, RemoveShareRequest, UnmountShareRequest, VerbDispatch, VerbDispatchError,
    VerbRequest, VerbResponse,
};

const NOW: u64 = 1_700_000_777_000;

struct ScriptedExecutor {
    outputs: VecDeque<CommandOutput>,
    calls: Vec<(String, Vec<String>)>,
}

impl ScriptedExecutor {
    fn new(outputs: Vec<CommandOutput>) -> ScriptedExecutor {
        ScriptedExecutor { outputs: outputs.into_iter().collect(), calls: Vec::new() }
    }

    fn run(&mut self, program: &str, args: Vec<String>) -> CommandOutput {
        self.calls.push((program.to_string(), args));
        self.outputs.pop_front().expect("an output for every command")
    }
}

struct StaticCredentialFetcher(Vec<u8>);

impl CredentialFetcher for StaticCredentialFetcher {
    fn fetch_password(&self, _credential_key: &str) -> Option<Vec<u8>> {
        Some(self.0.clone())
    }
}

fn built_record(alias: &str, host: &str) -> ShareRecord {
    ShareRecord::new(
        alias.to_string(),
        FsType::Cifs,
        host.to_string(),
        "Music".to_string(),
        Credentials::Guest,
        String::new(),
        1_700_000_000_000,
    )
}

fn success_output() -> CommandOutput {
    CommandOutput { exit_code: Some(0), stdout: Vec::new(), stderr: Vec::new() }
}

fn failure_output(stderr: &str) -> CommandOutput {
    CommandOutput { exit_code: Some(32), stdout: Vec::new(), stderr: stderr.as_bytes().to_vec() }
}

fn runtime() -> NetworkSharesRuntime {
    NetworkSharesRuntime::builder(NetworkSharesState::empty())
        .with_avahi_browse_program("avahi-browse".to_string())
        .with_smbclient_program("smbclient".to_string())
        .with_avahi_browse_timeout_ms(1_000)
        .with_smbclient_timeout_ms(1_000)
        .with_mount_timeout_ms(1_000)
        .build(NOW)
}

/// The runtime that a restart makes of what was saved.
fn reopened(rt: &NetworkSharesRuntime) -> NetworkSharesRuntime {
    let saved = NetworkSharesState { schema_version: 1, shares: rt.list_configured() };
    NetworkSharesRuntime::open(NetworkSharesState::accept(Some(saved)).expect("open"), NOW)
}

fn add(rt: &mut NetworkSharesRuntime, record: ShareRecord) -> Result<ShareId, SharesStateError> {
    let alias = record.alias.clone();
    let id = rt.add_share(record)?;
    rt.share_added(&id, &alias, NOW);
    Ok(id)
}

fn edit(
    rt: &mut NetworkSharesRuntime,
    id: &ShareId,
    edits: ShareEdits,
) -> Result<bool, SharesStateError> {
    let changed = rt.edit_share(id, edits)?;
    if changed {
        let alias = rt.get_share(id).expect("edited").alias;
        rt.share_edited(id, &alias, NOW);
    }
    Ok(changed)
}

fn remove(rt: &mut NetworkSharesRuntime, id: &ShareId) -> Result<ShareRecord, SharesStateError> {
    let record = rt.remove_share(id)?;
    rt.share_removed(id, NOW);
    Ok(record)
}

fn mount_with(
    rt: &mut NetworkSharesRuntime,
    id: &ShareId,
    executor: &mut ScriptedExecutor,
    credentials: &dyn CredentialFetcher,
    now: u64,
) -> Result<MountReport, MountError> {
    let (mut attempt, mut step) = rt.begin_mount(id, now)?;
    loop {
        let event = match step {
            MountStep::FetchPassword { credential_key } => {
                MountEvent::Password(credentials.fetch_password(&credential_key))
            }
            MountStep::Run { args } => {
                MountEvent::Output(executor.run(&rt.settings.mount_program, args))
            }
            MountStep::Save => MountEvent::Saved,
            MountStep::ReadMountTable => MountEvent::MountTable(None),
            MountStep::Done(result) => return result,
        };
        step = rt.continue_mount(id, &mut attempt, event, now);
    }
}

fn mount(
    rt: &mut NetworkSharesRuntime,
    id: &ShareId,
    executor: &mut ScriptedExecutor,
) -> Result<MountReport, MountError> {
    mount_with(rt, id, executor, &NoCredentialFetcher, 1_700_000_100_000)
}

fn unmount(
    rt: &mut NetworkSharesRuntime,
    id: &ShareId,
    executor: &mut ScriptedExecutor,
) -> Result<(), MountError> {
    let args = rt.begin_unmount(id)?;
    let output = executor.run(&rt.settings.umount_program, args);
    rt.finish_unmount(id, Ok(output), NOW)
}

fn refresh(
    rt: &mut NetworkSharesRuntime,
    executor: &mut ScriptedExecutor,
) -> Result<Vec<DiscoveredNas>, MountError> {
    let browse = executor.run(&rt.settings.avahi_browse_program, build_avahi_browse_args());
    let mut sweep = DiscoverySweep::begin(Ok(browse))?;
    while let Some(args) = sweep.next_args() {
        let listing = executor.run(&rt.settings.smbclient_program, args);
        sweep.on_listing(Ok(listing));
    }
    Ok(rt.finish_discovery(sweep, NOW))
}

fn dispatch(
    rt: &mut NetworkSharesRuntime,
    executor: &mut ScriptedExecutor,
    request: VerbRequest,
) -> Result<VerbResponse, VerbDispatchError> {
    let (mut dispatch, mut step) = VerbDispatch::begin(request, NOW);
    loop {
        let event = match step {
            DispatchStep::Add(record) => DispatchEvent::Added(add(rt, record)),
            DispatchStep::Edit(id, edits) => DispatchEvent::Edited(edit(rt, &id, edits)),
            DispatchStep::Remove(id) => DispatchEvent::Removed(remove(rt, &id)),
            DispatchStep::Mount(id) => DispatchEvent::Mounted(mount(rt, &id, executor)),
            DispatchStep::Unmount(id) => DispatchEvent::Unmounted(unmount(rt, &id, executor)),
            DispatchStep::Refresh => DispatchEvent::Refreshed(refresh(rt, executor)),
            DispatchStep::ReadConfigured => DispatchEvent::Configured(rt.configured_envelope(NOW)),
            DispatchStep::ReadDiscovered => DispatchEvent::Discovered(rt.discovered_envelope(NOW)),
            DispatchStep::ReadState(id) => DispatchEvent::State(rt.share_state_envelope(&id)),
            DispatchStep::Done(result) => return result,
        };
        step = dispatch.advance(event);
    }
}

fn avahi_output(hosts: &[(&str, &str)]) -> CommandOutput {
    let mut buf = String::new();
    for (name, ip) in hosts {
        buf.push_str(&format!("=;eth0;IPv4;{name};_smb._tcp;local;{name}.local;{ip};445;txt\n"));
    }
    CommandOutput { exit_code: Some(0), stdout: buf.into_bytes(), stderr: Vec::new() }
}

fn smbclient_output(shares: &[(&str, &str)], dialect: Option<&str>) -> CommandOutput {
    let mut stdout = String::new();
    stdout.push_str("\n\tSharename       Type      Comment\n");
    stdout.push_str("\t---------       ----      -------\n");
    for (name, comment) in shares {
        stdout.push_str(&format!("\t{name:15} Disk      {comment}\n"));
    }
    stdout.push('\n');
    let stderr = match dialect {
        Some(d) => format!("prefix\nnegotiated dialect[{d}] against server\n"),
        None => String::new(),
    };
    CommandOutput { exit_code: Some(0), stdout: stdout.into_bytes(), stderr: stderr.into_bytes() }
}

fn addressings(outbox: &[Publication]) -> Vec<ExternalAddressing> {
    outbox.iter().map(|p| p.addressing()).collect()
}

fn state_of(rt: &NetworkSharesRuntime, id: &ShareId) -> MountState {
    rt.share_states.get(id).expect("a state").state
}

#[test]
fn runtime_open_returns_empty_when_no_file() {
    let state = NetworkSharesState::accept(None).expect("open");
    let rt = NetworkSharesRuntime::open(state, NOW);
    assert!(rt.list_configured().is_empty());
}

#[test]
fn runtime_add_returns_id_and_persists_across_reopen() {
    let mut rt = runtime();
    let record = built_record("Family NAS", "192.0.2.10");
    let expected_id = record.share_id.clone();
    let returned_id = add(&mut rt, record).unwrap();
    assert_eq!(returned_id, expected_id);
    let list = reopened(&rt).list_configured();
    assert_eq!(list.len(), 1);
    assert_eq!(list[0].share_id, expected_id);
}

#[test]
fn runtime_add_duplicate_id_errors_without_side_effect() {
    let mut rt = runtime();
    let record = built_record("First", "192.0.2.11");
    let id = record.share_id.clone();
    add(&mut rt, record).unwrap();
    let clash = ShareRecord { share_id: id, ..built_record("Second", "192.0.2.12") };
    let err = add(&mut rt, clash).unwrap_err();
    assert!(matches!(err, SharesStateError::DuplicateShareId { .. }));
    assert_eq!(rt.list_configured().len(), 1);
}

#[test]
fn runtime_edit_partial_updates_persist() {
    let mut rt = runtime();
    let record = built_record("Original", "192.0.2.20");
    let id = record.share_id.clone();
    add(&mut rt, record).unwrap();
    let changed = edit(
        &mut rt,
        &id,
        ShareEdits {
            alias: Some("Renamed".to_string()),
            host: Some("192.0.2.21".to_string()),
            ..Default::default()
        },
    )
    .unwrap();
    assert!(changed);
    let after = rt.get_share(&id).unwrap();
    assert_eq!(after.alias, "Renamed");
    assert_eq!(after.host, "192.0.2.21");
    assert_eq!(after.path, "Music");
    assert_eq!(reopened(&rt).list_configured()[0].alias, "Renamed");
}

#[test]
fn runtime_edit_noop_returns_false() {
    let mut rt = runtime();
    let record = built_record("Same", "192.0.2.30");
    let id = record.share_id.clone();
    add(&mut rt, record).unwrap();
    let changed = edit(
        &mut rt,
        &id,
        ShareEdits { alias: Some("Same".to_string()), ..Default::default() },
    )
    .unwrap();
    assert!(!changed);
}

#[test]
fn runtime_edit_missing_id_errors() {
    let mut rt = runtime();
    let err = edit(&mut rt, &ShareId::new_v4(), ShareEdits::default()).unwrap_err();
    assert!(matches!(err, SharesStateError::ShareNotFound { .. }));
}

#[test]
fn runtime_edit_fstype_clears_persisted_vers() {
    let mut rt = runtime();
    let mut record = built_record("SmbShare", "192.0.2.40");
    record.persisted_vers = Some("3.0".to_string());
    let id = record.share_id.clone();
    add(&mut rt, record).unwrap();
    edit(&mut rt, &id, ShareEdits { fstype: Some(FsType::Nfs), ..Default::default() }).unwrap();
    let after = rt.get_share(&id).unwrap();
    assert_eq!(after.fstype, FsType::Nfs);
    assert!(after.persisted_vers.is_none());
}

#[test]
fn runtime_remove_returns_record_and_persists() {
    let mut rt = runtime();
    let record = built_record("GoAway", "192.0.2.50");
    let id = record.share_id.clone();
    add(&mut rt, record).unwrap();
    let removed = remove(&mut rt, &id).unwrap();
    assert_eq!(removed.share_id, id);
    assert_eq!(removed.alias, "GoAway");
    assert!(reopened(&rt).list_configured().is_empty());
}

#[test]
fn runtime_remove_missing_id_errors() {
    let mut rt = runtime();
    let err = remove(&mut rt, &ShareId::new_v4()).unwrap_err();
    assert!(matches!(err, SharesStateError::ShareNotFound { .. }));
}

#[test]
fn runtime_get_share_returns_none_for_missing_id() {
    let rt = runtime();
    assert!(rt.get_share(&ShareId::new_v4()).is_none());
}

#[test]
fn mount_cifs_persisted_vers_fast_path_single_call() {
    let mut rt = runtime();
    let mut executor = ScriptedExecutor::new(vec![success_output()]);
    let mut record = built_record("known_good", "192.0.2.20");
    record.persisted_vers = Some("3.0".to_string());
    let id = add(&mut rt, record).unwrap();

    let report = mount(&mut rt, &id, &mut executor).unwrap();
    assert_eq!(report.share_id, id);
    assert_eq!(report.negotiated_version.as_deref(), Some("3.0"));
    assert_eq!(executor.calls.len(), 1, "fast-path must make exactly one call");
    assert!(executor.calls[0].1.iter().any(|a| a.contains("vers=3.0")));
}

#[test]
fn mount_cifs_probe_ladder_iterates_and_persists_first_success() {
    let mut rt = runtime();
    let mut executor = ScriptedExecutor::new(vec![
        failure_output("mount error(112): Host is down"),
        failure_output("mount error(112): Host is down"),
        failure_output("mount error(112): Host is down"),
        success_output(),
    ]);
    let id = add(&mut rt, built_record("no_persisted", "192.0.2.21")).unwrap();

    let report = mount(&mut rt, &id, &mut executor).unwrap();
    assert_eq!(report.negotiated_version.as_deref(), Some("3.02"));
    assert_eq!(executor.calls.len(), 4, "probe iterates until success");
    assert!(executor.calls[0].1.iter().any(|a| a.contains("vers=2.0")));
    assert!(executor.calls[3].1.iter().any(|a| a.contains("vers=3.02")));

    let after = rt.get_share(&id).unwrap();
    assert_eq!(after.persisted_vers.as_deref(), Some("3.02"));
    assert_eq!(after.last_mounted_at_ms, Some(1_700_000_100_000_i64));
}

#[test]
fn mount_cifs_fast_path_failure_falls_back_to_full_ladder() {
    let mut rt = runtime();
    let mut executor = ScriptedExecutor::new(vec![
        failure_output("stale dialect"),
        failure_output("still bad"),
        success_output(),
    ]);
    let mut record = built_record("stale", "192.0.2.22");
    record.persisted_vers = Some("3.0".to_string());
    let id = add(&mut rt, record).unwrap();

    let report = mount(&mut rt, &id, &mut executor).unwrap();
    assert_eq!(report.negotiated_version.as_deref(), Some("2.1"));
    let calls = &executor.calls;
    assert_eq!(calls.len(), 3);
    assert!(calls[0].1.iter().any(|a| a.contains("vers=3.0")));
    assert!(calls[1].1.iter().any(|a| a.contains("vers=2.0")));
    assert!(calls[2].1.iter().any(|a| a.contains("vers=2.1")));
    assert!(
        !calls[1..].iter().any(|(_, a)| a.iter().any(|s| s.contains("vers=3.0"))),
        "ladder pass must skip the fast-path dialect"
    );
    let after = rt.get_share(&id).unwrap();
    assert_eq!(after.persisted_vers.as_deref(), Some("2.1"));
}

#[test]
fn mount_cifs_probe_exhausted_errors_with_full_attempt_list() {
    let mut rt = runtime();
    let mut executor = ScriptedExecutor::new(vec![
        failure_output("no way"),
        failure_output("no way"),
        failure_output("no way"),
        failure_output("no way"),
        failure_output("permission denied"),
    ]);
    let id = add(&mut rt, built_record("unreachable", "192.0.2.23")).unwrap();
    match mount(&mut rt, &id, &mut executor).unwrap_err() {
        MountError::DialectProbeExhausted { attempted, last_error } => {
            assert_eq!(attempted.len(), 5);
            assert_eq!(attempted, cifs_vers_probe_ladder());
            assert!(last_error.contains("permission denied"));
            assert!(last_error.starts_with("exit=Some("), "{last_error}");
        }
        other => panic!("expected DialectProbeExhausted, got {:?}", other),
    }
}

#[test]
fn mount_missing_share_errors() {
    let mut rt = runtime();
    let mut executor = ScriptedExecutor::new(Vec::new());
    let err = mount(&mut rt, &ShareId::new_v4(), &mut executor).unwrap_err();
    assert!(matches!(err, MountError::ShareNotFound { .. }));
}

#[test]
fn mount_cifs_userpassword_fetches_and_injects_password() {
    let mut rt = runtime();
    let mut executor = ScriptedExecutor::new(vec![success_output()]);
    let mut record = built_record("auth", "192.0.2.30");
    record.credentials = Credentials::UserPassword {
        username: "engineer".to_string(),
        credential_key: "auth_pw".to_string(),
    };
    record.persisted_vers = Some("3.1.1".to_string());
    let id = add(&mut rt, record).unwrap();
    mount_with(
        &mut rt,
        &id,
        &mut executor,
        &StaticCredentialFetcher(b"s3cret".to_vec()),
        1_700_000_100_000,
    )
    .unwrap();
    assert_eq!(executor.calls.len(), 1);
    assert!(executor.calls[0].1.iter().any(|a| a.contains("username=engineer")));
    assert!(executor.calls[0].1.iter().any(|a| a.contains("password=s3cret")));
}

#[test]
fn passwords_stay_out_of_the_shares() {
    let mut states: Vec<String> = Vec::new();
    for password in ["s3cret", "other"] {
        let mut rt = runtime();
        let mut executor = ScriptedExecutor::new(vec![success_output()]);
        let mut record = built_record("auth", "192.0.2.30");
        record.share_id = ShareId("fixed".to_string());
        record.credentials = Credentials::UserPassword {
            username: "engineer".to_string(),
            credential_key: "auth_pw".to_string(),
        };
        let id = add(&mut rt, record).unwrap();
        let secret = StaticCredentialFetcher(password.as_bytes().to_vec());
        mount_with(&mut rt, &id, &mut executor, &secret, 1_700_000_100_000).unwrap();
        let text = format!("{:?}", rt.state);
        assert!(!text.contains(password));
        states.push(text);
    }
    assert_eq!(states[0], states[1]);
}

#[test]
fn mount_cifs_userpassword_missing_credential_errors() {
    let mut rt = runtime();
    let mut executor = ScriptedExecutor::new(Vec::new());
    let mut record = built_record("auth_missing", "192.0.2.31");
    record.credentials = Credentials::UserPassword {
        username: "engineer".to_string(),
        credential_key: "not_in_vault".to_string(),
    };
    let id = add(&mut rt, record).unwrap();
    let err = mount(&mut rt, &id, &mut executor).unwrap_err();
    assert!(matches!(err, MountError::CredentialMissing { key } if key == "not_in_vault"));
}

#[test]
fn mounts_that_nobody_can_unlock_say_so() {
    let mut rt = runtime();
    let mut record = built_record("auth_prompt", "192.0.2.32");
    record.credentials = Credentials::UserPassword {
        username: "engineer".to_string(),
        credential_key: "nas_pw".to_string(),
    };
    let id = add(&mut rt, record).unwrap();
    let (mut attempt, step) = rt.begin_mount(&id, NOW).unwrap();
    assert!(matches!(step, MountStep::FetchPassword { .. }));
    let event = MountEvent::NoResponder("slot is empty".to_string());
    let err = match rt.continue_mount(&id, &mut attempt, event, NOW) {
        MountStep::Done(Err(e)) => e,
        other => panic!("unexpected step {other:?}"),
    };
    assert_eq!(
        err,
        MountError::NoResponderAvailable {
            key: "nas_pw".to_string(),
            reason: "slot is empty".to_string(),
        }
    );
    assert_eq!(err.to_text(), "no responder available for credential key nas_pw: slot is empty");
}

#[test]
fn mount_nfs_single_attempt_success() {
    let mut rt = runtime();
    let mut executor = ScriptedExecutor::new(vec![success_output()]);
    let mut record = built_record("nfs_share", "192.0.2.40");
    record.fstype = FsType::Nfs;
    let id = add(&mut rt, record).unwrap();

    let report = mount(&mut rt, &id, &mut executor).unwrap();
    assert_eq!(report.share_id, id);
    assert_eq!(executor.calls.len(), 1, "NFS is single-attempt (no probe ladder)");
    assert_eq!(executor.calls[0].1[0], "-t");
    assert_eq!(executor.calls[0].1[1], "nfs");
    let after = rt.get_share(&id).unwrap();
    assert!(after.persisted_vers.is_none(), "NFS never persists vers");
    assert_eq!(after.last_mounted_at_ms, Some(1_700_000_100_000_i64));
}

#[test]
fn mount_nfs_failure_returns_mount_failed_error() {
    let mut rt = runtime();
    let mut executor =
        ScriptedExecutor::new(vec![failure_output("mount.nfs: Connection refused")]);
    let mut record = built_record("nfs_fail", "192.0.2.41");
    record.fstype = FsType::Nfs;
    let id = add(&mut rt, record).unwrap();
    match mount(&mut rt, &id, &mut executor).unwrap_err() {
        MountError::MountFailed { id: got_id, exit_code, stderr } => {
            assert_eq!(got_id, id);
            assert_eq!(exit_code, Some(32));
            assert!(stderr.contains("Connection refused"));
        }
        other => panic!("expected MountFailed, got {:?}", other),
    }
}

#[test]
fn nfs_reports_the_version_in_the_mount_table() {
    let mut rt = runtime();
    let mut record = built_record("nfs_v", "192.0.2.42");
    record.fstype = FsType::Nfs;
    let id = add(&mut rt, record).unwrap();
    let (mut attempt, step) = rt.begin_mount(&id, 5).unwrap();
    assert!(matches!(step, MountStep::Run { .. }));
    let step = rt.continue_mount(&id, &mut attempt, MountEvent::Output(success_output()), 6);
    assert_eq!(step, MountStep::ReadMountTable);
    let table = "h:/e /var/lib/evo/music/NAS/nfs_v nfs4 ro,vers=4.2 0 0\n".to_string();
    let step = rt.continue_mount(&id, &mut attempt, MountEvent::MountTable(Some(table)), 7);
    assert_eq!(step, MountStep::Save);
    let step = rt.continue_mount(&id, &mut attempt, MountEvent::Saved, 7);
    match step {
        MountStep::Done(Ok(report)) => {
            assert_eq!(report.negotiated_version.as_deref(), Some("4.2"));
            assert_eq!(report.mount_root, "/var/lib/evo/music/NAS/nfs_v");
        }
        other => panic!("expected a report, got {:?}", other),
    }
}

#[test]
fn a_failed_save_ends_the_mount() {
    let mut rt = runtime();
    let id = add(&mut rt, built_record("unsaved", "192.0.2.43")).unwrap();
    let (mut attempt, _) = rt.begin_mount(&id, 5).unwrap();
    let step = rt.continue_mount(&id, &mut attempt, MountEvent::Output(success_output()), 6);
    assert_eq!(step, MountStep::Save);
    let failure = SharesStateError::Io("disk full".to_string());
    let step = rt.continue_mount(&id, &mut attempt, MountEvent::SaveFailed(failure), 6);
    match step {
        MountStep::Done(Err(MountError::Persistence(SharesStateError::Io(m)))) => {
            assert_eq!(m, "disk full")
        }
        other => panic!("expected a persistence error, got {:?}", other),
    }
    assert_eq!(state_of(&rt, &id), MountState::Failed);
}

#[test]
fn an_explicit_dialect_is_the_only_one_tried() {
    let mut rt = runtime();
    let mut executor = ScriptedExecutor::new(vec![failure_output("refused")]);
    let mut record = built_record("pinned", "192.0.2.44");
    record.advanced_options = "rw,vers=2.1".to_string();
    record.persisted_vers = Some("3.0".to_string());
    let id = add(&mut rt, record).unwrap();
    match mount(&mut rt, &id, &mut executor).unwrap_err() {
        MountError::DialectProbeExhausted { attempted, .. } => assert_eq!(attempted, vec!["2.1"]),
        other => panic!("expected DialectProbeExhausted, got {:?}", other),
    }
    assert_eq!(rt.get_share(&id).unwrap().persisted_vers.as_deref(), Some("3.0"));
}

#[test]
fn unmount_cifs_uses_lazy_flag() {
    let mut rt = runtime();
    let mut executor = ScriptedExecutor::new(vec![success_output()]);
    let id = add(&mut rt, built_record("cifs_share", "192.0.2.50")).unwrap();
    unmount(&mut rt, &id, &mut executor).unwrap();
    assert_eq!(executor.calls.len(), 1);
    assert_eq!(executor.calls[0].1[0], "-l", "CIFS unmount uses lazy detach");
    assert_eq!(executor.calls[0].1[1], "/var/lib/evo/music/NAS/cifs_share");
}

#[test]
fn unmount_nfs_omits_lazy_flag() {
    let mut rt = runtime();
    let mut executor = ScriptedExecutor::new(vec![success_output()]);
    let mut record = built_record("nfs_share", "192.0.2.51");
    record.fstype = FsType::Nfs;
    let id = add(&mut rt, record).unwrap();
    unmount(&mut rt, &id, &mut executor).unwrap();
    assert_eq!(executor.calls.len(), 1);
    assert_eq!(
        executor.calls[0].1[0], "/var/lib/evo/music/NAS/nfs_share",
        "NFS unmount does NOT use lazy detach"
    );
}

#[test]
fn unmount_missing_share_errors() {
    let mut rt = runtime();
    let mut executor = ScriptedExecutor::new(Vec::new());
    let err = unmount(&mut rt, &ShareId::new_v4(), &mut executor).unwrap_err();
    assert!(matches!(err, MountError::ShareNotFound { .. }));
}

#[test]
fn unmount_failure_returns_mount_failed_error() {
    let mut rt = runtime();
    let mut executor =
        ScriptedExecutor::new(vec![failure_output("umount: /var/lib/evo/music/NAS/x: not mounted")]);
    let id = add(&mut rt, built_record("not_mounted", "192.0.2.52")).unwrap();
    let err = unmount(&mut rt, &id, &mut executor).unwrap_err();
    assert!(matches!(err, MountError::MountFailed { .. }));
}

#[test]
fn list_discovered_empty_before_first_refresh() {
    assert!(runtime().list_discovered().is_empty());
}

#[test]
fn refresh_discovery_finds_and_probes_hosts() {
    let mut rt = runtime();
    let mut executor = ScriptedExecutor::new(vec![
        avahi_output(&[("NAS-A", "192.0.2.10"), ("NAS-B", "192.0.2.11")]),
        smbclient_output(&[("Music", "family music"), ("Movies", "film archive")], Some("SMB3_11")),
        smbclient_output(&[("Users", "home folders")], Some("SMB3_02")),
    ]);
    let list = refresh(&mut rt, &mut executor).unwrap();
    assert_eq!(list.len(), 2);
    assert_eq!(list[0].name, "NAS-A");
    assert_eq!(list[0].ip, "192.0.2.10");
    assert_eq!(list[0].advertised_dialect.as_deref(), Some("SMB3_11"));
    assert_eq!(list[0].shares.len(), 2);
    assert_eq!(list[0].shares[0].name, "Music");
    assert_eq!(list[1].name, "NAS-B");
    assert_eq!(list[1].advertised_dialect.as_deref(), Some("SMB3_02"));
    assert_eq!(list[1].shares[0].name, "Users");
    assert_eq!(rt.list_discovered(), list);
    assert_eq!(executor.calls.len(), 3);
    assert_eq!(executor.calls[0].0, "avahi-browse");
    assert_eq!(executor.calls[1].0, "smbclient");
    assert_eq!(executor.calls[2].0, "smbclient");
}

#[test]
fn refresh_discovery_avahi_failure_keeps_prior_cache() {
    let mut rt = runtime();
    let mut executor = ScriptedExecutor::new(vec![
        avahi_output(&[("NAS-K", "192.0.2.30")]),
        smbclient_output(&[("Media", "media root")], Some("SMB3_11")),
        CommandOutput {
            exit_code: Some(1),
            stdout: Vec::new(),
            stderr: b"avahi bus not available".to_vec(),
        },
    ]);
    let first = refresh(&mut rt, &mut executor).unwrap();
    assert_eq!(first.len(), 1);
    let err = refresh(&mut rt, &mut executor).unwrap_err();
    assert!(matches!(err, MountError::MountFailed { .. }));
    assert_eq!(rt.list_discovered(), first);
}

#[test]
fn refresh_discovery_per_host_smbclient_failure_still_lists_host() {
    let mut rt = runtime();
    let mut executor = ScriptedExecutor::new(vec![
        avahi_output(&[("NAS-OK", "192.0.2.40"), ("NAS-BAD", "192.0.2.41")]),
        smbclient_output(&[("Music", "ok")], Some("SMB3_11")),
        CommandOutput {
            exit_code: Some(1),
            stdout: Vec::new(),
            stderr: b"connection refused".to_vec(),
        },
    ]);
    let list = refresh(&mut rt, &mut executor).unwrap();
    assert_eq!(list.len(), 2);
    assert_eq!(list[0].shares.len(), 1);
    assert_eq!(list[1].name, "NAS-BAD");
    assert_eq!(list[1].shares.len(), 0);
    assert!(list[1].advertised_dialect.is_none());
}

#[test]
fn a_host_that_cannot_be_listed_hides_no_other() {
    let mut rt = runtime();
    let mut executor = ScriptedExecutor::new(vec![
        avahi_output(&[("NAS-BAD", "192.0.2.41"), ("NAS-OK", "192.0.2.40")]),
        failure_output("connection refused"),
        smbclient_output(&[("Music", "ok")], Some("SMB3_11")),
    ]);
    let list = refresh(&mut rt, &mut executor).unwrap();
    assert_eq!(list.len(), 2);
    assert_eq!(list[0].name, "NAS-BAD");
    assert!(list[0].shares.is_empty());
    assert_eq!(list[1].ip, "192.0.2.40");
    assert_eq!(list[1].shares[0].name, "Music");
    assert_eq!(list[1].advertised_dialect.as_deref(), Some("SMB3_11"));
}

#[test]
fn refresh_discovery_empty_avahi_returns_empty_result() {
    let mut rt = runtime();
    let mut executor = ScriptedExecutor::new(vec![success_output()]);
    assert!(refresh(&mut rt, &mut executor).unwrap().is_empty());
    assert!(rt.list_discovered().is_empty());
}

#[test]
fn attach_publisher_announces_both_singletons_on_empty_state() {
    let rt = runtime();
    let (configured, discovered, states) = rt.initial_announcements(NOW);
    assert!(configured.shares.is_empty());
    assert_eq!(configured.last_update_at, NOW);
    assert!(discovered.nas.is_empty());
    assert_eq!(discovered.last_refresh_at, NOW);
    assert!(states.is_empty());
}

#[test]
fn snapshots_tell_when_the_last_refresh_completed() {
    let mut rt = runtime();
    assert_eq!(rt.discovered_envelope(NOW + 1).last_refresh_at, NOW + 1);
    let mut executor = ScriptedExecutor::new(vec![success_output()]);
    refresh(&mut rt, &mut executor).unwrap();
    assert_eq!(rt.discovered_envelope(NOW + 1000).last_refresh_at, NOW);
    let (_, discovered, _) = rt.initial_announcements(NOW + 2000);
    assert_eq!(discovered.last_refresh_at, NOW);
    let mut executor = ScriptedExecutor::new(vec![failure_output("no daemon")]);
    assert!(refresh(&mut rt, &mut executor).is_err());
    assert_eq!(rt.discovered_envelope(NOW + 3000).last_refresh_at, NOW);
}

#[test]
fn attach_publisher_announces_one_share_state_per_persisted_record() {
    let mut rt = runtime();
    let id1 = add(&mut rt, built_record("Alpha", "192.0.2.10")).unwrap();
    let id2 = add(&mut rt, built_record("Bravo", "192.0.2.11")).unwrap();
    let (_, _, states) = rt.initial_announcements(NOW);
    assert_eq!(states.len(), 2);
    for id in [&id1, &id2] {
        assert!(states.iter().any(|s| &s.share_id == id));
    }
}

#[test]
fn add_share_republishes_configured_and_announces_per_share_subject() {
    let mut rt = runtime();
    let id = add(&mut rt, built_record("Family NAS", "192.0.2.55")).unwrap();
    let outbox = rt.take_outbox();
    assert!(outbox.iter().any(|p| matches!(p, Publication::Configured(_))));
    assert!(addressings(&outbox).contains(&configured_singleton_addressing()));
    assert!(outbox
        .iter()
        .any(|p| matches!(p, Publication::Announce(_))
            && p.addressing() == share_state_addressing(&id)));
    assert!(rt.take_outbox().is_empty());
}

#[test]
fn edit_share_republishes_configured_when_alias_changes() {
    let mut rt = runtime();
    let id = add(&mut rt, built_record("OldName", "192.0.2.55")).unwrap();
    rt.take_outbox();
    let edits = ShareEdits { alias: Some("NewName".to_string()), ..Default::default() };
    edit(&mut rt, &id, edits).unwrap();
    let outbox = rt.take_outbox();
    assert!(outbox.iter().any(|p| matches!(p, Publication::Configured(_))));
    assert!(outbox.iter().any(|p| matches!(p, Publication::Update(e) if e.alias == "NewName")
        && p.addressing() == share_state_addressing(&id)));
}

#[test]
fn remove_share_republishes_configured_and_retracts_per_share_subject() {
    let mut rt = runtime();
    let id = add(&mut rt, built_record("ToRemove", "192.0.2.55")).unwrap();
    rt.take_outbox();
    remove(&mut rt, &id).unwrap();
    let outbox = rt.take_outbox();
    assert!(outbox.iter().any(|p| matches!(p, Publication::Configured(c) if c.shares.is_empty())));
    assert!(outbox.iter().any(|p| matches!(p, Publication::Retract(got) if got == &id)
        && p.addressing() == share_state_addressing(&id)));
    assert_eq!(RETRACTION_REASON, "share removed");
    assert!(rt.share_states.get(&id).is_none());
}

#[test]
fn refresh_discovery_republishes_discovered_singleton() {
    let mut rt = runtime();
    let mut executor = ScriptedExecutor::new(vec![
        avahi_output(&[("NAS-P", "192.0.2.90")]),
        smbclient_output(&[("Music", "family music")], Some("SMB3_11")),
    ]);
    refresh(&mut rt, &mut executor).unwrap();
    let outbox = rt.take_outbox();
    assert!(addressings(&outbox).contains(&discovered_singleton_addressing()));
    match outbox.last() {
        Some(Publication::Discovered(envelope)) => assert_eq!(envelope.nas.len(), 1),
        other => panic!("expected the discovered hosts, got {:?}", other),
    }
}

#[test]
fn mount_share_publishes_mounting_then_mounted_on_success() {
    let mut rt = runtime();
    let mut executor = ScriptedExecutor::new(vec![success_output()]);
    let id = add(&mut rt, built_record("MountMe", "192.0.2.60")).unwrap();
    rt.take_outbox();
    mount(&mut rt, &id, &mut executor).unwrap();
    let updates: Vec<(MountState, Option<String>)> = rt
        .take_outbox()
        .into_iter()
        .filter_map(|p| match p {
            Publication::Update(e) if e.share_id == id => Some((e.state, e.negotiated_vers)),
            _ => None,
        })
        .collect();
    assert_eq!(updates.first().map(|u| u.0), Some(MountState::Mounting));
    assert_eq!(updates.last(), Some(&(MountState::Mounted, Some("2.0".to_string()))));
}

#[test]
fn mount_share_publishes_failed_on_probe_exhausted() {
    let mut rt = runtime();
    let outputs = cifs_vers_probe_ladder().into_iter().map(|_| failure_output("permission denied"));
    let mut executor = ScriptedExecutor::new(outputs.collect());
    let id = add(&mut rt, built_record("Broken", "192.0.2.60")).unwrap();
    assert!(mount(&mut rt, &id, &mut executor).is_err());
    match rt.take_outbox().pop() {
        Some(Publication::Update(e)) => {
            assert_eq!(e.state, MountState::Failed);
            assert!(e.reason.is_some());
        }
        other => panic!("expected a state, got {:?}", other),
    }
}

#[test]
fn unmount_share_publishes_unmounted_on_success() {
    let mut rt = runtime();
    let mut executor = ScriptedExecutor::new(vec![success_output()]);
    let id = add(&mut rt, built_record("UnmountMe", "192.0.2.60")).unwrap();
    unmount(&mut rt, &id, &mut executor).unwrap();
    match rt.take_outbox().pop() {
        Some(Publication::Update(e)) => assert_eq!(e.state, MountState::Unmounted),
        other => panic!("expected a state, got {:?}", other),
    }
}

#[test]
fn boot_mount_all_reports_per_share_outcome_success_and_failure() {
    let mut rt = runtime();
    let mut outputs = vec![success_output()];
    for _ in cifs_vers_probe_ladder() {
        outputs.push(failure_output("permission denied"));
    }
    let mut executor = ScriptedExecutor::new(outputs);
    add(&mut rt, built_record("Good", "192.0.2.20")).unwrap();
    add(&mut rt, built_record("Bad", "192.0.2.21")).unwrap();
    let mut outcomes = Vec::new();
    for share_id in rt.boot_mount_ids() {
        let result = mount(&mut rt, &share_id, &mut executor);
        outcomes.push(BootMountOutcome { share_id, result });
    }
    let report = BootMountReport { outcomes };
    assert_eq!(report.outcomes.len(), 2);
    assert!(report.outcomes[0].is_ok());
    assert_eq!(report.success_count(), 1);
    assert_eq!(report.failure_count(), 1);
}

#[test]
fn remount_retry_pass_targets_failed_and_unmounted_only() {
    let mut rt = runtime();
    let mut outputs: Vec<CommandOutput> =
        cifs_vers_probe_ladder().iter().map(|_| failure_output("permission denied")).collect();
    outputs.push(success_output());
    let mut executor = ScriptedExecutor::new(outputs);
    let id = add(&mut rt, built_record("Retry", "192.0.2.22")).unwrap();
    assert!(mount(&mut rt, &id, &mut executor).is_err());
    assert_eq!(state_of(&rt, &id), MountState::Failed);
    assert_eq!(rt.remount_ids(), vec![id.clone()]);
    assert!(mount(&mut rt, &id, &mut executor).is_ok());
    assert_eq!(state_of(&rt, &id), MountState::Mounted);
    assert!(rt.remount_ids().is_empty());
}

#[test]
fn dispatch_verb_unknown_request_type_returns_error() {
    let err = route("network.share.bogus").unwrap_err();
    assert!(matches!(err, VerbDispatchError::UnknownRequestType { .. }));
    assert_eq!(err.to_text().contains("network.share.bogus"), true);
}

#[test]
fn dispatch_verb_add_mounts_and_returns_share_id_and_report() {
    let mut rt = runtime();
    let mut executor = ScriptedExecutor::new(vec![success_output()]);
    let request = VerbRequest::Add(AddShareRequest {
        alias: "Verb Add".to_string(),
        fstype: FsType::Cifs,
        host: "192.0.2.30".to_string(),
        path: "Music".to_string(),
        credentials: Credentials::Guest,
        advanced_options: String::new(),
    });
    match dispatch(&mut rt, &mut executor, request).unwrap() {
        VerbResponse::Add(response) => {
            assert!(response.mount_report.is_some());
            assert!(response.mount_error.is_none());
            let configured = rt.list_configured();
            assert_eq!(configured.len(), 1);
            assert_eq!(configured[0].share_id, response.share_id);
            assert_eq!(configured[0].mount_root, "/var/lib/evo/music/NAS/Verb_Add");
        }
        other => panic!("expected an add response, got {:?}", other),
    }
}

#[test]
fn a_share_whose_mount_fails_stays_configured() {
    let mut rt = runtime();
    let outputs = cifs_vers_probe_ladder().iter().map(|_| failure_output("down")).collect();
    let mut executor = ScriptedExecutor::new(outputs);
    let request = VerbRequest::Add(AddShareRequest {
        alias: "Down".to_string(),
        fstype: FsType::Cifs,
        host: "192.0.2.31".to_string(),
        path: "Music".to_string(),
        credentials: Credentials::Guest,
        advanced_options: String::new(),
    });
    match dispatch(&mut rt, &mut executor, request).unwrap() {
        VerbResponse::Add(response) => {
            assert!(response.mount_report.is_none());
            assert!(response.mount_error.is_some());
        }
        other => panic!("expected an add response, got {:?}", other),
    }
    assert_eq!(rt.list_configured().len(), 1);
}

#[test]
fn dispatch_verb_mount_and_unmount_round_trip() {
    let mut rt = runtime();
    let mut executor = ScriptedExecutor::new(vec![success_output(), success_output()]);
    let id = add(&mut rt, built_record("VerbMount", "192.0.2.40")).unwrap();
    let request = VerbRequest::Mount(MountShareRequest { share_id: id.clone() });
    match dispatch(&mut rt, &mut executor, request).unwrap() {
        VerbResponse::Mount(response) => assert_eq!(response.report.share_id, id),
        other => panic!("expected a mount response, got {:?}", other),
    }
    let request = VerbRequest::Unmount(UnmountShareRequest { share_id: id.clone() });
    let response = dispatch(&mut rt, &mut executor, request).unwrap();
    assert!(matches!(response, VerbResponse::Unmount(_)));
}

#[test]
fn dispatch_verb_edit_reports_changed_true_on_alias_edit() {
    let mut rt = runtime();
    let mut executor = ScriptedExecutor::new(Vec::new());
    let id = add(&mut rt, built_record("EditMe", "192.0.2.50")).unwrap();
    let request = VerbRequest::Edit(EditShareRequest {
        share_id: id,
        edits: ShareEdits { alias: Some("EditedName".to_string()), ..Default::default() },
    });
    match dispatch(&mut rt, &mut executor, request).unwrap() {
        VerbResponse::Edit(response) => assert!(response.changed),
        other => panic!("expected an edit response, got {:?}", other),
    }
}

#[test]
fn dispatch_verb_remove_returns_removed_record() {
    let mut rt = runtime();
    let mut executor = ScriptedExecutor::new(vec![failure_output("permission denied")]);
    let id = add(&mut rt, built_record("Removable", "192.0.2.60")).unwrap();
    let request = VerbRequest::Remove(RemoveShareRequest { share_id: id.clone() });
    match dispatch(&mut rt, &mut executor, request).unwrap() {
        VerbResponse::Remove(response) => assert_eq!(response.removed_record.share_id, id),
        other => panic!("expected a remove response, got {:?}", other),
    }
    assert!(rt.list_configured().is_empty());
}

#[test]
fn dispatch_verb_discovery_refresh_returns_nas_list() {
    let mut rt = runtime();
    let mut executor = ScriptedExecutor::new(vec![
        avahi_output(&[("NAS-VD", "192.0.2.70")]),
        smbclient_output(&[("Music", "family music")], Some("SMB3_11")),
    ]);
    match dispatch(&mut rt, &mut executor, VerbRequest::Refresh).unwrap() {
        VerbResponse::Refresh(response) => {
            assert_eq!(response.nas.len(), 1);
            assert_eq!(response.nas[0].name, "NAS-VD");
        }
        other => panic!("expected a refresh response, got {:?}", other),
    }
}

#[test]
fn reads_answer_from_the_runtime() {
    let mut rt = runtime();
    let mut executor = ScriptedExecutor::new(Vec::new());
    let id = add(&mut rt, built_record("Read", "192.0.2.80")).unwrap();
    match dispatch(&mut rt, &mut executor, VerbRequest::ListConfigured).unwrap() {
        VerbResponse::ListConfigured(r) => assert_eq!(r.envelope.shares.len(), 1),
        other => panic!("expected the shares, got {:?}", other),
    }
    match dispatch(&mut rt, &mut executor, VerbRequest::ListDiscovered).unwrap() {
        VerbResponse::ListDiscovered(r) => assert!(r.envelope.nas.is_empty()),
        other => panic!("expected the hosts, got {:?}", other),
    }
    let request = VerbRequest::GetState(GetShareStateRequest { share_id: id });
    match dispatch(&mut rt, &mut executor, request).unwrap() {
        VerbResponse::GetState(r) => {
            assert_eq!(r.envelope.unwrap().state, MountState::Unmounted)
        }
        other => panic!("expected a state, got {:?}", other),
    }
    let missing = VerbRequest::GetState(GetShareStateRequest { share_id: ShareId::new_v4() });
    match dispatch(&mut rt, &mut executor, missing).unwrap() {
        VerbResponse::GetState(r) => assert!(r.envelope.is_none()),
        other => panic!("expected a state, got {:?}", other),
    }
}

#[test]
fn failures_of_a_verb_keep_their_kind() {
    let mut rt = runtime();
    let mut executor = ScriptedExecutor::new(Vec::new());
    let missing = ShareId("gone".to_string());
    let err = dispatch(
        &mut rt,
        &mut executor,
        VerbRequest::Mount(MountShareRequest { share_id: missing.clone() }),
    )
    .unwrap_err();
    assert!(matches!(err, VerbDispatchError::Mount(MountError::ShareNotFound { .. })));
    let err = dispatch(
        &mut rt,
        &mut executor,
        VerbRequest::Remove(RemoveShareRequest { share_id: missing }),
    )
    .unwrap_err();
    assert!(matches!(
        err,
        VerbDispatchError::Persistence(SharesStateError::ShareNotFound { .. })
    ));
}

#[test]
fn commands_end_in_output_or_error() {
    let executor = SubprocessMountExecutor;
    let id = ShareId("s".to_string());
    assert_eq!(
        executor.result_of(RunEnd::Finished(success_output()), &id, 30),
        Ok(success_output())
    );
    assert_eq!(
        executor.result_of(RunEnd::Elapsed, &id, 30),
        Err(MountError::Timeout { id: id.clone(), timeout_ms: 30 })
    );
    assert!(matches!(
        executor.result_of(RunEnd::NotStarted("no such file".to_string()), &id, 30),
        Err(MountError::SubprocessIo(m)) if m.contains("no such file")
    ));
    assert!(matches!(
        executor.result_of(RunEnd::NotAwaited("broken pipe".to_string()), &id, 30),
        Err(MountError::SubprocessIo(m)) if m.contains("broken pipe")
    ));
}
