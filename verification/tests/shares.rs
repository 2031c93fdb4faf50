//! Share records, mount commands, parsers and verbs.

use evo_device_plugins::plugin_error::{ErrorClass, PluginError};
use evo_device_plugins::shares::discovery::DiscoverySweep;
use evo_device_plugins::shares::live_state::{
    configured_singleton_addressing, discovered_singleton_addressing, share_state_addressing,
};
use evo_device_plugins::shares::mount_args::{
    build_avahi_browse_args, build_cifs_mount_args, build_nfs_mount_args,
    build_smbclient_list_args, build_umount_args,
};
use evo_device_plugins::shares::mounting::{
    cifs_vers_probe_ladder, plan_dialects, CommandOutput, MountError,
};
use evo_device_plugins::shares::parsers::{
    parse_avahi_browse_output, parse_nfs_version_from_proc_mounts, parse_smbclient_dialect,
    parse_smbclient_disk_lines,
};
use evo_device_plugins::shares::plugin::{
    needs_sudo, verb_error_to_plugin_error, NetworkSharesPlugin,
};
use evo_device_plugins::shares::records::{
    Credentials, FsType, MountState, ShareEdits, ShareId, ShareRecord,
    NETWORK_SHARES_SCHEMA_VERSION,
};
use evo_device_plugins::shares::runtime::NetworkSharesRuntime;
use evo_device_plugins::shares::state::{NetworkSharesState, SharesStateError};
use evo_device_plugins::shares::verbs::{
    find_verb, is_network_shares_verb, network_shares_verbs, Verb, VerbDispatchError,
};

fn sample_record(alias: &str) -> ShareRecord {
    ShareRecord {
        share_id: ShareId::new_v4(),
        alias: alias.to_string(),
        fstype: FsType::Cifs,
        host: "192.0.2.10".to_string(),
        path: "Music".to_string(),
        credentials: Credentials::Guest,
        advanced_options: String::new(),
        persisted_vers: None,
        mount_root: ShareRecord::default_mount_root(alias),
        created_at_ms: 1_700_000_000_000,
        last_mounted_at_ms: None,
    }
}

fn built_record(alias: &str, host: &str) -> ShareRecord {
    ShareRecord::new(
        alias.to_string(),
        FsType::Cifs,
        host.to_string(),
        "Music".to_string(),
        Credentials::Guest,
        String::new(),
        1_700_000_000_000,
    )
}

#[test]
fn load_missing_file_returns_empty() {
    let state = NetworkSharesState::accept(None).expect("load");
    assert_eq!(state, NetworkSharesState::empty());
}

#[test]
fn insert_duplicate_id_errors() {
    let mut state = NetworkSharesState::empty();
    let r = sample_record("first");
    let id = r.share_id.clone();
    state.insert(r).unwrap();
    let clashing = ShareRecord { share_id: id.clone(), ..sample_record("second") };
    let err = state.insert(clashing).unwrap_err();
    assert!(matches!(err, SharesStateError::DuplicateShareId { id: got } if got == id));
}

#[test]
fn remove_missing_id_errors() {
    let mut state = NetworkSharesState::empty();
    let missing = ShareId::new_v4();
    let err = state.remove(&missing).unwrap_err();
    assert!(matches!(err, SharesStateError::ShareNotFound { id: got } if got == missing));
}

#[test]
fn find_returns_inserted_record() {
    let mut state = NetworkSharesState::empty();
    let r = sample_record("primary");
    let id = r.share_id.clone();
    state.insert(r.clone()).unwrap();
    assert_eq!(state.find(&id), Some(&r));
}

#[test]
fn find_mut_lets_caller_update_persisted_vers() {
    let mut state = NetworkSharesState::empty();
    let r = sample_record("primary");
    let id = r.share_id.clone();
    state.insert(r).unwrap();
    state.find_mut(&id).unwrap().persisted_vers = Some("3.0".to_string());
    assert_eq!(state.find(&id).and_then(|r| r.persisted_vers.as_deref()), Some("3.0"));
}

#[test]
fn removal_undoes_insertion() {
    let mut state = NetworkSharesState::empty();
    let kept = sample_record("kept");
    let gone = sample_record("gone");
    let id = gone.share_id.clone();
    state.insert(kept.clone()).unwrap();
    state.insert(gone.clone()).unwrap();
    assert_eq!(state.remove(&id), Ok(gone));
    assert_eq!(state.shares, vec![kept]);
    assert!(state.find(&id).is_none());
}

#[test]
fn other_schemas_are_refused() {
    let newer = NetworkSharesState {
        schema_version: NETWORK_SHARES_SCHEMA_VERSION + 1,
        shares: Vec::new(),
    };
    match NetworkSharesState::accept(Some(newer)) {
        Err(SharesStateError::UnsupportedSchema { found, supported }) => {
            assert_eq!((found, supported), (2, 1))
        }
        other => panic!("expected UnsupportedSchema, got {:?}", other),
    }
}

#[test]
fn state_errors_say_what_happened() {
    let id = ShareId("abc".to_string());
    let texts = [
        SharesStateError::Io("denied".to_string()).to_text(),
        SharesStateError::ParseToml("line 1".to_string()).to_text(),
        SharesStateError::RenderToml("odd".to_string()).to_text(),
        SharesStateError::UnsupportedSchema { found: 2, supported: 1 }.to_text(),
        SharesStateError::ShareNotFound { id: id.clone() }.to_text(),
        SharesStateError::DuplicateShareId { id }.to_text(),
    ];
    let parts = ["denied", "line 1", "odd", "2", "abc", "abc"];
    for i in 0..texts.len() {
        assert!(texts[i].contains(parts[i]), "{}", texts[i]);
    }
}

#[test]
fn ids_are_fresh_version_four_identifiers() {
    let a = ShareId::new_v4();
    let b = ShareId::new_v4();
    assert_ne!(a, b);
    assert_eq!(a.0.len(), 36);
    assert_eq!(a.0.as_bytes()[14], b'4');
    assert_eq!(a.to_text(), a.0);
    assert!(a.same(&a.clone()));
    assert!(!a.same(&b));
}

#[test]
fn default_mount_root_sanitises_alias() {
    assert_eq!(
        ShareRecord::default_mount_root("Family NAS"),
        "/var/lib/evo/music/NAS/Family_NAS"
    );
    assert_eq!(
        ShareRecord::default_mount_root("dev-rig/2024"),
        "/var/lib/evo/music/NAS/dev-rig_2024"
    );
    assert_eq!(ShareRecord::default_mount_root(""), "/var/lib/evo/music/NAS/share");
}

#[test]
fn edits_are_idempotent_and_keep_managed_fields() {
    let mut record = sample_record("before");
    let id = record.share_id.clone();
    let edits = || ShareEdits {
        alias: Some("after".to_string()),
        host: Some("192.0.2.99".to_string()),
        path: Some("Films".to_string()),
        credentials: Some(Credentials::KeyFile { path: "/k".to_string() }),
        advanced_options: Some("rw".to_string()),
        fstype: None,
    };
    assert!(edits().apply_to(&mut record));
    let once = record.clone();
    assert!(!edits().apply_to(&mut record));
    assert_eq!(record, once);
    assert_eq!(record.share_id, id);
    assert_eq!(record.created_at_ms, 1_700_000_000_000);
    assert_eq!(record.path, "Films");
}

#[test]
fn build_cifs_mount_args_guest_share() {
    let mut record = built_record("guest_share", "192.0.2.10");
    record.credentials = Credentials::Guest;
    let args = build_cifs_mount_args(&record, "3.0", None);
    assert_eq!(args[0], "-t");
    assert_eq!(args[1], "cifs");
    assert_eq!(args[2], "-o");
    assert!(args[3].contains("vers=3.0"));
    assert!(args[3].contains("ro"));
    assert!(args[3].contains("iocharset=utf8"));
    assert!(args[3].contains("guest"));
    assert_eq!(args[4], "//192.0.2.10/Music");
    assert_eq!(args[5], "/var/lib/evo/music/NAS/guest_share");
}

#[test]
fn build_cifs_mount_args_userpassword_with_bytes() {
    let mut record = built_record("auth_share", "192.0.2.11");
    record.credentials = Credentials::UserPassword {
        username: "engineer".to_string(),
        credential_key: "auth_share_pw".to_string(),
    };
    let args = build_cifs_mount_args(&record, "3.1.1", Some("hunter2"));
    assert!(args[3].contains("username=engineer"));
    assert!(args[3].contains("password=hunter2"));
    assert!(!args[3].contains("guest"));
}

#[test]
fn build_cifs_mount_args_keyfile() {
    let mut record = built_record("key_share", "192.0.2.12");
    record.credentials = Credentials::KeyFile { path: "/etc/evo/cifs.creds".to_string() };
    let args = build_cifs_mount_args(&record, "2.1", None);
    assert!(args[3].contains("credentials=/etc/evo/cifs.creds"));
}

#[test]
fn build_cifs_mount_args_appends_operator_options() {
    let mut record = built_record("with_opts", "192.0.2.13");
    record.advanced_options = "rw,uid=1000".to_string();
    let args = build_cifs_mount_args(&record, "3.0", None);
    assert!(args[3].contains("rw,uid=1000"));
    assert!(args[3].ends_with("rw,uid=1000"));
}

#[test]
fn build_nfs_mount_args_defaults() {
    let mut record = built_record("nfs", "192.0.2.100");
    record.fstype = FsType::Nfs;
    record.path = "export/music".to_string();
    let args = build_nfs_mount_args(&record);
    assert_eq!(args[0], "-t");
    assert_eq!(args[1], "nfs");
    assert_eq!(args[2], "-o");
    assert!(args[3].contains("ro"));
    assert!(args[3].contains("soft"));
    assert!(args[3].contains("noauto"));
    assert_eq!(args[4], "192.0.2.100:/export/music");
    assert_eq!(args[5], "/var/lib/evo/music/NAS/nfs");
}

#[test]
fn build_nfs_mount_args_appends_operator_options() {
    let mut record = built_record("nfs2", "192.0.2.101");
    record.fstype = FsType::Nfs;
    record.path = "/export/music".to_string();
    record.advanced_options = "nfsvers=4.2,rsize=1048576".to_string();
    let args = build_nfs_mount_args(&record);
    assert!(args[3].contains("nfsvers=4.2"));
    assert!(args[3].contains("rsize=1048576"));
    assert_eq!(args[4], "192.0.2.101:/export/music");
}

#[test]
fn build_umount_args_plain() {
    let args = build_umount_args("/var/lib/evo/music/NAS/plain", false);
    assert_eq!(args, vec!["/var/lib/evo/music/NAS/plain".to_string()]);
}

#[test]
fn build_umount_args_lazy_prepends_flag() {
    let args = build_umount_args("/var/lib/evo/music/NAS/lazy", true);
    assert_eq!(args, vec!["-l".to_string(), "/var/lib/evo/music/NAS/lazy".to_string()]);
}

#[test]
fn known_dialects_are_planned_in_order() {
    assert_eq!(cifs_vers_probe_ladder(), vec!["2.0", "2.1", "3.0", "3.02", "3.1.1"]);
    let mut record = built_record("plan", "192.0.2.14");
    assert_eq!(plan_dialects(&record), cifs_vers_probe_ladder());
    record.persisted_vers = Some("3.0".to_string());
    assert_eq!(plan_dialects(&record), vec!["3.0", "2.0", "2.1", "3.02", "3.1.1"]);
    record.advanced_options = "rw,vers=1.0".to_string();
    assert_eq!(plan_dialects(&record), vec!["1.0"]);
}

#[test]
fn parse_nfs_version_finds_vers_option() {
    let mounts = "\
proc /proc proc rw,nosuid,nodev,noexec 0 0
192.0.2.100:/export/music /var/lib/evo/music/NAS/nfs nfs4 ro,vers=4.2,rsize=1048576 0 0
";
    assert_eq!(
        parse_nfs_version_from_proc_mounts(mounts, "/var/lib/evo/music/NAS/nfs"),
        Some("4.2".to_string())
    );
}

#[test]
fn parse_nfs_version_finds_nfsvers_option() {
    let mounts = "192.0.2.101:/e /var/lib/evo/music/NAS/alt nfs ro,soft,nfsvers=3 0 0\n";
    assert_eq!(
        parse_nfs_version_from_proc_mounts(mounts, "/var/lib/evo/music/NAS/alt"),
        Some("3".to_string())
    );
}

#[test]
fn parse_nfs_version_returns_none_for_absent_mount() {
    let mounts = "proc /proc proc rw 0 0\n";
    assert_eq!(
        parse_nfs_version_from_proc_mounts(mounts, "/var/lib/evo/music/NAS/missing"),
        None
    );
}

#[test]
fn parse_nfs_version_ignores_non_nfs_fstype_at_same_mount() {
    let mounts = "/dev/sda1 /var/lib/evo/music/NAS/x ext4 rw 0 0\n";
    assert_eq!(parse_nfs_version_from_proc_mounts(mounts, "/var/lib/evo/music/NAS/x"), None);
}

#[test]
fn short_mount_lines_are_skipped() {
    let mounts = "odd\nh:/e /m nfs4 ro,vers=4.1 0 0\n";
    assert_eq!(parse_nfs_version_from_proc_mounts(mounts, "/m"), Some("4.1".to_string()));
}

#[test]
fn parse_avahi_browse_ignores_non_resolved_and_ipv6() {
    let stdout = "\
+;eth0;IPv4;NAS-A;_smb._tcp;local
+;eth0;IPv6;NAS-A;_smb._tcp;local
=;eth0;IPv4;NAS-A;_smb._tcp;local;nas-a.local;192.0.2.100;445;txt
=;eth0;IPv6;NAS-A;_smb._tcp;local;nas-a.local;fe80::1;445;txt
=;wlan0;IPv4;NAS-B;_smb._tcp;local;nas-b.local;192.0.2.101;445;txt
";
    let hosts = parse_avahi_browse_output(stdout);
    assert_eq!(hosts.len(), 2);
    assert_eq!(hosts[0], ("NAS-A".to_string(), "192.0.2.100".to_string()));
    assert_eq!(hosts[1], ("NAS-B".to_string(), "192.0.2.101".to_string()));
}

#[test]
fn parse_avahi_browse_collapses_duplicate_ips_across_interfaces() {
    let stdout = "\
=;eth0;IPv4;NAS-C;_smb._tcp;local;nas-c.local;192.0.2.200;445;txt
=;wlan0;IPv4;NAS-C;_smb._tcp;local;nas-c.local;192.0.2.200;445;txt
";
    let hosts = parse_avahi_browse_output(stdout);
    assert_eq!(hosts.len(), 1);
}

#[test]
fn parse_smbclient_disk_lines_extracts_named_disk_shares() {
    let stdout = "\n\
\tSharename       Type      Comment\n\
\t---------       ----      -------\n\
\tMusic           Disk      family music\n\
\tMovies          Disk      film archive\n\
\tIPC$            IPC       Remote IPC\n\
\tprint$          Disk      Printer Drivers\n\
\tUsers           Disk      home folders\n\
\n\
\tServer               Comment\n";
    let shares = parse_smbclient_disk_lines(stdout);
    assert_eq!(shares.len(), 3);
    assert_eq!(shares[0].name, "Music");
    assert_eq!(shares[0].comment.as_deref(), Some("family music"));
    assert_eq!(shares[1].name, "Movies");
    assert_eq!(shares[2].name, "Users");
}

#[test]
fn parse_smbclient_dialect_finds_debug_line() {
    let stderr = "some debug prefix\nnegotiated dialect[SMB3_11] against nas-a\nmore output\n";
    assert_eq!(parse_smbclient_dialect(stderr), Some("SMB3_11".to_string()));
}

#[test]
fn parse_smbclient_dialect_returns_none_without_marker() {
    assert_eq!(parse_smbclient_dialect("no marker here\n"), None);
}

#[test]
fn build_avahi_browse_args_shape() {
    assert_eq!(build_avahi_browse_args(), vec!["-trkp".to_string(), "_smb._tcp".to_string()]);
}

#[test]
fn build_avahi_browse_args_omits_the_all_services_flag() {
    for arg in build_avahi_browse_args() {
        if let Some(flags) = arg.strip_prefix('-') {
            assert!(
                !flags.contains('a'),
                "avahi-browse args must not include the `-a` (all services) flag when a service type is passed; got flag bundle `{arg}`"
            );
        }
    }
}

#[test]
fn build_smbclient_list_args_shape() {
    let args = build_smbclient_list_args("192.0.2.10");
    assert_eq!(args[0], "-N");
    assert_eq!(args[1], "-L");
    assert_eq!(args[2], "192.0.2.10");
    assert_eq!(args[3], "-m");
    assert_eq!(args[4], "SMB3_11");
    assert_eq!(args[5], "--debuglevel=4");
}

#[test]
fn a_browse_that_cannot_run_ends_the_sweep() {
    let err = DiscoverySweep::begin(Err(MountError::SubprocessIo("missing".to_string())));
    assert!(matches!(err, Err(MountError::SubprocessIo(_))));
}

#[test]
fn output_that_is_not_text_is_read_with_replacements() {
    let output = CommandOutput {
        exit_code: Some(0),
        stdout: b"=;eth0;IPv4;N\xff;_smb._tcp;local;n.local;192.0.2.1;445;txt\n".to_vec(),
        stderr: Vec::new(),
    };
    let sweep = DiscoverySweep::begin(Ok(output)).ok().expect("a sweep");
    assert_eq!(sweep.next_args(), Some(build_smbclient_list_args("192.0.2.1")));
    let mut sweep = sweep;
    sweep.on_listing(Err(MountError::SubprocessIo("gone".to_string())));
    let found = sweep.into_found();
    assert_eq!(found[0].name, "N\u{fffd}");
}

#[test]
fn mount_errors_say_what_happened() {
    let id = ShareId("abc".to_string());
    let text = MountError::Timeout { id: id.clone(), timeout_ms: 30_000 }.to_text();
    assert!(text.contains("30000"), "{text}");
    let text = MountError::CredentialMissing { key: "nas_pw".to_string() }.to_text();
    assert!(text.contains("nas_pw"), "{text}");
    let text = MountError::MountFailed { id, exit_code: Some(-3), stderr: "no".to_string() }
        .to_text();
    assert!(text.contains("-3") && text.contains("no"), "{text}");
    let text = MountError::DialectProbeExhausted {
        attempted: vec!["2.0".to_string(), "3.0".to_string()],
        last_error: "down".to_string(),
    }
    .to_text();
    assert!(text.contains("[\"2.0\", \"3.0\"]"), "{text}");
}

#[test]
fn configured_singleton_addressing_shape_is_stable() {
    let a = configured_singleton_addressing();
    assert_eq!(a.scheme, "evo.network.shares.configured");
    assert_eq!(a.value, "local");
}

#[test]
fn discovered_singleton_addressing_shape_is_stable() {
    let a = discovered_singleton_addressing();
    assert_eq!(a.scheme, "evo.network.shares.discovered");
    assert_eq!(a.value, "local");
}

#[test]
fn share_state_addressing_carries_share_id_as_value() {
    let id = ShareId("abc-123".to_string());
    let a = share_state_addressing(&id);
    assert_eq!(a.scheme, "evo.network.share.state");
    assert_eq!(a.value, "abc-123");
}

#[test]
fn is_network_shares_verb_recognises_declared_ops_and_rejects_others() {
    for op in network_shares_verbs() {
        assert!(is_network_shares_verb(&op), "verb {op} should be recognised");
    }
    assert!(!is_network_shares_verb("network.share.reboot"));
    assert!(!is_network_shares_verb("network.wifi.connect"));
    assert!(!is_network_shares_verb(""));
}

#[test]
fn every_verb_is_found_under_its_name() {
    for op in network_shares_verbs() {
        assert_eq!(find_verb(&op).map(|v| v.as_str().to_string()), Some(op));
    }
    assert_eq!(find_verb("network.share.mount"), Some(Verb::Mount));
}

#[test]
fn root_needs_no_sudo() {
    assert!(!needs_sudo(Some("Name:\tevo\nUid:\t1000\t0\t0\t0\n")));
    assert!(needs_sudo(Some("Name:\tevo\nUid:\t0\t1000\t0\t0\n")));
    assert!(needs_sudo(Some("Uid:\t0\n")));
    assert!(needs_sudo(Some("Uid:\t0\tx\n")));
    assert!(needs_sudo(Some("Name:\tevo\n")));
    assert!(needs_sudo(None));
}

#[test]
fn the_shares_plugin_takes_requests_once_loaded() {
    let mut plugin = NetworkSharesPlugin::default();
    assert_eq!(plugin.health().as_deref(), Some("network.shares plugin not loaded"));
    assert_eq!(
        plugin.accept_request("network.share.add", false),
        Err(PluginError::Permanent("network.shares plugin not loaded".to_string()))
    );
    let refused = plugin.load(Err(SharesStateError::Io("denied".to_string())));
    match refused {
        Err(PluginError::Permanent(m)) => {
            assert!(m.starts_with("network.shares runtime open failed: "), "{m}")
        }
        other => panic!("expected a permanent error, got {:?}", other),
    }
    assert!(!plugin.loaded);
    plugin.load(Ok(NetworkSharesRuntime::open(NetworkSharesState::empty(), 1))).unwrap();
    assert_eq!(plugin.health(), None);
    assert_eq!(plugin.accept_request("network.share.add", false), Ok(Verb::Add));
    assert_eq!(
        plugin.accept_request("network.share.add", true),
        Err(PluginError::Transient("request deadline already expired".to_string()))
    );
    assert_eq!(
        plugin.accept_request("no\n", false),
        Err(PluginError::Permanent("network.shares: unknown verb \"no\\n\"".to_string()))
    );
    plugin.unload();
    assert!(plugin.health().is_some());
}

#[test]
fn only_failed_mounts_may_be_retried() {
    let mount = VerbDispatchError::Mount(MountError::SubprocessIo("x".to_string()));
    assert!(matches!(verb_error_to_plugin_error(&mount), PluginError::Transient(_)));
    let prompt = VerbDispatchError::Mount(MountError::NoResponderAvailable {
        key: "nas_pw".to_string(),
        reason: "slot is empty".to_string(),
    });
    assert_eq!(
        verb_error_to_plugin_error(&prompt),
        PluginError::WithSubclass {
            class: ErrorClass::PermissionDenied,
            subclass: "no_responder_available".to_string(),
            message: "network.share mutation refused: no user-interaction responder session is \
                      currently connected to answer the password prompt for credential key \
                      nas_pw. Try again after a session claims the responder slot."
                .to_string(),
        }
    );
    let decode = VerbDispatchError::PayloadDecode {
        request_type: "network.share.add".to_string(),
        detail: "eof".to_string(),
    };
    assert_eq!(
        verb_error_to_plugin_error(&decode),
        PluginError::Permanent("payload decode failed for network.share.add: eof".to_string())
    );
    let serialise = VerbDispatchError::ResponseSerialise {
        request_type: "r".to_string(),
        detail: "d".to_string(),
    };
    assert!(matches!(verb_error_to_plugin_error(&serialise), PluginError::Permanent(_)));
    let persistence = VerbDispatchError::Persistence(SharesStateError::Io("x".to_string()));
    assert!(matches!(verb_error_to_plugin_error(&persistence), PluginError::Permanent(_)));
}

#[test]
fn fresh_runtimes_start_unmounted() {
    let mut state = NetworkSharesState::empty();
    let record = sample_record("boot");
    let id = record.share_id.clone();
    state.insert(record).unwrap();
    let rt = NetworkSharesRuntime::open(state, 42);
    let envelope = rt.share_state_envelope(&id).unwrap();
    assert_eq!(envelope.state, MountState::Unmounted);
    assert_eq!(envelope.last_transition_at_ms, 42);
    assert_eq!(rt.remount_ids(), vec![id]);
}
