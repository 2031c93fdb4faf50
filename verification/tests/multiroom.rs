//! Multi-room audio: profiles, aggregation, scheduling, wire format and requests.

use evo_device_plugins::json::{Json, Member};
use evo_device_plugins::multiroom::aggregator::{
    needs_peers, Aggregator, PeerInfo, PeerReply, Published, ReceiverTelemetry,
    AUTO_DECAY_WINDOW_TICKS, SOURCE_AGGREGATION_TICK_MS, WARMUP_GRACE_MS,
};
use evo_device_plugins::multiroom::asound_dropin::{
    detect_audio_card, render, temp_file_name, DISENGAGED_PLACEHOLDER,
};
use evo_device_plugins::multiroom::percentile::{kth_smallest, p95_position};
use evo_device_plugins::multiroom::plugin::{
    request_types, LoadPlan, MultiroomEvoNativePlugin, PluginConfig,
};
use evo_device_plugins::multiroom::profile::{LeaderMode, Profile, Role};
use evo_device_plugins::multiroom::receiver::{ReceivedFrame, ReceiverScheduler, NANOS_PER_MS};
use evo_device_plugins::multiroom::source::{
    capture_chunk, decode_payload, encode_mono, encode_samples, AfterWrite, CaptureQueue,
    RenderWrite, SourceEmitter, WriteOutcome, CAPTURE_QUEUE_CHUNKS, CHUNK_PERIOD_US,
};
use evo_device_plugins::plugin_error::PluginError;

fn report(jitter: u64, underruns: u64, capacity: u64) -> PeerInfo {
    PeerInfo {
        remote_device_id: "kitchen".to_string(),
        receiver_telemetry: Some(ReceiverTelemetry {
            observed_jitter_p95_ms: jitter,
            underrun_count: underruns,
            applied_leader_ms: 0,
            render_buffer_capacity_ms: capacity,
        }),
    }
}

fn frame(device: &str, pts: u64, leader: u64, byte: u8) -> ReceivedFrame {
    ReceivedFrame {
        from_device_id: device.to_string(),
        group_id: "g".to_string(),
        codec: "pcm_s16_le".to_string(),
        rate_hz: 48_000,
        channels: 2,
        presentation_time_ms: pts,
        group_leader_ms: leader,
        payload: vec![byte; 4],
    }
}

fn ms(n: u64) -> u64 {
    n * NANOS_PER_MS
}

fn member<'a>(json: &'a Json, key: &str) -> &'a Json {
    match json {
        Json::Object(members) => {
            let found: Option<&Member> = members.iter().find(|m| m.key == key);
            &found.expect("the member").value
        }
        other => panic!("expected an object, got {:?}", other),
    }
}

fn loaded(cfg: PluginConfig) -> MultiroomEvoNativePlugin {
    let mut plugin = MultiroomEvoNativePlugin::new();
    plugin.load(cfg, true).expect("load");
    plugin
}

#[test]
fn render_with_card_includes_evo_local() {
    let body = render(Some("DAC"));
    assert!(body.contains("pcm.evo {"));
    assert!(body.contains("evo_source_mode_tee"));
    assert!(body.contains("evo_source_mode_loopback_playback"));
    assert!(body.contains("evo_terminus_tap"));
    assert!(body.contains("card \"Loopback\""));
    assert!(body.contains("subdevice 0"));
    assert!(body.contains("subdevice 7"));
    assert!(body.contains("pcm.evo_local {"));
    assert!(body.contains("hw:CARD=DAC,DEV=0"));
    assert!(body.contains("pcm.evo_loopback_capture {"));
}

#[test]
fn render_without_card_omits_evo_local_with_explanatory_comment() {
    let body = render(None);
    assert!(body.contains("pcm.evo {"));
    assert!(body.contains("evo_source_mode_tee"));
    assert!(body.contains("evo_terminus_tap"));
    assert!(!body.contains("pcm.evo_local {"));
    assert!(body.contains("pcm.evo_local omitted"));
    assert!(body.contains("pcm.evo_loopback_capture {"));
}

#[test]
fn render_is_deterministic_for_identical_input() {
    let a = render(Some("PCH"));
    let b = render(Some("PCH"));
    assert_eq!(a, b);
}

#[test]
fn the_placeholder_defines_nothing() {
    assert!(DISENGAGED_PLACEHOLDER.contains("Plugin-managed"));
    assert!(!DISENGAGED_PLACEHOLDER.contains("evo_source_mode_tee"));
    assert!(DISENGAGED_PLACEHOLDER.lines().all(|l| l.is_empty() || l.starts_with('#')));
}

#[test]
fn the_first_complete_card_line_names_the_card() {
    assert_eq!(
        detect_audio_card("pcm.x {\n  type hw\n\tcard  \"PCH\" # dac\n card \"Other\"\n}\n").as_deref(),
        Some("PCH")
    );
    assert_eq!(detect_audio_card("card \"open\ncard \"DAC\"\n").as_deref(), Some("DAC"));
    assert_eq!(detect_audio_card("cards 3\ncard DAC\n"), None);
    assert_eq!(detect_audio_card(""), None);
}

#[test]
fn temporary_files_are_hidden_siblings() {
    assert_eq!(temp_file_name(Some("zz.conf"), 417), ".zz.conf.tmp.417");
    assert_eq!(temp_file_name(None, 0), ".evo-multiroom.tmp.0");
}

#[test]
fn plugin_construction_is_unloaded() {
    let p = MultiroomEvoNativePlugin::new();
    assert!(!p.loaded);
    assert_eq!(p.frames_received(), 0);
    assert_eq!(p.frames_sent(), 0);
}

#[test]
fn default_role_is_auto() {
    let cfg = PluginConfig::default();
    assert_eq!(cfg.role, Role::Auto);
}

#[test]
fn parse_source_config() {
    let cfg = PluginConfig {
        role: Role::Source,
        group_id: Some("abc-123".to_string()),
        ..Default::default()
    };
    let mut p = MultiroomEvoNativePlugin::new();
    p.apply_config(cfg).unwrap();
    assert_eq!(p.config.role, Role::Source);
    assert_eq!(p.config.group_id.as_deref(), Some("abc-123"));
}

#[test]
fn parse_source_without_group_id_refuses() {
    let cfg = PluginConfig { role: Role::Source, ..Default::default() };
    let mut p = MultiroomEvoNativePlugin::new();
    let err = p.apply_config(cfg).unwrap_err();
    assert!(matches!(err, PluginError::Permanent(_)));
}

#[test]
fn parse_receiver_config() {
    let cfg = PluginConfig {
        role: Role::Receiver,
        alsa_pcm: "evo".to_string(),
        ..Default::default()
    };
    let mut p = MultiroomEvoNativePlugin::new();
    p.apply_config(cfg).unwrap();
    assert_eq!(p.config.role, Role::Receiver);
    assert_eq!(p.config.alsa_pcm, "evo");
}

#[test]
fn loading_says_what_to_run() {
    let mut p = MultiroomEvoNativePlugin::new();
    let source = || PluginConfig {
        role: Role::Source,
        group_id: Some("g".to_string()),
        source_pcm: "evo_loopback_capture".to_string(),
        ..Default::default()
    };
    assert!(matches!(p.load(source(), false), Err(PluginError::Permanent(m)) if m.contains("audio_plane")));
    assert!(!p.loaded);
    assert_eq!(
        p.load(source(), true),
        Ok(LoadPlan::Source {
            group_id: "g".to_string(),
            capture_pcm: Some("evo_loopback_capture".to_string()),
        })
    );
    assert!(p.loaded);
    let tone = PluginConfig { source_pcm: String::new(), ..source() };
    assert_eq!(
        MultiroomEvoNativePlugin::new().load(tone, true),
        Ok(LoadPlan::Source { group_id: "g".to_string(), capture_pcm: None })
    );
    assert_eq!(
        MultiroomEvoNativePlugin::new().load(PluginConfig::default(), true),
        Ok(LoadPlan::Receiver { alsa_pcm: "evo".to_string(), renders: false })
    );
    p.unload();
    assert!(!p.loaded);
}

#[test]
fn codes_round_trip() {
    for p in [Profile::Aggressive, Profile::Conservative, Profile::Defensive] {
        assert_eq!(Profile::from_u8(p.to_u8()), p);
    }
    assert_eq!(Profile::from_u8(9), Profile::Conservative);
    for m in [LeaderMode::AutoDecay, LeaderMode::AutoPinned, LeaderMode::Manual] {
        assert_eq!(LeaderMode::from_u8(m.to_u8()), m);
    }
    assert_eq!(LeaderMode::from_u8(9), LeaderMode::AutoDecay);
    assert_eq!(Role::Auto.as_wire_str(), "auto");
}

#[test]
fn profiles_step_one_at_a_time() {
    assert_eq!(Profile::Aggressive.escalate(), Profile::Conservative);
    assert_eq!(Profile::Conservative.escalate(), Profile::Defensive);
    assert_eq!(Profile::Defensive.escalate(), Profile::Defensive);
    assert_eq!(Profile::Defensive.decay(), Profile::Conservative);
    assert_eq!(Profile::Conservative.decay(), Profile::Aggressive);
    assert_eq!(Profile::Aggressive.decay(), Profile::Aggressive);
}

#[test]
fn percentiles_are_order_statistics() {
    assert_eq!(p95_position(1), 0);
    assert_eq!(p95_position(20), 19);
    assert_eq!(p95_position(100), 95);
    assert_eq!(kth_smallest(&vec![7, 3, 9, 3], 0), 3);
    assert_eq!(kth_smallest(&vec![7, 3, 9, 3], 2), 7);
    assert_eq!(kth_smallest(&vec![7, 3, 9, 3], 3), 9);
}

#[test]
fn leaders_follow_the_worst_receiver() {
    let mut a = Aggregator::new();
    let current = Published { profile: Profile::Conservative, group_leader_ms: 200 };
    let peers = PeerReply::Listed(vec![report(40, 0, 2000), report(15, 0, 1500)]);
    let out = a.tick(0, LeaderMode::AutoPinned, 0, current, &peers);
    assert_eq!(out, Published { profile: Profile::Conservative, group_leader_ms: 130 });
    let tight = PeerReply::Listed(vec![report(40, 0, 60)]);
    let out = a.tick(0, LeaderMode::AutoPinned, 0, current, &tight);
    assert_eq!(out.group_leader_ms, 60);
    let odd = Published { profile: Profile::Aggressive, group_leader_ms: 200 };
    let peers = PeerReply::Listed(vec![report(3, 0, 2000)]);
    assert_eq!(a.tick(0, LeaderMode::AutoPinned, 0, odd, &peers).group_leader_ms, 34);
    let far = PeerReply::Listed(vec![report(5_000, 0, 9_000)]);
    assert_eq!(a.tick(0, LeaderMode::AutoPinned, 0, current, &far).group_leader_ms, 2000);
}

#[test]
fn manual_leaders_are_held_in_range() {
    let mut a = Aggregator::new();
    let current = Published { profile: Profile::Defensive, group_leader_ms: 200 };
    assert!(!needs_peers(LeaderMode::Manual));
    assert!(needs_peers(LeaderMode::AutoDecay));
    for (asked, held) in [(5, 20), (300, 300), (9_000, 2000)] {
        let out = a.tick(0, LeaderMode::Manual, asked, current, &PeerReply::Failed);
        assert_eq!(out, Published { profile: Profile::Defensive, group_leader_ms: held });
    }
}

#[test]
fn without_reports_everything_is_held() {
    let mut a = Aggregator { quiet_ticks: 7, prev_underrun_total: 3, first_telemetry_ns: Some(1) };
    let current = Published { profile: Profile::Defensive, group_leader_ms: 321 };
    assert_eq!(a.tick(5, LeaderMode::AutoDecay, 0, current, &PeerReply::Failed), current);
    assert_eq!(a.quiet_ticks, 7);
    let silent = PeerInfo { remote_device_id: "den".to_string(), receiver_telemetry: None };
    let reply = PeerReply::Listed(vec![silent]);
    assert_eq!(a.tick(5, LeaderMode::AutoDecay, 0, current, &reply), current);
    assert_eq!(a, Aggregator::new());
}

#[test]
fn underruns_escalate_after_the_warm_up_and_quiet_decays() {
    let mut a = Aggregator::new();
    let mut current = Published { profile: Profile::Aggressive, group_leader_ms: 0 };
    let tick = |a: &mut Aggregator, now_ms: u64, underruns: u64, current: Published| {
        let reply = PeerReply::Listed(vec![report(10, underruns, 2000)]);
        a.tick(ms(now_ms), LeaderMode::AutoDecay, 0, current, &reply)
    };
    current = tick(&mut a, 0, 5, current);
    assert_eq!(current.profile, Profile::Aggressive, "warm-up underruns do not count");
    current = tick(&mut a, WARMUP_GRACE_MS, 6, current);
    assert_eq!(current.profile, Profile::Conservative);
    let mut now = WARMUP_GRACE_MS;
    for _ in 1..AUTO_DECAY_WINDOW_TICKS {
        now += SOURCE_AGGREGATION_TICK_MS;
        current = tick(&mut a, now, 6, current);
        assert_eq!(current.profile, Profile::Conservative);
    }
    current = tick(&mut a, now + SOURCE_AGGREGATION_TICK_MS, 6, current);
    assert_eq!(current.profile, Profile::Aggressive);
    assert_eq!(current.group_leader_ms, 45);
}

#[test]
fn frames_are_rendered_in_order_when_due() {
    let mut s = ReceiverScheduler::new(200);
    assert!(s.on_frame(ms(1_000), frame("a", 500, 0, 1)));
    assert!(!s.on_frame(ms(1_001), frame("a", 520, 0, 2)));
    assert!(s.on_frame(ms(1_002), frame("b", 540, 0, 3)));
    assert_eq!(s.queue_depth(), 3);
    assert_eq!(s.frames_received(), 3);
    assert!(s.on_tick(ms(1_199), LeaderMode::AutoDecay, 50).is_empty());
    let out = s.on_tick(ms(1_225), LeaderMode::AutoDecay, 50);
    assert_eq!(out.iter().map(|f| f.payload[0]).collect::<Vec<u8>>(), vec![1, 2]);
    assert_eq!(s.jitter_p95_ms(), 25);
    assert_eq!(s.queue_depth(), 1);
    let rest = s.on_tick(ms(1_240), LeaderMode::AutoDecay, 50);
    assert_eq!(rest[0], frame("b", 540, 0, 3));
}

#[test]
fn the_operator_leads_in_manual_mode() {
    let mut s = ReceiverScheduler::new(0);
    s.on_frame(ms(10), frame("a", 0, 300, 1));
    assert_eq!(s.group_leader_ms(), 300);
    assert!(s.on_tick(ms(60), LeaderMode::AutoDecay, 50).is_empty());
    assert_eq!(s.on_tick(ms(60), LeaderMode::Manual, 50).len(), 1);
    s.on_underrun();
    assert_eq!(s.underruns(), 1);
}

#[test]
fn old_jitter_leaves_the_window() {
    let mut s = ReceiverScheduler::new(10);
    s.on_frame(ms(0), frame("a", 0, 0, 1));
    s.on_tick(ms(110), LeaderMode::AutoDecay, 0);
    assert_eq!(s.jitter_p95_ms(), 100);
    s.on_frame(ms(20_000), frame("a", 20_000, 0, 2));
    s.on_tick(ms(20_015), LeaderMode::AutoDecay, 0);
    assert_eq!(s.jitter_p95_ms(), 5);
}

#[test]
fn samples_survive_the_wire() {
    let samples = [0i16, 1, -1, i16::MAX, i16::MIN, -12_345];
    let bytes = encode_samples(&samples);
    assert_eq!(&bytes[..6], &[0, 0, 1, 0, 255, 255]);
    assert!(decode_payload(&bytes).is_ok());
    assert_eq!(decode_payload(&bytes[..8]).unwrap(), &samples[..4]);
    assert_eq!(
        decode_payload(&bytes[..6]).unwrap_err(),
        "payload length 6 not aligned to s16le stereo frame (4 bytes)"
    );
    assert_eq!(decode_payload(&encode_mono(&[-2, 3])).unwrap(), vec![-2, -2, 3, 3]);
    assert_eq!(CHUNK_PERIOD_US, 20_000);
}

#[test]
fn frames_carry_their_payload_in_base64() {
    let mut e = SourceEmitter::new();
    let f = e.next_frame(40, &[0xff, 0x00, 0x10, 0x20], 150);
    assert_eq!(f.payload_b64, "/wAQIA==");
    assert_eq!(f.codec, "pcm_s16_le");
    assert_eq!((f.sequence, f.presentation_time_ms, f.group_leader_ms), (0, 40, 150));
    assert_eq!((f.rate_hz, f.channels), (48_000, 2));
    e.on_fan_out(true);
    e.on_fan_out(false);
    assert_eq!((e.sequence, e.frames_sent), (1, 1));
}

#[test]
fn payload_texts_are_told_apart() {
    let text = |bytes: &[u8]| SourceEmitter::new().next_frame(0, bytes, 0).payload_b64;
    assert_eq!(text(b""), "");
    assert_eq!(text(b"f"), "Zg==");
    assert_eq!(text(b"fo"), "Zm8=");
    assert_eq!(text(b"foo"), "Zm9v");
    assert_eq!(text(b"foobar"), "Zm9vYmFy");
    let digits: Vec<u8> = (0..16u32)
        .flat_map(|g| {
            let bits = (4 * g) << 18 | (4 * g + 1) << 12 | (4 * g + 2) << 6 | (4 * g + 3);
            [(bits >> 16) as u8, (bits >> 8) as u8, bits as u8]
        })
        .collect();
    assert_eq!(
        text(&digits),
        "ABCDEFGHIJKLMNOPQRSTUVWXYZabcdefghijklmnopqrstuvwxyz0123456789+/"
    );
    let mut texts: Vec<String> =
        [&b""[..], b"\0", b"\0\0", b"\0\0\0", b"\0\0\0\0"].iter().map(|b| text(b)).collect();
    texts.sort();
    texts.dedup();
    assert_eq!(texts.len(), 5);
}

#[test]
fn peers_are_shown_in_the_status_alone() {
    let mut p = MultiroomEvoNativePlugin::new();
    assert!(!p.shows_peers("multiroom.get_status"));
    p.loaded = true;
    assert!(p.shows_peers("multiroom.get_status"));
    assert!(!p.shows_peers("multiroom.set_leader_ms"));
}

#[test]
fn captures_keep_the_newest_chunks() {
    assert_eq!(capture_chunk(&[1, 2, 3, 4], 0), None);
    assert_eq!(capture_chunk(&[1, 2, 3, 4], 1), Some(vec![1, 0, 2, 0]));
    let mut q = CaptureQueue::new();
    for i in 0..CAPTURE_QUEUE_CHUNKS + 1 {
        q.push(vec![i as u8]);
    }
    assert_eq!(q.pop(), Some(vec![1]));
    for _ in 1..CAPTURE_QUEUE_CHUNKS {
        assert!(q.pop().is_some());
    }
    assert_eq!(q.pop(), None);
}

#[test]
fn a_refused_write_is_retried_once() {
    let mut w = RenderWrite::new();
    assert_eq!(w.after_first(960, &WriteOutcome::Wrote(960)), AfterWrite::Done);
    assert!(!w.take_xrun_recovered());
    assert_eq!(
        w.after_first(960, &WriteOutcome::Wrote(10)),
        AfterWrite::GiveUp("short write: requested 960 frames, wrote 10".to_string())
    );
    let failed = WriteOutcome::Failed("EPIPE".to_string());
    assert_eq!(w.after_first(960, &failed), AfterWrite::Recover);
    assert_eq!(w.after_retry(960, &WriteOutcome::Wrote(960)), Ok(()));
    assert_eq!(w.after_retry(960, &failed), Err("post-recover write error: EPIPE".to_string()));
    assert_eq!(
        w.after_retry(960, &WriteOutcome::Wrote(1)),
        Err("post-recover short write: requested 960 frames, wrote 1".to_string())
    );
    assert!(w.take_xrun_recovered());
    assert!(!w.take_xrun_recovered());
}

#[test]
fn status_lists_settings_and_reporting_peers() {
    let mut p = loaded(PluginConfig::default());
    let silent = PeerInfo { remote_device_id: "den".to_string(), receiver_telemetry: None };
    let peers = vec![silent, report(12, 3, 900)];
    let status = p.handle_request("multiroom.get_status", b"", &peers).unwrap();
    assert_eq!(member(&status, "v"), &Json::Number("1".to_string()));
    assert_eq!(member(&status, "role"), &Json::Text("auto".to_string()));
    assert_eq!(member(&status, "group_id"), &Json::Null);
    assert_eq!(member(&status, "leader_mode"), &Json::Text("auto_decay".to_string()));
    match member(&status, "peer_telemetry") {
        Json::Array(rows) => {
            assert_eq!(rows.len(), 1);
            assert_eq!(member(&rows[0], "underrun_count"), &Json::Number("3".to_string()));
        }
        other => panic!("expected rows, got {:?}", other),
    }
}

#[test]
fn setters_read_their_payload() {
    let none: Vec<PeerInfo> = Vec::new();
    let mut p = loaded(PluginConfig::default());
    let r = p.handle_request("multiroom.set_profile", b"{\"value\":\"defensive\"}", &none);
    assert_eq!(member(&r.unwrap(), "profile"), &Json::Text("defensive".to_string()));
    assert_eq!(p.profile, Profile::Defensive);
    let r = p.handle_request("multiroom.set_leader_mode", b"{\"value\":\"manual\"}", &none);
    assert!(r.is_ok());
    assert_eq!(p.leader_mode, LeaderMode::Manual);
    let r = p.handle_request("multiroom.set_leader_ms", b"{\"value\":450}", &none);
    assert_eq!(member(&r.unwrap(), "leader_ms"), &Json::Number("450".to_string()));
    assert_eq!(p.leader_ms(), 450);
}

#[test]
fn refused_requests_change_nothing() {
    let none: Vec<PeerInfo> = Vec::new();
    let mut p = loaded(PluginConfig::default());
    let cases: [(&str, &[u8], &str); 7] = [
        ("multiroom.set_leader_ms", b"{\"value\":5}", "value 5 out of range [20, 2000]"),
        ("multiroom.set_leader_ms", b"{\"value\":\"x\"}", "must contain integer 'value'"),
        ("multiroom.set_leader_ms", b"nope", "payload not JSON: "),
        ("multiroom.set_profile", b"{\"value\":\"fast\"}", "unknown profile \"fast\""),
        ("multiroom.set_profile", b"{}", "must contain string 'value'"),
        ("multiroom.set_leader_mode", b"{\"value\":\"x\"}", "unknown mode \"x\""),
        ("multiroom.dance", b"{}", "request type \"multiroom.dance\" declared but no handler wired"),
    ];
    for (request, payload, complaint) in cases {
        match p.handle_request(request, payload, &none) {
            Err(PluginError::Permanent(m)) => assert!(m.contains(complaint), "{m}"),
            other => panic!("expected a refusal, got {:?}", other),
        }
    }
    assert_eq!((p.leader_ms, p.profile, p.leader_mode), (200, Profile::Conservative, LeaderMode::AutoDecay));
    let mut unloaded = MultiroomEvoNativePlugin::new();
    assert_eq!(
        unloaded.handle_request("multiroom.get_status", b"", &none),
        Err(PluginError::Permanent("plugin not loaded".to_string()))
    );
    assert_eq!(request_types().len(), 4);
}

#[test]
fn figures_reach_telemetry_and_health() {
    let mut p = loaded(PluginConfig { role: Role::Receiver, ..Default::default() });
    let mut s = ReceiverScheduler::new(200);
    s.on_frame(ms(1), frame("a", 0, 90, 1));
    s.on_underrun();
    p.note_receiver(&s);
    let t = p.telemetry();
    assert_eq!((t.underrun_count, t.applied_leader_ms, t.render_buffer_capacity_ms), (1, 90, 2000));
    assert_eq!(p.health_detail(), "role=receiver frames_sent=0 frames_received=1");
    p.note_published(Published { profile: Profile::Aggressive, group_leader_ms: 77 });
    assert_eq!((p.profile, p.group_leader_ms), (Profile::Aggressive, 77));
}

#[test]
fn figures_count_on_from_task_to_task() {
    let mut plugin = MultiroomEvoNativePlugin::new();
    let mut emitter = plugin.emitter();
    emitter.on_fan_out(true);
    emitter.on_fan_out(false);
    plugin.note_emitter(&emitter);
    assert_eq!(plugin.frames_sent(), 1);
    let mut emitter = plugin.emitter();
    assert_eq!(emitter.sequence, 0);
    emitter.on_fan_out(true);
    plugin.note_emitter(&emitter);
    assert_eq!(plugin.frames_sent(), 2);
    let mut receiver = plugin.receiver();
    receiver.on_underrun();
    plugin.note_receiver(&receiver);
    let mut receiver = plugin.receiver();
    assert_eq!(receiver.underruns(), 1);
    receiver.on_underrun();
    plugin.note_receiver(&receiver);
    assert_eq!(plugin.receiver_underruns(), 2);
    assert_eq!(plugin.receiver_queue_depth(), 0);
}
