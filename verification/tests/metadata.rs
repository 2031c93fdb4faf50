//! Providers, caches, normal forms, configuration and the plugin.

use evo_device_plugins::json::{Json, Member};
use evo_device_plugins::metadata::bio::bio_cache_key_with_locale;
use evo_device_plugins::metadata::browse::{
    begin_browse, json_str, reconcile_payload, BrowseByRecordingTypeRequest, BrowseStart,
};
use evo_device_plugins::metadata::cache::{
    entry_file_name, entry_temp_name, CanonicalIdentity, EnrichmentCache, ReconcileCache,
};
use evo_device_plugins::metadata::cascade::{
    ordered_by_priority, sort_sources_by_priority, Attribution, CascadeResponse, CascadeStatus,
    EntityRef, EntityType, PrivacyClass, PrivacyMode, ProviderConfig, ProviderId, SourceEntry,
};
use evo_device_plugins::metadata::config::{
    parse_provider_id, PluginConfig, RawConfig, RawLastfm, RawLrclib, RawMusicBrainz,
    RawProviderFlags,
};
use evo_device_plugins::metadata::locale;
use evo_device_plugins::metadata::mpd::{
    accept_welcome, list_album_command, list_tag_command, parse_field, AlbumEnumeration,
    MpdResponse, ResponseState,
};
use evo_device_plugins::metadata::normalise::{
    is_lastfm_disambiguation_stub, normalise, normalise_album_query,
};
use evo_device_plugins::metadata::order::stable_sort;
use evo_device_plugins::metadata::plugin::{
    apply_rows, credential_steps, discogs_error_message, find_verb, genius_error_message,
    min_interval_ms, request_types, resolve_credential_from_vault, resolve_lastfm_api_key,
    CredentialChangeKind, CredentialStep, KeyedProvider, LoadInputs, MetadataOnlinePlugin,
    ProviderError, ProviderRow, Verb,
};
use evo_device_plugins::metadata::reconcile::{
    begin_reconcile, mb_error_detail, AfterCache, AfterLookup, AfterSearch, MusicBrainzError,
    ReconcileRequest, ReconcileStart, ReconcileStatus, ReleaseHit, ReleaseLookup,
};
use evo_device_plugins::metadata::request::{parsed, payload_text, Decoded};
use evo_device_plugins::plugin_error::PluginError;

const EVERY_PROVIDER: [ProviderId; 8] = [
    ProviderId::MusicBrainz,
    ProviderId::Wikipedia,
    ProviderId::Wikidata,
    ProviderId::Lrclib,
    ProviderId::TheAudioDb,
    ProviderId::Lastfm,
    ProviderId::Discogs,
    ProviderId::Genius,
];

fn object(members: &[(&str, Json)]) -> Json {
    Json::Object(
        members
            .iter()
            .map(|(k, v)| Member { key: k.to_string(), value: v.copy() })
            .collect(),
    )
}

fn text(s: &str) -> Json {
    Json::Text(s.to_string())
}

fn source_of(provider_id: &str, payload: Json) -> SourceEntry {
    SourceEntry {
        provider_id: provider_id.to_string(),
        privacy_class: PrivacyClass::Anonymous.as_str().to_string(),
        language: None,
        payload,
        attribution: Attribution {
            source_name: provider_id.to_string(),
            source_url: None,
            license: "test".to_string(),
        },
    }
}

fn empty_raw() -> RawConfig {
    RawConfig {
        request_timeout_seconds: None,
        musicbrainz: None,
        negative_ttl_hours: None,
        lastfm: None,
        lrclib: None,
        privacy_mode: None,
        providers: Vec::new(),
    }
}

fn musicbrainz(user_agent: Option<&str>, min_interval_ms: Option<u64>) -> RawConfig {
    RawConfig {
        musicbrainz: Some(RawMusicBrainz {
            user_agent: user_agent.map(|s| s.to_string()),
            min_interval_ms,
        }),
        ..empty_raw()
    }
}

fn provider(id: &str, enabled: Option<bool>, priority: Option<u32>) -> RawConfig {
    RawConfig {
        providers: vec![RawProviderFlags { id: id.to_string(), enabled, priority }],
        ..empty_raw()
    }
}

fn config(raw: RawConfig) -> Result<PluginConfig, String> {
    PluginConfig::from_toml_table(raw, None)
}

fn identity() -> CanonicalIdentity {
    CanonicalIdentity {
        artist: "Radiohead".to_string(),
        album: "OK Computer".to_string(),
        release_mbid: "b1392450-e666-3926-a536-22c65f834433".to_string(),
        release_group_mbid: Some("5b11f4ce-a62d-471e-81fc-a69a8278c7da".to_string()),
        artist_mbid: Some("a74b1b7f-71a5-4011-9441-d0b5e4122711".to_string()),
        first_release_year: Some(1997),
        recording_type: "Studio".to_string(),
        track_count: Some(12),
    }
}

fn bio_cache_key(entity: &EntityRef, mbid: Option<&str>, provider: ProviderId) -> String {
    bio_cache_key_with_locale(entity, mbid, provider, "en")
}

fn artist(name: &str, mbid: Option<&str>) -> EntityRef {
    EntityRef {
        entity_type: EntityType::Artist,
        name: name.to_string(),
        mbid: mbid.map(|m| m.to_string()),
    }
}

fn row(id: &str, enabled: bool, priority: i32) -> ProviderRow {
    ProviderRow { provider_id: id.to_string(), enabled, priority }
}

// Browsing

#[test]
fn bad_request_on_missing_recording_type() {
    let request = BrowseByRecordingTypeRequest {
        v: 1,
        recording_type: None,
        page: None,
        page_size: None,
    };
    match begin_browse(Decoded::Request(request)) {
        BrowseStart::Answer(r) => assert!(!r.ok),
        _ => panic!("expected an answer"),
    }
}

#[test]
fn bad_request_on_wrong_version() {
    let request = BrowseByRecordingTypeRequest {
        v: 9,
        recording_type: Some("Studio".to_string()),
        page: None,
        page_size: None,
    };
    match begin_browse(Decoded::Request(request)) {
        BrowseStart::Answer(r) => {
            assert!(!r.ok);
            assert_eq!(r.detail.as_deref(), Some("unsupported request v: 9"));
        }
        _ => panic!("expected an answer"),
    }
}

#[test]
fn json_str_escapes_quotes_and_backslashes() {
    assert_eq!(json_str("Radiohead"), r#""Radiohead""#);
    assert_eq!(json_str(r#"AC"DC"#), r#""AC\"DC""#);
    assert_eq!(json_str(r#"A\B"#), r#""A\\B""#);
}

#[test]
fn json_str_escapes_control_characters() {
    assert_eq!(
        json_str("\u{0}\u{8}\t\n\u{b}\u{c}\r\u{1f} /\u{7f}\u{e9}\u{1f3b5}"),
        "\"\\u0000\\b\\t\\n\\u000b\\f\\r\\u001f /\u{7f}\u{e9}\u{1f3b5}\""
    );
    assert_eq!(json_str(""), "\"\"");
}

#[test]
fn reconciliation_is_asked_for_in_json() {
    assert_eq!(
        reconcile_payload("AC\"DC", "T.N.T."),
        r#"{"v":1,"artist":"AC\"DC","album":"T.N.T."}"#
    );
}

#[test]
fn pages_of_matches_are_seamless() {
    let request = |page: usize| BrowseByRecordingTypeRequest {
        v: 1,
        recording_type: Some(" studio ".to_string()),
        page: Some(page),
        page_size: Some(2),
    };
    let mut albums = Vec::new();
    let mut next = Some(0);
    while let Some(page) = next {
        let library: Vec<(String, String)> =
            (0..6).map(|n| ("A".to_string(), format!("album {n}"))).collect();
        let mut browse = match begin_browse(Decoded::Request(request(page))) {
            BrowseStart::Pending(b) => b.over(library),
            _ => panic!("expected a browse"),
        };
        for n in 0..5 {
            let asked = reconcile_payload("A", &format!("album {n}"));
            assert_eq!(browse.next_payload(), Some(asked));
            let hit = ReleaseHit {
                canonical_artist: "A".to_string(),
                canonical_album: format!("album {n}"),
                release_mbid: format!("m{n}"),
                release_group_mbid: None,
                artist_mbid: None,
                confidence_percent: 100,
            };
            let kind = if n == 3 { "Live" } else { "Studio" };
            let lookup = ReleaseLookup {
                first_release_year: None,
                recording_type: kind.to_string(),
                track_count: None,
            };
            let query = match begin_reconcile(Decoded::Request(ReconcileRequest {
                v: 1,
                artist: Some("A".to_string()),
                album: Some(format!("album {n}")),
            })) {
                ReconcileStart::Pending(q) => q,
                _ => panic!("expected a query"),
            };
            let search = match query.on_cache(None) {
                AfterCache::Search(s) => s,
                _ => panic!("expected a search"),
            };
            let lookup_step = match search.on_search(Ok(Some(hit))) {
                AfterSearch::LookUp(l) => l,
                _ => panic!("expected a lookup"),
            };
            match lookup_step.on_lookup(Ok(lookup)) {
                AfterLookup::Hit { response, .. } => browse.on_reconciled(Ok(response)),
                _ => panic!("expected a hit"),
            }
        }
        browse.on_reconciled(Err("down".to_string()));
        assert_eq!(browse.next_payload(), None);
        let answer = browse.finish();
        assert_eq!(answer.reconciled_album_count + answer.reconcile_errors, 6);
        assert_eq!((answer.total, answer.library_album_count), (4, 6));
        assert_eq!((answer.reconciled_album_count, answer.reconcile_errors), (5, 1));
        albums.extend(answer.entries.into_iter().map(|e| e.album));
        next = answer.next_page;
    }
    assert_eq!(albums, vec!["album 0", "album 1", "album 2", "album 4"]);
}

// Caches

#[test]
fn empty_libraries_have_no_matches() {
    let request = BrowseByRecordingTypeRequest {
        v: 1,
        recording_type: Some("Live".to_string()),
        page: Some(usize::MAX),
        page_size: None,
    };
    let browse = match begin_browse(Decoded::Request(request)) {
        BrowseStart::Pending(b) => b.over(Vec::new()),
        _ => panic!("expected a browse"),
    };
    assert_eq!(browse.next_payload(), None);
    let answer = browse.finish();
    assert_eq!((answer.total, answer.library_album_count), (0, 0));
    assert_eq!((answer.page, answer.page_size), (usize::MAX, 2_000));
    assert!(answer.entries.is_empty() && answer.next_page.is_none());
}

#[test]
fn reconciliations_are_read_back() {
    let cache = ReconcileCache::new("/c".to_string(), 60);
    let hit = || cache.put_positive(identity(), "musicbrainz", 97);
    for now in [0, 1_000, u64::MAX] {
        assert_eq!(cache.get(Some(hit()), now), Some(hit()));
    }
    let miss = || cache.put_negative("none".to_string(), 1_000);
    assert_eq!(miss().detail.as_deref(), Some("none"));
    assert_eq!(cache.get(Some(miss()), 1_059), Some(miss()));
    assert_eq!(cache.get(Some(miss()), 1_060), None);
    assert_eq!(cache.get(None, 1_000), None);
}

#[test]
fn keys_have_their_own_files() {
    assert_ne!(entry_file_name("a"), entry_file_name("b"));
    assert_ne!(entry_temp_name("a"), entry_temp_name("b"));
    assert_ne!(entry_temp_name("a"), entry_file_name("a.json"));
}

#[test]
fn sorts_of_entities_are_keyed_apart() {
    let sorts = [
        EntityType::Artist,
        EntityType::Composer,
        EntityType::Work,
        EntityType::Performer,
        EntityType::Conductor,
        EntityType::Ensemble,
    ];
    let mut keys: Vec<String> = Vec::new();
    for sort in sorts {
        for mbid in [None, Some("m")] {
            let mut entity = artist("Passenger", mbid);
            entity.entity_type = sort;
            keys.push(bio_cache_key(&entity, mbid, ProviderId::Wikipedia));
        }
    }
    keys.sort();
    keys.dedup();
    assert_eq!(keys.len(), 12);
}

#[test]
fn cache_positive_hit_round_trips() {
    let cache = ReconcileCache::new("/c".to_string(), 60);
    let entry = cache.put_positive(identity(), "musicbrainz", 100);
    let got = cache.get(Some(entry), 1_000).unwrap();
    assert_eq!(got.status, "ok");
    assert_eq!(got.canonical, Some(identity()));
    assert_eq!(got.provider_id.as_deref(), Some("musicbrainz"));
    assert_eq!(got.confidence_percent, Some(100));
    assert_eq!(got.expires_at_epoch_secs, None, "positive hit MUST persist indefinitely");
}

#[test]
fn cache_negative_hit_persists_with_ttl() {
    let cache = ReconcileCache::new("/c".to_string(), 60);
    let entry = cache.put_negative("MB search returned zero releases".to_string(), 1_000);
    let got = cache.get(Some(entry), 1_000).unwrap();
    assert_eq!(got.status, "not_found");
    assert_eq!(got.canonical, None);
    assert!(got.expires_at_epoch_secs.is_some());
    assert!(got.expires_at_epoch_secs.unwrap() > 1_000);
}

#[test]
fn cache_stale_negative_returns_none() {
    let cache = ReconcileCache::new("/c".to_string(), 0);
    let entry = cache.put_negative("d".to_string(), 1_000);
    assert!(cache.get(Some(entry), 1_000).is_none(), "stale negative must return None");
}

#[test]
fn miss_returns_none() {
    let cache = ReconcileCache::new("/c".to_string(), 60);
    assert!(cache.get(None, 1_000).is_none());
}

#[test]
fn keys_are_deterministic_across_calls() {
    let k1 = ReconcileCache::key_for("radiohead", "okcomputer");
    let k2 = ReconcileCache::key_for("radiohead", "okcomputer");
    assert_eq!(k1, k2);
    let k3 = ReconcileCache::key_for("radiohead", "amnesiac");
    assert_ne!(k1, k3);
}

#[test]
fn keys_name_files() {
    let key = ReconcileCache::key_for("radiohead", "okcomputer");
    assert!(key.chars().all(|c| c.is_ascii_hexdigit()));
    assert_eq!(entry_file_name(&key), format!("{key}.json"));
    assert_eq!(entry_temp_name(&key), format!("{key}.json.tmp"));
}

#[test]
fn enrichment_cache_positive_hit_round_trips() {
    let cache = EnrichmentCache::new("/c".to_string(), 60);
    let payload = || {
        object(&[
            ("bio", text("Radiohead are an English rock band...")),
            ("source_url", text("https://last.fm/artist/Radiohead")),
        ])
    };
    let entry = cache.put_positive(payload(), "lastfm");
    let got = cache.get(Some(entry), 1_000).unwrap();
    assert_eq!(got.status, "ok");
    assert_eq!(got.payload, Some(payload()));
    assert_eq!(got.provider_id.as_deref(), Some("lastfm"));
    assert_eq!(got.expires_at_epoch_secs, None);
}

#[test]
fn enrichment_cache_negative_hit_persists_with_ttl() {
    let cache = EnrichmentCache::new("/c".to_string(), 60);
    let entry = cache.put_negative("no bio anywhere".to_string(), 1_000);
    let got = cache.get(Some(entry), 1_000).unwrap();
    assert_eq!(got.status, "not_found");
    assert_eq!(got.payload, None);
    assert!(got.expires_at_epoch_secs.is_some());
}

#[test]
fn enrichment_cache_stale_negative_returns_none() {
    let cache = EnrichmentCache::new("/c".to_string(), 0);
    let entry = cache.put_negative("d".to_string(), 1_000);
    assert!(cache.get(Some(entry), 1_000).is_none());
}

#[test]
fn multi_component_keys_are_distinct() {
    let k1 = EnrichmentCache::key_for(&["radiohead", "ok computer"]);
    let k2 = EnrichmentCache::key_for(&["radiohead", "kid a"]);
    let k3 = EnrichmentCache::key_for(&["radiohead"]);
    assert_ne!(k1, k2);
    assert_ne!(k1, k3);
    assert_ne!(k2, k3);
}

#[test]
fn key_components_do_not_run_together() {
    assert_ne!(EnrichmentCache::key_for(&["ab", "c"]), EnrichmentCache::key_for(&["a", "bc"]));
}

// Providers

#[test]
fn ordered_by_priority_walks_lowest_first() {
    let mut cfg = ProviderConfig::defaults();
    cfg.wikipedia.priority = 5;
    cfg.musicbrainz.priority = 10;
    let ordered = ordered_by_priority(&[ProviderId::MusicBrainz, ProviderId::Wikipedia], &cfg);
    assert_eq!(ordered, vec![ProviderId::Wikipedia, ProviderId::MusicBrainz]);
}

#[test]
fn equal_priorities_keep_their_places() {
    let mut items = vec!["b", "a", "d", "c"];
    stable_sort(&mut items, &vec![2, 1, 2, 1]);
    assert_eq!(items, vec!["a", "c", "b", "d"]);
}

#[test]
fn privacy_mode_anonymous_only_disables_identity_bearing() {
    let mut cfg = ProviderConfig::defaults();
    cfg.privacy_mode = PrivacyMode::AnonymousOnly;
    assert!(!cfg.is_effectively_enabled(ProviderId::Lastfm));
    assert!(!cfg.is_effectively_enabled(ProviderId::Discogs));
    assert!(cfg.is_effectively_enabled(ProviderId::MusicBrainz));
    assert!(cfg.is_effectively_enabled(ProviderId::Wikipedia));
}

#[test]
fn privacy_mode_offline_disables_everything() {
    let mut cfg = ProviderConfig::defaults();
    cfg.privacy_mode = PrivacyMode::Offline;
    for p in EVERY_PROVIDER {
        assert!(!cfg.is_effectively_enabled(p), "{p:?} must be disabled");
    }
}

#[test]
fn privacy_modes_are_read_from_the_wire() {
    assert_eq!(PrivacyMode::parse_wire(" Offline "), Some(PrivacyMode::Offline));
    assert_eq!(PrivacyMode::parse_wire("ANONYMOUS_ONLY"), Some(PrivacyMode::AnonymousOnly));
    assert_eq!(PrivacyMode::parse_wire("enhanced"), Some(PrivacyMode::Enhanced));
    assert_eq!(PrivacyMode::parse_wire("silent"), None);
}

#[test]
fn provider_id_wire_round_trip() {
    for p in EVERY_PROVIDER {
        assert_eq!(ProviderId::from_wire(p.as_str()), Some(p), "wire round-trip for {p:?}");
    }
    assert_eq!(ProviderId::from_wire("no-such-provider"), None);
}

#[test]
fn merge_override_preserves_untouched_fields() {
    let mut cfg = ProviderConfig::defaults();
    let baseline_priority = cfg.flags(ProviderId::Lastfm).priority;
    cfg.merge_override(ProviderId::Lastfm, Some(false), None);
    assert!(!cfg.flags(ProviderId::Lastfm).enabled);
    assert_eq!(cfg.flags(ProviderId::Lastfm).priority, baseline_priority);
    cfg.merge_override(ProviderId::Lastfm, None, Some(5));
    assert!(!cfg.flags(ProviderId::Lastfm).enabled);
    assert_eq!(cfg.flags(ProviderId::Lastfm).priority, 5);
}

#[test]
fn sort_sources_by_priority_lower_wins_first() {
    let cfg = ProviderConfig::defaults();
    let mut sources = vec![
        source_of("lastfm", object(&[])),
        source_of("musicbrainz", object(&[])),
        source_of("wikipedia", object(&[])),
    ];
    sort_sources_by_priority(&mut sources, &cfg);
    assert_eq!(sources[0].provider_id, "musicbrainz");
    assert_eq!(sources[1].provider_id, "wikipedia");
    assert_eq!(sources[2].provider_id, "lastfm");
}

#[test]
fn sort_sources_by_priority_sinks_unknown() {
    let cfg = ProviderConfig::defaults();
    let mut sources =
        vec![source_of("unknown_provider", object(&[])), source_of("wikipedia", object(&[]))];
    sort_sources_by_priority(&mut sources, &cfg);
    assert_eq!(sources[0].provider_id, "wikipedia");
    assert_eq!(sources[1].provider_id, "unknown_provider");
}

#[test]
fn unknown_providers_sink_below_the_last_priority() {
    let mut cfg = ProviderConfig::defaults();
    cfg.merge_override(ProviderId::Wikipedia, None, Some(u32::MAX));
    let mut sources = vec![
        source_of("b_unknown", object(&[])),
        source_of("wikipedia", object(&[])),
        source_of("a_unknown", object(&[])),
        source_of("lastfm", object(&[])),
    ];
    sort_sources_by_priority(&mut sources, &cfg);
    let order: Vec<&str> = sources.iter().map(|s| s.provider_id.as_str()).collect();
    assert_eq!(order, vec!["lastfm", "wikipedia", "b_unknown", "a_unknown"]);
}

#[test]
fn from_sources_ok_when_non_empty_notfound_when_empty() {
    let ok = CascadeResponse::from_sources(
        vec![source_of("wikipedia", object(&[("a", text("b"))]))],
        None,
    );
    assert!(matches!(ok.status, CascadeStatus::Success));
    let empty = CascadeResponse::from_sources(vec![], None);
    assert!(matches!(empty.status, CascadeStatus::NotFound));
}

#[test]
fn from_sources_top_level_payload_verbatim_from_primary() {
    let sources = vec![
        source_of("wikipedia", object(&[("summary", text("wp prose"))])),
        source_of(
            "lastfm",
            object(&[
                ("summary", text("lfm prose that WOULD get merged in the old shape")),
                ("listeners", Json::Number("7".to_string())),
            ]),
        ),
    ];
    let resp = CascadeResponse::from_sources(sources, None);
    let payload = resp.payload.unwrap();
    assert_eq!(payload.get_text("summary").as_deref(), Some("wp prose"));
    assert_eq!(payload, object(&[("summary", text("wp prose"))]));
    assert_eq!(resp.provider_id.as_deref(), Some("wikipedia"));
    let attr = resp.attribution.as_ref().unwrap();
    assert_eq!(attr.source_name, "wikipedia");
    assert_eq!(resp.sources.len(), 2);
}

#[test]
fn from_sources_attribution_matches_top_level_prose_source() {
    let sources = vec![
        source_of("wikidata", object(&[("summary", text("wd disambig prose"))])),
        source_of("lastfm", object(&[("summary", text("lfm disambig prose"))])),
    ];
    let resp = CascadeResponse::from_sources(sources, None);
    let payload = resp.payload.unwrap();
    let attr = resp.attribution.as_ref().unwrap();
    assert_eq!(payload.get_text("summary").as_deref(), Some("wd disambig prose"));
    assert_eq!(attr.source_name, "wikidata");
}

// Configuration

#[test]
fn defaults_are_reasonable() {
    let cfg = PluginConfig::defaults();
    assert!(cfg.musicbrainz_user_agent.starts_with("evo-device-audio"));
    assert_eq!(cfg.musicbrainz_min_interval_ms, 1_000);
    assert_eq!(cfg.request_timeout_secs, 12);
    assert_eq!(cfg.negative_ttl_secs, 24 * 3600);
}

#[test]
fn ua_override_wins() {
    let raw = musicbrainz(Some("MyCustomApp/1.0 ( +https://example.com )"), None);
    let cfg = config(raw).unwrap();
    assert!(cfg.musicbrainz_user_agent.starts_with("MyCustomApp"));
}

#[test]
fn empty_ua_refused() {
    assert!(config(musicbrainz(Some("   "), None)).is_err());
}

#[test]
fn interval_override_clamped() {
    let cfg = config(musicbrainz(None, Some(500))).unwrap();
    assert_eq!(cfg.musicbrainz_min_interval_ms, 500);
}

#[test]
fn privacy_mode_is_no_longer_a_plugin_setting() {
    for value in ["enhanced", "anonymous_only", "offline", "silent"] {
        let raw = RawConfig { privacy_mode: Some(value.to_string()), ..empty_raw() };
        let err = config(raw).expect_err("privacy_mode in plugin TOML must be refused");
        assert!(
            err.contains("device-level"),
            "refusal must tell the operator where the setting moved to, got: {err}"
        );
    }
}

#[test]
fn config_without_privacy_mode_defaults_to_enhanced() {
    let cfg = config(empty_raw()).unwrap();
    assert_eq!(cfg.provider_config.privacy_mode, PrivacyMode::Enhanced);
}

#[test]
fn offline_posture_disables_every_provider() {
    let mut pc = ProviderConfig::defaults();
    pc.privacy_mode = PrivacyMode::Offline;
    for p in [
        ProviderId::MusicBrainz,
        ProviderId::Wikipedia,
        ProviderId::Wikidata,
        ProviderId::Lrclib,
        ProviderId::Lastfm,
        ProviderId::Discogs,
        ProviderId::Genius,
    ] {
        assert!(
            !pc.is_effectively_enabled(p),
            "provider {p:?} must be effectively disabled under offline"
        );
    }
}

#[test]
fn anonymous_only_posture_disables_identity_bearing_only() {
    let mut pc = ProviderConfig::defaults();
    pc.privacy_mode = PrivacyMode::AnonymousOnly;
    for p in [
        ProviderId::MusicBrainz,
        ProviderId::Wikipedia,
        ProviderId::Wikidata,
        ProviderId::Lrclib,
    ] {
        assert!(
            pc.is_effectively_enabled(p),
            "anonymous provider {p:?} must remain effectively enabled"
        );
    }
    for p in [ProviderId::Lastfm, ProviderId::Discogs, ProviderId::Genius] {
        assert!(
            !pc.is_effectively_enabled(p),
            "identity-bearing provider {p:?} must be effectively disabled under anonymous_only"
        );
    }
}

#[test]
fn per_provider_disable_applies() {
    let cfg = config(provider("wikipedia", Some(false), None)).unwrap();
    assert!(!cfg.provider_config.is_effectively_enabled(ProviderId::Wikipedia));
    assert!(cfg.provider_config.is_effectively_enabled(ProviderId::MusicBrainz));
}

#[test]
fn per_provider_priority_override_applies() {
    let cfg = config(provider("lastfm", None, Some(5))).unwrap();
    assert_eq!(cfg.provider_config.flags(ProviderId::Lastfm).priority, 5);
}

#[test]
fn unknown_provider_id_rejected() {
    assert!(config(provider("spotify", Some(true), None)).is_err());
    assert!(parse_provider_id("spotify").unwrap_err().contains("spotify"));
}

#[test]
fn privacy_mode_wins_over_per_provider_enable_for_identity_bearing() {
    let mut cfg = config(provider("lastfm", Some(true), None)).unwrap();
    assert!(cfg.provider_config.flags(ProviderId::Lastfm).enabled);
    cfg.provider_config.privacy_mode = PrivacyMode::AnonymousOnly;
    assert!(!cfg.provider_config.is_effectively_enabled(ProviderId::Lastfm));
    assert!(cfg.provider_config.flags(ProviderId::Lastfm).enabled);
}

#[test]
fn settings_out_of_bounds_are_refused() {
    assert!(config(RawConfig { request_timeout_seconds: Some(0), ..empty_raw() }).is_err());
    assert!(config(RawConfig { request_timeout_seconds: Some(121), ..empty_raw() }).is_err());
    assert_eq!(
        config(RawConfig { request_timeout_seconds: Some(120), ..empty_raw() })
            .unwrap()
            .request_timeout_secs,
        120
    );
    let ttl = |hours: u64| config(RawConfig { negative_ttl_hours: Some(hours), ..empty_raw() });
    assert!(ttl(0).is_err());
    assert_eq!(ttl(2).unwrap().negative_ttl_secs, 7200);
    assert_eq!(ttl(5_124_095_576_030_431).unwrap().negative_ttl_secs, 18_446_744_073_709_551_600);
    assert_eq!(
        ttl(5_124_095_576_030_432).unwrap_err(),
        "negative_ttl_hours is too large; got 5124095576030432"
    );
    assert!(ttl(9_223_372_036_854_775_807).is_err());
    assert!(ttl(u64::MAX).is_err());
    assert!(config(RawConfig {
        lrclib: Some(RawLrclib { min_interval_ms: Some(60_001) }),
        ..empty_raw()
    })
    .is_err());
}

#[test]
fn every_provider_is_configurable() {
    for p in [
        ProviderId::MusicBrainz,
        ProviderId::Wikipedia,
        ProviderId::Wikidata,
        ProviderId::Lrclib,
        ProviderId::TheAudioDb,
        ProviderId::Lastfm,
        ProviderId::Discogs,
        ProviderId::Genius,
    ] {
        assert_eq!(parse_provider_id(p.as_str()), Ok(p));
        let cfg = config(provider(p.as_str(), Some(false), Some(77))).unwrap();
        let flags = cfg.provider_config.flags(p);
        assert!(!flags.enabled);
        assert_eq!(flags.priority, 77);
    }
    assert_eq!(
        parse_provider_id("TheAudioDb").unwrap_err(),
        "unknown provider id under [providers]: \"TheAudioDb\"; expected one of musicbrainz / \
         wikipedia / wikidata / lrclib / theaudiodb / lastfm / discogs / genius"
    );
}

#[test]
fn an_inline_key_outranks_the_key_file() {
    let raw = |inline: &str| RawConfig {
        lastfm: Some(RawLastfm {
            api_key_path: Some(" /etc/evo/lastfm ".to_string()),
            api_key: Some(inline.to_string()),
            min_interval_ms: None,
        }),
        ..empty_raw()
    };
    assert_eq!(raw("").lastfm_key_path().as_deref(), Some("/etc/evo/lastfm"));
    let key = |inline: &str| {
        let cfg = PluginConfig::from_toml_table(raw(inline), Some(" filed \n".to_string()));
        cfg.unwrap().lastfm_api_key
    };
    assert_eq!(key(" inline ").as_deref(), Some("inline"));
    assert_eq!(key("  ").as_deref(), Some("filed"));
}

// Normal forms

#[test]
fn enrichment_normalise_collapses_and_lowers() {
    assert_eq!(normalise("  Radiohead  "), "radiohead");
    assert_eq!(normalise("OK  Computer"), "ok computer");
    assert_eq!(normalise(""), "");
}

#[test]
fn reconcile_normalise_collapses_and_lowers() {
    assert_eq!(normalise("  Radiohead  "), "radiohead");
    assert_eq!(normalise("OK  Computer"), "ok computer");
    assert_eq!(normalise("Sigur Rós"), "sigur rós");
    assert_eq!(normalise(""), "");
}

#[test]
fn normalise_album_query_strips_parenthetical_editions() {
    assert_eq!(normalise_album_query("Songs of Love (Deluxe Version)"), "Songs of Love");
    assert_eq!(normalise_album_query("Songs of Love (Deluxe Edition)"), "Songs of Love");
    assert_eq!(normalise_album_query("Songs of Love (Deluxe)"), "Songs of Love");
    assert_eq!(normalise_album_query("Songs of Love (Remastered)"), "Songs of Love");
    assert_eq!(normalise_album_query("Songs of Love (Special Edition)"), "Songs of Love");
    assert_eq!(normalise_album_query("Songs of Love (Anniversary Edition)"), "Songs of Love");
    assert_eq!(normalise_album_query("Songs of Love (DELUXE VERSION)"), "Songs of Love");
}

#[test]
fn dated_remasters_are_stripped() {
    assert_eq!(normalise_album_query("Abbey Road (2009 Remaster)"), "Abbey Road");
    assert_eq!(normalise_album_query("Abbey Road (2009 REMASTER) "), "Abbey Road");
    assert_eq!(normalise_album_query("Abbey Road (2009 Remaster) (Deluxe)"), "Abbey Road");
    assert_eq!(normalise_album_query("Abbey Road (Deluxe) (2009 Remaster)"), "Abbey Road");
    assert_eq!(normalise_album_query("(2009 Remaster)"), "");
    for kept in [
        "Abbey Road (209 Remaster)",
        "Abbey Road (20095 Remaster)",
        "Abbey Road (200x Remaster)",
        "Abbey Road (2009  Remaster)",
        "Abbey Road 2009 Remaster)",
        "Abbey Road (2009 Remaster) Live",
    ] {
        assert_eq!(normalise_album_query(kept), kept);
    }
}

#[test]
fn normalise_album_query_strips_dash_editions() {
    assert_eq!(normalise_album_query("Songs of Love - Deluxe Version"), "Songs of Love");
    assert_eq!(normalise_album_query("Songs of Love - Remastered"), "Songs of Love");
}

#[test]
fn normalise_album_query_folds_dash_subtitle_to_colon_and_wp_case() {
    assert_eq!(
        normalise_album_query("Closer - The Best Of Sarah McLachlan (Deluxe Version)"),
        "Closer: The Best of Sarah McLachlan"
    );
}

#[test]
fn normalise_album_query_lowercases_connective_words() {
    assert_eq!(normalise_album_query("The Dark Side Of The Moon"), "The Dark Side of the Moon");
    assert_eq!(normalise_album_query("Band On The Run"), "Band on the Run");
    assert_eq!(normalise_album_query("The Best of Both Worlds"), "The Best of Both Worlds");
}

#[test]
fn normalise_album_query_preserves_mid_string_words() {
    assert_eq!(normalise_album_query("Deluxe Recordings"), "Deluxe Recordings");
}

#[test]
fn normalise_album_query_no_suffix_is_identity() {
    assert_eq!(normalise_album_query("OK Computer"), "OK Computer");
    assert_eq!(normalise_album_query("The Dark Side of the Moon"), "The Dark Side of the Moon");
}

#[test]
fn lastfm_disambiguation_stubs_are_detected() {
    let passenger = "There are at least six artists and bands who \
                     have performed with the name \"Passenger\". \
                     The following order is loosely based on the \
                     last.fm statistics.\n1. A Brighton (UK) based \
                     alternative folk band";
    assert!(is_lastfm_disambiguation_stub(passenger));
    assert!(is_lastfm_disambiguation_stub(
        "THERE ARE AT LEAST five bands calling themselves Bush."
    ));
    assert!(is_lastfm_disambiguation_stub("There are several artists with this name."));
}

#[test]
fn lastfm_real_bios_not_flagged_as_disambiguation() {
    let real_bio = "Michael David Rosenberg, better known by his \
                    stage name Passenger, is an English indie folk \
                    singer, songwriter and musician.";
    assert!(!is_lastfm_disambiguation_stub(real_bio));
    assert!(!is_lastfm_disambiguation_stub("Sarah McLachlan is a Canadian singer."));
    assert!(!is_lastfm_disambiguation_stub(""));
}

#[test]
fn bio_cache_key_partitions_mbid_from_name_namespace() {
    let musician = artist("Passenger", Some("186e216a-2f8a-41a1-935f-8e30c018a8fe"));
    let disambig_only = artist("Passenger", None);
    let k_musician = bio_cache_key(&musician, musician.mbid.as_deref(), ProviderId::Wikipedia);
    let k_disambig = bio_cache_key(&disambig_only, None, ProviderId::Wikipedia);
    assert_ne!(
        k_musician, k_disambig,
        "MBID-resolved and name-only cache keys must be distinct even for the same normalised name"
    );
}

#[test]
fn bio_cache_key_same_mbid_different_names_collide() {
    let mbid = "186e216a-2f8a-41a1-935f-8e30c018a8fe";
    let a = artist("Passenger", Some(mbid));
    let b = artist("Mike Rosenberg", Some(mbid));
    let ka = bio_cache_key(&a, Some(mbid), ProviderId::Wikipedia);
    let kb = bio_cache_key(&b, Some(mbid), ProviderId::Wikipedia);
    assert_eq!(ka, kb, "MBID-keyed cache entries must ignore display name");
}

#[test]
fn bio_cache_key_different_mbids_never_collide() {
    let a = artist("Passenger", Some("186e216a-2f8a-41a1-935f-8e30c018a8fe"));
    let b = artist("Passenger", Some("00000000-0000-0000-0000-000000000000"));
    let ka = bio_cache_key(&a, a.mbid.as_deref(), ProviderId::Wikipedia);
    let kb = bio_cache_key(&b, b.mbid.as_deref(), ProviderId::Wikipedia);
    assert_ne!(ka, kb, "different MBIDs must never share a cache key");
}

#[test]
fn bio_cache_key_provider_scoped() {
    let e = artist("Radiohead", Some("a74b1b7f-71a5-4011-9441-d0b5e4122711"));
    let k_wp = bio_cache_key(&e, e.mbid.as_deref(), ProviderId::Wikipedia);
    let k_wd = bio_cache_key(&e, e.mbid.as_deref(), ProviderId::Wikidata);
    assert_ne!(k_wp, k_wd);
}

// Languages

#[test]
fn normalise_defaults_to_english_when_missing_or_empty() {
    assert_eq!(locale::normalise(None), "en");
    assert_eq!(locale::normalise(Some("")), "en");
    assert_eq!(locale::normalise(Some("   ")), "en");
}

#[test]
fn normalise_strips_region_and_lowercases() {
    assert_eq!(locale::normalise(Some("de-DE")), "de");
    assert_eq!(locale::normalise(Some("en_US")), "en");
    assert_eq!(locale::normalise(Some("FR-fr")), "fr");
}

#[test]
fn normalise_falls_back_on_unrecognisable() {
    assert_eq!(locale::normalise(Some("!!!")), "en");
    assert_eq!(locale::normalise(Some("12")), "en");
    assert_eq!(locale::normalise(Some("englishpls")), "en");
}

#[test]
fn theaudiodb_country_code_maps_known_locales() {
    assert_eq!(locale::theaudiodb_country_code("de"), Some("DE"));
    assert_eq!(locale::theaudiodb_country_code("ja"), Some("JP"));
    assert_eq!(locale::theaudiodb_country_code("zh"), Some("CN"));
    assert_eq!(locale::theaudiodb_country_code("sv"), Some("SE"));
    assert_eq!(locale::theaudiodb_country_code("he"), Some("IL"));
}

#[test]
fn theaudiodb_country_code_returns_none_for_english() {
    assert_eq!(locale::theaudiodb_country_code("en"), None);
}

#[test]
fn theaudiodb_country_code_returns_none_for_unmapped() {
    assert_eq!(locale::theaudiodb_country_code("eo"), None);
    assert_eq!(locale::theaudiodb_country_code("cy"), None);
}

// The music daemon

#[test]
fn parse_field_extracts_value() {
    assert_eq!(
        parse_field("AlbumArtist: Radiohead", "AlbumArtist"),
        Some("Radiohead".to_string())
    );
    assert_eq!(parse_field("Album: OK Computer", "Album"), Some("OK Computer".to_string()));
    assert_eq!(parse_field("Artist: Radiohead", "AlbumArtist"), None);
}

#[test]
fn parse_field_handles_empty_value() {
    assert_eq!(parse_field("AlbumArtist: ", "AlbumArtist"), Some("".to_string()));
}

#[test]
fn responses_end_in_ok_or_ack() {
    assert_eq!(accept_welcome("OK MPD 0.23\n"), Ok(()));
    assert_eq!(
        accept_welcome("HELLO\n"),
        Err("unexpected MPD welcome: \"HELLO\\n\"".to_string())
    );
    let mut r = MpdResponse::new();
    assert_eq!(r.take(Some("Album: X\r\n")), ResponseState::Open);
    assert_eq!(r.take(Some("OK\n")), ResponseState::Complete);
    assert_eq!(r.lines, vec!["Album: X"]);
    assert_eq!(
        r.take(Some("ACK [5@0]\n")),
        ResponseState::Failed("MPD error: ACK [5@0]".to_string())
    );
    assert_eq!(
        r.take(None),
        ResponseState::Failed("MPD closed connection mid-response".to_string())
    );
    assert_eq!(list_tag_command("albumartist"), "list \"albumartist\"\n");
    assert_eq!(
        list_album_command("AC\\\"DC"),
        "list \"album\" \"albumartist\" \"AC\\\\\\\"DC\"\n"
    );
}

#[test]
fn albums_are_enumerated_in_order_and_once() {
    let line = |s: &str| s.to_string();
    let mut e = AlbumEnumeration::begin(&vec![line("AlbumArtist: Z"), line("AlbumArtist: A")]);
    let answers = [
        vec![line("Album: b"), line("Album: a"), line("Album: b")],
        vec![line("Album: c"), line("Artist: x")],
    ];
    for lines in &answers {
        assert!(e.next_command().is_some());
        e.take(lines);
    }
    assert!(e.next_command().is_none());
    let pairs = e.finish();
    assert_eq!(
        pairs,
        vec![
            ("A".to_string(), "c".to_string()),
            ("Z".to_string(), "a".to_string()),
            ("Z".to_string(), "b".to_string()),
        ]
    );
}

// Reconciliation

#[test]
fn bad_request_on_missing_artist() {
    let request =
        ReconcileRequest { v: 1, artist: None, album: Some("OK Computer".to_string()) };
    match begin_reconcile(Decoded::Request(request)) {
        ReconcileStart::Answer(r) => assert_eq!(r.status, ReconcileStatus::BadRequest),
        _ => panic!("expected an answer"),
    }
}

#[test]
fn bad_request_on_bad_json() {
    let decoded: Decoded<ReconcileRequest> = parsed(Err("expected ident at line 1".to_string()));
    match begin_reconcile(decoded) {
        ReconcileStart::Refused(e) => assert_eq!(e, "invalid JSON: expected ident at line 1"),
        _ => panic!("expected a refusal"),
    }
}

#[test]
fn cache_hit_short_circuits_mb() {
    let cache = ReconcileCache::new("/c".to_string(), 60);
    let key = ReconcileCache::key_for("radiohead", "ok computer");
    let kept = cache.put_positive(identity(), "musicbrainz", 100);
    let request = ReconcileRequest {
        v: 1,
        artist: Some("Radiohead".to_string()),
        album: Some("OK Computer".to_string()),
    };
    let query = match begin_reconcile(Decoded::Request(request)) {
        ReconcileStart::Pending(q) => q,
        _ => panic!("expected a query"),
    };
    assert_eq!(query.key, key);
    match query.on_cache(cache.get(Some(kept), 1_000)) {
        AfterCache::Answer(resp) => {
            assert_eq!(resp.status, ReconcileStatus::Success);
            assert_eq!(resp.provider_id.as_deref(), Some("cache"));
            let c = resp.canonical.unwrap();
            assert_eq!(c.artist, "Radiohead");
            assert_eq!(c.recording_type, "Studio");
        }
        _ => panic!("expected an answer"),
    }
}

#[test]
fn weak_matches_are_misses() {
    let query = || match begin_reconcile(Decoded::Request(ReconcileRequest {
        v: 1,
        artist: Some("A".to_string()),
        album: Some("B".to_string()),
    })) {
        ReconcileStart::Pending(q) => match q.on_cache(None) {
            AfterCache::Search(s) => s,
            _ => panic!("expected a search"),
        },
        _ => panic!("expected a query"),
    };
    let hit = ReleaseHit {
        canonical_artist: "A".to_string(),
        canonical_album: "B".to_string(),
        release_mbid: "m".to_string(),
        release_group_mbid: None,
        artist_mbid: None,
        confidence_percent: 12,
    };
    match query().on_search(Ok(Some(hit))) {
        AfterSearch::Miss { response, detail, .. } => {
            assert_eq!(response.status, ReconcileStatus::NotFound);
            assert_eq!(response.confidence_percent, None);
            assert!(detail.contains("confidence 12"), "{detail}");
        }
        _ => panic!("expected a miss"),
    }
    match query().on_search(Err(MusicBrainzError::Decode("eof".to_string()))) {
        AfterSearch::Refused(e) => assert_eq!(e, "musicbrainz search failed: decode: eof"),
        _ => panic!("expected a refusal"),
    }
}

#[test]
fn long_error_bodies_are_cut() {
    let e = MusicBrainzError::Status { status: 503, body: "x".repeat(300) };
    assert_eq!(mb_error_detail(&e), format!("status=503 body={}", "x".repeat(200)));
    assert_eq!(mb_error_detail(&MusicBrainzError::Http("reset".to_string())), "http: reset");
}

#[test]
fn payloads_are_text() {
    assert!(matches!(payload_text(Vec::new()), Decoded::Empty));
    assert!(matches!(payload_text(b"{}".to_vec()), Decoded::Request(t) if t == "{}"));
    match payload_text(vec![0xff]) {
        Decoded::Rejected(e) => assert!(e.starts_with("payload is not UTF-8: invalid utf-8"), "{e}"),
        _ => panic!("expected a refusal"),
    }
}

// The plugin

#[test]
fn rows_of_the_store_outrank_the_file() {
    let mut cfg = ProviderConfig::defaults();
    let rows = vec![
        row("lastfm", true, 3),
        row("spotify", false, 1),
        row("lastfm", false, -1),
        row("wikipedia", true, 99),
    ];
    apply_rows(&mut cfg, &rows);
    assert!(!cfg.is_effectively_enabled(ProviderId::Lastfm));
    assert_eq!(cfg.flags(ProviderId::Lastfm).priority, 3);
    assert_eq!(cfg.flags(ProviderId::Wikipedia).priority, 99);
    assert_eq!(cfg.flags(ProviderId::Genius), ProviderConfig::defaults().flags(ProviderId::Genius));
}

#[test]
fn the_vault_comes_before_the_file() {
    let vault = || Some(Ok(Some(b"vault".to_vec())));
    let r = resolve_lastfm_api_key(vault(), Some("file".to_string()));
    assert_eq!((r.key.as_deref(), r.migrate), (Some("vault"), None));
    let r = resolve_lastfm_api_key(Some(Ok(None)), Some("file".to_string()));
    assert_eq!((r.key.as_deref(), r.migrate.as_deref()), (Some("file"), Some(&b"file"[..])));
    let r = resolve_lastfm_api_key(Some(Err("down".to_string())), Some("file".to_string()));
    assert_eq!((r.key.as_deref(), r.migrate.as_deref()), (Some("file"), Some(&b"file"[..])));
    let r = resolve_lastfm_api_key(None, Some("file".to_string()));
    assert_eq!((r.key.as_deref(), r.migrate), (Some("file"), None));
    let r = resolve_lastfm_api_key(Some(Ok(None)), None);
    assert_eq!((r.key, r.migrate), (None, None));
    assert_eq!(resolve_credential_from_vault(Some(Ok(Some(vec![0xff])))), None);
    assert_eq!(resolve_credential_from_vault(vault()).as_deref(), Some("vault"));
}

#[test]
fn changed_credentials_are_fetched_or_dropped() {
    let keys = vec![
        "genius_client_access_token".to_string(),
        "other".to_string(),
        "lastfm_api_key".to_string(),
    ];
    assert_eq!(
        credential_steps(CredentialChangeKind::Put, &keys),
        vec![
            CredentialStep::Fetch(KeyedProvider::Genius),
            CredentialStep::Fetch(KeyedProvider::Lastfm),
        ]
    );
    assert_eq!(
        credential_steps(CredentialChangeKind::Delete, &keys)[0],
        CredentialStep::Drop(KeyedProvider::Genius)
    );
    for p in [KeyedProvider::Lastfm, KeyedProvider::Discogs, KeyedProvider::Genius] {
        assert_eq!(KeyedProvider::from_vault_key(p.vault_key()), Some(p));
    }
}

#[test]
fn the_metadata_plugin_takes_requests_once_loaded() {
    let mut plugin = MetadataOnlinePlugin::default();
    assert_eq!(plugin.health().as_deref(), Some("metadata online plugin not loaded"));
    assert_eq!(
        plugin.accept_request("metadata.query_lyrics", false),
        Err(PluginError::Permanent("metadata online plugin not loaded".to_string()))
    );
    assert_eq!(
        plugin.load(Err("negative".to_string())),
        Err(PluginError::Permanent("invalid plugin config: negative".to_string()))
    );
    let inputs = LoadInputs {
        config: PluginConfig::defaults(),
        store: Some(Ok(vec![row("genius", false, -1)])),
        state_dir: "/var/lib/evo".to_string(),
        lastfm: true,
        discogs: false,
        genius: true,
    };
    plugin.load(Ok(inputs)).unwrap();
    assert_eq!(plugin.health(), None);
    assert!(plugin.catalogue.wants(ProviderId::Lastfm));
    assert!(!plugin.catalogue.wants(ProviderId::Discogs), "no credential, no client");
    assert!(!plugin.catalogue.wants(ProviderId::Genius), "disabled by the store");
    assert_eq!(
        plugin.notes_cache.as_ref().map(|c| c.root.as_str()),
        Some("/var/lib/evo/album_notes_cache")
    );
    assert_eq!(
        plugin.accept_request("metadata.query_lyrics", false),
        Ok(Verb::QueryLyrics)
    );
    assert_eq!(
        plugin.accept_request("metadata.query_lyrics", true),
        Err(PluginError::Transient("request deadline already expired".to_string()))
    );
    match plugin.accept_request("x", false) {
        Err(PluginError::Permanent(m)) => assert!(
            m.starts_with(
                "unknown request type: \"x\" (not one of: [\"metadata.reconcile_release\", "
            ),
            "{m}"
        ),
        other => panic!("expected a refusal, got {:?}", other),
    }
    assert_eq!(plugin.requests_handled(), 2);
    plugin.set_client(KeyedProvider::Discogs, true);
    plugin.on_provider_change(&row("genius", true, 1));
    assert!(plugin.catalogue.wants(ProviderId::Discogs));
    assert!(plugin.catalogue.wants(ProviderId::Genius));
    plugin.lyrics_cache = None;
    assert_eq!(
        plugin.accept_request("metadata.query_lyrics", false),
        Err(PluginError::Permanent("lyrics cache not wired at load".to_string()))
    );
    plugin.unload();
    assert!(!plugin.loaded);
    assert!(!plugin.catalogue.wants(ProviderId::MusicBrainz));
    assert_eq!(plugin.requests_handled(), 3);
}

#[test]
fn every_metadata_verb_is_found_under_its_name() {
    for name in request_types() {
        assert_eq!(find_verb(&name).map(|v| v.as_str().to_string()), Some(name));
    }
    assert_eq!(request_types().len(), 8);
    assert_eq!(find_verb("metadata.query"), None);
}

#[test]
fn clients_pause_between_requests() {
    let cfg = PluginConfig::defaults();
    assert_eq!(min_interval_ms(&cfg, ProviderId::Wikidata), 1_000);
    assert_eq!(min_interval_ms(&cfg, ProviderId::Lastfm), 200);
    assert_eq!(min_interval_ms(&cfg, ProviderId::Discogs), 1_000);
    assert_eq!(min_interval_ms(&cfg, ProviderId::Genius), 250);
}

#[test]
fn provider_failures_are_put_in_words() {
    let status = ProviderError::Status { status: 429, body: "slow down".to_string() };
    assert_eq!(discogs_error_message(&status), "discogs status 429: slow down");
    assert_eq!(
        genius_error_message(&ProviderError::Http("reset".to_string())),
        "genius http: reset"
    );
    assert_eq!(
        genius_error_message(&ProviderError::Decode("eof".to_string())),
        "genius decode: eof"
    );
}
