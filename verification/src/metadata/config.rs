//! The plugin's configuration.

use crate::json::opt_view;
use crate::metadata::cascade::{ProviderConfig, ProviderId};
use crate::text::{
    chars_of, debug_quoted, debug_text, decimal, decimal_of, joined, text_of, trim, trim_of,
};
use vstd::prelude::*;

verus! {

/// How this device names itself to MusicBrainz.
pub const DEFAULT_MUSICBRAINZ_USER_AGENT: &'static str =
    "evo-device-audio/0.1.13 ( +https://github.com/foonerd/evo-device-audio )";

/// Pause between requests to MusicBrainz, in milliseconds.
pub const DEFAULT_MUSICBRAINZ_MIN_INTERVAL_MS: u64 = 1_000;

/// Deadline of a request, in seconds.
pub const DEFAULT_REQUEST_TIMEOUT_SECS: u64 = 12;

/// How long a miss is kept, in seconds.
pub const DEFAULT_NEGATIVE_TTL_SECS: u64 = 86_400;

/// Pause between requests to Last.fm, in milliseconds.
pub const DEFAULT_LASTFM_MIN_INTERVAL_MS: u64 = 200;

/// Pause between requests to LRCLIB, in milliseconds.
pub const DEFAULT_LRCLIB_MIN_INTERVAL_MS: u64 = 200;

/// The configuration in force.
#[derive(Debug, PartialEq, Eq)]
pub struct PluginConfig {
    pub request_timeout_secs: u64,
    pub musicbrainz_user_agent: String,
    pub musicbrainz_min_interval_ms: u64,
    pub negative_ttl_secs: u64,
    /// None while the operator has given no key.
    pub lastfm_api_key: Option<String>,
    pub lastfm_min_interval_ms: u64,
    pub lrclib_min_interval_ms: u64,
    pub provider_config: ProviderConfig,
}

/// What a [`PluginConfig`] says.
pub struct ConfigModel {
    pub request_timeout_secs: u64,
    pub musicbrainz_user_agent: Seq<char>,
    pub musicbrainz_min_interval_ms: u64,
    pub negative_ttl_secs: u64,
    pub lastfm_api_key: Option<Seq<char>>,
    pub lastfm_min_interval_ms: u64,
    pub lrclib_min_interval_ms: u64,
    pub provider_config: ProviderConfig,
}

impl View for PluginConfig {
    type V = ConfigModel;

    open spec fn view(&self) -> ConfigModel {
        ConfigModel {
            request_timeout_secs: self.request_timeout_secs,
            musicbrainz_user_agent: self.musicbrainz_user_agent@,
            musicbrainz_min_interval_ms: self.musicbrainz_min_interval_ms,
            negative_ttl_secs: self.negative_ttl_secs,
            lastfm_api_key: opt_view(self.lastfm_api_key),
            lastfm_min_interval_ms: self.lastfm_min_interval_ms,
            lrclib_min_interval_ms: self.lrclib_min_interval_ms,
            provider_config: self.provider_config,
        }
    }
}

/// The operator's settings for MusicBrainz.
pub struct RawMusicBrainz {
    pub user_agent: Option<String>,
    pub min_interval_ms: Option<u64>,
}

/// The operator's settings for Last.fm.
pub struct RawLastfm {
    /// A file that holds the key.
    pub api_key_path: Option<String>,
    /// The key itself; it wins over the file.
    pub api_key: Option<String>,
    pub min_interval_ms: Option<u64>,
}

/// The operator's settings for LRCLIB.
pub struct RawLrclib {
    pub min_interval_ms: Option<u64>,
}

/// The operator's choice for one provider.
pub struct RawProviderFlags {
    pub id: String,
    pub enabled: Option<bool>,
    pub priority: Option<u32>,
}

/// The operator's settings as they stand in the file.
pub struct RawConfig {
    pub request_timeout_seconds: Option<u64>,
    pub musicbrainz: Option<RawMusicBrainz>,
    pub negative_ttl_hours: Option<u64>,
    pub lastfm: Option<RawLastfm>,
    pub lrclib: Option<RawLrclib>,
    pub privacy_mode: Option<String>,
    /// In the order of their names.
    pub providers: Vec<RawProviderFlags>,
}

/// The defaults.
pub open spec fn default_config() -> ConfigModel {
    ConfigModel {
        request_timeout_secs: DEFAULT_REQUEST_TIMEOUT_SECS,
        musicbrainz_user_agent: DEFAULT_MUSICBRAINZ_USER_AGENT@,
        musicbrainz_min_interval_ms: DEFAULT_MUSICBRAINZ_MIN_INTERVAL_MS,
        negative_ttl_secs: DEFAULT_NEGATIVE_TTL_SECS,
        lastfm_api_key: None,
        lastfm_min_interval_ms: DEFAULT_LASTFM_MIN_INTERVAL_MS,
        lrclib_min_interval_ms: DEFAULT_LRCLIB_MIN_INTERVAL_MS,
        provider_config: ProviderConfig::default_choice(),
    }
}

// ---------------------------------------------------------------------
// Refusals
// ---------------------------------------------------------------------

/// Why a pause is refused.
pub open spec fn interval_complaint(setting: Seq<char>, millis: u64) -> Seq<char> {
    setting + " must be 0..=60000; got "@ + decimal_of(millis as nat)
}

/// The refusal of a pause, where it is too long.
pub open spec fn interval_error(setting: Seq<char>, millis: Option<u64>) -> Option<Seq<char>> {
    match millis {
        Some(m) => if m > 60_000 {
            Some(interval_complaint(setting, m))
        } else {
            None
        },
        None => None,
    }
}

/// The first of two refusals.
pub open spec fn first_of(a: Option<Seq<char>>, b: Option<Seq<char>>) -> Option<Seq<char>> {
    match a {
        Some(_) => a,
        None => b,
    }
}

/// The refusal of the request deadline.
pub open spec fn timeout_error(secs: Option<u64>) -> Option<Seq<char>> {
    match secs {
        Some(s) => if 1 <= s <= 120 {
            None
        } else {
            Some("request_timeout_seconds must be in 1..=120; got "@ + decimal_of(s as nat))
        },
        None => None,
    }
}

/// The refusal of the settings for MusicBrainz.
pub open spec fn musicbrainz_error(raw: Option<RawMusicBrainz>) -> Option<Seq<char>> {
    match raw {
        Some(mb) => first_of(
            match mb.user_agent {
                Some(ua) => if trim_of(ua@).len() == 0 {
                    Some("musicbrainz.user_agent must be non-empty when set"@)
                } else {
                    None
                },
                None => None,
            },
            interval_error("musicbrainz.min_interval_ms"@, mb.min_interval_ms),
        ),
        None => None,
    }
}

/// The refusal of the time for which misses are kept.
pub open spec fn ttl_error(hours: Option<u64>) -> Option<Seq<char>> {
    match hours {
        Some(h) => if h == 0 {
            Some("negative_ttl_hours must be > 0"@)
        } else if h * 3600 > u64::MAX {
            Some("negative_ttl_hours is too large; got "@ + decimal_of(h as nat))
        } else {
            None
        },
        None => None,
    }
}

/// The refusal of a privacy mode: it is no setting of this plugin.
pub open spec fn privacy_error(mode: Option<String>) -> Option<Seq<char>> {
    match mode {
        Some(_) => Some(PRIVACY_MODE_MOVED@),
        None => None,
    }
}

/// Where the privacy mode is set.
pub const PRIVACY_MODE_MOVED: &'static str =
    "privacy_mode is no longer a plugin setting — it is a device-level setting owned by the framework. Remove it from this file and set it with the `online_providers_set_privacy_mode` operator gesture, which applies to every cascade rather than this plugin alone.";

/// The providers that a file may name: all of them.
pub open spec fn configurable(id: Seq<char>) -> Option<ProviderId> {
    ProviderId::of_name(id)
}

/// Why a provider is refused.
pub open spec fn provider_complaint(id: Seq<char>) -> Seq<char> {
    "unknown provider id under [providers]: "@ + debug_quoted(id)
        + "; expected one of musicbrainz / wikipedia / wikidata / lrclib / theaudiodb / lastfm / discogs / genius"@
}

/// The refusal of the first provider that is not known.
pub open spec fn providers_error(providers: Seq<RawProviderFlags>) -> Option<Seq<char>>
    decreases providers.len(),
{
    if providers.len() == 0 {
        None
    } else {
        first_of(
            providers_error(providers.drop_last()),
            match configurable(providers.last().id@) {
                Some(_) => None,
                None => Some(provider_complaint(providers.last().id@)),
            },
        )
    }
}

/// The refusal of a file, where anything in it is refused: that of the first
/// offender.
pub open spec fn config_error(raw: RawConfig) -> Option<Seq<char>> {
    first_of(
        timeout_error(raw.request_timeout_seconds),
        first_of(
            musicbrainz_error(raw.musicbrainz),
            first_of(
                ttl_error(raw.negative_ttl_hours),
                first_of(
                    match raw.lastfm {
                        Some(l) => interval_error("lastfm.min_interval_ms"@, l.min_interval_ms),
                        None => None,
                    },
                    first_of(
                        match raw.lrclib {
                            Some(l) => interval_error("lrclib.min_interval_ms"@, l.min_interval_ms),
                            None => None,
                        },
                        first_of(
                            privacy_error(raw.privacy_mode),
                            providers_error(raw.providers@),
                        ),
                    ),
                ),
            ),
        ),
    )
}

// ---------------------------------------------------------------------
// What a file sets
// ---------------------------------------------------------------------

/// A setting, or its default.
pub open spec fn setting_or(o: Option<u64>, default: u64) -> u64 {
    match o {
        Some(v) => v,
        None => default,
    }
}

/// A key, unless it is blank.
pub open spec fn key_text(o: Option<Seq<char>>) -> Option<Seq<char>> {
    match o {
        Some(s) => if trim_of(s).len() > 0 {
            Some(trim_of(s))
        } else {
            None
        },
        None => None,
    }
}

/// The operator's choices applied in order.
pub open spec fn providers_applied(providers: Seq<RawProviderFlags>) -> ProviderConfig
    decreases providers.len(),
{
    if providers.len() == 0 {
        ProviderConfig::default_choice()
    } else {
        let before = providers_applied(providers.drop_last());
        let flags = providers.last();
        match configurable(flags.id@) {
            Some(p) => before.with_override(p, flags.enabled, flags.priority),
            None => before,
        }
    }
}

/// The configuration that a file sets; what it leaves out keeps its default. The
/// key of Last.fm is that of the file, else what stands in the key file.
pub open spec fn config_of(raw: RawConfig, key_file: Option<Seq<char>>) -> ConfigModel {
    ConfigModel {
        request_timeout_secs: setting_or(
            raw.request_timeout_seconds,
            DEFAULT_REQUEST_TIMEOUT_SECS,
        ),
        musicbrainz_user_agent: match raw.musicbrainz {
            Some(mb) => match mb.user_agent {
                Some(ua) => ua@,
                None => DEFAULT_MUSICBRAINZ_USER_AGENT@,
            },
            None => DEFAULT_MUSICBRAINZ_USER_AGENT@,
        },
        musicbrainz_min_interval_ms: match raw.musicbrainz {
            Some(mb) => setting_or(mb.min_interval_ms, DEFAULT_MUSICBRAINZ_MIN_INTERVAL_MS),
            None => DEFAULT_MUSICBRAINZ_MIN_INTERVAL_MS,
        },
        negative_ttl_secs: match raw.negative_ttl_hours {
            Some(h) => (h * 3600) as u64,
            None => DEFAULT_NEGATIVE_TTL_SECS,
        },
        lastfm_api_key: match raw.lastfm {
            Some(l) => first_of(
                key_text(opt_view(l.api_key)),
                if key_text(opt_view(l.api_key_path)) is Some {
                    key_text(key_file)
                } else {
                    None
                },
            ),
            None => None,
        },
        lastfm_min_interval_ms: match raw.lastfm {
            Some(l) => setting_or(l.min_interval_ms, DEFAULT_LASTFM_MIN_INTERVAL_MS),
            None => DEFAULT_LASTFM_MIN_INTERVAL_MS,
        },
        lrclib_min_interval_ms: match raw.lrclib {
            Some(l) => setting_or(l.min_interval_ms, DEFAULT_LRCLIB_MIN_INTERVAL_MS),
            None => DEFAULT_LRCLIB_MIN_INTERVAL_MS,
        },
        provider_config: providers_applied(raw.providers@),
    }
}

/// A trimmed text, unless it is blank.
pub fn non_blank(o: &Option<String>) -> (r: Option<String>)
    ensures
        opt_view(r) == key_text(opt_view(*o)),
{
    match o {
        Some(s) => {
            let whole = chars_of(s.as_str());
            let t = trim(whole.as_slice());
            if t.len() > 0 {
                Some(text_of(t))
            } else {
                None
            }
        },
        None => None,
    }
}

fn check_interval(setting: &str, millis: Option<u64>) -> (r: Result<(), String>)
    ensures
        match r {
            Ok(()) => interval_error(setting@, millis) is None,
            Err(e) => interval_error(setting@, millis) == Some(e@),
        },
{
    if let Some(m) = millis {
        if m > 60_000 {
            let mut e = joined(setting, " must be 0..=60000; got ");
            e.append(decimal(m).as_str());
            return Err(e);
        }
    }
    Ok(())
}

fn or_setting(o: Option<u64>, default: u64) -> (r: u64)
    ensures
        r == setting_or(o, default),
{
    match o {
        Some(v) => v,
        None => default,
    }
}

/// The provider that a file names.
pub fn parse_provider_id(id: &str) -> (r: Result<ProviderId, String>)
    ensures
        match r {
            Ok(p) => configurable(id@) == Some(p),
            Err(e) => configurable(id@) is None && e@ == provider_complaint(id@),
        },
{
    match ProviderId::from_wire(id) {
        Some(p) => Ok(p),
        None => {
            let mut e = joined(
                "unknown provider id under [providers]: ",
                debug_text(id).as_str(),
            );
            e.append(
                "; expected one of musicbrainz / wikipedia / wikidata / lrclib / theaudiodb / lastfm / discogs / genius",
            );
            Err(e)
        },
    }
}

fn apply_providers(providers: &Vec<RawProviderFlags>) -> (r: Result<ProviderConfig, String>)
    ensures
        match r {
            Ok(c) => providers_error(providers@) is None && c == providers_applied(providers@),
            Err(e) => providers_error(providers@) == Some(e@),
        },
{
    let mut config = ProviderConfig::defaults();
    let n: usize = providers.len();
    for i in 0..n
        invariant
            n == providers@.len(),
            providers_error(providers@.take(i as int)) is None,
            config == providers_applied(providers@.take(i as int)),
    {
        let ghost upto = providers@.take(i + 1);
        assert(upto.drop_last() =~= providers@.take(i as int));
        assert(upto.last() == providers@[i as int]);
        match parse_provider_id(providers[i].id.as_str()) {
            Ok(p) => {
                config.merge_override(p, providers[i].enabled, providers[i].priority);
            },
            Err(e) => {
                proof {
                    lemma_first_refusal_stays(providers@, i + 1);
                }
                return Err(e);
            },
        }
    }
    assert(providers@.take(n as int) =~= providers@);
    Ok(config)
}

proof fn lemma_first_refusal_stays(providers: Seq<RawProviderFlags>, n: int)
    requires
        0 <= n <= providers.len(),
        providers_error(providers.take(n)) is Some,
    ensures
        providers_error(providers) == providers_error(providers.take(n)),
    decreases providers.len() - n,
{
    if n < providers.len() {
        assert(providers.take(n + 1).drop_last() =~= providers.take(n));
        lemma_first_refusal_stays(providers, n + 1);
    } else {
        assert(providers.take(n) =~= providers);
    }
}

impl RawConfig {
    /// The file to read the key of Last.fm from, where one is named.
    pub fn lastfm_key_path(&self) -> (r: Option<String>)
        ensures
            opt_view(r) == (match self.lastfm {
                Some(l) => key_text(opt_view(l.api_key_path)),
                None => None,
            }),
    {
        match &self.lastfm {
            Some(l) => non_blank(&l.api_key_path),
            None => None,
        }
    }
}

impl PluginConfig {
    /// The defaults.
    pub fn defaults() -> (r: PluginConfig)
        ensures
            r@ == default_config(),
    {
        PluginConfig {
            request_timeout_secs: DEFAULT_REQUEST_TIMEOUT_SECS,
            musicbrainz_user_agent: DEFAULT_MUSICBRAINZ_USER_AGENT.to_owned(),
            musicbrainz_min_interval_ms: DEFAULT_MUSICBRAINZ_MIN_INTERVAL_MS,
            negative_ttl_secs: DEFAULT_NEGATIVE_TTL_SECS,
            lastfm_api_key: None,
            lastfm_min_interval_ms: DEFAULT_LASTFM_MIN_INTERVAL_MS,
            lrclib_min_interval_ms: DEFAULT_LRCLIB_MIN_INTERVAL_MS,
            provider_config: ProviderConfig::defaults(),
        }
    }

    /// The configuration that a file sets. `key_file` is what could be read from
    /// [`RawConfig::lastfm_key_path`].
    pub fn from_toml_table(raw: RawConfig, key_file: Option<String>) -> (r: Result<
        PluginConfig,
        String,
    >)
        ensures
            match r {
                Ok(c) => config_error(raw) is None && c@ == config_of(raw, opt_view(key_file)),
                Err(e) => config_error(raw) == Some(e@),
            },
    {
        let mut out = PluginConfig::defaults();
        if let Some(secs) = raw.request_timeout_seconds {
            if secs < 1 || secs > 120 {
                return Err(
                    joined(
                        "request_timeout_seconds must be in 1..=120; got ",
                        decimal(secs).as_str(),
                    ),
                );
            }
            out.request_timeout_secs = secs;
        }
        if let Some(mb) = &raw.musicbrainz {
            if let Some(ua) = &mb.user_agent {
                let whole = chars_of(ua.as_str());
                if trim(whole.as_slice()).len() == 0 {
                    return Err("musicbrainz.user_agent must be non-empty when set".to_owned());
                }
                out.musicbrainz_user_agent = ua.clone();
            }
            if let Err(e) = check_interval("musicbrainz.min_interval_ms", mb.min_interval_ms) {
                return Err(e);
            }
            out.musicbrainz_min_interval_ms = or_setting(
                mb.min_interval_ms,
                DEFAULT_MUSICBRAINZ_MIN_INTERVAL_MS,
            );
        }
        if let Some(hours) = raw.negative_ttl_hours {
            if hours == 0 {
                return Err("negative_ttl_hours must be > 0".to_owned());
            }
            match hours.checked_mul(3600) {
                Some(secs) => {
                    out.negative_ttl_secs = secs;
                },
                None => {
                    return Err(
                        joined("negative_ttl_hours is too large; got ", decimal(hours).as_str()),
                    );
                },
            }
        }
        if let Some(lastfm) = &raw.lastfm {
            if non_blank(&lastfm.api_key_path).is_some() {
                out.lastfm_api_key = non_blank(&key_file);
            }
            if let Some(key) = non_blank(&lastfm.api_key) {
                out.lastfm_api_key = Some(key);
            }
            if let Err(e) = check_interval("lastfm.min_interval_ms", lastfm.min_interval_ms) {
                return Err(e);
            }
            out.lastfm_min_interval_ms = or_setting(
                lastfm.min_interval_ms,
                DEFAULT_LASTFM_MIN_INTERVAL_MS,
            );
        }
        if let Some(lrclib) = &raw.lrclib {
            if let Err(e) = check_interval("lrclib.min_interval_ms", lrclib.min_interval_ms) {
                return Err(e);
            }
            out.lrclib_min_interval_ms = or_setting(
                lrclib.min_interval_ms,
                DEFAULT_LRCLIB_MIN_INTERVAL_MS,
            );
        }
        if raw.privacy_mode.is_some() {
            return Err(PRIVACY_MODE_MOVED.to_owned());
        }
        match apply_providers(&raw.providers) {
            Ok(c) => {
                out.provider_config = c;
            },
            Err(e) => {
                return Err(e);
            },
        }
        Ok(out)
    }
}

/// What a file accepts is within bounds, and a file never sets the privacy mode.
pub proof fn law_accepted_settings_are_in_bounds(raw: RawConfig, key_file: Option<Seq<char>>)
    requires
        config_error(raw) is None,
    ensures
        ({
            let c = config_of(raw, key_file);
            &&& 1 <= c.request_timeout_secs <= 120
            &&& c.musicbrainz_min_interval_ms <= 60_000
            &&& c.lastfm_min_interval_ms <= 60_000
            &&& c.lrclib_min_interval_ms <= 60_000
            &&& c.negative_ttl_secs >= 3600
            &&& raw.negative_ttl_hours matches Some(h) ==> c.negative_ttl_secs == h * 3600
            &&& c.provider_config.privacy_mode is Enhanced
            &&& c.lastfm_api_key matches Some(k) ==> k.len() > 0
        }),
{
    lemma_choices_keep_the_mode(raw.providers@);
}

/// A file can enable, disable and order every provider: its section is named as
/// the provider is, and what it says is in force.
pub proof fn law_every_provider_is_configurable(p: ProviderId, flags: RawProviderFlags)
    requires
        flags.id@ == p.name(),
    ensures
        configurable(p.name()) == Some(p),
        providers_error(seq![flags]) is None,
        providers_applied(seq![flags]) == ProviderConfig::default_choice().with_override(
            p,
            flags.enabled,
            flags.priority,
        ),
{
    crate::metadata::cascade::law_provider_names_round_trip(p);
    let one = seq![flags];
    assert(one.drop_last() =~= Seq::<RawProviderFlags>::empty());
    assert(one.last() == flags);
    reveal_with_fuel(providers_error, 2);
    reveal_with_fuel(providers_applied, 2);
}

proof fn lemma_choices_keep_the_mode(providers: Seq<RawProviderFlags>)
    ensures
        providers_applied(providers).privacy_mode is Enhanced,
    decreases providers.len(),
{
    if providers.len() > 0 {
        lemma_choices_keep_the_mode(providers.drop_last());
    }
}

/// What the file sets is in force, and what it leaves out keeps its default.
pub proof fn law_what_the_file_sets_is_in_force(raw: RawConfig, key_file: Option<Seq<char>>)
    requires
        config_error(raw) is None,
    ensures
        ({
            let c = config_of(raw, key_file);
            &&& raw.request_timeout_seconds matches Some(s) ==> c.request_timeout_secs == s
            &&& raw.request_timeout_seconds is None ==> c.request_timeout_secs == 12
            &&& raw.negative_ttl_hours matches Some(h) ==> c.negative_ttl_secs == 3600 * h
            &&& raw.negative_ttl_hours is None ==> c.negative_ttl_secs == 24 * 3600
            &&& raw.musicbrainz matches Some(mb) ==> {
                &&& mb.user_agent matches Some(ua) ==> c.musicbrainz_user_agent == ua@
                &&& mb.min_interval_ms matches Some(m) ==> c.musicbrainz_min_interval_ms == m
                &&& mb.min_interval_ms is None ==> c.musicbrainz_min_interval_ms == 1000
            }
            &&& raw.musicbrainz is None ==> c.musicbrainz_min_interval_ms == 1000
                && c.musicbrainz_user_agent == DEFAULT_MUSICBRAINZ_USER_AGENT@
            &&& raw.lrclib matches Some(l) ==> (l.min_interval_ms matches Some(m)
                ==> c.lrclib_min_interval_ms == m)
            &&& raw.lrclib is None ==> c.lrclib_min_interval_ms == 200
            &&& raw.lastfm matches Some(l) ==> (l.min_interval_ms matches Some(m)
                ==> c.lastfm_min_interval_ms == m)
            &&& raw.lastfm is None ==> c.lastfm_min_interval_ms == 200 && c.lastfm_api_key is None
        }),
{
}

/// The key in the file wins over the key file; the key file counts only where one
/// is named; a blank key is none.
pub proof fn law_the_key_in_the_file_wins(raw: RawConfig, key_file: Option<Seq<char>>)
    requires
        raw.lastfm is Some,
    ensures
        ({
            let l = raw.lastfm->Some_0;
            let key = config_of(raw, key_file).lastfm_api_key;
            let inline = l.api_key is Some && trim_of(l.api_key->Some_0@).len() > 0;
            let named = l.api_key_path is Some && trim_of(l.api_key_path->Some_0@).len() > 0;
            let kept = key_file is Some && trim_of(key_file->Some_0).len() > 0;
            &&& inline ==> key == Some(trim_of(l.api_key->Some_0@))
            &&& !inline && named && kept ==> key == Some(trim_of(key_file->Some_0))
            &&& !inline && !(named && kept) ==> key is None
        }),
{
}

proof fn lemma_unknown_provider(providers: Seq<RawProviderFlags>)
    ensures
        providers_error(providers) is Some <==> exists|i: int|
            0 <= i < providers.len() && ProviderId::of_name((#[trigger] providers[i]).id@) is None,
    decreases providers.len(),
{
    if providers.len() > 0 {
        let front = providers.drop_last();
        lemma_unknown_provider(front);
        assert(providers[providers.len() - 1] == providers.last());
        if exists|i: int|
            0 <= i < front.len() && ProviderId::of_name((#[trigger] front[i]).id@) is None {
            let i = choose|i: int|
                0 <= i < front.len() && ProviderId::of_name((#[trigger] front[i]).id@) is None;
            assert(providers[i] == front[i]);
        }
        if exists|i: int|
            0 <= i < providers.len() && ProviderId::of_name((#[trigger] providers[i]).id@) is None {
            let i = choose|i: int|
                0 <= i < providers.len() && ProviderId::of_name(
                    (#[trigger] providers[i]).id@,
                ) is None;
            if i < front.len() {
                assert(front[i] == providers[i]);
            }
        }
    }
}

/// A pause that is too long.
pub open spec fn too_long(millis: Option<u64>) -> bool {
    millis matches Some(m) && m > 60_000
}

/// A file is refused exactly if something in it is: a deadline or a pause out of
/// bounds, a blank user agent, a time for misses that is zero or beyond counting, a
/// privacy mode, or a provider that does not exist.
pub proof fn law_what_is_refused(raw: RawConfig)
    ensures
        config_error(raw) is Some <==> {
            ||| raw.request_timeout_seconds matches Some(s) && (s < 1 || s > 120)
            ||| raw.musicbrainz matches Some(mb) && (too_long(mb.min_interval_ms) || (
            mb.user_agent matches Some(ua) && trim_of(ua@).len() == 0))
            ||| raw.negative_ttl_hours matches Some(h) && (h == 0 || h * 3600 > u64::MAX)
            ||| raw.lastfm matches Some(l) && too_long(l.min_interval_ms)
            ||| raw.lrclib matches Some(l) && too_long(l.min_interval_ms)
            ||| raw.privacy_mode is Some
            ||| exists|i: int|
                0 <= i < raw.providers@.len() && ProviderId::of_name(
                    (#[trigger] raw.providers@[i]).id@,
                ) is None
        },
{
    lemma_unknown_provider(raw.providers@);
}

/// The last section for a provider decides what it says of it, and a provider
/// without a section is enabled.
pub proof fn law_sections_take_effect(providers: Seq<RawProviderFlags>, flags: RawProviderFlags)
    ensures
        ({
            let before = providers_applied(providers);
            let after = providers_applied(providers.push(flags));
            let named = ProviderId::of_name(flags.id@);
            &&& named matches Some(p) ==> {
                &&& flags.enabled matches Some(e) ==> after.choice(p).enabled == e
                &&& flags.enabled is None ==> after.choice(p).enabled == before.choice(p).enabled
                &&& flags.priority matches Some(n) ==> after.choice(p).priority == n
                &&& flags.priority is None ==> after.choice(p).priority == before.choice(
                    p,
                ).priority
            }
            &&& forall|q: ProviderId|
                named != Some(q) ==> #[trigger] after.choice(q) == before.choice(q)
        }),
        forall|q: ProviderId| (#[trigger] providers_applied(Seq::empty()).choice(q)).enabled,
{
    assert(providers.push(flags).drop_last() =~= providers);
}

/// A refusal says what is wrong and what was found. The deadline is looked at before
/// the other settings.
pub proof fn law_refusals_say_what_is_wrong(raw: RawConfig, setting: Seq<char>, m: u64)
    ensures
        raw.request_timeout_seconds matches Some(s) ==> ((s < 1 || s > 120) ==> config_error(raw)
            == Some("request_timeout_seconds must be in 1..=120; got "@ + decimal_of(s as nat))),
        m > 60_000 ==> interval_error(setting, Some(m)) == Some(
            setting + " must be 0..=60000; got "@ + decimal_of(m as nat),
        ),
        timeout_error(raw.request_timeout_seconds) is None ==> (raw.musicbrainz matches Some(mb)
            ==> ((mb.user_agent matches Some(ua) && trim_of(ua@).len() == 0) ==> config_error(raw)
            == Some("musicbrainz.user_agent must be non-empty when set"@))),
        ttl_error(Some(0)) == Some("negative_ttl_hours must be > 0"@),
        m * 3600 > u64::MAX ==> ttl_error(Some(m)) == Some(
            "negative_ttl_hours is too large; got "@ + decimal_of(m as nat),
        ),
{
}

/// A plugin that has read no file has the figures of one that read an empty file.
pub proof fn law_the_default_is_that_of_an_empty_file(raw: RawConfig)
    requires
        raw.request_timeout_seconds is None,
        raw.musicbrainz is None,
        raw.negative_ttl_hours is None,
        raw.lastfm is None,
        raw.lrclib is None,
        raw.privacy_mode is None,
        raw.providers@.len() == 0,
    ensures
        config_error(raw) is None,
        config_of(raw, None) == default_config(),
{
}

} // verus!
