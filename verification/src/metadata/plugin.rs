//! The online-metadata plugin: how it loads, which requests it takes, and how
//! changes of credentials and of the operator's choice reach it while it runs.

use crate::json::opt_view;
use crate::metadata::album_notes::{has_notes_provider, notes_key_parts};
use crate::metadata::annotation::has_annotation_provider;
use crate::metadata::bio::has_bio_provider;
use crate::metadata::cache::{EnrichmentCache, ReconcileCache};
use crate::metadata::cascade::{ProviderCatalogue, ProviderConfig, ProviderId};
use crate::metadata::config::{default_config, ConfigModel, PluginConfig};
use crate::metadata::credits::{credits_key_parts, has_credits_provider};
use crate::metadata::work_notes::{has_work_provider, work_key_parts, WorkModel};
use crate::plugin_error::{permanent, permanent_with, ErrorModel, PluginError};
use crate::text::{
    debug_list, debug_list_of, debug_quoted, debug_text, decimal, decimal_of, joined, push_owned,
    same_text, utf8_text, views,
};
use vstd::prelude::*;
use vstd::string::StrSliceExecFns;
use vstd::utf8::{decode_utf8, encode_utf8, valid_utf8};

verus! {

/// The plugin's name.
pub const PLUGIN_NAME: &'static str = "org.evoframework.metadata.online";

// ---------------------------------------------------------------------
// Verbs
// ---------------------------------------------------------------------

/// A verb.
#[derive(Debug, Clone, Copy, PartialEq, Eq, Structural)]
pub enum Verb {
    ReconcileRelease,
    BrowseByRecordingType,
    QueryLyrics,
    QueryArtistBio,
    QueryAlbumNotes,
    QueryReleaseCredits,
    QueryTrackAnnotation,
    QueryWorkNotes,
}

impl Verb {
    /// The verb's `request_type`.
    pub open spec fn name(self) -> Seq<char> {
        match self {
            Verb::ReconcileRelease => "metadata.reconcile_release"@,
            Verb::BrowseByRecordingType => "library.browse_by_recording_type"@,
            Verb::QueryLyrics => "metadata.query_lyrics"@,
            Verb::QueryArtistBio => "metadata.query_artist_bio"@,
            Verb::QueryAlbumNotes => "metadata.query_album_notes"@,
            Verb::QueryReleaseCredits => "metadata.query_release_credits"@,
            Verb::QueryTrackAnnotation => "metadata.query_track_annotation"@,
            Verb::QueryWorkNotes => "metadata.query_work_notes"@,
        }
    }

    /// The verb's `request_type`.
    pub fn as_str(self) -> (r: &'static str)
        ensures
            r@ == self.name(),
    {
        match self {
            Verb::ReconcileRelease => "metadata.reconcile_release",
            Verb::BrowseByRecordingType => "library.browse_by_recording_type",
            Verb::QueryLyrics => "metadata.query_lyrics",
            Verb::QueryArtistBio => "metadata.query_artist_bio",
            Verb::QueryAlbumNotes => "metadata.query_album_notes",
            Verb::QueryReleaseCredits => "metadata.query_release_credits",
            Verb::QueryTrackAnnotation => "metadata.query_track_annotation",
            Verb::QueryWorkNotes => "metadata.query_work_notes",
        }
    }
}

/// All names, in the order in which the plugin describes itself.
pub open spec fn verb_names() -> Seq<Seq<char>> {
    seq![
        Verb::ReconcileRelease.name(),
        Verb::BrowseByRecordingType.name(),
        Verb::QueryLyrics.name(),
        Verb::QueryArtistBio.name(),
        Verb::QueryAlbumNotes.name(),
        Verb::QueryReleaseCredits.name(),
        Verb::QueryTrackAnnotation.name(),
        Verb::QueryWorkNotes.name(),
    ]
}

/// All names, in the order in which the plugin describes itself.
pub fn request_types() -> (r: Vec<String>)
    ensures
        views(r@) == verb_names(),
{
    let mut r: Vec<String> = Vec::new();
    push_owned(&mut r, Verb::ReconcileRelease.as_str().to_owned());
    push_owned(&mut r, Verb::BrowseByRecordingType.as_str().to_owned());
    push_owned(&mut r, Verb::QueryLyrics.as_str().to_owned());
    push_owned(&mut r, Verb::QueryArtistBio.as_str().to_owned());
    push_owned(&mut r, Verb::QueryAlbumNotes.as_str().to_owned());
    push_owned(&mut r, Verb::QueryReleaseCredits.as_str().to_owned());
    push_owned(&mut r, Verb::QueryTrackAnnotation.as_str().to_owned());
    push_owned(&mut r, Verb::QueryWorkNotes.as_str().to_owned());
    assert(views(r@) =~= verb_names());
    r
}

/// Every verb's name is listed.
pub(crate) proof fn lemma_name_is_listed(v: Verb)
    ensures
        verb_names().contains(v.name()),
{
    let names = verb_names();
    match v {
        Verb::ReconcileRelease => assert(names[0] == v.name()),
        Verb::BrowseByRecordingType => assert(names[1] == v.name()),
        Verb::QueryLyrics => assert(names[2] == v.name()),
        Verb::QueryArtistBio => assert(names[3] == v.name()),
        Verb::QueryAlbumNotes => assert(names[4] == v.name()),
        Verb::QueryReleaseCredits => assert(names[5] == v.name()),
        Verb::QueryTrackAnnotation => assert(names[6] == v.name()),
        Verb::QueryWorkNotes => assert(names[7] == v.name()),
    }
}

/// Different verbs have different names.
pub proof fn law_names_are_distinct(a: Verb, b: Verb)
    requires
        a.name() == b.name(),
    ensures
        a == b,
{
    reveal_strlit("metadata.reconcile_release");
    reveal_strlit("library.browse_by_recording_type");
    reveal_strlit("metadata.query_lyrics");
    reveal_strlit("metadata.query_artist_bio");
    reveal_strlit("metadata.query_album_notes");
    reveal_strlit("metadata.query_release_credits");
    reveal_strlit("metadata.query_track_annotation");
    reveal_strlit("metadata.query_work_notes");
    assert("metadata.reconcile_release"@.len() == 26);
    assert("metadata.reconcile_release"@[9] == 'r');
    assert("library.browse_by_recording_type"@.len() == 32);
    assert("metadata.query_lyrics"@.len() == 21);
    assert("metadata.query_artist_bio"@.len() == 25);
    assert("metadata.query_artist_bio"@[15] == 'a');
    assert("metadata.query_album_notes"@.len() == 26);
    assert("metadata.query_album_notes"@[9] == 'q');
    assert("metadata.query_release_credits"@.len() == 30);
    assert("metadata.query_track_annotation"@.len() == 31);
    assert("metadata.query_work_notes"@.len() == 25);
    assert("metadata.query_work_notes"@[15] == 'w');
}

/// The verb that a `request_type` names.
pub fn find_verb(request_type: &str) -> (r: Option<Verb>)
    ensures
        match r {
            Some(v) => v.name() == request_type@,
            None => !verb_names().contains(request_type@),
        },
{
    if same_text(request_type, Verb::ReconcileRelease.as_str()) {
        Some(Verb::ReconcileRelease)
    } else if same_text(request_type, Verb::BrowseByRecordingType.as_str()) {
        Some(Verb::BrowseByRecordingType)
    } else if same_text(request_type, Verb::QueryLyrics.as_str()) {
        Some(Verb::QueryLyrics)
    } else if same_text(request_type, Verb::QueryArtistBio.as_str()) {
        Some(Verb::QueryArtistBio)
    } else if same_text(request_type, Verb::QueryAlbumNotes.as_str()) {
        Some(Verb::QueryAlbumNotes)
    } else if same_text(request_type, Verb::QueryReleaseCredits.as_str()) {
        Some(Verb::QueryReleaseCredits)
    } else if same_text(request_type, Verb::QueryTrackAnnotation.as_str()) {
        Some(Verb::QueryTrackAnnotation)
    } else if same_text(request_type, Verb::QueryWorkNotes.as_str()) {
        Some(Verb::QueryWorkNotes)
    } else {
        None
    }
}

// ---------------------------------------------------------------------
// Provider failures
// ---------------------------------------------------------------------

/// What a keyed provider failed with.
#[derive(Debug, PartialEq, Eq)]
pub enum ProviderError {
    Http(String),
    Status { status: u16, body: String },
    Decode(String),
}

impl ProviderError {
    /// The failure in words, after the provider's name.
    pub open spec fn message(&self, provider: Seq<char>) -> Seq<char> {
        match *self {
            ProviderError::Http(e) => provider + " http: "@ + e@,
            ProviderError::Status { status, body } => provider + " status "@ + decimal_of(
                status as nat,
            ) + ": "@ + body@,
            ProviderError::Decode(m) => provider + " decode: "@ + m@,
        }
    }
}

/// A failure of `provider` in words.
fn provider_error_message(provider: &str, e: &ProviderError) -> (r: String)
    ensures
        r@ == e.message(provider@),
{
    match e {
        ProviderError::Http(err) => {
            let mut r = joined(provider, " http: ");
            r.append(err.as_str());
            r
        },
        ProviderError::Status { status, body } => {
            let mut r = joined(provider, " status ");
            r.append(decimal(*status as u64).as_str());
            r.append(": ");
            r.append(body.as_str());
            r
        },
        ProviderError::Decode(m) => {
            let mut r = joined(provider, " decode: ");
            r.append(m.as_str());
            r
        },
    }
}

/// A failure of Discogs in words.
pub fn discogs_error_message(e: &ProviderError) -> (r: String)
    ensures
        r@ == e.message("discogs"@),
{
    provider_error_message("discogs", e)
}

/// A failure of Genius in words.
pub fn genius_error_message(e: &ProviderError) -> (r: String)
    ensures
        r@ == e.message("genius"@),
{
    provider_error_message("genius", e)
}

// ---------------------------------------------------------------------
// The operator's choice
// ---------------------------------------------------------------------

/// The operator's choice for one provider, as the store keeps and announces it.
#[derive(Debug, PartialEq, Eq)]
pub struct ProviderRow {
    pub provider_id: String,
    pub enabled: bool,
    /// Negative while the operator has set no priority.
    pub priority: i32,
}

/// The priority that a row sets.
pub open spec fn row_priority(row: ProviderRow) -> Option<u32> {
    if row.priority < 0 {
        None
    } else {
        Some(row.priority as u32)
    }
}

/// The choice after a row. A row for a provider that is not known here changes
/// nothing.
pub open spec fn with_row(config: ProviderConfig, row: ProviderRow) -> ProviderConfig {
    match ProviderId::of_name(row.provider_id@) {
        Some(provider) => config.with_override(provider, Some(row.enabled), row_priority(row)),
        None => config,
    }
}

/// The choice after all rows, in their order.
pub open spec fn with_rows(config: ProviderConfig, rows: Seq<ProviderRow>) -> ProviderConfig
    decreases rows.len(),
{
    if rows.len() == 0 {
        config
    } else {
        with_row(with_rows(config, rows.drop_last()), rows.last())
    }
}

/// Applies a row.
pub fn apply_row(config: &mut ProviderConfig, row: &ProviderRow)
    ensures
        *final(config) == with_row(*old(config), *row),
{
    if let Some(provider) = ProviderId::from_wire(row.provider_id.as_str()) {
        let priority: Option<u32> = if row.priority < 0 {
            None
        } else {
            Some(row.priority as u32)
        };
        config.merge_override(provider, Some(row.enabled), priority);
    }
}

/// Applies all rows, in their order.
pub fn apply_rows(config: &mut ProviderConfig, rows: &Vec<ProviderRow>)
    ensures
        *final(config) == with_rows(*old(config), rows@),
{
    let n: usize = rows.len();
    let ghost before = *config;
    let mut i: usize = 0;
    while i < n
        invariant
            i <= n == rows@.len(),
            *config == with_rows(before, rows@.take(i as int)),
        decreases n - i,
    {
        assert(rows@.take(i + 1).drop_last() =~= rows@.take(i as int));
        apply_row(config, &rows[i]);
        i = i + 1;
    }
    assert(rows@.take(n as int) =~= rows@);
}

/// What a row says of a provider is in force once it is applied: a row that
/// disables it keeps it from being asked, one without a priority keeps the
/// provider's place, and neither other providers nor the privacy mode change.
pub proof fn law_rows_take_effect(config: ProviderConfig, row: ProviderRow, provider: ProviderId)
    ensures
        ({
            let after = with_row(config, row);
            let named = ProviderId::of_name(row.provider_id@) == Some(provider);
            &&& after.privacy_mode == config.privacy_mode
            &&& !named ==> after.choice(provider) == config.choice(provider)
            &&& named ==> after.choice(provider).enabled == row.enabled
            &&& named && !row.enabled ==> !after.permits(provider)
            &&& named && row.priority < 0 ==> after.choice(provider).priority == config.choice(
                provider,
            ).priority
            &&& named && row.priority >= 0 ==> after.choice(provider).priority == row.priority
        }),
{
}

/// The store outranks the configuration file: the last row for a provider decides
/// whether it is enabled, whatever came before.
pub proof fn law_the_last_row_decides(
    config: ProviderConfig,
    rows: Seq<ProviderRow>,
    i: int,
    provider: ProviderId,
)
    requires
        0 <= i < rows.len(),
        ProviderId::of_name(rows[i].provider_id@) == Some(provider),
        forall|j: int|
            i < j < rows.len() ==> ProviderId::of_name((#[trigger] rows[j]).provider_id@) != Some(
                provider,
            ),
    ensures
        with_rows(config, rows).choice(provider).enabled == rows[i].enabled,
    decreases rows.len(),
{
    let before = rows.drop_last();
    if i < rows.len() - 1 {
        assert forall|j: int| i < j < before.len() implies ProviderId::of_name(
            (#[trigger] before[j]).provider_id@,
        ) != Some(provider) by {
            assert(before[j] == rows[j]);
        }
        law_the_last_row_decides(config, before, i, provider);
        assert(rows.last() == rows[rows.len() - 1]);
    }
    law_rows_take_effect(with_rows(config, before), rows.last(), provider);
}

/// A provider that no row names keeps what the configuration file says of it.
pub proof fn law_unnamed_providers_are_kept(
    config: ProviderConfig,
    rows: Seq<ProviderRow>,
    provider: ProviderId,
)
    requires
        forall|j: int|
            0 <= j < rows.len() ==> ProviderId::of_name((#[trigger] rows[j]).provider_id@) != Some(
                provider,
            ),
    ensures
        with_rows(config, rows).choice(provider) == config.choice(provider),
        with_rows(config, rows).privacy_mode == config.privacy_mode,
    decreases rows.len(),
{
    if rows.len() > 0 {
        let before = rows.drop_last();
        assert forall|j: int| 0 <= j < before.len() implies ProviderId::of_name(
            (#[trigger] before[j]).provider_id@,
        ) != Some(provider) by {
            assert(before[j] == rows[j]);
        }
        law_unnamed_providers_are_kept(config, before, provider);
        assert(rows.last() == rows[rows.len() - 1]);
        law_rows_take_effect(with_rows(config, before), rows.last(), provider);
    }
}

// ---------------------------------------------------------------------
// Credentials
// ---------------------------------------------------------------------

/// A provider that needs a credential of the operator.
#[derive(Debug, Clone, Copy, PartialEq, Eq, Structural)]
pub enum KeyedProvider {
    Lastfm,
    Discogs,
    Genius,
}

impl KeyedProvider {
    /// The name under which the vault keeps the credential.
    pub open spec fn key_name(self) -> Seq<char> {
        match self {
            KeyedProvider::Lastfm => "lastfm_api_key"@,
            KeyedProvider::Discogs => "discogs_personal_access_token"@,
            KeyedProvider::Genius => "genius_client_access_token"@,
        }
    }

    /// The name under which the vault keeps the credential.
    pub fn vault_key(self) -> (r: &'static str)
        ensures
            r@ == self.key_name(),
    {
        match self {
            KeyedProvider::Lastfm => "lastfm_api_key",
            KeyedProvider::Discogs => "discogs_personal_access_token",
            KeyedProvider::Genius => "genius_client_access_token",
        }
    }

    /// The provider whose credential has a name.
    pub open spec fn of_key(key: Seq<char>) -> Option<KeyedProvider> {
        if key == "lastfm_api_key"@ {
            Some(KeyedProvider::Lastfm)
        } else if key == "discogs_personal_access_token"@ {
            Some(KeyedProvider::Discogs)
        } else if key == "genius_client_access_token"@ {
            Some(KeyedProvider::Genius)
        } else {
            None
        }
    }

    /// The provider whose credential has a name.
    pub fn from_vault_key(key: &str) -> (r: Option<KeyedProvider>)
        ensures
            r == KeyedProvider::of_key(key@),
    {
        if same_text(key, KeyedProvider::Lastfm.vault_key()) {
            Some(KeyedProvider::Lastfm)
        } else if same_text(key, KeyedProvider::Discogs.vault_key()) {
            Some(KeyedProvider::Discogs)
        } else if same_text(key, KeyedProvider::Genius.vault_key()) {
            Some(KeyedProvider::Genius)
        } else {
            None
        }
    }

    /// The provider itself.
    pub open spec fn provider(self) -> ProviderId {
        match self {
            KeyedProvider::Lastfm => ProviderId::Lastfm,
            KeyedProvider::Discogs => ProviderId::Discogs,
            KeyedProvider::Genius => ProviderId::Genius,
        }
    }
}

/// Exactly the identity-bearing providers need a credential, and a credential's
/// name tells whose it is.
pub proof fn law_credentials_are_told_apart(k: KeyedProvider, p: ProviderId)
    ensures
        KeyedProvider::of_key(k.key_name()) == Some(k),
        p.class() is IdentityBearing <==> (p == KeyedProvider::Lastfm.provider() || p
            == KeyedProvider::Discogs.provider() || p == KeyedProvider::Genius.provider()),
{
    reveal_strlit("lastfm_api_key");
    reveal_strlit("discogs_personal_access_token");
    reveal_strlit("genius_client_access_token");
    assert("lastfm_api_key"@.len() == 14);
    assert("discogs_personal_access_token"@.len() == 29);
    assert("genius_client_access_token"@.len() == 26);
}

/// What came of fetching from the vault: the bytes it keeps, if any, or why it
/// failed.
pub type Fetched = Result<Option<Vec<u8>>, String>;

/// The credential in what was fetched.
pub open spec fn credential_of(fetched: Option<Fetched>) -> Option<Seq<char>> {
    match fetched {
        Some(Ok(Some(bytes))) => if valid_utf8(bytes@) {
            Some(decode_utf8(bytes@))
        } else {
            None
        },
        _ => None,
    }
}

/// The credential in what was fetched; nothing was fetched where there is no
/// vault. There is none where the vault keeps none, fails, or keeps bytes that
/// are not text.
pub fn resolve_credential_from_vault(fetched: Option<Fetched>) -> (r: Option<String>)
    ensures
        opt_view(r) == credential_of(fetched),
{
    match fetched {
        Some(Ok(Some(bytes))) => match utf8_text(bytes) {
            Ok(s) => Some(s),
            Err(_) => None,
        },
        _ => None,
    }
}

/// The Last.fm key to use, and the bytes to move into the vault.
#[derive(Debug, PartialEq, Eq)]
pub struct ResolvedKey {
    pub key: Option<String>,
    pub migrate: Option<Vec<u8>>,
}

/// What a [`ResolvedKey`] says.
pub struct ResolvedModel {
    pub key: Option<Seq<char>>,
    pub migrate: Option<Seq<u8>>,
}

impl View for ResolvedKey {
    type V = ResolvedModel;

    open spec fn view(&self) -> ResolvedModel {
        ResolvedModel {
            key: opt_view(self.key),
            migrate: match self.migrate {
                Some(bytes) => Some(bytes@),
                None => None,
            },
        }
    }
}

/// How the Last.fm key is resolved: the vault's comes first; a key of the
/// configuration file is used next, and moved into the vault if there is one.
pub open spec fn resolved(fetched: Option<Fetched>, legacy: Option<Seq<char>>) -> ResolvedModel {
    match credential_of(fetched) {
        Some(key) => ResolvedModel { key: Some(key), migrate: None },
        None => ResolvedModel {
            key: legacy,
            migrate: match legacy {
                Some(key) => if fetched is Some {
                    Some(encode_utf8(key))
                } else {
                    None
                },
                None => None,
            },
        },
    }
}

/// How a key that was moved into the vault is shown to the operator.
pub const MIGRATED_KEY_NAME: &'static str = "Last.fm API key (migrated from plugin config)";

/// Resolves the Last.fm key.
pub fn resolve_lastfm_api_key(fetched: Option<Fetched>, legacy: Option<String>) -> (r: ResolvedKey)
    ensures
        r@ == resolved(fetched, opt_view(legacy)),
{
    let has_vault = fetched.is_some();
    match resolve_credential_from_vault(fetched) {
        Some(key) => ResolvedKey { key: Some(key), migrate: None },
        None => match legacy {
            Some(key) => {
                let migrate: Option<Vec<u8>> = if has_vault {
                    Some(key.as_str().as_bytes_vec())
                } else {
                    None
                };
                ResolvedKey { key: Some(key), migrate }
            },
            None => ResolvedKey { key: None, migrate: None },
        },
    }
}

/// A key is moved into the vault once: when the vault gives back what was moved
/// there, the same key is in use and nothing is moved again, whatever the
/// configuration file says by then.
pub proof fn law_migration_happens_once(
    fetched: Option<Fetched>,
    legacy: Option<Seq<char>>,
    moved: Vec<u8>,
    later: Option<Seq<char>>,
)
    requires
        resolved(fetched, legacy).migrate == Some(moved@),
    ensures
        resolved(Some(Ok(Some(moved))), later) == (ResolvedModel {
            key: resolved(fetched, legacy).key,
            migrate: None,
        }),
{
    vstd::utf8::encode_utf8_valid_utf8(legacy->Some_0);
    vstd::utf8::encode_utf8_decode_utf8(legacy->Some_0);
}

/// How a credential changed.
#[derive(Debug, Clone, Copy, PartialEq, Eq, Structural)]
pub enum CredentialChangeKind {
    Put,
    Delete,
}

/// What a changed credential calls for.
#[derive(Debug, Clone, Copy, PartialEq, Eq, Structural)]
pub enum CredentialStep {
    /// The client goes.
    Drop(KeyedProvider),
    /// The credential is fetched again and the client made from it, or gone with
    /// it.
    Fetch(KeyedProvider),
}

/// What a changed key calls for; nothing where the key is of no use here.
pub open spec fn step_for(kind: CredentialChangeKind, key: Seq<char>) -> Option<CredentialStep> {
    match KeyedProvider::of_key(key) {
        Some(provider) => Some(
            match kind {
                CredentialChangeKind::Delete => CredentialStep::Drop(provider),
                CredentialChangeKind::Put => CredentialStep::Fetch(provider),
            },
        ),
        None => None,
    }
}

/// What changed keys call for, in their order.
pub open spec fn steps_for(kind: CredentialChangeKind, keys: Seq<Seq<char>>) -> Seq<CredentialStep>
    decreases keys.len(),
{
    if keys.len() == 0 {
        seq![]
    } else {
        let before = steps_for(kind, keys.drop_last());
        match step_for(kind, keys.last()) {
            Some(step) => before.push(step),
            None => before,
        }
    }
}

/// What changed keys call for, in their order.
pub fn credential_steps(kind: CredentialChangeKind, keys: &Vec<String>) -> (r: Vec<CredentialStep>)
    ensures
        r@ == steps_for(kind, views(keys@)),
{
    let mut r: Vec<CredentialStep> = Vec::new();
    let n: usize = keys.len();
    let mut i: usize = 0;
    assert(steps_for(kind, views(keys@).take(0)) =~= r@);
    while i < n
        invariant
            i <= n == keys@.len(),
            r@ == steps_for(kind, views(keys@).take(i as int)),
        decreases n - i,
    {
        assert(views(keys@).take(i + 1).drop_last() =~= views(keys@).take(i as int));
        assert(views(keys@).take(i + 1).last() == keys@[i as int]@);
        if let Some(provider) = KeyedProvider::from_vault_key(keys[i].as_str()) {
            match kind {
                CredentialChangeKind::Delete => r.push(CredentialStep::Drop(provider)),
                CredentialChangeKind::Put => r.push(CredentialStep::Fetch(provider)),
            }
        }
        i = i + 1;
    }
    assert(views(keys@).take(n as int) =~= views(keys@));
    r
}

// ---------------------------------------------------------------------
// Clients
// ---------------------------------------------------------------------

/// Pause between requests to Discogs, in milliseconds.
pub const DISCOGS_MIN_INTERVAL_MS: u64 = 1_000;

/// Pause between requests to Genius, in milliseconds.
pub const GENIUS_MIN_INTERVAL_MS: u64 = 250;

/// The pause between requests to a provider, in milliseconds. The providers of
/// Wikimedia, and TheAudioDB, are asked no faster than MusicBrainz.
pub open spec fn interval_of(config: ConfigModel, provider: ProviderId) -> u64 {
    match provider {
        ProviderId::Lrclib => config.lrclib_min_interval_ms,
        ProviderId::Lastfm => config.lastfm_min_interval_ms,
        ProviderId::Discogs => DISCOGS_MIN_INTERVAL_MS,
        ProviderId::Genius => GENIUS_MIN_INTERVAL_MS,
        _ => config.musicbrainz_min_interval_ms,
    }
}

/// The pause between requests to a provider, in milliseconds.
pub fn min_interval_ms(config: &PluginConfig, provider: ProviderId) -> (r: u64)
    ensures
        r == interval_of(config@, provider),
{
    match provider {
        ProviderId::Lrclib => config.lrclib_min_interval_ms,
        ProviderId::Lastfm => config.lastfm_min_interval_ms,
        ProviderId::Discogs => DISCOGS_MIN_INTERVAL_MS,
        ProviderId::Genius => GENIUS_MIN_INTERVAL_MS,
        _ => config.musicbrainz_min_interval_ms,
    }
}

// ---------------------------------------------------------------------
// The plugin
// ---------------------------------------------------------------------

/// A name inside a directory.
pub open spec fn inside(dir: Seq<char>, name: Seq<char>) -> Seq<char> {
    if dir.len() == 0 || dir.last() == '/' {
        dir + name
    } else {
        dir + "/"@ + name
    }
}

/// A name inside a directory.
fn path_inside(dir: &str, name: &str) -> (r: String)
    ensures
        r@ == inside(dir@, name@),
{
    let chars = crate::text::chars_of(dir);
    if chars.len() == 0 || chars[chars.len() - 1] == '/' {
        joined(dir, name)
    } else {
        let mut r = joined(dir, "/");
        r.append(name);
        r
    }
}

/// What loading has to go on, once the configuration is accepted.
pub struct LoadInputs {
    pub config: PluginConfig,
    /// The rows of the store; none where there is no store, or why they could not
    /// be read.
    pub store: Option<Result<Vec<ProviderRow>, String>>,
    pub state_dir: String,
    /// Whether a credential made a client.
    pub lastfm: bool,
    pub discogs: bool,
    pub genius: bool,
}

/// The operator's choice at load: the store's rows over the configuration file.
/// Without rows that can be read the file alone decides.
pub open spec fn loaded_choice(
    config: ProviderConfig,
    store: Option<Result<Vec<ProviderRow>, String>>,
) -> ProviderConfig {
    match store {
        Some(Ok(rows)) => with_rows(config, rows@),
        _ => config,
    }
}

/// The plugin.
pub struct MetadataOnlinePlugin {
    pub loaded: bool,
    pub config: PluginConfig,
    /// The clients there are, and the operator's choice as it stands.
    pub catalogue: ProviderCatalogue,
    pub reconcile_cache: Option<ReconcileCache>,
    pub lyrics_cache: Option<EnrichmentCache>,
    pub bio_cache: Option<EnrichmentCache>,
    pub notes_cache: Option<EnrichmentCache>,
    pub credits_cache: Option<EnrichmentCache>,
    pub annotation_cache: Option<EnrichmentCache>,
    pub work_notes_cache: Option<EnrichmentCache>,
    pub requests_handled: u64,
}

/// Whether a cache is the one under `name` that a load makes.
pub open spec fn is_cache_of(
    cache: Option<EnrichmentCache>,
    dir: Seq<char>,
    name: Seq<char>,
    ttl: u64,
) -> bool {
    &&& cache is Some
    &&& cache->Some_0.root@ == inside(dir, name)
    &&& cache->Some_0.negative_ttl_secs == ttl
}

/// Why a verb cannot be served without its cache.
pub open spec fn missing_cache(verb: Verb) -> Seq<char> {
    match verb {
        Verb::ReconcileRelease => ""@,
        Verb::BrowseByRecordingType => {
            "reconcile cache not wired at load \u{2014} cannot serve library.browse_by_recording_type"@
        },
        Verb::QueryLyrics => "lyrics cache not wired at load"@,
        Verb::QueryArtistBio => "bio cache not wired at load"@,
        Verb::QueryAlbumNotes => "notes cache not wired at load"@,
        Verb::QueryReleaseCredits => "credits cache not wired at load"@,
        Verb::QueryTrackAnnotation => "annotation cache not wired at load"@,
        Verb::QueryWorkNotes => "work-notes cache not wired at load"@,
    }
}

/// No clients, and the default choice.
pub open spec fn no_clients() -> ProviderCatalogue {
    ProviderCatalogue {
        musicbrainz: false,
        wikipedia: false,
        wikidata: false,
        lrclib: false,
        theaudiodb: false,
        lastfm: false,
        discogs: false,
        genius: false,
        config: ProviderConfig::default_choice(),
    }
}

/// No clients, and the default choice.
fn empty_catalogue() -> (r: ProviderCatalogue)
    ensures
        r == no_clients(),
{
    ProviderCatalogue {
        musicbrainz: false,
        wikipedia: false,
        wikidata: false,
        lrclib: false,
        theaudiodb: false,
        lastfm: false,
        discogs: false,
        genius: false,
        config: ProviderConfig::defaults(),
    }
}

impl MetadataOnlinePlugin {
    /// As it is before it is loaded.
    pub open spec fn is_bare(&self) -> bool {
        &&& !self.loaded
        &&& self.config@ == default_config()
        &&& self.catalogue == no_clients()
        &&& self.reconcile_cache is None
        &&& self.lyrics_cache is None
        &&& self.bio_cache is None
        &&& self.notes_cache is None
        &&& self.credits_cache is None
        &&& self.annotation_cache is None
        &&& self.work_notes_cache is None
    }

    /// Whether the cache that a verb needs is there. Reconciliation does without.
    pub open spec fn has_cache(&self, verb: Verb) -> bool {
        match verb {
            Verb::ReconcileRelease => true,
            Verb::BrowseByRecordingType => self.reconcile_cache is Some,
            Verb::QueryLyrics => self.lyrics_cache is Some,
            Verb::QueryArtistBio => self.bio_cache is Some,
            Verb::QueryAlbumNotes => self.notes_cache is Some,
            Verb::QueryReleaseCredits => self.credits_cache is Some,
            Verb::QueryTrackAnnotation => self.annotation_cache is Some,
            Verb::QueryWorkNotes => self.work_notes_cache is Some,
        }
    }

    /// A loaded plugin has every anonymous provider's client and every cache.
    pub open spec fn well_formed(&self) -> bool {
        self.loaded ==> {
            &&& forall|p: ProviderId| p.class() is Anonymous ==> #[trigger] self.catalogue.has(p)
            &&& forall|v: Verb| #[trigger] self.has_cache(v)
        }
    }

    /// The plugin as a load leaves it.
    pub open spec fn is_loaded_from(&self, inputs: LoadInputs) -> bool {
        let dir = inputs.state_dir@;
        let ttl = inputs.config.negative_ttl_secs;
        &&& self.loaded
        &&& self.config == inputs.config
        &&& self.catalogue == (ProviderCatalogue {
            musicbrainz: true,
            wikipedia: true,
            wikidata: true,
            lrclib: true,
            theaudiodb: true,
            lastfm: inputs.lastfm,
            discogs: inputs.discogs,
            genius: inputs.genius,
            config: loaded_choice(inputs.config.provider_config, inputs.store),
        })
        &&& self.reconcile_cache is Some
        &&& self.reconcile_cache->Some_0.root@ == inside(dir, "reconcile_cache"@)
        &&& self.reconcile_cache->Some_0.negative_ttl_secs == ttl
        &&& is_cache_of(self.lyrics_cache, dir, "lyrics_cache"@, ttl)
        &&& is_cache_of(self.bio_cache, dir, "bio_cache"@, ttl)
        &&& is_cache_of(self.notes_cache, dir, "album_notes_cache"@, ttl)
        &&& is_cache_of(self.credits_cache, dir, "release_credits_cache"@, ttl)
        &&& is_cache_of(self.annotation_cache, dir, "track_annotation_cache"@, ttl)
        &&& is_cache_of(self.work_notes_cache, dir, "work_notes_cache"@, ttl)
    }

    /// A plugin that has not been loaded.
    pub fn new() -> (r: MetadataOnlinePlugin)
        ensures
            r.is_bare(),
            r.well_formed(),
            r.requests_handled == 0,
    {
        MetadataOnlinePlugin {
            loaded: false,
            config: PluginConfig::defaults(),
            catalogue: empty_catalogue(),
            reconcile_cache: None,
            lyrics_cache: None,
            bio_cache: None,
            notes_cache: None,
            credits_cache: None,
            annotation_cache: None,
            work_notes_cache: None,
            requests_handled: 0,
        }
    }

    /// How many requests were handled.
    pub fn requests_handled(&self) -> (r: u64)
        ensures
            r == self.requests_handled,
    {
        self.requests_handled
    }

    /// Loads the plugin, or says why its configuration is refused; a refusal
    /// leaves the plugin as it was.
    pub fn load(&mut self, inputs: Result<LoadInputs, String>) -> (r: Result<(), PluginError>)
        ensures
            match inputs {
                Ok(inputs) => {
                    &&& r is Ok
                    &&& final(self).is_loaded_from(inputs)
                    &&& final(self).well_formed()
                    &&& final(self).requests_handled == old(self).requests_handled
                },
                Err(e) => {
                    &&& r is Err
                    &&& r->Err_0@ == ErrorModel::Permanent("invalid plugin config: "@ + e@)
                    &&& *final(self) == *old(self)
                },
            },
    {
        let inputs = match inputs {
            Ok(i) => i,
            Err(e) => {
                return Err(permanent_with("invalid plugin config: ", e.as_str()));
            },
        };
        let dir = inputs.state_dir.as_str();
        let ttl: u64 = inputs.config.negative_ttl_secs;
        let mut choice = inputs.config.provider_config;
        if let Some(Ok(rows)) = &inputs.store {
            apply_rows(&mut choice, rows);
        }
        self.catalogue = ProviderCatalogue {
            musicbrainz: true,
            wikipedia: true,
            wikidata: true,
            lrclib: true,
            theaudiodb: true,
            lastfm: inputs.lastfm,
            discogs: inputs.discogs,
            genius: inputs.genius,
            config: choice,
        };
        self.reconcile_cache = Some(ReconcileCache::new(path_inside(dir, "reconcile_cache"), ttl));
        self.lyrics_cache = Some(EnrichmentCache::new(path_inside(dir, "lyrics_cache"), ttl));
        self.bio_cache = Some(EnrichmentCache::new(path_inside(dir, "bio_cache"), ttl));
        self.notes_cache = Some(EnrichmentCache::new(path_inside(dir, "album_notes_cache"), ttl));
        self.credits_cache = Some(
            EnrichmentCache::new(path_inside(dir, "release_credits_cache"), ttl),
        );
        self.annotation_cache = Some(
            EnrichmentCache::new(path_inside(dir, "track_annotation_cache"), ttl),
        );
        self.work_notes_cache = Some(
            EnrichmentCache::new(path_inside(dir, "work_notes_cache"), ttl),
        );
        self.config = inputs.config;
        self.loaded = true;
        Ok(())
    }

    /// Drops clients and caches, and returns to the defaults. The count stays.
    pub fn unload(&mut self)
        ensures
            final(self).is_bare(),
            final(self).well_formed(),
            final(self).requests_handled == old(self).requests_handled,
    {
        self.loaded = false;
        self.config = PluginConfig::defaults();
        self.catalogue = empty_catalogue();
        self.reconcile_cache = None;
        self.lyrics_cache = None;
        self.bio_cache = None;
        self.notes_cache = None;
        self.credits_cache = None;
        self.annotation_cache = None;
        self.work_notes_cache = None;
    }

    /// Why the plugin is unhealthy; none when it is healthy.
    pub fn health(&self) -> (r: Option<String>)
        ensures
            self.loaded ==> r is None,
            !self.loaded ==> r is Some && r->Some_0@ == "metadata online plugin not loaded"@,
    {
        if self.loaded {
            None
        } else {
            Some("metadata online plugin not loaded".to_owned())
        }
    }

    /// Takes in whether a keyed provider has a client now.
    pub fn set_client(&mut self, provider: KeyedProvider, present: bool)
        requires
            old(self).well_formed(),
        ensures
            final(self).well_formed(),
            final(self).catalogue == (match provider {
                KeyedProvider::Lastfm => ProviderCatalogue {
                    lastfm: present,
                    ..old(self).catalogue
                },
                KeyedProvider::Discogs => ProviderCatalogue {
                    discogs: present,
                    ..old(self).catalogue
                },
                KeyedProvider::Genius => ProviderCatalogue {
                    genius: present,
                    ..old(self).catalogue
                },
            }),
            *final(self) == (MetadataOnlinePlugin {
                catalogue: final(self).catalogue,
                ..*old(self)
            }),
    {
        match provider {
            KeyedProvider::Lastfm => self.catalogue.lastfm = present,
            KeyedProvider::Discogs => self.catalogue.discogs = present,
            KeyedProvider::Genius => self.catalogue.genius = present,
        }
        assert forall|p: ProviderId| self.loaded && p.class() is Anonymous implies (
        #[trigger] self.catalogue.has(p)) by {
            assert(old(self).catalogue.has(p));
        }
        assert forall|v: Verb| self.loaded implies #[trigger] self.has_cache(v) by {
            assert(old(self).has_cache(v));
        }
    }

    /// Takes in a change of the operator's choice.
    pub fn on_provider_change(&mut self, row: &ProviderRow)
        requires
            old(self).well_formed(),
        ensures
            final(self).well_formed(),
            final(self).catalogue == (ProviderCatalogue {
                config: with_row(old(self).catalogue.config, *row),
                ..old(self).catalogue
            }),
            *final(self) == (MetadataOnlinePlugin {
                catalogue: final(self).catalogue,
                ..*old(self)
            }),
    {
        let mut choice = self.catalogue.config;
        apply_row(&mut choice, row);
        self.catalogue.config = choice;
        assert forall|p: ProviderId| self.loaded && p.class() is Anonymous implies (
        #[trigger] self.catalogue.has(p)) by {
            assert(old(self).catalogue.has(p));
        }
        assert forall|v: Verb| self.loaded implies #[trigger] self.has_cache(v) by {
            assert(old(self).has_cache(v));
        }
    }

    /// Which verb a request runs, if the plugin takes it. A request counts as
    /// handled unless the plugin is not loaded or the deadline has passed.
    pub fn accept_request(&mut self, request_type: &str, past_deadline: bool) -> (r: Result<
        Verb,
        PluginError,
    >)
        ensures
            *final(self) == (MetadataOnlinePlugin {
                requests_handled: if old(self).loaded && !past_deadline {
                    old(self).requests_handled.wrapping_add(1)
                } else {
                    old(self).requests_handled
                },
                ..*old(self)
            }),
            if !old(self).loaded {
                r is Err && r->Err_0@ == ErrorModel::Permanent("metadata online plugin not loaded"@)
            } else if past_deadline {
                r is Err && r->Err_0@ == ErrorModel::Transient("request deadline already expired"@)
            } else if !verb_names().contains(request_type@) {
                r is Err && r->Err_0@ == ErrorModel::Permanent(
                    "unknown request type: "@ + debug_quoted(request_type@) + " (not one of: "@
                        + debug_list_of(verb_names()) + ")"@,
                )
            } else {
                match r {
                    Ok(v) => v.name() == request_type@ && old(self).has_cache(v),
                    Err(e) => exists|v: Verb| #[trigger]
                        v.name() == request_type@ && !old(self).has_cache(v) && e@
                            == ErrorModel::Permanent(missing_cache(v)),
                }
            },
            old(self).well_formed() ==> final(self).well_formed(),
    {
        if !self.loaded {
            return Err(permanent("metadata online plugin not loaded"));
        }
        if past_deadline {
            return Err(PluginError::Transient("request deadline already expired".to_owned()));
        }
        self.requests_handled = self.requests_handled.wrapping_add(1);
        assert forall|v: Verb| old(self).well_formed() implies #[trigger] self.has_cache(v) by {
            assert(old(self).has_cache(v));
        }
        match find_verb(request_type) {
            Some(v) => {
                proof {
                    lemma_name_is_listed(v);
                }
                self.with_cache(v)
            },
            None => {
                let mut m = joined("unknown request type: ", debug_text(request_type).as_str());
                m.append(" (not one of: ");
                m.append(debug_list(&request_types()).as_str());
                m.append(")");
                Err(PluginError::Permanent(m))
            },
        }
    }

    /// A verb, if the cache it needs is there.
    fn with_cache(&self, verb: Verb) -> (r: Result<Verb, PluginError>)
        ensures
            self.has_cache(verb) ==> r == Ok::<Verb, PluginError>(verb),
            !self.has_cache(verb) ==> r is Err && r->Err_0@ == ErrorModel::Permanent(
                missing_cache(verb),
            ),
    {
        let (there, complaint) = match verb {
            Verb::ReconcileRelease => (true, ""),
            Verb::BrowseByRecordingType => (
                self.reconcile_cache.is_some(),
                "reconcile cache not wired at load \u{2014} cannot serve library.browse_by_recording_type",
            ),
            Verb::QueryLyrics => (self.lyrics_cache.is_some(), "lyrics cache not wired at load"),
            Verb::QueryArtistBio => (self.bio_cache.is_some(), "bio cache not wired at load"),
            Verb::QueryAlbumNotes => (self.notes_cache.is_some(), "notes cache not wired at load"),
            Verb::QueryReleaseCredits => (
                self.credits_cache.is_some(),
                "credits cache not wired at load",
            ),
            Verb::QueryTrackAnnotation => (
                self.annotation_cache.is_some(),
                "annotation cache not wired at load",
            ),
            Verb::QueryWorkNotes => (
                self.work_notes_cache.is_some(),
                "work-notes cache not wired at load",
            ),
        };
        if there {
            Ok(verb)
        } else {
            Err(permanent(complaint))
        }
    }
}

impl Default for MetadataOnlinePlugin {
    fn default() -> (r: MetadataOnlinePlugin)
        ensures
            r.is_bare(),
            r.well_formed(),
            r.requests_handled == 0,
    {
        MetadataOnlinePlugin::new()
    }
}

/// A loaded plugin asks an anonymous provider exactly when the operator's choice
/// and the privacy mode permit it.
pub proof fn law_anonymous_providers_are_at_hand(plugin: MetadataOnlinePlugin, p: ProviderId)
    requires
        plugin.well_formed(),
        plugin.loaded,
        p.class() is Anonymous,
    ensures
        plugin.catalogue.asks(p) == plugin.catalogue.config.permits(p),
{
    assert(plugin.catalogue.has(p));
}

/// A missing key silences no verb: as long as Wikipedia may be asked, or for
/// credits MusicBrainz, the verb is served, whatever keyed clients there are.
pub proof fn law_missing_keys_silence_no_verb(c: ProviderCatalogue)
    ensures
        c.asks(ProviderId::Wikipedia) ==> has_bio_provider(c) && has_notes_provider(c)
            && has_annotation_provider(c) && has_work_provider(c),
        c.asks(ProviderId::MusicBrainz) ==> has_credits_provider(c),
{
}

/// Within a verb, what one provider's entries are kept under never serves another
/// provider.
pub proof fn law_entries_name_their_provider(
    artist: Seq<char>,
    title: Seq<char>,
    other_artist: Seq<char>,
    other_title: Seq<char>,
    m: WorkModel,
    n: WorkModel,
    p: ProviderId,
    q: ProviderId,
)
    requires
        p != q,
    ensures
        notes_key_parts(artist, title, p) != notes_key_parts(other_artist, other_title, q),
        credits_key_parts(artist, title, p) != credits_key_parts(other_artist, other_title, q),
        work_key_parts(m, p) != work_key_parts(n, q),
{
    crate::metadata::cascade::law_provider_names_round_trip(p);
    crate::metadata::cascade::law_provider_names_round_trip(q);
    assert(notes_key_parts(artist, title, p)[4] != notes_key_parts(other_artist, other_title, q)[4]);
    assert(credits_key_parts(artist, title, p)[4] != credits_key_parts(
        other_artist,
        other_title,
        q,
    )[4]);
    assert(work_key_parts(m, p)[3] != work_key_parts(n, q)[3]);
}

/// The vault's key comes first; without one the configuration file's is used, and
/// moved into the vault where there is one. Bytes that are not text are no key.
pub proof fn law_the_vault_comes_first(fetched: Option<Fetched>, legacy: Option<Seq<char>>)
    ensures
        ({
            let r = resolved(fetched, legacy);
            let held = fetched matches Some(Ok(Some(bytes))) && valid_utf8(bytes@);
            &&& held ==> r.key == Some(decode_utf8(fetched->Some_0->Ok_0->Some_0@)) && r.migrate
                is None
            &&& !held ==> r.key == legacy
            &&& !held && fetched is Some && legacy is Some ==> r.migrate == Some(
                encode_utf8(legacy->Some_0),
            )
            &&& fetched is None || legacy is None ==> r.migrate is None
        }),
{
}

/// Every changed key that a provider uses calls for its step, in the order of the
/// keys: a deleted one takes the client away, and one that was put has it fetched
/// anew. Other keys call for nothing.
pub proof fn law_every_changed_key_is_acted_on(
    kind: CredentialChangeKind,
    keys: Seq<Seq<char>>,
    provider: KeyedProvider,
    other: Seq<char>,
)
    ensures
        steps_for(kind, keys.push(provider.key_name())) == steps_for(kind, keys).push(
            if kind is Delete {
                CredentialStep::Drop(provider)
            } else {
                CredentialStep::Fetch(provider)
            },
        ),
        KeyedProvider::of_key(other) is None ==> steps_for(kind, keys.push(other)) == steps_for(
            kind,
            keys,
        ),
{
    law_credentials_are_told_apart(provider, ProviderId::Lastfm);
    assert(keys.push(provider.key_name()).drop_last() =~= keys);
    assert(keys.push(other).drop_last() =~= keys);
}

/// Each provider is asked at its own pace: LRCLIB and Last.fm at theirs, Discogs
/// and Genius at a fixed one, and the rest no faster than MusicBrainz.
pub proof fn law_providers_have_their_pace(config: ConfigModel, p: ProviderId)
    ensures
        p is Lrclib ==> interval_of(config, p) == config.lrclib_min_interval_ms,
        p is Lastfm ==> interval_of(config, p) == config.lastfm_min_interval_ms,
        p is Discogs ==> interval_of(config, p) == 1000,
        p is Genius ==> interval_of(config, p) == 250,
        p is MusicBrainz || p is Wikipedia || p is Wikidata || p is TheAudioDb ==> interval_of(
            config,
            p,
        ) == config.musicbrainz_min_interval_ms,
{
}

proof fn lemma_inside_is_told_apart(dir: Seq<char>, a: Seq<char>, b: Seq<char>)
    requires
        a != b,
    ensures
        inside(dir, a) != inside(dir, b),
{
    let head = if dir.len() == 0 || dir.last() == '/' {
        dir
    } else {
        dir + "/"@
    };
    assert(inside(dir, a) == head + a && inside(dir, b) == head + b);
    if head + a == head + b {
        assert((head + a).skip(head.len() as int) =~= a);
        assert((head + b).skip(head.len() as int) =~= b);
    }
}

/// A loaded plugin keeps the answers of each verb in a directory of its own, for the
/// configured time, has a client for every anonymous provider, and one for a keyed
/// provider exactly where a credential made it.
pub proof fn law_a_load_sets_everything_up(plugin: MetadataOnlinePlugin, inputs: LoadInputs)
    requires
        plugin.is_loaded_from(inputs),
    ensures
        ({
            let roots = seq![
                plugin.reconcile_cache->Some_0.root@,
                plugin.lyrics_cache->Some_0.root@,
                plugin.bio_cache->Some_0.root@,
                plugin.notes_cache->Some_0.root@,
                plugin.credits_cache->Some_0.root@,
                plugin.annotation_cache->Some_0.root@,
                plugin.work_notes_cache->Some_0.root@,
            ];
            &&& forall|i: int, j: int|
                0 <= i < j < roots.len() ==> #[trigger] roots[i] != #[trigger] roots[j]
            &&& plugin.lyrics_cache->Some_0.negative_ttl_secs == inputs.config.negative_ttl_secs
            &&& plugin.bio_cache->Some_0.negative_ttl_secs == inputs.config.negative_ttl_secs
            &&& plugin.reconcile_cache->Some_0.negative_ttl_secs
                == inputs.config.negative_ttl_secs
        }),
        forall|p: ProviderId| p.class() is Anonymous ==> #[trigger] plugin.catalogue.has(p),
        plugin.catalogue.has(ProviderId::Lastfm) == inputs.lastfm,
        plugin.catalogue.has(ProviderId::Discogs) == inputs.discogs,
        plugin.catalogue.has(ProviderId::Genius) == inputs.genius,
        forall|v: Verb| #[trigger] plugin.has_cache(v),
{
    reveal_strlit("reconcile_cache");
    reveal_strlit("lyrics_cache");
    reveal_strlit("bio_cache");
    reveal_strlit("album_notes_cache");
    reveal_strlit("release_credits_cache");
    reveal_strlit("track_annotation_cache");
    reveal_strlit("work_notes_cache");
    let names = seq![
        "reconcile_cache"@,
        "lyrics_cache"@,
        "bio_cache"@,
        "album_notes_cache"@,
        "release_credits_cache"@,
        "track_annotation_cache"@,
        "work_notes_cache"@,
    ];
    let dir = inputs.state_dir@;
    let roots = seq![
        plugin.reconcile_cache->Some_0.root@,
        plugin.lyrics_cache->Some_0.root@,
        plugin.bio_cache->Some_0.root@,
        plugin.notes_cache->Some_0.root@,
        plugin.credits_cache->Some_0.root@,
        plugin.annotation_cache->Some_0.root@,
        plugin.work_notes_cache->Some_0.root@,
    ];
    assert(names[0].len() == 15 && names[1].len() == 12 && names[2].len() == 9 && names[3].len()
        == 17 && names[4].len() == 21 && names[5].len() == 22 && names[6].len() == 16);
    assert forall|i: int, j: int| 0 <= i < j < roots.len() implies #[trigger] roots[i]
        != #[trigger] roots[j] by {
        assert(roots[i] == inside(dir, names[i]));
        assert(roots[j] == inside(dir, names[j]));
        assert(names[i].len() != names[j].len());
        lemma_inside_is_told_apart(dir, names[i], names[j]);
    }
}

/// At load the store's rows outrank the configuration file, provider by provider;
/// without rows that can be read the file alone decides.
pub proof fn law_the_store_outranks_the_file(
    config: ProviderConfig,
    rows: Vec<ProviderRow>,
    i: int,
    provider: ProviderId,
    e: String,
)
    requires
        0 <= i < rows@.len(),
        ProviderId::of_name(rows@[i].provider_id@) == Some(provider),
        forall|j: int|
            i < j < rows@.len() ==> ProviderId::of_name((#[trigger] rows@[j]).provider_id@) != Some(
                provider,
            ),
    ensures
        loaded_choice(config, Some(Ok(rows))).choice(provider).enabled == rows@[i].enabled,
        loaded_choice(config, Some(Err(e))) == config,
        loaded_choice(config, None) == config,
{
    law_the_last_row_decides(config, rows@, i, provider);
}

/// A file stands in its directory, whether or not the directory's path ends with a
/// slash.
pub proof fn law_files_stand_in_their_directory(dir: Seq<char>, name: Seq<char>)
    ensures
        dir.len() > 0 && dir.last() != '/' ==> inside(dir, name) == dir + "/"@ + name,
        dir.len() > 0 && dir.last() != '/' ==> inside(dir + "/"@, name) == inside(dir, name),
        inside(Seq::empty(), name) == name,
{
    reveal_strlit("/");
    assert((dir + "/"@).last() == '/');
    assert(Seq::<char>::empty() + name =~= name);
}

/// A plugin that has not been loaded has no clients and no caches: it can ask nobody.
pub proof fn law_a_bare_plugin_asks_nobody(plugin: MetadataOnlinePlugin)
    requires
        plugin.is_bare(),
    ensures
        !plugin.loaded,
        forall|p: ProviderId| !#[trigger] plugin.catalogue.has(p),
        forall|v: Verb| #[trigger] plugin.has_cache(v) ==> v is ReconcileRelease,
{
}

} // verus!
