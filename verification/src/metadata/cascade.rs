//! The provider cascade: which providers there are, which of them may be asked,
//! in what order their answers stand, and what a response says.
//!
//! Anonymous providers need no account; identity-bearing ones tie a query to an
//! account of the operator. The operator enables and orders providers one by one;
//! the device's privacy mode overrides that choice and cannot be bypassed.

use crate::json::{array, models, number, text, Json, JsonModel, ObjectWriter};
use crate::json::{number_model, opt_text, opt_text_model, opt_view, with_member, with_text};
use crate::json::{lemma_key_tags, lemma_last_member_push, lemma_two_members, member};
use crate::metadata::order::{
    is_stable_order, law_sorting_is_stable, picked, sorted_from, stable_order, stable_sort,
};
use crate::text::decimal_of;
use crate::text::{
    ascii_lower, chars_of, clone_opt, is_text, same_text, to_ascii_lower, trim, trim_of,
};
use vstd::prelude::*;

verus! {

// ---------------------------------------------------------------------
// Entities
// ---------------------------------------------------------------------

/// What kind of thing is enriched.
#[derive(Debug, Clone, Copy, PartialEq, Eq, Structural)]
pub enum EntityType {
    Artist,
    Composer,
    Work,
    Performer,
    Conductor,
    Ensemble,
}

impl EntityType {
    /// The wire name.
    pub open spec fn name(self) -> Seq<char> {
        match self {
            EntityType::Artist => "artist"@,
            EntityType::Composer => "composer"@,
            EntityType::Work => "work"@,
            EntityType::Performer => "performer"@,
            EntityType::Conductor => "conductor"@,
            EntityType::Ensemble => "ensemble"@,
        }
    }

    /// The wire name.
    pub fn as_str(self) -> (r: &'static str)
        ensures
            r@ == self.name(),
    {
        match self {
            EntityType::Artist => "artist",
            EntityType::Composer => "composer",
            EntityType::Work => "work",
            EntityType::Performer => "performer",
            EntityType::Conductor => "conductor",
            EntityType::Ensemble => "ensemble",
        }
    }
}

/// A named entity, with its MusicBrainz identifier where the caller knows it.
#[derive(Debug, PartialEq, Eq)]
pub struct EntityRef {
    pub entity_type: EntityType,
    pub name: String,
    pub mbid: Option<String>,
}

// ---------------------------------------------------------------------
// Providers
// ---------------------------------------------------------------------

/// A provider.
#[derive(Debug, Clone, Copy, PartialEq, Eq, Structural)]
pub enum ProviderId {
    MusicBrainz,
    Wikipedia,
    Wikidata,
    Lrclib,
    TheAudioDb,
    Lastfm,
    Discogs,
    Genius,
}

/// Whether a provider needs credentials of the operator.
#[derive(Debug, Clone, Copy, PartialEq, Eq, Structural)]
pub enum PrivacyClass {
    Anonymous,
    IdentityBearing,
}

impl PrivacyClass {
    /// The wire name.
    pub open spec fn name(self) -> Seq<char> {
        match self {
            PrivacyClass::Anonymous => "anonymous"@,
            PrivacyClass::IdentityBearing => "identity_bearing"@,
        }
    }

    /// The wire name.
    pub fn as_str(self) -> (r: &'static str)
        ensures
            r@ == self.name(),
    {
        match self {
            PrivacyClass::Anonymous => "anonymous",
            PrivacyClass::IdentityBearing => "identity_bearing",
        }
    }
}

impl ProviderId {
    /// The wire name.
    pub open spec fn name(self) -> Seq<char> {
        match self {
            ProviderId::MusicBrainz => "musicbrainz"@,
            ProviderId::Wikipedia => "wikipedia"@,
            ProviderId::Wikidata => "wikidata"@,
            ProviderId::Lrclib => "lrclib"@,
            ProviderId::TheAudioDb => "theaudiodb"@,
            ProviderId::Lastfm => "lastfm"@,
            ProviderId::Discogs => "discogs"@,
            ProviderId::Genius => "genius"@,
        }
    }

    /// The wire name.
    pub fn as_str(self) -> (r: &'static str)
        ensures
            r@ == self.name(),
    {
        match self {
            ProviderId::MusicBrainz => "musicbrainz",
            ProviderId::Wikipedia => "wikipedia",
            ProviderId::Wikidata => "wikidata",
            ProviderId::Lrclib => "lrclib",
            ProviderId::TheAudioDb => "theaudiodb",
            ProviderId::Lastfm => "lastfm",
            ProviderId::Discogs => "discogs",
            ProviderId::Genius => "genius",
        }
    }

    /// The provider of a wire name.
    pub open spec fn of_name(id: Seq<char>) -> Option<ProviderId> {
        if id == "musicbrainz"@ {
            Some(ProviderId::MusicBrainz)
        } else if id == "wikipedia"@ {
            Some(ProviderId::Wikipedia)
        } else if id == "wikidata"@ {
            Some(ProviderId::Wikidata)
        } else if id == "lrclib"@ {
            Some(ProviderId::Lrclib)
        } else if id == "theaudiodb"@ {
            Some(ProviderId::TheAudioDb)
        } else if id == "lastfm"@ {
            Some(ProviderId::Lastfm)
        } else if id == "discogs"@ {
            Some(ProviderId::Discogs)
        } else if id == "genius"@ {
            Some(ProviderId::Genius)
        } else {
            None
        }
    }

    /// The provider of a wire name; none for a name that is not known.
    pub fn from_wire(id: &str) -> (r: Option<ProviderId>)
        ensures
            r == ProviderId::of_name(id@),
    {
        if same_text(id, "musicbrainz") {
            Some(ProviderId::MusicBrainz)
        } else if same_text(id, "wikipedia") {
            Some(ProviderId::Wikipedia)
        } else if same_text(id, "wikidata") {
            Some(ProviderId::Wikidata)
        } else if same_text(id, "lrclib") {
            Some(ProviderId::Lrclib)
        } else if same_text(id, "theaudiodb") {
            Some(ProviderId::TheAudioDb)
        } else if same_text(id, "lastfm") {
            Some(ProviderId::Lastfm)
        } else if same_text(id, "discogs") {
            Some(ProviderId::Discogs)
        } else if same_text(id, "genius") {
            Some(ProviderId::Genius)
        } else {
            None
        }
    }

    /// Whether queries are tied to an account.
    pub open spec fn class(self) -> PrivacyClass {
        match self {
            ProviderId::Lastfm | ProviderId::Discogs | ProviderId::Genius => {
                PrivacyClass::IdentityBearing
            },
            _ => PrivacyClass::Anonymous,
        }
    }

    /// Whether queries are tied to an account.
    pub fn privacy_class(self) -> (r: PrivacyClass)
        ensures
            r == self.class(),
    {
        match self {
            ProviderId::Lastfm | ProviderId::Discogs | ProviderId::Genius => {
                PrivacyClass::IdentityBearing
            },
            _ => PrivacyClass::Anonymous,
        }
    }
}

/// Different sorts of entity have different wire names.
pub proof fn law_entity_names_are_distinct(a: EntityType, b: EntityType)
    ensures
        a.name() == b.name() ==> a == b,
{
    reveal_strlit("artist");
    reveal_strlit("composer");
    reveal_strlit("work");
    reveal_strlit("performer");
    reveal_strlit("conductor");
    reveal_strlit("ensemble");
    assert("artist"@.len() == 6);
    assert("work"@.len() == 4);
    assert("composer"@.len() == 8 && "composer"@[0] == 'c');
    assert("ensemble"@.len() == 8 && "ensemble"@[0] == 'e');
    assert("performer"@.len() == 9 && "performer"@[0] == 'p');
    assert("conductor"@.len() == 9 && "conductor"@[0] == 'c');
}

/// A provider's wire name names it again.
pub proof fn law_provider_names_round_trip(p: ProviderId)
    ensures
        ProviderId::of_name(p.name()) == Some(p),
{
    reveal_strlit("musicbrainz");
    reveal_strlit("wikipedia");
    reveal_strlit("wikidata");
    reveal_strlit("lrclib");
    reveal_strlit("theaudiodb");
    reveal_strlit("lastfm");
    reveal_strlit("discogs");
    reveal_strlit("genius");
    assert("musicbrainz"@.len() == 11);
    assert("wikipedia"@.len() == 9);
    assert("wikidata"@.len() == 8);
    assert("lrclib"@.len() == 6 && "lrclib"@[0] == 'l' && "lrclib"@[1] == 'r');
    assert("theaudiodb"@.len() == 10);
    assert("lastfm"@.len() == 6 && "lastfm"@[1] == 'a');
    assert("discogs"@.len() == 7);
    assert("genius"@.len() == 6 && "genius"@[0] == 'g');
}

// ---------------------------------------------------------------------
// Selection
// ---------------------------------------------------------------------

/// The operator's choice for one provider.
#[derive(Debug, Clone, Copy, PartialEq, Eq, Structural)]
pub struct ProviderFlags {
    pub enabled: bool,
    /// Lower comes first.
    pub priority: u32,
}

/// The device's privacy mode.
#[derive(Debug, Clone, Copy, PartialEq, Eq, Structural)]
pub enum PrivacyMode {
    /// The operator's choice stands.
    Enhanced,
    /// No identity-bearing provider is asked.
    AnonymousOnly,
    /// No provider is asked.
    Offline,
}

impl PrivacyMode {
    /// The mode of a wire name, whatever its case and surrounding whitespace.
    pub open spec fn of_name(s: Seq<char>) -> Option<PrivacyMode> {
        let name = ascii_lower(trim_of(s));
        if name == "enhanced"@ {
            Some(PrivacyMode::Enhanced)
        } else if name == "anonymous_only"@ {
            Some(PrivacyMode::AnonymousOnly)
        } else if name == "offline"@ {
            Some(PrivacyMode::Offline)
        } else {
            None
        }
    }

    /// The mode of a wire name, whatever its case and surrounding whitespace.
    pub fn parse_wire(s: &str) -> (r: Option<PrivacyMode>)
        ensures
            r == PrivacyMode::of_name(s@),
    {
        let name = to_ascii_lower(trim(chars_of(s).as_slice()));
        if is_text(name.as_slice(), "enhanced") {
            Some(PrivacyMode::Enhanced)
        } else if is_text(name.as_slice(), "anonymous_only") {
            Some(PrivacyMode::AnonymousOnly)
        } else if is_text(name.as_slice(), "offline") {
            Some(PrivacyMode::Offline)
        } else {
            None
        }
    }
}

/// The operator's choice for every provider, under the device's privacy mode.
#[derive(Debug, Clone, Copy, PartialEq, Eq, Structural)]
pub struct ProviderConfig {
    pub musicbrainz: ProviderFlags,
    pub wikipedia: ProviderFlags,
    pub wikidata: ProviderFlags,
    pub lrclib: ProviderFlags,
    pub theaudiodb: ProviderFlags,
    pub lastfm: ProviderFlags,
    pub discogs: ProviderFlags,
    pub genius: ProviderFlags,
    pub privacy_mode: PrivacyMode,
}

impl ProviderConfig {
    /// The choice for one provider.
    pub open spec fn choice(&self, provider: ProviderId) -> ProviderFlags {
        match provider {
            ProviderId::MusicBrainz => self.musicbrainz,
            ProviderId::Wikipedia => self.wikipedia,
            ProviderId::Wikidata => self.wikidata,
            ProviderId::Lrclib => self.lrclib,
            ProviderId::TheAudioDb => self.theaudiodb,
            ProviderId::Lastfm => self.lastfm,
            ProviderId::Discogs => self.discogs,
            ProviderId::Genius => self.genius,
        }
    }

    /// Whether a provider may be asked.
    pub open spec fn permits(&self, provider: ProviderId) -> bool {
        match self.privacy_mode {
            PrivacyMode::Enhanced => self.choice(provider).enabled,
            PrivacyMode::AnonymousOnly => provider.class() is Anonymous && self.choice(
                provider,
            ).enabled,
            PrivacyMode::Offline => false,
        }
    }

    /// Every provider enabled, anonymous ones first.
    pub open spec fn default_choice() -> ProviderConfig {
        ProviderConfig {
            musicbrainz: ProviderFlags { enabled: true, priority: 10 },
            wikipedia: ProviderFlags { enabled: true, priority: 20 },
            wikidata: ProviderFlags { enabled: true, priority: 30 },
            lrclib: ProviderFlags { enabled: true, priority: 40 },
            theaudiodb: ProviderFlags { enabled: true, priority: 45 },
            lastfm: ProviderFlags { enabled: true, priority: 50 },
            discogs: ProviderFlags { enabled: true, priority: 60 },
            genius: ProviderFlags { enabled: true, priority: 70 },
            privacy_mode: PrivacyMode::Enhanced,
        }
    }

    /// Every provider enabled, anonymous ones first.
    pub fn defaults() -> (r: ProviderConfig)
        ensures
            r == ProviderConfig::default_choice(),
    {
        ProviderConfig {
            musicbrainz: ProviderFlags { enabled: true, priority: 10 },
            wikipedia: ProviderFlags { enabled: true, priority: 20 },
            wikidata: ProviderFlags { enabled: true, priority: 30 },
            lrclib: ProviderFlags { enabled: true, priority: 40 },
            theaudiodb: ProviderFlags { enabled: true, priority: 45 },
            lastfm: ProviderFlags { enabled: true, priority: 50 },
            discogs: ProviderFlags { enabled: true, priority: 60 },
            genius: ProviderFlags { enabled: true, priority: 70 },
            privacy_mode: PrivacyMode::Enhanced,
        }
    }

    /// Whether a provider may be asked.
    pub fn is_effectively_enabled(&self, provider: ProviderId) -> (r: bool)
        ensures
            r == self.permits(provider),
    {
        match self.privacy_mode {
            PrivacyMode::Offline => false,
            PrivacyMode::AnonymousOnly => match provider.privacy_class() {
                PrivacyClass::Anonymous => self.flags(provider).enabled,
                PrivacyClass::IdentityBearing => false,
            },
            PrivacyMode::Enhanced => self.flags(provider).enabled,
        }
    }

    /// The choice for one provider.
    pub fn flags(&self, provider: ProviderId) -> (r: ProviderFlags)
        ensures
            r == self.choice(provider),
    {
        *self.flags_ref(provider)
    }

    /// The choice for one provider.
    pub fn flags_ref(&self, provider: ProviderId) -> (r: &ProviderFlags)
        ensures
            *r == self.choice(provider),
    {
        match provider {
            ProviderId::MusicBrainz => &self.musicbrainz,
            ProviderId::Wikipedia => &self.wikipedia,
            ProviderId::Wikidata => &self.wikidata,
            ProviderId::Lrclib => &self.lrclib,
            ProviderId::TheAudioDb => &self.theaudiodb,
            ProviderId::Lastfm => &self.lastfm,
            ProviderId::Discogs => &self.discogs,
            ProviderId::Genius => &self.genius,
        }
    }

    /// With another choice for one provider.
    pub open spec fn with_choice(
        self,
        provider: ProviderId,
        flags: ProviderFlags,
    ) -> ProviderConfig {
        match provider {
            ProviderId::MusicBrainz => ProviderConfig { musicbrainz: flags, ..self },
            ProviderId::Wikipedia => ProviderConfig { wikipedia: flags, ..self },
            ProviderId::Wikidata => ProviderConfig { wikidata: flags, ..self },
            ProviderId::Lrclib => ProviderConfig { lrclib: flags, ..self },
            ProviderId::TheAudioDb => ProviderConfig { theaudiodb: flags, ..self },
            ProviderId::Lastfm => ProviderConfig { lastfm: flags, ..self },
            ProviderId::Discogs => ProviderConfig { discogs: flags, ..self },
            ProviderId::Genius => ProviderConfig { genius: flags, ..self },
        }
    }

    /// With part of the choice for one provider overridden.
    pub open spec fn with_override(
        self,
        provider: ProviderId,
        enabled: Option<bool>,
        priority: Option<u32>,
    ) -> ProviderConfig {
        self.with_choice(provider, overridden(self.choice(provider), enabled, priority))
    }

    /// Replaces the choice for one provider.
    pub fn set_flags(&mut self, provider: ProviderId, flags: ProviderFlags)
        ensures
            *final(self) == old(self).with_choice(provider, flags),
    {
        match provider {
            ProviderId::MusicBrainz => self.musicbrainz = flags,
            ProviderId::Wikipedia => self.wikipedia = flags,
            ProviderId::Wikidata => self.wikidata = flags,
            ProviderId::Lrclib => self.lrclib = flags,
            ProviderId::TheAudioDb => self.theaudiodb = flags,
            ProviderId::Lastfm => self.lastfm = flags,
            ProviderId::Discogs => self.discogs = flags,
            ProviderId::Genius => self.genius = flags,
        }
    }

    /// Overrides what is given of the choice for one provider.
    pub fn merge_override(
        &mut self,
        provider: ProviderId,
        enabled: Option<bool>,
        priority: Option<u32>,
    )
        ensures
            *final(self) == old(self).with_override(provider, enabled, priority),
    {
        let mut flags = self.flags(provider);
        if let Some(e) = enabled {
            flags.enabled = e;
        }
        if let Some(p) = priority {
            flags.priority = p;
        }
        self.set_flags(provider, flags);
    }
}

/// A choice after an override: what the override leaves out stays.
pub open spec fn overridden(
    flags: ProviderFlags,
    enabled: Option<bool>,
    priority: Option<u32>,
) -> ProviderFlags {
    ProviderFlags {
        enabled: match enabled {
            Some(e) => e,
            None => flags.enabled,
        },
        priority: match priority {
            Some(p) => p,
            None => flags.priority,
        },
    }
}

/// An override changes what it gives of one provider's choice, and nothing else.
pub proof fn law_overrides_touch_one_provider(
    config: ProviderConfig,
    provider: ProviderId,
    enabled: Option<bool>,
    priority: Option<u32>,
    other: ProviderId,
)
    ensures
        ({
            let after = config.with_override(provider, enabled, priority);
            &&& after.privacy_mode == config.privacy_mode
            &&& other != provider ==> after.choice(other) == config.choice(other)
            &&& enabled is None ==> after.choice(provider).enabled == config.choice(
                provider,
            ).enabled
            &&& priority is None ==> after.choice(provider).priority == config.choice(
                provider,
            ).priority
            &&& enabled matches Some(e) ==> after.choice(provider).enabled == e
            &&& priority matches Some(p) ==> after.choice(provider).priority == p
        }),
{
}

/// Offline, no provider is asked, whatever the operator chose.
pub proof fn law_offline_asks_nobody(config: ProviderConfig, provider: ProviderId)
    requires
        config.privacy_mode is Offline,
    ensures
        !config.permits(provider),
{
}

/// In anonymous mode no identity-bearing provider is asked, and the operator's
/// choice for the anonymous ones stands.
pub proof fn law_anonymous_mode_asks_no_account(config: ProviderConfig, provider: ProviderId)
    requires
        config.privacy_mode is AnonymousOnly,
    ensures
        provider.class() is IdentityBearing ==> !config.permits(provider),
        provider.class() is Anonymous ==> config.permits(provider) == config.choice(
            provider,
        ).enabled,
{
}

/// A disabled provider is never asked, whatever the mode, and leaving a mode
/// restores the operator's choice.
pub proof fn law_the_choice_survives_the_mode(
    config: ProviderConfig,
    mode: PrivacyMode,
    provider: ProviderId,
)
    ensures
        !config.choice(provider).enabled ==> !config.permits(provider),
        (ProviderConfig { privacy_mode: mode, ..config }).choice(provider) == config.choice(
            provider,
        ),
        (ProviderConfig { privacy_mode: PrivacyMode::Enhanced, ..config }).permits(provider)
            == config.choice(provider).enabled,
{
}

/// Which providers this device has clients for, and the operator's choice.
#[derive(Debug, Clone, Copy)]
pub struct ProviderCatalogue {
    pub musicbrainz: bool,
    pub wikipedia: bool,
    pub wikidata: bool,
    pub lrclib: bool,
    pub theaudiodb: bool,
    pub lastfm: bool,
    pub discogs: bool,
    pub genius: bool,
    pub config: ProviderConfig,
}

impl ProviderCatalogue {
    /// Whether there is a client for a provider.
    pub open spec fn has(&self, provider: ProviderId) -> bool {
        match provider {
            ProviderId::MusicBrainz => self.musicbrainz,
            ProviderId::Wikipedia => self.wikipedia,
            ProviderId::Wikidata => self.wikidata,
            ProviderId::Lrclib => self.lrclib,
            ProviderId::TheAudioDb => self.theaudiodb,
            ProviderId::Lastfm => self.lastfm,
            ProviderId::Discogs => self.discogs,
            ProviderId::Genius => self.genius,
        }
    }

    /// Whether a provider may be asked and can be.
    pub open spec fn asks(&self, provider: ProviderId) -> bool {
        self.config.permits(provider) && self.has(provider)
    }

    /// Whether there is a client for a provider.
    pub fn is_available(&self, provider: ProviderId) -> (r: bool)
        ensures
            r == self.has(provider),
    {
        match provider {
            ProviderId::MusicBrainz => self.musicbrainz,
            ProviderId::Wikipedia => self.wikipedia,
            ProviderId::Wikidata => self.wikidata,
            ProviderId::Lrclib => self.lrclib,
            ProviderId::TheAudioDb => self.theaudiodb,
            ProviderId::Lastfm => self.lastfm,
            ProviderId::Discogs => self.discogs,
            ProviderId::Genius => self.genius,
        }
    }

    /// Whether a provider may be asked and can be.
    pub fn wants(&self, provider: ProviderId) -> (r: bool)
        ensures
            r == self.asks(provider),
    {
        self.config.is_effectively_enabled(provider) && self.is_available(provider)
    }
}

/// A disabled provider is never asked, whatever the privacy mode and whatever
/// clients there are.
pub proof fn law_disabled_providers_are_never_asked(c: ProviderCatalogue, provider: ProviderId)
    requires
        !c.config.choice(provider).enabled,
    ensures
        !c.asks(provider),
{
}

// ---------------------------------------------------------------------
// Order
// ---------------------------------------------------------------------

/// The priorities of providers.
pub open spec fn priorities(providers: Seq<ProviderId>, config: ProviderConfig) -> Seq<u64> {
    Seq::new(providers.len(), |i: int| config.choice(providers[i]).priority as u64)
}

/// Providers by priority, lowest first; equal priorities keep their places.
pub fn ordered_by_priority(providers: &[ProviderId], config: &ProviderConfig) -> (r: Vec<
    ProviderId,
>)
    ensures
        is_stable_order(
            stable_order(priorities(providers@, *config)),
            priorities(providers@, *config),
        ),
        r@ == picked(providers@, stable_order(priorities(providers@, *config))),
{
    let mut r: Vec<ProviderId> = Vec::new();
    let mut keys: Vec<u64> = Vec::new();
    let n: usize = providers.len();
    for i in 0..n
        invariant
            n == providers@.len(),
            r@ == providers@.take(i as int),
            keys@.len() == i,
            forall|k: int| 0 <= k < i ==> keys@[k] == priorities(providers@, *config)[k],
    {
        assert(providers@.take(i + 1) =~= providers@.take(i as int).push(providers@[i as int]));
        r.push(providers[i]);
        keys.push(config.flags(providers[i]).priority as u64);
    }
    assert(providers@.take(n as int) =~= providers@);
    assert(keys@ =~= priorities(providers@, *config));
    stable_sort(&mut r, &keys);
    r
}

/// Behind every priority.
pub const UNKNOWN_PROVIDER_RANK: u64 = 4_294_967_296;

/// Where a source stands: by its provider's priority; unknown providers last.
pub open spec fn source_rank(provider_id: Seq<char>, config: ProviderConfig) -> u64 {
    match ProviderId::of_name(provider_id) {
        Some(p) => config.choice(p).priority as u64,
        None => UNKNOWN_PROVIDER_RANK,
    }
}

/// Where sources stand.
pub open spec fn source_ranks(sources: Seq<SourceModel>, config: ProviderConfig) -> Seq<u64> {
    Seq::new(sources.len(), |i: int| source_rank(sources[i].provider_id, config))
}

/// Sources in the operator's order.
pub open spec fn in_operator_order(sources: Seq<SourceModel>, config: ProviderConfig) -> Seq<
    SourceModel,
> {
    picked(sources, stable_order(source_ranks(sources, config)))
}

/// Sorts sources into the operator's order; ties keep their places, and sources of
/// unknown providers stand behind all others, in the order they had.
pub fn sort_sources_by_priority(sources: &mut Vec<SourceEntry>, config: &ProviderConfig)
    ensures
        source_views(final(sources)@) == in_operator_order(source_views(old(sources)@), *config),
        is_stable_order(
            stable_order(source_ranks(source_views(old(sources)@), *config)),
            source_ranks(source_views(old(sources)@), *config),
        ),
        forall|i: int, j: int|
            0 <= i < j < final(sources)@.len() && ProviderId::of_name(
                (#[trigger] final(sources)@[i]).provider_id@,
            ) is None ==> ProviderId::of_name((#[trigger] final(sources)@[j]).provider_id@) is None,
{
    let ghost before = sources@;
    let mut keys: Vec<u64> = Vec::new();
    let n: usize = sources.len();
    for i in 0..n
        invariant
            sources@ == before,
            n == before.len(),
            keys@.len() == i,
            forall|k: int|
                0 <= k < i ==> keys@[k] == source_ranks(source_views(before), *config)[k],
    {
        let rank: u64 = match ProviderId::from_wire(sources[i].provider_id.as_str()) {
            Some(p) => config.flags(p).priority as u64,
            None => UNKNOWN_PROVIDER_RANK,
        };
        keys.push(rank);
    }
    assert(keys@ =~= source_ranks(source_views(before), *config));
    stable_sort(sources, &keys);
    assert(source_views(sources@) =~= in_operator_order(source_views(before), *config));
    proof {
        let ranks = source_ranks(source_views(before), *config);
        let idx = stable_order(ranks);
        assert forall|i: int, j: int|
            0 <= i < j < sources@.len() && ProviderId::of_name(
                (#[trigger] sources@[i]).provider_id@,
            ) is None implies ProviderId::of_name((#[trigger] sources@[j]).provider_id@) is None by {
            assert(sources@[i] == before[idx[i]] && sources@[j] == before[idx[j]]);
            assert(ranks[idx[i]] <= ranks[idx[j]]);
        }
    }
}

// ---------------------------------------------------------------------
// Responses
// ---------------------------------------------------------------------

/// Where content comes from and under what terms.
#[derive(Debug, PartialEq, Eq)]
pub struct Attribution {
    pub source_name: String,
    pub source_url: Option<String>,
    pub license: String,
}

/// What an [`Attribution`] says.
pub struct AttributionModel {
    pub source_name: Seq<char>,
    pub source_url: Option<Seq<char>>,
    pub license: Seq<char>,
}

impl View for Attribution {
    type V = AttributionModel;

    open spec fn view(&self) -> AttributionModel {
        AttributionModel {
            source_name: self.source_name@,
            source_url: opt_view(self.source_url),
            license: self.license@,
        }
    }
}

impl Attribution {
    /// A copy.
    pub fn copy(&self) -> (r: Attribution)
        ensures
            r@ == self@,
    {
        Attribution {
            source_name: self.source_name.clone(),
            source_url: clone_opt(&self.source_url),
            license: self.license.clone(),
        }
    }
}

/// A provider that would add to the answer if the operator enabled it.
#[derive(Debug, PartialEq, Eq)]
pub struct EnhancementHint {
    pub provider: String,
    pub requires_key: bool,
    pub reason: String,
}

/// What an [`EnhancementHint`] says.
pub struct HintModel {
    pub provider: Seq<char>,
    pub requires_key: bool,
    pub reason: Seq<char>,
}

impl View for EnhancementHint {
    type V = HintModel;

    open spec fn view(&self) -> HintModel {
        HintModel {
            provider: self.provider@,
            requires_key: self.requires_key,
            reason: self.reason@,
        }
    }
}

/// One provider's content, with the attribution that belongs to it.
#[derive(Debug, PartialEq, Eq)]
pub struct SourceEntry {
    pub provider_id: String,
    pub privacy_class: String,
    /// The language of the content, where it is known.
    pub language: Option<String>,
    pub payload: Json,
    pub attribution: Attribution,
}

/// What a [`SourceEntry`] says.
pub struct SourceModel {
    pub provider_id: Seq<char>,
    pub privacy_class: Seq<char>,
    pub language: Option<Seq<char>>,
    pub payload: JsonModel,
    pub attribution: AttributionModel,
}

impl View for SourceEntry {
    type V = SourceModel;

    open spec fn view(&self) -> SourceModel {
        SourceModel {
            provider_id: self.provider_id@,
            privacy_class: self.privacy_class@,
            language: opt_view(self.language),
            payload: self.payload@,
            attribution: self.attribution@,
        }
    }
}

/// What sources say, in order.
pub open spec fn source_views(v: Seq<SourceEntry>) -> Seq<SourceModel> {
    Seq::new(v.len(), |i: int| v[i]@)
}

/// How a query ended.
#[derive(Debug, Clone, Copy, PartialEq, Eq, Structural)]
pub enum CascadeStatus {
    /// At least one provider had content.
    Success,
    /// None of the providers asked had content.
    NotFound,
    /// No provider may be asked.
    NotConfigured,
    /// The request is not usable.
    BadRequest,
}

impl CascadeStatus {
    /// The wire name.
    pub open spec fn name(self) -> Seq<char> {
        match self {
            CascadeStatus::Success => "ok"@,
            CascadeStatus::NotFound => "not_found"@,
            CascadeStatus::NotConfigured => "not_configured"@,
            CascadeStatus::BadRequest => "bad_request"@,
        }
    }

    /// The wire name.
    pub fn as_str(self) -> (r: &'static str)
        ensures
            r@ == self.name(),
    {
        match self {
            CascadeStatus::Success => "ok",
            CascadeStatus::NotFound => "not_found",
            CascadeStatus::NotConfigured => "not_configured",
            CascadeStatus::BadRequest => "bad_request",
        }
    }
}

/// The answer to an enrichment query.
#[derive(Debug, PartialEq, Eq)]
pub struct CascadeResponse {
    pub v: u8,
    pub status: CascadeStatus,
    pub provider_id: Option<String>,
    pub privacy_class: Option<String>,
    pub language: Option<String>,
    pub payload: Option<Json>,
    pub detail: Option<String>,
    pub attribution: Option<Attribution>,
    pub enhancement: Option<EnhancementHint>,
    /// Every provider's content, in the operator's order.
    pub sources: Vec<SourceEntry>,
}

/// What a [`CascadeResponse`] says.
#[verifier::ext_equal]
pub struct ResponseModel {
    pub v: u8,
    pub status: CascadeStatus,
    pub provider_id: Option<Seq<char>>,
    pub privacy_class: Option<Seq<char>>,
    pub language: Option<Seq<char>>,
    pub payload: Option<JsonModel>,
    pub detail: Option<Seq<char>>,
    pub attribution: Option<AttributionModel>,
    pub enhancement: Option<HintModel>,
    pub sources: Seq<SourceModel>,
}

/// What an optional payload denotes.
pub open spec fn opt_json(o: Option<Json>) -> Option<JsonModel> {
    match o {
        Some(j) => Some(j@),
        None => None,
    }
}

/// What an optional attribution says.
pub open spec fn opt_attribution(o: Option<Attribution>) -> Option<AttributionModel> {
    match o {
        Some(a) => Some(a@),
        None => None,
    }
}

/// What an optional hint says.
pub open spec fn opt_hint(o: Option<EnhancementHint>) -> Option<HintModel> {
    match o {
        Some(h) => Some(h@),
        None => None,
    }
}

impl View for CascadeResponse {
    type V = ResponseModel;

    open spec fn view(&self) -> ResponseModel {
        ResponseModel {
            v: self.v,
            status: self.status,
            provider_id: opt_view(self.provider_id),
            privacy_class: opt_view(self.privacy_class),
            language: opt_view(self.language),
            payload: opt_json(self.payload),
            detail: opt_view(self.detail),
            attribution: opt_attribution(self.attribution),
            enhancement: opt_hint(self.enhancement),
            sources: source_views(self.sources@),
        }
    }
}

/// A response without content.
pub open spec fn bare_response(status: CascadeStatus, detail: Option<Seq<char>>) -> ResponseModel {
    ResponseModel {
        v: 1,
        status,
        provider_id: None,
        privacy_class: None,
        language: None,
        payload: None,
        detail,
        attribution: None,
        enhancement: None,
        sources: Seq::empty(),
    }
}

/// The response made of sources: the first one stands at the top, payload and
/// attribution together.
pub open spec fn response_of(sources: Seq<SourceModel>, hint: Option<HintModel>) -> ResponseModel {
    if sources.len() == 0 {
        ResponseModel { enhancement: hint, ..bare_response(CascadeStatus::NotFound, None) }
    } else {
        let primary = sources[0];
        ResponseModel {
            v: 1,
            status: CascadeStatus::Success,
            provider_id: Some(primary.provider_id),
            privacy_class: Some(primary.privacy_class),
            language: primary.language,
            payload: Some(primary.payload),
            detail: None,
            attribution: Some(primary.attribution),
            enhancement: hint,
            sources,
        }
    }
}

impl CascadeResponse {
    /// The response made of sources that stand in the operator's order.
    pub fn from_sources(sources: Vec<SourceEntry>, enhancement: Option<EnhancementHint>) -> (r:
        CascadeResponse)
        ensures
            r@ == response_of(source_views(sources@), opt_hint(enhancement)),
    {
        if sources.len() == 0 {
            let r = CascadeResponse {
                v: 1,
                status: CascadeStatus::NotFound,
                provider_id: None,
                privacy_class: None,
                language: None,
                payload: None,
                detail: None,
                attribution: None,
                enhancement,
                sources,
            };
            assert(r@.sources =~= Seq::<SourceModel>::empty());
            return r;
        }
        let primary = &sources[0];
        let provider_id = Some(primary.provider_id.clone());
        let privacy_class = Some(primary.privacy_class.clone());
        let language = clone_opt(&primary.language);
        let payload = Some(primary.payload.copy());
        let attribution = Some(primary.attribution.copy());
        CascadeResponse {
            v: 1,
            status: CascadeStatus::Success,
            provider_id,
            privacy_class,
            language,
            payload,
            detail: None,
            attribution,
            enhancement,
            sources,
        }
    }

    /// A response without content.
    pub fn bare(status: CascadeStatus, detail: String) -> (r: CascadeResponse)
        ensures
            r@ == bare_response(status, Some(detail@)),
    {
        let r = CascadeResponse {
            v: 1,
            status,
            provider_id: None,
            privacy_class: None,
            language: None,
            payload: None,
            detail: Some(detail),
            attribution: None,
            enhancement: None,
            sources: Vec::new(),
        };
        assert(r@.sources =~= Seq::<SourceModel>::empty());
        r
    }

    /// The request is not usable.
    pub fn bad_request(detail: String) -> (r: CascadeResponse)
        ensures
            r@ == bare_response(CascadeStatus::BadRequest, Some(detail@)),
    {
        CascadeResponse::bare(CascadeStatus::BadRequest, detail)
    }

    /// No provider may be asked.
    pub fn not_configured(detail: String) -> (r: CascadeResponse)
        ensures
            r@ == bare_response(CascadeStatus::NotConfigured, Some(detail@)),
    {
        CascadeResponse::bare(CascadeStatus::NotConfigured, detail)
    }

    /// None of the providers asked had content.
    pub fn not_found(detail: String) -> (r: CascadeResponse)
        ensures
            r@ == bare_response(CascadeStatus::NotFound, Some(detail@)),
    {
        CascadeResponse::bare(CascadeStatus::NotFound, detail)
    }
}

/// Content and attribution travel together: whatever stands at the top of a
/// response is one source's, verbatim, with that source's own attribution, and
/// every source is kept.
pub proof fn law_attribution_is_unity(sources: Seq<SourceModel>, hint: Option<HintModel>)
    ensures
        ({
            let r = response_of(sources, hint);
            &&& r.status is Success <==> sources.len() > 0
            &&& r.sources == sources
            &&& sources.len() > 0 ==> {
                &&& r.payload == Some(sources[0].payload)
                &&& r.attribution == Some(sources[0].attribution)
                &&& r.provider_id == Some(sources[0].provider_id)
                &&& r.privacy_class == Some(sources[0].privacy_class)
                &&& r.language == sources[0].language
            }
        }),
{
    assert(response_of(sources, hint).sources =~= sources);
}

// ---------------------------------------------------------------------
// Wire form
// ---------------------------------------------------------------------

/// An attribution on the wire.
pub open spec fn attribution_json(a: AttributionModel) -> JsonModel {
    JsonModel::Object(
        seq![
            ("source_name"@, JsonModel::Text(a.source_name)),
            ("source_url"@, opt_text_model(a.source_url)),
            ("license"@, JsonModel::Text(a.license)),
        ],
    )
}

/// A hint on the wire.
pub open spec fn hint_json(h: HintModel) -> JsonModel {
    JsonModel::Object(
        seq![
            ("provider"@, JsonModel::Text(h.provider)),
            ("requires_key"@, JsonModel::Bool(h.requires_key)),
            ("reason"@, JsonModel::Text(h.reason)),
        ],
    )
}

/// A source on the wire.
pub open spec fn source_json(s: SourceModel) -> JsonModel {
    JsonModel::Object(
        with_text(
            seq![
                ("provider_id"@, JsonModel::Text(s.provider_id)),
                ("privacy_class"@, JsonModel::Text(s.privacy_class)),
            ],
            "language"@,
            s.language,
        ).push(("payload"@, s.payload)).push(("attribution"@, attribution_json(s.attribution))),
    )
}

/// A response on the wire: what is absent is left out.
pub open spec fn response_json(r: ResponseModel) -> JsonModel {
    let head = seq![
        ("v"@, number_model(r.v as nat)),
        ("status"@, JsonModel::Text(r.status.name())),
    ];
    let head = with_text(head, "provider_id"@, r.provider_id);
    let head = with_text(head, "privacy_class"@, r.privacy_class);
    let head = with_text(head, "language"@, r.language);
    let head = with_member(head, "payload"@, r.payload);
    let head = with_text(head, "detail"@, r.detail);
    let head = with_member(
        head,
        "attribution"@,
        match r.attribution {
            Some(a) => Some(attribution_json(a)),
            None => None,
        },
    );
    let head = with_member(
        head,
        "enhancement"@,
        match r.enhancement {
            Some(h) => Some(hint_json(h)),
            None => None,
        },
    );
    JsonModel::Object(
        head.push(
            (
                "sources"@,
                JsonModel::Array(Seq::new(r.sources.len(), |i: int| source_json(r.sources[i]))),
            ),
        ),
    )
}

impl Attribution {
    /// On the wire.
    pub fn to_json(&self) -> (r: Json)
        ensures
            r@ == attribution_json(self@),
    {
        let mut w = ObjectWriter::new();
        w.put("source_name", text(self.source_name.as_str()));
        w.put("source_url", opt_text(&self.source_url));
        w.put("license", text(self.license.as_str()));
        assert(w@ =~= attribution_json(self@)->Object_0);
        w.finish()
    }
}

impl SourceEntry {
    /// On the wire.
    pub fn to_json(&self) -> (r: Json)
        ensures
            r@ == source_json(self@),
    {
        let mut w = ObjectWriter::new();
        w.put("provider_id", text(self.provider_id.as_str()));
        w.put("privacy_class", text(self.privacy_class.as_str()));
        assert(w@ =~= seq![
            ("provider_id"@, JsonModel::Text(self@.provider_id)),
            ("privacy_class"@, JsonModel::Text(self@.privacy_class)),
        ]);
        w.put_text_if_some("language", &self.language);
        w.put("payload", self.payload.copy());
        w.put("attribution", self.attribution.to_json());
        w.finish()
    }
}

impl CascadeResponse {
    /// On the wire.
    pub fn to_json(&self) -> (r: Json)
        ensures
            r@ == response_json(self@),
    {
        let mut w = ObjectWriter::new();
        w.put("v", number(self.v as u64));
        w.put("status", text(self.status.as_str()));
        assert(w@ =~= seq![
            ("v"@, number_model(self.v as nat)),
            ("status"@, JsonModel::Text(self.status.name())),
        ]);
        w.put_text_if_some("provider_id", &self.provider_id);
        w.put_text_if_some("privacy_class", &self.privacy_class);
        w.put_text_if_some("language", &self.language);
        let payload = match &self.payload {
            Some(p) => Some(p.copy()),
            None => None,
        };
        w.put_some("payload", payload);
        w.put_text_if_some("detail", &self.detail);
        let attribution = match &self.attribution {
            Some(a) => Some(a.to_json()),
            None => None,
        };
        w.put_some("attribution", attribution);
        let enhancement = match &self.enhancement {
            Some(h) => {
                let mut e = ObjectWriter::new();
                e.put("provider", text(h.provider.as_str()));
                e.put("requires_key", Json::Bool(h.requires_key));
                e.put("reason", text(h.reason.as_str()));
                assert(e@ =~= hint_json(h@)->Object_0);
                Some(e.finish())
            },
            None => None,
        };
        w.put_some("enhancement", enhancement);
        let mut items: Vec<Json> = Vec::new();
        let n: usize = self.sources.len();
        for i in 0..n
            invariant
                n == self.sources@.len(),
                items@.len() == i,
                forall|k: int| 0 <= k < i ==> (#[trigger] items@[k])@ == source_json(self.sources@[k]@),
        {
            items.push(self.sources[i].to_json());
        }
        assert(models(items@) =~= Seq::new(
            self@.sources.len(),
            |i: int| source_json(self@.sources[i]),
        ));
        w.put("sources", array(items));
        w.finish()
    }
}

// ---------------------------------------------------------------------
// Laws of order and wire form
// ---------------------------------------------------------------------

/// Queries to Last.fm, Discogs and Genius are tied to an account; no others are.
pub proof fn law_three_providers_know_the_account(p: ProviderId)
    ensures
        p.class() is IdentityBearing <==> p is Lastfm || p is Discogs || p is Genius,
{
}

/// Each provider is under the choice that bears its name.
pub proof fn law_choices_bear_the_providers_name(c: ProviderConfig)
    ensures
        c.choice(ProviderId::MusicBrainz) == c.musicbrainz,
        c.choice(ProviderId::Wikipedia) == c.wikipedia,
        c.choice(ProviderId::Wikidata) == c.wikidata,
        c.choice(ProviderId::Lrclib) == c.lrclib,
        c.choice(ProviderId::TheAudioDb) == c.theaudiodb,
        c.choice(ProviderId::Lastfm) == c.lastfm,
        c.choice(ProviderId::Discogs) == c.discogs,
        c.choice(ProviderId::Genius) == c.genius,
{
}

/// A provider is asked exactly if there is a client for it, the operator has
/// enabled it, and the privacy mode lets it: offline lets none, and anonymous mode
/// none that knows the account.
pub proof fn law_who_is_asked(c: ProviderCatalogue, p: ProviderId)
    ensures
        c.asks(p) <==> c.has(p) && c.config.choice(p).enabled && match c.config.privacy_mode {
            PrivacyMode::Enhanced => true,
            PrivacyMode::AnonymousOnly => !(p is Lastfm || p is Discogs || p is Genius),
            PrivacyMode::Offline => false,
        },
{
}

/// Providers are asked in the operator's order: all of them, each once, the lower
/// priority first, and those of equal priority in the order they had.
pub proof fn law_providers_stand_in_the_operators_order(
    providers: Seq<ProviderId>,
    config: ProviderConfig,
)
    ensures
        ({
            let keys = priorities(providers, config);
            exists|from: Seq<int>|
                sorted_from(picked(providers, stable_order(keys)), providers, keys, from)
        }),
        forall|i: int|
            0 <= i < providers.len() ==> #[trigger] priorities(providers, config)[i]
                == config.choice(providers[i]).priority,
{
    law_sorting_is_stable(providers, priorities(providers, config));
}

/// Sources stand in the operator's order: all of them, each once, the provider of
/// lower priority first, unknown providers behind all others, and ties in the
/// order they had.
pub proof fn law_sources_stand_in_the_operators_order(
    sources: Seq<SourceModel>,
    config: ProviderConfig,
)
    ensures
        ({
            let out = in_operator_order(sources, config);
            &&& exists|from: Seq<int>|
                sorted_from(out, sources, source_ranks(sources, config), from)
            &&& forall|s: SourceModel| sources.contains(s) <==> #[trigger] out.contains(s)
            &&& forall|i: int, j: int|
                0 <= i < j < out.len() ==> {
                    let a = ProviderId::of_name((#[trigger] out[i]).provider_id);
                    let b = ProviderId::of_name((#[trigger] out[j]).provider_id);
                    &&& a is None ==> b is None
                    &&& a is Some && b is Some ==> config.choice(a->Some_0).priority
                        <= config.choice(b->Some_0).priority
                }
        }),
{
    let ranks = source_ranks(sources, config);
    law_sorting_is_stable(sources, ranks);
    let out = in_operator_order(sources, config);
    let from = choose|from: Seq<int>| sorted_from(out, sources, ranks, from);
    assert forall|i: int, j: int| 0 <= i < j < out.len() implies {
        let a = ProviderId::of_name((#[trigger] out[i]).provider_id);
        let b = ProviderId::of_name((#[trigger] out[j]).provider_id);
        &&& a is None ==> b is None
        &&& a is Some && b is Some ==> config.choice(a->Some_0).priority <= config.choice(
            b->Some_0,
        ).priority
    } by {
        assert(out[i] == sources[from[i]] && out[j] == sources[from[j]]);
        assert(ranks[from[i]] <= ranks[from[j]]);
        assert(ranks[from[i]] == source_rank(out[i].provider_id, config));
        assert(ranks[from[j]] == source_rank(out[j].provider_id, config));
    }
}

/// An answer without content says why, and shows nobody's.
pub proof fn law_bare_answers_show_nothing(status: CascadeStatus, detail: Option<Seq<char>>)
    ensures
        ({
            let r = bare_response(status, detail);
            &&& r.status == status && r.detail == detail && r.v == 1
            &&& r.payload is None && r.attribution is None && r.provider_id is None && r.language
                is None && r.privacy_class is None && r.enhancement is None
            &&& r.sources.len() == 0
        }),
{
}

/// On the wire an attribution names the source, its page and its terms.
pub proof fn law_attributions_are_written_whole(a: AttributionModel)
    ensures
        member(attribution_json(a), "source_name"@) == Some(JsonModel::Text(a.source_name)),
        member(attribution_json(a), "source_url"@) == Some(
            match a.source_url {
                Some(u) => JsonModel::Text(u),
                None => JsonModel::Null,
            },
        ),
        member(attribution_json(a), "license"@) == Some(JsonModel::Text(a.license)),
{
    broadcast use lemma_last_member_push;

    lemma_key_tags();
    let ms = attribution_json(a)->Object_0;
    assert(ms =~= Seq::empty().push(ms[0]).push(ms[1]).push(ms[2]));
}

/// On the wire a hint names the provider, whether it needs a key, and why.
pub proof fn law_hints_are_written_whole(h: HintModel)
    ensures
        member(hint_json(h), "provider"@) == Some(JsonModel::Text(h.provider)),
        member(hint_json(h), "requires_key"@) == Some(JsonModel::Bool(h.requires_key)),
        member(hint_json(h), "reason"@) == Some(JsonModel::Text(h.reason)),
{
    broadcast use lemma_last_member_push;

    lemma_key_tags();
    let ms = hint_json(h)->Object_0;
    assert(ms =~= Seq::empty().push(ms[0]).push(ms[1]).push(ms[2]));
}

/// A text under a name, where there is one.
pub open spec fn written(t: Option<Seq<char>>) -> Option<JsonModel> {
    match t {
        Some(t) => Some(JsonModel::Text(t)),
        None => None,
    }
}

/// On the wire a source tells its provider, its language, its payload and its
/// attribution, each under its own name.
pub proof fn law_sources_are_written_whole(s: SourceModel)
    ensures
        ({
            let j = source_json(s);
            &&& member(j, "provider_id"@) == Some(JsonModel::Text(s.provider_id))
            &&& member(j, "privacy_class"@) == Some(JsonModel::Text(s.privacy_class))
            &&& member(j, "language"@) == written(s.language)
            &&& member(j, "payload"@) == Some(s.payload)
            &&& member(j, "attribution"@) == Some(attribution_json(s.attribution))
        }),
{
    broadcast use lemma_last_member_push;

    lemma_key_tags();
    let head = seq![
        ("provider_id"@, JsonModel::Text(s.provider_id)),
        ("privacy_class"@, JsonModel::Text(s.privacy_class)),
    ];
    lemma_two_members(head);
}

/// On the wire an answer tells all that it says, each part under its own name, and
/// every source in order; what it does not say is left out.
#[verifier::rlimit(60)]
pub proof fn law_answers_are_written_whole(r: ResponseModel)
    ensures
        ({
            let j = response_json(r);
            &&& member(j, "v"@) == Some(JsonModel::Number(decimal_of(r.v as nat)))
            &&& member(j, "status"@) == Some(JsonModel::Text(r.status.name()))
            &&& member(j, "provider_id"@) == written(r.provider_id)
            &&& member(j, "privacy_class"@) == written(r.privacy_class)
            &&& member(j, "language"@) == written(r.language)
            &&& member(j, "payload"@) == r.payload
            &&& member(j, "detail"@) == written(r.detail)
            &&& member(j, "attribution"@) == (match r.attribution {
                Some(a) => Some(attribution_json(a)),
                None => None,
            })
            &&& member(j, "enhancement"@) == (match r.enhancement {
                Some(h) => Some(hint_json(h)),
                None => None,
            })
            &&& member(j, "sources"@) matches Some(JsonModel::Array(all)) && all.len()
                == r.sources.len() && forall|i: int|
                0 <= i < all.len() ==> #[trigger] all[i] == source_json(r.sources[i])
        }),
{
    broadcast use lemma_last_member_push;

    lemma_key_tags();
    let head = seq![
        ("v"@, number_model(r.v as nat)),
        ("status"@, JsonModel::Text(r.status.name())),
    ];
    lemma_two_members(head);
}

/// Different ends of a query have different names on the wire.
pub proof fn law_status_names_are_distinct(a: CascadeStatus, b: CascadeStatus)
    requires
        a != b,
    ensures
        a.name() != b.name(),
{
    reveal_strlit("ok");
    reveal_strlit("not_found");
    reveal_strlit("not_configured");
    reveal_strlit("bad_request");
    assert("ok"@.len() == 2);
    assert("not_found"@.len() == 9);
    assert("not_configured"@.len() == 14);
    assert("bad_request"@.len() == 11);
}

} // verus!
