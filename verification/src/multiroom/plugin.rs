//! The multi-room plugin: configuration, load plan and operator requests.

use crate::json::{lemma_key_tags, lemma_last_member_push, lemma_two_members, member};
use crate::json::{
    array, document_text, document_unsigned, models, number, number_model, opt_text, opt_text_model,
    opt_view, read_text, read_unsigned, text, text_reading, unsigned_reading, Json, JsonModel,
    ObjectWriter,
};
use crate::multiroom::aggregator::{reported, PeerInfo, Published, ReceiverTelemetry};
use crate::multiroom::profile::{
    LeaderMode, Profile, Role, DEFAULT_LEADER_MS, LEADER_MS_MAX, LEADER_MS_MIN,
};
use crate::multiroom::receiver::{idle, ReceiverModel, ReceiverScheduler};
use crate::multiroom::source::SourceEmitter;
use crate::plugin_error::{permanent, permanent_with, ErrorModel, PluginError};
use crate::text::{debug_quoted, debug_text, decimal, decimal_of, same_text, views};
use vstd::prelude::*;

verus! {

/// Plugin name.
pub const PLUGIN_NAME: &'static str = "org.evoframework.multiroom.evo-native";

/// Version carried by every response.
pub const PAYLOAD_VERSION: u64 = 1;

/// Operator configuration.
#[derive(Debug, PartialEq, Eq)]
pub struct PluginConfig {
    /// Role of this node.
    pub role: Role,
    /// Group that frames are fanned out to; required of a source.
    pub group_id: Option<String>,
    /// Playback device of a receiver.
    pub alsa_pcm: String,
    /// Capture device of a source; empty for the synthetic tone.
    pub source_pcm: String,
    /// Leader in manual mode, and the seed of the group leader otherwise.
    pub leader_ms: u64,
    pub leader_mode: LeaderMode,
    pub profile: Profile,
    /// Render buffer that the receiver advertises.
    pub render_buffer_capacity_ms: u64,
}

impl PluginConfig {
    /// Whether every setting has its default.
    pub open spec fn is_default(&self) -> bool {
        &&& self.role == Role::Auto
        &&& self.group_id is None
        &&& self.alsa_pcm@ == "evo"@
        &&& self.source_pcm@ == Seq::<char>::empty()
        &&& self.leader_ms == DEFAULT_LEADER_MS
        &&& self.leader_mode == LeaderMode::AutoDecay
        &&& self.profile == Profile::Conservative
        &&& self.render_buffer_capacity_ms == LEADER_MS_MAX
    }
}

/// Default role: observe only.
pub fn default_role() -> (r: Role)
    ensures
        r == Role::Auto,
{
    Role::Auto
}

/// Default playback device.
pub fn default_alsa_pcm() -> (r: String)
    ensures
        r@ == "evo"@,
{
    "evo".to_owned()
}

/// Default leader.
pub fn default_leader_ms() -> (r: u64)
    ensures
        r == DEFAULT_LEADER_MS,
{
    DEFAULT_LEADER_MS
}

/// Default leader-control mode.
pub fn default_leader_mode() -> (r: LeaderMode)
    ensures
        r == LeaderMode::AutoDecay,
{
    LeaderMode::AutoDecay
}

/// Default profile.
pub fn default_profile() -> (r: Profile)
    ensures
        r == Profile::Conservative,
{
    Profile::Conservative
}

/// Default render buffer: the operator maximum.
pub fn default_render_buffer_capacity_ms() -> (r: u64)
    ensures
        r == LEADER_MS_MAX,
{
    LEADER_MS_MAX
}

impl Default for PluginConfig {
    fn default() -> (r: Self)
        ensures
            r.is_default(),
    {
        PluginConfig {
            role: default_role(),
            group_id: None,
            alsa_pcm: default_alsa_pcm(),
            source_pcm: String::new(),
            leader_ms: default_leader_ms(),
            leader_mode: default_leader_mode(),
            profile: default_profile(),
            render_buffer_capacity_ms: default_render_buffer_capacity_ms(),
        }
    }
}

/// The tasks that a successful load starts.
#[derive(Debug, PartialEq, Eq)]
pub enum LoadPlan {
    /// Emit to `group_id` from `capture_pcm`, or from the synthetic tone when
    /// there is none, and aggregate the telemetry of the receivers.
    Source { group_id: String, capture_pcm: Option<String> },
    /// Schedule incoming frames, rendering them to `alsa_pcm` where `renders`,
    /// and publish telemetry.
    Receiver { alsa_pcm: String, renders: bool },
}

/// The plugin's own state.
pub struct MultiroomEvoNativePlugin {
    pub loaded: bool,
    pub config: PluginConfig,
    pub frames_received: u64,
    pub frames_sent: u64,
    pub leader_ms: u64,
    pub group_leader_ms: u64,
    pub profile: Profile,
    pub leader_mode: LeaderMode,
    pub receiver_underruns: u64,
    pub receiver_queue_depth: u64,
    pub receiver_jitter_p95_ms: u64,
    pub render_buffer_capacity_ms: u64,
}

/// Why a configuration is refused, where it is.
pub open spec fn config_refusal(cfg: PluginConfig) -> Option<Seq<char>> {
    if cfg.role == Role::Source && cfg.group_id is None {
        Some("role = \"source\" requires group_id = \"<uuid>\" in plugin config"@)
    } else {
        None
    }
}

/// Complaint about a host without an audio plane.
pub open spec fn no_audio_plane() -> Seq<char> {
    "LoadContext.audio_plane = None; manifest must declare capabilities.audio_plane = true AND the steward must be configured with AdmissionEngine::with_audio_plane(...)"@
}

/// Whether `plan` is what a node with configuration `cfg` runs.
pub open spec fn plan_follows(plan: LoadPlan, cfg: PluginConfig) -> bool {
    match plan {
        LoadPlan::Source { group_id, capture_pcm } => {
            &&& cfg.role == Role::Source
            &&& cfg.group_id == Some(group_id)
            &&& opt_view(capture_pcm) == (if cfg.source_pcm@.len() == 0 {
                None
            } else {
                Some(cfg.source_pcm@)
            })
        },
        LoadPlan::Receiver { alsa_pcm, renders } => {
            &&& cfg.role != Role::Source
            &&& alsa_pcm@ == cfg.alsa_pcm@
            &&& renders == (cfg.role == Role::Receiver)
        },
    }
}

/// The profile with the given wire name.
pub open spec fn profile_named(v: Seq<char>) -> Option<Profile> {
    if v == "aggressive"@ {
        Some(Profile::Aggressive)
    } else if v == "conservative"@ {
        Some(Profile::Conservative)
    } else if v == "defensive"@ {
        Some(Profile::Defensive)
    } else {
        None
    }
}

/// The mode with the given wire name.
pub open spec fn mode_named(v: Seq<char>) -> Option<LeaderMode> {
    if v == "auto_decay"@ {
        Some(LeaderMode::AutoDecay)
    } else if v == "auto_pinned"@ {
        Some(LeaderMode::AutoPinned)
    } else if v == "manual"@ {
        Some(LeaderMode::Manual)
    } else {
        None
    }
}

/// The profile that a `multiroom.set_profile` payload asks for, or the refusal.
pub open spec fn wanted_profile(reading: Result<Option<Seq<char>>, Seq<char>>) -> Result<
    Profile,
    Seq<char>,
> {
    match reading {
        Err(e) => Err("multiroom.set_profile: payload not JSON: "@ + e),
        Ok(None) => Err(
            "multiroom.set_profile: payload must contain string 'value' ∈ {aggressive, conservative, defensive}"@,
        ),
        Ok(Some(v)) => match profile_named(v) {
            Some(p) => Ok(p),
            None => Err("multiroom.set_profile: unknown profile "@ + debug_quoted(v)),
        },
    }
}

/// The mode that a `multiroom.set_leader_mode` payload asks for, or the refusal.
pub open spec fn wanted_mode(reading: Result<Option<Seq<char>>, Seq<char>>) -> Result<
    LeaderMode,
    Seq<char>,
> {
    match reading {
        Err(e) => Err("multiroom.set_leader_mode: payload not JSON: "@ + e),
        Ok(None) => Err(
            "multiroom.set_leader_mode: payload must contain string 'value' ∈ {auto_decay, auto_pinned, manual}"@,
        ),
        Ok(Some(v)) => match mode_named(v) {
            Some(m) => Ok(m),
            None => Err("multiroom.set_leader_mode: unknown mode "@ + debug_quoted(v)),
        },
    }
}

/// The leader that a `multiroom.set_leader_ms` payload asks for, or the refusal.
pub open spec fn wanted_leader(reading: Result<Option<u64>, Seq<char>>) -> Result<u64, Seq<char>> {
    match reading {
        Err(e) => Err("multiroom.set_leader_ms: payload not JSON: "@ + e),
        Ok(None) => Err("multiroom.set_leader_ms: payload must contain integer 'value' field"@),
        Ok(Some(v)) => if LEADER_MS_MIN <= v <= LEADER_MS_MAX {
            Ok(v)
        } else {
            Err(
                "multiroom.set_leader_ms: value "@ + decimal_of(v as nat)
                    + " out of range [20, 2000]"@,
            )
        },
    }
}

/// The status row of one peer.
pub open spec fn peer_members(device: Seq<char>, t: ReceiverTelemetry) -> Seq<
    (Seq<char>, JsonModel),
> {
    seq![
        ("remote_device_id"@, JsonModel::Text(device)),
        ("observed_jitter_p95_ms"@, number_model(t.observed_jitter_p95_ms as nat)),
        ("underrun_count"@, number_model(t.underrun_count as nat)),
        ("applied_leader_ms"@, number_model(t.applied_leader_ms as nat)),
        ("render_buffer_capacity_ms"@, number_model(t.render_buffer_capacity_ms as nat)),
    ]
}

/// The status rows of the peers that have reported, in peer order.
pub open spec fn peer_rows(peers: Seq<PeerInfo>) -> Seq<JsonModel>
    decreases peers.len(),
{
    if peers.len() == 0 {
        Seq::empty()
    } else {
        let rest = peer_rows(peers.drop_last());
        match peers.last().receiver_telemetry {
            None => rest,
            Some(t) => rest.push(
                JsonModel::Object(peer_members(peers.last().remote_device_id@, t)),
            ),
        }
    }
}

/// The answer of a setter: the version and the value now in force.
pub open spec fn ack(key: Seq<char>, value: JsonModel) -> JsonModel {
    JsonModel::Object(seq![("v"@, number_model(PAYLOAD_VERSION as nat)), (key, value)])
}

/// The outcome of a request, by what it says.
pub open spec fn outcome(r: Result<Json, PluginError>) -> Result<JsonModel, ErrorModel> {
    match r {
        Ok(j) => Ok(j@),
        Err(e) => Err(e@),
    }
}

fn peer_row(device: &str, t: ReceiverTelemetry) -> (r: Json)
    ensures
        r@ == JsonModel::Object(peer_members(device@, t)),
{
    let mut w = ObjectWriter::new();
    w.put("remote_device_id", text(device));
    w.put("observed_jitter_p95_ms", number(t.observed_jitter_p95_ms));
    w.put("underrun_count", number(t.underrun_count));
    w.put("applied_leader_ms", number(t.applied_leader_ms));
    w.put("render_buffer_capacity_ms", number(t.render_buffer_capacity_ms));
    assert(w@ =~= peer_members(device@, t));
    w.finish()
}

fn rows_of(peers: &Vec<PeerInfo>) -> (r: Json)
    ensures
        r@ == JsonModel::Array(peer_rows(peers@)),
{
    let mut rows: Vec<Json> = Vec::new();
    let n: usize = peers.len();
    assert(models(rows@) =~= peer_rows(peers@.take(0)));
    for i in 0..n
        invariant
            n == peers@.len(),
            models(rows@) == peer_rows(peers@.take(i as int)),
    {
        assert(peers@.take(i + 1).drop_last() =~= peers@.take(i as int));
        let ghost before = rows@;
        if let Some(t) = peers[i].receiver_telemetry {
            let row = peer_row(peers[i].remote_device_id.as_str(), t);
            rows.push(row);
            assert(models(rows@) =~= models(before).push(row@));
        }
    }
    assert(peers@.take(n as int) =~= peers@);
    array(rows)
}

fn acknowledge(key: &str, value: Json) -> (r: Json)
    ensures
        r@ == ack(key@, value@),
{
    let mut w = ObjectWriter::new();
    w.put("v", number(PAYLOAD_VERSION));
    w.put(key, value);
    assert(w@ =~= ack(key@, value@)->Object_0);
    w.finish()
}

/// The request types that the plugin honours.
pub fn request_types() -> (r: Vec<String>)
    ensures
        views(r@) == seq![
            "multiroom.get_status"@,
            "multiroom.set_leader_ms"@,
            "multiroom.set_profile"@,
            "multiroom.set_leader_mode"@,
        ],
{
    let mut r: Vec<String> = Vec::new();
    r.push("multiroom.get_status".to_owned());
    r.push("multiroom.set_leader_ms".to_owned());
    r.push("multiroom.set_profile".to_owned());
    r.push("multiroom.set_leader_mode".to_owned());
    assert(views(r@) =~= seq![
        "multiroom.get_status"@,
        "multiroom.set_leader_ms"@,
        "multiroom.set_profile"@,
        "multiroom.set_leader_mode"@,
    ]);
    r
}

impl MultiroomEvoNativePlugin {
    /// The answer to `multiroom.get_status`.
    pub open spec fn status(&self, peers: Seq<PeerInfo>) -> JsonModel {
        JsonModel::Object(
            seq![
                ("v"@, number_model(PAYLOAD_VERSION as nat)),
                ("role"@, JsonModel::Text(self.config.role.wire())),
                ("group_id"@, opt_text_model(opt_view(self.config.group_id))),
                ("alsa_pcm"@, JsonModel::Text(self.config.alsa_pcm@)),
                ("source_pcm"@, JsonModel::Text(self.config.source_pcm@)),
                ("leader_ms"@, number_model(self.leader_ms as nat)),
                ("leader_ms_min"@, number_model(LEADER_MS_MIN as nat)),
                ("leader_ms_max"@, number_model(LEADER_MS_MAX as nat)),
                ("leader_mode"@, JsonModel::Text(self.leader_mode.wire())),
                ("profile"@, JsonModel::Text(self.profile.wire())),
                ("group_leader_ms"@, number_model(self.group_leader_ms as nat)),
                ("frames_sent"@, number_model(self.frames_sent as nat)),
                ("frames_received"@, number_model(self.frames_received as nat)),
                ("receiver_queue_depth"@, number_model(self.receiver_queue_depth as nat)),
                ("receiver_underruns"@, number_model(self.receiver_underruns as nat)),
                ("receiver_jitter_p95_ms"@, number_model(self.receiver_jitter_p95_ms as nat)),
                ("render_buffer_capacity_ms"@, number_model(self.render_buffer_capacity_ms as nat)),
                ("peer_telemetry"@, JsonModel::Array(peer_rows(peers))),
            ],
        )
    }

    /// A plugin that has not been loaded.
    pub fn new() -> (r: Self)
        ensures
            !r.loaded,
            r.config.is_default(),
            r.frames_received == 0,
            r.frames_sent == 0,
            r.leader_ms == DEFAULT_LEADER_MS,
            r.group_leader_ms == DEFAULT_LEADER_MS,
            r.profile == Profile::Conservative,
            r.leader_mode == LeaderMode::AutoDecay,
            r.receiver_underruns == 0,
            r.receiver_queue_depth == 0,
            r.receiver_jitter_p95_ms == 0,
            r.render_buffer_capacity_ms == LEADER_MS_MAX,
    {
        MultiroomEvoNativePlugin {
            loaded: false,
            config: PluginConfig::default(),
            frames_received: 0,
            frames_sent: 0,
            leader_ms: DEFAULT_LEADER_MS,
            group_leader_ms: DEFAULT_LEADER_MS,
            profile: Profile::Conservative,
            leader_mode: LeaderMode::AutoDecay,
            receiver_underruns: 0,
            receiver_queue_depth: 0,
            receiver_jitter_p95_ms: 0,
            render_buffer_capacity_ms: default_render_buffer_capacity_ms(),
        }
    }

    /// Frames received since load.
    pub fn frames_received(&self) -> (r: u64)
        ensures
            r == self.frames_received,
    {
        self.frames_received
    }

    /// Frames sent since load.
    pub fn frames_sent(&self) -> (r: u64)
        ensures
            r == self.frames_sent,
    {
        self.frames_sent
    }

    /// Underruns of the output device.
    pub fn receiver_underruns(&self) -> (r: u64)
        ensures
            r == self.receiver_underruns,
    {
        self.receiver_underruns
    }

    /// Frames waiting for their render time.
    pub fn receiver_queue_depth(&self) -> (r: u64)
        ensures
            r == self.receiver_queue_depth,
    {
        self.receiver_queue_depth
    }

    /// Operator-set leader.
    pub fn leader_ms(&self) -> (r: u64)
        ensures
            r == self.leader_ms,
    {
        self.leader_ms
    }

    /// Adopts a configuration. A source without a group is refused, and then
    /// nothing changes.
    pub fn apply_config(&mut self, cfg: PluginConfig) -> (r: Result<(), PluginError>)
        ensures
            match config_refusal(cfg) {
                Some(m) => r is Err && r->Err_0@ == ErrorModel::Permanent(m) && *final(self) == *old(self),
                None => r is Ok && *final(self) == (MultiroomEvoNativePlugin {
                    config: cfg,
                    leader_ms: cfg.leader_ms,
                    group_leader_ms: cfg.leader_ms,
                    profile: cfg.profile,
                    leader_mode: cfg.leader_mode,
                    render_buffer_capacity_ms: cfg.render_buffer_capacity_ms,
                    ..*old(self)
                }),
            },
    {
        if cfg.role == Role::Source && cfg.group_id.is_none() {
            return Err(
                permanent("role = \"source\" requires group_id = \"<uuid>\" in plugin config"),
            );
        }
        self.leader_ms = cfg.leader_ms;
        self.profile = cfg.profile;
        self.leader_mode = cfg.leader_mode;
        self.render_buffer_capacity_ms = cfg.render_buffer_capacity_ms;
        self.group_leader_ms = cfg.leader_ms;
        self.config = cfg;
        Ok(())
    }

    /// Loads the plugin: adopts the configuration, then requires an audio plane,
    /// then says which tasks to start.
    pub fn load(&mut self, cfg: PluginConfig, audio_plane: bool) -> (r: Result<
        LoadPlan,
        PluginError,
    >)
        ensures
            match config_refusal(cfg) {
                Some(m) => r is Err && r->Err_0@ == ErrorModel::Permanent(m) && *final(self) == *old(self),
                None => {
                    &&& *final(self) == (MultiroomEvoNativePlugin {
                        loaded: audio_plane || old(self).loaded,
                        config: cfg,
                        leader_ms: cfg.leader_ms,
                        group_leader_ms: cfg.leader_ms,
                        profile: cfg.profile,
                        leader_mode: cfg.leader_mode,
                        render_buffer_capacity_ms: cfg.render_buffer_capacity_ms,
                        ..*old(self)
                    })
                    &&& audio_plane ==> r is Ok && plan_follows(r->Ok_0, cfg)
                    &&& !audio_plane ==> r is Err && r->Err_0@ == ErrorModel::Permanent(
                        no_audio_plane(),
                    )
                },
            },
    {
        match self.apply_config(cfg) {
            Err(e) => {
                return Err(e);
            },
            Ok(()) => {},
        }
        if !audio_plane {
            return Err(
                permanent(
                    "LoadContext.audio_plane = None; manifest must declare capabilities.audio_plane = true AND the steward must be configured with AdmissionEngine::with_audio_plane(...)",
                ),
            );
        }
        self.loaded = true;
        let plan = match self.config.role {
            Role::Source => match &self.config.group_id {
                Some(group_id) => LoadPlan::Source {
                    group_id: group_id.clone(),
                    capture_pcm: if self.config.source_pcm.as_str().is_empty() {
                        None
                    } else {
                        Some(self.config.source_pcm.clone())
                    },
                },
                None => {
                    assert(false);
                    LoadPlan::Receiver { alsa_pcm: String::new(), renders: false }
                },
            },
            Role::Receiver => LoadPlan::Receiver {
                alsa_pcm: self.config.alsa_pcm.clone(),
                renders: true,
            },
            Role::Auto => LoadPlan::Receiver {
                alsa_pcm: self.config.alsa_pcm.clone(),
                renders: false,
            },
        };
        Ok(plan)
    }

    /// Takes the plugin out of service.
    pub fn unload(&mut self)
        ensures
            *final(self) == (MultiroomEvoNativePlugin { loaded: false, ..*old(self) }),
    {
        self.loaded = false;
    }

    /// The detail line of the health report.
    pub fn health_detail(&self) -> (r: String)
        ensures
            r@ == "role="@ + self.config.role.wire() + " frames_sent="@ + decimal_of(
                self.frames_sent as nat,
            ) + " frames_received="@ + decimal_of(self.frames_received as nat),
    {
        let mut r = "role=".to_owned();
        r.append(self.config.role.as_wire_str());
        r.append(" frames_sent=");
        r.append(decimal(self.frames_sent).as_str());
        r.append(" frames_received=");
        r.append(decimal(self.frames_received).as_str());
        r
    }

    /// The scheduler of a receiver that starts now. Its figures count on from
    /// those of earlier ones.
    pub fn receiver(&self) -> (r: ReceiverScheduler)
        ensures
            r@ == idle(
                self.group_leader_ms,
                self.frames_received,
                self.receiver_underruns,
                self.receiver_jitter_p95_ms,
            ),
    {
        ReceiverScheduler::resuming(
            self.group_leader_ms,
            self.frames_received,
            self.receiver_underruns,
            self.receiver_jitter_p95_ms,
        )
    }

    /// The emitter of a source that starts now. Its figure counts on from those of
    /// earlier ones.
    pub fn emitter(&self) -> (r: SourceEmitter)
        ensures
            r.sequence == 0,
            r.frames_sent == self.frames_sent,
    {
        SourceEmitter { sequence: 0, frames_sent: self.frames_sent }
    }

    /// Takes over the figure of a source.
    pub fn note_emitter(&mut self, e: &SourceEmitter)
        ensures
            *final(self) == (MultiroomEvoNativePlugin {
                frames_sent: e.frames_sent,
                ..*old(self)
            }),
    {
        self.frames_sent = e.frames_sent;
    }

    /// The plugin with the figures of a receiver's scheduler.
    pub open spec fn with_receiver(self, m: ReceiverModel) -> MultiroomEvoNativePlugin {
        MultiroomEvoNativePlugin {
            frames_received: m.frames_received,
            group_leader_ms: m.group_leader_ms,
            receiver_underruns: m.underruns,
            receiver_queue_depth: m.queue.len() as u64,
            receiver_jitter_p95_ms: m.jitter_p95_ms,
            ..self
        }
    }

    /// The plugin with what an aggregation tick published.
    pub open spec fn with_published(self, p: Published) -> MultiroomEvoNativePlugin {
        MultiroomEvoNativePlugin {
            profile: p.profile,
            group_leader_ms: p.group_leader_ms,
            ..self
        }
    }

    /// What a receiver tells the source of itself.
    pub open spec fn own_telemetry(self) -> ReceiverTelemetry {
        ReceiverTelemetry {
            observed_jitter_p95_ms: self.receiver_jitter_p95_ms,
            underrun_count: self.receiver_underruns,
            applied_leader_ms: self.group_leader_ms,
            render_buffer_capacity_ms: self.render_buffer_capacity_ms,
        }
    }

    /// Takes over the figures of the receiver's scheduler.
    pub fn note_receiver(&mut self, s: &ReceiverScheduler)
        ensures
            *final(self) == old(self).with_receiver(s@),
            *final(self) == (MultiroomEvoNativePlugin {
                frames_received: s@.frames_received,
                group_leader_ms: s@.group_leader_ms,
                receiver_underruns: s@.underruns,
                receiver_queue_depth: s@.queue.len() as u64,
                receiver_jitter_p95_ms: s@.jitter_p95_ms,
                ..*old(self)
            }),
    {
        self.frames_received = s.frames_received();
        self.group_leader_ms = s.group_leader_ms();
        self.receiver_underruns = s.underruns();
        self.receiver_queue_depth = s.queue_depth();
        self.receiver_jitter_p95_ms = s.jitter_p95_ms();
    }

    /// Takes over what an aggregation tick published.
    pub fn note_published(&mut self, p: Published)
        ensures
            *final(self) == old(self).with_published(p),
            *final(self) == (MultiroomEvoNativePlugin {
                profile: p.profile,
                group_leader_ms: p.group_leader_ms,
                ..*old(self)
            }),
    {
        self.profile = p.profile;
        self.group_leader_ms = p.group_leader_ms;
    }

    /// The telemetry that the receiver publishes.
    pub fn telemetry(&self) -> (r: ReceiverTelemetry)
        ensures
            r == self.own_telemetry(),
            r == (ReceiverTelemetry {
                observed_jitter_p95_ms: self.receiver_jitter_p95_ms,
                underrun_count: self.receiver_underruns,
                applied_leader_ms: self.group_leader_ms,
                render_buffer_capacity_ms: self.render_buffer_capacity_ms,
            }),
    {
        ReceiverTelemetry {
            observed_jitter_p95_ms: self.receiver_jitter_p95_ms,
            underrun_count: self.receiver_underruns,
            applied_leader_ms: self.group_leader_ms,
            render_buffer_capacity_ms: self.render_buffer_capacity_ms,
        }
    }

    /// Answers `multiroom.get_status`.
    pub fn get_status(&self, peers: &Vec<PeerInfo>) -> (r: Json)
        ensures
            r@ == self.status(peers@),
    {
        let mut w = ObjectWriter::new();
        w.put("v", number(PAYLOAD_VERSION));
        w.put("role", text(self.config.role.as_wire_str()));
        w.put("group_id", opt_text(&self.config.group_id));
        w.put("alsa_pcm", text(self.config.alsa_pcm.as_str()));
        w.put("source_pcm", text(self.config.source_pcm.as_str()));
        w.put("leader_ms", number(self.leader_ms));
        w.put("leader_ms_min", number(LEADER_MS_MIN));
        w.put("leader_ms_max", number(LEADER_MS_MAX));
        w.put("leader_mode", text(self.leader_mode.as_wire_str()));
        w.put("profile", text(self.profile.as_wire_str()));
        w.put("group_leader_ms", number(self.group_leader_ms));
        w.put("frames_sent", number(self.frames_sent));
        w.put("frames_received", number(self.frames_received));
        w.put("receiver_queue_depth", number(self.receiver_queue_depth));
        w.put("receiver_underruns", number(self.receiver_underruns));
        w.put("receiver_jitter_p95_ms", number(self.receiver_jitter_p95_ms));
        w.put("render_buffer_capacity_ms", number(self.render_buffer_capacity_ms));
        w.put("peer_telemetry", rows_of(peers));
        assert(w@ =~= self.status(peers@)->Object_0);
        w.finish()
    }

    /// Answers `multiroom.set_profile`, given what its payload holds.
    pub fn set_profile(&mut self, reading: Result<Option<String>, String>) -> (r: Result<
        Json,
        PluginError,
    >)
        ensures
            match wanted_profile(text_reading(reading)) {
                Ok(p) => outcome(r) == Ok::<_, ErrorModel>(ack("profile"@, JsonModel::Text(p.wire())))
                    && *final(self) == (MultiroomEvoNativePlugin { profile: p, ..*old(self) }),
                Err(m) => outcome(r) == Err::<JsonModel, _>(ErrorModel::Permanent(m)) && *final(self)
                    == *old(self),
            },
    {
        let value = match reading {
            Err(e) => {
                return Err(
                    permanent_with("multiroom.set_profile: payload not JSON: ", e.as_str()),
                );
            },
            Ok(None) => {
                return Err(
                    permanent(
                        "multiroom.set_profile: payload must contain string 'value' ∈ {aggressive, conservative, defensive}",
                    ),
                );
            },
            Ok(Some(v)) => v,
        };
        let wanted = if same_text(value.as_str(), "aggressive") {
            Profile::Aggressive
        } else if same_text(value.as_str(), "conservative") {
            Profile::Conservative
        } else if same_text(value.as_str(), "defensive") {
            Profile::Defensive
        } else {
            return Err(
                permanent_with(
                    "multiroom.set_profile: unknown profile ",
                    debug_text(value.as_str()).as_str(),
                ),
            );
        };
        self.profile = wanted;
        Ok(acknowledge("profile", text(wanted.as_wire_str())))
    }

    /// Answers `multiroom.set_leader_mode`, given what its payload holds.
    pub fn set_leader_mode(&mut self, reading: Result<Option<String>, String>) -> (r: Result<
        Json,
        PluginError,
    >)
        ensures
            match wanted_mode(text_reading(reading)) {
                Ok(m) => outcome(r) == Ok::<_, ErrorModel>(
                    ack("leader_mode"@, JsonModel::Text(m.wire())),
                ) && *final(self) == (MultiroomEvoNativePlugin { leader_mode: m, ..*old(self) }),
                Err(m) => outcome(r) == Err::<JsonModel, _>(ErrorModel::Permanent(m)) && *final(self)
                    == *old(self),
            },
    {
        let value = match reading {
            Err(e) => {
                return Err(
                    permanent_with("multiroom.set_leader_mode: payload not JSON: ", e.as_str()),
                );
            },
            Ok(None) => {
                return Err(
                    permanent(
                        "multiroom.set_leader_mode: payload must contain string 'value' ∈ {auto_decay, auto_pinned, manual}",
                    ),
                );
            },
            Ok(Some(v)) => v,
        };
        let wanted = if same_text(value.as_str(), "auto_decay") {
            LeaderMode::AutoDecay
        } else if same_text(value.as_str(), "auto_pinned") {
            LeaderMode::AutoPinned
        } else if same_text(value.as_str(), "manual") {
            LeaderMode::Manual
        } else {
            return Err(
                permanent_with(
                    "multiroom.set_leader_mode: unknown mode ",
                    debug_text(value.as_str()).as_str(),
                ),
            );
        };
        self.leader_mode = wanted;
        Ok(acknowledge("leader_mode", text(wanted.as_wire_str())))
    }

    /// Answers `multiroom.set_leader_ms`, given what its payload holds.
    pub fn set_leader_ms(&mut self, reading: Result<Option<u64>, String>) -> (r: Result<
        Json,
        PluginError,
    >)
        ensures
            match wanted_leader(unsigned_reading(reading)) {
                Ok(v) => outcome(r) == Ok::<_, ErrorModel>(
                    ack("leader_ms"@, number_model(v as nat)),
                ) && *final(self) == (MultiroomEvoNativePlugin { leader_ms: v, ..*old(self) }),
                Err(m) => outcome(r) == Err::<JsonModel, _>(ErrorModel::Permanent(m)) && *final(self)
                    == *old(self),
            },
    {
        let value: u64 = match reading {
            Err(e) => {
                return Err(
                    permanent_with("multiroom.set_leader_ms: payload not JSON: ", e.as_str()),
                );
            },
            Ok(None) => {
                return Err(
                    permanent(
                        "multiroom.set_leader_ms: payload must contain integer 'value' field",
                    ),
                );
            },
            Ok(Some(v)) => v,
        };
        if value < LEADER_MS_MIN || value > LEADER_MS_MAX {
            let mut m = "multiroom.set_leader_ms: value ".to_owned();
            m.append(decimal(value).as_str());
            m.append(" out of range [20, 2000]");
            return Err(PluginError::Permanent(m));
        }
        self.leader_ms = value;
        Ok(acknowledge("leader_ms", number(value)))
    }

    /// Whether the answer to a request shows the peers, so that they are to be listed
    /// first.
    pub fn shows_peers(&self, request_type: &str) -> (r: bool)
        ensures
            r == (self.loaded && request_type@ == "multiroom.get_status"@),
    {
        self.loaded && same_text(request_type, "multiroom.get_status")
    }

    /// Answers an operator request. `peers` is the current peer list of the audio
    /// plane, empty when it could not be had or is not shown.
    pub fn handle_request(
        &mut self,
        request_type: &str,
        payload: &[u8],
        peers: &Vec<PeerInfo>,
    ) -> (r: Result<Json, PluginError>)
        ensures
            if !old(self).loaded {
                outcome(r) == Err::<JsonModel, _>(ErrorModel::Permanent("plugin not loaded"@))
                    && *final(self) == *old(self)
            } else if request_type@ == "multiroom.get_status"@ {
                outcome(r) == Ok::<_, ErrorModel>(old(self).status(peers@)) && *final(self) == *old(self)
            } else if request_type@ == "multiroom.set_profile"@ {
                match wanted_profile(document_text(payload@, "value"@)) {
                    Ok(p) => outcome(r) == Ok::<_, ErrorModel>(
                        ack("profile"@, JsonModel::Text(p.wire())),
                    ) && *final(self) == (MultiroomEvoNativePlugin { profile: p, ..*old(self) }),
                    Err(m) => outcome(r) == Err::<JsonModel, _>(ErrorModel::Permanent(m)) && *final(self) == *old(self),
                }
            } else if request_type@ == "multiroom.set_leader_mode"@ {
                match wanted_mode(document_text(payload@, "value"@)) {
                    Ok(m) => outcome(r) == Ok::<_, ErrorModel>(
                        ack("leader_mode"@, JsonModel::Text(m.wire())),
                    ) && *final(self) == (MultiroomEvoNativePlugin { leader_mode: m, ..*old(self) }),
                    Err(m) => outcome(r) == Err::<JsonModel, _>(ErrorModel::Permanent(m)) && *final(self) == *old(self),
                }
            } else if request_type@ == "multiroom.set_leader_ms"@ {
                match wanted_leader(document_unsigned(payload@, "value"@)) {
                    Ok(v) => outcome(r) == Ok::<_, ErrorModel>(
                        ack("leader_ms"@, number_model(v as nat)),
                    ) && *final(self) == (MultiroomEvoNativePlugin { leader_ms: v, ..*old(self) }),
                    Err(m) => outcome(r) == Err::<JsonModel, _>(ErrorModel::Permanent(m)) && *final(self) == *old(self),
                }
            } else {
                outcome(r) == Err::<JsonModel, _>(
                    ErrorModel::Permanent(
                        "request type "@ + debug_quoted(request_type@)
                            + " declared but no handler wired"@,
                    ),
                ) && *final(self) == *old(self)
            },
    {
        if !self.loaded {
            return Err(permanent("plugin not loaded"));
        }
        if same_text(request_type, "multiroom.get_status") {
            Ok(self.get_status(peers))
        } else if same_text(request_type, "multiroom.set_profile") {
            self.set_profile(read_text(payload, "value"))
        } else if same_text(request_type, "multiroom.set_leader_mode") {
            self.set_leader_mode(read_text(payload, "value"))
        } else if same_text(request_type, "multiroom.set_leader_ms") {
            self.set_leader_ms(read_unsigned(payload, "value"))
        } else {
            let mut m = "request type ".to_owned();
            m.append(debug_text(request_type).as_str());
            m.append(" declared but no handler wired");
            Err(PluginError::Permanent(m))
        }
    }
}

/// A leader is granted exactly if it lies within the operator range, and then as it
/// was asked for.
pub proof fn law_leader_setting_in_range(reading: Result<Option<u64>, Seq<char>>)
    ensures
        wanted_leader(reading) is Ok <==> (reading matches Ok(Some(v)) && LEADER_MS_MIN <= v
            <= LEADER_MS_MAX),
        wanted_leader(reading) matches Ok(v) ==> reading == Ok::<_, Seq<char>>(Some(v)),
{
}

/// Every wire name of a profile or mode is accepted by its setter.
pub proof fn law_wire_names_are_settable(p: Profile, m: LeaderMode)
    ensures
        wanted_profile(Ok(Some(p.wire()))) == Ok::<_, Seq<char>>(p),
        wanted_mode(Ok(Some(m.wire()))) == Ok::<_, Seq<char>>(m),
{
    reveal_strlit("aggressive");
    reveal_strlit("conservative");
    reveal_strlit("defensive");
    reveal_strlit("auto_decay");
    reveal_strlit("auto_pinned");
    reveal_strlit("manual");
    assert("aggressive"@.len() != "conservative"@.len());
    assert("aggressive"@.len() != "defensive"@.len());
    assert("conservative"@.len() != "defensive"@.len());
    assert("auto_decay"@.len() != "auto_pinned"@.len());
    assert("auto_decay"@.len() != "manual"@.len());
    assert("auto_pinned"@.len() != "manual"@.len());
}

/// The status tells every setting and figure under its own name.
#[verifier::rlimit(40)]
pub proof fn law_the_status_tells_all(p: MultiroomEvoNativePlugin, peers: Seq<PeerInfo>)
    ensures
        ({
            let j = p.status(peers);
            &&& member(j, "leader_ms"@) == Some(JsonModel::Number(decimal_of(p.leader_ms as nat)))
            &&& member(j, "leader_ms_min"@) == Some(JsonModel::Number(decimal_of(20)))
            &&& member(j, "leader_ms_max"@) == Some(JsonModel::Number(decimal_of(2000)))
            &&& member(j, "group_leader_ms"@) == Some(JsonModel::Number(decimal_of(p.group_leader_ms as nat)))
            &&& member(j, "frames_sent"@) == Some(JsonModel::Number(decimal_of(p.frames_sent as nat)))
            &&& member(j, "frames_received"@) == Some(JsonModel::Number(decimal_of(p.frames_received as nat)))
            &&& member(j, "receiver_queue_depth"@) == Some(JsonModel::Number(decimal_of(p.receiver_queue_depth as nat)))
            &&& member(j, "receiver_underruns"@) == Some(JsonModel::Number(decimal_of(p.receiver_underruns as nat)))
            &&& member(j, "receiver_jitter_p95_ms"@) == Some(JsonModel::Number(decimal_of(p.receiver_jitter_p95_ms as nat)))
            &&& member(j, "render_buffer_capacity_ms"@) == Some(JsonModel::Number(decimal_of(p.render_buffer_capacity_ms as nat)))
            &&& member(j, "role"@) == Some(JsonModel::Text(p.config.role.wire()))
            &&& member(j, "leader_mode"@) == Some(JsonModel::Text(p.leader_mode.wire()))
            &&& member(j, "profile"@) == Some(JsonModel::Text(p.profile.wire()))
            &&& member(j, "alsa_pcm"@) == Some(JsonModel::Text(p.config.alsa_pcm@))
            &&& member(j, "source_pcm"@) == Some(JsonModel::Text(p.config.source_pcm@))
            &&& member(j, "group_id"@) == Some(
                match p.config.group_id {
                    Some(g) => JsonModel::Text(g@),
                    None => JsonModel::Null,
                },
            )
            &&& member(j, "peer_telemetry"@) == Some(JsonModel::Array(peer_rows(peers)))
        }),
{
    broadcast use lemma_last_member_push;

    lemma_key_tags();
    let ms = p.status(peers)->Object_0;
    assert(ms =~= Seq::empty().push(ms[0]).push(ms[1]).push(ms[2]).push(ms[3]).push(ms[4]).push(ms[5]).push(ms[6]).push(ms[7]).push(ms[8]).push(ms[9]).push(ms[10]).push(ms[11]).push(ms[12]).push(ms[13]).push(ms[14]).push(ms[15]).push(ms[16]).push(ms[17]));
}

/// What the receiver's scheduler counts is what the node reports, to the operator
/// in its status and to the source in its telemetry.
pub proof fn law_the_receivers_figures_are_reported(
    p: MultiroomEvoNativePlugin,
    m: ReceiverModel,
    peers: Seq<PeerInfo>,
)
    requires
        m.queue.len() <= u64::MAX,
    ensures
        ({
            let q = p.with_receiver(m);
            let t = q.own_telemetry();
            &&& t.observed_jitter_p95_ms == m.jitter_p95_ms
            &&& t.underrun_count == m.underruns
            &&& t.applied_leader_ms == m.group_leader_ms
            &&& t.render_buffer_capacity_ms == p.render_buffer_capacity_ms
            &&& member(q.status(peers), "receiver_underruns"@) == Some(
                JsonModel::Number(decimal_of(m.underruns as nat)),
            )
            &&& member(q.status(peers), "receiver_jitter_p95_ms"@) == Some(
                JsonModel::Number(decimal_of(m.jitter_p95_ms as nat)),
            )
            &&& member(q.status(peers), "receiver_queue_depth"@) == Some(
                JsonModel::Number(decimal_of(m.queue.len())),
            )
            &&& member(q.status(peers), "frames_received"@) == Some(
                JsonModel::Number(decimal_of(m.frames_received as nat)),
            )
            &&& member(q.status(peers), "group_leader_ms"@) == Some(
                JsonModel::Number(decimal_of(m.group_leader_ms as nat)),
            )
            &&& q.leader_ms == p.leader_ms && q.leader_mode == p.leader_mode && q.profile
                == p.profile && q.frames_sent == p.frames_sent && q.config == p.config
        }),
{
    law_the_status_tells_all(p.with_receiver(m), peers);
}

/// What a tick of the source publishes is what the node is in from then on.
pub proof fn law_the_published_leader_is_in_force(
    p: MultiroomEvoNativePlugin,
    out: Published,
    peers: Seq<PeerInfo>,
)
    ensures
        ({
            let q = p.with_published(out);
            &&& q.group_leader_ms == out.group_leader_ms && q.profile == out.profile
            &&& q.leader_ms == p.leader_ms && q.leader_mode == p.leader_mode && q.config == p.config
            &&& member(q.status(peers), "profile"@) == Some(JsonModel::Text(out.profile.wire()))
            &&& member(q.status(peers), "group_leader_ms"@) == Some(
                JsonModel::Number(decimal_of(out.group_leader_ms as nat)),
            )
        }),
{
    law_the_status_tells_all(p.with_published(out), peers);
}

/// The row of a peer tells what that peer reported, under the peer's own name.
pub proof fn law_rows_tell_the_report(device: Seq<char>, t: ReceiverTelemetry)
    ensures
        ({
            let j = JsonModel::Object(peer_members(device, t));
            &&& member(j, "remote_device_id"@) == Some(JsonModel::Text(device))
            &&& member(j, "observed_jitter_p95_ms"@) == Some(JsonModel::Number(decimal_of(t.observed_jitter_p95_ms as nat)))
            &&& member(j, "underrun_count"@) == Some(JsonModel::Number(decimal_of(t.underrun_count as nat)))
            &&& member(j, "applied_leader_ms"@) == Some(JsonModel::Number(decimal_of(t.applied_leader_ms as nat)))
            &&& member(j, "render_buffer_capacity_ms"@) == Some(JsonModel::Number(decimal_of(t.render_buffer_capacity_ms as nat)))
        }),
{
    broadcast use lemma_last_member_push;

    lemma_key_tags();
    let ms = peer_members(device, t);
    assert(ms =~= Seq::empty().push(ms[0]).push(ms[1]).push(ms[2]).push(ms[3]).push(ms[4]));
}

/// Every peer that has reported is shown, once, in the order of the peers; one
/// that has not is left out.
pub proof fn law_every_report_is_shown(peers: Seq<PeerInfo>, k: int)
    requires
        0 <= k < peers.len(),
    ensures
        peer_rows(peers).len() == reported(peers).len(),
        peers[k].receiver_telemetry matches Some(t) ==> peer_rows(peers).contains(
            JsonModel::Object(peer_members(peers[k].remote_device_id@, t)),
        ),
    decreases peers.len(),
{
    lemma_rows_match_reports(peers);
    let front = peers.drop_last();
    if k < front.len() {
        law_every_report_is_shown(front, k);
        if let Some(t) = peers[k].receiver_telemetry {
            let row = JsonModel::Object(peer_members(peers[k].remote_device_id@, t));
            assert(front[k] == peers[k]);
            let i = choose|i: int| 0 <= i < peer_rows(front).len() && peer_rows(front)[i] == row;
            assert(peer_rows(peers)[i] == row);
        }
    } else if let Some(t) = peers[k].receiver_telemetry {
        assert(peer_rows(peers)[peer_rows(front).len() as int] == JsonModel::Object(
            peer_members(peers[k].remote_device_id@, t),
        ));
    }
}

proof fn lemma_rows_match_reports(peers: Seq<PeerInfo>)
    ensures
        peer_rows(peers).len() == reported(peers).len(),
    decreases peers.len(),
{
    if peers.len() > 0 {
        lemma_rows_match_reports(peers.drop_last());
    }
}

/// A setter grants only what was asked for by its wire name, and its answer tells
/// the value that is now in force.
pub proof fn law_only_wire_names_are_granted(v: Seq<char>, value: JsonModel)
    ensures
        wanted_profile(Ok(Some(v))) matches Ok(p) ==> v == p.wire(),
        wanted_mode(Ok(Some(v))) matches Ok(m) ==> v == m.wire(),
        member(ack("profile"@, value), "profile"@) == Some(value),
        member(ack("leader_mode"@, value), "leader_mode"@) == Some(value),
        member(ack("leader_ms"@, value), "leader_ms"@) == Some(value),
        member(ack("profile"@, value), "v"@) == Some(JsonModel::Number(decimal_of(1))),
{
    lemma_key_tags();
    lemma_two_members(ack("profile"@, value)->Object_0);
    lemma_two_members(ack("leader_mode"@, value)->Object_0);
    lemma_two_members(ack("leader_ms"@, value)->Object_0);
}

/// The role chooses the tasks: a source emits to its group from its capture
/// device, or from the tone where none is set; a receiver renders to its playback
/// device; any other node only counts. A source without a group is refused, and
/// nothing else is.
pub proof fn law_the_role_chooses_the_tasks(plan: LoadPlan, cfg: PluginConfig)
    requires
        plan_follows(plan, cfg),
    ensures
        cfg.role == Role::Source ==> plan is Source && cfg.group_id == Some(plan->group_id)
            && opt_view(plan->capture_pcm) == (if cfg.source_pcm@.len() > 0 {
            Some(cfg.source_pcm@)
        } else {
            None
        }),
        cfg.role != Role::Source ==> plan is Receiver && plan->alsa_pcm@ == cfg.alsa_pcm@
            && plan->renders == (cfg.role == Role::Receiver),
        config_refusal(cfg) is Some <==> cfg.role == Role::Source && cfg.group_id is None,
{
}

} // verus!
