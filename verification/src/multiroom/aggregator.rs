//! Source-side aggregation of receiver telemetry.
//!
//! Every tick the source turns the telemetry of its receivers into the leader it
//! stamps on outgoing frames, and moves the profile: up at once on a new
//! underrun, down only after a sustained quiet window.

use crate::multiroom::profile::{LeaderMode, Profile, LEADER_MS_MAX, LEADER_MS_MIN};
use crate::multiroom::receiver::{minus_or_zero, NANOS_PER_MS};
use vstd::prelude::*;

verus! {

/// Period of the aggregation, in milliseconds.
pub const SOURCE_AGGREGATION_TICK_MS: u64 = 250;

/// Consecutive quiet ticks after which the profile decays one step.
pub const AUTO_DECAY_WINDOW_TICKS: u32 = 120;

/// Time after the first telemetry during which underruns do not count.
pub const WARMUP_GRACE_MS: u64 = 10_000;

/// Telemetry that one receiver reports.
#[derive(Debug, Clone, Copy, PartialEq, Eq, Structural)]
pub struct ReceiverTelemetry {
    pub observed_jitter_p95_ms: u64,
    pub underrun_count: u64,
    pub applied_leader_ms: u64,
    pub render_buffer_capacity_ms: u64,
}

/// One peer of the audio plane.
#[derive(Debug, PartialEq, Eq)]
pub struct PeerInfo {
    pub remote_device_id: String,
    /// What the peer last reported; absent until its first heartbeat.
    pub receiver_telemetry: Option<ReceiverTelemetry>,
}

/// The telemetry of the peers that have reported, in peer order.
pub open spec fn reported(peers: Seq<PeerInfo>) -> Seq<ReceiverTelemetry>
    decreases peers.len(),
{
    if peers.len() == 0 {
        Seq::empty()
    } else {
        match peers.last().receiver_telemetry {
            Some(t) => reported(peers.drop_last()).push(t),
            None => reported(peers.drop_last()),
        }
    }
}

/// The largest jitter percentile of the reports; zero when there are none.
pub open spec fn max_jitter(reports: Seq<ReceiverTelemetry>) -> u64
    decreases reports.len(),
{
    if reports.len() == 0 {
        0
    } else {
        let rest = max_jitter(reports.drop_last());
        if reports.last().observed_jitter_p95_ms > rest {
            reports.last().observed_jitter_p95_ms
        } else {
            rest
        }
    }
}

/// The smallest render buffer of the reports, capped at `cap`.
pub open spec fn min_capacity(reports: Seq<ReceiverTelemetry>, cap: u64) -> u64
    decreases reports.len(),
{
    if reports.len() == 0 {
        cap
    } else {
        let rest = min_capacity(reports.drop_last(), cap);
        if reports.last().render_buffer_capacity_ms < rest {
            reports.last().render_buffer_capacity_ms
        } else {
            rest
        }
    }
}

/// The underruns of all reports together.
pub open spec fn total_underruns(reports: Seq<ReceiverTelemetry>) -> nat
    decreases reports.len(),
{
    if reports.len() == 0 {
        0
    } else {
        total_underruns(reports.drop_last()) + reports.last().underrun_count as nat
    }
}

/// `v` held within the operator range.
pub open spec fn clamp_leader(v: int) -> int {
    if v < LEADER_MS_MIN {
        LEADER_MS_MIN as int
    } else if v > LEADER_MS_MAX {
        LEADER_MS_MAX as int
    } else {
        v
    }
}

/// The leader that `profile` asks for at jitter `jitter_ms`, before clamping.
pub open spec fn raw_leader(profile: Profile, jitter_ms: u64) -> int {
    jitter_ms * profile.factor_halves() / 2 + profile.floor()
}

/// The group-wide leader under `profile`: the raw leader within the operator
/// range and within what the smallest receiver can buffer.
pub open spec fn group_leader(profile: Profile, reports: Seq<ReceiverTelemetry>) -> u64 {
    let wanted = clamp_leader(raw_leader(profile, max_jitter(reports)));
    let cap = min_capacity(reports, u64::MAX);
    if wanted < cap {
        wanted as u64
    } else {
        cap
    }
}

/// State carried from tick to tick.
#[derive(Debug, Clone, Copy, PartialEq, Eq, Structural)]
pub struct Aggregator {
    /// Ticks since the last underrun, within the current window.
    pub quiet_ticks: u32,
    /// Underruns counted up to the previous tick.
    pub prev_underrun_total: u64,
    /// Instant of the first telemetry since there was last none.
    pub first_telemetry_ns: Option<u64>,
}

/// What the source publishes after a tick.
#[derive(Debug, Clone, Copy, PartialEq, Eq, Structural)]
pub struct Published {
    pub profile: Profile,
    pub group_leader_ms: u64,
}

/// How the peer list was obtained at a tick.
pub enum PeerReply {
    /// The audio plane failed to list its peers.
    Failed,
    /// The current peers.
    Listed(Vec<PeerInfo>),
}

/// Underruns of all reports, as counted: saturating at the end of the range.
pub open spec fn counted_underruns(reports: Seq<ReceiverTelemetry>) -> u64 {
    if total_underruns(reports) <= u64::MAX {
        total_underruns(reports) as u64
    } else {
        u64::MAX
    }
}

/// Instant from which the warm-up counts at a tick that has reports.
pub open spec fn warmup_start(a: Aggregator, now_ns: u64) -> u64 {
    match a.first_telemetry_ns {
        Some(t) => t,
        None => now_ns,
    }
}

/// Whether underruns at `now_ns` still belong to the warm-up.
pub open spec fn in_warmup(a: Aggregator, now_ns: u64) -> bool {
    minus_or_zero(now_ns as int, warmup_start(a, now_ns) as int) / (NANOS_PER_MS as int)
        < WARMUP_GRACE_MS
}

/// Whether a tick sees underruns that the previous tick had not counted.
pub open spec fn new_underruns(a: Aggregator, reports: Seq<ReceiverTelemetry>) -> bool {
    counted_underruns(reports) > a.prev_underrun_total
}

/// The quiet counter after one more quiet tick.
pub open spec fn one_more_quiet(a: Aggregator) -> u32 {
    if a.quiet_ticks == u32::MAX {
        u32::MAX
    } else {
        (a.quiet_ticks + 1) as u32
    }
}

/// The profile after a tick that has reports.
pub open spec fn next_profile(
    a: Aggregator,
    now_ns: u64,
    mode: LeaderMode,
    profile: Profile,
    reports: Seq<ReceiverTelemetry>,
) -> Profile {
    if mode != LeaderMode::AutoDecay || in_warmup(a, now_ns) {
        profile
    } else if new_underruns(a, reports) {
        profile.safer()
    } else if one_more_quiet(a) >= AUTO_DECAY_WINDOW_TICKS {
        profile.tighter()
    } else {
        profile
    }
}

/// The carried state after a tick that has reports.
pub open spec fn next_state(
    a: Aggregator,
    now_ns: u64,
    mode: LeaderMode,
    reports: Seq<ReceiverTelemetry>,
) -> Aggregator {
    let first_telemetry_ns = Some(warmup_start(a, now_ns));
    if mode != LeaderMode::AutoDecay {
        Aggregator { first_telemetry_ns, ..a }
    } else {
        Aggregator {
            first_telemetry_ns,
            prev_underrun_total: counted_underruns(reports),
            quiet_ticks: if in_warmup(a, now_ns) || new_underruns(a, reports) || one_more_quiet(a)
                >= AUTO_DECAY_WINDOW_TICKS {
                0
            } else {
                one_more_quiet(a)
            },
        }
    }
}

/// The state with no telemetry seen.
pub open spec fn fresh() -> Aggregator {
    Aggregator { quiet_ticks: 0, prev_underrun_total: 0, first_telemetry_ns: None }
}

/// Everything a tick does, as a function of its inputs.
pub open spec fn tick_of(
    a: Aggregator,
    now_ns: u64,
    mode: LeaderMode,
    local_ms: u64,
    current: Published,
    reply: PeerReply,
) -> (Aggregator, Published) {
    if mode == LeaderMode::Manual {
        (a, Published { group_leader_ms: clamp_leader(local_ms as int) as u64, ..current })
    } else {
        match reply {
            PeerReply::Failed => (a, current),
            PeerReply::Listed(peers) => {
                let reports = reported(peers@);
                if reports.len() == 0 {
                    (fresh(), current)
                } else {
                    let profile = next_profile(a, now_ns, mode, current.profile, reports);
                    (
                        next_state(a, now_ns, mode, reports),
                        Published { profile, group_leader_ms: group_leader(profile, reports) },
                    )
                }
            },
        }
    }
}

/// Whether a tick needs the peer list.
pub fn needs_peers(mode: LeaderMode) -> (r: bool)
    ensures
        r == (mode != LeaderMode::Manual),
{
    mode != LeaderMode::Manual
}

fn collect_reports(peers: &Vec<PeerInfo>) -> (r: Vec<ReceiverTelemetry>)
    ensures
        r@ == reported(peers@),
{
    let mut r: Vec<ReceiverTelemetry> = Vec::new();
    let n: usize = peers.len();
    for i in 0..n
        invariant
            n == peers@.len(),
            r@ == reported(peers@.take(i as int)),
    {
        assert(peers@.take(i + 1).drop_last() =~= peers@.take(i as int));
        if let Some(t) = peers[i].receiver_telemetry {
            r.push(t);
        }
    }
    assert(peers@.take(n as int) =~= peers@);
    r
}

/// The figures a tick draws from the reports.
struct Figures {
    jitter: u64,
    capacity: u64,
    underruns: u64,
}

fn summarise(reports: &Vec<ReceiverTelemetry>) -> (r: Figures)
    ensures
        r.jitter == max_jitter(reports@),
        r.capacity == min_capacity(reports@, u64::MAX),
        r.underruns == counted_underruns(reports@),
{
    let mut f = Figures { jitter: 0, capacity: u64::MAX, underruns: 0 };
    let n: usize = reports.len();
    for i in 0..n
        invariant
            n == reports@.len(),
            f.jitter == max_jitter(reports@.take(i as int)),
            f.capacity == min_capacity(reports@.take(i as int), u64::MAX),
            f.underruns == counted_underruns(reports@.take(i as int)),
    {
        assert(reports@.take(i + 1).drop_last() =~= reports@.take(i as int));
        let t = reports[i];
        if t.observed_jitter_p95_ms > f.jitter {
            f.jitter = t.observed_jitter_p95_ms;
        }
        if t.render_buffer_capacity_ms < f.capacity {
            f.capacity = t.render_buffer_capacity_ms;
        }
        f.underruns = f.underruns.saturating_add(t.underrun_count);
    }
    assert(reports@.take(n as int) =~= reports@);
    f
}

fn leader_for(profile: Profile, f: &Figures) -> (r: u64)
    ensures
        r == ({
            let wanted = clamp_leader(raw_leader(profile, f.jitter));
            if wanted < f.capacity {
                wanted as u64
            } else {
                f.capacity
            }
        }),
{
    let halves: u64 = profile.safety_factor_halves();
    assert(f.jitter * halves <= f.jitter * 6) by (nonlinear_arith)
        requires
            halves <= 6,
            f.jitter >= 0,
    ;
    let raw: u128 = (f.jitter as u128) * (halves as u128) / 2 + profile.floor_ms() as u128;
    let wanted: u64 = if raw < LEADER_MS_MIN as u128 {
        LEADER_MS_MIN
    } else if raw > LEADER_MS_MAX as u128 {
        LEADER_MS_MAX
    } else {
        raw as u64
    };
    if wanted < f.capacity {
        wanted
    } else {
        f.capacity
    }
}

impl Aggregator {
    /// State before the first tick.
    pub fn new() -> (r: Aggregator)
        ensures
            r == fresh(),
    {
        Aggregator { quiet_ticks: 0, prev_underrun_total: 0, first_telemetry_ns: None }
    }

    /// One aggregation tick. Returns what to publish from now on.
    pub fn tick(
        &mut self,
        now_ns: u64,
        mode: LeaderMode,
        local_ms: u64,
        current: Published,
        reply: &PeerReply,
    ) -> (r: Published)
        ensures
            (*final(self), r) == tick_of(*old(self), now_ns, mode, local_ms, current, *reply),
    {
        if mode == LeaderMode::Manual {
            let held: u64 = if local_ms < LEADER_MS_MIN {
                LEADER_MS_MIN
            } else if local_ms > LEADER_MS_MAX {
                LEADER_MS_MAX
            } else {
                local_ms
            };
            return Published { profile: current.profile, group_leader_ms: held };
        }
        match reply {
            PeerReply::Failed => current,
            PeerReply::Listed(peers) => {
                let reports = collect_reports(peers);
                if reports.len() == 0 {
                    *self = Aggregator::new();
                    return current;
                }
                let f = summarise(&reports);
                let started: u64 = match self.first_telemetry_ns {
                    Some(t) => t,
                    None => now_ns,
                };
                let warming = now_ns.saturating_sub(started) / NANOS_PER_MS < WARMUP_GRACE_MS;
                let mut profile = current.profile;
                let mut next = Aggregator {
                    quiet_ticks: self.quiet_ticks,
                    prev_underrun_total: self.prev_underrun_total,
                    first_telemetry_ns: Some(started),
                };
                if mode == LeaderMode::AutoDecay {
                    if warming {
                        next.quiet_ticks = 0;
                    } else if f.underruns > self.prev_underrun_total {
                        profile = profile.escalate();
                        next.quiet_ticks = 0;
                    } else {
                        next.quiet_ticks = self.quiet_ticks.saturating_add(1);
                        if next.quiet_ticks >= AUTO_DECAY_WINDOW_TICKS {
                            profile = profile.decay();
                            next.quiet_ticks = 0;
                        }
                    }
                    next.prev_underrun_total = f.underruns;
                }
                *self = next;
                Published { profile, group_leader_ms: leader_for(profile, &f) }
            },
        }
    }
}

// ---------------------------------------------------------------------
// Laws
// ---------------------------------------------------------------------

proof fn lemma_capacity_bound(reports: Seq<ReceiverTelemetry>, cap: u64, i: int)
    requires
        0 <= i < reports.len(),
    ensures
        min_capacity(reports, cap) <= reports[i].render_buffer_capacity_ms,
    decreases reports.len(),
{
    if i < reports.len() - 1 {
        lemma_capacity_bound(reports.drop_last(), cap, i);
    }
}

/// The group-wide leader never exceeds the operator range, nor what any
/// reporting receiver can buffer.
pub proof fn law_leader_fits_every_receiver(
    profile: Profile,
    reports: Seq<ReceiverTelemetry>,
    i: int,
)
    requires
        0 <= i < reports.len(),
    ensures
        group_leader(profile, reports) <= LEADER_MS_MAX,
        group_leader(profile, reports) <= reports[i].render_buffer_capacity_ms,
{
    lemma_capacity_bound(reports, u64::MAX, i);
}

/// In manual mode the source stamps the operator's leader, held within the
/// operator range, whatever the peers report.
pub proof fn law_manual_is_authoritative(
    a: Aggregator,
    now_ns: u64,
    local_ms: u64,
    current: Published,
    reply: PeerReply,
)
    ensures
        ({
            let out = tick_of(a, now_ns, LeaderMode::Manual, local_ms, current, reply).1;
            &&& out.profile == current.profile
            &&& LEADER_MS_MIN <= out.group_leader_ms <= LEADER_MS_MAX
            &&& LEADER_MS_MIN <= local_ms <= LEADER_MS_MAX ==> out.group_leader_ms == local_ms
        }),
{
}

/// A pinned profile stays where the operator put it.
pub proof fn law_pinned_profile_stays(
    a: Aggregator,
    now_ns: u64,
    local_ms: u64,
    current: Published,
    reply: PeerReply,
)
    ensures
        tick_of(a, now_ns, LeaderMode::AutoPinned, local_ms, current, reply).1.profile
            == current.profile,
{
}

/// While no receiver has reported, profile and leader are held and the
/// aggregation starts over.
pub proof fn law_bootstrap_holds(
    a: Aggregator,
    now_ns: u64,
    mode: LeaderMode,
    local_ms: u64,
    current: Published,
    peers: Vec<PeerInfo>,
)
    requires
        mode != LeaderMode::Manual,
        reported(peers@).len() == 0,
    ensures
        tick_of(a, now_ns, mode, local_ms, current, PeerReply::Listed(peers)) == (fresh(), current),
{
}

/// One tick of a run with automatic decay: when, and what was reported.
pub struct AutoTick {
    pub now_ns: u64,
    pub reports: Seq<ReceiverTelemetry>,
}

/// State and profile after a run of ticks with automatic decay.
pub open spec fn run_auto(a: Aggregator, profile: Profile, ticks: Seq<AutoTick>) -> (
    Aggregator,
    Profile,
)
    decreases ticks.len(),
{
    if ticks.len() == 0 {
        (a, profile)
    } else {
        let before = run_auto(a, profile, ticks.drop_last());
        let t = ticks.last();
        (
            next_state(before.0, t.now_ns, LeaderMode::AutoDecay, t.reports),
            next_profile(before.0, t.now_ns, LeaderMode::AutoDecay, before.1, t.reports),
        )
    }
}

/// An underrun past the warm-up escalates the profile in the very tick that
/// sees it.
pub proof fn law_escalation_is_immediate(
    a: Aggregator,
    now_ns: u64,
    profile: Profile,
    reports: Seq<ReceiverTelemetry>,
)
    requires
        !in_warmup(a, now_ns),
        new_underruns(a, reports),
    ensures
        next_profile(a, now_ns, LeaderMode::AutoDecay, profile, reports) == profile.safer(),
        next_state(a, now_ns, LeaderMode::AutoDecay, reports).quiet_ticks == 0,
{
}

/// Tightening takes a sustained quiet window: in fewer ticks than the window
/// still asks for, whatever they report, the profile never moves down.
pub proof fn law_decay_needs_sustained_quiet(
    a: Aggregator,
    profile: Profile,
    ticks: Seq<AutoTick>,
)
    requires
        a.quiet_ticks + ticks.len() < AUTO_DECAY_WINDOW_TICKS,
    ensures
        run_auto(a, profile, ticks).1.code() >= profile.code(),
        run_auto(a, profile, ticks).0.quiet_ticks <= a.quiet_ticks + ticks.len(),
    decreases ticks.len(),
{
    if ticks.len() > 0 {
        law_decay_needs_sustained_quiet(a, profile, ticks.drop_last());
    }
}

/// A full quiet window tightens the profile by one step, at its last tick.
pub proof fn law_quiet_window_decays(a: Aggregator, profile: Profile, ticks: Seq<AutoTick>)
    requires
        a.quiet_ticks == 0,
        0 < ticks.len() <= AUTO_DECAY_WINDOW_TICKS,
        forall|i: int|
            0 <= i < ticks.len() ==> !#[trigger] in_warmup(
                run_auto(a, profile, ticks.take(i)).0,
                ticks[i].now_ns,
            ),
        forall|i: int|
            0 <= i < ticks.len() ==> !#[trigger] new_underruns(
                run_auto(a, profile, ticks.take(i)).0,
                ticks[i].reports,
            ),
    ensures
        ticks.len() < AUTO_DECAY_WINDOW_TICKS ==> run_auto(a, profile, ticks).1 == profile
            && run_auto(a, profile, ticks).0.quiet_ticks == ticks.len(),
        ticks.len() == AUTO_DECAY_WINDOW_TICKS ==> run_auto(a, profile, ticks).1
            == profile.tighter(),
    decreases ticks.len(),
{
    let n = ticks.len() as int;
    let front = ticks.drop_last();
    assert(ticks.take(n - 1) =~= front);
    assert(!in_warmup(run_auto(a, profile, ticks.take(n - 1)).0, ticks[n - 1].now_ns));
    assert(!new_underruns(run_auto(a, profile, ticks.take(n - 1)).0, ticks[n - 1].reports));
    if n > 1 {
        assert forall|i: int| 0 <= i < front.len() implies !#[trigger] in_warmup(
            run_auto(a, profile, front.take(i)).0,
            front[i].now_ns,
        ) by {
            assert(front.take(i) =~= ticks.take(i));
            assert(!in_warmup(run_auto(a, profile, ticks.take(i)).0, ticks[i].now_ns));
        }
        assert forall|i: int| 0 <= i < front.len() implies !#[trigger] new_underruns(
            run_auto(a, profile, front.take(i)).0,
            front[i].reports,
        ) by {
            assert(front.take(i) =~= ticks.take(i));
            assert(!new_underruns(run_auto(a, profile, ticks.take(i)).0, ticks[i].reports));
        }
        law_quiet_window_decays(a, profile, front);
    }
}

/// The jitter that sets the leader is that of the worst receiver: at least what
/// every report says, and what one of them says.
pub proof fn law_the_worst_jitter_counts(reports: Seq<ReceiverTelemetry>)
    ensures
        forall|i: int|
            0 <= i < reports.len() ==> (#[trigger] reports[i]).observed_jitter_p95_ms <= max_jitter(
                reports,
            ),
        reports.len() > 0 ==> exists|i: int|
            0 <= i < reports.len() && (#[trigger] reports[i]).observed_jitter_p95_ms == max_jitter(
                reports,
            ),
        reports.len() == 0 ==> max_jitter(reports) == 0,
    decreases reports.len(),
{
    if reports.len() > 0 {
        let front = reports.drop_last();
        law_the_worst_jitter_counts(front);
        assert forall|i: int| 0 <= i < reports.len() implies (
        #[trigger] reports[i]).observed_jitter_p95_ms <= max_jitter(reports) by {
            if i < front.len() {
                assert(front[i].observed_jitter_p95_ms <= max_jitter(front));
            }
        }
        if front.len() > 0 {
            let k = choose|i: int|
                0 <= i < front.len() && (#[trigger] front[i]).observed_jitter_p95_ms == max_jitter(
                    front,
                );
            assert(reports[k].observed_jitter_p95_ms == max_jitter(front));
        }
        assert(reports[reports.len() - 1] == reports.last());
    }
}

/// The buffer that caps the leader is the smallest one reported.
pub proof fn law_the_smallest_buffer_counts(reports: Seq<ReceiverTelemetry>)
    ensures
        forall|i: int|
            0 <= i < reports.len() ==> (#[trigger] reports[i]).render_buffer_capacity_ms
                >= min_capacity(reports, u64::MAX),
        reports.len() > 0 ==> exists|i: int|
            0 <= i < reports.len() && (#[trigger] reports[i]).render_buffer_capacity_ms
                == min_capacity(reports, u64::MAX),
        reports.len() == 0 ==> min_capacity(reports, u64::MAX) == u64::MAX,
    decreases reports.len(),
{
    if reports.len() > 0 {
        let front = reports.drop_last();
        law_the_smallest_buffer_counts(front);
        assert forall|i: int| 0 <= i < reports.len() implies (
        #[trigger] reports[i]).render_buffer_capacity_ms >= min_capacity(reports, u64::MAX) by {
            if i < front.len() {
                assert(front[i].render_buffer_capacity_ms >= min_capacity(front, u64::MAX));
            }
        }
        if front.len() > 0 {
            let k = choose|i: int|
                0 <= i < front.len() && (#[trigger] front[i]).render_buffer_capacity_ms
                    == min_capacity(front, u64::MAX);
            assert(reports[k].render_buffer_capacity_ms == min_capacity(front, u64::MAX));
        }
        assert(reports[reports.len() - 1] == reports.last());
    }
}

/// A tick looks at the reports of all peers that have reported, and at nothing
/// else.
pub proof fn law_every_report_counts(peers: Seq<PeerInfo>, t: ReceiverTelemetry)
    ensures
        reported(peers).contains(t) <==> (exists|i: int|
            0 <= i < peers.len() && (#[trigger] peers[i]).receiver_telemetry == Some(t)),
    decreases peers.len(),
{
    if peers.len() > 0 {
        let front = peers.drop_last();
        law_every_report_counts(front, t);
        let n = front.len() as int;
        assert(peers[n] == peers.last());
        if exists|i: int| 0 <= i < front.len() && (#[trigger] front[i]).receiver_telemetry == Some(
            t,
        ) {
            let i = choose|i: int|
                0 <= i < front.len() && (#[trigger] front[i]).receiver_telemetry == Some(t);
            assert(peers[i].receiver_telemetry == Some(t));
        }
        if exists|i: int| 0 <= i < peers.len() && (#[trigger] peers[i]).receiver_telemetry == Some(
            t,
        ) {
            let i = choose|i: int|
                0 <= i < peers.len() && (#[trigger] peers[i]).receiver_telemetry == Some(t);
            if i < n {
                assert(front[i].receiver_telemetry == Some(t));
            }
        }
        if let Some(last) = peers.last().receiver_telemetry {
            let before = reported(front);
            assert(reported(peers)[before.len() as int] == last);
            if before.contains(t) {
                let i = choose|i: int| 0 <= i < before.len() && before[i] == t;
                assert(reported(peers)[i] == t);
            }
            if reported(peers).contains(t) && last != t {
                let i = choose|i: int| 0 <= i < reported(peers).len() && reported(peers)[i] == t;
                assert(before[i] == t);
            }
        }
    }
}

/// The leader serves the worst receiver: under the profile published with it, it
/// is the multiplied largest jitter plus the profile's budget, held within the
/// operator range, and cut to the smallest buffer where that is less.
pub proof fn law_the_leader_serves_the_worst_receiver(
    a: Aggregator,
    now_ns: u64,
    mode: LeaderMode,
    local_ms: u64,
    current: Published,
    peers: Vec<PeerInfo>,
    worst: int,
)
    requires
        mode != LeaderMode::Manual,
        0 <= worst < peers@.len(),
        peers@[worst].receiver_telemetry is Some,
        forall|i: int|
            0 <= i < peers@.len() && (#[trigger] peers@[i]).receiver_telemetry is Some
                ==> peers@[i].receiver_telemetry->Some_0.observed_jitter_p95_ms
                <= peers@[worst].receiver_telemetry->Some_0.observed_jitter_p95_ms,
    ensures
        ({
            let out = tick_of(a, now_ns, mode, local_ms, current, PeerReply::Listed(peers)).1;
            let jitter = peers@[worst].receiver_telemetry->Some_0.observed_jitter_p95_ms;
            let wanted = match out.profile {
                Profile::Aggressive => jitter * 3 / 2 + 30,
                Profile::Conservative => jitter * 2 + 50,
                Profile::Defensive => jitter * 3 + 100,
            };
            let held = if wanted < 20 {
                20
            } else if wanted > 2000 {
                2000
            } else {
                wanted
            };
            &&& out.group_leader_ms <= held
            &&& forall|i: int|
                0 <= i < peers@.len() && (#[trigger] peers@[i]).receiver_telemetry is Some
                    ==> out.group_leader_ms
                    <= peers@[i].receiver_telemetry->Some_0.render_buffer_capacity_ms
            &&& out.group_leader_ms == held || exists|i: int|
                0 <= i < peers@.len() && (#[trigger] peers@[i]).receiver_telemetry is Some
                    && out.group_leader_ms
                    == peers@[i].receiver_telemetry->Some_0.render_buffer_capacity_ms
        }),
{
    let reports = reported(peers@);
    let top = peers@[worst].receiver_telemetry->Some_0;
    law_every_report_counts(peers@, top);
    law_the_worst_jitter_counts(reports);
    law_the_smallest_buffer_counts(reports);
    let w = choose|i: int| 0 <= i < reports.len() && reports[i] == top;
    assert(reports[w].observed_jitter_p95_ms <= max_jitter(reports));
    let k = choose|i: int|
        0 <= i < reports.len() && (#[trigger] reports[i]).observed_jitter_p95_ms == max_jitter(
            reports,
        );
    law_every_report_counts(peers@, reports[k]);
    assert(reports.contains(reports[k]));
    let c = choose|i: int|
        0 <= i < reports.len() && (#[trigger] reports[i]).render_buffer_capacity_ms == min_capacity(
            reports,
            u64::MAX,
        );
    law_every_report_counts(peers@, reports[c]);
    assert(reports.contains(reports[c]));
    let out = tick_of(a, now_ns, mode, local_ms, current, PeerReply::Listed(peers)).1;
    assert(max_jitter(reports) == top.observed_jitter_p95_ms);
    assert forall|i: int|
        0 <= i < peers@.len() && (#[trigger] peers@[i]).receiver_telemetry is Some implies
    out.group_leader_ms <= peers@[i].receiver_telemetry->Some_0.render_buffer_capacity_ms by {
        let t = peers@[i].receiver_telemetry->Some_0;
        law_every_report_counts(peers@, t);
        let j = choose|j: int| 0 <= j < reports.len() && reports[j] == t;
        assert(reports[j].render_buffer_capacity_ms >= min_capacity(reports, u64::MAX));
    }
}

/// More jitter at any receiver never shortens the leader.
pub proof fn law_more_jitter_never_shortens_the_leader(
    profile: Profile,
    before: Seq<ReceiverTelemetry>,
    after: Seq<ReceiverTelemetry>,
)
    requires
        before.len() == after.len(),
        forall|i: int|
            #![trigger before[i]]
            #![trigger after[i]]
            0 <= i < before.len() ==> before[i].observed_jitter_p95_ms
                <= after[i].observed_jitter_p95_ms && before[i].render_buffer_capacity_ms
                == after[i].render_buffer_capacity_ms,
    ensures
        group_leader(profile, before) <= group_leader(profile, after),
{
    law_the_worst_jitter_counts(before);
    law_the_worst_jitter_counts(after);
    lemma_same_capacity(before, after);
    if before.len() > 0 {
        let k = choose|i: int|
            0 <= i < before.len() && (#[trigger] before[i]).observed_jitter_p95_ms == max_jitter(
                before,
            );
        assert(after[k].observed_jitter_p95_ms <= max_jitter(after));
    }
    let x = max_jitter(before);
    let y = max_jitter(after);
    let h = profile.factor_halves();
    assert(x * h <= y * h) by (nonlinear_arith)
        requires
            x <= y,
            h >= 0,
    ;
}

proof fn lemma_same_capacity(before: Seq<ReceiverTelemetry>, after: Seq<ReceiverTelemetry>)
    requires
        before.len() == after.len(),
        forall|i: int|
            #![trigger before[i]]
            #![trigger after[i]]
            0 <= i < before.len() ==> before[i].render_buffer_capacity_ms
                == after[i].render_buffer_capacity_ms,
    ensures
        min_capacity(before, u64::MAX) == min_capacity(after, u64::MAX),
    decreases before.len(),
{
    if before.len() > 0 {
        assert(before[before.len() - 1].render_buffer_capacity_ms == after[before.len()
            - 1].render_buffer_capacity_ms);
        lemma_same_capacity(before.drop_last(), after.drop_last());
    }
}

proof fn lemma_reports_of_reporting(peers: Seq<PeerInfo>)
    requires
        forall|i: int| 0 <= i < peers.len() ==> (#[trigger] peers[i]).receiver_telemetry is Some,
    ensures
        reported(peers).len() == peers.len(),
        forall|i: int|
            0 <= i < peers.len() ==> #[trigger] reported(peers)[i]
                == peers[i].receiver_telemetry->Some_0,
    decreases peers.len(),
{
    if peers.len() > 0 {
        assert(peers[peers.len() - 1].receiver_telemetry is Some);
        lemma_reports_of_reporting(peers.drop_last());
    }
}

proof fn lemma_totals(before: Seq<ReceiverTelemetry>, after: Seq<ReceiverTelemetry>)
    requires
        before.len() == after.len(),
        forall|i: int|
            #![trigger before[i]]
            #![trigger after[i]]
            0 <= i < before.len() ==> before[i].underrun_count <= after[i].underrun_count,
    ensures
        total_underruns(before) <= total_underruns(after),
        (exists|k: int|
            #![trigger before[k]]
            0 <= k < before.len() && before[k].underrun_count < after[k].underrun_count)
            ==> total_underruns(before) < total_underruns(after),
    decreases before.len(),
{
    if before.len() > 0 {
        let n = before.len() - 1;
        assert(before[n].underrun_count <= after[n].underrun_count);
        lemma_totals(before.drop_last(), after.drop_last());
        if exists|k: int|
            #![trigger before[k]]
            0 <= k < before.len() && before[k].underrun_count < after[k].underrun_count {
            let k = choose|k: int|
                #![trigger before[k]]
                0 <= k < before.len() && before[k].underrun_count < after[k].underrun_count;
            if k < n {
                assert(before.drop_last()[k].underrun_count
                    < after.drop_last()[k].underrun_count);
            }
        }
    }
}

/// Any one receiver's new underrun counts: between two ticks with automatic
/// decay, the later one past the warm-up, the profile moves one step towards
/// safety exactly if some receiver has underrun since. A quiet tick never
/// does, and none does during the warm-up, whatever was counted in it.
pub proof fn law_one_new_underrun_escalates(
    a: Aggregator,
    start_ns: u64,
    now_ns: u64,
    later_ns: u64,
    local_ms: u64,
    current: Published,
    before: Vec<PeerInfo>,
    after: Vec<PeerInfo>,
)
    requires
        before@.len() == after@.len(),
        before@.len() > 0,
        forall|i: int|
            #![trigger before@[i]]
            #![trigger after@[i]]
            0 <= i < before@.len() ==> before@[i].receiver_telemetry is Some
                && after@[i].receiver_telemetry is Some
                && before@[i].receiver_telemetry->Some_0.underrun_count
                <= after@[i].receiver_telemetry->Some_0.underrun_count,
        total_underruns(reported(after@)) <= u64::MAX,
        match a.first_telemetry_ns {
            Some(t) => start_ns == t,
            None => start_ns == now_ns,
        },
        start_ns <= later_ns,
    ensures
        ({
            let mode = LeaderMode::AutoDecay;
            let first = tick_of(a, now_ns, mode, local_ms, current, PeerReply::Listed(before));
            let second = tick_of(
                first.0,
                later_ns,
                mode,
                local_ms,
                first.1,
                PeerReply::Listed(after),
            );
            let grew = exists|i: int|
                #![trigger before@[i]]
                0 <= i < before@.len() && before@[i].receiver_telemetry->Some_0.underrun_count
                    < after@[i].receiver_telemetry->Some_0.underrun_count;
            &&& later_ns - start_ns < 10_000 * 1_000_000 ==> second.1.profile == first.1.profile
                && second.0.quiet_ticks == 0
            &&& later_ns - start_ns >= 10_000 * 1_000_000 && grew ==> second.0.quiet_ticks == 0
                && second.1.profile == match first.1.profile {
                Profile::Aggressive => Profile::Conservative,
                Profile::Conservative => Profile::Defensive,
                Profile::Defensive => Profile::Defensive,
            }
            &&& later_ns - start_ns >= 10_000 * 1_000_000 && !grew ==> second.1.profile.code()
                <= first.1.profile.code()
        }),
{
    lemma_reports_of_reporting(before@);
    lemma_reports_of_reporting(after@);
    let rb = reported(before@);
    let ra = reported(after@);
    assert forall|i: int| #![trigger rb[i]] #![trigger ra[i]] 0 <= i < rb.len() implies rb[i].underrun_count
        <= ra[i].underrun_count by {
        assert(before@[i].receiver_telemetry is Some);
        assert(rb[i] == before@[i].receiver_telemetry->Some_0);
        assert(ra[i] == after@[i].receiver_telemetry->Some_0);
    }
    lemma_totals(rb, ra);
    let grew = exists|i: int|
        #![trigger before@[i]]
        0 <= i < before@.len() && before@[i].receiver_telemetry->Some_0.underrun_count
            < after@[i].receiver_telemetry->Some_0.underrun_count;
    if grew {
        let k = choose|i: int|
            #![trigger before@[i]]
            0 <= i < before@.len() && before@[i].receiver_telemetry->Some_0.underrun_count
                < after@[i].receiver_telemetry->Some_0.underrun_count;
        assert(rb[k] == before@[k].receiver_telemetry->Some_0);
        assert(ra[k] == after@[k].receiver_telemetry->Some_0);
        assert(rb[k].underrun_count < ra[k].underrun_count);
    } else {
        assert forall|i: int| #![trigger rb[i]] #![trigger ra[i]] 0 <= i < rb.len() implies ra[i].underrun_count
            <= rb[i].underrun_count by {
            assert(before@[i].receiver_telemetry is Some);
            assert(rb[i] == before@[i].receiver_telemetry->Some_0);
            assert(ra[i] == after@[i].receiver_telemetry->Some_0);
        }
        lemma_totals(ra, rb);
    }
}

proof fn lemma_total_without(reports: Seq<ReceiverTelemetry>, k: int)
    requires
        0 <= k < reports.len(),
    ensures
        total_underruns(reports) == total_underruns(reports.remove(k)) + reports[k].underrun_count,
    decreases reports.len(),
{
    let n = reports.len() - 1;
    let front = reports.drop_last();
    if k == n {
        assert(reports.remove(k) =~= front);
    } else {
        lemma_total_without(front, k);
        assert(reports.remove(k).drop_last() =~= front.remove(k));
    }
}

proof fn lemma_total_is_of_multiset(one: Seq<ReceiverTelemetry>, other: Seq<ReceiverTelemetry>)
    requires
        one.to_multiset() == other.to_multiset(),
    ensures
        total_underruns(one) == total_underruns(other),
    decreases one.len(),
{
    one.to_multiset_ensures();
    other.to_multiset_ensures();
    assert(one.len() == other.len());
    if one.len() > 0 {
        let t = one.last();
        let front = one.drop_last();
        assert(one[one.len() - 1] == t);
        assert(one.contains(t));
        assert(other.to_multiset().count(t) > 0);
        assert(other.contains(t));
        let k = choose|k: int| 0 <= k < other.len() && other[k] == t;
        lemma_total_without(other, k);
        let rest = other.remove(k);
        assert(rest.to_multiset() =~= other.to_multiset().remove(t));
        assert(one.remove(one.len() - 1) =~= front);
        assert(front.to_multiset() =~= one.to_multiset().remove(t));
        lemma_total_is_of_multiset(front, rest);
    }
}

/// The order in which the peers are listed decides nothing: the same reports in
/// another order give the same leader and the same underruns.
pub proof fn law_peer_order_decides_nothing(
    profile: Profile,
    one: Seq<ReceiverTelemetry>,
    other: Seq<ReceiverTelemetry>,
)
    requires
        one.to_multiset() == other.to_multiset(),
    ensures
        group_leader(profile, one) == group_leader(profile, other),
        counted_underruns(one) == counted_underruns(other),
{
    one.to_multiset_ensures();
    other.to_multiset_ensures();
    lemma_total_is_of_multiset(one, other);
    law_the_worst_jitter_counts(one);
    law_the_worst_jitter_counts(other);
    law_the_smallest_buffer_counts(one);
    law_the_smallest_buffer_counts(other);
    lemma_found_in_other(one, other);
    lemma_found_in_other(other, one);
}

proof fn lemma_found_in_other(one: Seq<ReceiverTelemetry>, other: Seq<ReceiverTelemetry>)
    requires
        one.to_multiset() == other.to_multiset(),
    ensures
        one.len() == other.len(),
        max_jitter(one) <= max_jitter(other),
        min_capacity(one, u64::MAX) >= min_capacity(other, u64::MAX),
{
    one.to_multiset_ensures();
    other.to_multiset_ensures();
    law_the_worst_jitter_counts(one);
    law_the_worst_jitter_counts(other);
    law_the_smallest_buffer_counts(one);
    law_the_smallest_buffer_counts(other);
    if one.len() > 0 {
        let k = choose|i: int|
            0 <= i < one.len() && (#[trigger] one[i]).observed_jitter_p95_ms == max_jitter(one);
        assert(one.contains(one[k]));
        assert(other.to_multiset().count(one[k]) > 0);
        assert(other.contains(one[k]));
        let j = choose|j: int| 0 <= j < other.len() && other[j] == one[k];
        assert(other[j].observed_jitter_p95_ms <= max_jitter(other));
        let c = choose|i: int|
            0 <= i < one.len() && (#[trigger] one[i]).render_buffer_capacity_ms == min_capacity(
                one,
                u64::MAX,
            );
        assert(one.contains(one[c]));
        assert(other.to_multiset().count(one[c]) > 0);
        assert(other.contains(one[c]));
        let d = choose|d: int| 0 <= d < other.len() && other[d] == one[c];
        assert(other[d].render_buffer_capacity_ms >= min_capacity(other, u64::MAX));
    }
}

} // verus!
