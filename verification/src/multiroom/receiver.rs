//! Presentation-time scheduler of the receiver.
//!
//! The first frame received anchors a local playback timeline. Every frame is
//! due at the anchor plus its distance from the anchor frame plus the leader.
//! Frames leave the queue in arrival order, each exactly once, and their bytes
//! are handed on verbatim: the scheduler neither drops nor inserts samples.
//!
//! Instants are nanoseconds of the node's monotonic clock.

use crate::multiroom::percentile::{
    kth_smallest, kth_smallest_of, law_positions_are_those_of_the_sorted, p95_index, p95_position,
};
use crate::multiroom::profile::LeaderMode;
use crate::text::{same_text, views};
use std::collections::VecDeque;
use vstd::prelude::*;

verus! {

/// Period of the scheduler, in milliseconds.
pub const SCHEDULER_TICK_MS: u64 = 5;

/// How long a jitter sample counts towards the percentile, in milliseconds.
pub const RECEIVER_JITTER_WINDOW_MS: u64 = 10_000;

/// How often the receiver publishes its telemetry, in milliseconds.
pub const RECEIVER_TELEMETRY_PUBLISH_MS: u64 = 3000;

/// Nanoseconds per millisecond.
pub const NANOS_PER_MS: u64 = 1_000_000;

/// One audio frame as delivered by the audio plane.
#[derive(Debug, PartialEq, Eq)]
pub struct ReceivedFrame {
    pub from_device_id: String,
    pub group_id: String,
    pub codec: String,
    pub rate_hz: u32,
    pub channels: u16,
    /// Source-local time of emission.
    pub presentation_time_ms: u64,
    /// Leader stamped by the source; zero when the source stamped none.
    pub group_leader_ms: u64,
    pub payload: Vec<u8>,
}

/// Where the playback timeline is pinned.
#[derive(Debug, Clone, Copy, PartialEq, Eq, Structural)]
pub struct Anchor {
    /// Local instant at which the first frame arrived.
    pub local_ns: u64,
    /// Presentation time of the first frame.
    pub pts_ms: u64,
}

/// How late one frame was handed to the renderer.
#[derive(Debug, Clone, Copy, PartialEq, Eq, Structural)]
pub struct JitterSample {
    pub at_ns: u64,
    pub jitter_ms: u64,
}

/// The receiver's scheduler state.
pub struct ReceiverScheduler {
    anchor: Option<Anchor>,
    queue: VecDeque<ReceivedFrame>,
    jitter: VecDeque<JitterSample>,
    seen_peers: Vec<String>,
    frames_received: u64,
    group_leader_ms: u64,
    jitter_p95_ms: u64,
    underruns: u64,
}

/// What a [`ReceiverScheduler`] holds.
#[verifier::ext_equal]
pub struct ReceiverModel {
    pub anchor: Option<Anchor>,
    pub queue: Seq<ReceivedFrame>,
    pub jitter: Seq<JitterSample>,
    pub seen_peers: Seq<Seq<char>>,
    pub frames_received: u64,
    pub group_leader_ms: u64,
    pub jitter_p95_ms: u64,
    pub underruns: u64,
}

impl View for ReceiverScheduler {
    type V = ReceiverModel;

    closed spec fn view(&self) -> ReceiverModel {
        ReceiverModel {
            anchor: self.anchor,
            queue: self.queue@,
            jitter: self.jitter@,
            seen_peers: views(self.seen_peers@),
            frames_received: self.frames_received,
            group_leader_ms: self.group_leader_ms,
            jitter_p95_ms: self.jitter_p95_ms,
            underruns: self.underruns,
        }
    }
}

/// `n + 1`, wrapping at the end of the range.
pub open spec fn counted(n: u64) -> u64 {
    if n == u64::MAX {
        0
    } else {
        (n + 1) as u64
    }
}

/// `a - b`, or zero when `b` is larger.
pub open spec fn minus_or_zero(a: int, b: int) -> int {
    if a >= b {
        a - b
    } else {
        0
    }
}

/// The state before the first frame, with the figures counted so far.
pub open spec fn idle(leader_ms: u64, frames_received: u64, underruns: u64, jitter_p95_ms: u64) ->
    ReceiverModel {
    ReceiverModel {
        anchor: None,
        queue: Seq::empty(),
        jitter: Seq::empty(),
        seen_peers: Seq::empty(),
        frames_received,
        group_leader_ms: leader_ms,
        jitter_p95_ms,
        underruns,
    }
}

/// The state after `frame` arrived at `now_ns`.
pub open spec fn after_frame(m: ReceiverModel, now_ns: u64, frame: ReceivedFrame) -> ReceiverModel {
    ReceiverModel {
        anchor: match m.anchor {
            Some(a) => Some(a),
            None => Some(Anchor { local_ns: now_ns, pts_ms: frame.presentation_time_ms }),
        },
        queue: m.queue.push(frame),
        seen_peers: if m.seen_peers.contains(frame.from_device_id@) {
            m.seen_peers
        } else {
            m.seen_peers.push(frame.from_device_id@)
        },
        frames_received: counted(m.frames_received),
        group_leader_ms: if frame.group_leader_ms > 0 {
            frame.group_leader_ms
        } else {
            m.group_leader_ms
        },
        ..m
    }
}

/// The leader that applies at a tick: the operator's in manual mode, else the
/// source's, falling back to the operator's while the source has stamped none.
pub open spec fn effective_leader(mode: LeaderMode, local_ms: u64, group_ms: u64) -> u64 {
    if mode == LeaderMode::Manual || group_ms == 0 {
        local_ms
    } else {
        group_ms
    }
}

/// Distance of a frame's render time from the anchor, in milliseconds.
pub open spec fn scheduled_ms(a: Anchor, frame: ReceivedFrame, leader_ms: u64) -> int {
    minus_or_zero(frame.presentation_time_ms as int, a.pts_ms as int) + leader_ms
}

/// Whether a frame's render time has come.
pub open spec fn is_due(a: Anchor, frame: ReceivedFrame, leader_ms: u64, now_ns: u64) -> bool {
    a.local_ns + scheduled_ms(a, frame, leader_ms) * NANOS_PER_MS <= now_ns
}

/// Whole milliseconds by which a frame is handed on after its render time.
pub open spec fn lateness_ms(a: Anchor, frame: ReceivedFrame, leader_ms: u64, now_ns: u64) -> u64 {
    minus_or_zero(
        minus_or_zero(now_ns as int, a.local_ns as int) / (NANOS_PER_MS as int),
        scheduled_ms(a, frame, leader_ms),
    ) as u64
}

/// Length of the longest prefix of `queue` whose frames are due.
pub open spec fn due_count(
    anchor: Option<Anchor>,
    queue: Seq<ReceivedFrame>,
    leader_ms: u64,
    now_ns: u64,
) -> nat
    decreases queue.len(),
{
    match anchor {
        None => 0,
        Some(a) => if queue.len() > 0 && is_due(a, queue[0], leader_ms, now_ns) {
            1 + due_count(anchor, queue.drop_first(), leader_ms, now_ns)
        } else {
            0
        },
    }
}

/// The frames handed to the renderer at a tick, in order.
pub open spec fn rendered_at(m: ReceiverModel, now_ns: u64, mode: LeaderMode, local_ms: u64) -> Seq<
    ReceivedFrame,
> {
    let leader = effective_leader(mode, local_ms, m.group_leader_ms);
    m.queue.take(due_count(m.anchor, m.queue, leader, now_ns) as int)
}

/// One jitter sample per frame handed on.
pub open spec fn samples_of(
    anchor: Option<Anchor>,
    frames: Seq<ReceivedFrame>,
    leader_ms: u64,
    now_ns: u64,
) -> Seq<JitterSample> {
    Seq::new(
        frames.len(),
        |i: int|
            JitterSample {
                at_ns: now_ns,
                jitter_ms: lateness_ms(anchor->Some_0, frames[i], leader_ms, now_ns),
            },
    )
}

/// `samples` without its longest prefix that has left the window.
pub open spec fn in_window(samples: Seq<JitterSample>, now_ns: u64) -> Seq<JitterSample>
    decreases samples.len(),
{
    if samples.len() > 0 && minus_or_zero(now_ns as int, samples[0].at_ns as int)
        > RECEIVER_JITTER_WINDOW_MS * NANOS_PER_MS {
        in_window(samples.drop_first(), now_ns)
    } else {
        samples
    }
}

/// The jitter values of samples.
pub open spec fn jitter_values(samples: Seq<JitterSample>) -> Seq<u64> {
    Seq::new(samples.len(), |i: int| samples[i].jitter_ms)
}

/// The 95th percentile of the samples.
pub open spec fn p95_of(samples: Seq<JitterSample>) -> u64 {
    kth_smallest_of(jitter_values(samples), p95_index(samples.len()))
}

/// The state after a tick at `now_ns`.
pub open spec fn after_tick(m: ReceiverModel, now_ns: u64, mode: LeaderMode, local_ms: u64) ->
    ReceiverModel {
    let leader = effective_leader(mode, local_ms, m.group_leader_ms);
    let rendered = rendered_at(m, now_ns, mode, local_ms);
    let jitter = in_window(m.jitter + samples_of(m.anchor, rendered, leader, now_ns), now_ns);
    ReceiverModel {
        queue: m.queue.skip(rendered.len() as int),
        jitter,
        jitter_p95_ms: if jitter.len() > 0 {
            p95_of(jitter)
        } else {
            m.jitter_p95_ms
        },
        ..m
    }
}

/// Whether a frame's render time has come.
fn due(a: Anchor, frame: &ReceivedFrame, leader_ms: u64, now_ns: u64) -> (r: bool)
    ensures
        r == is_due(a, *frame, leader_ms, now_ns),
{
    let offset: u64 = frame.presentation_time_ms.saturating_sub(a.pts_ms);
    let span: u128 = offset as u128 + leader_ms as u128;
    assert(span * 1_000_000 <= 0xffff_ffff_ffff_ffff * 2_000_000);
    let at: u128 = a.local_ns as u128 + span * (NANOS_PER_MS as u128);
    at <= now_ns as u128
}

/// Milliseconds of lateness of a due frame.
fn lateness(a: Anchor, frame: &ReceivedFrame, leader_ms: u64, now_ns: u64) -> (r: u64)
    requires
        is_due(a, *frame, leader_ms, now_ns),
    ensures
        r == lateness_ms(a, *frame, leader_ms, now_ns),
{
    let offset: u64 = frame.presentation_time_ms.saturating_sub(a.pts_ms);
    let actual: u64 = now_ns.saturating_sub(a.local_ns) / NANOS_PER_MS;
    assert(offset + leader_ms <= now_ns) by (nonlinear_arith)
        requires
            a.local_ns + (offset + leader_ms) * 1_000_000 <= now_ns,
    ;
    actual.saturating_sub(offset + leader_ms)
}

impl ReceiverScheduler {
    /// An empty scheduler whose group leader starts at `leader_ms`.
    pub fn new(leader_ms: u64) -> (r: ReceiverScheduler)
        ensures
            r@ == idle(leader_ms, 0, 0, 0),
    {
        ReceiverScheduler::resuming(leader_ms, 0, 0, 0)
    }

    /// An empty scheduler that counts on from earlier figures.
    pub fn resuming(leader_ms: u64, frames_received: u64, underruns: u64, jitter_p95_ms: u64) -> (r:
        ReceiverScheduler)
        ensures
            r@ == idle(leader_ms, frames_received, underruns, jitter_p95_ms),
    {
        let r = ReceiverScheduler {
            anchor: None,
            queue: VecDeque::new(),
            jitter: VecDeque::new(),
            seen_peers: Vec::new(),
            frames_received,
            group_leader_ms: leader_ms,
            jitter_p95_ms,
            underruns,
        };
        assert(r@.seen_peers =~= Seq::<Seq<char>>::empty());
        r
    }

    fn knows(&self, device: &str) -> (r: bool)
        ensures
            r == self@.seen_peers.contains(device@),
    {
        let n: usize = self.seen_peers.len();
        for i in 0..n
            invariant
                n == self.seen_peers@.len(),
                forall|j: int| 0 <= j < i ==> self.seen_peers@[j]@ != device@,
        {
            if same_text(self.seen_peers[i].as_str(), device) {
                assert(self@.seen_peers[i as int] == device@);
                return true;
            }
        }
        false
    }

    /// Queues a frame. Returns whether it is the first of its sender.
    pub fn on_frame(&mut self, now_ns: u64, frame: ReceivedFrame) -> (first_of_peer: bool)
        ensures
            final(self)@ == after_frame(old(self)@, now_ns, frame),
            first_of_peer == !old(self)@.seen_peers.contains(frame.from_device_id@),
    {
        self.frames_received = self.frames_received.wrapping_add(1);
        let known = self.knows(frame.from_device_id.as_str());
        if !known {
            let ghost before = self.seen_peers@;
            self.seen_peers.push(frame.from_device_id.clone());
            assert(views(self.seen_peers@) =~= views(before).push(frame.from_device_id@));
        }
        if self.anchor.is_none() {
            self.anchor = Some(Anchor { local_ns: now_ns, pts_ms: frame.presentation_time_ms });
        }
        if frame.group_leader_ms > 0 {
            self.group_leader_ms = frame.group_leader_ms;
        }
        self.queue.push_back(frame);
        assert(self@ =~= after_frame(old(self)@, now_ns, frame));
        !known
    }

    /// Hands out every frame that is due, samples its lateness, and refreshes
    /// the jitter percentile over the current window.
    pub fn on_tick(&mut self, now_ns: u64, mode: LeaderMode, local_ms: u64) -> (rendered: Vec<
        ReceivedFrame,
    >)
        ensures
            rendered@ == rendered_at(old(self)@, now_ns, mode, local_ms),
            final(self)@ == after_tick(old(self)@, now_ns, mode, local_ms),
    {
        let leader: u64 = if mode == LeaderMode::Manual || self.group_leader_ms == 0 {
            local_ms
        } else {
            self.group_leader_ms
        };
        proof {
            lemma_due_count_bound(self@.anchor, self@.queue, leader, now_ns);
        }
        let rendered = self.take_due(now_ns, leader);
        self.prune(now_ns);
        self.refresh_p95();
        assert(self@ =~= after_tick(old(self)@, now_ns, mode, local_ms));
        rendered
    }

    fn take_due(&mut self, now_ns: u64, leader_ms: u64) -> (rendered: Vec<ReceivedFrame>)
        ensures
            ({
                let m = old(self)@;
                let k = due_count(m.anchor, m.queue, leader_ms, now_ns) as int;
                &&& rendered@ == m.queue.take(k)
                &&& final(self)@ == (ReceiverModel {
                    queue: m.queue.skip(k),
                    jitter: m.jitter + samples_of(m.anchor, m.queue.take(k), leader_ms, now_ns),
                    ..m
                })
            }),
    {
        let mut rendered: Vec<ReceivedFrame> = Vec::new();
        let ghost m = self@;
        proof {
            lemma_due_count_bound(m.anchor, m.queue, leader_ms, now_ns);
            assert(m.queue.skip(0) =~= m.queue);
            assert(m.jitter + samples_of(m.anchor, m.queue.take(0), leader_ms, now_ns) =~= m.jitter);
        }
        if let Some(a) = self.anchor {
            while self.queue.len() > 0 && due(a, &self.queue[0], leader_ms, now_ns)
                invariant
                    m == old(self)@,
                    m.anchor == Some(a),
                    rendered@.len() <= m.queue.len(),
                    rendered@ == m.queue.take(rendered@.len() as int),
                    self@ == (ReceiverModel {
                        queue: m.queue.skip(rendered@.len() as int),
                        jitter: m.jitter + samples_of(m.anchor, rendered@, leader_ms, now_ns),
                        ..m
                    }),
                    due_count(m.anchor, m.queue, leader_ms, now_ns) == rendered@.len() + due_count(
                        m.anchor,
                        self@.queue,
                        leader_ms,
                        now_ns,
                    ),
                decreases self@.queue.len(),
            {
                let ghost before = self@;
                let jitter_ms: u64 = lateness(a, &self.queue[0], leader_ms, now_ns);
                let ghost done = rendered@;
                if let Some(frame) = self.queue.pop_front() {
                    self.jitter.push_back(JitterSample { at_ns: now_ns, jitter_ms });
                    rendered.push(frame);
                    assert(frame == m.queue[done.len() as int]);
                    assert(before.queue.drop_first() =~= m.queue.skip(done.len() as int + 1));
                    assert(self@.queue =~= m.queue.skip(done.len() as int + 1));
                    assert(rendered@ =~= m.queue.take(done.len() as int + 1));
                    assert(self@.jitter =~= m.jitter + samples_of(
                        m.anchor,
                        rendered@,
                        leader_ms,
                        now_ns,
                    ));
                }
            }
        }
        rendered
    }

    fn prune(&mut self, now_ns: u64)
        ensures
            final(self)@ == (ReceiverModel {
                jitter: in_window(old(self)@.jitter, now_ns),
                ..old(self)@
            }),
    {
        while self.jitter.len() > 0 && now_ns.saturating_sub(self.jitter[0].at_ns)
            > RECEIVER_JITTER_WINDOW_MS * NANOS_PER_MS
            invariant
                in_window(self@.jitter, now_ns) == in_window(old(self)@.jitter, now_ns),
                self@ == (ReceiverModel { jitter: self@.jitter, ..old(self)@ }),
            decreases self@.jitter.len(),
        {
            let ghost before = self@.jitter;
            let _ = self.jitter.pop_front();
            assert(self@.jitter =~= before.drop_first());
        }
    }

    fn refresh_p95(&mut self)
        ensures
            final(self)@ == (ReceiverModel {
                jitter_p95_ms: if old(self)@.jitter.len() > 0 {
                    p95_of(old(self)@.jitter)
                } else {
                    old(self)@.jitter_p95_ms
                },
                ..old(self)@
            }),
    {
        let n: usize = self.jitter.len();
        if n > 0 {
            let mut values: Vec<u64> = Vec::new();
            for i in 0..n
                invariant
                    n == self.jitter@.len(),
                    self@ == old(self)@,
                    values@ == jitter_values(self.jitter@).take(i as int),
            {
                values.push(self.jitter[i].jitter_ms);
                assert(values@ =~= jitter_values(self.jitter@).take(i + 1));
            }
            assert(values@ =~= jitter_values(self@.jitter));
            self.jitter_p95_ms = kth_smallest(&values, p95_position(n));
        }
    }

    /// Counts a write that recovered from an underrun of the output device.
    pub fn on_underrun(&mut self)
        ensures
            final(self)@ == (ReceiverModel {
                underruns: counted(old(self)@.underruns),
                ..old(self)@
            }),
    {
        self.underruns = self.underruns.wrapping_add(1);
    }

    /// Frames received since the scheduler was made.
    pub fn frames_received(&self) -> (r: u64)
        ensures
            r == self@.frames_received,
    {
        self.frames_received
    }

    /// Writes that recovered from an underrun.
    pub fn underruns(&self) -> (r: u64)
        ensures
            r == self@.underruns,
    {
        self.underruns
    }

    /// Frames waiting for their render time.
    pub fn queue_depth(&self) -> (r: u64)
        ensures
            r == self@.queue.len(),
    {
        self.queue.len() as u64
    }

    /// Current jitter percentile, in milliseconds.
    pub fn jitter_p95_ms(&self) -> (r: u64)
        ensures
            r == self@.jitter_p95_ms,
    {
        self.jitter_p95_ms
    }

    /// Leader most recently stamped by the source.
    pub fn group_leader_ms(&self) -> (r: u64)
        ensures
            r == self@.group_leader_ms,
    {
        self.group_leader_ms
    }
}

/// No more frames are due than are queued.
pub proof fn lemma_due_count_bound(
    anchor: Option<Anchor>,
    queue: Seq<ReceivedFrame>,
    leader_ms: u64,
    now_ns: u64,
)
    ensures
        due_count(anchor, queue, leader_ms, now_ns) <= queue.len(),
    decreases queue.len(),
{
    if anchor is Some && queue.len() > 0 && is_due(anchor->Some_0, queue[0], leader_ms, now_ns) {
        lemma_due_count_bound(anchor, queue.drop_first(), leader_ms, now_ns);
    }
}

// ---------------------------------------------------------------------
// Laws
// ---------------------------------------------------------------------

/// What can happen to a receiver.
pub enum ReceiverEvent {
    Frame { now_ns: u64, frame: ReceivedFrame },
    Tick { now_ns: u64, mode: LeaderMode, local_ms: u64 },
}

/// The state after a sequence of events.
pub open spec fn run(m: ReceiverModel, events: Seq<ReceiverEvent>) -> ReceiverModel
    decreases events.len(),
{
    if events.len() == 0 {
        m
    } else {
        let before = run(m, events.drop_last());
        match events.last() {
            ReceiverEvent::Frame { now_ns, frame } => after_frame(before, now_ns, frame),
            ReceiverEvent::Tick { now_ns, mode, local_ms } => after_tick(
                before,
                now_ns,
                mode,
                local_ms,
            ),
        }
    }
}

/// The frames received in a sequence of events, in order.
pub open spec fn received_in(events: Seq<ReceiverEvent>) -> Seq<ReceivedFrame>
    decreases events.len(),
{
    if events.len() == 0 {
        Seq::empty()
    } else {
        match events.last() {
            ReceiverEvent::Frame { now_ns, frame } => received_in(events.drop_last()).push(frame),
            ReceiverEvent::Tick { .. } => received_in(events.drop_last()),
        }
    }
}

/// The frames handed to the renderer in a sequence of events, in order.
pub open spec fn rendered_in(m: ReceiverModel, events: Seq<ReceiverEvent>) -> Seq<ReceivedFrame>
    decreases events.len(),
{
    if events.len() == 0 {
        Seq::empty()
    } else {
        let before = run(m, events.drop_last());
        match events.last() {
            ReceiverEvent::Frame { .. } => rendered_in(m, events.drop_last()),
            ReceiverEvent::Tick { now_ns, mode, local_ms } => rendered_in(m, events.drop_last())
                + rendered_at(before, now_ns, mode, local_ms),
        }
    }
}

/// Bit-perfect playback: whatever happens, the frames rendered so far followed
/// by the frames still queued are exactly the frames that were queued at the
/// start followed by those received since, in order. None is dropped, none is
/// altered, none is inserted, none is reordered.
pub proof fn law_bit_perfect(m: ReceiverModel, events: Seq<ReceiverEvent>)
    ensures
        rendered_in(m, events) + run(m, events).queue == m.queue + received_in(events),
    decreases events.len(),
{
    if events.len() == 0 {
        assert(rendered_in(m, events) + run(m, events).queue =~= m.queue + received_in(events));
    } else {
        law_bit_perfect(m, events.drop_last());
        let before = run(m, events.drop_last());
        match events.last() {
            ReceiverEvent::Frame { now_ns, frame } => {
                assert(rendered_in(m, events) + before.queue.push(frame) =~= (rendered_in(
                    m,
                    events.drop_last(),
                ) + before.queue).push(frame));
                assert(m.queue + received_in(events.drop_last()).push(frame) =~= (m.queue
                    + received_in(events.drop_last())).push(frame));
            },
            ReceiverEvent::Tick { now_ns, mode, local_ms } => {
                let out = rendered_at(before, now_ns, mode, local_ms);
                lemma_due_count_bound(
                    before.anchor,
                    before.queue,
                    effective_leader(mode, local_ms, before.group_leader_ms),
                    now_ns,
                );
                assert(rendered_in(m, events) + before.queue.skip(out.len() as int) =~= rendered_in(
                    m,
                    events.drop_last(),
                ) + before.queue);
            },
        }
    }
}

/// More leader never makes a frame due earlier.
pub proof fn law_leader_delays(
    a: Anchor,
    frame: ReceivedFrame,
    shorter_ms: u64,
    longer_ms: u64,
    now_ns: u64,
)
    requires
        shorter_ms <= longer_ms,
        is_due(a, frame, longer_ms, now_ns),
    ensures
        is_due(a, frame, shorter_ms, now_ns),
{
}

/// The anchor, once set, never moves.
pub proof fn law_anchor_is_final(m: ReceiverModel, events: Seq<ReceiverEvent>)
    requires
        m.anchor is Some,
    ensures
        run(m, events).anchor == m.anchor,
    decreases events.len(),
{
    if events.len() > 0 {
        law_anchor_is_final(m, events.drop_last());
    }
}

/// The group leader is the one stamped last: after any events it is the non-zero
/// stamp of the most recent frame that carried one, and what it was before when
/// none did.
pub proof fn law_the_latest_stamp_leads(m: ReceiverModel, events: Seq<ReceiverEvent>)
    ensures
        (forall|i: int|
            0 <= i < received_in(events).len() ==> (#[trigger] received_in(
                events,
            )[i]).group_leader_ms == 0) ==> run(m, events).group_leader_ms == m.group_leader_ms,
        forall|k: int|
            0 <= k < received_in(events).len() && (#[trigger] received_in(
                events,
            )[k]).group_leader_ms > 0 && (forall|j: int|
                k < j < received_in(events).len() ==> (#[trigger] received_in(
                    events,
                )[j]).group_leader_ms == 0) ==> run(m, events).group_leader_ms == received_in(
                events,
            )[k].group_leader_ms,
    decreases events.len(),
{
    if events.len() > 0 {
        let front = events.drop_last();
        law_the_latest_stamp_leads(m, front);
        let all = received_in(events);
        let before = received_in(front);
        if let ReceiverEvent::Frame { now_ns, frame } = events.last() {
            assert(all == before.push(frame));
            assert(all[before.len() as int] == frame);
            assert forall|i: int| 0 <= i < before.len() implies all[i] == before[i] by {}
            if forall|i: int| 0 <= i < all.len() ==> (#[trigger] all[i]).group_leader_ms == 0 {
                assert forall|i: int| 0 <= i < before.len() implies (
                #[trigger] before[i]).group_leader_ms == 0 by {
                    assert(all[i].group_leader_ms == 0);
                }
            }
            assert forall|k: int|
                0 <= k < all.len() && (#[trigger] all[k]).group_leader_ms > 0 && (forall|j: int|
                    k < j < all.len() ==> (#[trigger] all[j]).group_leader_ms == 0) implies run(
                m,
                events,
            ).group_leader_ms == all[k].group_leader_ms by {
                if k < before.len() {
                    assert forall|j: int| k < j < before.len() implies (
                    #[trigger] before[j]).group_leader_ms == 0 by {
                        assert(all[j].group_leader_ms == 0);
                    }
                    assert(before[k].group_leader_ms > 0);
                }
            }
        }
    }
}

/// A frame leaves for the renderer at its presentation time, counted from the
/// anchor, plus the leader, and not before: at a tick all leading frames whose
/// time has come leave, and the one behind them, if any, is still early. The
/// leader is the operator's in manual mode, and else the group's wherever the
/// source has stamped one.
pub proof fn law_frames_leave_at_their_time(
    m: ReceiverModel,
    now_ns: u64,
    mode: LeaderMode,
    local_ms: u64,
    leader_ms: u64,
)
    requires
        mode == LeaderMode::Manual ==> leader_ms == local_ms,
        mode != LeaderMode::Manual && m.group_leader_ms > 0 ==> leader_ms == m.group_leader_ms,
        mode != LeaderMode::Manual && m.group_leader_ms == 0 ==> leader_ms == local_ms,
    ensures
        ({
            let out = rendered_at(m, now_ns, mode, local_ms);
            let after = after_tick(m, now_ns, mode, local_ms);
            let n = out.len() as int;
            &&& n <= m.queue.len()
            &&& out == m.queue.take(n) && after.queue == m.queue.skip(n)
            &&& m.anchor is None ==> n == 0
            &&& m.anchor matches Some(a) ==> {
                &&& forall|i: int|
                    0 <= i < n ==> a.local_ns + ((if (#[trigger] m.queue[i]).presentation_time_ms
                        > a.pts_ms {
                        m.queue[i].presentation_time_ms - a.pts_ms
                    } else {
                        0
                    }) + leader_ms) * 1_000_000 <= now_ns
                &&& n < m.queue.len() ==> a.local_ns + ((if m.queue[n].presentation_time_ms
                    > a.pts_ms {
                    m.queue[n].presentation_time_ms - a.pts_ms
                } else {
                    0
                }) + leader_ms) * 1_000_000 > now_ns
            }
        }),
{
    lemma_due_prefix(m.anchor, m.queue, leader_ms, now_ns);
}

proof fn lemma_due_prefix(
    anchor: Option<Anchor>,
    queue: Seq<ReceivedFrame>,
    leader_ms: u64,
    now_ns: u64,
)
    ensures
        ({
            let n = due_count(anchor, queue, leader_ms, now_ns) as int;
            &&& n <= queue.len()
            &&& anchor matches Some(a) ==> {
                &&& forall|i: int| 0 <= i < n ==> is_due(a, #[trigger] queue[i], leader_ms, now_ns)
                &&& n < queue.len() ==> !is_due(a, queue[n], leader_ms, now_ns)
            }
        }),
    decreases queue.len(),
{
    if let Some(a) = anchor {
        if queue.len() > 0 && is_due(a, queue[0], leader_ms, now_ns) {
            let rest = queue.drop_first();
            lemma_due_prefix(anchor, rest, leader_ms, now_ns);
            let n = due_count(anchor, queue, leader_ms, now_ns) as int;
            assert forall|i: int| 0 <= i < n implies is_due(
                a,
                #[trigger] queue[i],
                leader_ms,
                now_ns,
            ) by {
                if i > 0 {
                    assert(rest[i - 1] == queue[i]);
                }
            }
        }
    }
}

/// All rooms play together: two receivers with the same anchor, queue and stamped
/// leader hand out the same frames at the same instant in any automatic mode,
/// whatever leader each has of its own.
pub proof fn law_rooms_play_together(
    one: ReceiverModel,
    other: ReceiverModel,
    now_ns: u64,
    mode: LeaderMode,
    local_ms: u64,
    other_mode: LeaderMode,
    other_local_ms: u64,
)
    requires
        one.anchor == other.anchor,
        one.queue == other.queue,
        one.group_leader_ms == other.group_leader_ms,
        one.group_leader_ms > 0,
        mode != LeaderMode::Manual,
        other_mode != LeaderMode::Manual,
    ensures
        rendered_at(one, now_ns, mode, local_ms) == rendered_at(
            other,
            now_ns,
            other_mode,
            other_local_ms,
        ),
{
}

/// The timeline is pinned by the first frame: to the instant at which it arrived
/// and to its presentation time. Until then there is no anchor.
pub proof fn law_the_first_frame_anchors(m: ReceiverModel, events: Seq<ReceiverEvent>)
    requires
        m.anchor is None,
    ensures
        (forall|i: int| 0 <= i < events.len() ==> (#[trigger] events[i]) is Tick) ==> run(
            m,
            events,
        ).anchor is None,
        forall|k: int|
            0 <= k < events.len() && (#[trigger] events[k]) is Frame && (forall|i: int|
                0 <= i < k ==> (#[trigger] events[i]) is Tick) ==> run(m, events).anchor == Some(
                Anchor {
                    local_ns: events[k]->Frame_now_ns,
                    pts_ms: events[k]->frame.presentation_time_ms,
                },
            ),
    decreases events.len(),
{
    if events.len() > 0 {
        let front = events.drop_last();
        law_the_first_frame_anchors(m, front);
        let n = front.len() as int;
        assert(events[n] == events.last());
        assert forall|i: int| 0 <= i < n implies front[i] == events[i] by {}
        if forall|i: int| 0 <= i < events.len() ==> (#[trigger] events[i]) is Tick {
            assert forall|i: int| 0 <= i < n implies (#[trigger] front[i]) is Tick by {
                assert(events[i] is Tick);
            }
        }
        assert forall|k: int|
            0 <= k < events.len() && (#[trigger] events[k]) is Frame && (forall|i: int|
                0 <= i < k ==> (#[trigger] events[i]) is Tick) implies run(m, events).anchor
            == Some(
            Anchor {
                local_ns: events[k]->Frame_now_ns,
                pts_ms: events[k]->frame.presentation_time_ms,
            },
        ) by {
            assert forall|i: int| 0 <= i < k && i < n implies (#[trigger] front[i]) is Tick by {
                assert(events[i] is Tick);
            }
            if k < n {
                assert(front[k] is Frame);
                assert(run(m, front).anchor is Some);
            }
        }
    }
}

/// Whether some frame comes from `device`.
pub open spec fn sent_by(frames: Seq<ReceivedFrame>, device: Seq<char>) -> bool {
    exists|i: int| 0 <= i < frames.len() && (#[trigger] frames[i]).from_device_id@ == device
}

proof fn lemma_sent_by_push(frames: Seq<ReceivedFrame>, frame: ReceivedFrame, device: Seq<char>)
    ensures
        sent_by(frames.push(frame), device) == (sent_by(frames, device)
            || frame.from_device_id@ == device),
{
    let all = frames.push(frame);
    assert(all[frames.len() as int] == frame);
    if sent_by(frames, device) {
        let i = choose|i: int|
            0 <= i < frames.len() && (#[trigger] frames[i]).from_device_id@ == device;
        assert(all[i].from_device_id@ == device);
    }
    if sent_by(all, device) && frame.from_device_id@ != device {
        let i = choose|i: int| 0 <= i < all.len() && (#[trigger] all[i]).from_device_id@ == device;
        assert(frames[i].from_device_id@ == device);
    }
}

/// Every frame received is counted, and a sender is known exactly if a frame of
/// its has come. No event of playback touches the underrun count.
pub proof fn law_receptions_are_counted(m: ReceiverModel, events: Seq<ReceiverEvent>, d: Seq<char>)
    ensures
        m.frames_received + received_in(events).len() <= u64::MAX ==> run(m, events).frames_received
            == m.frames_received + received_in(events).len(),
        run(m, events).seen_peers.contains(d) == (m.seen_peers.contains(d) || sent_by(
            received_in(events),
            d,
        )),
        run(m, events).underruns == m.underruns,
    decreases events.len(),
{
    if events.len() > 0 {
        let front = events.drop_last();
        law_receptions_are_counted(m, front, d);
        if let ReceiverEvent::Frame { now_ns, frame } = events.last() {
            lemma_sent_by_push(received_in(front), frame, d);
            let seen = run(m, front).seen_peers;
            let grown = seen.push(frame.from_device_id@);
            assert(grown[seen.len() as int] == frame.from_device_id@);
            if seen.contains(d) {
                let i = choose|i: int| 0 <= i < seen.len() && seen[i] == d;
                assert(grown[i] == d);
            }
        }
    }
}

/// Every frame handed on leaves one sample behind: when, and by how many whole
/// milliseconds it left after its time. The samples before it stay for as long
/// as the window reaches back, and the oldest one kept is inside it.
pub proof fn law_lateness_is_sampled(
    m: ReceiverModel,
    now_ns: u64,
    mode: LeaderMode,
    local_ms: u64,
    leader_ms: u64,
)
    requires
        m.anchor is Some,
        mode == LeaderMode::Manual ==> leader_ms == local_ms,
        mode != LeaderMode::Manual && m.group_leader_ms > 0 ==> leader_ms == m.group_leader_ms,
        mode != LeaderMode::Manual && m.group_leader_ms == 0 ==> leader_ms == local_ms,
    ensures
        ({
            let a = m.anchor->Some_0;
            let out = rendered_at(m, now_ns, mode, local_ms);
            let after = after_tick(m, now_ns, mode, local_ms).jitter;
            let kept = after.len() - out.len();
            let gone = m.jitter.len() - kept;
            &&& 0 <= kept <= m.jitter.len()
            &&& forall|i: int| 0 <= i < kept ==> #[trigger] after[i] == m.jitter[gone + i]
            &&& kept > 0 ==> now_ns - after[0].at_ns <= 10_000 * 1_000_000
            &&& forall|i: int|
                0 <= i < gone ==> now_ns - (#[trigger] m.jitter[i]).at_ns > 10_000 * 1_000_000
            &&& forall|i: int|
                #![trigger out[i]]
                0 <= i < out.len() ==> after[kept + i].at_ns == now_ns && (now_ns - a.local_ns)
                    / 1_000_000 == after[kept + i].jitter_ms + (if out[i].presentation_time_ms
                    > a.pts_ms {
                    out[i].presentation_time_ms - a.pts_ms
                } else {
                    0
                }) + leader_ms
        }),
{
    let a = m.anchor->Some_0;
    let out = rendered_at(m, now_ns, mode, local_ms);
    lemma_due_prefix(m.anchor, m.queue, leader_ms, now_ns);
    let fresh = samples_of(m.anchor, out, leader_ms, now_ns);
    let all = m.jitter + fresh;
    lemma_window_is_suffix(all, now_ns);
    let after = in_window(all, now_ns);
    let gone = all.len() - after.len();
    if gone > m.jitter.len() {
        assert(all[m.jitter.len() as int] == fresh[0]);
        assert(false);
    }
    let kept = m.jitter.len() - gone;
    assert forall|i: int| 0 <= i < kept implies #[trigger] after[i] == m.jitter[gone + i] by {
        assert(after[i] == all[gone + i]);
    }
    assert forall|i: int| 0 <= i < gone implies now_ns - (#[trigger] m.jitter[i]).at_ns > 10_000
        * 1_000_000 by {
        assert(all[i] == m.jitter[i]);
    }
    assert forall|i: int| #![trigger out[i]] 0 <= i < out.len() implies after[kept + i].at_ns
        == now_ns && (now_ns - a.local_ns) / 1_000_000 == after[kept + i].jitter_ms + (if out[
    i].presentation_time_ms > a.pts_ms {
        out[i].presentation_time_ms - a.pts_ms
    } else {
        0
    }) + leader_ms by {
        assert(after[kept + i] == all[gone + kept + i]);
        assert(all[gone + kept + i] == fresh[i]);
        assert(is_due(a, m.queue[i], leader_ms, now_ns));
        let s = scheduled_ms(a, out[i], leader_ms);
        let d = now_ns - a.local_ns;
        assert(s <= d / 1_000_000) by (nonlinear_arith)
            requires
                s * 1_000_000 <= d,
        ;
    }
}

proof fn lemma_window_is_suffix(samples: Seq<JitterSample>, now_ns: u64)
    ensures
        ({
            let kept = in_window(samples, now_ns);
            let gone = samples.len() - kept.len();
            &&& gone >= 0
            &&& kept == samples.skip(gone)
            &&& kept.len() > 0 ==> now_ns - kept[0].at_ns <= 10_000 * 1_000_000
            &&& forall|i: int|
                0 <= i < gone ==> now_ns - (#[trigger] samples[i]).at_ns > 10_000 * 1_000_000
        }),
    decreases samples.len(),
{
    let kept = in_window(samples, now_ns);
    if samples.len() > 0 && minus_or_zero(now_ns as int, samples[0].at_ns as int)
        > RECEIVER_JITTER_WINDOW_MS * NANOS_PER_MS {
        let rest = samples.drop_first();
        lemma_window_is_suffix(rest, now_ns);
        let gone = samples.len() - kept.len();
        assert(kept =~= samples.skip(gone));
        assert forall|i: int| 0 <= i < gone implies now_ns - (#[trigger] samples[i]).at_ns > 10_000
            * 1_000_000 by {
            if i > 0 {
                assert(rest[i - 1] == samples[i]);
            }
        }
    } else {
        assert(kept =~= samples.skip(0));
    }
}

/// The published jitter is the value at 95 hundredths of the samples in the
/// window once they are sorted; while there are none, the last figure stands.
pub proof fn law_the_percentile_is_of_the_window(
    m: ReceiverModel,
    now_ns: u64,
    mode: LeaderMode,
    local_ms: u64,
    sorted: Seq<u64>,
)
    requires
        sorted.to_multiset() == after_tick(m, now_ns, mode, local_ms).jitter.map_values(
            |s: JitterSample| s.jitter_ms,
        ).to_multiset(),
        forall|i: int, j: int| 0 <= i <= j < sorted.len() ==> sorted[i] <= sorted[j],
    ensures
        ({
            let after = after_tick(m, now_ns, mode, local_ms);
            &&& sorted.len() > 0 ==> after.jitter_p95_ms == sorted[(sorted.len() * 95
                / 100) as int]
            &&& sorted.len() == 0 ==> after.jitter_p95_ms == m.jitter_p95_ms
        }),
{
    let after = after_tick(m, now_ns, mode, local_ms);
    let values = after.jitter.map_values(|s: JitterSample| s.jitter_ms);
    assert(values =~= jitter_values(after.jitter));
    values.to_multiset_ensures();
    sorted.to_multiset_ensures();
    assert(sorted.len() == after.jitter.len());
    if sorted.len() > 0 {
        law_positions_are_those_of_the_sorted(values, sorted, (sorted.len() * 95 / 100) as nat);
    }
}

} // verus!
