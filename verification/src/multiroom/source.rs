//! Frames on their way out and samples on their way in.
//!
//! The wire format is `pcm_s16_le`, 48 kHz, stereo, 20 ms per chunk. This module
//! holds the sample codec, the frame the source emits, the capture queue between
//! the capture thread and the emitter, and the write protocol of the renderer.

use crate::multiroom::receiver::counted;
use crate::text::{decimal, decimal_of};
use std::collections::VecDeque;
use vstd::prelude::*;

verus! {

/// Sample rate of every frame.
pub const BASELINE_SAMPLE_RATE_HZ: u32 = 48_000;

/// Channel count of every frame.
pub const BASELINE_CHANNELS: u16 = 2;

/// Sample frames per chunk: 20 ms at the baseline rate.
pub const FRAMES_PER_CHUNK: usize = 960;

/// Duration of one chunk, in microseconds.
pub const CHUNK_PERIOD_US: u64 = 1_000_000 * 960 / 48_000;

/// Periods that the renderer's hardware buffer holds.
pub const RENDER_BUFFER_PERIODS: usize = 4;

/// Chunks that may wait between capture and emission: about half a second.
pub const CAPTURE_QUEUE_CHUNKS: usize = 32;

// ---------------------------------------------------------------------
// Samples
// ---------------------------------------------------------------------

/// A signed sample as an unsigned 16-bit pattern (two's complement).
pub open spec fn pattern_of(s: i16) -> int {
    if s < 0 {
        s + 65536
    } else {
        s as int
    }
}

/// The low byte of a sample.
pub open spec fn low_byte(s: i16) -> u8 {
    (pattern_of(s) % 256) as u8
}

/// The high byte of a sample.
pub open spec fn high_byte(s: i16) -> u8 {
    (pattern_of(s) / 256) as u8
}

/// Samples in little-endian byte order.
pub open spec fn le_bytes(samples: Seq<i16>) -> Seq<u8> {
    Seq::new(
        samples.len() * 2,
        |i: int|
            if i % 2 == 0 {
                low_byte(samples[i / 2])
            } else {
                high_byte(samples[i / 2])
            },
    )
}

/// The sample with the given bytes.
pub open spec fn sample_of(low: u8, high: u8) -> i16 {
    let u = high * 256 + low;
    if u >= 32768 {
        (u - 65536) as i16
    } else {
        u as i16
    }
}

/// The samples of a little-endian byte sequence.
pub open spec fn samples_of_bytes(bytes: Seq<u8>) -> Seq<i16> {
    Seq::new((bytes.len() / 2) as nat, |i: int| sample_of(bytes[2 * i], bytes[2 * i + 1]))
}

/// Each sample twice: a mono signal on both channels.
pub open spec fn on_both_channels(samples: Seq<i16>) -> Seq<i16> {
    Seq::new(samples.len() * 2, |i: int| samples[i / 2])
}

fn push_sample(out: &mut Vec<u8>, s: i16)
    ensures
        final(out)@ == old(out)@.push(low_byte(s)).push(high_byte(s)),
{
    let u: u32 = if s < 0 {
        (s as i32 + 65536) as u32
    } else {
        s as u32
    };
    out.push((u % 256) as u8);
    out.push((u / 256) as u8);
}

/// Encodes interleaved samples.
pub fn encode_samples(samples: &[i16]) -> (r: Vec<u8>)
    ensures
        r@ == le_bytes(samples@),
{
    let mut r: Vec<u8> = Vec::new();
    let n: usize = samples.len();
    for i in 0..n
        invariant
            n == samples@.len(),
            r@ == le_bytes(samples@.take(i as int)),
    {
        push_sample(&mut r, samples[i]);
        assert(r@ =~= le_bytes(samples@.take(i + 1)));
    }
    assert(samples@.take(n as int) =~= samples@);
    r
}

/// Encodes a mono signal as interleaved stereo.
pub fn encode_mono(samples: &[i16]) -> (r: Vec<u8>)
    ensures
        r@ == le_bytes(on_both_channels(samples@)),
{
    let mut r: Vec<u8> = Vec::new();
    let n: usize = samples.len();
    for i in 0..n
        invariant
            n == samples@.len(),
            r@ == le_bytes(on_both_channels(samples@.take(i as int))),
    {
        push_sample(&mut r, samples[i]);
        push_sample(&mut r, samples[i]);
        assert(r@ =~= le_bytes(on_both_channels(samples@.take(i + 1))));
    }
    assert(samples@.take(n as int) =~= samples@);
    r
}

/// The complaint about a payload that holds no whole number of stereo frames.
pub open spec fn misaligned_message(len: nat) -> Seq<char> {
    "payload length "@ + decimal_of(len) + " not aligned to s16le stereo frame (4 bytes)"@
}

/// Decodes a payload of interleaved stereo samples.
pub fn decode_payload(payload: &[u8]) -> (r: Result<Vec<i16>, String>)
    ensures
        payload@.len() % 4 == 0 ==> r is Ok && r->Ok_0@ == samples_of_bytes(payload@),
        payload@.len() % 4 != 0 ==> r is Err && r->Err_0@ == misaligned_message(payload@.len()),
{
    let n: usize = payload.len();
    if n % 4 != 0 {
        let mut m = "payload length ".to_owned();
        m.append(decimal(n as u64).as_str());
        m.append(" not aligned to s16le stereo frame (4 bytes)");
        return Err(m);
    }
    let mut samples: Vec<i16> = Vec::new();
    let half: usize = n / 2;
    for i in 0..half
        invariant
            n == payload@.len(),
            half == n / 2,
            samples@ == samples_of_bytes(payload@).take(i as int),
    {
        let u: i32 = payload[2 * i + 1] as i32 * 256 + payload[2 * i] as i32;
        let s: i16 = if u >= 32768 {
            (u - 65536) as i16
        } else {
            u as i16
        };
        samples.push(s);
        assert(samples@ =~= samples_of_bytes(payload@).take(i + 1));
    }
    assert(samples@ =~= samples_of_bytes(payload@));
    Ok(samples)
}

/// Samples survive the wire unchanged.
pub proof fn law_samples_round_trip(samples: Seq<i16>)
    ensures
        samples_of_bytes(le_bytes(samples)) == samples,
{
    let bytes = le_bytes(samples);
    assert forall|i: int| 0 <= i < samples.len() implies samples_of_bytes(bytes)[i]
        == samples[i] by {
        assert(bytes[2 * i] == low_byte(samples[i]));
        assert(bytes[2 * i + 1] == high_byte(samples[i]));
    }
    assert(samples_of_bytes(bytes) =~= samples);
}

// ---------------------------------------------------------------------
// Emission
// ---------------------------------------------------------------------

/// The Base64 digit of a value below 64, in the standard alphabet.
pub open spec fn base64_digit(n: nat) -> char {
    if n < 26 {
        ('A' as nat + n) as char
    } else if n < 52 {
        ('a' as nat + n - 26) as char
    } else if n < 62 {
        ('0' as nat + n - 52) as char
    } else if n == 62 {
        '+'
    } else {
        '/'
    }
}

/// The four digits of three bytes, of which six bits make a digit.
pub open spec fn base64_group(a: u8, b: u8, c: u8) -> Seq<char> {
    seq![
        base64_digit(a as nat / 4),
        base64_digit(a as nat % 4 * 16 + b as nat / 16),
        base64_digit(b as nat % 16 * 4 + c as nat / 64),
        base64_digit(c as nat % 64),
    ]
}

/// The Base64 text of `bytes` in the standard alphabet: four digits for each three
/// bytes; a last group of one or two bytes is filled up with zeroes, and the digits
/// that hold none of its bits are written `=`.
pub open spec fn base64_standard(bytes: Seq<u8>) -> Seq<char>
    decreases bytes.len(),
{
    if bytes.len() == 0 {
        Seq::empty()
    } else if bytes.len() == 1 {
        base64_group(bytes[0], 0, 0).take(2) + seq!['=', '=']
    } else if bytes.len() == 2 {
        base64_group(bytes[0], bytes[1], 0).take(3) + seq!['=']
    } else {
        base64_group(bytes[0], bytes[1], bytes[2]) + base64_standard(bytes.skip(3))
    }
}

/// `base64::engine::general_purpose::STANDARD.encode`: the padded Base64 text of
/// the bytes in the standard alphabet. The call panics where the text would not
/// fit in memory, which the precondition rules out.
#[verifier::external_body]
fn base64_encode(bytes: &[u8]) -> (r: String)
    requires
        (bytes@.len() + 2) / 3 * 4 <= isize::MAX,
    ensures
        r@ == base64_standard(bytes@),
{
    base64::Engine::encode(&base64::engine::general_purpose::STANDARD, bytes)
}

proof fn lemma_digits_are_distinct(m: nat, n: nat)
    requires
        m < 64,
        n < 64,
    ensures
        base64_digit(m) == base64_digit(n) ==> m == n,
        base64_digit(m) != '=',
{
}

proof fn lemma_groups_are_distinct(a: u8, b: u8, c: u8, x: u8, y: u8, z: u8)
    ensures
        base64_group(a, b, c)[0] == base64_group(x, y, z)[0] && base64_group(a, b, c)[1]
            == base64_group(x, y, z)[1] ==> a == x && b / 16 == y / 16,
        base64_group(a, b, c)[1] == base64_group(x, y, z)[1] && base64_group(a, b, c)[2]
            == base64_group(x, y, z)[2] ==> b == y && c / 64 == z / 64,
        base64_group(a, b, c)[2] == base64_group(x, y, z)[2] && base64_group(a, b, c)[3]
            == base64_group(x, y, z)[3] ==> c == z,
        forall|i: int| 0 <= i < 4 ==> #[trigger] base64_group(a, b, c)[i] != '=',
{
    lemma_digits_are_distinct(a as nat / 4, x as nat / 4);
    lemma_digits_are_distinct(
        a as nat % 4 * 16 + b as nat / 16,
        x as nat % 4 * 16 + y as nat / 16,
    );
    lemma_digits_are_distinct(
        b as nat % 16 * 4 + c as nat / 64,
        y as nat % 16 * 4 + z as nat / 64,
    );
    lemma_digits_are_distinct(c as nat % 64, z as nat % 64);
}

/// A frame's payload text holds every one of its bytes: texts of different bytes
/// differ, and a text has four characters for each started group of three bytes.
pub proof fn law_payload_texts_are_told_apart(a: Seq<u8>, b: Seq<u8>)
    ensures
        base64_standard(a) == base64_standard(b) ==> a == b,
        base64_standard(a).len() == (a.len() + 2) / 3 * 4,
    decreases a.len(),
{
    lemma_text_len(a);
    lemma_text_len(b);
    if base64_standard(a) == base64_standard(b) {
        let s = base64_standard(a);
        if a.len() == 0 || b.len() == 0 {
            assert(a =~= b);
        } else {
            let a1 = if a.len() > 1 {
                a[1]
            } else {
                0
            };
            let a2 = if a.len() > 2 {
                a[2]
            } else {
                0
            };
            let b1 = if b.len() > 1 {
                b[1]
            } else {
                0
            };
            let b2 = if b.len() > 2 {
                b[2]
            } else {
                0
            };
            lemma_groups_are_distinct(a[0], a1, a2, b[0], b1, b2);
            lemma_groups_are_distinct(b[0], b1, b2, a[0], a1, a2);
            let g = base64_group(a[0], a1, a2);
            let h = base64_group(b[0], b1, b2);
            assert(s[0] == g[0] && s[1] == g[1]);
            assert(s[0] == h[0] && s[1] == h[1]);
            assert(s[2] == (if a.len() > 1 {
                g[2]
            } else {
                '='
            }));
            assert(s[2] == (if b.len() > 1 {
                h[2]
            } else {
                '='
            }));
            assert(s[3] == (if a.len() > 2 {
                g[3]
            } else {
                '='
            }));
            assert(s[3] == (if b.len() > 2 {
                h[3]
            } else {
                '='
            }));
            if a.len() > 2 {
                assert(s.skip(4) =~= base64_standard(a.skip(3)));
                assert(s.skip(4) =~= base64_standard(b.skip(3)));
                law_payload_texts_are_told_apart(a.skip(3), b.skip(3));
                assert(a =~= seq![a[0], a[1], a[2]] + a.skip(3));
                assert(b =~= seq![b[0], b[1], b[2]] + b.skip(3));
            } else {
                assert(a =~= b);
            }
        }
    }
}

proof fn lemma_text_len(bytes: Seq<u8>)
    ensures
        base64_standard(bytes).len() == (bytes.len() + 2) / 3 * 4,
    decreases bytes.len(),
{
    if bytes.len() > 2 {
        lemma_text_len(bytes.skip(3));
    }
}

/// One frame as handed to the audio plane.
#[derive(Debug, PartialEq, Eq)]
pub struct AudioFrameSeed {
    pub sequence: u64,
    pub presentation_time_ms: u64,
    pub codec: String,
    pub rate_hz: u32,
    pub channels: u16,
    pub payload_b64: String,
    pub group_leader_ms: u64,
}

/// What an [`AudioFrameSeed`] says.
#[verifier::ext_equal]
pub struct SeedModel {
    pub sequence: u64,
    pub presentation_time_ms: u64,
    pub codec: Seq<char>,
    pub rate_hz: u32,
    pub channels: u16,
    pub payload: Seq<char>,
    pub group_leader_ms: u64,
}

impl View for AudioFrameSeed {
    type V = SeedModel;

    open spec fn view(&self) -> SeedModel {
        SeedModel {
            sequence: self.sequence,
            presentation_time_ms: self.presentation_time_ms,
            codec: self.codec@,
            rate_hz: self.rate_hz,
            channels: self.channels,
            payload: self.payload_b64@,
            group_leader_ms: self.group_leader_ms,
        }
    }
}

/// The emitter once it has emitted a frame.
pub open spec fn emitted(e: SourceEmitter) -> SourceEmitter {
    SourceEmitter {
        sequence: if e.sequence == u64::MAX {
            u64::MAX
        } else {
            (e.sequence + 1) as u64
        },
        ..e
    }
}

/// The next frame of an emitter.
pub open spec fn frame_of(
    e: SourceEmitter,
    elapsed_ms: u64,
    pcm: Seq<u8>,
    group_leader_ms: u64,
) -> SeedModel {
    SeedModel {
        sequence: e.sequence,
        presentation_time_ms: elapsed_ms,
        codec: "pcm_s16_le"@,
        rate_hz: BASELINE_SAMPLE_RATE_HZ,
        channels: BASELINE_CHANNELS,
        payload: base64_standard(pcm),
        group_leader_ms,
    }
}

/// The emitting side of a source.
#[derive(Debug, Clone, Copy, PartialEq, Eq, Structural)]
pub struct SourceEmitter {
    /// Sequence number of the next frame.
    pub sequence: u64,
    /// Frames that the audio plane accepted.
    pub frames_sent: u64,
}

impl SourceEmitter {
    /// A source that has emitted nothing.
    pub fn new() -> (r: SourceEmitter)
        ensures
            r == (SourceEmitter { sequence: 0, frames_sent: 0 }),
    {
        SourceEmitter { sequence: 0, frames_sent: 0 }
    }

    /// The next frame: `pcm` emitted `elapsed_ms` after the source started.
    pub fn next_frame(&mut self, elapsed_ms: u64, pcm: &[u8], group_leader_ms: u64) -> (r:
        AudioFrameSeed)
        requires
            (pcm@.len() + 2) / 3 * 4 <= isize::MAX,
        ensures
            r@ == frame_of(*old(self), elapsed_ms, pcm@, group_leader_ms),
            *final(self) == emitted(*old(self)),
            r.sequence == old(self).sequence,
            r.presentation_time_ms == elapsed_ms,
            r.codec@ == "pcm_s16_le"@,
            r.rate_hz == BASELINE_SAMPLE_RATE_HZ,
            r.channels == BASELINE_CHANNELS,
            r.payload_b64@ == base64_standard(pcm@),
            r.group_leader_ms == group_leader_ms,
            final(self).frames_sent == old(self).frames_sent,
            final(self).sequence == (if old(self).sequence == u64::MAX {
                u64::MAX
            } else {
                (old(self).sequence + 1) as u64
            }),
    {
        let sequence: u64 = self.sequence;
        self.sequence = sequence.saturating_add(1);
        AudioFrameSeed {
            sequence,
            presentation_time_ms: elapsed_ms,
            codec: "pcm_s16_le".to_owned(),
            rate_hz: BASELINE_SAMPLE_RATE_HZ,
            channels: BASELINE_CHANNELS,
            payload_b64: base64_encode(pcm),
            group_leader_ms,
        }
    }

    /// Records what became of the frame: only accepted frames count as sent.
    pub fn on_fan_out(&mut self, accepted: bool)
        ensures
            final(self).sequence == old(self).sequence,
            final(self).frames_sent == (if accepted {
                counted(old(self).frames_sent)
            } else {
                old(self).frames_sent
            }),
    {
        if accepted {
            self.frames_sent = self.frames_sent.wrapping_add(1);
        }
    }
}

/// The wire bytes of what one capture read delivered; nothing when the read was
/// empty.
pub fn capture_chunk(buffer: &[i16], frames_read: usize) -> (r: Option<Vec<u8>>)
    requires
        frames_read * BASELINE_CHANNELS <= buffer@.len(),
    ensures
        frames_read == 0 ==> r is None,
        frames_read > 0 ==> r is Some && r->Some_0@ == le_bytes(
            buffer@.take(frames_read * BASELINE_CHANNELS),
        ),
{
    if frames_read == 0 {
        return None;
    }
    assert(frames_read * BASELINE_CHANNELS <= buffer.len());
    let used: usize = frames_read * (BASELINE_CHANNELS as usize);
    let part = vstd::slice::slice_subrange(buffer, 0, used);
    assert(part@ =~= buffer@.take(frames_read * BASELINE_CHANNELS));
    Some(encode_samples(part))
}

/// Chunks between the capture thread and the emitter. When it is full the
/// oldest chunk gives way, so that the capture thread never waits.
pub struct CaptureQueue {
    chunks: VecDeque<Vec<u8>>,
}

impl View for CaptureQueue {
    type V = Seq<Vec<u8>>;

    closed spec fn view(&self) -> Seq<Vec<u8>> {
        self.chunks@
    }
}

impl CaptureQueue {
    /// The queue never holds more than its capacity.
    pub open spec fn well_formed(&self) -> bool {
        self@.len() <= CAPTURE_QUEUE_CHUNKS
    }

    /// A queue with one more chunk.
    pub open spec fn with_chunk(q: Seq<Vec<u8>>, chunk: Vec<u8>) -> Seq<Vec<u8>> {
        if q.len() < CAPTURE_QUEUE_CHUNKS {
            q.push(chunk)
        } else {
            q.drop_first().push(chunk)
        }
    }

    /// A queue after chunks came in, one after the other.
    pub open spec fn filled(q: Seq<Vec<u8>>, chunks: Seq<Vec<u8>>) -> Seq<Vec<u8>>
        decreases chunks.len(),
    {
        if chunks.len() == 0 {
            q
        } else {
            CaptureQueue::with_chunk(CaptureQueue::filled(q, chunks.drop_last()), chunks.last())
        }
    }

    /// An empty queue.
    pub fn new() -> (r: CaptureQueue)
        ensures
            r.well_formed(),
            r@ == Seq::<Vec<u8>>::empty(),
    {
        CaptureQueue { chunks: VecDeque::new() }
    }

    /// Appends a chunk, dropping the oldest one when the queue is full.
    pub fn push(&mut self, chunk: Vec<u8>)
        requires
            old(self).well_formed(),
        ensures
            final(self).well_formed(),
            final(self)@ == CaptureQueue::with_chunk(old(self)@, chunk),
            final(self)@ == (if old(self)@.len() < CAPTURE_QUEUE_CHUNKS {
                old(self)@.push(chunk)
            } else {
                old(self)@.drop_first().push(chunk)
            }),
    {
        if self.chunks.len() >= CAPTURE_QUEUE_CHUNKS {
            let _ = self.chunks.pop_front();
            assert(self@ =~= old(self)@.drop_first());
        }
        self.chunks.push_back(chunk);
    }

    /// Takes the oldest chunk.
    pub fn pop(&mut self) -> (r: Option<Vec<u8>>)
        requires
            old(self).well_formed(),
        ensures
            final(self).well_formed(),
            old(self)@.len() == 0 ==> r is None && final(self)@ == old(self)@,
            old(self)@.len() > 0 ==> r == Some(old(self)@[0]) && final(self)@
                == old(self)@.drop_first(),
    {
        let r = self.chunks.pop_front();
        assert(old(self)@.len() > 0 ==> self@ =~= old(self)@.drop_first());
        r
    }
}

// ---------------------------------------------------------------------
// Rendering
// ---------------------------------------------------------------------

/// What one write to the output device came to.
#[derive(Debug, PartialEq, Eq)]
pub enum WriteOutcome {
    /// Sample frames written.
    Wrote(usize),
    /// The device refused, with its reason.
    Failed(String),
}

/// What to do after the first write of a payload.
#[derive(Debug, PartialEq, Eq)]
pub enum AfterWrite {
    Done,
    /// Prepare the device and write once more.
    Recover,
    GiveUp(String),
}

/// The complaint about a write that took only part of the payload.
pub open spec fn short_write_message(prefix: Seq<char>, wanted: nat, wrote: nat) -> Seq<char> {
    prefix + "short write: requested "@ + decimal_of(wanted) + " frames, wrote "@ + decimal_of(
        wrote,
    )
}

fn short_write(prefix: &str, wanted: usize, wrote: usize) -> (r: String)
    ensures
        r@ == short_write_message(prefix@, wanted as nat, wrote as nat),
{
    let mut m = prefix.to_owned();
    m.append("short write: requested ");
    m.append(decimal(wanted as u64).as_str());
    m.append(" frames, wrote ");
    m.append(decimal(wrote as u64).as_str());
    m
}

/// The renderer's record of its most recent write.
#[derive(Debug, Clone, Copy, PartialEq, Eq, Structural)]
pub struct RenderWrite {
    /// Whether that write met an underrun.
    pub xrun_recovered: bool,
}

impl RenderWrite {
    /// Before any write.
    pub fn new() -> (r: RenderWrite)
        ensures
            !r.xrun_recovered,
    {
        RenderWrite { xrun_recovered: false }
    }

    /// Judges the first write of `frame_count` sample frames: a refusal is an
    /// underrun, answered by one recovery.
    pub fn after_first(&mut self, frame_count: usize, outcome: &WriteOutcome) -> (r: AfterWrite)
        ensures
            final(self).xrun_recovered == (outcome is Failed),
            match *outcome {
                WriteOutcome::Wrote(n) => if n == frame_count {
                    r is Done
                } else {
                    r matches AfterWrite::GiveUp(m) && m@ == short_write_message(
                        ""@,
                        frame_count as nat,
                        n as nat,
                    )
                },
                WriteOutcome::Failed(_) => r is Recover,
            },
    {
        self.xrun_recovered = false;
        match outcome {
            WriteOutcome::Wrote(n) => if *n == frame_count {
                AfterWrite::Done
            } else {
                AfterWrite::GiveUp(short_write("", frame_count, *n))
            },
            WriteOutcome::Failed(_) => {
                self.xrun_recovered = true;
                AfterWrite::Recover
            },
        }
    }

    /// Judges the second write: there is no further recovery.
    pub fn after_retry(&self, frame_count: usize, outcome: &WriteOutcome) -> (r: Result<(), String>)
        ensures
            match *outcome {
                WriteOutcome::Wrote(n) => if n == frame_count {
                    r is Ok
                } else {
                    r is Err && r->Err_0@ == short_write_message(
                        "post-recover "@,
                        frame_count as nat,
                        n as nat,
                    )
                },
                WriteOutcome::Failed(e) => r is Err && r->Err_0@ == "post-recover write error: "@
                    + e@,
            },
    {
        match outcome {
            WriteOutcome::Wrote(n) => if *n == frame_count {
                Ok(())
            } else {
                Err(short_write("post-recover ", frame_count, *n))
            },
            WriteOutcome::Failed(e) => {
                let mut m = "post-recover write error: ".to_owned();
                m.append(e.as_str());
                Err(m)
            },
        }
    }

    /// Reads and clears the underrun mark.
    pub fn take_xrun_recovered(&mut self) -> (r: bool)
        ensures
            r == old(self).xrun_recovered,
            !final(self).xrun_recovered,
    {
        let r = self.xrun_recovered;
        self.xrun_recovered = false;
        r
    }
}

// ---------------------------------------------------------------------
// Laws
// ---------------------------------------------------------------------

/// A frame carries the time at which it was emitted, the leader in force, and its
/// samples whole; frames are numbered one after the other, and two frames with the
/// same payload hold the same bytes.
pub proof fn law_frames_carry_time_leader_and_samples(
    e: SourceEmitter,
    elapsed_ms: u64,
    pcm: Seq<u8>,
    leader_ms: u64,
    later_ms: u64,
    other: Seq<u8>,
    later_leader_ms: u64,
)
    requires
        e.sequence < u64::MAX,
    ensures
        ({
            let first = frame_of(e, elapsed_ms, pcm, leader_ms);
            let second = frame_of(emitted(e), later_ms, other, later_leader_ms);
            &&& second.sequence == first.sequence + 1
            &&& first.presentation_time_ms == elapsed_ms && second.presentation_time_ms == later_ms
            &&& first.group_leader_ms == leader_ms && second.group_leader_ms == later_leader_ms
            &&& first.payload == second.payload <==> pcm == other
            &&& first.rate_hz == 48_000 && first.channels == 2
            &&& emitted(e).frames_sent == e.frames_sent
        }),
{
    law_payload_texts_are_told_apart(pcm, other);
}

/// Capture never waits and loses only the oldest: the queue holds the last chunks
/// that came in, up to its capacity, in order.
pub proof fn law_the_newest_chunks_are_kept(chunks: Seq<Vec<u8>>)
    ensures
        chunks.len() <= 32 ==> CaptureQueue::filled(Seq::empty(), chunks) == chunks,
        chunks.len() > 32 ==> CaptureQueue::filled(Seq::empty(), chunks) == chunks.skip(
            chunks.len() - 32,
        ),
    decreases chunks.len(),
{
    let got = CaptureQueue::filled(Seq::empty(), chunks);
    if chunks.len() == 0 {
        assert(got =~= chunks);
    } else {
        law_the_newest_chunks_are_kept(chunks.drop_last());
        if chunks.len() <= 32 {
            assert(got =~= chunks);
        } else {
            assert(got =~= chunks.skip(chunks.len() - 32));
        }
    }
}

/// Bytes go out low before high, as many as two for each sample, and a mono signal
/// sounds the same on both channels.
pub proof fn law_the_wire_is_little_endian(samples: Seq<i16>, i: int)
    requires
        0 <= i < samples.len(),
    ensures
        le_bytes(samples).len() == 2 * samples.len(),
        samples[i] >= 0 ==> le_bytes(samples)[2 * i] + 256 * le_bytes(samples)[2 * i + 1]
            == samples[i],
        samples[i] < 0 ==> le_bytes(samples)[2 * i] + 256 * le_bytes(samples)[2 * i + 1]
            == samples[i] + 65536,
        on_both_channels(samples).len() == 2 * samples.len(),
        on_both_channels(samples)[2 * i] == samples[i],
        on_both_channels(samples)[2 * i + 1] == samples[i],
{
}

/// The number that a digit of the standard alphabet stands for.
pub open spec fn base64_value(c: char) -> int {
    if 'A' <= c <= 'Z' {
        c as int - 'A' as int
    } else if 'a' <= c <= 'z' {
        c as int - 'a' as int + 26
    } else if '0' <= c <= '9' {
        c as int - '0' as int + 52
    } else if c == '+' {
        62
    } else {
        63
    }
}

/// A group of four digits holds the bits of its three bytes in order, read in the
/// standard alphabet, and what no byte fills is padding.
pub proof fn law_digits_hold_the_bits(bytes: Seq<u8>)
    requires
        bytes.len() > 0,
    ensures
        ({
            let t = base64_standard(bytes);
            &&& t.len() >= 4
            &&& bytes.len() == 1 ==> t[2] == '=' && t[3] == '='
            &&& bytes.len() == 2 ==> t[3] == '='
            &&& base64_value(t[0]) * 4 + base64_value(t[1]) / 16 == bytes[0]
            &&& bytes.len() > 1 ==> base64_value(t[1]) % 16 * 16 + base64_value(t[2]) / 4 == bytes[1]
            &&& bytes.len() > 2 ==> base64_value(t[2]) % 4 * 64 + base64_value(t[3]) == bytes[2]
            &&& bytes.len() > 2 ==> t.skip(4) == base64_standard(bytes.skip(3))
        }),
{
    let a = bytes[0];
    let b = if bytes.len() > 1 {
        bytes[1]
    } else {
        0
    };
    let c = if bytes.len() > 2 {
        bytes[2]
    } else {
        0
    };
    lemma_digit_value(a as nat / 4);
    lemma_digit_value(a as nat % 4 * 16 + b as nat / 16);
    lemma_digit_value(b as nat % 16 * 4 + c as nat / 64);
    lemma_digit_value(c as nat % 64);
    if bytes.len() > 2 {
        assert(base64_standard(bytes).skip(4) =~= base64_standard(bytes.skip(3)));
    }
}

proof fn lemma_digit_value(n: nat)
    requires
        n < 64,
    ensures
        base64_value(base64_digit(n)) == n,
{
}

/// What is told of a payload that cannot be played, and of a write that took fewer
/// frames than it was given: the figures as they were.
pub proof fn law_audio_failures_tell_the_figures(
    prefix: Seq<char>,
    len: nat,
    wanted: nat,
    wrote: nat,
)
    ensures
        misaligned_message(len) == "payload length "@ + decimal_of(len)
            + " not aligned to s16le stereo frame (4 bytes)"@,
        short_write_message(prefix, wanted, wrote) == prefix + "short write: requested "@
            + decimal_of(wanted) + " frames, wrote "@ + decimal_of(wrote),
{
}

} // verus!
