//! Layout of rendered stereo frames in output buffers.
//!
//! The signal graph yields one `(left, right)` frame per tick. A device buffer
//! is interleaved: slot `i` belongs to frame `i / channels` and to channel
//! `i % channels`; even channels carry the left sample, odd ones the right.
use vstd::prelude::*;

use crate::session::{FrameSource, RenderSession};

verus! {

/// Number of ticks needed to fill `slots` interleaved slots, the last frame
/// possibly cut short.
pub open spec fn frames_needed(slots: nat, channels: nat) -> nat
    recommends
        channels > 0,
{
    if slots % channels == 0 {
        slots / channels
    } else {
        slots / channels + 1
    }
}

/// The sample that slot `i` of an interleaved buffer receives.
pub open spec fn slot_sample<T>(frames: Seq<(T, T)>, channels: nat, i: nat) -> T
    recommends
        channels > 0,
{
    let frame = frames[(i / channels) as int];
    if (i % channels) % 2 == 0 {
        frame.0
    } else {
        frame.1
    }
}

/// Writes the frames into an interleaved buffer, one frame per group of
/// `channels` slots: even channels get the left sample, odd ones the right.
pub fn write_interleaved<T: Copy>(output: &mut [T], channels: usize, frames: &[(T, T)])
    requires
        channels > 0,
        frames@.len() >= frames_needed(old(output)@.len() as nat, channels as nat),
    ensures
        final(output)@.len() == old(output)@.len(),
        forall|i: int|
            0 <= i < final(output)@.len() ==> #[trigger] final(output)@[i] == slot_sample(
                frames@,
                channels as nat,
                i as nat,
            ),
{
    let len = output.len();
    let mut i: usize = 0;
    while i < len
        invariant
            channels > 0,
            len == output@.len(),
            frames@.len() >= frames_needed(len as nat, channels as nat),
            0 <= i <= len,
            forall|j: int|
                0 <= j < i ==> #[trigger] output@[j] == slot_sample(
                    frames@,
                    channels as nat,
                    j as nat,
                ),
        decreases len - i,
    {
        let f = i / channels;
        proof {
            lemma_frame_in_bounds(i as nat, len as nat, channels as nat);
        }
        let frame = frames[f];
        if (i % channels) % 2 == 0 {
            output[i] = frame.0;
        } else {
            output[i] = frame.1;
        }
        i = i + 1;
    }
}

proof fn lemma_frame_in_bounds(i: nat, len: nat, channels: nat)
    requires
        channels > 0,
        i < len,
    ensures
        i / channels < frames_needed(len, channels),
{
    vstd::arithmetic::div_mod::lemma_div_is_ordered(i as int, len as int, channels as int);
    if len % channels == 0 {
        vstd::arithmetic::div_mod::lemma_fundamental_div_mod(len as int, channels as int);
        vstd::arithmetic::div_mod::lemma_fundamental_div_mod(i as int, channels as int);
        if i / channels >= len / channels {
            assert(i / channels == len / channels);
            assert(i >= channels * (i / channels)) by (nonlinear_arith)
                requires
                    i == channels * (i / channels) + i % channels,
                    i % channels >= 0,
            ;
            assert(false);
        }
    }
}

proof fn lemma_frames_needed_step(i: nat, channels: nat)
    requires
        channels > 0,
    ensures
        i % channels == 0 ==> frames_needed(i, channels) == i / channels,
        i % channels == 0 ==> frames_needed(i + 1, channels) == frames_needed(i, channels) + 1,
        i % channels != 0 ==> frames_needed(i + 1, channels) == frames_needed(i, channels),
        (i + 1) % channels != 0 ==> (i + 1) / channels == i / channels,
{
    let q = i / channels;
    let r = i % channels;
    vstd::arithmetic::div_mod::lemma_fundamental_div_mod(i as int, channels as int);
    assert(0 <= r < channels);
    if r + 1 < channels {
        assert(i + 1 == q * channels + (r + 1)) by (nonlinear_arith)
            requires
                i == channels * q + r,
        ;
        vstd::arithmetic::div_mod::lemma_fundamental_div_mod_converse(
            (i + 1) as int,
            channels as int,
            q as int,
            (r + 1) as int,
        );
    } else {
        assert(i + 1 == (q + 1) * channels + 0) by (nonlinear_arith)
            requires
                i == channels * q + r,
                r + 1 == channels,
        ;
        vstd::arithmetic::div_mod::lemma_fundamental_div_mod_converse(
            (i + 1) as int,
            channels as int,
            (q + 1) as int,
            0,
        );
    }
}

/// Fills an interleaved device buffer straight from the session's graph,
/// allocating nothing. The graph advances exactly once per frame the buffer
/// needs, continuing where the session stood; the frames of those ticks, in
/// order, fill the buffer as [`slot_sample`] says. Returns the ticks taken.
pub fn fill_buffer<T: Copy, S: FrameSource<T>>(
    output: &mut [T],
    channels: usize,
    session: &mut RenderSession<T, S>,
) -> (ticks: usize)
    requires
        channels > 0,
    ensures
        final(output)@.len() == old(output)@.len(),
        ticks == frames_needed(old(output)@.len() as nat, channels as nat),
        exists|pulled: Seq<(T, T)>|
            pulled.len() == ticks && final(session).emitted() == old(session).emitted() + pulled
                && forall|i: int|
                0 <= i < final(output)@.len() ==> #[trigger] final(output)@[i] == slot_sample(
                    pulled,
                    channels as nat,
                    i as nat,
                ),
{
    let len = output.len();
    let mut ticks: usize = 0;
    let mut current: Option<(T, T)> = None;
    let ghost mut pulled: Seq<(T, T)> = Seq::empty();
    let ghost start = session.emitted();
    let mut i: usize = 0;
    while i < len
        invariant
            channels > 0,
            session.emitted() == start + pulled,
            len == output@.len(),
            0 <= i <= len,
            pulled.len() == ticks,
            ticks == frames_needed(i as nat, channels as nat),
            i % channels != 0 ==> current == Some(pulled[(i / channels) as int]),
            forall|j: int|
                0 <= j < i ==> #[trigger] output@[j] == slot_sample(
                    pulled,
                    channels as nat,
                    j as nat,
                ),
        decreases len - i,
    {
        proof {
            lemma_frames_needed_step(i as nat, channels as nat);
            lemma_frame_in_bounds(i as nat, len as nat, channels as nat);
        }
        let frame = if i % channels == 0 {
            let frame = session.tick();
            proof {
                let before = pulled;
                pulled = pulled.push(frame);
                assert(start + pulled =~= (start + before).push(frame));
                assert forall|j: int| 0 <= j < i implies #[trigger] output@[j] == slot_sample(
                    pulled,
                    channels as nat,
                    j as nat,
                ) by {
                    lemma_frame_in_bounds(j as nat, i as nat, channels as nat);
                    assert(pulled[(j as nat / channels as nat) as int] == before[(j as nat
                        / channels as nat) as int]);
                }
            }
            current = Some(frame);
            ticks = ticks + 1;
            frame
        } else {
            current.unwrap()
        };
        if (i % channels) % 2 == 0 {
            output[i] = frame.0;
        } else {
            output[i] = frame.1;
        }
        i = i + 1;
    }
    ticks
}

/// Renders an offline buffer of exactly `sample_rate * seconds` frames: the
/// next frames the graph yields, one tick each, in order.
pub fn render_offline<T, S: FrameSource<T>>(
    session: &mut RenderSession<T, S>,
    sample_rate: u32,
    seconds: u32,
) -> (r: Vec<(T, T)>)
    requires
        sample_rate * seconds <= usize::MAX,
    ensures
        r@.len() == sample_rate * seconds,
        final(session).emitted() == old(session).emitted() + r@,
{
    let total = offline_frame_count(sample_rate, seconds) as usize;
    let mut buffer: Vec<(T, T)> = Vec::new();
    let ghost start = session.emitted();
    while buffer.len() < total
        invariant
            buffer@.len() <= total,
            session.emitted() == start + buffer@,
        decreases total - buffer@.len(),
    {
        let ghost before = buffer@;
        let frame = session.tick();
        buffer.push(frame);
        assert(start + buffer@ =~= (start + before).push(frame));
    }
    buffer
}

/// In a two-channel buffer, slot `2k` holds the left sample of tick `k` and
/// slot `2k + 1` its right sample.
pub proof fn lemma_stereo_layout<T>(frames: Seq<(T, T)>, k: nat)
    ensures
        slot_sample(frames, 2, 2 * k) == frames[k as int].0,
        slot_sample(frames, 2, 2 * k + 1) == frames[k as int].1,
{
    assert((2 * k) / 2 == k && (2 * k) % 2 == 0) by (nonlinear_arith);
    assert((2 * k + 1) / 2 == k && (2 * k + 1) % 2 == 1) by (nonlinear_arith);
}

/// Frames in an offline render of `seconds` seconds at `sample_rate` Hz.
pub fn offline_frame_count(sample_rate: u32, seconds: u32) -> (r: u64)
    ensures
        r == sample_rate * seconds,
{
    assert(sample_rate * seconds <= u32::MAX * u32::MAX) by (nonlinear_arith);
    sample_rate as u64 * seconds as u64
}

} // verus!
