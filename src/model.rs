use vstd::prelude::*;

verus! {

/// Length of the fixed bit window used when bit reversal is off.
pub const DEFAULT_WINDOW: usize = 8;

/// Capacity of each bit window; also the largest reverse-window length.
pub const WINDOW_CAPACITY: usize = 32;

/// Number of consecutive zero-input encode steps after which the output is muted.
pub const SILENCE_RUN: u32 = 16;

/// Largest depth (delta ceiling) the encoder accepts: one step below `i32::MAX`,
/// so that a running level can always move by one before it is clamped.
pub const MAX_DEPTH_STEPS: i32 = 2147483646;

/// Mathematical state of one channel's encoder.
pub struct EncoderState {
    /// The bit window that drives the output accumulator.
    pub committed: Seq<i32>,
    /// The bit window being filled by the current encode pass.
    pub building: Seq<i32>,
    /// Cursor into both windows.
    pub index: nat,
    /// The predictor's running level.
    pub running: int,
    /// The accumulated level that drives the reconstructed output.
    pub output: int,
    /// Consecutive encode steps whose scaled input was zero (saturating).
    pub zero_run: nat,
}

/// The window length the encoder uses for a quantized reverse-window setting:
/// zero selects the fixed identity window.
pub open spec fn effective_window_spec(reverse_window: nat) -> nat {
    if reverse_window == 0 {
        DEFAULT_WINDOW as nat
    } else {
        reverse_window
    }
}

/// A depth (delta ceiling) the encoder accepts.
pub open spec fn valid_depth(depth: int) -> bool {
    1 <= depth <= MAX_DEPTH_STEPS
}

/// A quantized reverse-window setting the encoder accepts.
pub open spec fn valid_window(reverse_window: nat) -> bool {
    reverse_window <= WINDOW_CAPACITY
}

/// A window entry: an up bit, a down bit, or the zero of an unwritten slot.
pub open spec fn is_delta_bit(b: i32) -> bool {
    -1 <= b <= 1
}

/// The invariant every reachable encoder state satisfies.
pub open spec fn state_wf(s: EncoderState) -> bool {
    &&& s.committed.len() == WINDOW_CAPACITY
    &&& s.building.len() == WINDOW_CAPACITY
    &&& s.index < WINDOW_CAPACITY
    &&& forall|i: int| 0 <= i < WINDOW_CAPACITY ==> is_delta_bit(#[trigger] s.committed[i])
    &&& forall|i: int| 0 <= i < WINDOW_CAPACITY ==> is_delta_bit(#[trigger] s.building[i])
    &&& -MAX_DEPTH_STEPS <= s.running <= MAX_DEPTH_STEPS
    &&& -MAX_DEPTH_STEPS <= s.output <= MAX_DEPTH_STEPS
    &&& s.zero_run <= u32::MAX
}

/// Both levels lie in `[-depth, depth]`.
pub open spec fn within_depth(s: EncoderState, depth: int) -> bool {
    &&& -depth <= s.running <= depth
    &&& -depth <= s.output <= depth
}

/// The one-bit predictor: step up when the scaled input is at or above the
/// running level and the ceiling is not reached, or when the floor is reached.
pub open spec fn delta_bit(comp: int, running: int, depth: int) -> int {
    if (comp >= running && running < depth) || running <= -depth {
        1
    } else {
        -1
    }
}

/// `v` limited to `[-depth, depth]`.
pub open spec fn clamp_depth(v: int, depth: int) -> int {
    if v > depth {
        depth
    } else if v < -depth {
        -depth
    } else {
        v
    }
}

/// The zero-run count after an encode step: one more (saturating) when the
/// scaled input was zero, otherwise reset.
pub open spec fn next_zero_run(zero_run: nat, comp: int) -> nat {
    if comp != 0 {
        0
    } else if zero_run < u32::MAX {
        zero_run + 1
    } else {
        zero_run
    }
}

/// The committed window after a wrap: the building window as it is when
/// reversal is off; otherwise its first `reverse_window` bits in reverse
/// order, the remaining committed bits kept.
pub open spec fn commit_window(building: Seq<i32>, committed: Seq<i32>, reverse_window: nat) -> Seq<i32> {
    if reverse_window == 0 {
        building
    } else {
        Seq::new(
            WINDOW_CAPACITY as nat,
            |i: int|
                if i < reverse_window {
                    building[reverse_window - 1 - i]
                } else {
                    committed[i]
                },
        )
    }
}

/// One encode step on scaled input `comp`.
pub open spec fn encode_step(s: EncoderState, comp: int, depth: int, reverse_window: nat) -> EncoderState {
    let bit = delta_bit(comp, s.running, depth);
    let building = s.building.update(s.index as int, bit as i32);
    let next = s.index + 1;
    let wraps = next >= effective_window_spec(reverse_window);
    EncoderState {
        committed: if wraps {
            commit_window(building, s.committed, reverse_window)
        } else {
            s.committed
        },
        building,
        index: if wraps {
            0
        } else {
            next
        },
        running: clamp_depth(s.running + bit, depth),
        output: clamp_depth(s.output + s.committed[s.index as int], depth),
        zero_run: next_zero_run(s.zero_run, comp),
    }
}

/// Consecutive encode steps, one per entry of `comps`, first entry first.
pub open spec fn encode_run(s: EncoderState, comps: Seq<int>, depth: int, reverse_window: nat) -> EncoderState
    decreases comps.len(),
{
    if comps.len() == 0 {
        s
    } else {
        encode_step(encode_run(s, comps.drop_last(), depth, reverse_window), comps.last(), depth, reverse_window)
    }
}

/// The reconstructed level, as a numerator over the depth: the output
/// accumulator, or zero once the silence gate has closed.
pub open spec fn reconstructed_level(s: EncoderState) -> int {
    if s.zero_run < SILENCE_RUN {
        s.output
    } else {
        0
    }
}

} // verus!
