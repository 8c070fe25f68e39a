use vstd::prelude::*;
use crate::model::{
    effective_window_spec, encode_run, encode_step, reconstructed_level, state_wf, valid_depth,
    valid_window, within_depth, EncoderState, SILENCE_RUN,
};

verus! {

/// One encode step keeps the state invariant and leaves both levels within the depth.
pub proof fn lemma_step_wf(s: EncoderState, comp: int, depth: int, reverse_window: nat)
    requires
        state_wf(s),
        valid_depth(depth),
        valid_window(reverse_window),
    ensures
        state_wf(encode_step(s, comp, depth, reverse_window)),
        within_depth(encode_step(s, comp, depth, reverse_window), depth),
{
    let r = encode_step(s, comp, depth, reverse_window);
    assert forall|i: int| 0 <= i < 32 implies -1 <= #[trigger] r.building[i] <= 1 by {
        if i != s.index {
            assert(r.building[i] == s.building[i]);
        }
    }
    assert forall|i: int| 0 <= i < 32 implies -1 <= #[trigger] r.committed[i] <= 1 by {
        assert(-1 <= r.building[i] <= 1);
        if reverse_window > 0 && i < reverse_window {
            assert(-1 <= r.building[reverse_window - 1 - i] <= 1);
        }
    }
}

/// For any sequence of encode steps at a fixed depth, both the running level
/// and the output level stay within `[-depth, depth]`: after every step when
/// they started there, and after any nonempty run whatever they started at.
pub proof fn lemma_levels_within_depth(s: EncoderState, comps: Seq<int>, depth: int, reverse_window: nat)
    requires
        state_wf(s),
        valid_depth(depth),
        valid_window(reverse_window),
        within_depth(s, depth) || comps.len() > 0,
    ensures
        state_wf(encode_run(s, comps, depth, reverse_window)),
        within_depth(encode_run(s, comps, depth, reverse_window), depth),
    decreases comps.len(),
{
    if comps.len() > 0 {
        let prev = comps.drop_last();
        lemma_run_wf(s, prev, depth, reverse_window);
        lemma_step_wf(encode_run(s, prev, depth, reverse_window), comps.last(), depth, reverse_window);
    }
}

proof fn lemma_run_wf(s: EncoderState, comps: Seq<int>, depth: int, reverse_window: nat)
    requires
        state_wf(s),
        valid_depth(depth),
        valid_window(reverse_window),
    ensures
        state_wf(encode_run(s, comps, depth, reverse_window)),
    decreases comps.len(),
{
    if comps.len() > 0 {
        let prev = comps.drop_last();
        lemma_run_wf(s, prev, depth, reverse_window);
        lemma_step_wf(encode_run(s, prev, depth, reverse_window), comps.last(), depth, reverse_window);
    }
}

proof fn lemma_trailing_zeros(s: EncoderState, comps: Seq<int>, k: nat, depth: int, reverse_window: nat)
    requires
        k <= comps.len(),
        k <= SILENCE_RUN,
        forall|i: int| comps.len() - k <= i < comps.len() ==> #[trigger] comps[i] == 0,
    ensures
        encode_run(s, comps, depth, reverse_window).zero_run >= k,
    decreases comps.len(),
{
    if k > 0 {
        let prev = comps.drop_last();
        assert forall|i: int| prev.len() - (k - 1) <= i < prev.len() implies #[trigger] prev[i] == 0 by {
            assert(prev[i] == comps[i]);
        }
        lemma_trailing_zeros(s, prev, (k - 1) as nat, depth, reverse_window);
        assert(comps.last() == 0);
    }
}

/// Silence gate: once the last sixteen (or more) encode steps all saw a zero
/// scaled input, the reconstructed level is exactly zero, whatever the state
/// before them and whatever came earlier.
pub proof fn lemma_silence(s: EncoderState, comps: Seq<int>, depth: int, reverse_window: nat)
    requires
        comps.len() >= SILENCE_RUN,
        forall|i: int| comps.len() - SILENCE_RUN <= i < comps.len() ==> #[trigger] comps[i] == 0,
    ensures
        reconstructed_level(encode_run(s, comps, depth, reverse_window)) == 0,
{
    lemma_trailing_zeros(s, comps, SILENCE_RUN as nat, depth, reverse_window);
}

proof fn lemma_cursor_in_cycle(s: EncoderState, comps: Seq<int>, k: nat, depth: int, reverse_window: nat)
    requires
        s.index == 0,
        valid_window(reverse_window),
        k < effective_window_spec(reverse_window),
        k <= comps.len(),
    ensures
        encode_run(s, comps.take(k as int), depth, reverse_window).index == k,
    decreases k,
{
    if k > 0 {
        lemma_cursor_in_cycle(s, comps, (k - 1) as nat, depth, reverse_window);
        assert(comps.take(k as int).drop_last() =~= comps.take(k - 1));
    }
}

/// Window commit: starting from a cursor at zero, one full window of encode
/// steps brings the cursor back to zero and commits the building window, as
/// it is when reversal is off, and its first `reverse_window` bits in reverse
/// order otherwise.
pub proof fn lemma_window_commit(s: EncoderState, comps: Seq<int>, depth: int, reverse_window: nat)
    requires
        state_wf(s),
        s.index == 0,
        valid_depth(depth),
        valid_window(reverse_window),
        comps.len() == effective_window_spec(reverse_window),
    ensures
        encode_run(s, comps, depth, reverse_window).index == 0,
        reverse_window == 0 ==> encode_run(s, comps, depth, reverse_window).committed == encode_run(
            s,
            comps,
            depth,
            reverse_window,
        ).building,
        forall|i: int|
            0 <= i < reverse_window ==> #[trigger] encode_run(s, comps, depth, reverse_window).committed[i]
                == encode_run(s, comps, depth, reverse_window).building[reverse_window - 1 - i],
{
    let w = effective_window_spec(reverse_window);
    let prev = comps.drop_last();
    lemma_cursor_in_cycle(s, comps, (w - 1) as nat, depth, reverse_window);
    assert(comps.take(w - 1) =~= prev);
}

} // verus!
