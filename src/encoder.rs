use vstd::prelude::*;
use crate::model::{
    clamp_depth, effective_window_spec, encode_step, reconstructed_level, state_wf, valid_depth,
    valid_window, within_depth, EncoderState, DEFAULT_WINDOW, SILENCE_RUN, WINDOW_CAPACITY,
};

verus! {

/// The DPCM encoder/decoder state of one audio channel.
#[derive(Clone, Copy)]
pub struct ChannelEncoder {
    queue_committed: [i32; 32],
    queue_building: [i32; 32],
    queue_index: usize,
    delta_running: i32,
    delta_output: i32,
    zero_run_length: u32,
}

impl View for ChannelEncoder {
    type V = EncoderState;

    closed spec fn view(&self) -> EncoderState {
        EncoderState {
            committed: self.queue_committed@,
            building: self.queue_building@,
            index: self.queue_index as nat,
            running: self.delta_running as int,
            output: self.delta_output as int,
            zero_run: self.zero_run_length as nat,
        }
    }
}

/// The window length in use for a quantized reverse-window setting.
pub fn effective_window(reverse_window: usize) -> (r: usize)
    ensures
        r as nat == effective_window_spec(reverse_window as nat),
{
    if reverse_window == 0 {
        DEFAULT_WINDOW
    } else {
        reverse_window
    }
}

fn clamp_to_depth(v: i32, depth: i32) -> (r: i32)
    requires
        valid_depth(depth as int),
    ensures
        r as int == clamp_depth(v as int, depth as int),
{
    if v > depth {
        depth
    } else if v < -depth {
        -depth
    } else {
        v
    }
}

impl Default for ChannelEncoder {
    fn default() -> (r: ChannelEncoder)
        ensures
            r.wf(),
            r@ == ChannelEncoder::new_spec(),
    {
        ChannelEncoder::new()
    }
}

impl ChannelEncoder {
    pub open spec fn wf(&self) -> bool {
        state_wf(self@)
    }

    /// The state of a fresh encoder: windows of zero bits, cursor at zero,
    /// both levels at zero, no zero run.
    pub open spec fn new_spec() -> EncoderState {
        EncoderState {
            committed: Seq::new(WINDOW_CAPACITY as nat, |i: int| 0i32),
            building: Seq::new(WINDOW_CAPACITY as nat, |i: int| 0i32),
            index: 0,
            running: 0,
            output: 0,
            zero_run: 0,
        }
    }

    /// A fresh encoder.
    pub fn new() -> (r: ChannelEncoder)
        ensures
            r.wf(),
            r@ == Self::new_spec(),
    {
        let r = ChannelEncoder {
            queue_committed: [0i32; 32],
            queue_building: [0i32; 32],
            queue_index: 0,
            delta_running: 0,
            delta_output: 0,
            zero_run_length: 0,
        };
        assert(r@.committed =~= Seq::new(WINDOW_CAPACITY as nat, |i: int| 0i32));
        assert(r@.building =~= Seq::new(WINDOW_CAPACITY as nat, |i: int| 0i32));
        r
    }

    /// Runs one encode step on the scaled input `comp`: decides the delta bit,
    /// writes it into the building window, moves the output accumulator by the
    /// committed bit at the cursor, clamps both levels to the depth, tracks the
    /// zero run, and advances the cursor, committing the window when it wraps.
    pub fn encode(&mut self, comp: i32, depth_steps: i32, reverse_window: usize)
        requires
            old(self).wf(),
            valid_depth(depth_steps as int),
            valid_window(reverse_window as nat),
        ensures
            final(self).wf(),
            final(self)@ == encode_step(old(self)@, comp as int, depth_steps as int, reverse_window as nat),
            within_depth(final(self)@, depth_steps as int),
            final(self)@.index < effective_window_spec(reverse_window as nat),
    {
        let ghost s0 = self@;
        let d = depth_steps;
        let i = self.queue_index;
        let bit: i32 = if (comp >= self.delta_running && self.delta_running < d) || self.delta_running <= -d {
            1
        } else {
            -1
        };
        self.queue_building[i] = bit;
        self.delta_running = clamp_to_depth(self.delta_running + bit, d);
        let committed_bit = self.queue_committed[i];
        self.delta_output = clamp_to_depth(self.delta_output + committed_bit, d);
        if comp == 0 {
            if self.zero_run_length < u32::MAX {
                self.zero_run_length = self.zero_run_length + 1;
            }
        } else {
            self.zero_run_length = 0;
        }
        let next = i + 1;
        if next >= effective_window(reverse_window) {
            self.queue_index = 0;
            if reverse_window == 0 {
                self.queue_committed = self.queue_building;
            } else {
                let mut committed = self.queue_committed;
                let mut k: usize = 0;
                while k < reverse_window
                    invariant
                        0 <= k <= reverse_window <= WINDOW_CAPACITY,
                        self.queue_committed@.len() == WINDOW_CAPACITY,
                        committed@.len() == WINDOW_CAPACITY,
                        forall|j: int| 0 <= j < k ==> #[trigger] committed@[j]
                            == self.queue_building@[reverse_window - 1 - j],
                        forall|j: int| k <= j < WINDOW_CAPACITY ==> #[trigger] committed@[j]
                            == self.queue_committed@[j],
                    decreases reverse_window - k,
                {
                    committed[k] = self.queue_building[reverse_window - 1 - k];
                    k = k + 1;
                }
                self.queue_committed = committed;
            }
        } else {
            self.queue_index = next;
        }
        let ghost expected = encode_step(s0, comp as int, depth_steps as int, reverse_window as nat);
        assert(self@.building =~= expected.building);
        assert(self@.committed =~= expected.committed);
    }

    /// The reconstructed level as a numerator over the depth.
    pub fn level(&self) -> (r: i32)
        requires
            self.wf(),
        ensures
            r as int == reconstructed_level(self@),
    {
        if self.zero_run_length < SILENCE_RUN {
            self.delta_output
        } else {
            0
        }
    }

    /// Processes one sample: runs an encode step when the sub-sample clock
    /// fired (`advance`), then returns the reconstructed level.
    pub fn step(&mut self, advance: bool, comp: i32, depth_steps: i32, reverse_window: usize) -> (r: i32)
        requires
            old(self).wf(),
            valid_depth(depth_steps as int),
            valid_window(reverse_window as nat),
        ensures
            final(self).wf(),
            final(self)@ == (if advance {
                encode_step(old(self)@, comp as int, depth_steps as int, reverse_window as nat)
            } else {
                old(self)@
            }),
            r as int == reconstructed_level(final(self)@),
            advance || within_depth(old(self)@, depth_steps as int) ==> within_depth(
                final(self)@,
                depth_steps as int,
            ),
    {
        if advance {
            self.encode(comp, depth_steps, reverse_window);
        }
        self.level()
    }

    pub fn queue_index(&self) -> (r: usize)
        ensures
            r as nat == self@.index,
    {
        self.queue_index
    }

    pub fn delta_running(&self) -> (r: i32)
        ensures
            r as int == self@.running,
    {
        self.delta_running
    }

    pub fn delta_output(&self) -> (r: i32)
        ensures
            r as int == self@.output,
    {
        self.delta_output
    }

    pub fn zero_run_length(&self) -> (r: u32)
        ensures
            r as nat == self@.zero_run,
    {
        self.zero_run_length
    }

    /// The committed bit at position `i`.
    pub fn committed_bit(&self, i: usize) -> (r: i32)
        requires
            i < WINDOW_CAPACITY,
        ensures
            r == self@.committed[i as int],
    {
        self.queue_committed[i]
    }

    /// The building-window bit at position `i`.
    pub fn building_bit(&self, i: usize) -> (r: i32)
        requires
            i < WINDOW_CAPACITY,
        ensures
            r == self@.building[i as int],
    {
        self.queue_building[i]
    }
}

} // verus!
