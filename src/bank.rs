use vstd::prelude::*;
use crate::encoder::ChannelEncoder;
use crate::model::{
    encode_step, reconstructed_level, state_wf, valid_depth, valid_window, EncoderState,
};

verus! {

/// One encoder per audio channel, indexed by channel number; the channels
/// never interact.
pub struct EncoderBank {
    channels: Vec<ChannelEncoder>,
}

impl View for EncoderBank {
    type V = Seq<EncoderState>;

    closed spec fn view(&self) -> Seq<EncoderState> {
        self.channels@.map_values(|e: ChannelEncoder| e@)
    }
}

impl EncoderBank {
    pub open spec fn wf(&self) -> bool {
        forall|c: int| 0 <= c < self@.len() ==> state_wf(#[trigger] self@[c])
    }

    /// A bank of `channel_count` fresh encoders.
    pub fn new(channel_count: usize) -> (r: EncoderBank)
        ensures
            r.wf(),
            r@.len() == channel_count,
            forall|c: int| 0 <= c < channel_count ==> #[trigger] r@[c] == ChannelEncoder::new_spec(),
    {
        let mut channels: Vec<ChannelEncoder> = Vec::new();
        let mut k: usize = 0;
        while k < channel_count
            invariant
                k <= channel_count,
                channels@.len() == k,
                forall|c: int| 0 <= c < k ==> (#[trigger] channels@[c])@ == ChannelEncoder::new_spec(),
                forall|c: int| 0 <= c < k ==> (#[trigger] channels@[c]).wf(),
            decreases channel_count - k,
        {
            channels.push(ChannelEncoder::new());
            k = k + 1;
        }
        EncoderBank { channels }
    }

    pub fn channel_count(&self) -> (r: usize)
        ensures
            r == self@.len(),
    {
        self.channels.len()
    }

    /// Processes one sample on one channel (see `ChannelEncoder::step`);
    /// every other channel is left as it was.
    pub fn step(&mut self, channel: usize, advance: bool, comp: i32, depth_steps: i32, reverse_window: usize) -> (r: i32)
        requires
            old(self).wf(),
            channel < old(self)@.len(),
            valid_depth(depth_steps as int),
            valid_window(reverse_window as nat),
        ensures
            final(self).wf(),
            final(self)@ == old(self)@.update(
                channel as int,
                if advance {
                    encode_step(old(self)@[channel as int], comp as int, depth_steps as int, reverse_window as nat)
                } else {
                    old(self)@[channel as int]
                },
            ),
            r as int == reconstructed_level(final(self)@[channel as int]),
    {
        let mut e = self.channels[channel];
        assert(e@ == self@[channel as int]);
        let r = e.step(advance, comp, depth_steps, reverse_window);
        let ghost before = self@;
        self.channels.set(channel, e);
        assert(self@ =~= before.update(channel as int, e@));
        r
    }

    /// The reconstructed level of one channel.
    pub fn level(&self, channel: usize) -> (r: i32)
        requires
            self.wf(),
            channel < self@.len(),
        ensures
            r as int == reconstructed_level(self@[channel as int]),
    {
        let e = &self.channels[channel];
        assert(e@ == self@[channel as int]);
        e.level()
    }
}

} // verus!
