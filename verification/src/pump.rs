//! The stream pump: fills the hardware callback's buffer from the channel.
//!
//! Once per requested output buffer the hardware hands over a mutable slab of
//! `channel_count × frames` native-format slots. For each frame the pump pops
//! exactly one sample from the [`crate::channel::SampleChannel`] and writes
//! the identical value into every channel slot of that frame — monophonic
//! fan-out, no panning. Converting the sample from its internal floating
//! representation to the hardware's native numeric format happens in the
//! unverified front end, before the value reaches these functions; here the
//! value is opaque and only its placement is at stake.

use vstd::arithmetic::div_mod::{lemma_fundamental_div_mod, lemma_fundamental_div_mod_converse};
use vstd::prelude::*;

use crate::channel::SampleChannel;
use crate::ConfigError;

verus! {

/// The consumer side of the pipeline: knows the output channel count and
/// replicates each popped sample across one frame.
pub struct StreamPump {
    channels: usize,
}

impl StreamPump {
    /// The output channel count, fixed at stream setup.
    pub closed spec fn spec_channels(self) -> usize {
        self.channels
    }

    /// Well-formedness: at least one output channel.
    pub open spec fn wf(self) -> bool {
        self.spec_channels() >= 1
    }

    /// The output channel count.
    pub fn channels(&self) -> (n: usize)
        ensures
            n == self.spec_channels(),
    {
        self.channels
    }

    /// Creates a pump for the negotiated channel count. A zero channel count
    /// is a configuration error and is rejected, never coerced.
    pub fn new(channels: usize) -> (result: Result<StreamPump, ConfigError>)
        ensures
            channels >= 1 ==> (result matches Ok(p) && p.wf() && p.spec_channels() == channels),
            channels == 0 ==> result == Err::<StreamPump, ConfigError>(
                ConfigError::InvalidChannelCount,
            ),
    {
        if channels == 0 {
            return Err(ConfigError::InvalidChannelCount);
        }
        Ok(StreamPump { channels })
    }

    /// Monophonic fan-out of one frame: every channel slot receives the same
    /// (already format-converted) sample value.
    pub fn fan_out<T: Copy>(&self, value: T) -> (frame: Vec<T>)
        ensures
            frame@.len() == self.spec_channels(),
            forall|i: int| 0 <= i < frame@.len() ==> frame@[i] == value,
    {
        let mut frame: Vec<T> = Vec::new();
        let mut c: usize = 0;
        while c < self.channels
            invariant
                c <= self.channels,
                frame@.len() == c,
                forall|i: int| 0 <= i < c ==> frame@[i] == value,
            decreases self.channels - c,
    {
            frame.push(value);
            c = c + 1;
        }
        frame
    }

    /// One callback's worth of pumping: pops one sample per frame, oldest
    /// first, and fans it out across the frame's channel slots. Stops when
    /// the buffer is full or the channel runs dry, whichever comes first;
    /// slots of unfilled frames are left untouched, and the channel's closed
    /// flag tells the caller whether starvation means waiting for the
    /// producer or a terminal stop.
    pub fn fill_buffer<T: Copy>(
        &self,
        output: &mut Vec<T>,
        source: &mut SampleChannel<T>,
    ) -> (filled: usize)
        requires
            self.wf(),
            old(source).wf(),
            old(output)@.len() as int % (self.spec_channels() as int) == 0,
        ensures
            final(source).wf(),
            final(source).spec_capacity() == old(source).spec_capacity(),
            final(source).is_closed() == old(source).is_closed(),
            final(output)@.len() == old(output)@.len(),
            filled == vstd::math::min(
                old(output)@.len() as int / (self.spec_channels() as int),
                old(source)@.len() as int,
            ),
            final(source)@ == old(source)@.skip(filled as int),
            forall|i: int|
                0 <= i < filled * self.spec_channels() ==> final(output)@[i] == old(source)@[i / (
                self.spec_channels() as int)],
            forall|i: int|
                filled * self.spec_channels() <= i < final(output)@.len() ==> final(output)@[i]
                    == old(output)@[i],
    {
        let channels = self.channels;
        let len = output.len();
        let frames = len / channels;
        proof {
            lemma_fundamental_div_mod(len as int, channels as int);
            assert(frames * channels == channels * frames) by (nonlinear_arith);
        }
        let mut f: usize = 0;
        while f < frames
            invariant
                self.wf(),
                channels == self.spec_channels(),
                source.wf(),
                source.spec_capacity() == old(source).spec_capacity(),
                source.is_closed() == old(source).is_closed(),
                output@.len() == len,
                len == old(output)@.len(),
                len == frames * channels,
                frames == len as int / channels as int,
                f <= frames,
                f <= old(source)@.len(),
                source@ == old(source)@.skip(f as int),
                forall|i: int|
                    0 <= i < f * channels ==> output@[i] == old(source)@[i / (channels as int)],
                forall|i: int| f * channels <= i < len ==> output@[i] == old(output)@[i],
            decreases frames - f,
        {
            let value = match source.pop() {
                Ok(v) => v,
                Err(_) => {
                    proof {
                        assert(old(source)@.len() == f);
                    }
                    return f;
                },
            };
            proof {
                assert(value == old(source)@[f as int]);
                assert(source@ =~= old(source)@.skip(f as int + 1));
                assert((f + 1) * channels <= frames * channels) by (nonlinear_arith)
                    requires
                        f + 1 <= frames,
                        channels >= 0,
                ;
                assert((f + 1) * channels == f * channels + channels) by (nonlinear_arith);
            }
            let base = f * channels;
            let ghost pre = output@;
            let mut c: usize = 0;
            while c < channels
                invariant
                    c <= channels,
                    base == f * channels,
                    base + channels <= len,
                    output@.len() == len,
                    forall|i: int| base <= i < base + c ==> output@[i] == value,
                    forall|i: int|
                        (0 <= i < base || base + c <= i < len) ==> output@[i] == pre[i],
                decreases channels - c,
            {
                output.set(base + c, value);
                c = c + 1;
            }
            proof {
                assert forall|i: int| 0 <= i < (f + 1) * channels implies output@[i] == old(
                    source,
                )@[i / (channels as int)] by {
                    if i < f * channels {
                        assert(output@[i] == pre[i]);
                    } else {
                        lemma_fundamental_div_mod_converse(
                            i,
                            channels as int,
                            f as int,
                            i - f * channels,
                        );
                        assert(output@[i] == value);
                    }
                }
            }
            f = f + 1;
        }
        frames
    }
}

} // verus!
