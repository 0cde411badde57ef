use vstd::prelude::*;

use crate::adc::Adc;
use crate::bus::AdcBus;
use crate::errors::GpmError;
use crate::Resource;

verus! {

/// The discrete control intent derived from one pair of muscle readings.
#[derive(Clone, Copy, Debug, PartialEq, Eq, Structural)]
pub enum GestureIntent {
    /// Open the hand.
    Open,
    /// Close the hand.
    Close,
    /// Keep the current posture.
    Hold,
}

/// The threshold rule that maps one pair of channel values to an intent.
///
/// `Open` is tested first, so when both boundary conditions hold at once
/// (`v0 == inner` and `v1 == outer`) the tie breaks in favor of `Open`.
pub open spec fn spec_classify(v0: u16, v1: u16, inner: u16, outer: u16) -> GestureIntent {
    if v0 >= inner && v1 <= outer {
        GestureIntent::Open
    } else if v0 <= inner && v1 >= outer {
        GestureIntent::Close
    } else {
        GestureIntent::Hold
    }
}

/// When both boundary conditions hold at once, the classification is
/// `Open`, whatever the thresholds are: the `Open` rule is tested first.
pub proof fn lemma_tie_break_favors_open(v0: u16, v1: u16, inner: u16, outer: u16)
    requires
        v0 == inner,
        v1 == outer,
    ensures
        spec_classify(v0, v1, inner, outer) == GestureIntent::Open,
{
}

/// The muscle-activity sensor pair: buffers interleaved samples of
/// channels 0 and 1 of its converter and classifies value pairs against
/// two calibrated thresholds.
pub struct Emg<B: AdcBus> {
    /// The reader for the electrode converter.
    pub adc: Adc<B>,
    buffer: Vec<u16>,
    buffer_size: usize,
    inner_threshold: u16,
    outer_threshold: u16,
    current_channel_0: u16,
    current_channel_1: u16,
}

impl<B: AdcBus> Emg<B> {
    /// The buffered samples of the last completed acquisition cycle.
    pub closed spec fn spec_buffer(&self) -> Seq<u16> {
        self.buffer@
    }

    /// The configured acquisition cycle length.
    pub closed spec fn spec_buffer_size(&self) -> int {
        self.buffer_size as int
    }

    /// The calibrated threshold for channel 0.
    pub closed spec fn spec_inner_threshold(&self) -> u16 {
        self.inner_threshold
    }

    /// The calibrated threshold for channel 1.
    pub closed spec fn spec_outer_threshold(&self) -> u16 {
        self.outer_threshold
    }

    /// The most recent single value read from channel 0.
    pub closed spec fn spec_current_channel_0(&self) -> u16 {
        self.current_channel_0
    }

    /// The most recent single value read from channel 1.
    pub closed spec fn spec_current_channel_1(&self) -> u16 {
        self.current_channel_1
    }

    /// Well-formedness: the cycle length is even, the buffer holds at most
    /// one cycle, and every retained value fits the converter's 10 bits.
    pub closed spec fn wf(&self) -> bool {
        &&& self.buffer_size % 2 == 0
        &&& self.buffer@.len() <= self.buffer_size
        &&& forall|i: int| 0 <= i < self.buffer@.len() ==> #[trigger] self.buffer@[i] <= 1023
        &&& self.current_channel_0 <= 1023
        &&& self.current_channel_1 <= 1023
    }

    /// Reset the buffer to empty with the given even cycle length.
    pub fn configure(&mut self, buffer_size: usize)
        requires
            old(self).wf(),
            buffer_size % 2 == 0,
        ensures
            final(self).wf(),
            final(self).spec_buffer_size() == buffer_size,
            final(self).spec_buffer() == Seq::<u16>::empty(),
            final(self).spec_inner_threshold() == old(self).spec_inner_threshold(),
            final(self).spec_outer_threshold() == old(self).spec_outer_threshold(),
            final(self).spec_current_channel_0() == old(self).spec_current_channel_0(),
            final(self).spec_current_channel_1() == old(self).spec_current_channel_1(),
    {
        self.buffer_size = buffer_size;
        self.buffer = Vec::new();
        proof {
            assert(self.buffer@ =~= Seq::<u16>::empty());
        }
    }

    /// One acquisition cycle: half a cycle of paired reads from channels 0
    /// and 1, interleaved in acquisition order, replacing the buffer
    /// wholesale and updating the two most-recent single-channel values.
    ///
    /// A failed read aborts the cycle and leaves the buffer unchanged.
    pub fn read_buffer(&mut self) -> (r: Result<Vec<u16>, GpmError>)
        requires
            old(self).wf(),
        ensures
            final(self).wf(),
            final(self).spec_buffer_size() == old(self).spec_buffer_size(),
            final(self).spec_inner_threshold() == old(self).spec_inner_threshold(),
            final(self).spec_outer_threshold() == old(self).spec_outer_threshold(),
            r matches Ok(s) ==> {
                &&& s@ == final(self).spec_buffer()
                &&& s@.len() == old(self).spec_buffer_size()
                &&& forall|i: int| 0 <= i < s@.len() ==> #[trigger] s@[i] <= 1023
                &&& s@.len() > 0 ==> final(self).spec_current_channel_0() == s@[s@.len() - 2]
                    && final(self).spec_current_channel_1() == s@[s@.len() - 1]
            },
            r is Err ==> final(self).spec_buffer() == old(self).spec_buffer(),
            r matches Err(e) ==> e matches GpmError::TransferFailure { channel } && channel <= 1,
            B::reliable() ==> r is Ok,
    {
        let ghost size = self.buffer_size as int;
        let mut samples: Vec<u16> = Vec::new();
        let half = self.buffer_size / 2;
        for k in 0..half
            invariant
                self.buffer_size as int == size,
                size == old(self).spec_buffer_size(),
                size % 2 == 0,
                half == size / 2,
                samples@.len() == 2 * k,
                forall|i: int| 0 <= i < samples@.len() ==> #[trigger] samples@[i] <= 1023,
                k > 0 ==> self.current_channel_0 == samples@[samples@.len() - 2]
                    && self.current_channel_1 == samples@[samples@.len() - 1],
                self.current_channel_0 <= 1023,
                self.current_channel_1 <= 1023,
                self.buffer@ == old(self).spec_buffer(),
                self.buffer@.len() <= size,
                forall|i: int| 0 <= i < self.buffer@.len() ==> #[trigger] self.buffer@[i]
                    <= 1023,
                self.inner_threshold == old(self).inner_threshold,
                self.outer_threshold == old(self).outer_threshold,
        {
            let ch0 = match self.adc.read_channel(0) {
                Ok(v) => v,
                Err(e) => {
                    return Err(e);
                },
            };
            let ch1 = match self.adc.read_channel(1) {
                Ok(v) => v,
                Err(e) => {
                    return Err(e);
                },
            };
            self.current_channel_0 = ch0;
            self.current_channel_1 = ch1;
            samples.push(ch0);
            samples.push(ch1);
        }
        let result = samples.clone();
        proof {
            assert(result@ =~= samples@);
            assert(2 * (size / 2) == size);
        }
        self.buffer = samples;
        Ok(result)
    }

    /// The sensor needs no settling time: it is always ready.
    pub fn is_ready(&self) -> (r: bool)
        ensures
            r,
    {
        true
    }

    /// The buffered samples of the last completed acquisition cycle,
    /// without reading new data.
    pub fn get_latest_samples(&self) -> (s: Vec<u16>)
        ensures
            s@ == self.spec_buffer(),
    {
        let s = self.buffer.clone();
        proof {
            assert(s@ =~= self.buffer@);
        }
        s
    }

    /// Overwrite both classification thresholds; no validation is applied.
    pub fn calibrate(&mut self, inner_threshold: u16, outer_threshold: u16)
        requires
            old(self).wf(),
        ensures
            final(self).wf(),
            final(self).spec_inner_threshold() == inner_threshold,
            final(self).spec_outer_threshold() == outer_threshold,
            final(self).spec_buffer() == old(self).spec_buffer(),
            final(self).spec_buffer_size() == old(self).spec_buffer_size(),
            final(self).spec_current_channel_0() == old(self).spec_current_channel_0(),
            final(self).spec_current_channel_1() == old(self).spec_current_channel_1(),
    {
        self.inner_threshold = inner_threshold;
        self.outer_threshold = outer_threshold;
    }

    /// Classify exactly two channel values against the calibrated
    /// thresholds; any other count fails with `InvalidInputCount`.
    pub fn process_data(&self, values: &[u16]) -> (r: Result<GestureIntent, GpmError>)
        ensures
            values@.len() == 2 ==> r == Ok::<GestureIntent, GpmError>(
                spec_classify(
                    values@[0],
                    values@[1],
                    self.spec_inner_threshold(),
                    self.spec_outer_threshold(),
                ),
            ),
            values@.len() != 2 ==> r == Err::<GestureIntent, GpmError>(
                GpmError::InvalidInputCount { count: values@.len() as usize },
            ),
    {
        if values.len() != 2 {
            return Err(GpmError::InvalidInputCount { count: values.len() });
        }
        if values[0] >= self.inner_threshold && values[1] <= self.outer_threshold {
            Ok(GestureIntent::Open)
        } else if values[0] <= self.inner_threshold && values[1] >= self.outer_threshold {
            Ok(GestureIntent::Close)
        } else {
            Ok(GestureIntent::Hold)
        }
    }
}

impl<B: AdcBus> Resource for Emg<B> {
    /// The sensor pair with its default configuration: converter select
    /// pin 8 at 1.35 MHz, a 256-sample cycle, and both thresholds at the
    /// mid-scale value 450.
    fn init() -> (r: Self)
        ensures
            r.wf(),
            r.spec_buffer() == Seq::<u16>::empty(),
            r.spec_buffer_size() == 256,
            r.spec_inner_threshold() == 450,
            r.spec_outer_threshold() == 450,
            r.spec_current_channel_0() == 0,
            r.spec_current_channel_1() == 0,
    {
        let r = Emg {
            adc: Adc::init(8, 1350000),
            buffer: Vec::new(),
            buffer_size: 256,
            inner_threshold: 450,
            outer_threshold: 450,
            current_channel_0: 0,
            current_channel_1: 0,
        };
        proof {
            assert(r.buffer@ =~= Seq::<u16>::empty());
        }
        r
    }

    /// The registry name of the sensor pair.
    fn name() -> (n: String)
        ensures
            n@ == "Emg"@,
    {
        String::from_str("Emg")
    }
}

} // verus!
