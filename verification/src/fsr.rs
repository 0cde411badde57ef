use vstd::arithmetic::div_mod::{
    lemma_fundamental_div_mod_converse_div, lemma_fundamental_div_mod_converse_mod,
};
use vstd::prelude::*;

use crate::adc::Adc;
use crate::bus::AdcBus;
use crate::errors::GpmError;
use crate::Resource;

verus! {

/// One pressure sample: which device it came from, which input on that
/// device, the raw value, and whether the value indicates applied
/// pressure.
#[derive(Clone, Copy, Debug, PartialEq, Eq, Structural)]
pub struct FsrReading {
    /// The physical device's index in the configured scan order.
    pub fsr_id: usize,
    /// The multiplexed input on that device.
    pub channel: u8,
    /// The raw 10-bit value.
    pub value: u16,
    /// Whether the raw value lies strictly below the at-rest threshold:
    /// under the assumed sensor wiring a lower raw value means more
    /// applied force.
    pub pressure_detected: bool,
}

/// Whether at least one reading of a scan reports pressure.
pub open spec fn spec_any_pressure(readings: Seq<FsrReading>) -> bool {
    exists|i: int| 0 <= i < readings.len() && readings[i].pressure_detected
}

/// True iff at least one reading of the scan has `pressure_detected`.
pub fn any_pressure(readings: &Vec<FsrReading>) -> (b: bool)
    ensures
        b == spec_any_pressure(readings@),
{
    let n = readings.len();
    for k in 0..n
        invariant
            n == readings@.len(),
            forall|i: int| 0 <= i < k ==> !(#[trigger] readings@[i].pressure_detected),
    {
        if readings[k].pressure_detected {
            return true;
        }
    }
    false
}

/// The force-sensing-resistor array: one or more physically distinct
/// converter devices, each scanned over all of its multiplexed inputs and
/// reduced to per-channel pressure states.
pub struct Fsr {
    at_rest_threshold: u16,
    pressure_threshold: u16,
    clock_speed: u32,
    num_fsrs: usize,
    cs_pins: Vec<u8>,
    num_channels: u8,
}

impl Fsr {
    /// The raw value below which applied pressure is considered detected.
    pub closed spec fn spec_at_rest_threshold(&self) -> u16 {
        self.at_rest_threshold
    }

    /// The raw value reserved for a stronger-pressure decision.
    pub closed spec fn spec_pressure_threshold(&self) -> u16 {
        self.pressure_threshold
    }

    /// The bus-select line of each configured device, in scan order.
    pub closed spec fn spec_cs_pins(&self) -> Seq<u8> {
        self.cs_pins@
    }

    /// The number of configured devices.
    pub closed spec fn spec_num_fsrs(&self) -> int {
        self.num_fsrs as int
    }

    /// The number of multiplexed inputs scanned on each device.
    pub closed spec fn spec_num_channels(&self) -> int {
        self.num_channels as int
    }

    /// Well-formedness: the device count matches the select-line list, and
    /// no more inputs are scanned than a converter device offers.
    pub closed spec fn wf(&self) -> bool {
        &&& self.num_fsrs == self.cs_pins@.len()
        &&& self.num_channels <= 8
    }

    /// Replace the set of scanned devices (one select line each) and both
    /// thresholds.
    pub fn configure(&mut self, cs_pins: Vec<u8>, at_rest: u16, pressure: u16)
        requires
            old(self).wf(),
        ensures
            final(self).wf(),
            final(self).spec_cs_pins() == cs_pins@,
            final(self).spec_num_fsrs() == cs_pins@.len(),
            final(self).spec_at_rest_threshold() == at_rest,
            final(self).spec_pressure_threshold() == pressure,
            final(self).spec_num_channels() == old(self).spec_num_channels(),
    {
        self.num_fsrs = cs_pins.len();
        self.cs_pins = cs_pins;
        self.at_rest_threshold = at_rest;
        self.pressure_threshold = pressure;
    }

    /// Scan every configured device over every channel, one read each, in
    /// device order then channel order. Reading `k` of the result comes
    /// from device `k / num_channels`, channel `k % num_channels`, and its
    /// pressure state is the pure threshold rule on its value.
    ///
    /// A single failed transaction aborts the whole scan: no partial list
    /// is returned. A fresh reader is opened per device on every scan.
    pub fn read_all<B: AdcBus>(&mut self) -> (r: Result<Vec<FsrReading>, GpmError>)
        requires
            old(self).wf(),
        ensures
            *final(self) == *old(self),
            r matches Ok(rs) ==> {
                &&& rs@.len() == old(self).spec_num_fsrs() * old(self).spec_num_channels()
                &&& forall|k: int|
                    0 <= k < rs@.len() ==> (#[trigger] rs@[k]).value <= 1023 && rs@[
                        k
                    ].pressure_detected == (rs@[k].value < old(self).spec_at_rest_threshold())
                        && rs@[k].fsr_id == k / old(self).spec_num_channels() && rs@[k].channel
                        == k % old(self).spec_num_channels()
            },
            r matches Err(e) ==> e matches GpmError::TransferFailure { channel } && channel
                < old(self).spec_num_channels(),
            B::reliable() ==> r is Ok,
    {
        let mut readings: Vec<FsrReading> = Vec::new();
        let nf = self.cs_pins.len();
        let nc = self.num_channels;
        for fsr_id in 0..nf
            invariant
                self.cs_pins == old(self).cs_pins,
                self.at_rest_threshold == old(self).at_rest_threshold,
                self.pressure_threshold == old(self).pressure_threshold,
                self.clock_speed == old(self).clock_speed,
                self.num_fsrs == old(self).num_fsrs,
                self.num_channels == old(self).num_channels,
                old(self).wf(),
                nf == self.cs_pins@.len(),
                nc == self.num_channels,
                readings@.len() == fsr_id * nc as int,
                forall|k: int|
                    0 <= k < readings@.len() ==> (#[trigger] readings@[k]).value <= 1023
                        && readings@[k].pressure_detected == (readings@[k].value
                        < self.at_rest_threshold) && readings@[k].fsr_id == k / nc as int
                        && readings@[k].channel == k % nc as int,
        {
            let mut adc: Adc<B> = Adc::init(self.cs_pins[fsr_id], self.clock_speed);
            for channel in 0..nc
                invariant
                    self.cs_pins == old(self).cs_pins,
                    self.at_rest_threshold == old(self).at_rest_threshold,
                    self.pressure_threshold == old(self).pressure_threshold,
                    self.clock_speed == old(self).clock_speed,
                    self.num_fsrs == old(self).num_fsrs,
                    self.num_channels == old(self).num_channels,
                    old(self).wf(),
                    nf == self.cs_pins@.len(),
                    nc == self.num_channels,
                    fsr_id < nf,
                    readings@.len() == fsr_id * nc as int + channel as int,
                    forall|k: int|
                        0 <= k < readings@.len() ==> (#[trigger] readings@[k]).value <= 1023
                            && readings@[k].pressure_detected == (readings@[k].value
                            < self.at_rest_threshold) && readings@[k].fsr_id == k / nc as int
                            && readings@[k].channel == k % nc as int,
            {
                let value = match adc.read_channel(channel) {
                    Ok(v) => v,
                    Err(e) => {
                        return Err(e);
                    },
                };
                let pressure_detected = value < self.at_rest_threshold;
                proof {
                    lemma_fundamental_div_mod_converse_div(
                        readings@.len() as int,
                        nc as int,
                        fsr_id as int,
                        channel as int,
                    );
                    lemma_fundamental_div_mod_converse_mod(
                        readings@.len() as int,
                        nc as int,
                        fsr_id as int,
                        channel as int,
                    );
                }
                readings.push(FsrReading { fsr_id, channel, value, pressure_detected });
            }
            proof {
                assert((fsr_id + 1) * nc as int == fsr_id * nc as int + nc as int)
                    by (nonlinear_arith);
            }
        }
        Ok(readings)
    }

    /// Perform a fresh scan and report whether any reading of it detects
    /// pressure; a failed transaction aborts the scan and propagates.
    ///
    /// With an at-rest threshold of zero no raw value can lie below it, so
    /// a successful result is never a detection; with a threshold above
    /// the full 10-bit scale every reading of a non-empty scan is one.
    pub fn process_data<B: AdcBus>(&mut self) -> (r: Result<bool, GpmError>)
        requires
            old(self).wf(),
        ensures
            *final(self) == *old(self),
            r matches Err(e) ==> e matches GpmError::TransferFailure { channel } && channel
                < old(self).spec_num_channels(),
            B::reliable() ==> r is Ok,
            r matches Ok(b) ==> (old(self).spec_at_rest_threshold() == 0 ==> !b),
            r matches Ok(b) ==> (old(self).spec_at_rest_threshold() > 1023
                && old(self).spec_num_fsrs() > 0 && old(self).spec_num_channels() > 0 ==> b),
    {
        let readings = match self.read_all::<B>() {
            Ok(rs) => rs,
            Err(e) => {
                return Err(e);
            },
        };
        proof {
            if self.spec_at_rest_threshold() > 1023 && self.spec_num_fsrs() > 0
                && self.spec_num_channels() > 0 {
                assert(self.spec_num_fsrs() * self.spec_num_channels() > 0) by (nonlinear_arith)
                    requires
                        self.spec_num_fsrs() > 0,
                        self.spec_num_channels() > 0,
                ;
                assert(readings@[0].pressure_detected);
            }
        }
        Ok(any_pressure(&readings))
    }
}

impl Resource for Fsr {
    /// The array with its default configuration: one device on select
    /// line 7 at 1.35 MHz, eight channels, an at-rest threshold of 900 and
    /// a pressure threshold of 500.
    fn init() -> (r: Self)
        ensures
            r.wf(),
            r.spec_at_rest_threshold() == 900,
            r.spec_pressure_threshold() == 500,
            r.spec_cs_pins() == seq![7u8],
            r.spec_num_fsrs() == 1,
            r.spec_num_channels() == 8,
    {
        let r = Fsr {
            at_rest_threshold: 900,
            pressure_threshold: 500,
            clock_speed: 1350000,
            num_fsrs: 1,
            cs_pins: vec![7],
            num_channels: 8,
        };
        proof {
            assert(r.cs_pins@ =~= seq![7u8]);
        }
        r
    }

    /// The registry name of the array.
    fn name() -> (n: String)
        ensures
            n@ == "Fsr"@,
    {
        String::from_str("Fsr")
    }
}

} // verus!
