use vstd::prelude::*;

use crate::bus::sample_in_range;
use crate::Resource;

verus! {

/// The battery monitor's own electrical and thermal state, in
/// milli-units so the estimation arithmetic stays exact: millivolts,
/// milliamperes and millidegrees Celsius.
pub struct Bms {
    /// Terminal voltage in millivolts.
    pub voltage_mv: u32,
    /// Load current in milliamperes.
    pub current_ma: u32,
    /// Pack temperature in millidegrees Celsius.
    pub temperature_mc: u32,
    /// Whether the pack is healthy: above 10 V and below 50 °C.
    pub is_healthy: bool,
}

/// One snapshot of battery state, recomputed wholesale on request.
#[derive(Clone, Copy, Debug, PartialEq, Eq, Structural)]
pub struct BmsStatus {
    /// Terminal voltage in millivolts.
    pub voltage_mv: u32,
    /// Load current in milliamperes.
    pub current_ma: u32,
    /// Pack temperature in millidegrees Celsius.
    pub temperature_mc: u32,
    /// Whether the pack is healthy: above 10 V and below 50 °C.
    pub is_healthy: bool,
    /// State of charge in hundredths of a percent, clamped to [0, 10000].
    pub charge_centipercent: u16,
}

/// The state-of-charge estimate for a terminal voltage: a linear map from
/// 10.0 V (zero) to 12.6 V (full), in hundredths of a percent truncated
/// toward zero, clamped to [0, 10000].
pub open spec fn spec_charge_centipercent(voltage_mv: u32) -> int {
    if voltage_mv <= 10000 {
        0
    } else if voltage_mv >= 12600 {
        10000
    } else {
        (voltage_mv - 10000) * 10000 / 2600
    }
}

/// The charge estimate always lies in [0, 10000]: the linear map is
/// clamped below its zero point and above its full point.
pub proof fn lemma_charge_clamped(voltage_mv: u32)
    ensures
        0 <= spec_charge_centipercent(voltage_mv) <= 10000,
{
    if 10000 < voltage_mv < 12600 {
        assert((voltage_mv - 10000) * 10000 / 2600 <= 10000) by (nonlinear_arith)
            requires
                10000 < voltage_mv < 12600,
        ;
    }
}

impl Bms {
    /// The clamped linear charge estimate for the current voltage.
    fn calculate_charge_percentage(&self) -> (c: u16)
        ensures
            c == spec_charge_centipercent(self.voltage_mv),
    {
        if self.voltage_mv <= 10000 {
            0
        } else if self.voltage_mv >= 12600 {
            10000
        } else {
            let c32: u32 = (self.voltage_mv - 10000) * 10000 / 2600;
            proof {
                lemma_charge_clamped(self.voltage_mv);
            }
            c32 as u16
        }
    }

    /// The current snapshot, with the charge estimate recomputed from the
    /// stored voltage.
    pub fn get_status(&self) -> (s: BmsStatus)
        ensures
            s.voltage_mv == self.voltage_mv,
            s.current_ma == self.current_ma,
            s.temperature_mc == self.temperature_mc,
            s.is_healthy == self.is_healthy,
            s.charge_centipercent == spec_charge_centipercent(self.voltage_mv),
    {
        BmsStatus {
            voltage_mv: self.voltage_mv,
            current_ma: self.current_ma,
            temperature_mc: self.temperature_mc,
            is_healthy: self.is_healthy,
            charge_centipercent: self.calculate_charge_percentage(),
        }
    }

    /// Resample voltage, current and temperature from the power subsystem
    /// and recompute the health flag from the new samples.
    ///
    /// The sampled ranges are those of a pack under light load: whatever
    /// is drawn, the health flag equals the voltage-and-temperature rule,
    /// and under these ranges it is always set.
    pub fn update(&mut self)
        ensures
            11500 <= final(self).voltage_mv < 12500,
            final(self).current_ma < 2000,
            20000 <= final(self).temperature_mc < 30000,
            final(self).is_healthy == (final(self).voltage_mv > 10000
                && final(self).temperature_mc < 50000),
            final(self).is_healthy,
    {
        self.voltage_mv = sample_in_range(11500, 12500) as u32;
        self.current_ma = sample_in_range(0, 2000) as u32;
        self.temperature_mc = sample_in_range(20000, 30000) as u32;
        self.is_healthy = self.voltage_mv > 10000 && self.temperature_mc < 50000;
    }
}

impl Resource for Bms {
    /// The monitor primed with a nominal healthy pack: 12 V, no load,
    /// 25 °C.
    fn init() -> (r: Self)
        ensures
            r.voltage_mv == 12000,
            r.current_ma == 0,
            r.temperature_mc == 25000,
            r.is_healthy,
    {
        Bms { voltage_mv: 12000, current_ma: 0, temperature_mc: 25000, is_healthy: true }
    }

    /// The registry name of the monitor.
    fn name() -> (n: String)
        ensures
            n@ == "Bms"@,
    {
        String::from_str("Bms")
    }
}

} // verus!
