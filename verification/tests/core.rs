use gpm::adc::Adc;
use gpm::bms::Bms;
use gpm::bus::{AdcBus, ServoLink, SimulatedBus, SimulatedLink, TransferFault};
use gpm::emg::{Emg, GestureIntent};
use gpm::errors::GpmError;
use gpm::fsr::{any_pressure, Fsr, FsrReading};
use gpm::maestro::Maestro;
use gpm::manager::ResourceManager;
use gpm::Resource;

/// A converter backend whose transactions always fail.
struct FailingBus;

impl AdcBus for FailingBus {
    fn reliable() -> bool {
        false
    }

    fn open(_select_pin: u8, _clock_speed: u32) -> Self {
        FailingBus
    }

    fn transfer(&mut self, _tx: [u8; 3]) -> Result<[u8; 3], TransferFault> {
        Err(TransferFault)
    }
}

/// A servo link that accepts a single command, then fails.
struct FlakyLink {
    accepts_left: u32,
}

impl ServoLink for FlakyLink {
    fn reliable() -> bool {
        false
    }

    fn connect() -> Self {
        FlakyLink { accepts_left: 1 }
    }

    fn send_target(&mut self, _channel: u8, _pwm_value: u16) -> Result<(), TransferFault> {
        if self.accepts_left > 0 {
            self.accepts_left -= 1;
            Ok(())
        } else {
            Err(TransferFault)
        }
    }
}

/// A converter backend that always answers with the encoding of 899.
struct Bus899;

/// A converter backend that always answers with the encoding of 900.
struct Bus900;

fn encode(value: u16) -> [u8; 3] {
    [0, (value >> 8) as u8, (value & 0xff) as u8]
}

impl AdcBus for Bus899 {
    fn reliable() -> bool {
        true
    }

    fn open(_select_pin: u8, _clock_speed: u32) -> Self {
        Bus899
    }

    fn transfer(&mut self, _tx: [u8; 3]) -> Result<[u8; 3], TransferFault> {
        Ok(encode(899))
    }
}

impl AdcBus for Bus900 {
    fn reliable() -> bool {
        true
    }

    fn open(_select_pin: u8, _clock_speed: u32) -> Self {
        Bus900
    }

    fn transfer(&mut self, _tx: [u8; 3]) -> Result<[u8; 3], TransferFault> {
        Ok(encode(900))
    }
}

fn sim_adc() -> Adc<SimulatedBus> {
    Adc::init(8, 1_350_000)
}

#[test]
fn read_channel_valid_channels_succeed_in_range() {
    let mut adc = sim_adc();
    for channel in 0..=7u8 {
        let v = adc.read_channel(channel).unwrap();
        assert!(v <= 1023, "channel {} out of range: {}", channel, v);
        assert!((400..600).contains(&v), "simulated sample out of range: {}", v);
    }
}

#[test]
fn read_channel_invalid_channel_fails() {
    let mut adc = sim_adc();
    assert_eq!(
        adc.read_channel(8),
        Err(GpmError::InvalidChannel { channel: 8 })
    );
    assert_eq!(
        adc.read_channel(255),
        Err(GpmError::InvalidChannel { channel: 255 })
    );
}

#[test]
fn read_channel_transfer_failure() {
    let mut adc: Adc<FailingBus> = Adc::init(8, 1_350_000);
    assert_eq!(
        adc.read_channel(3),
        Err(GpmError::TransferFailure { channel: 3 })
    );
    // An invalid channel is rejected before the bus is touched.
    assert_eq!(
        adc.read_channel(9),
        Err(GpmError::InvalidChannel { channel: 9 })
    );
}

#[test]
fn read_channel_decodes_the_device_response() {
    let mut adc: Adc<Bus899> = Adc::init(7, 1_350_000);
    assert_eq!(adc.read_channel(0), Ok(899));
}

#[test]
fn read_channels_one_value_per_channel_in_order() {
    let mut adc = sim_adc();
    let values = adc.read_channels(&[0, 1, 2, 7]).unwrap();
    assert_eq!(values.len(), 4);
    for v in values {
        assert!(v <= 1023);
    }
}

#[test]
fn read_channels_invalid_channel_yields_no_partial_output() {
    let mut adc = sim_adc();
    let r = adc.read_channels(&[0, 1, 9, 2]);
    assert_eq!(r, Err(GpmError::InvalidChannel { channel: 9 }));
}

#[test]
fn read_channels_empty_list() {
    let mut adc = sim_adc();
    assert_eq!(adc.read_channels(&[]), Ok(Vec::new()));
}

#[test]
fn classify_scenarios() {
    let mut emg: Emg<SimulatedBus> = Emg::init();
    emg.calibrate(450, 450);
    assert_eq!(emg.process_data(&[460, 440]), Ok(GestureIntent::Open));
    assert_eq!(emg.process_data(&[440, 460]), Ok(GestureIntent::Close));
    // Both boundary conditions hold at once: the tie breaks toward Open.
    assert_eq!(emg.process_data(&[450, 450]), Ok(GestureIntent::Open));
    assert_eq!(emg.process_data(&[445, 445]), Ok(GestureIntent::Hold));
}

#[test]
fn classify_uses_default_thresholds_after_init() {
    // Both thresholds start at 450, so no calibration is needed here.
    let emg: Emg<SimulatedBus> = Emg::init();
    assert_eq!(emg.process_data(&[460, 440]), Ok(GestureIntent::Open));
    assert_eq!(emg.process_data(&[440, 460]), Ok(GestureIntent::Close));
    assert!(emg.get_latest_samples().is_empty());
}

#[test]
fn classify_wrong_input_count_fails() {
    let emg: Emg<SimulatedBus> = Emg::init();
    assert_eq!(
        emg.process_data(&[450]),
        Err(GpmError::InvalidInputCount { count: 1 })
    );
    assert_eq!(
        emg.process_data(&[450, 450, 450]),
        Err(GpmError::InvalidInputCount { count: 3 })
    );
    assert_eq!(
        emg.process_data(&[]),
        Err(GpmError::InvalidInputCount { count: 0 })
    );
}

#[test]
fn read_buffer_fills_one_even_cycle() {
    let mut emg: Emg<SimulatedBus> = Emg::init();
    emg.configure(16);
    assert!(emg.is_ready());
    let samples = emg.read_buffer().unwrap();
    assert_eq!(samples.len(), 16);
    for v in &samples {
        assert!(*v <= 1023);
    }
    assert_eq!(emg.get_latest_samples(), samples);
}

#[test]
fn configure_resets_buffer_to_empty() {
    let mut emg: Emg<SimulatedBus> = Emg::init();
    emg.configure(8);
    emg.read_buffer().unwrap();
    assert_eq!(emg.get_latest_samples().len(), 8);
    emg.configure(4);
    assert!(emg.get_latest_samples().is_empty());
}

#[test]
fn read_buffer_failure_leaves_buffer_unchanged() {
    let mut emg: Emg<FailingBus> = Emg::init();
    emg.configure(6);
    assert_eq!(
        emg.read_buffer(),
        Err(GpmError::TransferFailure { channel: 0 })
    );
    assert!(emg.get_latest_samples().is_empty());
}

#[test]
fn default_scan_reads_every_channel_of_one_device() {
    let mut fsr = Fsr::init();
    let readings = fsr.read_all::<SimulatedBus>().unwrap();
    assert_eq!(readings.len(), 8);
    for (k, reading) in readings.iter().enumerate() {
        assert_eq!(reading.fsr_id, 0);
        assert_eq!(reading.channel, k as u8);
        assert!(reading.value <= 1023);
        assert_eq!(reading.pressure_detected, reading.value < 900);
    }
}

#[test]
fn scan_covers_every_configured_device() {
    let mut fsr = Fsr::init();
    fsr.configure(vec![1, 2], 900, 500);
    let readings = fsr.read_all::<SimulatedBus>().unwrap();
    assert_eq!(readings.len(), 16);
    assert_eq!(readings[7].fsr_id, 0);
    assert_eq!(readings[8].fsr_id, 1);
    assert_eq!(readings[8].channel, 0);
}

#[test]
fn pressure_threshold_is_strict() {
    let mut fsr = Fsr::init();
    // Simulated raw values lie in [400, 600): with the threshold at 400 no
    // value is strictly below it, so nothing is ever detected.
    fsr.configure(vec![0], 400, 500);
    assert_eq!(fsr.process_data::<SimulatedBus>(), Ok(false));
    // With the threshold above full scale every reading detects pressure.
    fsr.configure(vec![0], 1024, 500);
    assert_eq!(fsr.process_data::<SimulatedBus>(), Ok(true));
}

#[test]
fn at_rest_threshold_boundary_is_strict() {
    let mut fsr = Fsr::init();
    fsr.configure(vec![0], 900, 500);
    // One raw unit below the threshold counts as pressure...
    let below = fsr.read_all::<Bus899>().unwrap();
    assert!(below.iter().all(|r| r.value == 899 && r.pressure_detected));
    // ...while the threshold itself does not.
    let at = fsr.read_all::<Bus900>().unwrap();
    assert!(at.iter().all(|r| r.value == 900 && !r.pressure_detected));
    assert_eq!(fsr.process_data::<Bus899>(), Ok(true));
    assert_eq!(fsr.process_data::<Bus900>(), Ok(false));
}

#[test]
fn scan_failure_propagates() {
    let mut fsr = Fsr::init();
    assert_eq!(
        fsr.read_all::<FailingBus>(),
        Err(GpmError::TransferFailure { channel: 0 })
    );
    assert_eq!(
        fsr.process_data::<FailingBus>(),
        Err(GpmError::TransferFailure { channel: 0 })
    );
}

#[test]
fn any_pressure_iff_some_reading_detects() {
    let quiet = |channel: u8| FsrReading {
        fsr_id: 0,
        channel,
        value: 900,
        pressure_detected: false,
    };
    let mut readings: Vec<FsrReading> = (0..8u8).map(quiet).collect();
    assert!(!any_pressure(&readings));
    readings[5] = FsrReading {
        fsr_id: 0,
        channel: 5,
        value: 899,
        pressure_detected: true,
    };
    assert!(any_pressure(&readings));
    assert!(!any_pressure(&Vec::new()));
}

#[test]
fn set_target_stores_and_validates() {
    let mut maestro: Maestro<SimulatedLink> = Maestro::init();
    assert_eq!(
        maestro.set_target(6, 1500),
        Err(GpmError::InvalidChannel { channel: 6 })
    );
    assert_eq!(maestro.set_target(5, 1500), Ok(()));
    assert_eq!(maestro.current_pwm(5), Ok(1500));
    assert_eq!(maestro.set_target(5, 1800), Ok(()));
    assert_eq!(maestro.current_pwm(5), Ok(1800));
    assert_eq!(
        maestro.current_pwm(6),
        Err(GpmError::InvalidChannel { channel: 6 })
    );
}

#[test]
fn grip_presets_apply_three_channels() {
    let mut maestro: Maestro<SimulatedLink> = Maestro::init();
    maestro.move_to_grip("pinch").unwrap();
    assert_eq!(maestro.current_pwm(0), Ok(2000));
    assert_eq!(maestro.current_pwm(1), Ok(1800));
    assert_eq!(maestro.current_pwm(2), Ok(1500));
    // Channels 3 to 5 are never touched by a preset.
    maestro.set_target(3, 1700).unwrap();
    maestro.move_to_grip("pinch").unwrap();
    assert_eq!(maestro.current_pwm(3), Ok(1700));
    maestro.move_to_grip("power").unwrap();
    assert_eq!(maestro.current_pwm(0), Ok(2200));
    assert_eq!(maestro.current_pwm(1), Ok(2200));
    assert_eq!(maestro.current_pwm(2), Ok(2200));
    maestro.move_to_grip("open").unwrap();
    assert_eq!(maestro.current_pwm(0), Ok(1000));
    maestro.move_to_grip("rest").unwrap();
    assert_eq!(maestro.current_pwm(0), Ok(1500));
}

#[test]
fn unknown_grip_changes_nothing() {
    let mut maestro: Maestro<SimulatedLink> = Maestro::init();
    maestro.move_to_grip("pinch").unwrap();
    assert_eq!(maestro.move_to_grip("Pinch"), Err(GpmError::UnknownGrip));
    assert_eq!(maestro.move_to_grip("fist"), Err(GpmError::UnknownGrip));
    assert_eq!(maestro.move_to_grip(""), Err(GpmError::UnknownGrip));
    assert_eq!(maestro.current_pwm(0), Ok(2000));
    assert_eq!(maestro.current_pwm(1), Ok(1800));
    assert_eq!(maestro.current_pwm(2), Ok(1500));
}

#[test]
fn failed_grip_is_left_partially_applied() {
    let mut maestro: Maestro<FlakyLink> = Maestro::init();
    let r = maestro.move_to_grip("power");
    assert_eq!(r, Err(GpmError::TransferFailure { channel: 1 }));
    // Channel 0 was applied before the link failed; no rollback happens.
    assert_eq!(maestro.current_pwm(0), Ok(2200));
    assert_eq!(maestro.current_pwm(1), Ok(1500));
    assert_eq!(maestro.current_pwm(2), Ok(1500));
}

#[test]
fn charge_percentage_scenarios() {
    let mut bms = Bms::init();
    bms.voltage_mv = 10_000;
    assert_eq!(bms.get_status().charge_centipercent, 0);
    bms.voltage_mv = 12_600;
    assert_eq!(bms.get_status().charge_centipercent, 10_000);
    bms.voltage_mv = 9_000;
    assert_eq!(bms.get_status().charge_centipercent, 0);
    bms.voltage_mv = 13_000;
    assert_eq!(bms.get_status().charge_centipercent, 10_000);
    // Half way up the linear range: 11.3 V is exactly 50 %.
    bms.voltage_mv = 11_300;
    assert_eq!(bms.get_status().charge_centipercent, 5_000);
}

#[test]
fn update_resamples_within_nominal_ranges() {
    let mut bms = Bms::init();
    bms.update();
    let status = bms.get_status();
    assert!((11_500..12_500).contains(&status.voltage_mv));
    assert!(status.current_ma < 2_000);
    assert!((20_000..30_000).contains(&status.temperature_mc));
    assert!(status.is_healthy);
}

#[test]
fn init_defaults_are_nominal() {
    let bms = Bms::init();
    let status = bms.get_status();
    assert_eq!(status.voltage_mv, 12_000);
    assert_eq!(status.current_ma, 0);
    assert_eq!(status.temperature_mc, 25_000);
    assert!(status.is_healthy);
    // 12.0 V sits at 2000/2600 of the linear range.
    assert_eq!(status.charge_centipercent, 7_692);
}

#[test]
fn resource_names() {
    assert_eq!(<Bms as Resource>::name(), "Bms");
    assert_eq!(<Fsr as Resource>::name(), "Fsr");
    assert_eq!(<Emg<SimulatedBus> as Resource>::name(), "Emg");
    assert_eq!(<Maestro<SimulatedLink> as Resource>::name(), "Maestro");
}

#[test]
fn manager_is_not_yet_available() {
    let r = ResourceManager::new("maestro");
    assert!(matches!(r, Err(GpmError::NotImplemented)));
}
