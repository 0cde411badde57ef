use rand::Rng;
use vstd::prelude::*;

verus! {

/// The failure of one bus transaction, with no further detail. Callers wrap
/// it into [`crate::errors::GpmError`] together with the operation's context.
#[derive(Clone, Copy, Debug, PartialEq, Eq, Structural)]
pub struct TransferFault;

/// Relies on `rand::thread_rng` and `rand::Rng::gen_range`: a sample drawn
/// from the half-open range `lo..hi`. `gen_range` panics on an empty range,
/// so the range is required to be non-empty.
#[verifier::external_body]
pub(crate) fn sample_in_range(lo: u16, hi: u16) -> (r: u16)
    requires
        lo < hi,
    ensures
        lo <= r < hi,
{
    rand::thread_rng().gen_range(lo..hi)
}

/// One full-duplex transaction path to an analog-to-digital converter.
///
/// A backend is injected when a reader is constructed, so a real bus and a
/// deterministic simulated bus can be substituted for one another at run
/// time. A real backend asserts the per-device select signal before each
/// transaction and releases it afterwards.
pub trait AdcBus: Sized {
    /// Whether every transaction on this backend succeeds. True of the
    /// simulated backend; nothing is claimed of real hardware.
    spec fn reliable() -> bool;

    /// Open the path to the converter enabled by `select_pin`, clocked at
    /// `clock_speed` Hz.
    fn open(select_pin: u8, clock_speed: u32) -> Self;

    /// Perform one three-unit full-duplex transaction: shift `tx` out and
    /// return the three units the device answered with.
    fn transfer(&mut self, tx: [u8; 3]) -> (rx: Result<[u8; 3], TransferFault>)
        ensures
            Self::reliable() ==> rx is Ok,
    ;
}

/// The command path to a multi-channel servo controller.
pub trait ServoLink: Sized {
    /// Whether every command on this link is accepted. True of the
    /// simulated link; nothing is claimed of real hardware.
    spec fn reliable() -> bool;

    /// Connect the link to its controller.
    fn connect() -> Self;

    /// Transmit one target command for `channel`.
    fn send_target(&mut self, channel: u8, pwm_value: u16) -> (r: Result<(), TransferFault>)
        requires
            channel <= 5,
        ensures
            Self::reliable() ==> r is Ok,
    ;
}

/// A converter backend for runs without hardware: every transaction
/// succeeds, answering with the encoding of a pseudo-random mid-scale
/// sample in `[400, 600)`.
pub struct SimulatedBus;

impl AdcBus for SimulatedBus {
    open spec fn reliable() -> bool {
        true
    }

    fn open(_select_pin: u8, _clock_speed: u32) -> Self {
        SimulatedBus
    }

    fn transfer(&mut self, _tx: [u8; 3]) -> (rx: Result<[u8; 3], TransferFault>) {
        let v: u16 = sample_in_range(400, 600);
        let hi: u8 = (v >> 8) as u8;
        let lo: u8 = (v & 0xff) as u8;
        Ok([0u8, hi, lo])
    }
}

/// A servo link for runs without hardware: every command is accepted and
/// dropped; the target state is tracked by the actuator itself.
pub struct SimulatedLink;

impl ServoLink for SimulatedLink {
    open spec fn reliable() -> bool {
        true
    }

    fn connect() -> Self {
        SimulatedLink
    }

    fn send_target(&mut self, _channel: u8, _pwm_value: u16) -> (r: Result<(), TransferFault>) {
        Ok(())
    }
}

} // verus!
