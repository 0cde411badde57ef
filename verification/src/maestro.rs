use vstd::prelude::*;

use crate::bus::ServoLink;
use crate::errors::GpmError;
use crate::Resource;

verus! {

/// Relies on `str`'s `PartialEq`: two string slices compare equal exactly
/// when their character sequences are equal.
#[verifier::external_body]
fn str_eq(a: &str, b: &str) -> (r: bool)
    ensures
        r == (a@ == b@),
{
    a == b
}

/// The fixed grip preset table: the targets applied to channels 0, 1 and 2
/// for a recognized preset name, or nothing for an unknown name.
pub open spec fn spec_grip_targets(name: Seq<char>) -> Option<(u16, u16, u16)> {
    if name == "rest"@ {
        Some((1500u16, 1500u16, 1500u16))
    } else if name == "pinch"@ {
        Some((2000u16, 1800u16, 1500u16))
    } else if name == "power"@ {
        Some((2200u16, 2200u16, 2200u16))
    } else if name == "open"@ {
        Some((1000u16, 1000u16, 1000u16))
    } else {
        None
    }
}

/// The six-channel servo actuator: it tracks one target value per channel
/// and transmits each newly set target over an injected link, so named
/// grip postures can be applied as composite three-channel commands.
pub struct Maestro<L: ServoLink> {
    /// The command path to the controller.
    pub link: L,
    pwm_values: Vec<u16>,
}

impl<L: ServoLink> Maestro<L> {
    /// The per-channel target values, one per addressable channel.
    pub closed spec fn targets(&self) -> Seq<u16> {
        self.pwm_values@
    }

    /// Well-formedness: exactly one target per addressable channel.
    pub closed spec fn wf(&self) -> bool {
        self.pwm_values@.len() == 6
    }

    /// Set the target for one channel: the command is transmitted over the
    /// link and, once accepted, recorded as the channel's current target.
    ///
    /// Fails with `InvalidChannel` exactly on channels above 5, and with
    /// `TransferFailure` exactly when the link rejects the command; the
    /// recorded targets are unchanged on any failure.
    pub fn set_target(&mut self, channel: u8, pwm_value: u16) -> (r: Result<(), GpmError>)
        requires
            old(self).wf(),
        ensures
            final(self).wf(),
            channel > 5 <==> r == Err::<(), GpmError>(GpmError::InvalidChannel { channel }),
            r is Ok ==> channel <= 5 && final(self).targets() == old(self).targets().update(
                channel as int,
                pwm_value,
            ),
            r is Err ==> final(self).targets() == old(self).targets(),
            channel <= 5 ==> r is Ok || r == Err::<(), GpmError>(
                GpmError::TransferFailure { channel },
            ),
            channel <= 5 && L::reliable() ==> r is Ok,
    {
        if channel > 5 {
            return Err(GpmError::InvalidChannel { channel });
        }
        match self.link.send_target(channel, pwm_value) {
            Ok(()) => {},
            Err(_) => {
                return Err(GpmError::TransferFailure { channel });
            },
        }
        self.pwm_values.set(channel as usize, pwm_value);
        Ok(())
    }

    /// The current target of one channel, as most recently set.
    ///
    /// Fails with `InvalidChannel` exactly on channels above 5.
    pub fn current_pwm(&self, channel: u8) -> (r: Result<u16, GpmError>)
        requires
            self.wf(),
        ensures
            channel > 5 <==> r == Err::<u16, GpmError>(GpmError::InvalidChannel { channel }),
            channel <= 5 ==> r == Ok::<u16, GpmError>(self.targets()[channel as int]),
    {
        if channel > 5 {
            return Err(GpmError::InvalidChannel { channel });
        }
        Ok(self.pwm_values[channel as usize])
    }

    /// Apply a named grip preset: the preset's three targets are set on
    /// channels 0, 1 and 2 in that order; channels 3 to 5 are never
    /// touched by a preset.
    ///
    /// An unknown name fails with `UnknownGrip` and changes nothing. A
    /// rejected command propagates as `TransferFailure` with no rollback:
    /// each of the first three channels then holds either its old target
    /// or the preset's.
    pub fn move_to_grip(&mut self, grip_type: &str) -> (r: Result<(), GpmError>)
        requires
            old(self).wf(),
        ensures
            final(self).wf(),
            spec_grip_targets(grip_type@) is None <==> r == Err::<(), GpmError>(
                GpmError::UnknownGrip,
            ),
            r == Err::<(), GpmError>(GpmError::UnknownGrip) ==> final(self).targets()
                == old(self).targets(),
            spec_grip_targets(grip_type@) matches Some(t) ==> {
                &&& r is Ok ==> final(self).targets()
                    == old(self).targets().update(0, t.0).update(1, t.1).update(2, t.2)
                &&& final(self).targets()[3] == old(self).targets()[3]
                &&& final(self).targets()[4] == old(self).targets()[4]
                &&& final(self).targets()[5] == old(self).targets()[5]
                &&& final(self).targets()[0] == old(self).targets()[0]
                    || final(self).targets()[0] == t.0
                &&& final(self).targets()[1] == old(self).targets()[1]
                    || final(self).targets()[1] == t.1
                &&& final(self).targets()[2] == old(self).targets()[2]
                    || final(self).targets()[2] == t.2
                &&& r matches Err(e) ==> (e matches GpmError::TransferFailure { channel }
                    && channel <= 2)
            },
            spec_grip_targets(grip_type@) is Some && L::reliable() ==> r is Ok,
    {
        let targets: (u16, u16, u16);
        if str_eq(grip_type, "rest") {
            targets = (1500, 1500, 1500);
        } else if str_eq(grip_type, "pinch") {
            targets = (2000, 1800, 1500);
        } else if str_eq(grip_type, "power") {
            targets = (2200, 2200, 2200);
        } else if str_eq(grip_type, "open") {
            targets = (1000, 1000, 1000);
        } else {
            return Err(GpmError::UnknownGrip);
        }
        match self.set_target(0, targets.0) {
            Ok(()) => {},
            Err(e) => {
                return Err(e);
            },
        }
        match self.set_target(1, targets.1) {
            Ok(()) => {},
            Err(e) => {
                return Err(e);
            },
        }
        match self.set_target(2, targets.2) {
            Ok(()) => {},
            Err(e) => {
                return Err(e);
            },
        }
        Ok(())
    }
}

impl<L: ServoLink> Resource for Maestro<L> {
    /// The actuator with every channel's target at the neutral 1500.
    fn init() -> (r: Self)
        ensures
            r.wf(),
            r.targets() == seq![1500u16, 1500u16, 1500u16, 1500u16, 1500u16, 1500u16],
    {
        let mut pwm_values: Vec<u16> = Vec::new();
        pwm_values.push(1500);
        pwm_values.push(1500);
        pwm_values.push(1500);
        pwm_values.push(1500);
        pwm_values.push(1500);
        pwm_values.push(1500);
        let r = Maestro { link: L::connect(), pwm_values };
        proof {
            assert(r.pwm_values@ =~= seq![
                1500u16,
                1500u16,
                1500u16,
                1500u16,
                1500u16,
                1500u16,
            ]);
        }
        r
    }

    /// The registry name of the actuator.
    fn name() -> (n: String)
        ensures
            n@ == "Maestro"@,
    {
        String::from_str("Maestro")
    }
}

} // verus!
