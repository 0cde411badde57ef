use vstd::prelude::*;

use crate::bus::AdcBus;
use crate::errors::GpmError;

verus! {

/// The three-unit command frame that asks the converter for a single-ended
/// read of `channel`: a start marker, then the single-ended-mode flag
/// joined with the 4-bit channel selector, then one idle unit clocked out
/// while the device answers.
pub open spec fn spec_command_frame(channel: u8) -> Seq<u8> {
    seq![0x01u8, (0x80u8 | (channel << 4)) as u8, 0x00u8]
}

/// The 10-bit value carried by a converter response: the low two bits of
/// the second unit joined with all eight bits of the third.
pub open spec fn spec_decoded_value(hi: u8, lo: u8) -> u16 {
    (((hi & 0x03) as u16) << 8 | (lo as u16)) as u16
}

/// Build the command frame for a single-ended read of `channel`.
pub fn command_frame(channel: u8) -> (tx: [u8; 3])
    requires
        channel <= 7,
    ensures
        tx@ == spec_command_frame(channel),
{
    let config_bits: u8 = 0x80 | (channel << 4);
    let tx: [u8; 3] = [0x01, config_bits, 0x00];
    proof {
        assert(tx@ =~= spec_command_frame(channel));
    }
    tx
}

/// Extract the 10-bit result from the last two units of a converter
/// response.
pub fn decode_response(hi: u8, lo: u8) -> (v: u16)
    ensures
        v == spec_decoded_value(hi, lo),
        v <= 1023,
{
    let v: u16 = ((hi & 0x03) as u16) << 8 | (lo as u16);
    proof {
        assert((((hi & 0x03) as u16) << 8 | (lo as u16)) <= 1023) by (bit_vector);
    }
    v
}

/// One reader addressing a single converter device through an injected bus
/// backend.
pub struct Adc<B: AdcBus> {
    /// The transaction path to the device.
    pub bus: B,
}

impl<B: AdcBus> Adc<B> {
    /// Open a reader for the device enabled by `select_pin`, clocked at
    /// `clock_speed` Hz.
    pub fn init(select_pin: u8, clock_speed: u32) -> Self {
        Adc { bus: B::open(select_pin, clock_speed) }
    }

    /// Read one channel: one bus transaction bracketed by the device's
    /// select signal, yielding a 10-bit value.
    ///
    /// Fails with `InvalidChannel` exactly on channels above 7, and with
    /// `TransferFailure` exactly when the bus transaction fails.
    pub fn read_channel(&mut self, channel: u8) -> (r: Result<u16, GpmError>)
        ensures
            channel > 7 <==> r == Err::<u16, GpmError>(GpmError::InvalidChannel { channel }),
            r matches Ok(v) ==> channel <= 7 && v <= 1023,
            channel <= 7 ==> r is Ok || r == Err::<u16, GpmError>(
                GpmError::TransferFailure { channel },
            ),
            channel <= 7 && B::reliable() ==> r is Ok,
    {
        if channel > 7 {
            return Err(GpmError::InvalidChannel { channel });
        }
        let tx = command_frame(channel);
        match self.bus.transfer(tx) {
            Ok(rx) => Ok(decode_response(rx[1], rx[2])),
            Err(_) => Err(GpmError::TransferFailure { channel }),
        }
    }

    /// Read several channels sequentially, one value per requested channel
    /// in request order; the first failure aborts the batch and no partial
    /// output is returned.
    pub fn read_channels(&mut self, channels: &[u8]) -> (r: Result<Vec<u16>, GpmError>)
        ensures
            r matches Ok(vs) ==> {
                &&& vs@.len() == channels@.len()
                &&& forall|i: int| 0 <= i < vs@.len() ==> #[trigger] vs@[i] <= 1023
                &&& forall|i: int| 0 <= i < channels@.len() ==> #[trigger] channels@[i] <= 7
            },
            (exists|i: int| 0 <= i < channels@.len() && #[trigger] channels@[i] > 7) ==> r is Err,
            r matches Err(e) ==> (e matches GpmError::InvalidChannel { channel } ==> channel > 7
                && exists|i: int| 0 <= i < channels@.len() && #[trigger] channels@[i]
                == channel),
            r matches Err(e) ==> (e matches GpmError::TransferFailure { channel } ==> channel <= 7
                && exists|i: int| 0 <= i < channels@.len() && #[trigger] channels@[i]
                == channel),
            r matches Err(e) ==> e is InvalidChannel || e is TransferFailure,
            B::reliable() && (forall|i: int| 0 <= i < channels@.len()
                ==> #[trigger] channels@[i] <= 7) ==> r is Ok,
    {
        let mut values: Vec<u16> = Vec::new();
        let n = channels.len();
        for k in 0..n
            invariant
                n == channels@.len(),
                values@.len() == k,
                forall|i: int| 0 <= i < k ==> #[trigger] values@[i] <= 1023,
                forall|i: int| 0 <= i < k ==> #[trigger] channels@[i] <= 7,
        {
            match self.read_channel(channels[k]) {
                Ok(v) => values.push(v),
                Err(e) => {
                    return Err(e);
                },
            }
        }
        Ok(values)
    }
}

} // verus!
