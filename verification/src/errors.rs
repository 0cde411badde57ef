use vstd::prelude::*;

verus! {

/// The failures the core can report.
///
/// Every failure carries enough context (the operation's parameter) for the
/// immediate caller to diagnose it; nothing is retried or swallowed.
#[derive(Clone, Copy, Debug, PartialEq, Eq, Structural)]
pub enum GpmError {
    /// A channel index outside the valid range of the addressed device.
    InvalidChannel { channel: u8 },
    /// The underlying bus transaction failed while serving the given channel.
    TransferFailure { channel: u8 },
    /// The gesture classifier was handed other than exactly two values.
    InvalidInputCount { count: usize },
    /// A grip preset name that the fixed preset table does not contain.
    UnknownGrip,
    /// The task-dispatch layer is not yet available.
    NotImplemented,
}

} // verus!
