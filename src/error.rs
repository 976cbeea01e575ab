//! Errors reported by the driver.
use vstd::prelude::*;

verus! {

/// A failure detected after the controller was programmed.
#[derive(Clone, Copy, Debug, PartialEq, Eq, Structural)]
pub enum Fault {
    /// The controller raised its transfer-error flag.
    TransferError,
    /// The DMA channel reported a failed transfer.
    DmaError,
    /// A blocking wait saw no completion within its poll bound.
    Timeout,
}

/// Error returned by the driver.
#[derive(Clone, Copy, Debug, PartialEq, Eq, Structural)]
pub enum OspiError {
    /// The driver configuration cannot be expressed by the controller.
    InvalidConfiguration,
    /// The transaction was rejected before any register was touched.
    InvalidCommand,
    /// The transaction failed on the bus after it was started.
    Fault(Fault),
}

} // verus!
