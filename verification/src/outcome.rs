//! What an operation can end with, and how the result of the transfer and
//! the result of the restoration combine into it.

use vstd::prelude::*;

verus! {

/// An error reported by the USB subsystem.
#[derive(Clone, Copy, Debug, PartialEq, Eq, Structural)]
pub enum UsbError {
    Io,
    InvalidParam,
    Access,
    NoDevice,
    NotFound,
    Busy,
    Timeout,
    Overflow,
    Pipe,
    Interrupted,
    NoMem,
    NotSupported,
    BadDescriptor,
    Other,
}

/// The steps of acquiring the interface, in the order in which they run.
#[derive(Clone, Copy, Debug, PartialEq, Eq, Structural)]
pub enum AcquisitionStep {
    DisableAutoDetach,
    ReadConfiguration,
    QueryKernelDriver,
    DetachKernelDriver,
    ClaimInterface,
}

/// The step at which the acquisition stopped, and the error it stopped with.
#[derive(Clone, Copy, Debug, PartialEq, Eq, Structural)]
pub struct AcquisitionFailure {
    pub step: AcquisitionStep,
    pub error: UsbError,
}

/// How the interface was handed back after the transfer.
#[derive(Clone, Copy, Debug, PartialEq, Eq, Structural)]
pub enum RestoreOutcome {
    /// The kernel driver is bound again, or never was.
    RestoredClean,
    /// The kernel driver could not be attached again and the device was
    /// reset. The reset power-cycles the device; it does not promise that
    /// the driver is bound again.
    RestoredViaReset,
    /// The kernel driver could not be attached again and the reset failed
    /// with the given error.
    RestoredFailed(UsbError),
}

/// A completed operation: the setting was written.
#[derive(Clone, Copy, Debug, PartialEq, Eq, Structural)]
pub enum OperationOutcome {
    /// The setting was written and the interface restored cleanly.
    Success,
    /// The setting was written, but the interface was restored through a
    /// device reset: a success with a warning.
    RestoreDegraded,
}

/// An operation that did not complete.
#[derive(Clone, Copy, Debug, PartialEq, Eq, Structural)]
pub enum OperationError {
    /// No device with the wanted identity could be opened.
    DeviceNotFound,
    /// The interface could not be acquired; no transfer was attempted.
    InterfaceAcquisitionFailed(AcquisitionFailure),
    /// The transfer failed. The interface was handed back as `restore` says,
    /// which is never `RestoredFailed`.
    TransferFailed { cause: UsbError, restore: RestoreOutcome },
    /// Neither attaching the kernel driver nor the reset succeeded. `cause`
    /// is the error of the reset, `transfer` the error of the transfer if it
    /// failed too.
    RestoreFailed { cause: UsbError, transfer: Option<UsbError> },
}

impl OperationOutcome {
    /// How the interface was handed back.
    pub open spec fn terminal_state_spec(self) -> RestoreOutcome {
        match self {
            OperationOutcome::Success => RestoreOutcome::RestoredClean,
            OperationOutcome::RestoreDegraded => RestoreOutcome::RestoredViaReset,
        }
    }

    /// How the interface was handed back: cleanly, or through a reset.
    pub fn terminal_state(&self) -> (restore: RestoreOutcome)
        ensures
            restore == self.terminal_state_spec(),
    {
        match self {
            OperationOutcome::Success => RestoreOutcome::RestoredClean,
            OperationOutcome::RestoreDegraded => RestoreOutcome::RestoredViaReset,
        }
    }

    /// Whether the success comes with a warning.
    pub fn is_qualified(&self) -> (qualified: bool)
        ensures
            qualified == (*self == OperationOutcome::RestoreDegraded),
    {
        match self {
            OperationOutcome::Success => false,
            OperationOutcome::RestoreDegraded => true,
        }
    }
}

/// The error of a failed step, if it failed.
pub open spec fn error_of(outcome: Result<(), UsbError>) -> Option<UsbError> {
    match outcome {
        Ok(_) => None,
        Err(e) => Some(e),
    }
}

/// The result of an operation whose interface was acquired: a failed
/// restoration overrides everything, then a failed transfer is reported
/// together with the way the interface was restored, and a written setting
/// is a success, qualified if the device had to be reset.
pub open spec fn final_outcome_spec(
    transfer: Result<(), UsbError>,
    restore: RestoreOutcome,
) -> Result<OperationOutcome, OperationError> {
    match restore {
        RestoreOutcome::RestoredFailed(cause) => Err(
            OperationError::RestoreFailed { cause, transfer: error_of(transfer) },
        ),
        _ => match transfer {
            Err(cause) => Err(OperationError::TransferFailed { cause, restore }),
            Ok(_) => match restore {
                RestoreOutcome::RestoredViaReset => Ok(OperationOutcome::RestoreDegraded),
                _ => Ok(OperationOutcome::Success),
            },
        },
    }
}

/// Combines the result of the transfer with the result of the restoration.
pub fn final_outcome(transfer: Result<(), UsbError>, restore: RestoreOutcome) -> (result: Result<
    OperationOutcome,
    OperationError,
>)
    ensures
        result == final_outcome_spec(transfer, restore),
        result is Ok <==> transfer is Ok && !(restore is RestoredFailed),
        result matches Ok(outcome) ==> outcome.terminal_state_spec() == restore,
        (restore is RestoredFailed) <==> (result matches Err(e) && e is RestoreFailed),
        transfer matches Err(cause) ==> (!(restore is RestoredFailed) ==> result == Err::<
            OperationOutcome,
            OperationError,
        >(OperationError::TransferFailed { cause, restore })),
{
    match restore {
        RestoreOutcome::RestoredFailed(cause) => {
            let transfer_error = match transfer {
                Ok(_) => None,
                Err(e) => Some(e),
            };
            Err(OperationError::RestoreFailed { cause, transfer: transfer_error })
        },
        RestoreOutcome::RestoredViaReset => match transfer {
            Err(cause) => Err(OperationError::TransferFailed { cause, restore }),
            Ok(_) => Ok(OperationOutcome::RestoreDegraded),
        },
        RestoreOutcome::RestoredClean => match transfer {
            Err(cause) => Err(OperationError::TransferFailed { cause, restore }),
            Ok(_) => Ok(OperationOutcome::Success),
        },
    }
}

} // verus!
