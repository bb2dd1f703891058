//! Ownership of one interface of the opened device: how it is acquired
//! from the kernel driver and how it is handed back.

use vstd::prelude::*;
use crate::outcome::{AcquisitionFailure, AcquisitionStep, RestoreOutcome, UsbError};

verus! {

/// Position, in the active configuration's list of interfaces, of the
/// interface that carries the sidetone control.
pub const TARGET_INTERFACE_INDEX: usize = 0;

/// Pause after the interface is claimed and after it is released, in
/// milliseconds.
pub const SETTLE_MILLIS: u64 = 1;

/// One interface of the opened device, and what was done to get hold of it.
#[derive(Clone, Copy, Debug, PartialEq, Eq, Structural)]
pub struct InterfaceSession {
    pub interface_number: u8,
    /// A kernel driver was bound to the interface and has been detached.
    pub kernel_driver_was_attached: bool,
    /// The interface is claimed.
    pub claimed: bool,
}

impl InterfaceSession {
    /// A session on an interface that is not claimed yet.
    pub fn new(interface_number: u8, kernel_driver_was_attached: bool) -> (session: Self)
        ensures
            session == (InterfaceSession {
                interface_number,
                kernel_driver_was_attached,
                claimed: false,
            }),
    {
        InterfaceSession { interface_number, kernel_driver_was_attached, claimed: false }
    }

    /// The session with its claim set to `claimed`.
    pub open spec fn with_claim_spec(self, claimed: bool) -> Self {
        InterfaceSession { claimed, ..self }
    }

    /// The session after the interface was claimed (`true`) or released
    /// (`false`).
    pub fn with_claim(self, claimed: bool) -> (session: Self)
        ensures
            session == self.with_claim_spec(claimed),
    {
        InterfaceSession {
            interface_number: self.interface_number,
            kernel_driver_was_attached: self.kernel_driver_was_attached,
            claimed,
        }
    }
}

/// An acquisition that stopped at `step` with `error`.
pub open spec fn failure(step: AcquisitionStep, error: UsbError) -> AcquisitionFailure {
    AcquisitionFailure { step, error }
}

/// The session that the acquisition ends with, given how each of its steps
/// would answer: automatic detaching is switched off, the interface number
/// is read, the kernel driver is detached if one is bound, and the
/// interface is claimed. The first step that fails ends it; a step after
/// that is not taken, and the detach is not taken where no driver is bound.
pub open spec fn acquire_spec(
    auto_detach: Result<(), UsbError>,
    interface: Result<u8, UsbError>,
    kernel_driver: Result<bool, UsbError>,
    detach: Result<(), UsbError>,
    claim: Result<(), UsbError>,
) -> Result<InterfaceSession, AcquisitionFailure> {
    match (auto_detach, interface, kernel_driver) {
        (Err(e), _, _) => Err(failure(AcquisitionStep::DisableAutoDetach, e)),
        (Ok(_), Err(e), _) => Err(failure(AcquisitionStep::ReadConfiguration, e)),
        (Ok(_), Ok(_), Err(e)) => Err(failure(AcquisitionStep::QueryKernelDriver, e)),
        (Ok(_), Ok(number), Ok(active)) => match (active, detach, claim) {
            (true, Err(e), _) => Err(failure(AcquisitionStep::DetachKernelDriver, e)),
            (_, _, Err(e)) => Err(failure(AcquisitionStep::ClaimInterface, e)),
            (_, _, Ok(_)) => Ok(
                InterfaceSession {
                    interface_number: number,
                    kernel_driver_was_attached: active,
                    claimed: true,
                },
            ),
        },
    }
}

/// How the interface is handed back once it is released: with no kernel
/// driver detached there is nothing to restore; else the driver is attached
/// again, and if that fails the device is reset.
pub open spec fn restore_outcome_spec(
    kernel_driver_was_attached: bool,
    reattach: Result<(), UsbError>,
    reset: Result<(), UsbError>,
) -> RestoreOutcome {
    if !kernel_driver_was_attached || reattach is Ok {
        RestoreOutcome::RestoredClean
    } else {
        match reset {
            Ok(_) => RestoreOutcome::RestoredViaReset,
            Err(e) => RestoreOutcome::RestoredFailed(e),
        }
    }
}

} // verus!
