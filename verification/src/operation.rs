//! The operation as a machine. It names one USB action at a time; whoever
//! drives it performs the action and hands back the reply.
//!
//! The order is fixed. The devices are listed and examined in enumeration
//! order until one shows the wanted identity and opens. On that device
//! automatic detaching is switched off, the target interface is looked up,
//! a bound kernel driver is detached, and the interface is claimed. After a
//! pause the setting is written. Whatever the transfer answered, the
//! interface is released and, after a pause, a detached kernel driver is
//! attached again; if that fails the device is reset. A device that was
//! opened is closed before the result is given out.

use vstd::prelude::*;
use crate::codec::{encode, encode_spec, ControlRequest};
use crate::locator::DeviceIdentity;
use crate::outcome::{
    final_outcome, final_outcome_spec, AcquisitionFailure, AcquisitionStep, OperationError,
    OperationOutcome, RestoreOutcome, UsbError,
};
use crate::session::{failure, InterfaceSession, SETTLE_MILLIS, TARGET_INTERFACE_INDEX};

verus! {

/// Something to do on the USB subsystem, or a pause.
#[derive(Clone, Copy, Debug, PartialEq, Eq)]
pub enum Action {
    /// List the attached devices. Answered by `Reply::Devices`.
    ListDevices,
    /// Read the descriptor of a listed device. Answered by
    /// `Reply::Descriptor`.
    ReadDescriptor { device: usize },
    /// Open a listed device. The actions that follow, up to `CloseDevice`,
    /// go to the device that was opened last.
    OpenDevice { device: usize },
    /// Switch off the subsystem's automatic detaching of kernel drivers.
    DisableAutoDetach,
    /// Read the number of the interface at the given position of the active
    /// configuration. Answered by `Reply::Interface`.
    ReadInterface { index: usize },
    /// Ask whether a kernel driver is bound to the interface. Answered by
    /// `Reply::KernelDriver`.
    QueryKernelDriver { interface: u8 },
    DetachKernelDriver { interface: u8 },
    ClaimInterface { interface: u8 },
    /// Wait for the given number of milliseconds.
    Settle { millis: u64 },
    /// Write the control request to the device.
    Transfer { request: ControlRequest },
    ReleaseInterface { interface: u8 },
    AttachKernelDriver { interface: u8 },
    ResetDevice,
    /// Close the opened device; nothing is asked of it afterwards.
    CloseDevice,
}

/// The answer to an action.
#[derive(Clone, Copy, Debug, PartialEq, Eq, Structural)]
pub enum Reply {
    /// The action succeeded and has nothing to tell.
    Done,
    /// The number of attached devices.
    Devices { count: usize },
    /// The identity that a device descriptor shows.
    Descriptor { identity: DeviceIdentity },
    /// The number of an interface.
    Interface { number: u8 },
    /// Whether a kernel driver is bound.
    KernelDriver { active: bool },
    /// The action failed.
    Failed { error: UsbError },
}

/// What the machine asks for next.
#[derive(Clone, Copy, Debug, PartialEq, Eq)]
pub enum Step {
    /// Perform the action and hand its reply to `advance`.
    Perform(Action),
    /// The operation is over.
    Finish(Result<OperationOutcome, OperationError>),
}

/// Where the operation stands. Each phase but the last waits for the reply
/// to one action.
#[derive(Clone, Copy, Debug, PartialEq, Eq)]
pub enum Phase {
    Listing,
    Probing { device: usize, count: usize },
    Opening { device: usize, count: usize },
    DisablingAutoDetach,
    ReadingInterface,
    QueryingKernelDriver { interface: u8 },
    Detaching { interface: u8 },
    Claiming { session: InterfaceSession },
    /// The claim failed after the kernel driver was detached; the driver is
    /// being attached again before the failure is reported.
    ReattachingAfterFailure { session: InterfaceSession, cause: UsbError },
    SettlingAfterClaim { session: InterfaceSession },
    Transferring { session: InterfaceSession },
    Releasing { session: InterfaceSession, transfer: Result<(), UsbError> },
    SettlingAfterRelease { session: InterfaceSession, transfer: Result<(), UsbError> },
    Reattaching { session: InterfaceSession, transfer: Result<(), UsbError> },
    Resetting { session: InterfaceSession, transfer: Result<(), UsbError> },
    /// The work on the opened device is over; the device is being closed
    /// before the result is given out.
    Closing { result: Result<OperationOutcome, OperationError> },
    Finished { result: Result<OperationOutcome, OperationError> },
}

/// What a reply says of an action that succeeds or fails and tells nothing
/// else. A reply of another kind does not answer such an action and counts
/// as a failure.
pub open spec fn completion_spec(reply: Reply) -> Result<(), UsbError> {
    match reply {
        Reply::Done => Ok(()),
        Reply::Failed { error } => Err(error),
        _ => Err(UsbError::Other),
    }
}

/// Reads a reply as success or failure.
pub fn completion(reply: Reply) -> (outcome: Result<(), UsbError>)
    ensures
        outcome == completion_spec(reply),
{
    match reply {
        Reply::Done => Ok(()),
        Reply::Failed { error } => Err(error),
        _ => Err(UsbError::Other),
    }
}

/// The error that a reply stands for where it does not bring what was asked.
pub open spec fn error_in(reply: Reply) -> UsbError {
    match reply {
        Reply::Failed { error } => error,
        _ => UsbError::Other,
    }
}

/// The phase that examines the device after `device`, or the end of the
/// operation where there is none.
pub open spec fn next_probe_spec(device: usize, count: usize) -> Phase {
    if device + 1 < count {
        Phase::Probing { device: (device + 1) as usize, count }
    } else {
        Phase::Finished { result: Err(OperationError::DeviceNotFound) }
    }
}

/// The phase that closes the device after a failed acquisition.
pub open spec fn acquisition_failed(step: AcquisitionStep, error: UsbError) -> Phase {
    Phase::Closing { result: Err(OperationError::InterfaceAcquisitionFailed(failure(step, error))) }
}

/// The phase that closes the device once the interface is handed back.
pub open spec fn restored(transfer: Result<(), UsbError>, restore: RestoreOutcome) -> Phase {
    Phase::Closing { result: final_outcome_spec(transfer, restore) }
}

/// One run of the operation: find the device, acquire its interface, write
/// the setting, hand the interface back.
#[derive(Clone, Copy, Debug, PartialEq, Eq)]
pub struct Operation {
    pub identity: DeviceIdentity,
    pub setting: u16,
    pub phase: Phase,
}

impl Operation {
    /// The operation before anything was done.
    pub open spec fn start(identity: DeviceIdentity, setting: u16) -> Operation {
        Operation { identity, setting, phase: Phase::Listing }
    }

    /// The operation in another phase.
    pub open spec fn at(self, phase: Phase) -> Operation {
        Operation { phase, ..self }
    }

    /// What the operation asks for in its phase.
    pub open spec fn pending_spec(self) -> Step {
        match self.phase {
            Phase::Listing => Step::Perform(Action::ListDevices),
            Phase::Probing { device, .. } => Step::Perform(Action::ReadDescriptor { device }),
            Phase::Opening { device, .. } => Step::Perform(Action::OpenDevice { device }),
            Phase::DisablingAutoDetach => Step::Perform(Action::DisableAutoDetach),
            Phase::ReadingInterface => Step::Perform(
                Action::ReadInterface { index: TARGET_INTERFACE_INDEX },
            ),
            Phase::QueryingKernelDriver { interface } => Step::Perform(
                Action::QueryKernelDriver { interface },
            ),
            Phase::Detaching { interface } => Step::Perform(
                Action::DetachKernelDriver { interface },
            ),
            Phase::Claiming { session } => Step::Perform(
                Action::ClaimInterface { interface: session.interface_number },
            ),
            Phase::ReattachingAfterFailure { session, .. } => Step::Perform(
                Action::AttachKernelDriver { interface: session.interface_number },
            ),
            Phase::SettlingAfterClaim { .. } => Step::Perform(
                Action::Settle { millis: SETTLE_MILLIS },
            ),
            Phase::Transferring { .. } => Step::Perform(
                Action::Transfer { request: encode_spec(self.setting) },
            ),
            Phase::Releasing { session, .. } => Step::Perform(
                Action::ReleaseInterface { interface: session.interface_number },
            ),
            Phase::SettlingAfterRelease { .. } => Step::Perform(
                Action::Settle { millis: SETTLE_MILLIS },
            ),
            Phase::Reattaching { session, .. } => Step::Perform(
                Action::AttachKernelDriver { interface: session.interface_number },
            ),
            Phase::Resetting { .. } => Step::Perform(Action::ResetDevice),
            Phase::Closing { .. } => Step::Perform(Action::CloseDevice),
            Phase::Finished { result } => Step::Finish(result),
        }
    }

    /// The phase that follows when the pending action is answered by
    /// `reply`.
    pub open spec fn next_phase(self, reply: Reply) -> Phase {
        match self.phase {
            Phase::Listing => match reply {
                Reply::Devices { count } if count > 0 => Phase::Probing { device: 0, count },
                _ => Phase::Finished { result: Err(OperationError::DeviceNotFound) },
            },
            Phase::Probing { device, count } => match reply {
                Reply::Descriptor { identity } if identity == self.identity => Phase::Opening {
                    device,
                    count,
                },
                _ => next_probe_spec(device, count),
            },
            Phase::Opening { device, count } => match reply {
                Reply::Done => Phase::DisablingAutoDetach,
                _ => next_probe_spec(device, count),
            },
            Phase::DisablingAutoDetach => match completion_spec(reply) {
                Ok(_) => Phase::ReadingInterface,
                Err(e) => acquisition_failed(AcquisitionStep::DisableAutoDetach, e),
            },
            Phase::ReadingInterface => match reply {
                Reply::Interface { number } => Phase::QueryingKernelDriver { interface: number },
                _ => acquisition_failed(AcquisitionStep::ReadConfiguration, error_in(reply)),
            },
            Phase::QueryingKernelDriver { interface } => match reply {
                Reply::KernelDriver { active } => if active {
                    Phase::Detaching { interface }
                } else {
                    Phase::Claiming {
                        session: InterfaceSession {
                            interface_number: interface,
                            kernel_driver_was_attached: false,
                            claimed: false,
                        },
                    }
                },
                _ => acquisition_failed(AcquisitionStep::QueryKernelDriver, error_in(reply)),
            },
            Phase::Detaching { interface } => match completion_spec(reply) {
                Ok(_) => Phase::Claiming {
                    session: InterfaceSession {
                        interface_number: interface,
                        kernel_driver_was_attached: true,
                        claimed: false,
                    },
                },
                Err(e) => acquisition_failed(AcquisitionStep::DetachKernelDriver, e),
            },
            Phase::Claiming { session } => match completion_spec(reply) {
                Ok(_) => Phase::SettlingAfterClaim { session: session.with_claim_spec(true) },
                Err(e) => if session.kernel_driver_was_attached {
                    Phase::ReattachingAfterFailure { session, cause: e }
                } else {
                    acquisition_failed(AcquisitionStep::ClaimInterface, e)
                },
            },
            Phase::ReattachingAfterFailure { cause, .. } => acquisition_failed(
                AcquisitionStep::ClaimInterface,
                cause,
            ),
            Phase::SettlingAfterClaim { session } => Phase::Transferring { session },
            Phase::Transferring { session } => Phase::Releasing {
                session,
                transfer: completion_spec(reply),
            },
            Phase::Releasing { session, transfer } => Phase::SettlingAfterRelease {
                session: session.with_claim_spec(false),
                transfer,
            },
            Phase::SettlingAfterRelease { session, transfer } => if session.kernel_driver_was_attached {
                Phase::Reattaching { session, transfer }
            } else {
                restored(transfer, RestoreOutcome::RestoredClean)
            },
            Phase::Reattaching { session, transfer } => match completion_spec(reply) {
                Ok(_) => restored(transfer, RestoreOutcome::RestoredClean),
                Err(_) => Phase::Resetting { session, transfer },
            },
            Phase::Resetting { transfer, .. } => match completion_spec(reply) {
                Ok(_) => restored(transfer, RestoreOutcome::RestoredViaReset),
                Err(e) => restored(transfer, RestoreOutcome::RestoredFailed(e)),
            },
            Phase::Closing { result } => Phase::Finished { result },
            Phase::Finished { result } => Phase::Finished { result },
        }
    }

    /// The operation after `reply`.
    pub open spec fn after(self, reply: Reply) -> Operation {
        self.at(self.next_phase(reply))
    }

    /// A bound on the number of actions that the operation still asks for.
    pub open spec fn steps_left(self) -> nat {
        match self.phase {
            Phase::Listing => 2 * (usize::MAX as nat) + 14,
            Phase::Probing { device, count } => if device < count {
                (2 * (count - device) + 13) as nat
            } else {
                14
            },
            Phase::Opening { device, count } => if device < count {
                (2 * (count - device) + 12) as nat
            } else {
                13
            },
            Phase::DisablingAutoDetach => 12,
            Phase::ReadingInterface => 11,
            Phase::QueryingKernelDriver { .. } => 10,
            Phase::Detaching { .. } => 9,
            Phase::Claiming { .. } => 8,
            Phase::SettlingAfterClaim { .. } => 7,
            Phase::Transferring { .. } => 6,
            Phase::Releasing { .. } => 5,
            Phase::SettlingAfterRelease { .. } => 4,
            Phase::Reattaching { .. } => 3,
            Phase::Resetting { .. } => 2,
            Phase::ReattachingAfterFailure { .. } => 2,
            Phase::Closing { .. } => 1,
            Phase::Finished { .. } => 0,
        }
    }

    /// An operation that is to write `setting` to the device of the given
    /// identity; nothing is done yet.
    pub fn new(identity: DeviceIdentity, setting: u16) -> (op: Operation)
        ensures
            op == Operation::start(identity, setting),
    {
        Operation { identity, setting, phase: Phase::Listing }
    }

    /// The action to perform next, or the result once the operation is over.
    pub fn pending(&self) -> (step: Step)
        ensures
            step == self.pending_spec(),
            step is Finish <==> self.phase is Finished,
            step matches Step::Perform(Action::Settle { millis }) ==> millis < 10,
            step matches Step::Perform(Action::Transfer { request }) ==> request == encode_spec(
                self.setting,
            ),
    {
        match self.phase {
            Phase::Listing => Step::Perform(Action::ListDevices),
            Phase::Probing { device, .. } => Step::Perform(Action::ReadDescriptor { device }),
            Phase::Opening { device, .. } => Step::Perform(Action::OpenDevice { device }),
            Phase::DisablingAutoDetach => Step::Perform(Action::DisableAutoDetach),
            Phase::ReadingInterface => Step::Perform(
                Action::ReadInterface { index: TARGET_INTERFACE_INDEX },
            ),
            Phase::QueryingKernelDriver { interface } => Step::Perform(
                Action::QueryKernelDriver { interface },
            ),
            Phase::Detaching { interface } => Step::Perform(
                Action::DetachKernelDriver { interface },
            ),
            Phase::Claiming { session } => Step::Perform(
                Action::ClaimInterface { interface: session.interface_number },
            ),
            Phase::ReattachingAfterFailure { session, .. } => Step::Perform(
                Action::AttachKernelDriver { interface: session.interface_number },
            ),
            Phase::SettlingAfterClaim { .. } => Step::Perform(
                Action::Settle { millis: SETTLE_MILLIS },
            ),
            Phase::Transferring { .. } => Step::Perform(
                Action::Transfer { request: encode(self.setting) },
            ),
            Phase::Releasing { session, .. } => Step::Perform(
                Action::ReleaseInterface { interface: session.interface_number },
            ),
            Phase::SettlingAfterRelease { .. } => Step::Perform(
                Action::Settle { millis: SETTLE_MILLIS },
            ),
            Phase::Reattaching { session, .. } => Step::Perform(
                Action::AttachKernelDriver { interface: session.interface_number },
            ),
            Phase::Resetting { .. } => Step::Perform(Action::ResetDevice),
            Phase::Closing { .. } => Step::Perform(Action::CloseDevice),
            Phase::Finished { result } => Step::Finish(result),
        }
    }

    /// Takes the reply to the pending action and moves to the next phase.
    /// A reply of a kind that does not answer the action counts as its
    /// failure; the reply to a pause, to a release and to the closing of the
    /// device is not looked at. Once the operation is over, a reply changes
    /// nothing.
    pub fn advance(&mut self, reply: Reply)
        ensures
            *final(self) == old(self).after(reply),
            !(old(self).phase is Finished) ==> final(self).steps_left() < old(self).steps_left(),
    {
        let next = match self.phase {
            Phase::Listing => match reply {
                Reply::Devices { count } => if count > 0 {
                    Phase::Probing { device: 0, count }
                } else {
                    Phase::Finished { result: Err(OperationError::DeviceNotFound) }
                },
                _ => Phase::Finished { result: Err(OperationError::DeviceNotFound) },
            },
            Phase::Probing { device, count } => match reply {
                Reply::Descriptor { identity } => if identity == self.identity {
                    Phase::Opening { device, count }
                } else {
                    next_probe(device, count)
                },
                _ => next_probe(device, count),
            },
            Phase::Opening { device, count } => match reply {
                Reply::Done => Phase::DisablingAutoDetach,
                _ => next_probe(device, count),
            },
            Phase::DisablingAutoDetach => match completion(reply) {
                Ok(_) => Phase::ReadingInterface,
                Err(e) => fail(AcquisitionStep::DisableAutoDetach, e),
            },
            Phase::ReadingInterface => match reply {
                Reply::Interface { number } => Phase::QueryingKernelDriver { interface: number },
                Reply::Failed { error } => fail(AcquisitionStep::ReadConfiguration, error),
                _ => fail(AcquisitionStep::ReadConfiguration, UsbError::Other),
            },
            Phase::QueryingKernelDriver { interface } => match reply {
                Reply::KernelDriver { active } => if active {
                    Phase::Detaching { interface }
                } else {
                    Phase::Claiming { session: InterfaceSession::new(interface, false) }
                },
                Reply::Failed { error } => fail(AcquisitionStep::QueryKernelDriver, error),
                _ => fail(AcquisitionStep::QueryKernelDriver, UsbError::Other),
            },
            Phase::Detaching { interface } => match completion(reply) {
                Ok(_) => Phase::Claiming { session: InterfaceSession::new(interface, true) },
                Err(e) => fail(AcquisitionStep::DetachKernelDriver, e),
            },
            Phase::Claiming { session } => match completion(reply) {
                Ok(_) => Phase::SettlingAfterClaim { session: session.with_claim(true) },
                Err(e) => if session.kernel_driver_was_attached {
                    Phase::ReattachingAfterFailure { session, cause: e }
                } else {
                    fail(AcquisitionStep::ClaimInterface, e)
                },
            },
            Phase::ReattachingAfterFailure { cause, .. } => fail(
                AcquisitionStep::ClaimInterface,
                cause,
            ),
            Phase::SettlingAfterClaim { session } => Phase::Transferring { session },
            Phase::Transferring { session } => Phase::Releasing {
                session,
                transfer: completion(reply),
            },
            Phase::Releasing { session, transfer } => Phase::SettlingAfterRelease {
                session: session.with_claim(false),
                transfer,
            },
            Phase::SettlingAfterRelease { session, transfer } => if session.kernel_driver_was_attached {
                Phase::Reattaching { session, transfer }
            } else {
                Phase::Closing { result: final_outcome(transfer, RestoreOutcome::RestoredClean) }
            },
            Phase::Reattaching { session, transfer } => match completion(reply) {
                Ok(_) => Phase::Closing {
                    result: final_outcome(transfer, RestoreOutcome::RestoredClean),
                },
                Err(_) => Phase::Resetting { session, transfer },
            },
            Phase::Resetting { transfer, .. } => match completion(reply) {
                Ok(_) => Phase::Closing {
                    result: final_outcome(transfer, RestoreOutcome::RestoredViaReset),
                },
                Err(e) => Phase::Closing {
                    result: final_outcome(transfer, RestoreOutcome::RestoredFailed(e)),
                },
            },
            Phase::Closing { result } => Phase::Finished { result },
            Phase::Finished { result } => Phase::Finished { result },
        };
        self.phase = next;
    }
}

/// Moves on to the device after `device`, if there is one.
fn next_probe(device: usize, count: usize) -> (phase: Phase)
    ensures
        phase == next_probe_spec(device, count),
{
    if device < usize::MAX && device + 1 < count {
        Phase::Probing { device: device + 1, count }
    } else {
        Phase::Finished { result: Err(OperationError::DeviceNotFound) }
    }
}

/// Closes the device after a failed acquisition.
fn fail(step: AcquisitionStep, error: UsbError) -> (phase: Phase)
    ensures
        phase == acquisition_failed(step, error),
{
    Phase::Closing {
        result: Err(OperationError::InterfaceAcquisitionFailed(AcquisitionFailure { step, error })),
    }
}

} // verus!
