//! The operation run against a script: a record of how each USB action
//! would be answered. A rehearsal touches no device; it shows which actions
//! an operation performs, in which order, and what it ends with.

use vstd::prelude::*;
use crate::codec::encode_spec;
use crate::laws::{operation_ends_as_scripted, operation_runs_as_scripted};
use crate::locator::{some_yields, DeviceIdentity, Probe};
use crate::operation::{Action, Operation, Reply, Step};
use crate::outcome::{final_outcome_spec, OperationError, OperationOutcome, UsbError};
use crate::session::{
    acquire_spec, restore_outcome_spec, InterfaceSession, SETTLE_MILLIS, TARGET_INTERFACE_INDEX,
};

verus! {

/// How the USB subsystem answers: the attached devices in enumeration
/// order, or the error of listing them, and the answer of the opened device
/// to each action.
#[derive(Debug, PartialEq, Eq)]
pub struct Script {
    pub devices: Result<Vec<Probe>, UsbError>,
    pub auto_detach: Result<(), UsbError>,
    /// The number of the interface at the target position of the active
    /// configuration.
    pub interface: Result<u8, UsbError>,
    /// Whether a kernel driver is bound to the interface.
    pub kernel_driver: Result<bool, UsbError>,
    pub detach: Result<(), UsbError>,
    pub claim: Result<(), UsbError>,
    pub transfer: Result<(), UsbError>,
    pub release: Result<(), UsbError>,
    pub reattach: Result<(), UsbError>,
    pub reset: Result<(), UsbError>,
}

/// The reply that tells whether an action succeeded.
pub open spec fn signal_spec(outcome: Result<(), UsbError>) -> Reply {
    match outcome {
        Ok(_) => Reply::Done,
        Err(error) => Reply::Failed { error },
    }
}

fn signal(outcome: Result<(), UsbError>) -> (reply: Reply)
    ensures
        reply == signal_spec(outcome),
{
    match outcome {
        Ok(_) => Reply::Done,
        Err(error) => Reply::Failed { error },
    }
}

impl Script {
    /// A script in which the given devices are listed and every action on
    /// the opened device succeeds.
    pub fn succeeding(probes: Vec<Probe>, interface: u8, kernel_driver: bool) -> (script: Script)
        ensures
            script.devices == Ok::<Vec<Probe>, UsbError>(probes),
            script.auto_detach is Ok,
            script.interface == Ok::<u8, UsbError>(interface),
            script.kernel_driver == Ok::<bool, UsbError>(kernel_driver),
            script.detach is Ok,
            script.claim is Ok,
            script.transfer is Ok,
            script.release is Ok,
            script.reattach is Ok,
            script.reset is Ok,
    {
        Script {
            devices: Ok(probes),
            auto_detach: Ok(()),
            interface: Ok(interface),
            kernel_driver: Ok(kernel_driver),
            detach: Ok(()),
            claim: Ok(()),
            transfer: Ok(()),
            release: Ok(()),
            reattach: Ok(()),
            reset: Ok(()),
        }
    }

    /// The listed devices; none where they cannot be listed.
    pub open spec fn probes(self) -> Seq<Probe> {
        match self.devices {
            Ok(probes) => probes@,
            Err(_) => Seq::empty(),
        }
    }

    /// The reply of the script to an action. A device that is not listed
    /// answers `NoDevice`, an interface position other than the target
    /// `NotFound`, and a pause and the closing of the device always succeed.
    pub open spec fn reply_spec(self, action: Action) -> Reply {
        match action {
            Action::ListDevices => match self.devices {
                Ok(probes) => Reply::Devices { count: probes.len() },
                Err(error) => Reply::Failed { error },
            },
            Action::ReadDescriptor { device } => if device < self.probes().len() {
                match self.probes()[device as int].descriptor {
                    Ok(identity) => Reply::Descriptor { identity },
                    Err(error) => Reply::Failed { error },
                }
            } else {
                Reply::Failed { error: UsbError::NoDevice }
            },
            Action::OpenDevice { device } => if device < self.probes().len() {
                signal_spec(self.probes()[device as int].open)
            } else {
                Reply::Failed { error: UsbError::NoDevice }
            },
            Action::DisableAutoDetach => signal_spec(self.auto_detach),
            Action::ReadInterface { index } => if index == TARGET_INTERFACE_INDEX {
                match self.interface {
                    Ok(number) => Reply::Interface { number },
                    Err(error) => Reply::Failed { error },
                }
            } else {
                Reply::Failed { error: UsbError::NotFound }
            },
            Action::QueryKernelDriver { .. } => match self.kernel_driver {
                Ok(active) => Reply::KernelDriver { active },
                Err(error) => Reply::Failed { error },
            },
            Action::DetachKernelDriver { .. } => signal_spec(self.detach),
            Action::ClaimInterface { .. } => signal_spec(self.claim),
            Action::Settle { .. } => Reply::Done,
            Action::Transfer { .. } => signal_spec(self.transfer),
            Action::ReleaseInterface { .. } => signal_spec(self.release),
            Action::AttachKernelDriver { .. } => signal_spec(self.reattach),
            Action::ResetDevice => signal_spec(self.reset),
            Action::CloseDevice => Reply::Done,
        }
    }

    /// Answers an action as the script says.
    pub fn reply(&self, action: &Action) -> (reply: Reply)
        ensures
            reply == self.reply_spec(*action),
    {
        match action {
            Action::ListDevices => match &self.devices {
                Ok(probes) => Reply::Devices { count: probes.len() },
                Err(error) => Reply::Failed { error: *error },
            },
            Action::ReadDescriptor { device } => match &self.devices {
                Ok(probes) => if *device < probes.len() {
                    match probes[*device].descriptor {
                        Ok(identity) => Reply::Descriptor { identity },
                        Err(error) => Reply::Failed { error },
                    }
                } else {
                    Reply::Failed { error: UsbError::NoDevice }
                },
                Err(_) => Reply::Failed { error: UsbError::NoDevice },
            },
            Action::OpenDevice { device } => match &self.devices {
                Ok(probes) => if *device < probes.len() {
                    signal(probes[*device].open)
                } else {
                    Reply::Failed { error: UsbError::NoDevice }
                },
                Err(_) => Reply::Failed { error: UsbError::NoDevice },
            },
            Action::DisableAutoDetach => signal(self.auto_detach),
            Action::ReadInterface { index } => if *index == TARGET_INTERFACE_INDEX {
                match self.interface {
                    Ok(number) => Reply::Interface { number },
                    Err(error) => Reply::Failed { error },
                }
            } else {
                Reply::Failed { error: UsbError::NotFound }
            },
            Action::QueryKernelDriver { .. } => match self.kernel_driver {
                Ok(active) => Reply::KernelDriver { active },
                Err(error) => Reply::Failed { error },
            },
            Action::DetachKernelDriver { .. } => signal(self.detach),
            Action::ClaimInterface { .. } => signal(self.claim),
            Action::Settle { .. } => Reply::Done,
            Action::Transfer { .. } => signal(self.transfer),
            Action::ReleaseInterface { .. } => signal(self.release),
            Action::AttachKernelDriver { .. } => signal(self.reattach),
            Action::ResetDevice => signal(self.reset),
            Action::CloseDevice => Reply::Done,
        }
    }

    /// What the operation ends with once a device is open: a failed
    /// acquisition, or the transfer and the restoration combined.
    pub open spec fn session_result(self) -> Result<OperationOutcome, OperationError> {
        match acquire_spec(
            self.auto_detach,
            self.interface,
            self.kernel_driver,
            self.detach,
            self.claim,
        ) {
            Err(failure) => Err(OperationError::InterfaceAcquisitionFailed(failure)),
            Ok(session) => final_outcome_spec(
                self.transfer,
                restore_outcome_spec(session.kernel_driver_was_attached, self.reattach, self.reset),
            ),
        }
    }

    /// What an operation on a device of the given identity ends with.
    pub open spec fn expected_result(self, identity: DeviceIdentity) -> Result<
        OperationOutcome,
        OperationError,
    > {
        if some_yields(self.probes(), identity) {
            self.session_result()
        } else {
            Err(OperationError::DeviceNotFound)
        }
    }
}

/// The actions of the search from one device on: each device has its
/// descriptor read; one that shows the wanted identity is opened; the
/// search stops at the first that opens.
pub open spec fn scan_from(probes: Seq<Probe>, identity: DeviceIdentity, device: int) -> Seq<Action>
    decreases probes.len() - device,
{
    if device < 0 || device >= probes.len() {
        Seq::empty()
    } else {
        let read = Action::ReadDescriptor { device: device as usize };
        let open = Action::OpenDevice { device: device as usize };
        if !probes[device].matches(identity) {
            seq![read] + scan_from(probes, identity, device + 1)
        } else if probes[device].open is Ok {
            seq![read, open]
        } else {
            seq![read, open] + scan_from(probes, identity, device + 1)
        }
    }
}

/// The actions of handing back the interface: release, pause, then attach
/// the kernel driver if one was detached, then reset the device if the
/// driver could not be attached; the device is closed at the end.
pub open spec fn restore_trace(session: InterfaceSession, script: Script) -> Seq<Action> {
    let interface = session.interface_number;
    let release = seq![
        Action::ReleaseInterface { interface },
        Action::Settle { millis: SETTLE_MILLIS },
    ];
    if !session.kernel_driver_was_attached {
        release.push(Action::CloseDevice)
    } else if script.reattach is Ok {
        release.push(Action::AttachKernelDriver { interface }).push(Action::CloseDevice)
    } else {
        release.push(Action::AttachKernelDriver { interface }).push(Action::ResetDevice).push(
            Action::CloseDevice,
        )
    }
}

/// The actions from the claim on: the claim; where it succeeds, a pause,
/// the transfer of the encoded setting and the restoration; where it fails
/// after the kernel driver was detached, one attempt to attach the driver
/// again, and the closing of the device.
pub open spec fn claim_trace(session: InterfaceSession, script: Script, setting: u16) -> Seq<
    Action,
> {
    let interface = session.interface_number;
    let claim = seq![Action::ClaimInterface { interface }];
    if script.claim is Ok {
        claim + seq![
            Action::Settle { millis: SETTLE_MILLIS },
            Action::Transfer { request: encode_spec(setting) },
        ] + restore_trace(session.with_claim_spec(true), script)
    } else if session.kernel_driver_was_attached {
        claim.push(Action::AttachKernelDriver { interface }).push(Action::CloseDevice)
    } else {
        claim.push(Action::CloseDevice)
    }
}

/// The actions on the opened device: automatic detaching is switched off,
/// the interface number is read, the kernel driver is asked for and
/// detached if it is bound, and the interface is claimed and used. After
/// the first of these steps that fails, the device is closed.
pub open spec fn session_trace(script: Script, setting: u16) -> Seq<Action> {
    let disable = seq![Action::DisableAutoDetach];
    let read = disable.push(Action::ReadInterface { index: TARGET_INTERFACE_INDEX });
    match (script.auto_detach, script.interface, script.kernel_driver) {
        (Err(_), _, _) => disable.push(Action::CloseDevice),
        (Ok(_), Err(_), _) => read.push(Action::CloseDevice),
        (Ok(_), Ok(interface), Err(_)) => read.push(Action::QueryKernelDriver { interface }).push(
            Action::CloseDevice,
        ),
        (Ok(_), Ok(interface), Ok(false)) => read.push(Action::QueryKernelDriver { interface })
            + claim_trace(
            InterfaceSession {
                interface_number: interface,
                kernel_driver_was_attached: false,
                claimed: false,
            },
            script,
            setting,
        ),
        (Ok(_), Ok(interface), Ok(true)) => {
            let detach = read.push(Action::QueryKernelDriver { interface }).push(
                Action::DetachKernelDriver { interface },
            );
            if script.detach is Err {
                detach.push(Action::CloseDevice)
            } else {
                detach + claim_trace(
                    InterfaceSession {
                        interface_number: interface,
                        kernel_driver_was_attached: true,
                        claimed: false,
                    },
                    script,
                    setting,
                )
            }
        },
    }
}

/// All the actions of an operation, in order.
pub open spec fn operation_trace(script: Script, identity: DeviceIdentity, setting: u16) -> Seq<
    Action,
> {
    let search = seq![Action::ListDevices] + scan_from(script.probes(), identity, 0);
    if some_yields(script.probes(), identity) {
        search + session_trace(script, setting)
    } else {
        search
    }
}

/// The actions that the operation performs from where it stands, in order,
/// when the script answers them.
pub open spec fn trace_from(op: Operation, script: Script) -> Seq<Action>
    decreases op.steps_left(),
{
    match op.pending_spec() {
        Step::Finish(_) => Seq::empty(),
        Step::Perform(action) => seq![action] + trace_from(
            op.after(script.reply_spec(action)),
            script,
        ),
    }
}

/// What the operation ends with from where it stands when the script
/// answers its actions.
pub open spec fn result_from(op: Operation, script: Script) -> Result<
    OperationOutcome,
    OperationError,
>
    decreases op.steps_left(),
{
    match op.pending_spec() {
        Step::Finish(result) => result,
        Step::Perform(action) => result_from(op.after(script.reply_spec(action)), script),
    }
}

/// The record of a rehearsal.
#[derive(Debug, PartialEq, Eq)]
pub struct Rehearsal {
    /// The actions performed, in order.
    pub actions: Vec<Action>,
    /// What the operation ended with.
    pub result: Result<OperationOutcome, OperationError>,
}

/// Runs the operation that writes `setting` to the device of the given
/// identity, with every action answered by the script.
pub fn rehearse(identity: DeviceIdentity, setting: u16, script: &Script) -> (rehearsal: Rehearsal)
    ensures
        rehearsal.actions@ == trace_from(Operation::start(identity, setting), *script),
        rehearsal.actions@ == operation_trace(*script, identity, setting),
        rehearsal.result == result_from(Operation::start(identity, setting), *script),
        rehearsal.result == script.expected_result(identity),
{
    let mut op = Operation::new(identity, setting);
    let mut actions: Vec<Action> = Vec::new();
    loop
        invariant
            actions@ + trace_from(op, *script) == trace_from(
                Operation::start(identity, setting),
                *script,
            ),
            result_from(op, *script) == result_from(Operation::start(identity, setting), *script),
        decreases op.steps_left(),
    {
        match op.pending() {
            Step::Finish(result) => {
                proof {
                    assert(actions@ + Seq::<Action>::empty() == actions@);
                    operation_runs_as_scripted(identity, setting, *script);
                    operation_ends_as_scripted(identity, setting, *script);
                }
                return Rehearsal { actions, result };
            },
            Step::Perform(action) => {
                let reply = script.reply(&action);
                let ghost before = actions@;
                let ghost rest = trace_from(op.after(reply), *script);
                assert(before.push(action) + rest == before + (seq![action] + rest));
                actions.push(action);
                op.advance(reply);
            },
        }
    }
}

} // verus!
