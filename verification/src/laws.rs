//! What holds of every operation, whatever the devices answer.

use vstd::prelude::*;
use crate::codec::encode_spec;
use crate::locator::{is_first_yield, some_yields, DeviceIdentity, Probe};
use crate::operation::{completion_spec, Action, Operation, Phase, Reply, Step};
use crate::outcome::{
    final_outcome_spec, AcquisitionStep, OperationError, OperationOutcome, RestoreOutcome, UsbError,
};
use crate::rehearsal::{
    claim_trace, operation_trace, restore_trace, result_from, scan_from, session_trace,
    signal_spec, trace_from, Script,
};
use crate::session::{
    acquire_spec, failure, restore_outcome_spec, InterfaceSession, SETTLE_MILLIS,
    TARGET_INTERFACE_INDEX,
};

verus! {

/// Some device from `from` on has the wanted identity and opens.
pub open spec fn yields_from(probes: Seq<Probe>, identity: DeviceIdentity, from: int) -> bool {
    exists|j: int| from <= j < probes.len() && (#[trigger] probes[j]).yields(identity)
}

/// Once a device is open, the operation ends with what the acquisition, the
/// transfer and the restoration of the script give.
pub proof fn session_ends_as_scripted(op: Operation, script: Script)
    requires
        op.phase == Phase::DisablingAutoDetach,
    ensures
        result_from(op, script) == script.session_result(),
{
    reveal_with_fuel(result_from, 13);
}

/// From the examination of one device on, the operation ends as a session
/// does if that device or a later one has the wanted identity and opens,
/// and with `DeviceNotFound` if none does.
pub proof fn search_ends_as_scripted(op: Operation, script: Script, device: usize, count: usize)
    requires
        device < count == script.probes().len(),
        op.phase == (Phase::Probing { device, count }),
    ensures
        result_from(op, script) == if yields_from(script.probes(), op.identity, device as int) {
            script.session_result()
        } else {
            Err(OperationError::DeviceNotFound)
        },
    decreases count - device,
{
    let probes = script.probes();
    let probe = probes[device as int];
    reveal_with_fuel(result_from, 3);
    if probe.yields(op.identity) {
        session_ends_as_scripted(op.at(Phase::DisablingAutoDetach), script);
    } else if device + 1 < count {
        let next = (device + 1) as usize;
        search_ends_as_scripted(op.at(Phase::Probing { device: next, count }), script, next, count);
        assert(yields_from(probes, op.identity, device as int) == yields_from(
            probes,
            op.identity,
            next as int,
        ));
    } else {
        assert(!yields_from(probes, op.identity, device as int));
    }
}

/// An operation ends with `DeviceNotFound` if no listed device has the
/// wanted identity and opens, and else with the result of the session on
/// the first one that does.
pub proof fn operation_ends_as_scripted(identity: DeviceIdentity, setting: u16, script: Script)
    ensures
        result_from(Operation::start(identity, setting), script) == script.expected_result(
            identity,
        ),
{
    let op = Operation::start(identity, setting);
    let probes = script.probes();
    reveal_with_fuel(result_from, 2);
    match script.devices {
        Ok(listed) => {
            let count = listed.len();
            if count > 0 {
                let first = op.at(Phase::Probing { device: 0, count });
                search_ends_as_scripted(first, script, 0, count);
                assert(yields_from(probes, identity, 0) == some_yields(probes, identity));
            } else {
                assert(!some_yields(probes, identity));
            }
        },
        Err(_) => {
            assert(!some_yields(probes, identity));
        },
    }
}

/// The reply by which a script signals an outcome is read back as that
/// outcome.
pub proof fn signal_is_read_back(outcome: Result<(), UsbError>)
    ensures
        completion_spec(signal_spec(outcome)) == outcome,
{
    match outcome {
        Ok(unit) => {
            assert(unit == ());
        },
        Err(_) => {},
    }
}

/// Handing back the interface performs the actions of `restore_trace` and
/// ends the operation with the transfer's result combined with the
/// restoration's. The result of the release does not count.
pub proof fn restoration_runs_as_scripted(
    op: Operation,
    script: Script,
    session: InterfaceSession,
    transfer: Result<(), UsbError>,
)
    requires
        op.phase == (Phase::Releasing { session, transfer }),
    ensures
        trace_from(op, script) == restore_trace(session, script),
        result_from(op, script) == final_outcome_spec(
            transfer,
            restore_outcome_spec(session.kernel_driver_was_attached, script.reattach, script.reset),
        ),
{
    reveal_with_fuel(trace_from, 6);
    reveal_with_fuel(result_from, 6);
    assert(trace_from(op, script) =~= restore_trace(session, script));
}

/// From the claim on the operation performs the actions of `claim_trace`.
pub proof fn claim_runs_as_scripted(op: Operation, script: Script, session: InterfaceSession)
    requires
        op.phase == (Phase::Claiming { session }),
    ensures
        trace_from(op, script) == claim_trace(session, script, op.setting),
{
    reveal_with_fuel(trace_from, 3);
    let interface = session.interface_number;
    let claim = Action::ClaimInterface { interface };
    assert(trace_from(op, script) == seq![claim] + trace_from(
        op.after(script.reply_spec(claim)),
        script,
    ));
    if script.claim is Ok {
        let held = session.with_claim_spec(true);
        let settle = Action::Settle { millis: SETTLE_MILLIS };
        let transfer = Action::Transfer { request: encode_spec(op.setting) };
        let settling = op.at(Phase::SettlingAfterClaim { session: held });
        let transferring = op.at(Phase::Transferring { session: held });
        let releasing = op.at(Phase::Releasing { session: held, transfer: script.transfer });
        assert(op.after(script.reply_spec(claim)) == settling);
        assert(settling.after(script.reply_spec(settle)) == transferring);
        signal_is_read_back(script.transfer);
        assert(transferring.after(script.reply_spec(transfer)) == releasing);
        assert(trace_from(settling, script) == seq![settle] + trace_from(transferring, script));
        assert(trace_from(transferring, script) == seq![transfer] + trace_from(releasing, script));
        restoration_runs_as_scripted(releasing, script, held, script.transfer);
        assert(trace_from(op, script) =~= claim_trace(session, script, op.setting));
    } else {
        assert(trace_from(op, script) =~= claim_trace(session, script, op.setting));
    }
}

/// On the opened device the operation performs the actions of
/// `session_trace`.
pub proof fn session_runs_as_scripted(op: Operation, script: Script)
    requires
        op.phase == Phase::DisablingAutoDetach,
    ensures
        trace_from(op, script) == session_trace(script, op.setting),
{
    reveal_with_fuel(trace_from, 6);
    match (script.auto_detach, script.interface, script.kernel_driver) {
        (Ok(_), Ok(interface), Ok(active)) => {
            let session = InterfaceSession {
                interface_number: interface,
                kernel_driver_was_attached: active,
                claimed: false,
            };
            claim_runs_as_scripted(op.at(Phase::Claiming { session }), script, session);
        },
        _ => {},
    }
    assert(trace_from(op, script) =~= session_trace(script, op.setting));
}

/// From the examination of one device on, the operation performs the
/// actions of the search and, if a device is opened, those of the session.
pub proof fn search_runs_as_scripted(op: Operation, script: Script, device: usize, count: usize)
    requires
        device < count == script.probes().len(),
        op.phase == (Phase::Probing { device, count }),
    ensures
        trace_from(op, script) == scan_from(script.probes(), op.identity, device as int) + (
        if yields_from(script.probes(), op.identity, device as int) {
            session_trace(script, op.setting)
        } else {
            Seq::empty()
        }),
    decreases count - device,
{
    let probes = script.probes();
    let probe = probes[device as int];
    let scan = scan_from(probes, op.identity, device as int);
    let next = (device + 1) as usize;
    let later = scan_from(probes, op.identity, next as int);
    let read = Action::ReadDescriptor { device };
    let open = Action::OpenDevice { device };
    reveal_with_fuel(trace_from, 3);
    if probe.yields(op.identity) {
        session_runs_as_scripted(op.at(Phase::DisablingAutoDetach), script);
        assert(trace_from(op, script) =~= scan + session_trace(script, op.setting));
    } else {
        assert(yields_from(probes, op.identity, device as int) == yields_from(
            probes,
            op.identity,
            next as int,
        ));
        if next < count {
            let following = op.at(Phase::Probing { device: next, count });
            search_runs_as_scripted(following, script, next, count);
            let tail = trace_from(following, script);
            if probe.matches(op.identity) {
                assert(trace_from(op, script) =~= seq![read, open] + tail);
                assert(scan == seq![read, open] + later);
            } else {
                assert(trace_from(op, script) =~= seq![read] + tail);
                assert(scan == seq![read] + later);
            }
            assert(trace_from(op, script) =~= scan + (if yields_from(
                probes,
                op.identity,
                device as int,
            ) {
                session_trace(script, op.setting)
            } else {
                Seq::empty()
            }));
        } else {
            assert(later =~= Seq::<Action>::empty());
            assert(!yields_from(probes, op.identity, device as int));
            assert(trace_from(op, script) =~= scan);
            assert(scan + Seq::<Action>::empty() =~= scan);
        }
    }
}

/// An operation performs the actions of `operation_trace`: it lists the
/// devices, searches them, and works on the first that it could open.
pub proof fn operation_runs_as_scripted(identity: DeviceIdentity, setting: u16, script: Script)
    ensures
        trace_from(Operation::start(identity, setting), script) == operation_trace(
            script,
            identity,
            setting,
        ),
{
    let op = Operation::start(identity, setting);
    let probes = script.probes();
    let list = seq![Action::ListDevices];
    reveal_with_fuel(trace_from, 2);
    match script.devices {
        Ok(listed) => {
            let count = listed.len();
            if count > 0 {
                let first = op.at(Phase::Probing { device: 0, count });
                search_runs_as_scripted(first, script, 0, count);
                assert(yields_from(probes, identity, 0) == some_yields(probes, identity));
                assert(trace_from(op, script) == list + trace_from(first, script));
                assert(trace_from(op, script) =~= operation_trace(script, identity, setting));
            } else {
                assert(!some_yields(probes, identity));
                assert(trace_from(op, script) =~= operation_trace(script, identity, setting));
            }
        },
        Err(_) => {
            assert(!some_yields(probes, identity));
            assert(trace_from(op, script) =~= operation_trace(script, identity, setting));
        },
    }
}

/// No listed device shows the wanted identity.
pub open spec fn none_matches(probes: Seq<Probe>, identity: DeviceIdentity) -> bool {
    forall|j: int| 0 <= j < probes.len() ==> !(#[trigger] probes[j]).matches(identity)
}

/// The action examines a listed device: it reads a descriptor or opens.
pub open spec fn examines(action: Action) -> bool {
    action is ReadDescriptor || action is OpenDevice
}

/// The action tries to bring the kernel driver back.
pub open spec fn restores_driver(action: Action) -> bool {
    action is AttachKernelDriver || action is ResetDevice
}

/// The search does nothing but read descriptors and open devices.
pub proof fn scan_only_examines(probes: Seq<Probe>, identity: DeviceIdentity, device: int)
    ensures
        forall|k: int|
            0 <= k < scan_from(probes, identity, device).len() ==> examines(
                #[trigger] scan_from(probes, identity, device)[k],
            ),
    decreases probes.len() - device,
{
    if 0 <= device < probes.len() {
        scan_only_examines(probes, identity, device + 1);
        let scan = scan_from(probes, identity, device);
        let later = scan_from(probes, identity, device + 1);
        assert forall|k: int| 0 <= k < scan.len() implies examines(#[trigger] scan[k]) by {
            if !probes[device].matches(identity) {
                if k >= 1 {
                    assert(scan[k] == later[k - 1]);
                }
            } else if k >= 2 {
                assert(scan[k] == later[k - 2]);
            }
        }
    }
}

/// The search ends by opening the device that `find_device` names: the
/// first that has the wanted identity and opens.
pub proof fn scan_ends_at_first_yield(
    probes: Seq<Probe>,
    identity: DeviceIdentity,
    device: int,
    from: int,
)
    requires
        is_first_yield(probes, identity, device),
        0 <= from <= device,
    ensures
        scan_from(probes, identity, from).len() >= 2,
        scan_from(probes, identity, from).last() == (Action::OpenDevice {
            device: device as usize,
        }),
    decreases device - from,
{
    if from < device {
        scan_ends_at_first_yield(probes, identity, device, from + 1);
        assert(!probes[from].yields(identity));
    }
}

/// Where no device shows the wanted identity, the search reads the
/// descriptor of each device in turn and does nothing else.
pub proof fn scan_without_match(probes: Seq<Probe>, identity: DeviceIdentity, device: int)
    requires
        0 <= device <= probes.len(),
        none_matches(probes, identity),
    ensures
        scan_from(probes, identity, device).len() == probes.len() - device,
        forall|k: int|
            0 <= k < probes.len() - device ==> #[trigger] scan_from(probes, identity, device)[k]
                == (Action::ReadDescriptor { device: (device + k) as usize }),
    decreases probes.len() - device,
{
    if device < probes.len() {
        scan_without_match(probes, identity, device + 1);
        let later = scan_from(probes, identity, device + 1);
        assert(!probes[device].matches(identity));
        assert forall|k: int| 0 <= k < probes.len() - device implies #[trigger] scan_from(
            probes,
            identity,
            device,
        )[k] == (Action::ReadDescriptor { device: (device + k) as usize }) by {
            if k > 0 {
                assert(scan_from(probes, identity, device)[k] == later[k - 1]);
            }
        }
    }
}

/// Where no listed device shows the wanted identity, the operation ends
/// with `DeviceNotFound`, and all it does is list the devices and read the
/// descriptor of each: nothing is opened, detached or claimed.
pub proof fn unmatched_identity_is_not_found(
    identity: DeviceIdentity,
    setting: u16,
    script: Script,
)
    requires
        none_matches(script.probes(), identity),
    ensures
        result_from(Operation::start(identity, setting), script) == Err::<
            OperationOutcome,
            OperationError,
        >(OperationError::DeviceNotFound),
        trace_from(Operation::start(identity, setting), script).len() == script.probes().len() + 1,
        trace_from(Operation::start(identity, setting), script)[0] == Action::ListDevices,
        forall|k: int|
            1 <= k <= script.probes().len() ==> #[trigger] trace_from(
                Operation::start(identity, setting),
                script,
            )[k] == (Action::ReadDescriptor { device: (k - 1) as usize }),
{
    let probes = script.probes();
    operation_ends_as_scripted(identity, setting, script);
    operation_runs_as_scripted(identity, setting, script);
    scan_without_match(probes, identity, 0);
    assert(!some_yields(probes, identity));
    let trace = trace_from(Operation::start(identity, setting), script);
    let scan = scan_from(probes, identity, 0);
    assert(trace == seq![Action::ListDevices] + scan);
    assert forall|k: int| 1 <= k <= probes.len() implies #[trigger] trace[k] == (
    Action::ReadDescriptor { device: (k - 1) as usize }) by {
        assert(trace[k] == scan[k - 1]);
    }
}

/// Once an operation is over it stays as it is and asks for no action.
pub proof fn finished_operation_is_inert(op: Operation, reply: Reply, script: Script)
    requires
        op.phase is Finished,
    ensures
        op.after(reply) == op,
        trace_from(op, script) == Seq::<Action>::empty(),
        result_from(op, script) == op.phase->Finished_result,
{
}

/// A session that detached no kernel driver is handed back by a release
/// and a pause, and the device is closed: the driver is not attached, the
/// device is not reset, and the restoration counts as clean whatever the
/// release answered.
pub proof fn unattached_session_restores_clean(
    op: Operation,
    script: Script,
    session: InterfaceSession,
    transfer: Result<(), UsbError>,
)
    requires
        op.phase == (Phase::Releasing { session, transfer }),
        !session.kernel_driver_was_attached,
    ensures
        trace_from(op, script) == seq![
            Action::ReleaseInterface { interface: session.interface_number },
            Action::Settle { millis: SETTLE_MILLIS },
            Action::CloseDevice,
        ],
        result_from(op, script) == final_outcome_spec(transfer, RestoreOutcome::RestoredClean),
{
    restoration_runs_as_scripted(op, script, session, transfer);
}

/// Where no kernel driver is bound to the interface, no operation attaches
/// the driver or resets the device, and none ends with a restoration that
/// is not clean.
pub proof fn unbound_driver_is_left_alone(identity: DeviceIdentity, setting: u16, script: Script)
    requires
        script.kernel_driver == Ok::<bool, UsbError>(false),
    ensures
        forall|k: int|
            0 <= k < trace_from(Operation::start(identity, setting), script).len()
                ==> !restores_driver(
                #[trigger] trace_from(Operation::start(identity, setting), script)[k],
            ),
        match result_from(Operation::start(identity, setting), script) {
            Ok(outcome) => outcome == OperationOutcome::Success,
            Err(OperationError::TransferFailed { restore, .. }) => restore
                == RestoreOutcome::RestoredClean,
            Err(OperationError::RestoreFailed { .. }) => false,
            Err(_) => true,
        },
{
    let probes = script.probes();
    operation_ends_as_scripted(identity, setting, script);
    operation_runs_as_scripted(identity, setting, script);
    scan_only_examines(probes, identity, 0);
    let trace = trace_from(Operation::start(identity, setting), script);
    let scan = scan_from(probes, identity, 0);
    let search = seq![Action::ListDevices] + scan;
    let session = session_trace(script, setting);
    assert forall|k: int| 0 <= k < session.len() implies !restores_driver(
        #[trigger] session[k],
    ) by {}
    assert forall|k: int| 0 <= k < trace.len() implies !restores_driver(#[trigger] trace[k]) by {
        if k == 0 {
        } else if k < search.len() {
            assert(trace[k] == scan[k - 1]);
        } else {
            assert(trace[k] == session[k - search.len()]);
        }
    }
}

/// Where the kernel driver was detached and the claim then fails, the
/// operation ends with `InterfaceAcquisitionFailed` for the claim. Its last
/// action before the device is closed, and the only one of its kind,
/// attaches the kernel driver again; the device is not reset.
pub proof fn failed_claim_reattaches_once(
    identity: DeviceIdentity,
    setting: u16,
    script: Script,
    interface: u8,
    error: UsbError,
)
    requires
        some_yields(script.probes(), identity),
        script.auto_detach is Ok,
        script.interface == Ok::<u8, UsbError>(interface),
        script.kernel_driver == Ok::<bool, UsbError>(true),
        script.detach is Ok,
        script.claim == Err::<(), UsbError>(error),
    ensures
        result_from(Operation::start(identity, setting), script) == Err::<
            OperationOutcome,
            OperationError,
        >(
            OperationError::InterfaceAcquisitionFailed(
                failure(AcquisitionStep::ClaimInterface, error),
            ),
        ),
        trace_from(Operation::start(identity, setting), script).len() >= 2,
        trace_from(Operation::start(identity, setting), script).last() == Action::CloseDevice,
        trace_from(Operation::start(identity, setting), script)[trace_from(
            Operation::start(identity, setting),
            script,
        ).len() - 2] == (Action::AttachKernelDriver { interface }),
        forall|k: int|
            0 <= k < trace_from(Operation::start(identity, setting), script).len() - 2
                ==> !restores_driver(
                #[trigger] trace_from(Operation::start(identity, setting), script)[k],
            ),
{
    let probes = script.probes();
    operation_ends_as_scripted(identity, setting, script);
    operation_runs_as_scripted(identity, setting, script);
    scan_only_examines(probes, identity, 0);
    let trace = trace_from(Operation::start(identity, setting), script);
    let scan = scan_from(probes, identity, 0);
    let search = seq![Action::ListDevices] + scan;
    let session = session_trace(script, setting);
    assert(session =~= seq![
        Action::DisableAutoDetach,
        Action::ReadInterface { index: TARGET_INTERFACE_INDEX },
        Action::QueryKernelDriver { interface },
        Action::DetachKernelDriver { interface },
        Action::ClaimInterface { interface },
        Action::AttachKernelDriver { interface },
        Action::CloseDevice,
    ]);
    assert(trace == search + session);
    assert(trace.last() == session[6]);
    assert(trace[trace.len() - 2] == session[5]);
    assert forall|k: int| 0 <= k < trace.len() - 2 implies !restores_driver(
        #[trigger] trace[k],
    ) by {
        if k == 0 {
        } else if k < search.len() {
            assert(trace[k] == scan[k - 1]);
        } else {
            assert(trace[k] == session[k - search.len()]);
        }
    }
}

/// The same, one reply at a time and whatever the replies: after a failed
/// claim on a session whose kernel driver was detached, the operation asks
/// for the driver to be attached, then for the device to be closed, and
/// ends with the error of the claim whatever the attach answered. A further
/// reply changes nothing.
pub proof fn failed_claim_step_by_step(
    op: Operation,
    session: InterfaceSession,
    claim: Reply,
    error: UsbError,
    reattach: Reply,
    close: Reply,
    further: Reply,
)
    requires
        op.phase == (Phase::Claiming { session }),
        session.kernel_driver_was_attached,
        completion_spec(claim) == Err::<(), UsbError>(error),
    ensures
        op.after(claim).pending_spec() == Step::Perform(
            Action::AttachKernelDriver { interface: session.interface_number },
        ),
        op.after(claim).after(reattach).pending_spec() == Step::Perform(Action::CloseDevice),
        op.after(claim).after(reattach).after(close).pending_spec() == Step::Finish(
            Err(
                OperationError::InterfaceAcquisitionFailed(
                    failure(AcquisitionStep::ClaimInterface, error),
                ),
            ),
        ),
        op.after(claim).after(reattach).after(close).after(further) == op.after(claim).after(
            reattach,
        ).after(close),
{
}

/// Where the transfer fails and the interface is restored cleanly, the
/// operation ends with `TransferFailed`, which carries the error of the
/// transfer and the clean restoration side by side.
pub proof fn failed_transfer_is_reported_beside_restoration(
    identity: DeviceIdentity,
    setting: u16,
    script: Script,
    session: InterfaceSession,
    cause: UsbError,
)
    requires
        some_yields(script.probes(), identity),
        acquire_spec(
            script.auto_detach,
            script.interface,
            script.kernel_driver,
            script.detach,
            script.claim,
        ) == Ok::<InterfaceSession, crate::outcome::AcquisitionFailure>(session),
        script.transfer == Err::<(), UsbError>(cause),
        restore_outcome_spec(session.kernel_driver_was_attached, script.reattach, script.reset)
            == RestoreOutcome::RestoredClean,
    ensures
        result_from(Operation::start(identity, setting), script) == Err::<
            OperationOutcome,
            OperationError,
        >(OperationError::TransferFailed { cause, restore: RestoreOutcome::RestoredClean }),
{
    operation_ends_as_scripted(identity, setting, script);
}

/// The first action occurs in the trace, and the second at a later place.
pub open spec fn precedes(trace: Seq<Action>, first: Action, second: Action) -> bool {
    exists|i: int, j: int|
        0 <= i < j < trace.len() && #[trigger] trace[i] == first && #[trigger] trace[j] == second
}

/// A kernel driver that was detached is not abandoned. The operation asks
/// for it to be attached again: after the release where the interface was
/// claimed, and right away where the claim failed. Where the attach fails
/// on a session that held the interface, a reset of the device follows.
pub proof fn detached_driver_is_not_abandoned(
    identity: DeviceIdentity,
    setting: u16,
    script: Script,
    interface: u8,
)
    requires
        some_yields(script.probes(), identity),
        script.auto_detach is Ok,
        script.interface == Ok::<u8, UsbError>(interface),
        script.kernel_driver == Ok::<bool, UsbError>(true),
        script.detach is Ok,
    ensures
        precedes(
            trace_from(Operation::start(identity, setting), script),
            Action::DetachKernelDriver { interface },
            Action::AttachKernelDriver { interface },
        ),
        script.claim is Ok ==> precedes(
            trace_from(Operation::start(identity, setting), script),
            Action::ReleaseInterface { interface },
            Action::AttachKernelDriver { interface },
        ),
        script.claim is Ok && script.reattach is Err ==> precedes(
            trace_from(Operation::start(identity, setting), script),
            Action::AttachKernelDriver { interface },
            Action::ResetDevice,
        ),
{
    let probes = script.probes();
    operation_runs_as_scripted(identity, setting, script);
    let trace = trace_from(Operation::start(identity, setting), script);
    let search = seq![Action::ListDevices] + scan_from(probes, identity, 0);
    let session = session_trace(script, setting);
    let held = InterfaceSession {
        interface_number: interface,
        kernel_driver_was_attached: true,
        claimed: true,
    };
    let base = search.len() as int;
    assert(trace == search + session);
    assert(session[3] == Action::DetachKernelDriver { interface });
    assert(trace[base + 3] == session[3]);
    if script.claim is Ok {
        let restore = restore_trace(held, script);
        assert(session.len() == 7 + restore.len());
        assert(session[7] == restore[0]);
        assert(session[9] == restore[2]);
        assert(trace[base + 7] == Action::ReleaseInterface { interface });
        assert(trace[base + 9] == Action::AttachKernelDriver { interface });
        if script.reattach is Err {
            assert(session[10] == restore[3]);
            assert(trace[base + 10] == Action::ResetDevice);
        }
    } else {
        assert(session[5] == Action::AttachKernelDriver { interface });
        assert(trace[base + 5] == Action::AttachKernelDriver { interface });
    }
}

/// An operation performs no more actions than `steps_left` says.
pub proof fn operation_is_bounded(op: Operation, script: Script)
    ensures
        trace_from(op, script).len() <= op.steps_left(),
    decreases op.steps_left(),
{
    if let Step::Perform(action) = op.pending_spec() {
        operation_is_bounded(op.after(script.reply_spec(action)), script);
    }
}

/// The setting is written at most once, as the request that `encode`
/// gives, and it is written exactly when the interface was acquired.
pub proof fn setting_is_written_once(identity: DeviceIdentity, setting: u16, script: Script)
    ensures
        forall|i: int, j: int|
            #![trigger
                trace_from(Operation::start(identity, setting), script)[i],
                trace_from(Operation::start(identity, setting), script)[j]
            ]
            0 <= i < j < trace_from(Operation::start(identity, setting), script).len() ==> !(
            trace_from(Operation::start(identity, setting), script)[i] is Transfer && trace_from(
                Operation::start(identity, setting),
                script,
            )[j] is Transfer),
        forall|i: int|
            0 <= i < trace_from(Operation::start(identity, setting), script).len() && (
            #[trigger] trace_from(Operation::start(identity, setting), script)[i]) is Transfer
                ==> trace_from(Operation::start(identity, setting), script)[i] == (
            Action::Transfer { request: encode_spec(setting) }),
        trace_from(Operation::start(identity, setting), script).contains(
            Action::Transfer { request: encode_spec(setting) },
        ) <==> some_yields(script.probes(), identity) && acquire_spec(
            script.auto_detach,
            script.interface,
            script.kernel_driver,
            script.detach,
            script.claim,
        ) is Ok,
{
    let probes = script.probes();
    operation_runs_as_scripted(identity, setting, script);
    scan_only_examines(probes, identity, 0);
    let trace = trace_from(Operation::start(identity, setting), script);
    let scan = scan_from(probes, identity, 0);
    let search = seq![Action::ListDevices] + scan;
    let session = session_trace(script, setting);
    let transfer = Action::Transfer { request: encode_spec(setting) };
    let acquired = acquire_spec(
        script.auto_detach,
        script.interface,
        script.kernel_driver,
        script.detach,
        script.claim,
    ) is Ok;
    let at: int = if script.kernel_driver == Ok::<bool, UsbError>(true) {
        6
    } else {
        5
    };
    assert forall|k: int| 0 <= k < search.len() implies !(#[trigger] search[k] is Transfer) by {
        if k > 0 {
            assert(search[k] == scan[k - 1]);
        }
    }
    assert forall|k: int| 0 <= k < session.len() && #[trigger] session[k] is Transfer implies acquired
        && k == at && session[k] == transfer by {}
    if acquired {
        assert(session[at] == transfer);
    }
    if some_yields(probes, identity) {
        assert(trace == search + session);
        assert forall|k: int| 0 <= k < trace.len() && #[trigger] trace[k] is Transfer implies acquired
            && k == search.len() + at && trace[k] == transfer by {
            if k < search.len() {
                assert(trace[k] == search[k]);
            } else {
                assert(trace[k] == session[k - search.len()]);
            }
        }
        if acquired {
            assert(trace[search.len() + at] == session[at]);
        }
    } else {
        assert(trace == search);
    }
}

/// The setting is written to a claimed interface only: the transfer comes
/// right after the claim and a pause, and the release comes right after
/// it, whatever it answered.
pub proof fn setting_is_written_between_claim_and_release(
    identity: DeviceIdentity,
    setting: u16,
    script: Script,
    place: int,
)
    requires
        0 <= place < trace_from(Operation::start(identity, setting), script).len(),
        trace_from(Operation::start(identity, setting), script)[place] is Transfer,
    ensures
        2 <= place < trace_from(Operation::start(identity, setting), script).len() - 1,
        trace_from(Operation::start(identity, setting), script)[place - 2] is ClaimInterface,
        trace_from(Operation::start(identity, setting), script)[place - 1] == (Action::Settle {
            millis: SETTLE_MILLIS,
        }),
        trace_from(Operation::start(identity, setting), script)[place + 1] is ReleaseInterface,
{
    let probes = script.probes();
    operation_runs_as_scripted(identity, setting, script);
    scan_only_examines(probes, identity, 0);
    let trace = trace_from(Operation::start(identity, setting), script);
    let scan = scan_from(probes, identity, 0);
    let search = seq![Action::ListDevices] + scan;
    let session = session_trace(script, setting);
    let at: int = if script.kernel_driver == Ok::<bool, UsbError>(true) {
        6
    } else {
        5
    };
    assert forall|k: int| 0 <= k < search.len() implies !(#[trigger] search[k] is Transfer) by {
        if k > 0 {
            assert(search[k] == scan[k - 1]);
        }
    }
    assert forall|k: int| 0 <= k < session.len() && #[trigger] session[k] is Transfer implies k
        == at && session.len() > at + 1 && session[at - 2] is ClaimInterface && session[at - 1]
        == (Action::Settle { millis: SETTLE_MILLIS }) && session[at + 1] is ReleaseInterface by {}
    if some_yields(probes, identity) {
        assert(trace == search + session);
        if place < search.len() {
            assert(trace[place] == search[place]);
        } else {
            let within = place - search.len();
            assert(trace[place] == session[within]);
            assert(trace[place - 2] == session[within - 2]);
            assert(trace[place - 1] == session[within - 1]);
            assert(trace[place + 1] == session[within + 1]);
        }
    } else {
        assert(trace == search);
        assert(trace[place] == search[place]);
    }
}

/// A device that was opened is closed: where a device has the wanted
/// identity and opens, the last action of the operation closes it, and no
/// action before that does; where none does, nothing is closed.
pub proof fn opened_device_is_closed(identity: DeviceIdentity, setting: u16, script: Script)
    ensures
        some_yields(script.probes(), identity) ==> trace_from(
            Operation::start(identity, setting),
            script,
        ).last() == Action::CloseDevice,
        forall|k: int|
            0 <= k < trace_from(Operation::start(identity, setting), script).len() && (
            #[trigger] trace_from(Operation::start(identity, setting), script)[k])
                == Action::CloseDevice ==> some_yields(script.probes(), identity) && k
                == trace_from(Operation::start(identity, setting), script).len() - 1,
{
    let probes = script.probes();
    operation_runs_as_scripted(identity, setting, script);
    scan_only_examines(probes, identity, 0);
    let trace = trace_from(Operation::start(identity, setting), script);
    let scan = scan_from(probes, identity, 0);
    let search = seq![Action::ListDevices] + scan;
    let session = session_trace(script, setting);
    assert forall|k: int| 0 <= k < search.len() implies #[trigger] search[k]
        != Action::CloseDevice by {
        if k > 0 {
            assert(search[k] == scan[k - 1]);
        }
    }
    assert(session.len() >= 2 && session.last() == Action::CloseDevice);
    assert forall|k: int| 0 <= k < session.len() && #[trigger] session[k]
        == Action::CloseDevice implies k == session.len() - 1 by {}
    if some_yields(probes, identity) {
        assert(trace == search + session);
        assert(trace.last() == session.last());
        assert forall|k: int| 0 <= k < trace.len() && #[trigger] trace[k]
            == Action::CloseDevice implies k == trace.len() - 1 by {
            if k < search.len() {
                assert(trace[k] == search[k]);
            } else {
                assert(trace[k] == session[k - search.len()]);
            }
        }
    } else {
        assert(trace == search);
    }
}

} // verus!
