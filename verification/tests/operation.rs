use sidetone::codec::encode;
use sidetone::locator::DeviceIdentity;
use sidetone::operation::{completion, Action, Operation, Phase, Reply, Step};
use sidetone::outcome::{
    AcquisitionFailure, AcquisitionStep, OperationError, OperationOutcome, RestoreOutcome,
    UsbError,
};
use sidetone::session::{InterfaceSession, SETTLE_MILLIS, TARGET_INTERFACE_INDEX};

const HEADSET: DeviceIdentity = DeviceIdentity { vendor_id: 0x046d, product_id: 0x0a15 };
const OTHER: DeviceIdentity = DeviceIdentity { vendor_id: 0x1d6b, product_id: 0x0002 };

fn perform(op: &mut Operation, expected: Action, reply: Reply) {
    assert_eq!(op.pending(), Step::Perform(expected));
    op.advance(reply);
}

fn claimed(op: &mut Operation, interface: u8, kernel_driver: bool) {
    perform(op, Action::ListDevices, Reply::Devices { count: 1 });
    perform(op, Action::ReadDescriptor { device: 0 }, Reply::Descriptor { identity: HEADSET });
    perform(op, Action::OpenDevice { device: 0 }, Reply::Done);
    perform(op, Action::DisableAutoDetach, Reply::Done);
    perform(
        op,
        Action::ReadInterface { index: TARGET_INTERFACE_INDEX },
        Reply::Interface { number: interface },
    );
    perform(
        op,
        Action::QueryKernelDriver { interface },
        Reply::KernelDriver { active: kernel_driver },
    );
    if kernel_driver {
        perform(op, Action::DetachKernelDriver { interface }, Reply::Done);
    }
    perform(op, Action::ClaimInterface { interface }, Reply::Done);
}

fn failure(step: AcquisitionStep, error: UsbError) -> Step {
    Step::Finish(Err(OperationError::InterfaceAcquisitionFailed(AcquisitionFailure {
        step,
        error,
    })))
}

#[test]
fn new_operation_lists_the_devices() {
    let op = Operation::new(HEADSET, 0xF400);
    assert_eq!(op.identity, HEADSET);
    assert_eq!(op.setting, 0xF400);
    assert_eq!(op.phase, Phase::Listing);
    assert_eq!(op.pending(), Step::Perform(Action::ListDevices));
}

#[test]
fn clean_run_with_a_kernel_driver() {
    let mut op = Operation::new(HEADSET, 0xF400);
    claimed(&mut op, 3, true);
    perform(&mut op, Action::Settle { millis: SETTLE_MILLIS }, Reply::Done);
    match op.pending() {
        Step::Perform(Action::Transfer { request }) => {
            assert_eq!(request.payload, [0x00, 0xF4]);
            assert_eq!(request.request_type, 0b0010_0001);
            assert_eq!(request.request_code, 1);
            assert_eq!(request.value, 0x0100);
            assert_eq!(request.index, 0x0600);
            assert_eq!(request.timeout_millis, 1000);
        }
        other => panic!("expected the transfer, got {:?}", other),
    }
    op.advance(Reply::Done);
    perform(&mut op, Action::ReleaseInterface { interface: 3 }, Reply::Done);
    perform(&mut op, Action::Settle { millis: SETTLE_MILLIS }, Reply::Done);
    perform(&mut op, Action::AttachKernelDriver { interface: 3 }, Reply::Done);
    perform(&mut op, Action::CloseDevice, Reply::Done);
    assert_eq!(op.pending(), Step::Finish(Ok(OperationOutcome::Success)));
    assert_eq!(OperationOutcome::Success.terminal_state(), RestoreOutcome::RestoredClean);
}

#[test]
fn reattach_fails_and_reset_succeeds() {
    let mut op = Operation::new(HEADSET, 0xF400);
    claimed(&mut op, 0, true);
    perform(&mut op, Action::Settle { millis: SETTLE_MILLIS }, Reply::Done);
    perform(&mut op, Action::Transfer { request: encode(0xF400) }, Reply::Done);
    perform(&mut op, Action::ReleaseInterface { interface: 0 }, Reply::Done);
    perform(&mut op, Action::Settle { millis: SETTLE_MILLIS }, Reply::Done);
    perform(
        &mut op,
        Action::AttachKernelDriver { interface: 0 },
        Reply::Failed { error: UsbError::Busy },
    );
    perform(&mut op, Action::ResetDevice, Reply::Done);
    perform(&mut op, Action::CloseDevice, Reply::Done);
    assert_eq!(op.pending(), Step::Finish(Ok(OperationOutcome::RestoreDegraded)));
    assert_eq!(
        OperationOutcome::RestoreDegraded.terminal_state(),
        RestoreOutcome::RestoredViaReset
    );
    assert!(OperationOutcome::RestoreDegraded.is_qualified());
}

#[test]
fn reattach_fails_and_reset_fails() {
    let mut op = Operation::new(HEADSET, 0xF400);
    claimed(&mut op, 0, true);
    perform(&mut op, Action::Settle { millis: SETTLE_MILLIS }, Reply::Done);
    perform(&mut op, Action::Transfer { request: encode(0xF400) }, Reply::Done);
    perform(&mut op, Action::ReleaseInterface { interface: 0 }, Reply::Done);
    perform(&mut op, Action::Settle { millis: SETTLE_MILLIS }, Reply::Done);
    perform(
        &mut op,
        Action::AttachKernelDriver { interface: 0 },
        Reply::Failed { error: UsbError::Busy },
    );
    perform(&mut op, Action::ResetDevice, Reply::Failed { error: UsbError::NoDevice });
    perform(&mut op, Action::CloseDevice, Reply::Done);
    assert_eq!(
        op.pending(),
        Step::Finish(Err(OperationError::RestoreFailed {
            cause: UsbError::NoDevice,
            transfer: None
        }))
    );
}

#[test]
fn failed_restoration_overrides_a_failed_transfer_too() {
    let mut op = Operation::new(HEADSET, 7);
    claimed(&mut op, 2, true);
    perform(&mut op, Action::Settle { millis: SETTLE_MILLIS }, Reply::Done);
    perform(
        &mut op,
        Action::Transfer { request: encode(7) },
        Reply::Failed { error: UsbError::Pipe },
    );
    perform(&mut op, Action::ReleaseInterface { interface: 2 }, Reply::Done);
    perform(&mut op, Action::Settle { millis: SETTLE_MILLIS }, Reply::Done);
    perform(
        &mut op,
        Action::AttachKernelDriver { interface: 2 },
        Reply::Failed { error: UsbError::Busy },
    );
    perform(&mut op, Action::ResetDevice, Reply::Failed { error: UsbError::Io });
    perform(&mut op, Action::CloseDevice, Reply::Done);
    assert_eq!(
        op.pending(),
        Step::Finish(Err(OperationError::RestoreFailed {
            cause: UsbError::Io,
            transfer: Some(UsbError::Pipe)
        }))
    );
}

#[test]
fn without_a_kernel_driver_nothing_is_restored() {
    let mut op = Operation::new(HEADSET, 0xF400);
    claimed(&mut op, 1, false);
    perform(&mut op, Action::Settle { millis: SETTLE_MILLIS }, Reply::Done);
    perform(&mut op, Action::Transfer { request: encode(0xF400) }, Reply::Done);
    perform(&mut op, Action::ReleaseInterface { interface: 1 }, Reply::Done);
    perform(&mut op, Action::Settle { millis: SETTLE_MILLIS }, Reply::Done);
    perform(&mut op, Action::CloseDevice, Reply::Done);
    assert_eq!(op.pending(), Step::Finish(Ok(OperationOutcome::Success)));
}

#[test]
fn a_failed_release_does_not_count() {
    let mut op = Operation::new(HEADSET, 0xF400);
    claimed(&mut op, 1, false);
    perform(&mut op, Action::Settle { millis: SETTLE_MILLIS }, Reply::Done);
    perform(&mut op, Action::Transfer { request: encode(0xF400) }, Reply::Done);
    perform(
        &mut op,
        Action::ReleaseInterface { interface: 1 },
        Reply::Failed { error: UsbError::NotFound },
    );
    perform(&mut op, Action::Settle { millis: SETTLE_MILLIS }, Reply::Done);
    perform(&mut op, Action::CloseDevice, Reply::Done);
    assert_eq!(op.pending(), Step::Finish(Ok(OperationOutcome::Success)));
}

#[test]
fn failed_transfer_with_clean_restoration() {
    let mut op = Operation::new(HEADSET, 0xF400);
    claimed(&mut op, 0, true);
    perform(&mut op, Action::Settle { millis: SETTLE_MILLIS }, Reply::Done);
    perform(
        &mut op,
        Action::Transfer { request: encode(0xF400) },
        Reply::Failed { error: UsbError::Timeout },
    );
    perform(&mut op, Action::ReleaseInterface { interface: 0 }, Reply::Done);
    perform(&mut op, Action::Settle { millis: SETTLE_MILLIS }, Reply::Done);
    perform(&mut op, Action::AttachKernelDriver { interface: 0 }, Reply::Done);
    perform(&mut op, Action::CloseDevice, Reply::Done);
    assert_eq!(
        op.pending(),
        Step::Finish(Err(OperationError::TransferFailed {
            cause: UsbError::Timeout,
            restore: RestoreOutcome::RestoredClean
        }))
    );
}

#[test]
fn failed_transfer_with_reset() {
    let mut op = Operation::new(HEADSET, 0xF400);
    claimed(&mut op, 0, true);
    perform(&mut op, Action::Settle { millis: SETTLE_MILLIS }, Reply::Done);
    perform(
        &mut op,
        Action::Transfer { request: encode(0xF400) },
        Reply::Failed { error: UsbError::Pipe },
    );
    perform(&mut op, Action::ReleaseInterface { interface: 0 }, Reply::Done);
    perform(&mut op, Action::Settle { millis: SETTLE_MILLIS }, Reply::Done);
    perform(
        &mut op,
        Action::AttachKernelDriver { interface: 0 },
        Reply::Failed { error: UsbError::NotFound },
    );
    perform(&mut op, Action::ResetDevice, Reply::Done);
    perform(&mut op, Action::CloseDevice, Reply::Done);
    assert_eq!(
        op.pending(),
        Step::Finish(Err(OperationError::TransferFailed {
            cause: UsbError::Pipe,
            restore: RestoreOutcome::RestoredViaReset
        }))
    );
}

#[test]
fn failed_claim_after_detach_reattaches_once() {
    let mut op = Operation::new(HEADSET, 0xF400);
    perform(&mut op, Action::ListDevices, Reply::Devices { count: 1 });
    perform(&mut op, Action::ReadDescriptor { device: 0 }, Reply::Descriptor { identity: HEADSET });
    perform(&mut op, Action::OpenDevice { device: 0 }, Reply::Done);
    perform(&mut op, Action::DisableAutoDetach, Reply::Done);
    perform(&mut op, Action::ReadInterface { index: 0 }, Reply::Interface { number: 4 });
    perform(&mut op, Action::QueryKernelDriver { interface: 4 }, Reply::KernelDriver { active: true });
    perform(&mut op, Action::DetachKernelDriver { interface: 4 }, Reply::Done);
    perform(
        &mut op,
        Action::ClaimInterface { interface: 4 },
        Reply::Failed { error: UsbError::Busy },
    );
    perform(&mut op, Action::AttachKernelDriver { interface: 4 }, Reply::Done);
    perform(&mut op, Action::CloseDevice, Reply::Done);
    let end = failure(AcquisitionStep::ClaimInterface, UsbError::Busy);
    assert_eq!(op.pending(), end);
    let finished = op;
    op.advance(Reply::Done);
    assert_eq!(op, finished);
    assert_eq!(op.pending(), end);
    op.advance(Reply::Failed { error: UsbError::Io });
    assert_eq!(op, finished);
    assert_eq!(op.pending(), end);
}

#[test]
fn failed_claim_is_reported_even_if_the_reattach_fails() {
    let mut op = Operation::new(HEADSET, 0xF400);
    op.phase = Phase::Claiming { session: InterfaceSession::new(4, true) };
    perform(
        &mut op,
        Action::ClaimInterface { interface: 4 },
        Reply::Failed { error: UsbError::Access },
    );
    perform(
        &mut op,
        Action::AttachKernelDriver { interface: 4 },
        Reply::Failed { error: UsbError::Io },
    );
    perform(&mut op, Action::CloseDevice, Reply::Done);
    assert_eq!(op.pending(), failure(AcquisitionStep::ClaimInterface, UsbError::Access));
}

#[test]
fn failed_claim_without_detach_ends_at_once() {
    let mut op = Operation::new(HEADSET, 0xF400);
    perform(&mut op, Action::ListDevices, Reply::Devices { count: 1 });
    perform(&mut op, Action::ReadDescriptor { device: 0 }, Reply::Descriptor { identity: HEADSET });
    perform(&mut op, Action::OpenDevice { device: 0 }, Reply::Done);
    perform(&mut op, Action::DisableAutoDetach, Reply::Done);
    perform(&mut op, Action::ReadInterface { index: 0 }, Reply::Interface { number: 0 });
    perform(&mut op, Action::QueryKernelDriver { interface: 0 }, Reply::KernelDriver { active: false });
    perform(
        &mut op,
        Action::ClaimInterface { interface: 0 },
        Reply::Failed { error: UsbError::Busy },
    );
    perform(&mut op, Action::CloseDevice, Reply::Done);
    assert_eq!(op.pending(), failure(AcquisitionStep::ClaimInterface, UsbError::Busy));
}

#[test]
fn failed_detach_ends_the_operation() {
    let mut op = Operation::new(HEADSET, 0xF400);
    perform(&mut op, Action::ListDevices, Reply::Devices { count: 1 });
    perform(&mut op, Action::ReadDescriptor { device: 0 }, Reply::Descriptor { identity: HEADSET });
    perform(&mut op, Action::OpenDevice { device: 0 }, Reply::Done);
    perform(&mut op, Action::DisableAutoDetach, Reply::Done);
    perform(&mut op, Action::ReadInterface { index: 0 }, Reply::Interface { number: 0 });
    perform(&mut op, Action::QueryKernelDriver { interface: 0 }, Reply::KernelDriver { active: true });
    perform(
        &mut op,
        Action::DetachKernelDriver { interface: 0 },
        Reply::Failed { error: UsbError::Access },
    );
    perform(&mut op, Action::CloseDevice, Reply::Done);
    assert_eq!(op.pending(), failure(AcquisitionStep::DetachKernelDriver, UsbError::Access));
}

#[test]
fn failed_query_ends_the_operation() {
    let mut op = Operation::new(HEADSET, 0xF400);
    op.phase = Phase::QueryingKernelDriver { interface: 0 };
    perform(
        &mut op,
        Action::QueryKernelDriver { interface: 0 },
        Reply::Failed { error: UsbError::NoDevice },
    );
    perform(&mut op, Action::CloseDevice, Reply::Done);
    assert_eq!(op.pending(), failure(AcquisitionStep::QueryKernelDriver, UsbError::NoDevice));
}

#[test]
fn failed_configuration_read_ends_the_operation() {
    let mut op = Operation::new(HEADSET, 0xF400);
    op.phase = Phase::ReadingInterface;
    perform(
        &mut op,
        Action::ReadInterface { index: 0 },
        Reply::Failed { error: UsbError::BadDescriptor },
    );
    perform(&mut op, Action::CloseDevice, Reply::Done);
    assert_eq!(op.pending(), failure(AcquisitionStep::ReadConfiguration, UsbError::BadDescriptor));
}

#[test]
fn failed_auto_detach_switch_ends_the_operation() {
    let mut op = Operation::new(HEADSET, 0xF400);
    op.phase = Phase::DisablingAutoDetach;
    perform(&mut op, Action::DisableAutoDetach, Reply::Failed { error: UsbError::NotSupported });
    perform(&mut op, Action::CloseDevice, Reply::Done);
    assert_eq!(op.pending(), failure(AcquisitionStep::DisableAutoDetach, UsbError::NotSupported));
}

#[test]
fn no_devices_means_not_found() {
    let mut op = Operation::new(HEADSET, 0xF400);
    perform(&mut op, Action::ListDevices, Reply::Devices { count: 0 });
    assert_eq!(op.pending(), Step::Finish(Err(OperationError::DeviceNotFound)));
}

#[test]
fn unlistable_devices_mean_not_found() {
    let mut op = Operation::new(HEADSET, 0xF400);
    perform(&mut op, Action::ListDevices, Reply::Failed { error: UsbError::Io });
    assert_eq!(op.pending(), Step::Finish(Err(OperationError::DeviceNotFound)));
}

#[test]
fn search_without_match_only_reads_descriptors() {
    let mut op = Operation::new(HEADSET, 0xF400);
    perform(&mut op, Action::ListDevices, Reply::Devices { count: 3 });
    perform(&mut op, Action::ReadDescriptor { device: 0 }, Reply::Descriptor { identity: OTHER });
    perform(&mut op, Action::ReadDescriptor { device: 1 }, Reply::Failed { error: UsbError::Access });
    perform(&mut op, Action::ReadDescriptor { device: 2 }, Reply::Descriptor { identity: OTHER });
    assert_eq!(op.pending(), Step::Finish(Err(OperationError::DeviceNotFound)));
}

#[test]
fn search_goes_on_after_a_failed_open() {
    let mut op = Operation::new(HEADSET, 0xF400);
    perform(&mut op, Action::ListDevices, Reply::Devices { count: 3 });
    perform(&mut op, Action::ReadDescriptor { device: 0 }, Reply::Descriptor { identity: HEADSET });
    perform(&mut op, Action::OpenDevice { device: 0 }, Reply::Failed { error: UsbError::Access });
    perform(&mut op, Action::ReadDescriptor { device: 1 }, Reply::Descriptor { identity: OTHER });
    perform(&mut op, Action::ReadDescriptor { device: 2 }, Reply::Descriptor { identity: HEADSET });
    perform(&mut op, Action::OpenDevice { device: 2 }, Reply::Done);
    assert_eq!(op.pending(), Step::Perform(Action::DisableAutoDetach));
}

#[test]
fn search_ends_when_the_last_match_does_not_open() {
    let mut op = Operation::new(HEADSET, 0xF400);
    perform(&mut op, Action::ListDevices, Reply::Devices { count: 2 });
    perform(&mut op, Action::ReadDescriptor { device: 0 }, Reply::Descriptor { identity: OTHER });
    perform(&mut op, Action::ReadDescriptor { device: 1 }, Reply::Descriptor { identity: HEADSET });
    perform(&mut op, Action::OpenDevice { device: 1 }, Reply::Failed { error: UsbError::Busy });
    assert_eq!(op.pending(), Step::Finish(Err(OperationError::DeviceNotFound)));
}

#[test]
fn a_reply_of_the_wrong_kind_counts_as_a_failure() {
    let mut op = Operation::new(HEADSET, 0xF400);
    op.phase = Phase::ReadingInterface;
    op.advance(Reply::Done);
    perform(&mut op, Action::CloseDevice, Reply::Done);
    assert_eq!(op.pending(), failure(AcquisitionStep::ReadConfiguration, UsbError::Other));

    let mut op = Operation::new(HEADSET, 0xF400);
    op.phase = Phase::DisablingAutoDetach;
    op.advance(Reply::KernelDriver { active: true });
    perform(&mut op, Action::CloseDevice, Reply::Done);
    assert_eq!(op.pending(), failure(AcquisitionStep::DisableAutoDetach, UsbError::Other));

    let mut op = Operation::new(HEADSET, 0xF400);
    op.advance(Reply::Done);
    assert_eq!(op.pending(), Step::Finish(Err(OperationError::DeviceNotFound)));
}

#[test]
fn completion_reads_a_reply() {
    assert_eq!(completion(Reply::Done), Ok(()));
    assert_eq!(completion(Reply::Failed { error: UsbError::Pipe }), Err(UsbError::Pipe));
    assert_eq!(completion(Reply::Devices { count: 2 }), Err(UsbError::Other));
    assert_eq!(completion(Reply::Interface { number: 0 }), Err(UsbError::Other));
}

#[test]
fn every_pause_is_shorter_than_ten_milliseconds() {
    assert!(SETTLE_MILLIS < 10);
    let mut op = Operation::new(HEADSET, 1);
    claimed(&mut op, 0, false);
    match op.pending() {
        Step::Perform(Action::Settle { millis }) => assert!(millis < 10),
        other => panic!("expected a pause, got {:?}", other),
    }
}

#[test]
fn the_session_records_the_claim() {
    let mut op = Operation::new(HEADSET, 1);
    claimed(&mut op, 5, true);
    assert_eq!(
        op.phase,
        Phase::SettlingAfterClaim {
            session: InterfaceSession {
                interface_number: 5,
                kernel_driver_was_attached: true,
                claimed: true,
            }
        }
    );
    op.advance(Reply::Done);
    op.advance(Reply::Done);
    op.advance(Reply::Done);
    assert_eq!(
        op.phase,
        Phase::SettlingAfterRelease {
            session: InterfaceSession {
                interface_number: 5,
                kernel_driver_was_attached: true,
                claimed: false,
            },
            transfer: Ok(()),
        }
    );
}

#[test]
fn session_starts_unclaimed() {
    let session = InterfaceSession::new(9, true);
    assert_eq!(
        session,
        InterfaceSession { interface_number: 9, kernel_driver_was_attached: true, claimed: false }
    );
    assert!(session.with_claim(true).claimed);
    assert!(!session.with_claim(true).with_claim(false).claimed);
    assert_eq!(session.with_claim(true).interface_number, 9);
    assert!(session.with_claim(true).kernel_driver_was_attached);
}

#[test]
fn search_stops_where_the_list_ends() {
    let mut op = Operation::new(HEADSET, 0);
    op.phase = Phase::Probing { device: 5, count: 2 };
    perform(&mut op, Action::ReadDescriptor { device: 5 }, Reply::Descriptor { identity: OTHER });
    assert_eq!(op.pending(), Step::Finish(Err(OperationError::DeviceNotFound)));

    let mut op = Operation::new(HEADSET, 0);
    op.phase = Phase::Opening { device: usize::MAX, count: usize::MAX };
    perform(
        &mut op,
        Action::OpenDevice { device: usize::MAX },
        Reply::Failed { error: UsbError::Access },
    );
    assert_eq!(op.pending(), Step::Finish(Err(OperationError::DeviceNotFound)));

    let mut op = Operation::new(HEADSET, 0);
    op.phase = Phase::Probing { device: usize::MAX - 1, count: usize::MAX };
    perform(
        &mut op,
        Action::ReadDescriptor { device: usize::MAX - 1 },
        Reply::Failed { error: UsbError::Io },
    );
    assert_eq!(op.pending(), Step::Finish(Err(OperationError::DeviceNotFound)));
}

#[test]
fn the_reply_to_a_pause_is_not_looked_at() {
    let mut op = Operation::new(HEADSET, 0xF400);
    claimed(&mut op, 0, false);
    perform(
        &mut op,
        Action::Settle { millis: SETTLE_MILLIS },
        Reply::Failed { error: UsbError::Interrupted },
    );
    perform(&mut op, Action::Transfer { request: encode(0xF400) }, Reply::Done);
    perform(&mut op, Action::ReleaseInterface { interface: 0 }, Reply::Done);
    perform(
        &mut op,
        Action::Settle { millis: SETTLE_MILLIS },
        Reply::KernelDriver { active: true },
    );
    perform(&mut op, Action::CloseDevice, Reply::Failed { error: UsbError::Io });
    assert_eq!(op.pending(), Step::Finish(Ok(OperationOutcome::Success)));
}
