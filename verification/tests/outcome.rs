use sidetone::outcome::{
    final_outcome, OperationError, OperationOutcome, RestoreOutcome, UsbError,
};

#[test]
fn written_and_restored_cleanly_is_a_success() {
    assert_eq!(
        final_outcome(Ok(()), RestoreOutcome::RestoredClean),
        Ok(OperationOutcome::Success)
    );
}

#[test]
fn written_and_reset_is_a_qualified_success() {
    assert_eq!(
        final_outcome(Ok(()), RestoreOutcome::RestoredViaReset),
        Ok(OperationOutcome::RestoreDegraded)
    );
}

#[test]
fn failed_transfer_is_reported_with_a_clean_restoration() {
    assert_eq!(
        final_outcome(Err(UsbError::Pipe), RestoreOutcome::RestoredClean),
        Err(OperationError::TransferFailed {
            cause: UsbError::Pipe,
            restore: RestoreOutcome::RestoredClean
        })
    );
}

#[test]
fn failed_transfer_is_reported_with_a_reset() {
    assert_eq!(
        final_outcome(Err(UsbError::Timeout), RestoreOutcome::RestoredViaReset),
        Err(OperationError::TransferFailed {
            cause: UsbError::Timeout,
            restore: RestoreOutcome::RestoredViaReset
        })
    );
}

#[test]
fn failed_restoration_overrides_a_written_setting() {
    assert_eq!(
        final_outcome(Ok(()), RestoreOutcome::RestoredFailed(UsbError::NoDevice)),
        Err(OperationError::RestoreFailed { cause: UsbError::NoDevice, transfer: None })
    );
}

#[test]
fn failed_restoration_overrides_a_failed_transfer() {
    assert_eq!(
        final_outcome(Err(UsbError::Pipe), RestoreOutcome::RestoredFailed(UsbError::Io)),
        Err(OperationError::RestoreFailed { cause: UsbError::Io, transfer: Some(UsbError::Pipe) })
    );
}

#[test]
fn outcome_tells_its_terminal_state() {
    assert_eq!(OperationOutcome::Success.terminal_state(), RestoreOutcome::RestoredClean);
    assert_eq!(
        OperationOutcome::RestoreDegraded.terminal_state(),
        RestoreOutcome::RestoredViaReset
    );
    assert!(!OperationOutcome::Success.is_qualified());
    assert!(OperationOutcome::RestoreDegraded.is_qualified());
}
