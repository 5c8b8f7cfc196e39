//! Deferred output commands.

use benchvolt_poc::app::{Action, AppState, ChannelSnapshot, Fault, OutputTransition};
use benchvolt_poc::usb_output::{Admission, OutputTransaction, RequestResult};

fn output() -> ChannelSnapshot {
    AppState::new(false, None).channels[0]
}

#[test]
fn admission_preserves_busy_and_same_channel_cancel_ordering() {
    let mut transaction = OutputTransaction::new();
    let mut channel = output();
    channel.operation = 7;
    channel.requested_enabled = true;
    channel.transition = OutputTransition::Enabling(7);
    assert_eq!(
        transaction.record_request(2, true, &channel),
        RequestResult::Pending
    );

    assert_eq!(
        transaction.begin_request(2, true, true, false),
        Admission::Busy
    );
    assert_eq!(
        transaction.begin_request(1, false, false, false),
        Admission::Busy
    );
    assert_eq!(
        transaction.begin_request(2, false, true, true),
        Admission::ProceedAfterCancellation
    );
    assert!(!transaction.cancel_if_idle(false));
}

#[test]
fn reducer_result_is_classified_as_pending_success_or_fault() {
    let mut transaction = OutputTransaction::new();
    let mut channel = output();
    channel.operation = 11;
    channel.requested_enabled = true;
    channel.transition = OutputTransition::Enabling(11);
    assert_eq!(
        transaction.record_request(0, true, &channel),
        RequestResult::Pending
    );

    let mut enabled = output();
    enabled.requested_enabled = true;
    enabled.physical_enabled = true;
    assert_eq!(
        OutputTransaction::new().record_request(0, true, &enabled),
        RequestResult::Complete(Ok(()))
    );

    let mut failed = output();
    failed.fault = Fault::OverCurrent;
    assert_eq!(
        OutputTransaction::new().record_request(0, true, &failed),
        RequestResult::Complete(Err(Fault::OverCurrent))
    );

    failed.fault = Fault::Hardware;
    assert_eq!(
        OutputTransaction::new().record_request(0, false, &failed),
        RequestResult::Complete(Ok(()))
    );

    failed.requested_enabled = true;
    assert_eq!(
        OutputTransaction::new().record_request(0, false, &failed),
        RequestResult::Complete(Err(Fault::Hardware))
    );
}

#[test]
fn only_the_exact_operation_completion_gets_the_deferred_reply() {
    let mut transaction = OutputTransaction::new();
    let mut channel = output();
    channel.operation = 19;
    channel.requested_enabled = false;
    channel.physical_enabled = true;
    channel.transition = OutputTransition::Disabling(19);
    assert_eq!(
        transaction.record_request(4, false, &channel),
        RequestResult::Pending
    );

    assert_eq!(
        transaction.observe_completion(&Action::OutputApplied {
            channel: 3,
            operation: 19,
            enabled: false,
        }),
        None
    );
    assert!(!transaction.cancel_if_idle(true));
    assert_eq!(
        transaction.observe_completion(&Action::OutputFailed {
            channel: 4,
            operation: 19,
            fault: Fault::Hardware,
        }),
        Some(Err(Fault::Hardware))
    );
    assert!(!transaction.cancel_if_idle(false));
}

#[test]
fn matching_success_wins_over_idle_cancellation() {
    let mut transaction = OutputTransaction::new();
    let mut channel = output();
    channel.operation = 23;
    channel.requested_enabled = true;
    channel.transition = OutputTransition::Enabling(23);
    transaction.record_request(1, true, &channel);

    assert_eq!(
        transaction.observe_completion(&Action::OutputApplied {
            channel: 1,
            operation: 23,
            enabled: true,
        }),
        Some(Ok(()))
    );
    assert!(!transaction.cancel_if_idle(false));
    assert_eq!(
        transaction.observe_completion(&Action::OutputApplied {
            channel: 1,
            operation: 23,
            enabled: true,
        }),
        None
    );
}

#[test]
fn an_idle_executor_cancels_an_orphaned_request_once() {
    let mut transaction = OutputTransaction::new();
    let mut channel = output();
    channel.operation = 3;
    channel.requested_enabled = true;
    channel.transition = OutputTransition::Enabling(3);
    transaction.record_request(0, true, &channel);

    assert!(transaction.cancel_if_idle(false));
    assert!(!transaction.cancel_if_idle(false));
}
