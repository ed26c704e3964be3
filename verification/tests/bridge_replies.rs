use asset_service::control::{
    bridge_result, status_report, ControlEvent, ControlResult, ControlSignal, ReplySlot,
    DELIVERY_FAILED_CODE, REPLY_LOST_CODE,
};

#[test]
fn written_reply_is_passed_through() {
    assert_eq!(
        bridge_result(true, Some(ControlResult::NoError)),
        ControlResult::NoError
    );
    assert_eq!(
        bridge_result(true, Some(ControlResult::NotImplemented)),
        ControlResult::NotImplemented
    );
    assert_eq!(
        bridge_result(true, Some(ControlResult::Other(42))),
        ControlResult::Other(42)
    );
}

#[test]
fn failed_delivery_is_a_distinguished_error() {
    let r = bridge_result(false, None);
    assert_eq!(r, ControlResult::Other(DELIVERY_FAILED_CODE));
    assert_ne!(DELIVERY_FAILED_CODE, 0);
}

#[test]
fn lost_reply_is_a_distinguished_error() {
    let r = bridge_result(true, None);
    assert_eq!(r, ControlResult::Other(REPLY_LOST_CODE));
    assert_ne!(REPLY_LOST_CODE, 0);
    assert_ne!(REPLY_LOST_CODE, DELIVERY_FAILED_CODE);
}

#[test]
fn status_reports_match_the_lifecycle_phase() {
    let up = status_report(true);
    assert!(up.running);
    assert!(up.accepts_stop);
    assert_eq!(up.exit_code, 0);
    let down = status_report(false);
    assert!(!down.running);
    assert!(!down.accepts_stop);
    assert_eq!(down.exit_code, 0);
}

#[test]
fn reply_slot_is_written_once() {
    let slot = ReplySlot::new();
    assert_eq!(slot.written, None);
    let slot = slot.write(ControlResult::NoError);
    assert_eq!(slot.written, Some(ControlResult::NoError));
}

#[test]
fn fresh_event_carries_an_unwritten_slot() {
    let event = ControlEvent::new(ControlSignal::Stop);
    assert_eq!(event.signal, ControlSignal::Stop);
    assert_eq!(event.reply.written, None);
}
