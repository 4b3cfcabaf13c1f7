use tvoice::recorder::{
    classify_key_event, tap_disposition, ControlMessage, RecorderAction, RecorderController,
    RecorderEvent, RecorderState, TapDisposition, CONTROL_KEYCODE, FLAG_ALTERNATE, FLAG_COMMAND,
    FLAG_CONTROL, FLAG_SECONDARY_FN, FLAG_SHIFT, RIGHT_CONTROL_KEYCODE,
};

#[test]
fn bare_control_starts_and_stops() {
    assert_eq!(
        classify_key_event(CONTROL_KEYCODE, FLAG_CONTROL, true),
        Some(ControlMessage::StartRecording)
    );
    assert_eq!(
        classify_key_event(RIGHT_CONTROL_KEYCODE, FLAG_CONTROL | 0x100, true),
        Some(ControlMessage::StartRecording)
    );
    assert_eq!(classify_key_event(CONTROL_KEYCODE, 0, true), Some(ControlMessage::StopRecording));
    assert_eq!(classify_key_event(0x3B, 0, true), Some(ControlMessage::StopRecording));
    assert_eq!(classify_key_event(0x3E, 0x4_0000, true), Some(ControlMessage::StartRecording));
}

#[test]
fn combos_and_other_keys_pass_through() {
    for m in [FLAG_SHIFT, FLAG_ALTERNATE, FLAG_COMMAND, FLAG_SECONDARY_FN] {
        assert_eq!(classify_key_event(CONTROL_KEYCODE, FLAG_CONTROL | m, true), None);
        assert_eq!(classify_key_event(CONTROL_KEYCODE, m, true), None);
    }
    assert_eq!(classify_key_event(0x38, FLAG_CONTROL, true), None);
    assert_eq!(classify_key_event(CONTROL_KEYCODE, FLAG_CONTROL, false), None);
}

#[test]
fn sent_messages_are_swallowed() {
    assert_eq!(tap_disposition(true), TapDisposition::Drop);
    assert_eq!(tap_disposition(false), TapDisposition::Keep);
}

fn start(c: &mut RecorderController) -> RecorderAction {
    c.handle(RecorderEvent::Control(ControlMessage::StartRecording))
}

fn stop(c: &mut RecorderController) -> RecorderAction {
    c.handle(RecorderEvent::Control(ControlMessage::StopRecording))
}

#[test]
fn press_start_release_round_trip() {
    let mut c = RecorderController::new();
    assert_eq!(c.state, RecorderState::Idle);
    assert_eq!(start(&mut c), RecorderAction::StartSession);
    assert_eq!(c.state, RecorderState::Starting);
    assert_eq!(c.handle(RecorderEvent::StartFinished { succeeded: true }), RecorderAction::Ignore);
    assert_eq!(c.state, RecorderState::Recording);
    assert_eq!(start(&mut c), RecorderAction::Ignore);
    assert_eq!(stop(&mut c), RecorderAction::StopSession);
    assert_eq!(c.handle(RecorderEvent::StopFinished { succeeded: true }), RecorderAction::SendClip);
    assert_eq!(
        c.handle(RecorderEvent::ClipHandedOff { delivered: true }),
        RecorderAction::Ignore
    );
    assert_eq!(c.state, RecorderState::Idle);
    assert_eq!(stop(&mut c), RecorderAction::Ignore);
}

#[test]
fn failed_start_stays_idle() {
    let mut c = RecorderController::new();
    assert_eq!(start(&mut c), RecorderAction::StartSession);
    c.handle(RecorderEvent::StartFinished { succeeded: false });
    assert_eq!(c.state, RecorderState::Idle);
    assert_eq!(stop(&mut c), RecorderAction::Ignore);
    assert_eq!(start(&mut c), RecorderAction::StartSession);
}

#[test]
fn failed_stop_sends_no_clip() {
    let mut c = RecorderController::new();
    start(&mut c);
    c.handle(RecorderEvent::StartFinished { succeeded: true });
    assert_eq!(stop(&mut c), RecorderAction::StopSession);
    assert_eq!(c.handle(RecorderEvent::StopFinished { succeeded: false }), RecorderAction::Ignore);
    assert_eq!(c.state, RecorderState::Idle);
}

#[test]
fn undelivered_clip_ends_the_controller() {
    let mut c = RecorderController::new();
    start(&mut c);
    c.handle(RecorderEvent::StartFinished { succeeded: true });
    stop(&mut c);
    c.handle(RecorderEvent::StopFinished { succeeded: true });
    assert_eq!(c.handle(RecorderEvent::ClipHandedOff { delivered: false }), RecorderAction::Exit);
    assert_eq!(c.state, RecorderState::Finished);
    assert_eq!(start(&mut c), RecorderAction::Ignore);
    assert_eq!(c.handle(RecorderEvent::Disconnected), RecorderAction::Ignore);
}

#[test]
fn closed_channel_ends_the_controller() {
    let mut c = RecorderController::new();
    assert_eq!(c.handle(RecorderEvent::Disconnected), RecorderAction::Exit);
    assert_eq!(c.state, RecorderState::Finished);
    let mut r = RecorderController::new();
    start(&mut r);
    r.handle(RecorderEvent::StartFinished { succeeded: true });
    assert_eq!(r.handle(RecorderEvent::Disconnected), RecorderAction::Exit);
}
