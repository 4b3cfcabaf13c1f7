use vstd::prelude::*;

verus! {

/// The key code of the left Control key.
pub const CONTROL_KEYCODE: u16 = 0x3B;

/// The key code of the right Control key.
pub const RIGHT_CONTROL_KEYCODE: u16 = 0x3E;

/// The Shift bit of a keyboard event's modifier flags.
pub const FLAG_SHIFT: u64 = 0x0002_0000;

/// The Control bit of a keyboard event's modifier flags.
pub const FLAG_CONTROL: u64 = 0x0004_0000;

/// The Option (Alternate) bit of a keyboard event's modifier flags.
pub const FLAG_ALTERNATE: u64 = 0x0008_0000;

/// The Command bit of a keyboard event's modifier flags.
pub const FLAG_COMMAND: u64 = 0x0010_0000;

/// The secondary Fn bit of a keyboard event's modifier flags.
pub const FLAG_SECONDARY_FN: u64 = 0x0080_0000;

/// The modifiers that make a Control press part of a shortcut rather than a
/// push-to-talk press.
pub const BLOCKED_MODIFIERS: u64 = FLAG_COMMAND | FLAG_ALTERNATE | FLAG_SHIFT | FLAG_SECONDARY_FN;

/// What the recording controller is told by the key tap.
#[derive(Clone, Copy, Debug, PartialEq, Eq, Structural)]
pub enum ControlMessage {
    StartRecording,
    StopRecording,
}

/// What the key tap does with the event it saw.
#[derive(Clone, Copy, Debug, PartialEq, Eq, Structural)]
pub enum TapDisposition {
    /// Let the event through to other applications.
    Keep,
    /// Swallow the event.
    Drop,
}

/// The message a modifier-change event stands for: only a bare Control key,
/// left or right, counts; Control held down starts, Control let go stops.
pub open spec fn control_message_for(keycode: u16, flags: u64, is_flags_changed: bool) -> Option<
    ControlMessage,
> {
    if keycode != CONTROL_KEYCODE && keycode != RIGHT_CONTROL_KEYCODE {
        None
    } else if flags & BLOCKED_MODIFIERS != 0 {
        None
    } else if !is_flags_changed {
        None
    } else if flags & FLAG_CONTROL == FLAG_CONTROL {
        Some(ControlMessage::StartRecording)
    } else {
        Some(ControlMessage::StopRecording)
    }
}

/// The message that a keyboard event with this key code and these modifier
/// flags stands for, if any. `is_flags_changed` tells whether the event is a
/// change of modifiers.
pub fn classify_key_event(keycode: u16, flags: u64, is_flags_changed: bool) -> (r: Option<
    ControlMessage,
>)
    ensures
        r == control_message_for(keycode, flags, is_flags_changed),
{
    if keycode != CONTROL_KEYCODE && keycode != RIGHT_CONTROL_KEYCODE {
        return None;
    }
    if flags & BLOCKED_MODIFIERS != 0 {
        return None;
    }
    if !is_flags_changed {
        return None;
    }
    if flags & FLAG_CONTROL == FLAG_CONTROL {
        Some(ControlMessage::StartRecording)
    } else {
        Some(ControlMessage::StopRecording)
    }
}

/// An event that stood for a message is swallowed once the message was handed
/// on, and let through where it could not be.
pub fn tap_disposition(message_sent: bool) -> (r: TapDisposition)
    ensures
        r == (if message_sent {
            TapDisposition::Drop
        } else {
            TapDisposition::Keep
        }),
{
    if message_sent {
        TapDisposition::Drop
    } else {
        TapDisposition::Keep
    }
}

/// A key other than Control never starts or stops a recording, and neither does
/// Control pressed together with Shift, Option, Command or Fn: shortcuts such as
/// Control-C pass through untouched.
pub proof fn law_only_bare_control_records(keycode: u16, flags: u64, is_flags_changed: bool)
    requires
        keycode != CONTROL_KEYCODE && keycode != RIGHT_CONTROL_KEYCODE || flags & FLAG_SHIFT != 0
            || flags & FLAG_ALTERNATE != 0 || flags & FLAG_COMMAND != 0 || flags
            & FLAG_SECONDARY_FN != 0,
    ensures
        control_message_for(keycode, flags, is_flags_changed) is None,
{
    assert(flags & 0x0002_0000u64 != 0 || flags & 0x0008_0000u64 != 0 || flags & 0x0010_0000u64
        != 0 || flags & 0x0080_0000u64 != 0 ==> flags & 0x009A_0000u64 != 0) by (bit_vector);
    assert(BLOCKED_MODIFIERS == 0x009A_0000u64) by (bit_vector);
}

/// A bare Control key held down starts a recording and let go stops it, for
/// either Control key.
pub proof fn law_bare_control_starts_and_stops(keycode: u16, flags: u64)
    requires
        keycode == CONTROL_KEYCODE || keycode == RIGHT_CONTROL_KEYCODE,
        flags & BLOCKED_MODIFIERS == 0,
    ensures
        flags & FLAG_CONTROL != 0 ==> control_message_for(keycode, flags, true) == Some(
            ControlMessage::StartRecording,
        ),
        flags & FLAG_CONTROL == 0 ==> control_message_for(keycode, flags, true) == Some(
            ControlMessage::StopRecording,
        ),
{
    assert(flags & 0x0004_0000u64 != 0 <==> flags & 0x0004_0000u64 == 0x0004_0000u64)
        by (bit_vector);
}

/// Where the recording controller stands.
#[derive(Clone, Copy, Debug, PartialEq, Eq, Structural)]
pub enum RecorderState {
    /// No recording; waiting for Control.
    Idle,
    /// A recording was asked to start; waiting for how that went.
    Starting,
    /// A recording is under way.
    Recording,
    /// The recording was asked to stop; waiting for how that went.
    Stopping,
    /// A clip was asked to be handed on; waiting for whether it was.
    HandingOff,
    /// The controller has ended; nothing more is done.
    Finished,
}

/// What the controller is told: a message from the key tap, the end of the
/// key tap's channel, or how the work it asked for went.
#[derive(Clone, Copy, Debug, PartialEq, Eq, Structural)]
pub enum RecorderEvent {
    Control(ControlMessage),
    Disconnected,
    StartFinished { succeeded: bool },
    StopFinished { succeeded: bool },
    ClipHandedOff { delivered: bool },
}

/// What the controller asks to be done.
#[derive(Clone, Copy, Debug, PartialEq, Eq, Structural)]
pub enum RecorderAction {
    /// Open the microphone and start a recording, then report how it went.
    StartSession,
    /// Stop the recording under way, then report how it went.
    StopSession,
    /// Hand the clip of the recording just stopped on for transcription, then
    /// report whether it was taken.
    SendClip,
    /// End the controller.
    Exit,
    /// Nothing.
    Ignore,
}

/// Whether a recording session is open in this state.
pub open spec fn session_open(state: RecorderState) -> bool {
    state == RecorderState::Recording
}

/// The controller's rule: a start is asked for only when idle, a stop only
/// while recording; a stop ends the recording however it went, and the clip of
/// a recording that stopped well is handed on; a failed start leaves the
/// controller idle; the controller ends when the key tap's channel closes or a
/// clip cannot be handed on, and once ended does nothing more.
pub open spec fn recorder_step(state: RecorderState, event: RecorderEvent) -> (
    RecorderState,
    RecorderAction,
) {
    if state == RecorderState::Finished {
        (RecorderState::Finished, RecorderAction::Ignore)
    } else {
        match event {
            RecorderEvent::Disconnected => (RecorderState::Finished, RecorderAction::Exit),
            RecorderEvent::Control(ControlMessage::StartRecording) => {
                if state == RecorderState::Idle {
                    (RecorderState::Starting, RecorderAction::StartSession)
                } else {
                    (state, RecorderAction::Ignore)
                }
            },
            RecorderEvent::Control(ControlMessage::StopRecording) => {
                if state == RecorderState::Recording {
                    (RecorderState::Stopping, RecorderAction::StopSession)
                } else {
                    (state, RecorderAction::Ignore)
                }
            },
            RecorderEvent::StartFinished { succeeded } => {
                if state == RecorderState::Starting {
                    if succeeded {
                        (RecorderState::Recording, RecorderAction::Ignore)
                    } else {
                        (RecorderState::Idle, RecorderAction::Ignore)
                    }
                } else {
                    (state, RecorderAction::Ignore)
                }
            },
            RecorderEvent::StopFinished { succeeded } => {
                if state == RecorderState::Stopping {
                    if succeeded {
                        (RecorderState::HandingOff, RecorderAction::SendClip)
                    } else {
                        (RecorderState::Idle, RecorderAction::Ignore)
                    }
                } else {
                    (state, RecorderAction::Ignore)
                }
            },
            RecorderEvent::ClipHandedOff { delivered } => {
                if state == RecorderState::HandingOff {
                    if delivered {
                        (RecorderState::Idle, RecorderAction::Ignore)
                    } else {
                        (RecorderState::Finished, RecorderAction::Exit)
                    }
                } else {
                    (state, RecorderAction::Ignore)
                }
            },
        }
    }
}

/// The push-to-talk recording controller.
pub struct RecorderController {
    pub state: RecorderState,
}

impl RecorderController {
    /// A controller with no recording under way.
    pub fn new() -> (r: Self)
        ensures
            r.state == RecorderState::Idle,
    {
        RecorderController { state: RecorderState::Idle }
    }

    /// Takes an event and says what to do next.
    pub fn handle(&mut self, event: RecorderEvent) -> (r: RecorderAction)
        ensures
            (final(self).state, r) == recorder_step(old(self).state, event),
    {
        let state = self.state;
        let (next, action) = match state {
            RecorderState::Finished => (RecorderState::Finished, RecorderAction::Ignore),
            _ => match event {
                RecorderEvent::Disconnected => (RecorderState::Finished, RecorderAction::Exit),
                RecorderEvent::Control(ControlMessage::StartRecording) => match state {
                    RecorderState::Idle => (RecorderState::Starting, RecorderAction::StartSession),
                    _ => (state, RecorderAction::Ignore),
                },
                RecorderEvent::Control(ControlMessage::StopRecording) => match state {
                    RecorderState::Recording => (
                        RecorderState::Stopping,
                        RecorderAction::StopSession,
                    ),
                    _ => (state, RecorderAction::Ignore),
                },
                RecorderEvent::StartFinished { succeeded } => match state {
                    RecorderState::Starting => {
                        if succeeded {
                            (RecorderState::Recording, RecorderAction::Ignore)
                        } else {
                            (RecorderState::Idle, RecorderAction::Ignore)
                        }
                    },
                    _ => (state, RecorderAction::Ignore),
                },
                RecorderEvent::StopFinished { succeeded } => match state {
                    RecorderState::Stopping => {
                        if succeeded {
                            (RecorderState::HandingOff, RecorderAction::SendClip)
                        } else {
                            (RecorderState::Idle, RecorderAction::Ignore)
                        }
                    },
                    _ => (state, RecorderAction::Ignore),
                },
                RecorderEvent::ClipHandedOff { delivered } => match state {
                    RecorderState::HandingOff => {
                        if delivered {
                            (RecorderState::Idle, RecorderAction::Ignore)
                        } else {
                            (RecorderState::Finished, RecorderAction::Exit)
                        }
                    },
                    _ => (state, RecorderAction::Ignore),
                },
            },
        };
        self.state = next;
        action
    }
}

/// The states and actions of a controller that starts idle and is given
/// `events` in order, one action for each event.
pub open spec fn recorder_run(events: Seq<RecorderEvent>) -> (RecorderState, Seq<RecorderAction>)
    decreases events.len(),
{
    if events.len() == 0 {
        (RecorderState::Idle, Seq::empty())
    } else {
        let (state, actions) = recorder_run(events.drop_last());
        let (next, action) = recorder_step(state, events.last());
        (next, actions.push(action))
    }
}

/// The number of times `action` occurs in `actions`.
pub open spec fn count_action(actions: Seq<RecorderAction>, action: RecorderAction) -> nat
    decreases actions.len(),
{
    if actions.len() == 0 {
        0
    } else {
        count_action(actions.drop_last(), action) + if actions.last() == action {
            1nat
        } else {
            0nat
        }
    }
}

/// A start is asked for only from idle, on a press of Control: while a recording
/// is under way, or one is starting or stopping, no second one is started.
pub proof fn law_start_only_when_idle(state: RecorderState, event: RecorderEvent)
    ensures
        recorder_step(state, event).1 == RecorderAction::StartSession ==> state
            == RecorderState::Idle && event == RecorderEvent::Control(
            ControlMessage::StartRecording,
        ),
        recorder_step(state, event).0 == RecorderState::Recording ==> state
            == RecorderState::Recording || state == RecorderState::Starting,
{
}

/// A stop is asked for only while recording, on a release of Control, and a
/// release while recording always ends the session.
pub proof fn law_stop_only_when_recording(state: RecorderState, event: RecorderEvent)
    ensures
        recorder_step(state, event).1 == RecorderAction::StopSession ==> state
            == RecorderState::Recording && event == RecorderEvent::Control(
            ControlMessage::StopRecording,
        ),
        state == RecorderState::Recording ==> !session_open(
            recorder_step(state, RecorderEvent::Control(ControlMessage::StopRecording)).0,
        ),
{
}

/// The controller ends exactly when the key tap's channel closes or a clip
/// cannot be handed on, and once ended it does nothing more.
pub proof fn law_exit_rule(state: RecorderState, event: RecorderEvent)
    ensures
        recorder_step(state, event).1 == RecorderAction::Exit <==> state != RecorderState::Finished
            && (event == RecorderEvent::Disconnected || state == RecorderState::HandingOff && event
            == (RecorderEvent::ClipHandedOff { delivered: false })),
        recorder_step(state, event).1 == RecorderAction::Exit ==> recorder_step(state, event).0
            == RecorderState::Finished,
        recorder_step(RecorderState::Finished, event) == (
            RecorderState::Finished,
            RecorderAction::Ignore,
        ),
{
}

proof fn lemma_run_len(events: Seq<RecorderEvent>)
    ensures
        recorder_run(events).1.len() == events.len(),
    decreases events.len(),
{
    if events.len() > 0 {
        lemma_run_len(events.drop_last());
    }
}

proof fn lemma_run_prefix(events: Seq<RecorderEvent>, k: int)
    requires
        0 <= k <= events.len(),
    ensures
        recorder_run(events).1.take(k) == recorder_run(events.take(k)).1,
        k < events.len() ==> recorder_run(events).1[k] == recorder_step(
            recorder_run(events.take(k)).0,
            events[k],
        ).1,
    decreases events.len(),
{
    lemma_run_len(events);
    if k == events.len() {
        assert(events.take(k) =~= events);
        assert(recorder_run(events).1.take(k) =~= recorder_run(events).1);
    } else {
        lemma_run_prefix(events.drop_last(), k);
        lemma_run_len(events.drop_last());
        assert(events.drop_last().take(k) =~= events.take(k));
        assert(recorder_run(events).1.take(k) =~= recorder_run(events.drop_last()).1.take(k));
        if k == events.len() - 1 {
            assert(events.drop_last() =~= events.take(k));
        } else {
            assert(recorder_run(events).1[k] == recorder_run(events.drop_last()).1[k]);
            assert(events.drop_last()[k] == events[k]);
        }
    }
}

/// In the actions so far, the number of clips sent plus one for a stop still
/// waiting for its outcome or its hand-off never exceeds the stops asked for,
/// and the stops asked for never exceed the sessions started.
pub open spec fn clip_balance(state: RecorderState, actions: Seq<RecorderAction>) -> bool {
    let stops = count_action(actions, RecorderAction::StopSession);
    let clips = count_action(actions, RecorderAction::SendClip);
    let starts = count_action(actions, RecorderAction::StartSession);
    let pending_stop: int = if state == RecorderState::Stopping { 1 } else { 0 };
    let open_or_starting: int = if state == RecorderState::Recording || state
        == RecorderState::Starting {
        1
    } else {
        0
    };
    &&& clips + pending_stop <= stops
    &&& state == RecorderState::HandingOff ==> clips >= 1 && clips <= stops
    &&& stops + open_or_starting <= starts
}

proof fn lemma_run_balance(events: Seq<RecorderEvent>)
    ensures
        clip_balance(recorder_run(events).0, recorder_run(events).1),
    decreases events.len(),
{
    if events.len() > 0 {
        lemma_run_balance(events.drop_last());
        let (state, actions) = recorder_run(events.drop_last());
        let (next, action) = recorder_step(state, events.last());
        assert(actions.push(action).drop_last() =~= actions);
    }
}

/// Over any sequence of events from idle: no start is asked for while a
/// session is open or one is starting or stopping; every clip handed on belongs
/// to a stop asked for before it, with at most one clip for each stop (so clips
/// go out in the order of the stops); and the controller does nothing after it
/// has ended.
pub proof fn law_recorder_run(events: Seq<RecorderEvent>, k: int)
    requires
        0 <= k < events.len(),
    ensures
        recorder_run(events).1[k] == RecorderAction::StartSession ==> recorder_run(
            events.take(k),
        ).0 == RecorderState::Idle,
        recorder_run(events).1[k] == RecorderAction::SendClip ==> recorder_run(
            events.take(k),
        ).0 == RecorderState::Stopping && events[k] == (RecorderEvent::StopFinished {
            succeeded: true,
        }) && count_action(recorder_run(events.take(k)).1, RecorderAction::SendClip) < count_action(
            recorder_run(events.take(k)).1,
            RecorderAction::StopSession,
        ),
        recorder_run(events.take(k)).0 == RecorderState::Finished ==> recorder_run(events).1[k]
            == RecorderAction::Ignore,
        count_action(recorder_run(events).1, RecorderAction::SendClip) <= count_action(
            recorder_run(events).1,
            RecorderAction::StopSession,
        ),
        count_action(recorder_run(events).1, RecorderAction::StopSession) <= count_action(
            recorder_run(events).1,
            RecorderAction::StartSession,
        ),
{
    lemma_run_prefix(events, k);
    lemma_run_balance(events.take(k));
    lemma_run_balance(events);
}

/// Only a change of modifiers counts: any other kind of event is let through.
pub proof fn law_only_modifier_changes_record(keycode: u16, flags: u64)
    ensures
        control_message_for(keycode, flags, false) is None,
{
}

/// Outcomes change the controller only while it waits for them: a start that
/// went well opens the session and one that failed leaves the controller idle;
/// a stop that went well hands its clip on and one that failed leaves the
/// controller idle with no clip; a clip taken leaves it idle and one refused
/// ends it. An outcome nobody waits for changes nothing and asks for nothing.
pub proof fn law_outcomes(state: RecorderState, ok: bool)
    ensures
        state == RecorderState::Starting ==> recorder_step(
            state,
            RecorderEvent::StartFinished { succeeded: ok },
        ) == (if ok {
            RecorderState::Recording
        } else {
            RecorderState::Idle
        }, RecorderAction::Ignore),
        state == RecorderState::Stopping ==> recorder_step(
            state,
            RecorderEvent::StopFinished { succeeded: ok },
        ) == (if ok {
            (RecorderState::HandingOff, RecorderAction::SendClip)
        } else {
            (RecorderState::Idle, RecorderAction::Ignore)
        }),
        state == RecorderState::HandingOff ==> recorder_step(
            state,
            RecorderEvent::ClipHandedOff { delivered: ok },
        ) == (if ok {
            (RecorderState::Idle, RecorderAction::Ignore)
        } else {
            (RecorderState::Finished, RecorderAction::Exit)
        }),
        state != RecorderState::Starting ==> recorder_step(
            state,
            RecorderEvent::StartFinished { succeeded: ok },
        ) == (state, RecorderAction::Ignore),
        state != RecorderState::Stopping ==> recorder_step(
            state,
            RecorderEvent::StopFinished { succeeded: ok },
        ) == (state, RecorderAction::Ignore),
        state != RecorderState::HandingOff && state != RecorderState::Finished ==> recorder_step(
            state,
            RecorderEvent::ClipHandedOff { delivered: ok },
        ) == (state, RecorderAction::Ignore),
{
}

/// A press of Control from idle asks for a start, and a release while recording
/// asks for a stop; presses and releases at any other time are ignored.
pub proof fn law_presses(state: RecorderState)
    ensures
        recorder_step(state, RecorderEvent::Control(ControlMessage::StartRecording)) == if state
            == RecorderState::Idle {
            (RecorderState::Starting, RecorderAction::StartSession)
        } else {
            (state, RecorderAction::Ignore)
        },
        recorder_step(state, RecorderEvent::Control(ControlMessage::StopRecording)) == if state
            == RecorderState::Recording {
            (RecorderState::Stopping, RecorderAction::StopSession)
        } else {
            (state, RecorderAction::Ignore)
        },
{
}

} // verus!
