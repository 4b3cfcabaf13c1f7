use tvoice::ui::{
    resolve_display, ui_loop_step, DisplayChoice, SettingsAction, UiCommand, UiLoopAction,
    UiPoll, WindowSlots,
};

#[test]
fn no_target_means_primary() {
    assert_eq!(resolve_display(None, &vec![Some(1), Some(2)]), DisplayChoice::Primary);
}

#[test]
fn first_matching_display_wins() {
    let uuids = vec![None, Some(7u128), Some(9), Some(7)];
    assert_eq!(resolve_display(Some(7), &uuids), DisplayChoice::Listed(1));
    assert_eq!(resolve_display(Some(9), &uuids), DisplayChoice::Listed(2));
}

#[test]
fn unknown_uuid_falls_back_to_primary() {
    assert_eq!(resolve_display(Some(3), &vec![Some(1), None]), DisplayChoice::Primary);
    assert_eq!(resolve_display(Some(3), &vec![]), DisplayChoice::Primary);
}

#[test]
fn commands_compare() {
    assert_eq!(
        UiCommand::ShowOverlay { display_uuid: Some(5) },
        UiCommand::ShowOverlay { display_uuid: Some(5) }
    );
    assert_ne!(UiCommand::ShowSettings, UiCommand::HideOverlay);
}

#[test]
fn ui_loop_handles_waits_and_stops() {
    assert_eq!(ui_loop_step(UiPoll::Command), UiLoopAction::Handle);
    assert_eq!(ui_loop_step(UiPoll::Empty), UiLoopAction::Wait { millis: 16 });
    assert_eq!(ui_loop_step(UiPoll::Disconnected), UiLoopAction::Stop);
}

#[test]
fn settings_window_is_reused_only_when_it_activates() {
    let mut w: WindowSlots<u32> = WindowSlots::new();
    assert_eq!(w.show_settings(true), SettingsAction::OpenNew);
    w.settings_opened(1);
    assert_eq!(w.show_settings(true), SettingsAction::Reuse);
    assert_eq!(w.settings_window, Some(1));
    assert_eq!(w.show_settings(false), SettingsAction::OpenNew);
    assert_eq!(w.settings_window, None);
}

#[test]
fn overlay_is_replaced_and_hidden_once() {
    let mut w: WindowSlots<u32> = WindowSlots::new();
    assert_eq!(w.overlay_opened(5), None);
    assert_eq!(w.overlay_opened(6), Some(5));
    assert_eq!(w.hide_overlay(), Some(6));
    assert_eq!(w.hide_overlay(), None);
    assert_eq!(w.overlay_window, None);
}
