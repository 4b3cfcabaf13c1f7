use vstd::prelude::*;

verus! {

/// What the UI loop is asked to do. A display is named by its UUID, as a
/// 128-bit number.
#[derive(Clone, Copy, Debug, PartialEq, Eq, Structural)]
pub enum UiCommand {
    ShowSettings,
    ShowAbout,
    ShowOverlay { display_uuid: Option<u128> },
    HideOverlay,
}

/// The display an overlay goes on.
#[derive(Clone, Copy, Debug, PartialEq, Eq, Structural)]
pub enum DisplayChoice {
    /// The display at this position of the list of displays.
    Listed(usize),
    /// The primary display.
    Primary,
}

/// The first position in `uuids` that holds `target`, if any.
pub open spec fn first_match(uuids: Seq<Option<u128>>, target: u128) -> Option<int>
    decreases uuids.len(),
{
    if uuids.len() == 0 {
        None
    } else if uuids[0] == Some(target) {
        Some(0)
    } else {
        match first_match(uuids.drop_first(), target) {
            Some(i) => Some(i + 1),
            None => None,
        }
    }
}

/// The display for an overlay: the first listed display with the requested
/// UUID, and the primary display where none was requested or none matches.
pub open spec fn display_for(target: Option<u128>, uuids: Seq<Option<u128>>) -> DisplayChoice {
    match target {
        None => DisplayChoice::Primary,
        Some(t) => match first_match(uuids, t) {
            Some(i) => DisplayChoice::Listed(i as usize),
            None => DisplayChoice::Primary,
        },
    }
}

proof fn lemma_first_match(uuids: Seq<Option<u128>>, target: u128)
    ensures
        match first_match(uuids, target) {
            Some(i) => 0 <= i < uuids.len() && uuids[i] == Some(target) && forall|j: int|
                0 <= j < i ==> uuids[j] != Some(target),
            None => forall|j: int| 0 <= j < uuids.len() ==> uuids[j] != Some(target),
        },
    decreases uuids.len(),
{
    if uuids.len() > 0 {
        lemma_first_match(uuids.drop_first(), target);
        if uuids[0] != Some(target) {
            assert forall|j: int| 1 <= j < uuids.len() implies uuids[j] == uuids.drop_first()[j
                - 1] by {}
        }
    }
}

/// Picks the display for an overlay; `display_uuids` lists the UUID of each
/// display, `None` where a display's UUID could not be read.
pub fn resolve_display(target: Option<u128>, display_uuids: &Vec<Option<u128>>) -> (r:
    DisplayChoice)
    ensures
        r == display_for(target, display_uuids@),
        r matches DisplayChoice::Listed(i) ==> i < display_uuids@.len() && display_uuids@[i as int]
            == target,
{
    proof {
        if let Some(t) = target {
            lemma_first_match(display_uuids@, t);
        }
    }
    match target {
        None => DisplayChoice::Primary,
        Some(t) => {
            let mut i: usize = 0;
            while i < display_uuids.len()
                invariant
                    target == Some(t),
                    i <= display_uuids@.len(),
                    forall|j: int| 0 <= j < i ==> display_uuids@[j] != Some(t),
                    match first_match(display_uuids@, t) {
                        Some(k) => 0 <= k < display_uuids@.len() && display_uuids@[k] == Some(t)
                            && forall|j: int| 0 <= j < k ==> display_uuids@[j] != Some(t),
                        None => forall|j: int|
                            0 <= j < display_uuids@.len() ==> display_uuids@[j] != Some(t),
                    },
                decreases display_uuids@.len() - i,
            {
                if let Some(u) = display_uuids[i] {
                    if u == t {
                        return DisplayChoice::Listed(i);
                    }
                }
                i = i + 1;
            }
            DisplayChoice::Primary
        },
    }
}

/// What polling the UI command channel gave.
#[derive(Clone, Copy, Debug, PartialEq, Eq, Structural)]
pub enum UiPoll {
    /// A command was waiting.
    Command,
    /// No command is waiting.
    Empty,
    /// The channel has closed.
    Disconnected,
}

/// What the UI command loop does next.
#[derive(Clone, Copy, Debug, PartialEq, Eq, Structural)]
pub enum UiLoopAction {
    /// Carry out the command (whether or not it succeeds) and poll again.
    Handle,
    /// Wait this many milliseconds, then poll again.
    Wait { millis: u64 },
    /// End the loop.
    Stop,
}

/// The time the UI loop waits when no command is waiting, in milliseconds.
pub const UI_POLL_INTERVAL_MILLIS: u64 = 16;

/// The UI loop's rule: a waiting command is carried out at once, an empty
/// channel is polled again after a short wait, and a closed channel ends the loop.
pub fn ui_loop_step(poll: UiPoll) -> (r: UiLoopAction)
    ensures
        r == match poll {
            UiPoll::Command => UiLoopAction::Handle,
            UiPoll::Empty => UiLoopAction::Wait { millis: UI_POLL_INTERVAL_MILLIS },
            UiPoll::Disconnected => UiLoopAction::Stop,
        },
{
    match poll {
        UiPoll::Command => UiLoopAction::Handle,
        UiPoll::Empty => UiLoopAction::Wait { millis: UI_POLL_INTERVAL_MILLIS },
        UiPoll::Disconnected => UiLoopAction::Stop,
    }
}

/// What to do when the settings window is asked for.
#[derive(Clone, Copy, Debug, PartialEq, Eq, Structural)]
pub enum SettingsAction {
    /// The tracked window was brought to the front; nothing more to do.
    Reuse,
    /// Open a new settings window and track it.
    OpenNew,
}

/// The windows the UI tracks: at most one settings window and at most one
/// overlay, each by its handle.
pub struct WindowSlots<H> {
    pub settings_window: Option<H>,
    pub overlay_window: Option<H>,
}

impl<H: Copy> WindowSlots<H> {
    /// No window tracked.
    pub fn new() -> (r: Self)
        ensures
            r.settings_window is None,
            r.overlay_window is None,
    {
        WindowSlots { settings_window: None, overlay_window: None }
    }

    /// Decides, once the tracked settings window (if any) was asked to come to
    /// the front, whether it is reused: only where one is tracked and it could
    /// be activated. Otherwise it is forgotten and a new one is to be opened.
    pub fn show_settings(&mut self, existing_activated: bool) -> (r: SettingsAction)
        ensures
            r == SettingsAction::Reuse <==> old(self).settings_window is Some && existing_activated,
            r == SettingsAction::Reuse ==> final(self).settings_window == old(
                self,
            ).settings_window,
            r == SettingsAction::OpenNew ==> final(self).settings_window is None,
            final(self).overlay_window == old(self).overlay_window,
    {
        if self.settings_window.is_some() && existing_activated {
            SettingsAction::Reuse
        } else {
            self.settings_window = None;
            SettingsAction::OpenNew
        }
    }

    /// Tracks a newly opened settings window.
    pub fn settings_opened(&mut self, window: H)
        ensures
            final(self).settings_window == Some(window),
            final(self).overlay_window == old(self).overlay_window,
    {
        self.settings_window = Some(window);
    }

    /// Stops tracking the overlay and gives it back to be closed, if there was
    /// one. Hiding again gives nothing back.
    pub fn hide_overlay(&mut self) -> (r: Option<H>)
        ensures
            r == old(self).overlay_window,
            final(self).overlay_window is None,
            final(self).settings_window == old(self).settings_window,
    {
        let previous = self.overlay_window;
        self.overlay_window = None;
        previous
    }

    /// Tracks a newly opened overlay in place of any earlier one, and gives the
    /// earlier one back to be closed.
    pub fn overlay_opened(&mut self, window: H) -> (r: Option<H>)
        ensures
            r == old(self).overlay_window,
            final(self).overlay_window == Some(window),
            final(self).settings_window == old(self).settings_window,
    {
        let previous = self.overlay_window;
        self.overlay_window = Some(window);
        previous
    }
}

/// The overlay goes on the first listed display whose UUID is the one asked
/// for; it goes on the primary display only where none was asked for or no
/// listed display has it. (The list is one that fits in memory.)
pub proof fn law_display_choice(target: Option<u128>, uuids: Seq<Option<u128>>)
    requires
        uuids.len() <= usize::MAX,
    ensures
        target is None ==> display_for(target, uuids) == DisplayChoice::Primary,
        target matches Some(t) ==> match display_for(target, uuids) {
            DisplayChoice::Listed(i) => 0 <= i < uuids.len() && uuids[i as int] == Some(t)
                && forall|j: int| 0 <= j < i ==> uuids[j] != Some(t),
            DisplayChoice::Primary => forall|j: int| 0 <= j < uuids.len() ==> uuids[j] != Some(t),
        },
{
    if let Some(t) = target {
        lemma_first_match(uuids, t);
    }
}

} // verus!
