//! The window/tray coordinator: a two-state machine over window
//! visibility that also owns the audio-alert flag and keeps the tray
//! menu a fresh projection of both.
//!
//! Events arrive from the embedding application (tray clicks, menu
//! selections, close requests); the coordinator answers with the
//! command the UI layer must perform and rebuilds the menu before it
//! returns, so no handler can leave a stale label behind.

use vstd::prelude::*;
use vstd::string::StringExecFns;
use crate::audio::AudioFlag;
use crate::menu::{TrayMenuModel, render_menu, spec_menu, show_hide_label, audio_label};
use crate::text::str_eq;

verus! {

/// Whether the main window is shown.
#[derive(Clone, Copy, Debug, PartialEq, Eq, Structural)]
pub enum WindowVisibility {
    Visible,
    Hidden,
}

/// The opposite visibility.
pub open spec fn flip(v: WindowVisibility) -> WindowVisibility {
    if v is Hidden {
        WindowVisibility::Visible
    } else {
        WindowVisibility::Hidden
    }
}

/// An event the coordinator reacts to.
#[derive(Clone, Copy, Debug, PartialEq, Eq, Structural)]
pub enum UiEvent {
    /// The user asked to close the window; the close is suppressed and
    /// the window hidden instead, never a true application exit.
    CloseRequested,
    /// A left click on the tray icon.
    TrayIconLeftClick,
    /// The show/hide entry of the tray menu.
    MenuShowHideSelected,
    /// The audio-toggle entry of the tray menu.
    MenuToggleAudioSelected,
    /// The quit entry of the tray menu.
    MenuQuitSelected,
    /// An external request to present the window (e.g. re-invocation).
    ExternalShowRequest,
    /// Any menu id the coordinator does not know: a no-op.
    UnrecognizedMenuSelected,
}

/// A command the UI layer must perform on the main window.
#[derive(Clone, Copy, Debug, PartialEq, Eq, Structural)]
pub enum WindowCommand {
    /// Show the window, focus it and restore it from a minimized state.
    ShowAndFocus,
    /// Hide the window.
    Hide,
}

/// Everything one event asks of the UI layer. The rebuilt menu is read
/// from the coordinator itself, which is fresh by `Coordinator::wf`.
pub struct EventOutcome {
    /// What to do with the main window, if anything.
    pub window: Option<WindowCommand>,
    /// Whether the default close of the window must be suppressed.
    pub suppress_close: bool,
    /// Whether the process must terminate (with status 0).
    pub exit: bool,
}

/// The visibility after one event.
pub open spec fn step_visibility(v: WindowVisibility, ev: UiEvent) -> WindowVisibility {
    match ev {
        UiEvent::CloseRequested => WindowVisibility::Hidden,
        UiEvent::TrayIconLeftClick => flip(v),
        UiEvent::MenuShowHideSelected => flip(v),
        UiEvent::ExternalShowRequest => WindowVisibility::Visible,
        UiEvent::MenuToggleAudioSelected => v,
        UiEvent::MenuQuitSelected => v,
        UiEvent::UnrecognizedMenuSelected => v,
    }
}

/// The audio-alert flag after one event.
pub open spec fn step_audio(enabled: bool, ev: UiEvent) -> bool {
    if ev is MenuToggleAudioSelected {
        !enabled
    } else {
        enabled
    }
}

/// The window command one event demands, given the visibility it found.
pub open spec fn window_command_of(v: WindowVisibility, ev: UiEvent) -> Option<WindowCommand> {
    match ev {
        UiEvent::CloseRequested => Some(WindowCommand::Hide),
        UiEvent::TrayIconLeftClick | UiEvent::MenuShowHideSelected => if v is Hidden {
            Some(WindowCommand::ShowAndFocus)
        } else {
            Some(WindowCommand::Hide)
        },
        UiEvent::ExternalShowRequest => Some(WindowCommand::ShowAndFocus),
        _ => None,
    }
}

/// The coordinator state: window visibility, the audio-alert flag, and
/// the tray menu derived from both.
pub struct Coordinator {
    pub visibility: WindowVisibility,
    pub audio: AudioFlag,
    pub menu: TrayMenuModel,
}

impl Coordinator {
    /// The menu is never stale: it always equals the projection of the
    /// current visibility and audio flag.
    pub open spec fn wf(&self) -> bool {
        self.menu@ == spec_menu(self.visibility, self.audio.enabled)
    }

    /// The state at startup. The window starts hidden unless the
    /// first-run marker is absent, in which case it starts visible and
    /// the marker must be written (the second component, true exactly
    /// then, and only at startup). Alerts start enabled.
    pub fn startup(marker_present: bool) -> (r: (Coordinator, bool))
        ensures
            r.0.wf(),
            r.0.visibility == (if marker_present {
                WindowVisibility::Hidden
            } else {
                WindowVisibility::Visible
            }),
            r.0.audio.enabled,
            r.1 == !marker_present,
    {
        let visibility = if marker_present {
            WindowVisibility::Hidden
        } else {
            WindowVisibility::Visible
        };
        let audio = AudioFlag::new();
        let menu = render_menu(visibility, true);
        (Coordinator { visibility, audio, menu }, !marker_present)
    }

    /// Processes one event: steps the visibility and the audio flag by
    /// the transition table, rebuilds the menu before returning, and
    /// reports the window command, whether the default close must be
    /// suppressed, and whether the process must exit.
    pub fn handle_event(&mut self, ev: UiEvent) -> (out: EventOutcome)
        ensures
            final(self).wf(),
            final(self).visibility == step_visibility(old(self).visibility, ev),
            final(self).audio.enabled == step_audio(old(self).audio.enabled, ev),
            out.window == window_command_of(old(self).visibility, ev),
            out.suppress_close == (ev is CloseRequested),
            out.exit == (ev is MenuQuitSelected),
    {
        let mut window: Option<WindowCommand> = None;
        let mut suppress_close = false;
        let mut exit = false;
        match ev {
            UiEvent::CloseRequested => {
                suppress_close = true;
                window = Some(WindowCommand::Hide);
                self.visibility = WindowVisibility::Hidden;
            },
            UiEvent::TrayIconLeftClick | UiEvent::MenuShowHideSelected => {
                match self.visibility {
                    WindowVisibility::Hidden => {
                        window = Some(WindowCommand::ShowAndFocus);
                        self.visibility = WindowVisibility::Visible;
                    },
                    WindowVisibility::Visible => {
                        window = Some(WindowCommand::Hide);
                        self.visibility = WindowVisibility::Hidden;
                    },
                }
            },
            UiEvent::MenuToggleAudioSelected => {
                self.audio.toggle();
            },
            UiEvent::MenuQuitSelected => {
                exit = true;
            },
            UiEvent::ExternalShowRequest => {
                window = Some(WindowCommand::ShowAndFocus);
                self.visibility = WindowVisibility::Visible;
            },
            UiEvent::UnrecognizedMenuSelected => {},
        }
        self.menu = render_menu(self.visibility, self.audio.is_enabled());
        EventOutcome { window, suppress_close, exit }
    }
}

/// The tray-menu event a menu id maps to; ids the coordinator does not
/// know are no-ops.
pub open spec fn spec_menu_event(id: Seq<char>) -> UiEvent {
    if id == "show"@ {
        UiEvent::MenuShowHideSelected
    } else if id == "toggle_audio"@ {
        UiEvent::MenuToggleAudioSelected
    } else if id == "quit"@ {
        UiEvent::MenuQuitSelected
    } else {
        UiEvent::UnrecognizedMenuSelected
    }
}

/// Maps a menu item id to the event it raises.
pub fn menu_event(id: &str) -> (ev: UiEvent)
    ensures
        ev == spec_menu_event(id@),
{
    if str_eq(id, "show") {
        UiEvent::MenuShowHideSelected
    } else if str_eq(id, "toggle_audio") {
        UiEvent::MenuToggleAudioSelected
    } else if str_eq(id, "quit") {
        UiEvent::MenuQuitSelected
    } else {
        UiEvent::UnrecognizedMenuSelected
    }
}

/// The result the UI layer reports for a show request: `Ok` when the
/// main window handle was found, otherwise the string message that
/// surfaces the broken invariant to the caller (never a panic).
pub fn show_window_result(window_found: bool) -> (r: Result<(), String>)
    ensures
        window_found <==> r is Ok,
        r matches Err(m) ==> m@ == "Main window not found"@,
{
    if window_found {
        Ok(())
    } else {
        Err(String::from_str("Main window not found"))
    }
}

/// In a well-formed coordinator the show/hide item is labelled `Show`
/// exactly when the window is hidden and `Hide` exactly when it is
/// visible, and the audio item's label reflects the flag; since every
/// transition re-establishes `wf`, this holds after every transition.
pub proof fn lemma_menu_labels_current(c: Coordinator)
    requires
        c.wf(),
    ensures
        c.menu@.len() == 3,
        c.menu@[0] == ("show"@, show_hide_label(c.visibility)),
        c.menu@[1] == ("toggle_audio"@, audio_label(c.audio.enabled)),
        c.menu@[2] == ("quit"@, "Quit"@),
        c.visibility is Hidden ==> c.menu@[0].1 == "Show"@,
        c.visibility is Visible ==> c.menu@[0].1 == "Hide"@,
{
}

/// Whether an event belongs to the window-visibility fragment of the
/// transition table.
pub open spec fn is_window_event(ev: UiEvent) -> bool {
    ev is CloseRequested || ev is TrayIconLeftClick || ev is MenuShowHideSelected
}

/// Whether an event toggles the visibility.
pub open spec fn toggles_visibility(ev: UiEvent) -> bool {
    ev is TrayIconLeftClick || ev is MenuShowHideSelected
}

/// The visibility after a whole sequence of events.
pub open spec fn run_events(init: WindowVisibility, evs: Seq<UiEvent>) -> WindowVisibility
    decreases evs.len(),
{
    if evs.len() == 0 {
        init
    } else {
        step_visibility(run_events(init, evs.drop_last()), evs.last())
    }
}

/// Whether the sequence contains a close request.
pub open spec fn contains_close(evs: Seq<UiEvent>) -> bool
    decreases evs.len(),
{
    if evs.len() == 0 {
        false
    } else {
        evs.last() is CloseRequested || contains_close(evs.drop_last())
    }
}

/// How many toggling events the sequence holds.
pub open spec fn count_toggles(evs: Seq<UiEvent>) -> nat
    decreases evs.len(),
{
    if evs.len() == 0 {
        0
    } else {
        count_toggles(evs.drop_last()) + if toggles_visibility(evs.last()) {
            1nat
        } else {
            0nat
        }
    }
}

/// How many toggling events follow the last close request.
pub open spec fn toggles_after_last_close(evs: Seq<UiEvent>) -> nat
    decreases evs.len(),
{
    if evs.len() == 0 {
        0
    } else if evs.last() is CloseRequested {
        0
    } else {
        toggles_after_last_close(evs.drop_last()) + if toggles_visibility(evs.last()) {
            1nat
        } else {
            0nat
        }
    }
}

/// `v` XOR-folded with `n` toggles: flipped when `n` is odd.
pub open spec fn xor_vis(v: WindowVisibility, n: nat) -> WindowVisibility {
    if n % 2 == 1 {
        flip(v)
    } else {
        v
    }
}

proof fn lemma_xor_vis_step(v: WindowVisibility, n: nat)
    ensures
        xor_vis(v, n + 1) == flip(xor_vis(v, n)),
{
}

/// Over sequences of close requests, tray clicks and show/hide menu
/// selections, the coordinator is a two-state toggle machine in which
/// a close request forces `Hidden`: the final visibility is the
/// XOR-fold of the toggling events — over the initial state when no
/// close occurs, otherwise over `Hidden` with only the toggles after
/// the last close.
pub proof fn lemma_visibility_xor_fold(init: WindowVisibility, evs: Seq<UiEvent>)
    requires
        forall|k: int| 0 <= k < evs.len() ==> is_window_event(#[trigger] evs[k]),
    ensures
        run_events(init, evs) == (if contains_close(evs) {
            xor_vis(WindowVisibility::Hidden, toggles_after_last_close(evs))
        } else {
            xor_vis(init, count_toggles(evs))
        }),
    decreases evs.len(),
{
    if evs.len() > 0 {
        let prefix = evs.drop_last();
        assert(forall|k: int|
            0 <= k < prefix.len() ==> is_window_event(#[trigger] prefix[k])) by {
            assert(forall|k: int| 0 <= k < prefix.len() ==> prefix[k] == evs[k]);
        }
        lemma_visibility_xor_fold(init, prefix);
        let last = evs.last();
        assert(is_window_event(last));
        if last is CloseRequested {
        } else {
            assert(toggles_visibility(last));
            if contains_close(prefix) {
                lemma_xor_vis_step(WindowVisibility::Hidden, toggles_after_last_close(prefix));
            } else {
                lemma_xor_vis_step(init, count_toggles(prefix));
            }
        }
    }
}

} // verus!
