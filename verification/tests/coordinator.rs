use battery_notif::audio::AudioFlag;
use battery_notif::coordinator::{
    menu_event, show_window_result, Coordinator, EventOutcome, UiEvent, WindowCommand,
    WindowVisibility,
};

fn labels(c: &Coordinator) -> (String, String, String) {
    assert_eq!(c.menu.items.len(), 3);
    assert_eq!(c.menu.items[0].id, "show");
    assert_eq!(c.menu.items[1].id, "toggle_audio");
    assert_eq!(c.menu.items[2].id, "quit");
    (
        c.menu.items[0].label.clone(),
        c.menu.items[1].label.clone(),
        c.menu.items[2].label.clone(),
    )
}

fn assert_show_hide_label_matches(c: &Coordinator) {
    let (show_hide, _, quit) = labels(c);
    match c.visibility {
        WindowVisibility::Hidden => assert_eq!(show_hide, "Show"),
        WindowVisibility::Visible => assert_eq!(show_hide, "Hide"),
    }
    assert_eq!(quit, "Quit");
}

#[test]
fn first_run_starts_visible_and_writes_marker() {
    let (c, write_marker) = Coordinator::startup(false);
    assert_eq!(c.visibility, WindowVisibility::Visible);
    assert!(write_marker);
    assert!(c.audio.is_enabled());
    assert_show_hide_label_matches(&c);
}

#[test]
fn later_runs_start_hidden_without_marker_write() {
    let (c, write_marker) = Coordinator::startup(true);
    assert_eq!(c.visibility, WindowVisibility::Hidden);
    assert!(!write_marker);
    assert!(c.audio.is_enabled());
    assert_show_hide_label_matches(&c);
}

#[test]
fn close_requested_always_hides_and_suppresses_close() {
    for marker in [false, true] {
        let (mut c, _) = Coordinator::startup(marker);
        let out = c.handle_event(UiEvent::CloseRequested);
        assert_eq!(c.visibility, WindowVisibility::Hidden);
        assert_eq!(out.window, Some(WindowCommand::Hide));
        assert!(out.suppress_close);
        assert!(!out.exit);
        assert_show_hide_label_matches(&c);
    }
}

#[test]
fn tray_click_toggles_visibility() {
    let (mut c, _) = Coordinator::startup(true);
    assert_eq!(c.visibility, WindowVisibility::Hidden);
    let out = c.handle_event(UiEvent::TrayIconLeftClick);
    assert_eq!(c.visibility, WindowVisibility::Visible);
    assert_eq!(out.window, Some(WindowCommand::ShowAndFocus));
    assert_show_hide_label_matches(&c);
    let out = c.handle_event(UiEvent::TrayIconLeftClick);
    assert_eq!(c.visibility, WindowVisibility::Hidden);
    assert_eq!(out.window, Some(WindowCommand::Hide));
    assert_show_hide_label_matches(&c);
}

#[test]
fn menu_show_hide_toggles_and_relabels() {
    let (mut c, _) = Coordinator::startup(true);
    let out = c.handle_event(UiEvent::MenuShowHideSelected);
    assert_eq!(c.visibility, WindowVisibility::Visible);
    assert_eq!(out.window, Some(WindowCommand::ShowAndFocus));
    assert_eq!(labels(&c).0, "Hide");
    let out = c.handle_event(UiEvent::MenuShowHideSelected);
    assert_eq!(c.visibility, WindowVisibility::Hidden);
    assert_eq!(out.window, Some(WindowCommand::Hide));
    assert_eq!(labels(&c).0, "Show");
}

#[test]
fn external_show_request_always_shows() {
    for marker in [false, true] {
        let (mut c, _) = Coordinator::startup(marker);
        let out = c.handle_event(UiEvent::ExternalShowRequest);
        assert_eq!(c.visibility, WindowVisibility::Visible);
        assert_eq!(out.window, Some(WindowCommand::ShowAndFocus));
        assert!(!out.exit);
        assert_show_hide_label_matches(&c);
    }
}

#[test]
fn quit_terminates_without_window_command() {
    let (mut c, _) = Coordinator::startup(true);
    let out = c.handle_event(UiEvent::MenuQuitSelected);
    assert!(out.exit);
    assert_eq!(out.window, None);
    assert!(!out.suppress_close);
}

#[test]
fn unrecognized_menu_id_is_a_no_op() {
    let (mut c, _) = Coordinator::startup(true);
    let before = c.visibility;
    let audio_before = c.audio.is_enabled();
    let out = c.handle_event(UiEvent::UnrecognizedMenuSelected);
    assert_eq!(c.visibility, before);
    assert_eq!(c.audio.is_enabled(), audio_before);
    assert_eq!(out.window, None);
    assert!(!out.exit);
    assert!(!out.suppress_close);
}

// The XOR-fold law on a concrete sequence: close forces Hidden, each
// toggling event flips, so Hidden -> toggle -> toggle -> close ->
// toggle ends Visible.
#[test]
fn visibility_follows_xor_fold_of_toggling_events() {
    let (mut c, _) = Coordinator::startup(true);
    let evs = [
        UiEvent::TrayIconLeftClick,
        UiEvent::MenuShowHideSelected,
        UiEvent::CloseRequested,
        UiEvent::TrayIconLeftClick,
    ];
    for ev in evs {
        c.handle_event(ev);
        assert_show_hide_label_matches(&c);
    }
    assert_eq!(c.visibility, WindowVisibility::Visible);

    // No close: parity of the toggles alone decides.
    let (mut c, _) = Coordinator::startup(true);
    for _ in 0..4 {
        c.handle_event(UiEvent::TrayIconLeftClick);
    }
    assert_eq!(c.visibility, WindowVisibility::Hidden);
    c.handle_event(UiEvent::MenuShowHideSelected);
    assert_eq!(c.visibility, WindowVisibility::Visible);
}

// The scenario of the audio toggle while visible: the flag goes off,
// the audio label shows the off variant, the show/hide label stays
// "Hide".
#[test]
fn audio_toggle_while_visible_relabels_audio_only() {
    let (mut c, _) = Coordinator::startup(false);
    assert_eq!(c.visibility, WindowVisibility::Visible);
    assert!(c.audio.is_enabled());
    let out = c.handle_event(UiEvent::MenuToggleAudioSelected);
    assert!(!c.audio.is_enabled());
    assert_eq!(c.visibility, WindowVisibility::Visible);
    assert_eq!(out.window, None);
    let (show_hide, audio, _) = labels(&c);
    assert_eq!(audio, "Audio OFF");
    assert_eq!(show_hide, "Hide");
    let _: EventOutcome = c.handle_event(UiEvent::MenuToggleAudioSelected);
    assert_eq!(labels(&c).1, "Audio ON");
}

#[test]
fn menu_ids_map_to_their_events() {
    assert_eq!(menu_event("show"), UiEvent::MenuShowHideSelected);
    assert_eq!(menu_event("toggle_audio"), UiEvent::MenuToggleAudioSelected);
    assert_eq!(menu_event("quit"), UiEvent::MenuQuitSelected);
    assert_eq!(menu_event("other"), UiEvent::UnrecognizedMenuSelected);
    assert_eq!(menu_event(""), UiEvent::UnrecognizedMenuSelected);
}

#[test]
fn show_window_result_reports_missing_window() {
    assert_eq!(show_window_result(true), Ok(()));
    assert_eq!(
        show_window_result(false),
        Err(String::from("Main window not found"))
    );
}

#[test]
fn audio_flag_starts_enabled() {
    let f = AudioFlag::new();
    assert!(f.is_enabled());
}
