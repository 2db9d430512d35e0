use battery_notif::greeting::greet;
use battery_notif::notify::{build_notification_script, escape_quotes, notify_outcome, NotifyError};

#[test]
fn escape_leaves_plain_text_alone() {
    assert_eq!(escape_quotes("Battery low"), "Battery low");
    assert_eq!(escape_quotes(""), "");
}

#[test]
fn escape_escapes_every_quote() {
    assert_eq!(escape_quotes("a \"quoted\" word"), "a \\\"quoted\\\" word");
    assert_eq!(escape_quotes("\"\""), "\\\"\\\"");
}

#[test]
fn notification_script_has_exact_shape() {
    assert_eq!(
        build_notification_script("Battery", "20% left"),
        "display notification \"20% left\" with title \"Battery\""
    );
}

#[test]
fn notification_script_escapes_title_and_body() {
    assert_eq!(
        build_notification_script("A \"B\"", "C\"D"),
        "display notification \"C\\\"D\" with title \"A \\\"B\\\"\""
    );
}

#[test]
fn notify_outcome_maps_process_results() {
    assert_eq!(notify_outcome(Some((true, String::new()))), Ok(()));
    assert_eq!(
        notify_outcome(Some((false, String::from("no display")))),
        Err(NotifyError::ScriptFailed(String::from("no display")))
    );
    assert_eq!(notify_outcome(None), Err(NotifyError::BackendUnavailable));
}

#[test]
fn greet_formats_the_name() {
    assert_eq!(greet("World"), "Hello, World! You've been greeted from Rust!");
}
