//! Notification dispatch logic: building the notification script with
//! its quotes escaped, and interpreting the outcome of the dispatching
//! process. Running that process is the embedding application's job;
//! a notification failure is never fatal to the coordinator.

use vstd::prelude::*;
use vstd::string::StrSliceExecFns;
use vstd::string::StringExecFns;

verus! {

/// Why a notification was not delivered.
#[derive(Debug, PartialEq, Eq)]
pub enum NotifyError {
    /// The dispatching process could not be invoked at all.
    BackendUnavailable,
    /// The dispatching process ran and reported failure; carries what
    /// it wrote to its error stream.
    ScriptFailed(String),
}

/// What one character contributes to the escaped text: a double quote
/// gains a backslash, every other character stands as it is.
pub open spec fn escaped_char(c: char) -> Seq<char> {
    if c == '"' {
        "\\\""@
    } else {
        seq![c]
    }
}

/// `s` with every double quote escaped by a backslash.
pub open spec fn escaped(s: Seq<char>) -> Seq<char>
    decreases s.len(),
{
    if s.len() == 0 {
        Seq::empty()
    } else {
        escaped(s.drop_last()) + escaped_char(s.last())
    }
}

/// The script that displays a notification with the given title and
/// body, both quoted and therefore escaped.
pub open spec fn notification_script(title: Seq<char>, body: Seq<char>) -> Seq<char> {
    "display notification \""@ + escaped(body) + "\" with title \""@ + escaped(title) + "\""@
}

/// Escapes every double quote in `s` with a backslash, so that `s` can
/// stand between double quotes in the notification script.
pub fn escape_quotes(s: &str) -> (r: String)
    ensures
        r@ == escaped(s@),
{
    let len = s.unicode_len();
    let mut r = String::new();
    let mut i: usize = 0;
    while i < len
        invariant
            0 <= i <= len,
            len == s@.len(),
            r@ == escaped(s@.subrange(0, i as int)),
        decreases len - i,
    {
        let c = s.get_char(i);
        if c == '"' {
            r.append("\\\"");
        } else {
            r.append(s.substring_char(i, i + 1));
        }
        proof {
            let prefix = s@.subrange(0, i as int + 1);
            assert(prefix.drop_last() =~= s@.subrange(0, i as int));
            assert(prefix.last() == s@[i as int]);
            assert(s@.subrange(i as int, i as int + 1) =~= seq![s@[i as int]]);
        }
        i += 1;
    }
    proof {
        assert(s@.subrange(0, len as int) =~= s@);
    }
    r
}

/// Builds the script that displays a notification with the given body
/// and title.
pub fn build_notification_script(title: &str, body: &str) -> (r: String)
    ensures
        r@ == notification_script(title@, body@),
{
    let mut r = String::from_str("display notification \"");
    let escaped_body = escape_quotes(body);
    r.append(escaped_body.as_str());
    r.append("\" with title \"");
    let escaped_title = escape_quotes(title);
    r.append(escaped_title.as_str());
    r.append("\"");
    proof {
        assert(r@ =~= notification_script(title@, body@));
    }
    r
}

/// Interprets what running the dispatching process yielded: `None`
/// when it could not be invoked, otherwise its success flag and error
/// stream. Success is owed exactly when the process ran and succeeded.
pub fn notify_outcome(run: Option<(bool, String)>) -> (r: Result<(), NotifyError>)
    ensures
        match run {
            None => r == Err::<(), NotifyError>(NotifyError::BackendUnavailable),
            Some((success, stderr)) => if success {
                r == Ok::<(), NotifyError>(())
            } else {
                r == Err::<(), NotifyError>(NotifyError::ScriptFailed(stderr))
            },
        },
{
    match run {
        None => Err(NotifyError::BackendUnavailable),
        Some((success, stderr)) => {
            if success {
                Ok(())
            } else {
                Err(NotifyError::ScriptFailed(stderr))
            }
        },
    }
}

} // verus!
