//! The confirmation gate in front of a destructive action.
//!
//! A removal is confirmed at an interactive prompt unless the caller bypasses
//! it. While the prompt waits, the terminal's cursor is hidden, and a guard
//! stands for the duty to show it again. A prompt that is answered shows the
//! cursor itself, so the guard is disarmed; a prompt that is interrupted or
//! breaks down leaves the cursor hidden, so the guard fires.

use crate::failure::Failure;
use vstd::prelude::*;
use vstd::string::StringExecFns;

verus! {

/// The outcome of asking whether a destructive action may go ahead.
/// An interruption is told apart from a refusal for diagnostics only: neither
/// lets the action proceed.
#[derive(Clone, Copy, Debug, PartialEq, Eq, Structural)]
pub enum ConfirmationDecision {
    Proceed,
    Decline,
    Interrupted,
}

impl ConfirmationDecision {
    pub open spec fn allows_drop(self) -> bool {
        self == ConfirmationDecision::Proceed
    }

    /// Whether the destructive action may go ahead: only after an
    /// affirmative answer.
    pub fn confirm_drop(self) -> (go: bool)
        ensures
            go == self.allows_drop(),
    {
        match self {
            ConfirmationDecision::Proceed => true,
            ConfirmationDecision::Decline => false,
            ConfirmationDecision::Interrupted => false,
        }
    }
}

/// The duty to show the terminal's cursor again once a prompt session is
/// left. It is armed when the session starts, and disarmed where the prompt
/// has shown the cursor itself.
#[derive(Debug, PartialEq, Eq)]
pub struct RestoreCursorGuard {
    pub disarmed: bool,
}

impl RestoreCursorGuard {
    pub fn armed() -> (guard: RestoreCursorGuard)
        ensures
            !guard.disarmed,
    {
        RestoreCursorGuard { disarmed: false }
    }

    pub fn disarm(&mut self)
        ensures
            final(self).disarmed,
    {
        self.disarmed = true;
    }

    /// Ends the guard's scope. The result says whether the guard fires, that
    /// is, whether the cursor has to be shown now.
    pub fn release(self) -> (fires: bool)
        ensures
            fires == !self.disarmed,
    {
        !self.disarmed
    }
}

/// How a prompt session ended.
#[derive(Clone, Debug, PartialEq, Eq)]
pub enum PromptReply {
    /// The user answered, or accepted the default.
    Answered(bool),
    /// The prompt failed with an I/O error.
    Failed(Failure),
    /// The worker that ran the prompt died.
    Panicked,
}

/// A breakdown of the prompt that is not a decision of the user.
#[derive(Clone, Debug, PartialEq, Eq)]
pub enum PromptFault {
    Dialog(Failure),
    WorkerPanicked,
}

/// What a prompt session came to.
#[derive(Debug, PartialEq, Eq)]
pub struct Settlement {
    /// The decision reached, or the fault that is fatal to the operation.
    pub outcome: Result<ConfirmationDecision, PromptFault>,
    /// Whether the guard fired, so that the cursor has to be shown before
    /// anything else happens.
    pub restore_cursor: bool,
}

/// The settlement of a prompt session that was entered with `guard` and
/// ended with `reply`.
pub open spec fn settlement(guard: RestoreCursorGuard, reply: PromptReply) -> Settlement {
    match reply {
        PromptReply::Answered(yes) => Settlement {
            outcome: Ok(
                if yes {
                    ConfirmationDecision::Proceed
                } else {
                    ConfirmationDecision::Decline
                },
            ),
            restore_cursor: false,
        },
        PromptReply::Failed(failure) => Settlement {
            outcome: if failure.is_interruption() {
                Ok(ConfirmationDecision::Interrupted)
            } else {
                Err(PromptFault::Dialog(failure))
            },
            restore_cursor: !guard.disarmed,
        },
        PromptReply::Panicked => Settlement {
            outcome: Err(PromptFault::WorkerPanicked),
            restore_cursor: !guard.disarmed,
        },
    }
}

/// Settles a prompt session. An answer disarms the guard and becomes the
/// decision. An interruption counts as a refusal by the user, not as an
/// error. Any other failure is fatal. In both of the latter cases the guard
/// fires.
pub fn settle(guard: RestoreCursorGuard, reply: PromptReply) -> (s: Settlement)
    ensures
        s == settlement(guard, reply),
{
    let mut guard = guard;
    let outcome = match reply {
        PromptReply::Answered(yes) => {
            guard.disarm();
            if yes {
                Ok(ConfirmationDecision::Proceed)
            } else {
                Ok(ConfirmationDecision::Decline)
            }
        },
        PromptReply::Failed(failure) => {
            if failure.interruption() {
                Ok(ConfirmationDecision::Interrupted)
            } else {
                Err(PromptFault::Dialog(failure))
            }
        },
        PromptReply::Panicked => Err(PromptFault::WorkerPanicked),
    };
    Settlement { outcome, restore_cursor: guard.release() }
}

/// A yes/no question, and how it is to be asked.
#[derive(Clone, Debug, PartialEq, Eq)]
pub struct Prompt {
    pub message: String,
    /// The answer counts only once the user has hit the Enter key.
    pub wait_for_newline: bool,
    /// The answer that a bare Enter stands for.
    pub default: bool,
    /// Whether the default is displayed with the question.
    pub show_default: bool,
}

/// The question asked before the database shown as `shown` is removed.
pub open spec fn drop_question(shown: Seq<char>) -> Seq<char> {
    "Drop database at "@ + shown + "?"@
}

/// `text` between the terminal's escape sequences for cyan and for reset.
pub open spec fn in_cyan(text: Seq<char>) -> Seq<char> {
    "\x1b[36m"@ + text + "\x1b[0m"@
}

/// Renders `text` through `console::style(..).cyan()`. That crate writes the
/// text unchanged where colours are switched off for the standard output, and
/// puts it between the escape sequence for a cyan foreground and the one for
/// reset where they are on; which of the two holds is a matter of the process
/// and its environment.
#[verifier::external_body]
fn cyan(text: &str) -> (shown: String)
    ensures
        shown@ == text@ || shown@ == in_cyan(text@),
{
    format!("{}", console::style(text).cyan())
}

/// The prompt that asks for leave to remove a database, given the text under
/// which the database is shown. A bare Enter declines.
pub fn drop_prompt(shown: &str) -> (prompt: Prompt)
    ensures
        prompt.message@ == drop_question(shown@),
        prompt.wait_for_newline,
        !prompt.default,
        prompt.show_default,
{
    let mut message = String::from_str("Drop database at ");
    message.append(shown);
    message.append("?");
    Prompt { message, wait_for_newline: true, default: false, show_default: true }
}

/// The prompt that asks for leave to remove the database at `db_url`. The
/// address is set in cyan where the terminal takes colours.
pub fn ask_to_continue_drop(db_url: &str) -> (prompt: Prompt)
    ensures
        prompt.message@ == drop_question(db_url@) || prompt.message@ == drop_question(
            in_cyan(db_url@),
        ),
        prompt.wait_for_newline,
        !prompt.default,
        prompt.show_default,
{
    let shown = cyan(db_url);
    drop_prompt(shown.as_str())
}

} // verus!
