use db_lifecycle::confirm::{
    ask_to_continue_drop, drop_prompt, settle, ConfirmationDecision, PromptFault, PromptReply,
    RestoreCursorGuard, Settlement,
};
use db_lifecycle::failure::{Failure, IoKind};

fn failure(io: Option<IoKind>, detail: &str) -> Failure {
    Failure { io, detail: detail.to_string() }
}

#[test]
fn only_an_affirmative_answer_confirms() {
    assert!(ConfirmationDecision::Proceed.confirm_drop());
    assert!(!ConfirmationDecision::Decline.confirm_drop());
    assert!(!ConfirmationDecision::Interrupted.confirm_drop());
}

#[test]
fn a_guard_fires_unless_disarmed() {
    let guard = RestoreCursorGuard::armed();
    assert!(!guard.disarmed);
    assert!(guard.release());
    let mut guard = RestoreCursorGuard::armed();
    guard.disarm();
    assert!(guard.disarmed);
    assert!(!guard.release());
}

#[test]
fn an_affirmative_answer_proceeds_and_disarms_the_guard() {
    assert_eq!(
        settle(RestoreCursorGuard::armed(), PromptReply::Answered(true)),
        Settlement { outcome: Ok(ConfirmationDecision::Proceed), restore_cursor: false }
    );
}

#[test]
fn a_negative_answer_declines_and_disarms_the_guard() {
    assert_eq!(
        settle(RestoreCursorGuard::armed(), PromptReply::Answered(false)),
        Settlement { outcome: Ok(ConfirmationDecision::Decline), restore_cursor: false }
    );
}

#[test]
fn an_interruption_counts_as_a_refusal_and_fires_the_guard() {
    let interrupted = failure(Some(IoKind::Interrupted), "interrupted system call");
    assert_eq!(
        settle(RestoreCursorGuard::armed(), PromptReply::Failed(interrupted)),
        Settlement { outcome: Ok(ConfirmationDecision::Interrupted), restore_cursor: true }
    );
}

#[test]
fn any_other_prompt_failure_is_fatal_and_fires_the_guard() {
    for io in [None, Some(IoKind::Other), Some(IoKind::ConnectionReset)] {
        let broken = failure(io, "not a terminal");
        assert_eq!(
            settle(RestoreCursorGuard::armed(), PromptReply::Failed(broken.clone())),
            Settlement { outcome: Err(PromptFault::Dialog(broken)), restore_cursor: true }
        );
    }
}

#[test]
fn a_dead_prompt_worker_is_fatal_and_fires_the_guard() {
    assert_eq!(
        settle(RestoreCursorGuard::armed(), PromptReply::Panicked),
        Settlement { outcome: Err(PromptFault::WorkerPanicked), restore_cursor: true }
    );
}

#[test]
fn a_disarmed_guard_does_not_fire() {
    let interrupted = failure(Some(IoKind::Interrupted), "interrupted system call");
    assert_eq!(
        settle(RestoreCursorGuard { disarmed: true }, PromptReply::Failed(interrupted)),
        Settlement { outcome: Ok(ConfirmationDecision::Interrupted), restore_cursor: false }
    );
}

#[test]
fn the_prompt_asks_about_the_database_shown() {
    let prompt = drop_prompt("postgres://localhost/mydb");
    assert_eq!(prompt.message, "Drop database at postgres://localhost/mydb?");
    assert!(prompt.wait_for_newline);
    assert!(!prompt.default);
    assert!(prompt.show_default);
    assert_eq!(drop_prompt("").message, "Drop database at ?");
}

#[test]
fn the_address_is_set_in_cyan_where_colours_are_on() {
    console::set_colors_enabled(true);
    let prompt = ask_to_continue_drop("postgres://localhost/mydb");
    assert_eq!(prompt.message, "Drop database at \u{1b}[36mpostgres://localhost/mydb\u{1b}[0m?");
    assert!(prompt.wait_for_newline);
    assert!(!prompt.default);
    assert!(prompt.show_default);
    console::set_colors_enabled(false);
    let plain = ask_to_continue_drop("postgres://localhost/mydb");
    assert_eq!(plain.message, "Drop database at postgres://localhost/mydb?");
}
