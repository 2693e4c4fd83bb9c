use db_lifecycle::confirm::PromptReply;
use db_lifecycle::database::{
    create, drop, reset, setup, ConnectOpts, ConnectionTarget, MigrateOptions, Purpose, Step,
};
use db_lifecycle::failure::{Capability, Error, ErrorKind, Failure, IoKind};
use db_lifecycle::retry::RetryPolicy;

const URL: &str = "postgres://localhost/mydb";
const SOURCE: &str = "./migrations";

#[derive(Debug, PartialEq, Eq, Clone)]
enum Call {
    Exists(String),
    Create { url: String, wal: bool },
    Drop(String),
    ForceDrop(String),
    Migrate { url: String, source: String, options: MigrateOptions },
}

/// Collaborators that do as they are asked, with failures to order.
struct Mock {
    present: bool,
    cursor_visible: bool,
    answer: PromptReply,
    outages: Vec<Failure>,
    create_fault: Option<Failure>,
    drop_fault: Option<Failure>,
    busy: Option<Failure>,
    migrate_fault: Option<Failure>,
    calls: Vec<Call>,
    prompts: Vec<String>,
    pauses: Vec<u64>,
    cursor_restored: usize,
}

impl Mock {
    fn new(present: bool) -> Mock {
        Mock {
            present,
            cursor_visible: true,
            answer: PromptReply::Answered(true),
            outages: Vec::new(),
            create_fault: None,
            drop_fault: None,
            busy: None,
            migrate_fault: None,
            calls: Vec::new(),
            prompts: Vec::new(),
            pauses: Vec::new(),
            cursor_restored: 0,
        }
    }

    fn run(&mut self, first: Step) -> Result<(), Error> {
        let mut step = first;
        loop {
            step = match step {
                Step::Confirm(confirmation) => {
                    self.prompts.push(confirmation.prompt().message);
                    self.cursor_visible = matches!(self.answer, PromptReply::Answered(_));
                    confirmation.resolve(self.answer.clone())
                }
                Step::RestoreCursor(restoration) => {
                    self.cursor_visible = true;
                    self.cursor_restored += 1;
                    restoration.resolve()
                }
                Step::CheckExists(probe) => {
                    self.calls.push(Call::Exists(probe.plan.opts.target.url.clone()));
                    let reply = if self.outages.is_empty() {
                        Ok(self.present)
                    } else {
                        Err(self.outages.remove(0))
                    };
                    probe.resolve(reply)
                }
                Step::Wait(pause) => {
                    self.pauses.push(pause.delay_ms);
                    pause.resolve()
                }
                Step::Create(creation) => {
                    self.calls.push(Call::Create {
                        url: creation.plan.opts.target.url.clone(),
                        wal: creation.plan.opts.sqlite_create_db_wal,
                    });
                    let reply = match self.create_fault.take() {
                        Some(fault) => Err(fault),
                        None => {
                            self.present = true;
                            Ok(())
                        }
                    };
                    creation.resolve(reply)
                }
                Step::Drop(removal) => {
                    let url = removal.plan.opts.target.url.clone();
                    let forced = removal.capability() == Capability::ForceDrop;
                    self.calls.push(if forced { Call::ForceDrop(url) } else { Call::Drop(url) });
                    let fault = match self.drop_fault.take() {
                        Some(fault) => Some(fault),
                        None if forced => None,
                        None => self.busy.clone(),
                    };
                    let reply = match fault {
                        Some(fault) => Err(fault),
                        None => {
                            self.present = false;
                            Ok(())
                        }
                    };
                    removal.resolve(reply)
                }
                Step::Migrate(migration) => {
                    self.calls.push(Call::Migrate {
                        url: migration.opts.target.url.clone(),
                        source: migration.source.to_string(),
                        options: migration.options,
                    });
                    let reply = match self.migrate_fault.take() {
                        Some(fault) => Err(fault),
                        None => Ok(()),
                    };
                    migration.resolve(reply)
                }
                Step::Done(result) => return result,
            };
        }
    }
}

fn opts() -> ConnectOpts {
    ConnectOpts {
        target: ConnectionTarget { url: URL.to_string() },
        retry: RetryPolicy { max_retries: 3, base_delay_ms: 100, max_delay_ms: 250 },
        sqlite_create_db_wal: true,
    }
}

fn failure(io: Option<IoKind>, detail: &str) -> Failure {
    Failure { io, detail: detail.to_string() }
}

fn refused() -> Failure {
    failure(Some(IoKind::ConnectionRefused), "connection refused")
}

fn checked() -> Call {
    Call::Exists(URL.to_string())
}

fn created() -> Call {
    Call::Create { url: URL.to_string(), wal: true }
}

fn migrated() -> Call {
    Call::Migrate {
        url: URL.to_string(),
        source: SOURCE.to_string(),
        options: MigrateOptions {
            dry_run: false,
            ignore_missing: false,
            fake: false,
            target_version: None,
        },
    }
}

fn error(kind: ErrorKind, operation: Capability, failure: Option<Failure>) -> Error {
    Error { kind, operation, target: URL.to_string(), failure }
}

#[test]
fn create_begins_with_the_existence_check() {
    let opts = opts();
    match create(&opts) {
        Step::CheckExists(probe) => {
            assert_eq!(probe.purpose, Purpose::Create);
            assert_eq!(probe.failures, 0);
            assert_eq!(probe.plan.opts, &opts);
            assert!(!probe.plan.recreate);
            assert_eq!(probe.plan.migration_source, None);
        }
        other => panic!("unexpected first step: {:?}", other),
    }
}

#[test]
fn create_twice_creates_once() {
    let opts = opts();
    let mut mock = Mock::new(false);
    assert_eq!(mock.run(create(&opts)), Ok(()));
    assert!(mock.present);
    assert_eq!(mock.calls, vec![checked(), created()]);
    assert_eq!(mock.run(create(&opts)), Ok(()));
    assert!(mock.present);
    assert_eq!(mock.calls, vec![checked(), created(), checked()]);
}

#[test]
fn create_passes_the_engine_setting_on() {
    let mut opts = opts();
    opts.sqlite_create_db_wal = false;
    let mut mock = Mock::new(false);
    assert_eq!(mock.run(create(&opts)), Ok(()));
    assert_eq!(mock.calls, vec![checked(), Call::Create { url: URL.to_string(), wal: false }]);
}

#[test]
fn drop_of_absent_database_invokes_no_removal() {
    let opts = opts();
    for force in [false, true] {
        let mut mock = Mock::new(false);
        assert_eq!(mock.run(drop(&opts, false, force)), Ok(()));
        assert_eq!(mock.calls, vec![checked()]);
        assert!(!mock.present);
    }
}

#[test]
fn drop_twice_drops_once() {
    let opts = opts();
    let mut mock = Mock::new(true);
    assert_eq!(mock.run(drop(&opts, false, false)), Ok(()));
    assert!(!mock.present);
    assert_eq!(mock.run(drop(&opts, false, false)), Ok(()));
    assert_eq!(mock.calls, vec![checked(), Call::Drop(URL.to_string()), checked()]);
}

#[test]
fn forced_drop_invokes_the_forced_removal() {
    let opts = opts();
    let mut mock = Mock::new(true);
    assert_eq!(mock.run(drop(&opts, false, true)), Ok(()));
    assert_eq!(mock.calls, vec![checked(), Call::ForceDrop(URL.to_string())]);
    assert!(!mock.present);
}

#[test]
fn confirmed_drop_removes_the_database() {
    let opts = opts();
    let mut mock = Mock::new(true);
    console::set_colors_enabled(false);
    assert_eq!(mock.run(drop(&opts, true, false)), Ok(()));
    assert_eq!(mock.prompts, vec!["Drop database at postgres://localhost/mydb?".to_string()]);
    assert_eq!(mock.calls, vec![checked(), Call::Drop(URL.to_string())]);
    assert_eq!(mock.cursor_restored, 0);
    assert!(mock.cursor_visible);
}

#[test]
fn unconfirmed_drop_asks_nothing() {
    let opts = opts();
    let mut mock = Mock::new(true);
    mock.answer = PromptReply::Answered(false);
    assert_eq!(mock.run(drop(&opts, false, false)), Ok(()));
    assert!(mock.prompts.is_empty());
    assert_eq!(mock.calls, vec![checked(), Call::Drop(URL.to_string())]);
}

#[test]
fn declined_drop_never_invokes_the_driver() {
    let opts = opts();
    for force in [false, true] {
        let mut mock = Mock::new(true);
        mock.answer = PromptReply::Answered(false);
        assert_eq!(mock.run(drop(&opts, true, force)), Ok(()));
        assert_eq!(mock.prompts.len(), 1);
        assert!(mock.calls.is_empty());
        assert!(mock.present);
        assert_eq!(mock.cursor_restored, 0);
    }
}

#[test]
fn interrupted_drop_succeeds_and_restores_the_cursor() {
    let opts = opts();
    let mut mock = Mock::new(true);
    mock.answer = PromptReply::Failed(failure(Some(IoKind::Interrupted), "interrupted"));
    assert_eq!(mock.run(drop(&opts, true, false)), Ok(()));
    assert!(mock.calls.is_empty());
    assert!(mock.present);
    assert!(mock.cursor_visible);
    assert_eq!(mock.cursor_restored, 1);
}

#[test]
fn broken_prompt_is_fatal_once_the_cursor_is_back() {
    let opts = opts();
    let broken = failure(Some(IoKind::Other), "not a terminal");
    let mut mock = Mock::new(true);
    mock.answer = PromptReply::Failed(broken.clone());
    assert_eq!(
        mock.run(drop(&opts, true, false)),
        Err(error(ErrorKind::PromptFatal, Capability::Confirm, Some(broken)))
    );
    assert!(mock.calls.is_empty());
    assert!(mock.cursor_visible);
    assert_eq!(mock.cursor_restored, 1);
}

#[test]
fn dead_prompt_worker_is_fatal_once_the_cursor_is_back() {
    let opts = opts();
    let mut mock = Mock::new(true);
    mock.answer = PromptReply::Panicked;
    assert_eq!(
        mock.run(reset(SOURCE, &opts, true, false)),
        Err(error(ErrorKind::PromptFatal, Capability::Confirm, None))
    );
    assert!(mock.calls.is_empty());
    assert!(mock.cursor_visible);
    assert_eq!(mock.cursor_restored, 1);
}

#[test]
fn existence_check_retries_through_two_transient_failures() {
    let opts = opts();
    for present in [false, true] {
        let mut mock = Mock::new(present);
        mock.outages = vec![
            refused(),
            failure(Some(IoKind::ConnectionReset), "connection reset"),
        ];
        assert_eq!(mock.run(create(&opts)), Ok(()));
        let checks = mock.calls.iter().filter(|call| **call == checked()).count();
        assert_eq!(checks, 3);
        if present {
            assert_eq!(mock.calls, vec![checked(), checked(), checked()]);
        } else {
            assert_eq!(mock.calls, vec![checked(), checked(), checked(), created()]);
        }
        assert_eq!(mock.pauses, vec![100, 200]);
    }
}

#[test]
fn existence_check_returns_any_other_failure_at_once() {
    let opts = opts();
    let denied = failure(None, "permission denied");
    let mut mock = Mock::new(true);
    mock.outages = vec![denied.clone(), refused()];
    assert_eq!(
        mock.run(drop(&opts, false, false)),
        Err(error(ErrorKind::Driver, Capability::Exists, Some(denied)))
    );
    assert_eq!(mock.calls, vec![checked()]);
    assert!(mock.pauses.is_empty());
    assert!(mock.present);
}

#[test]
fn existence_check_gives_up_at_the_attempt_ceiling() {
    let opts = opts();
    let last = failure(Some(IoKind::ConnectionAborted), "connection aborted");
    let mut mock = Mock::new(false);
    mock.outages = vec![refused(), refused(), refused(), last.clone(), refused()];
    assert_eq!(
        mock.run(setup(SOURCE, &opts)),
        Err(error(ErrorKind::Connection, Capability::Exists, Some(last)))
    );
    assert_eq!(mock.calls, vec![checked(), checked(), checked(), checked()]);
    assert_eq!(mock.pauses, vec![100, 200, 250]);
    assert!(!mock.present);
}

#[test]
fn retries_start_afresh_for_the_second_check_of_a_reset() {
    let opts = opts();
    let mut mock = Mock::new(true);
    mock.outages = vec![refused(), refused(), refused()];
    assert_eq!(mock.run(reset(SOURCE, &opts, false, false)), Ok(()));
    mock.outages = vec![refused(), refused(), refused()];
    mock.calls.clear();
    mock.pauses.clear();
    mock.present = false;
    assert_eq!(mock.run(reset(SOURCE, &opts, false, false)), Ok(()));
    assert_eq!(
        mock.calls,
        vec![checked(), checked(), checked(), checked(), checked(), created(), migrated()]
    );
    assert_eq!(mock.pauses, vec![100, 200, 250]);
}

#[test]
fn reset_of_existing_database_drops_then_sets_up() {
    let opts = opts();
    let mut mock = Mock::new(true);
    assert_eq!(mock.run(reset(SOURCE, &opts, true, false)), Ok(()));
    assert_eq!(
        mock.calls,
        vec![checked(), Call::Drop(URL.to_string()), checked(), created(), migrated()]
    );
    assert_eq!(mock.prompts.len(), 1);
    assert!(mock.present);
}

#[test]
fn forced_reset_uses_the_forced_removal() {
    let opts = opts();
    let mut mock = Mock::new(true);
    assert_eq!(mock.run(reset(SOURCE, &opts, false, true)), Ok(()));
    assert_eq!(
        mock.calls,
        vec![checked(), Call::ForceDrop(URL.to_string()), checked(), created(), migrated()]
    );
}

#[test]
fn reset_of_absent_database_sets_up() {
    let opts = opts();
    let mut mock = Mock::new(false);
    assert_eq!(mock.run(reset(SOURCE, &opts, false, false)), Ok(()));
    assert_eq!(mock.calls, vec![checked(), checked(), created(), migrated()]);
}

#[test]
fn declined_reset_still_sets_up() {
    let opts = opts();
    let mut mock = Mock::new(true);
    mock.answer = PromptReply::Answered(false);
    assert_eq!(mock.run(reset(SOURCE, &opts, true, false)), Ok(()));
    assert_eq!(mock.calls, vec![checked(), migrated()]);
    assert!(mock.present);
}

#[test]
fn interrupted_reset_still_sets_up() {
    let opts = opts();
    let mut mock = Mock::new(false);
    mock.answer = PromptReply::Failed(failure(Some(IoKind::Interrupted), "interrupted"));
    assert_eq!(mock.run(reset(SOURCE, &opts, true, true)), Ok(()));
    assert_eq!(mock.calls, vec![checked(), created(), migrated()]);
    assert_eq!(mock.cursor_restored, 1);
    assert!(mock.cursor_visible);
}

#[test]
fn setup_of_fresh_target_creates_then_migrates() {
    let opts = opts();
    let mut mock = Mock::new(false);
    assert_eq!(mock.run(setup(SOURCE, &opts)), Ok(()));
    assert_eq!(mock.calls, vec![checked(), created(), migrated()]);
    match &mock.calls[2] {
        Call::Migrate { options, .. } => {
            assert!(!options.dry_run);
            assert!(!options.ignore_missing);
            assert!(!options.fake);
            assert_eq!(options.target_version, None);
            assert_eq!(*options, MigrateOptions::new());
        }
        other => panic!("unexpected call: {:?}", other),
    }
    assert!(mock.present);
}

#[test]
fn setup_of_existing_database_only_migrates() {
    let opts = opts();
    let mut mock = Mock::new(true);
    assert_eq!(mock.run(setup(SOURCE, &opts)), Ok(()));
    assert_eq!(mock.calls, vec![checked(), migrated()]);
}

#[test]
fn failed_creation_aborts_before_the_migration() {
    let opts = opts();
    let denied = failure(None, "permission denied to create database");
    let mut mock = Mock::new(false);
    mock.create_fault = Some(denied.clone());
    assert_eq!(
        mock.run(setup(SOURCE, &opts)),
        Err(error(ErrorKind::Driver, Capability::Create, Some(denied)))
    );
    assert_eq!(mock.calls, vec![checked(), created()]);
}

#[test]
fn failed_removal_is_surfaced_not_retried() {
    let opts = opts();
    let in_use = failure(None, "database is being accessed by other users");
    let mut mock = Mock::new(true);
    mock.drop_fault = Some(in_use.clone());
    assert_eq!(
        mock.run(reset(SOURCE, &opts, false, false)),
        Err(error(ErrorKind::Driver, Capability::Drop, Some(in_use.clone())))
    );
    assert_eq!(mock.calls, vec![checked(), Call::Drop(URL.to_string())]);
    assert!(mock.pauses.is_empty());

    let refused = refused();
    let mut forced = Mock::new(true);
    forced.drop_fault = Some(refused.clone());
    assert_eq!(
        forced.run(drop(&opts, false, true)),
        Err(error(ErrorKind::Driver, Capability::ForceDrop, Some(refused)))
    );
    assert_eq!(forced.calls, vec![checked(), Call::ForceDrop(URL.to_string())]);
    assert!(forced.pauses.is_empty());
}

#[test]
fn busy_database_yields_to_forced_drop_only() {
    let opts = opts();
    let in_use = failure(None, "database is being accessed by other users");
    let mut mock = Mock::new(true);
    mock.busy = Some(in_use.clone());
    assert_eq!(
        mock.run(drop(&opts, false, false)),
        Err(error(ErrorKind::Driver, Capability::Drop, Some(in_use)))
    );
    assert!(mock.present);
    assert_eq!(mock.calls, vec![checked(), Call::Drop(URL.to_string())]);
    mock.calls.clear();
    assert_eq!(mock.run(drop(&opts, false, true)), Ok(()));
    assert!(!mock.present);
    assert_eq!(mock.calls, vec![checked(), Call::ForceDrop(URL.to_string())]);
}

#[test]
fn failed_migration_is_surfaced_as_it_came() {
    let opts = opts();
    let broken = failure(Some(IoKind::ConnectionReset), "migration 3 failed: syntax error");
    let mut mock = Mock::new(false);
    mock.migrate_fault = Some(broken.clone());
    assert_eq!(
        mock.run(setup(SOURCE, &opts)),
        Err(error(ErrorKind::Migration, Capability::Migrate, Some(broken)))
    );
    assert_eq!(mock.calls, vec![checked(), created(), migrated()]);
}

#[test]
fn a_pause_leads_back_to_the_check_with_its_count_kept() {
    let opts = opts();
    let first = match create(&opts) {
        Step::CheckExists(probe) => probe.resolve(Err(refused())),
        other => panic!("unexpected first step: {:?}", other),
    };
    let again = match first {
        Step::Wait(pause) => {
            assert_eq!(pause.failures, 1);
            assert_eq!(pause.delay_ms, 100);
            assert_eq!(pause.purpose, Purpose::Create);
            pause.resolve()
        }
        other => panic!("unexpected step: {:?}", other),
    };
    match again {
        Step::CheckExists(probe) => {
            assert_eq!(probe.failures, 1);
            assert_eq!(probe.purpose, Purpose::Create);
        }
        other => panic!("unexpected step: {:?}", other),
    }
}

#[test]
fn every_operation_ends_within_its_bound() {
    let opts = opts();
    let mut mock = Mock::new(true);
    mock.outages = vec![refused(), refused(), refused()];
    assert_eq!(mock.run(reset(SOURCE, &opts, true, false)), Ok(()));
    let steps = mock.prompts.len() + mock.calls.len() + mock.pauses.len() + mock.cursor_restored;
    assert!(steps <= 4 * 3 + 6);
}
