//! The four lifecycle operations: `create`, `drop`, `reset` and `setup`.
//!
//! An operation is a chain of steps. Each step but the last names one piece
//! of outside work and waits for its reply; `resolve` takes the reply and
//! gives the step that follows. Creation and removal are gated by an
//! existence check, so that each is a no-op where there is nothing to do.
//! Only that check is ever retried.

use crate::confirm::{
    ask_to_continue_drop, drop_question, in_cyan, settle, settlement, Prompt, PromptFault,
    PromptReply, RestoreCursorGuard,
};
use crate::failure::{Capability, Error, ErrorKind, Failure};
use crate::retry::{retry_idempotent, RetryPolicy, Verdict};
use vstd::prelude::*;

verus! {

/// The address of one database instance: a connection URL that has been
/// validated before it gets here.
#[derive(Clone, Debug, PartialEq, Eq)]
pub struct ConnectionTarget {
    pub url: String,
}

impl View for ConnectionTarget {
    type V = Seq<char>;

    open spec fn view(&self) -> Seq<char> {
        self.url@
    }
}

/// How to reach the target, and how to treat it.
#[derive(Clone, Debug, PartialEq, Eq)]
pub struct ConnectOpts {
    pub target: ConnectionTarget,
    /// The patience of the existence check.
    pub retry: RetryPolicy,
    /// A setting of the engine that has to be in place before the database
    /// is first created: whether it is created in write-ahead-log mode.
    pub sqlite_create_db_wal: bool,
}

/// The options that a run of the migration engine takes.
#[derive(Clone, Copy, Debug, PartialEq, Eq, Structural)]
pub struct MigrateOptions {
    pub dry_run: bool,
    pub ignore_missing: bool,
    pub fake: bool,
    pub target_version: Option<i64>,
}

impl MigrateOptions {
    /// The options of a plain run: every migration is applied for real, up
    /// to the newest, and none may be missing.
    pub open spec fn plain() -> MigrateOptions {
        MigrateOptions { dry_run: false, ignore_missing: false, fake: false, target_version: None }
    }

    pub fn new() -> (options: MigrateOptions)
        ensures
            options == MigrateOptions::plain(),
    {
        MigrateOptions { dry_run: false, ignore_missing: false, fake: false, target_version: None }
    }
}

/// What an operation has been asked to do, kept from step to step.
#[derive(Clone, Copy, Debug, PartialEq, Eq)]
pub struct Plan<'a> {
    pub opts: &'a ConnectOpts,
    /// Whether a removal uses the forced variant, which succeeds even while
    /// the database has sessions open.
    pub force: bool,
    /// Whether the database is created again once the removal is over.
    pub recreate: bool,
    /// Where the migrations to apply after creation come from, if any are.
    pub migration_source: Option<&'a str>,
}

/// The gated action that an existence check serves.
#[derive(Clone, Copy, Debug, PartialEq, Eq, Structural)]
pub enum Purpose {
    Drop,
    Create,
}

/// The user is to be asked whether the database may be removed.
#[derive(Debug, PartialEq, Eq)]
pub struct Confirmation<'a> {
    pub plan: Plan<'a>,
    pub guard: RestoreCursorGuard,
}

/// The prompt was left with the cursor hidden: it is to be shown again.
#[derive(Debug, PartialEq, Eq)]
pub struct Restoration<'a> {
    pub plan: Plan<'a>,
    /// The fault that ends the operation once the cursor is back, if the
    /// prompt broke down; `None` after an interruption.
    pub fault: Option<PromptFault>,
}

/// The driver is to be asked whether the database exists.
#[derive(Debug, PartialEq, Eq)]
pub struct Probe<'a> {
    pub plan: Plan<'a>,
    pub purpose: Purpose,
    /// The attempts that have failed so far.
    pub failures: u32,
}

/// Time is to pass before the existence check is tried again.
#[derive(Debug, PartialEq, Eq)]
pub struct Pause<'a> {
    pub plan: Plan<'a>,
    pub purpose: Purpose,
    pub failures: u32,
    pub delay_ms: u64,
}

/// The database, found absent, is to be created.
#[derive(Debug, PartialEq, Eq)]
pub struct Creation<'a> {
    pub plan: Plan<'a>,
}

/// The database, found present, is to be removed.
#[derive(Debug, PartialEq, Eq)]
pub struct Removal<'a> {
    pub plan: Plan<'a>,
}

/// The migration engine is to run against the database.
#[derive(Debug, PartialEq, Eq)]
pub struct Migration<'a> {
    pub opts: &'a ConnectOpts,
    pub source: &'a str,
    pub options: MigrateOptions,
}

/// One step of an operation: the outside work that is due, or the result.
#[derive(Debug, PartialEq, Eq)]
pub enum Step<'a> {
    Confirm(Confirmation<'a>),
    RestoreCursor(Restoration<'a>),
    CheckExists(Probe<'a>),
    Wait(Pause<'a>),
    Create(Creation<'a>),
    Drop(Removal<'a>),
    Migrate(Migration<'a>),
    Done(Result<(), Error>),
}

impl<'a> Plan<'a> {
    /// The error that abandons the operation.
    pub open spec fn failed(
        self,
        kind: ErrorKind,
        operation: Capability,
        failure: Option<Failure>,
    ) -> Step<'a> {
        Step::Done(Err(Error { kind, operation, target: self.opts.target.url, failure }))
    }

    /// The first step of the removal proper: its existence check.
    pub open spec fn removal(self) -> Step<'a> {
        Step::CheckExists(Probe { plan: self, purpose: Purpose::Drop, failures: 0 })
    }

    /// The first step of the creation: its existence check.
    pub open spec fn creation(self) -> Step<'a> {
        Step::CheckExists(Probe { plan: self, purpose: Purpose::Create, failures: 0 })
    }

    /// What follows a removal that succeeded or was skipped.
    pub open spec fn after_removal(self) -> Step<'a> {
        if self.recreate {
            self.creation()
        } else {
            Step::Done(Ok(()))
        }
    }

    /// What follows a creation that succeeded or was not needed.
    pub open spec fn after_creation(self) -> Step<'a> {
        match self.migration_source {
            Some(source) => Step::Migrate(
                Migration { opts: self.opts, source, options: MigrateOptions::plain() },
            ),
            None => Step::Done(Ok(())),
        }
    }

    /// The capability that removes the database under this plan.
    pub open spec fn removal_capability(self) -> Capability {
        if self.force {
            Capability::ForceDrop
        } else {
            Capability::Drop
        }
    }

    fn fail(
        self,
        kind: ErrorKind,
        operation: Capability,
        failure: Option<Failure>,
    ) -> (step: Step<'a>)
        ensures
            step == self.failed(kind, operation, failure),
    {
        Step::Done(Err(Error { kind, operation, target: self.opts.target.url.clone(), failure }))
    }

    fn begin_removal(self) -> (step: Step<'a>)
        ensures
            step == self.removal(),
    {
        Step::CheckExists(Probe { plan: self, purpose: Purpose::Drop, failures: 0 })
    }

    fn begin_creation(self) -> (step: Step<'a>)
        ensures
            step == self.creation(),
    {
        Step::CheckExists(Probe { plan: self, purpose: Purpose::Create, failures: 0 })
    }

    fn finish_removal(self) -> (step: Step<'a>)
        ensures
            step == self.after_removal(),
    {
        if self.recreate {
            self.begin_creation()
        } else {
            Step::Done(Ok(()))
        }
    }

    fn finish_creation(self) -> (step: Step<'a>)
        ensures
            step == self.after_creation(),
    {
        match self.migration_source {
            Some(source) => Step::Migrate(
                Migration { opts: self.opts, source, options: MigrateOptions::new() },
            ),
            None => Step::Done(Ok(())),
        }
    }
}

impl<'a> Confirmation<'a> {
    /// The step that follows the prompt's reply. An affirmative answer lets
    /// the removal begin. A refusal skips it, which is no error. Where the
    /// prompt was left with the cursor hidden, the cursor comes first.
    pub open spec fn next(self, reply: PromptReply) -> Step<'a> {
        let settled = settlement(self.guard, reply);
        if settled.restore_cursor {
            Step::RestoreCursor(
                Restoration {
                    plan: self.plan,
                    fault: match settled.outcome {
                        Ok(_) => None,
                        Err(fault) => Some(fault),
                    },
                },
            )
        } else {
            match settled.outcome {
                Ok(decision) => if decision.allows_drop() {
                    self.plan.removal()
                } else {
                    self.plan.after_removal()
                },
                Err(fault) => self.plan.failed(
                    ErrorKind::PromptFatal,
                    Capability::Confirm,
                    fault.report(),
                ),
            }
        }
    }

    /// The question to put to the user.
    pub fn prompt(&self) -> (prompt: Prompt)
        ensures
            prompt.message@ == drop_question(self.plan.opts.target@) || prompt.message@
                == drop_question(in_cyan(self.plan.opts.target@)),
            prompt.wait_for_newline,
            !prompt.default,
            prompt.show_default,
    {
        ask_to_continue_drop(self.plan.opts.target.url.as_str())
    }

    pub fn resolve(self, reply: PromptReply) -> (step: Step<'a>)
        ensures
            step == self.next(reply),
    {
        let Confirmation { plan, guard } = self;
        let settled = settle(guard, reply);
        if settled.restore_cursor {
            let fault = match settled.outcome {
                Ok(_) => None,
                Err(fault) => Some(fault),
            };
            Step::RestoreCursor(Restoration { plan, fault })
        } else {
            match settled.outcome {
                Ok(decision) => {
                    if decision.confirm_drop() {
                        plan.begin_removal()
                    } else {
                        plan.finish_removal()
                    }
                },
                Err(fault) => plan.fail(
                    ErrorKind::PromptFatal,
                    Capability::Confirm,
                    fault.into_report(),
                ),
            }
        }
    }
}

impl PromptFault {
    /// The report that the fault carries, if the prompt made one.
    pub open spec fn report(self) -> Option<Failure> {
        match self {
            PromptFault::Dialog(failure) => Some(failure),
            PromptFault::WorkerPanicked => None,
        }
    }

    fn into_report(self) -> (report: Option<Failure>)
        ensures
            report == self.report(),
    {
        match self {
            PromptFault::Dialog(failure) => Some(failure),
            PromptFault::WorkerPanicked => None,
        }
    }
}

impl<'a> Restoration<'a> {
    /// The step that follows once the cursor is shown again: after an
    /// interruption the removal counts as refused; after a breakdown the
    /// operation ends with the fault.
    pub open spec fn next(self) -> Step<'a> {
        match self.fault {
            None => self.plan.after_removal(),
            Some(fault) => self.plan.failed(
                ErrorKind::PromptFatal,
                Capability::Confirm,
                fault.report(),
            ),
        }
    }

    pub fn resolve(self) -> (step: Step<'a>)
        ensures
            step == self.next(),
    {
        let Restoration { plan, fault } = self;
        match fault {
            None => plan.finish_removal(),
            Some(fault) => plan.fail(
                ErrorKind::PromptFatal,
                Capability::Confirm,
                fault.into_report(),
            ),
        }
    }
}

impl<'a> Probe<'a> {
    /// The step that follows the existence check's reply. An answer decides
    /// whether the gated action is due: a removal only if the database
    /// exists, a creation only if it does not. A failure is retried or
    /// surfaced as the retry policy says.
    pub open spec fn next(self, reply: Result<bool, Failure>) -> Step<'a> {
        match self.plan.opts.retry.verdict(self.failures as nat, reply) {
            Verdict::Settled(exists) => match self.purpose {
                Purpose::Drop => if exists {
                    Step::Drop(Removal { plan: self.plan })
                } else {
                    self.plan.after_removal()
                },
                Purpose::Create => if exists {
                    self.plan.after_creation()
                } else {
                    Step::Create(Creation { plan: self.plan })
                },
            },
            Verdict::Retry { delay_ms } => Step::Wait(
                Pause {
                    plan: self.plan,
                    purpose: self.purpose,
                    failures: (self.failures + 1) as u32,
                    delay_ms,
                },
            ),
            Verdict::GiveUp { kind, failure } => self.plan.failed(
                kind,
                Capability::Exists,
                Some(failure),
            ),
        }
    }

    pub fn resolve(self, reply: Result<bool, Failure>) -> (step: Step<'a>)
        ensures
            step == self.next(reply),
    {
        let Probe { plan, purpose, failures } = self;
        match retry_idempotent(&plan.opts.retry, failures, reply) {
            Verdict::Settled(exists) => match purpose {
                Purpose::Drop => {
                    if exists {
                        Step::Drop(Removal { plan })
                    } else {
                        plan.finish_removal()
                    }
                },
                Purpose::Create => {
                    if exists {
                        plan.finish_creation()
                    } else {
                        Step::Create(Creation { plan })
                    }
                },
            },
            Verdict::Retry { delay_ms } => Step::Wait(
                Pause { plan, purpose, failures: failures + 1, delay_ms },
            ),
            Verdict::GiveUp { kind, failure } => plan.fail(kind, Capability::Exists, Some(failure)),
        }
    }
}

impl<'a> Pause<'a> {
    /// The step that follows the pause: the existence check, once more.
    pub open spec fn next(self) -> Step<'a> {
        Step::CheckExists(
            Probe { plan: self.plan, purpose: self.purpose, failures: self.failures },
        )
    }

    pub fn resolve(self) -> (step: Step<'a>)
        ensures
            step == self.next(),
    {
        let Pause { plan, purpose, failures, delay_ms: _ } = self;
        Step::CheckExists(Probe { plan, purpose, failures })
    }
}

impl<'a> Creation<'a> {
    /// The step that follows the driver's reply to the creation. A failure
    /// ends the operation before any migration runs.
    pub open spec fn next(self, reply: Result<(), Failure>) -> Step<'a> {
        match reply {
            Ok(_) => self.plan.after_creation(),
            Err(failure) => self.plan.failed(ErrorKind::Driver, Capability::Create, Some(failure)),
        }
    }

    pub fn resolve(self, reply: Result<(), Failure>) -> (step: Step<'a>)
        ensures
            step == self.next(reply),
    {
        match reply {
            Ok(_) => self.plan.finish_creation(),
            Err(failure) => self.plan.fail(ErrorKind::Driver, Capability::Create, Some(failure)),
        }
    }
}

impl<'a> Removal<'a> {
    /// The step that follows the driver's reply to the removal. A failure is
    /// surfaced, not retried.
    pub open spec fn next(self, reply: Result<(), Failure>) -> Step<'a> {
        match reply {
            Ok(_) => self.plan.after_removal(),
            Err(failure) => self.plan.failed(
                ErrorKind::Driver,
                self.plan.removal_capability(),
                Some(failure),
            ),
        }
    }

    /// The capability to invoke: the forced removal or the plain one.
    pub fn capability(&self) -> (capability: Capability)
        ensures
            capability == self.plan.removal_capability(),
    {
        if self.plan.force {
            Capability::ForceDrop
        } else {
            Capability::Drop
        }
    }

    pub fn resolve(self, reply: Result<(), Failure>) -> (step: Step<'a>)
        ensures
            step == self.next(reply),
    {
        match reply {
            Ok(_) => self.plan.finish_removal(),
            Err(failure) => {
                let capability = self.capability();
                self.plan.fail(ErrorKind::Driver, capability, Some(failure))
            },
        }
    }
}

impl<'a> Migration<'a> {
    /// The step that follows the migration engine's reply, which ends the
    /// operation either way. The engine's failure is handed on as it came.
    pub open spec fn next(self, reply: Result<(), Failure>) -> Step<'a> {
        match reply {
            Ok(_) => Step::Done(Ok(())),
            Err(failure) => Step::Done(
                Err(
                    Error {
                        kind: ErrorKind::Migration,
                        operation: Capability::Migrate,
                        target: self.opts.target.url,
                        failure: Some(failure),
                    },
                ),
            ),
        }
    }

    pub fn resolve(self, reply: Result<(), Failure>) -> (step: Step<'a>)
        ensures
            step == self.next(reply),
    {
        match reply {
            Ok(_) => Step::Done(Ok(())),
            Err(failure) => Step::Done(
                Err(
                    Error {
                        kind: ErrorKind::Migration,
                        operation: Capability::Migrate,
                        target: self.opts.target.url.clone(),
                        failure: Some(failure),
                    },
                ),
            ),
        }
    }
}

/// The plan of `create`: create the database unless it exists.
pub open spec fn create_plan<'a>(connect_opts: &'a ConnectOpts) -> Plan<'a> {
    Plan { opts: connect_opts, force: false, recreate: false, migration_source: None }
}

/// The plan of `drop`: remove the database if it exists.
pub open spec fn drop_plan<'a>(connect_opts: &'a ConnectOpts, force: bool) -> Plan<'a> {
    Plan { opts: connect_opts, force, recreate: false, migration_source: None }
}

/// The plan of `setup`: create the database unless it exists, then migrate.
pub open spec fn setup_plan<'a>(
    migration_source: &'a str,
    connect_opts: &'a ConnectOpts,
) -> Plan<'a> {
    Plan {
        opts: connect_opts,
        force: false,
        recreate: false,
        migration_source: Some(migration_source),
    }
}

/// The plan of `reset`: remove the database if it exists, then set it up.
pub open spec fn reset_plan<'a>(
    migration_source: &'a str,
    connect_opts: &'a ConnectOpts,
    force: bool,
) -> Plan<'a> {
    Plan { opts: connect_opts, force, recreate: true, migration_source: Some(migration_source) }
}

/// The first step of a removal under `plan`: the prompt where confirmation
/// is asked for, with the cursor guard armed, else the existence check.
pub open spec fn gated_removal<'a>(plan: Plan<'a>, confirm: bool) -> Step<'a> {
    if confirm {
        Step::Confirm(Confirmation { plan, guard: RestoreCursorGuard { disarmed: false } })
    } else {
        plan.removal()
    }
}

fn begin_gated_removal<'a>(plan: Plan<'a>, confirm: bool) -> (step: Step<'a>)
    ensures
        step == gated_removal(plan, confirm),
{
    if confirm {
        Step::Confirm(Confirmation { plan, guard: RestoreCursorGuard::armed() })
    } else {
        plan.begin_removal()
    }
}

/// Begins the creation of the database at the target. The database is
/// created only if the existence check finds it absent.
pub fn create<'a>(connect_opts: &'a ConnectOpts) -> (step: Step<'a>)
    ensures
        step == create_plan(connect_opts).creation(),
{
    let plan = Plan { opts: connect_opts, force: false, recreate: false, migration_source: None };
    plan.begin_creation()
}

/// Begins the removal of the database at the target. With `confirm` the user
/// is asked first, and a refusal ends the operation with success. The
/// database is removed only if the existence check finds it present; with
/// `force`, by the forced removal.
pub fn drop<'a>(connect_opts: &'a ConnectOpts, confirm: bool, force: bool) -> (step: Step<'a>)
    ensures
        step == gated_removal(drop_plan(connect_opts, force), confirm),
{
    let plan = Plan { opts: connect_opts, force, recreate: false, migration_source: None };
    begin_gated_removal(plan, confirm)
}

/// Begins a reset: the removal as in `drop`, then, whether the database was
/// removed or the removal was skipped, the setup as in `setup`.
pub fn reset<'a>(
    migration_source: &'a str,
    connect_opts: &'a ConnectOpts,
    confirm: bool,
    force: bool,
) -> (step: Step<'a>)
    ensures
        step == gated_removal(reset_plan(migration_source, connect_opts, force), confirm),
{
    let plan = Plan {
        opts: connect_opts,
        force,
        recreate: true,
        migration_source: Some(migration_source),
    };
    begin_gated_removal(plan, confirm)
}

/// Begins a setup: the creation as in `create`, then a plain run of the
/// migration engine over `migration_source`.
pub fn setup<'a>(migration_source: &'a str, connect_opts: &'a ConnectOpts) -> (step: Step<'a>)
    ensures
        step == setup_plan(migration_source, connect_opts).creation(),
{
    let plan = Plan {
        opts: connect_opts,
        force: false,
        recreate: false,
        migration_source: Some(migration_source),
    };
    plan.begin_creation()
}

} // verus!
