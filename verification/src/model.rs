//! A model of the collaborators, and what the operations do against it.
//!
//! The world of the model holds one database, a terminal cursor, a user whose
//! reply to a prompt is fixed in advance, and a driver and a migration engine
//! that do what they are asked, except for failures that are fixed in advance
//! too. Running an operation against a world carries out each step's outside
//! work as these collaborators would and hands the reply to the step, until
//! the operation is done. All of it is specification: nothing here is
//! compiled.

use crate::confirm::PromptReply;
use crate::database::{
    Confirmation, Creation, MigrateOptions, Pause, Plan, Probe, Purpose, Removal, Restoration,
    Step,
};
use crate::failure::{Error, Failure};
use crate::retry::RetryPolicy;
use vstd::prelude::*;

verus! {

/// One invocation of the driver or of the migration engine.
pub enum Call {
    Exists { url: Seq<char> },
    Create { url: Seq<char>, wal: bool },
    Drop { url: Seq<char> },
    ForceDrop { url: Seq<char> },
    Migrate { url: Seq<char>, source: Seq<char>, options: MigrateOptions },
}

/// The collaborators' state.
pub struct World {
    /// Whether the database exists.
    pub present: bool,
    /// Whether the terminal's cursor is shown.
    pub cursor_visible: bool,
    /// How a prompt session ends.
    pub answer: PromptReply,
    /// The failures that the next existence checks meet, in order. Once
    /// they are used up, the check answers.
    pub outages: Seq<Failure>,
    /// The failure that a creation meets, if the driver refuses to create.
    pub create_fault: Option<Failure>,
    /// The failure that a plain removal meets because the database has
    /// sessions open, if it has. A forced removal succeeds all the same.
    pub busy: Option<Failure>,
    /// The failure that a run of the migrations meets, if it meets one.
    pub migrate_fault: Option<Failure>,
    /// The invocations of the driver and of the migration engine so far.
    pub calls: Seq<Call>,
}

/// `count` existence checks of the database at `url`.
pub open spec fn checks(url: Seq<char>, count: nat) -> Seq<Call> {
    Seq::new(count, |i: int| Call::Exists { url })
}

/// The invocation that removes the database at `url`.
pub open spec fn removal_call(url: Seq<char>, force: bool) -> Call {
    if force {
        Call::ForceDrop { url }
    } else {
        Call::Drop { url }
    }
}

/// The retries that a policy still allows after `failures` failed attempts.
pub open spec fn retries_left(policy: RetryPolicy, failures: u32) -> nat {
    if failures < policy.max_retries {
        (policy.max_retries - failures) as nat
    } else {
        0
    }
}

/// A bound on the steps that a creation takes from its first check.
pub open spec fn creation_bound(policy: RetryPolicy) -> nat {
    2 * policy.max_retries as nat + 3
}

/// A bound on the steps that are left from `step` on, whatever the replies.
pub open spec fn steps_left<'a>(step: Step<'a>) -> nat {
    match step {
        Step::Done(_) => 0,
        Step::Migrate(_) => 1,
        Step::Create(_) => 2,
        Step::CheckExists(probe) => {
            let policy = probe.plan.opts.retry;
            match probe.purpose {
                Purpose::Create => 3 + 2 * retries_left(policy, probe.failures),
                Purpose::Drop => creation_bound(policy) + 2 + 2 * retries_left(
                    policy,
                    probe.failures,
                ),
            }
        },
        Step::Wait(pause) => {
            let policy = pause.plan.opts.retry;
            match pause.purpose {
                Purpose::Create => 4 + 2 * retries_left(policy, pause.failures),
                Purpose::Drop => creation_bound(policy) + 3 + 2 * retries_left(
                    policy,
                    pause.failures,
                ),
            }
        },
        Step::Drop(removal) => creation_bound(removal.plan.opts.retry) + 1,
        Step::RestoreCursor(restoration) => creation_bound(restoration.plan.opts.retry) + 1,
        Step::Confirm(confirmation) => {
            let policy = confirmation.plan.opts.retry;
            creation_bound(policy) + 3 + 2 * policy.max_retries as nat
        },
    }
}

/// Whether `next` can follow `step`, by some reply to the outside work that
/// `step` names.
pub open spec fn follows<'a>(step: Step<'a>, next: Step<'a>) -> bool {
    match step {
        Step::Confirm(confirmation) => exists|reply: PromptReply|
            next == #[trigger] confirmation.next(reply),
        Step::RestoreCursor(restoration) => next == restoration.next(),
        Step::CheckExists(probe) => exists|reply: Result<bool, Failure>|
            next == #[trigger] probe.next(reply),
        Step::Wait(pause) => next == pause.next(),
        Step::Create(creation) => exists|reply: Result<(), Failure>|
            next == #[trigger] creation.next(reply),
        Step::Drop(removal) => exists|reply: Result<(), Failure>|
            next == #[trigger] removal.next(reply),
        Step::Migrate(migration) => exists|reply: Result<(), Failure>|
            next == #[trigger] migration.next(reply),
        Step::Done(_) => false,
    }
}

/// The same step under another plan.
pub open spec fn replanned<'a>(step: Step<'a>, plan: Plan<'a>) -> Step<'a> {
    match step {
        Step::Confirm(confirmation) => Step::Confirm(Confirmation { plan, ..confirmation }),
        Step::RestoreCursor(restoration) => Step::RestoreCursor(
            Restoration { plan, ..restoration },
        ),
        Step::CheckExists(probe) => Step::CheckExists(Probe { plan, ..probe }),
        Step::Wait(pause) => Step::Wait(Pause { plan, ..pause }),
        Step::Create(_) => Step::Create(Creation { plan }),
        Step::Drop(_) => Step::Drop(Removal { plan }),
        Step::Migrate(_) => step,
        Step::Done(_) => step,
    }
}

/// Whether `step` belongs to the creation of the database under `plan`.
pub open spec fn creating<'a>(step: Step<'a>, plan: Plan<'a>) -> bool {
    match step {
        Step::CheckExists(probe) => probe.plan == plan && probe.purpose == Purpose::Create,
        Step::Wait(pause) => pause.plan == plan && pause.purpose == Purpose::Create,
        Step::Create(creation) => creation.plan == plan,
        _ => false,
    }
}

/// Whether `step` belongs to the removal of the database under `plan`, the
/// confirmation included.
pub open spec fn removing<'a>(step: Step<'a>, plan: Plan<'a>) -> bool {
    match step {
        Step::Confirm(confirmation) => confirmation.plan == plan && !confirmation.guard.disarmed,
        Step::RestoreCursor(restoration) => restoration.plan == plan,
        Step::CheckExists(probe) => probe.plan == plan && probe.purpose == Purpose::Drop,
        Step::Wait(pause) => pause.plan == plan && pause.purpose == Purpose::Drop,
        Step::Drop(removal) => removal.plan == plan,
        _ => false,
    }
}

impl World {
    /// The world after one more invocation.
    pub open spec fn logged(self, call: Call) -> World {
        World { calls: self.calls.push(call), ..self }
    }

    /// Whether the outages ahead are all transient and few enough for the
    /// retries of `policy` to outlast them.
    pub open spec fn weathered_by(self, policy: RetryPolicy) -> bool {
        &&& self.outages.len() <= policy.max_retries
        &&& forall|i: int| 0 <= i < self.outages.len() ==> (#[trigger] self.outages[i]).is_transient()
    }

    /// Carries out the outside work of `step`: the world after it, and the
    /// step that follows the collaborator's reply.
    pub open spec fn respond<'a>(self, step: Step<'a>) -> (World, Step<'a>) {
        match step {
            Step::Confirm(confirmation) => (
                World { cursor_visible: self.answer is Answered, ..self },
                confirmation.next(self.answer),
            ),
            Step::RestoreCursor(restoration) => (
                World { cursor_visible: true, ..self },
                restoration.next(),
            ),
            Step::CheckExists(probe) => {
                let checked = self.logged(Call::Exists { url: probe.plan.opts.target@ });
                if self.outages.len() > 0 {
                    (
                        World { outages: self.outages.drop_first(), ..checked },
                        probe.next(Err(self.outages[0])),
                    )
                } else {
                    (checked, probe.next(Ok(self.present)))
                }
            },
            Step::Wait(pause) => (self, pause.next()),
            Step::Create(creation) => {
                let asked = self.logged(
                    Call::Create {
                        url: creation.plan.opts.target@,
                        wal: creation.plan.opts.sqlite_create_db_wal,
                    },
                );
                match self.create_fault {
                    Some(failure) => (asked, creation.next(Err(failure))),
                    None => (World { present: true, ..asked }, creation.next(Ok(()))),
                }
            },
            Step::Drop(removal) => {
                let asked = self.logged(
                    removal_call(removal.plan.opts.target@, removal.plan.force),
                );
                if self.busy is Some && !removal.plan.force {
                    (asked, removal.next(Err(self.busy->0)))
                } else {
                    (World { present: false, ..asked }, removal.next(Ok(())))
                }
            },
            Step::Migrate(migration) => {
                let asked = self.logged(
                    Call::Migrate {
                        url: migration.opts.target@,
                        source: migration.source@,
                        options: migration.options,
                    },
                );
                match self.migrate_fault {
                    Some(failure) => (asked, migration.next(Err(failure))),
                    None => (asked, migration.next(Ok(()))),
                }
            },
            Step::Done(_) => (self, step),
        }
    }

    /// Runs an operation from `step` to its end: the world it leaves, and
    /// its result.
    pub open spec fn run<'a>(self, step: Step<'a>) -> (World, Result<(), Error>)
        decreases steps_left(step),
    {
        match step {
            Step::Done(result) => (self, result),
            _ => {
                let (world, next) = self.respond(step);
                world.run(next)
            },
        }
    }
}

} // verus!
