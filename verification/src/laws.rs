//! What holds of the operations, proved against the model of the
//! collaborators.

use crate::confirm::PromptReply;
use crate::database::{
    create_plan, drop_plan, gated_removal, reset_plan, setup_plan, ConnectOpts, MigrateOptions,
    Plan, Probe, Purpose, Step,
};
use crate::failure::{Capability, Error, ErrorKind, Failure};
use crate::model::{
    checks, creating, follows, removal_call, removing, replanned, steps_left, Call, World,
};
use vstd::prelude::*;

verus! {

/// An existence check that meets only transient outages, no more of them
/// than it has retries left, is invoked once for each outage and once more,
/// and then goes on with the true answer.
pub proof fn existence_check_outlasts_transient_outages<'a>(world: World, probe: Probe<'a>)
    requires
        probe.failures + world.outages.len() <= probe.plan.opts.retry.max_retries,
        forall|i: int| 0 <= i < world.outages.len() ==> (#[trigger] world.outages[i]).is_transient(),
    ensures
        world.run(Step::CheckExists(probe)) == (World {
            outages: Seq::empty(),
            calls: world.calls + checks(probe.plan.opts.target@, world.outages.len() + 1),
            ..world
        }).run(
            (Probe { failures: (probe.failures + world.outages.len()) as u32, ..probe }).next(
                Ok(world.present),
            ),
        ),
    decreases world.outages.len(),
{
    let url = probe.plan.opts.target@;
    let (after, next) = world.respond(Step::CheckExists(probe));
    assert(world.run(Step::CheckExists(probe)) == after.run(next));
    if world.outages.len() == 0 {
        assert(world.outages =~= Seq::empty());
        assert(world.calls.push(Call::Exists { url }) =~= world.calls + checks(url, 1));
    } else {
        assert(world.outages[0].is_transient());
        let again = Probe { failures: (probe.failures + 1) as u32, ..probe };
        assert(after.run(next) == after.run(Step::CheckExists(again)));
        assert forall|i: int| 0 <= i < after.outages.len() implies (
        #[trigger] after.outages[i]).is_transient() by {
            assert(after.outages[i] == world.outages[i + 1]);
        }
        existence_check_outlasts_transient_outages(after, again);
        assert(after.calls + checks(url, after.outages.len() + 1) =~= world.calls + checks(
            url,
            world.outages.len() + 1,
        ));
    }
}

/// A failure of the existence check that is not a transient connection
/// error ends the operation with that failure, surfaced as a driver error,
/// after the one invocation that met it.
pub proof fn existence_check_surfaces_other_failures_at_once<'a>(world: World, probe: Probe<'a>)
    requires
        world.outages.len() > 0,
        !world.outages[0].is_transient(),
    ensures
        world.run(Step::CheckExists(probe)) == (
            World {
                outages: world.outages.drop_first(),
                calls: world.calls.push(Call::Exists { url: probe.plan.opts.target@ }),
                ..world
            },
            Err::<(), Error>(
                Error {
                    kind: ErrorKind::Driver,
                    operation: Capability::Exists,
                    target: probe.plan.opts.target.url,
                    failure: Some(world.outages[0]),
                },
            ),
        ),
{
    let (after, next) = world.respond(Step::CheckExists(probe));
    assert(world.run(Step::CheckExists(probe)) == after.run(next));
}

/// The invocations that a creation under `plan` makes in `world`.
pub open spec fn creation_calls<'a>(world: World, plan: Plan<'a>) -> Seq<Call> {
    let url = plan.opts.target@;
    checks(url, world.outages.len() + 1) + (if world.present {
        Seq::<Call>::empty()
    } else {
        seq![Call::Create { url, wal: plan.opts.sqlite_create_db_wal }]
    }) + (match plan.migration_source {
        Some(source) => seq![Call::Migrate { url, source: source@, options: MigrateOptions::plain() }],
        None => Seq::<Call>::empty(),
    })
}

/// The invocations that a removal under `plan` makes in `world`, before
/// anything that follows it.
pub open spec fn removal_calls<'a>(world: World, plan: Plan<'a>) -> Seq<Call> {
    let url = plan.opts.target@;
    checks(url, world.outages.len() + 1) + (if world.present {
        seq![removal_call(url, plan.force)]
    } else {
        Seq::<Call>::empty()
    })
}

/// A creation that weathers its outages, with collaborators that do not
/// fail where they are needed, succeeds and leaves the database in
/// existence. The driver is asked to create only where the database is
/// absent, and the migrations run if the plan names any.
pub proof fn creation_creates_only_what_is_absent<'a>(world: World, plan: Plan<'a>)
    requires
        world.weathered_by(plan.opts.retry),
        !world.present ==> world.create_fault is None,
        plan.migration_source is Some ==> world.migrate_fault is None,
    ensures
        world.run(plan.creation()) == (
            World {
                present: true,
                outages: Seq::empty(),
                calls: world.calls + creation_calls(world, plan),
                ..world
            },
            Ok::<(), Error>(()),
        ),
{
    let url = plan.opts.target@;
    let probe = Probe { plan, purpose: Purpose::Create, failures: 0 };
    existence_check_outlasts_transient_outages(world, probe);
    let checked = World {
        outages: Seq::empty(),
        calls: world.calls + checks(url, world.outages.len() + 1),
        ..world
    };
    let settled = Probe { failures: world.outages.len() as u32, ..probe };
    let step = settled.next(Ok(world.present));
    let create = Call::Create { url, wal: plan.opts.sqlite_create_db_wal };
    let created = if world.present {
        checked
    } else {
        World { present: true, calls: checked.calls.push(create), ..checked }
    };
    assert(checked.run(step) == created.run(plan.after_creation())) by {
        if !world.present {
            let (after, next) = checked.respond(step);
            assert(checked.run(step) == after.run(next));
        }
    }
    match plan.migration_source {
        Some(source) => {
            let migrate = plan.after_creation();
            let (after, next) = created.respond(migrate);
            assert(created.run(migrate) == after.run(next));
            assert(after.run(next) == (after, Ok::<(), Error>(())));
            assert(after.calls =~= world.calls + creation_calls(world, plan));
        },
        None => {
            assert(created.calls =~= world.calls + creation_calls(world, plan));
        },
    }
}

/// A removal that weathers its outages leaves the database absent and goes
/// on with what the plan has follow it. The driver is asked to remove only
/// where the database is present; the plain removal must then find no
/// session open.
pub proof fn removal_removes_only_what_is_present<'a>(world: World, plan: Plan<'a>)
    requires
        world.weathered_by(plan.opts.retry),
        world.present ==> world.busy is None || plan.force,
    ensures
        world.run(plan.removal()) == (World {
            present: false,
            outages: Seq::empty(),
            calls: world.calls + removal_calls(world, plan),
            ..world
        }).run(plan.after_removal()),
{
    let url = plan.opts.target@;
    let probe = Probe { plan, purpose: Purpose::Drop, failures: 0 };
    existence_check_outlasts_transient_outages(world, probe);
    let checked = World {
        outages: Seq::empty(),
        calls: world.calls + checks(url, world.outages.len() + 1),
        ..world
    };
    let settled = Probe { failures: world.outages.len() as u32, ..probe };
    let step = settled.next(Ok(world.present));
    if world.present {
        let (after, next) = checked.respond(step);
        assert(checked.run(step) == after.run(next));
        assert(after.calls =~= world.calls + removal_calls(world, plan));
    } else {
        assert(checked.calls =~= world.calls + removal_calls(world, plan));
    }
}

/// Creating twice in succession, with a driver that creates when asked: both
/// calls succeed, the database exists after each, and the second makes one
/// existence check and nothing else, so the driver is not asked to create
/// again.
pub proof fn create_is_idempotent(connect_opts: &ConnectOpts, world: World)
    requires
        world.weathered_by(connect_opts.retry),
        world.create_fault is None,
    ensures
        ({
            let first = world.run(create_plan(connect_opts).creation());
            let second = first.0.run(create_plan(connect_opts).creation());
            &&& first.1 is Ok
            &&& first.0.present
            &&& second.1 is Ok
            &&& second.0.present
            &&& second.0.calls == first.0.calls.push(Call::Exists { url: connect_opts.target@ })
        }),
{
    let plan = create_plan(connect_opts);
    creation_creates_only_what_is_absent(world, plan);
    let first = world.run(plan.creation());
    creation_creates_only_what_is_absent(first.0, plan);
    let second = first.0.run(plan.creation());
    assert(second.0.calls =~= first.0.calls.push(Call::Exists { url: connect_opts.target@ }));
}

/// Removing twice in succession, by force or from a database that has no
/// sessions open: both calls succeed, the database is absent after each, and
/// the second makes one existence check and nothing else.
pub proof fn drop_is_idempotent(connect_opts: &ConnectOpts, force: bool, world: World)
    requires
        world.weathered_by(connect_opts.retry),
        world.busy is None || force,
    ensures
        ({
            let first = world.run(gated_removal(drop_plan(connect_opts, force), false));
            let second = first.0.run(gated_removal(drop_plan(connect_opts, force), false));
            &&& first.1 is Ok
            &&& !first.0.present
            &&& second.1 is Ok
            &&& !second.0.present
            &&& second.0.calls == first.0.calls.push(Call::Exists { url: connect_opts.target@ })
        }),
{
    let plan = drop_plan(connect_opts, force);
    removal_removes_only_what_is_present(world, plan);
    let first = world.run(plan.removal());
    removal_removes_only_what_is_present(first.0, plan);
    let second = first.0.run(plan.removal());
    assert(second.0.calls =~= first.0.calls.push(Call::Exists { url: connect_opts.target@ }));
}

/// Removing a database that does not exist succeeds, and the driver is
/// asked nothing but whether the database exists. This holds with or
/// without the forced variant, and with a confirmation that is granted as
/// well as with none.
pub proof fn drop_of_absent_database_removes_nothing(
    connect_opts: &ConnectOpts,
    confirm: bool,
    force: bool,
    world: World,
)
    requires
        !world.present,
        world.weathered_by(connect_opts.retry),
        confirm ==> world.answer == PromptReply::Answered(true),
    ensures
        ({
            let end = world.run(gated_removal(drop_plan(connect_opts, force), confirm));
            &&& end.1 is Ok
            &&& !end.0.present
            &&& end.0.calls == world.calls + checks(
                connect_opts.target@,
                world.outages.len() + 1,
            )
        }),
{
    let plan = drop_plan(connect_opts, force);
    let start = gated_removal(plan, confirm);
    if confirm {
        let (asked, next) = world.respond(start);
        assert(world.run(start) == asked.run(next));
        removal_removes_only_what_is_present(asked, plan);
        assert(asked.calls + removal_calls(asked, plan) =~= world.calls + checks(
            connect_opts.target@,
            world.outages.len() + 1,
        ));
    } else {
        removal_removes_only_what_is_present(world, plan);
        assert(world.calls + removal_calls(world, plan) =~= world.calls + checks(
            connect_opts.target@,
            world.outages.len() + 1,
        ));
    }
}

/// A removal that the user declines succeeds without a single invocation of
/// the driver: the database is left as it was.
pub proof fn declined_drop_invokes_nothing(connect_opts: &ConnectOpts, force: bool, world: World)
    requires
        world.answer == PromptReply::Answered(false),
    ensures
        world.run(gated_removal(drop_plan(connect_opts, force), true)) == (
            World { cursor_visible: true, ..world },
            Ok::<(), Error>(()),
        ),
{
    let start = gated_removal(drop_plan(connect_opts, force), true);
    let (asked, next) = world.respond(start);
    assert(world.run(start) == asked.run(next));
}

/// A removal whose prompt is interrupted succeeds like one that was
/// declined: no error is raised, the driver is not invoked, and the cursor
/// is visible again.
pub proof fn interrupted_drop_restores_the_cursor(
    connect_opts: &ConnectOpts,
    force: bool,
    world: World,
    interruption: Failure,
)
    requires
        world.answer == PromptReply::Failed(interruption),
        interruption.is_interruption(),
    ensures
        world.run(gated_removal(drop_plan(connect_opts, force), true)) == (
            World { cursor_visible: true, ..world },
            Ok::<(), Error>(()),
        ),
{
    let start = gated_removal(drop_plan(connect_opts, force), true);
    let (asked, restore) = world.respond(start);
    assert(world.run(start) == asked.run(restore));
    let (shown, next) = asked.respond(restore);
    assert(asked.run(restore) == shown.run(next));
}

/// A prompt that breaks down for any reason but an interruption is fatal to
/// the removal: the cursor is shown again first, the driver is not invoked,
/// and the breakdown is surfaced with the prompt's own report.
pub proof fn broken_prompt_is_fatal_after_the_cursor_is_restored(
    connect_opts: &ConnectOpts,
    force: bool,
    world: World,
)
    requires
        world.answer is Panicked || (world.answer matches PromptReply::Failed(failure)
            && !failure.is_interruption()),
    ensures
        world.run(gated_removal(drop_plan(connect_opts, force), true)) == (
            World { cursor_visible: true, ..world },
            Err::<(), Error>(
                Error {
                    kind: ErrorKind::PromptFatal,
                    operation: Capability::Confirm,
                    target: connect_opts.target.url,
                    failure: match world.answer {
                        PromptReply::Failed(failure) => Some(failure),
                        _ => None,
                    },
                },
            ),
        ),
{
    let start = gated_removal(drop_plan(connect_opts, force), true);
    let (asked, restore) = world.respond(start);
    assert(world.run(start) == asked.run(restore));
    let (shown, next) = asked.respond(restore);
    assert(asked.run(restore) == shown.run(next));
}

/// Setting up where no database exists, with collaborators that do not
/// fail: the driver is asked whether it exists and then to create it, and the
/// migration engine runs once, with the options of a plain run.
pub proof fn setup_of_fresh_target_creates_then_migrates(
    migration_source: &str,
    connect_opts: &ConnectOpts,
    world: World,
)
    requires
        !world.present,
        world.outages.len() == 0,
        world.create_fault is None,
        world.migrate_fault is None,
    ensures
        ({
            let url = connect_opts.target@;
            let end = world.run(setup_plan(migration_source, connect_opts).creation());
            &&& end.1 is Ok
            &&& end.0.present
            &&& end.0.calls == world.calls + seq![
                Call::Exists { url },
                Call::Create { url, wal: connect_opts.sqlite_create_db_wal },
                Call::Migrate {
                    url,
                    source: migration_source@,
                    options: MigrateOptions {
                        dry_run: false,
                        ignore_missing: false,
                        fake: false,
                        target_version: None,
                    },
                },
            ]
        }),
{
    let plan = setup_plan(migration_source, connect_opts);
    creation_creates_only_what_is_absent(world, plan);
    let url = connect_opts.target@;
    assert(creation_calls(world, plan) =~= seq![
        Call::Exists { url },
        Call::Create { url, wal: connect_opts.sqlite_create_db_wal },
        Call::Migrate { url, source: migration_source@, options: MigrateOptions::plain() },
    ]);
}

/// Resetting a database that exists, with the removal confirmed or no
/// confirmation asked, and with collaborators that do not fail: the driver
/// and the migration engine see, in this order, an existence check, the
/// removal, a second existence check, the creation, and one plain run of the
/// migrations.
pub proof fn reset_of_existing_database_drops_then_sets_up(
    migration_source: &str,
    connect_opts: &ConnectOpts,
    confirm: bool,
    force: bool,
    world: World,
)
    requires
        world.present,
        world.outages.len() == 0,
        world.busy is None || force,
        world.create_fault is None,
        world.migrate_fault is None,
        confirm ==> world.answer == PromptReply::Answered(true),
    ensures
        ({
            let url = connect_opts.target@;
            let end = world.run(
                gated_removal(reset_plan(migration_source, connect_opts, force), confirm),
            );
            &&& end.1 is Ok
            &&& end.0.present
            &&& end.0.calls == world.calls + seq![
                Call::Exists { url },
                removal_call(url, force),
                Call::Exists { url },
                Call::Create { url, wal: connect_opts.sqlite_create_db_wal },
                Call::Migrate { url, source: migration_source@, options: MigrateOptions::plain() },
            ]
        }),
{
    let url = connect_opts.target@;
    let plan = reset_plan(migration_source, connect_opts, force);
    let start = gated_removal(plan, confirm);
    let asked = if confirm {
        World { cursor_visible: true, ..world }
    } else {
        world
    };
    assert(world.run(start) == asked.run(plan.removal())) by {
        if confirm {
            let (after, next) = world.respond(start);
            assert(world.run(start) == after.run(next));
        }
    }
    removal_removes_only_what_is_present(asked, plan);
    let removed = World {
        present: false,
        outages: Seq::empty(),
        calls: asked.calls + removal_calls(asked, plan),
        ..asked
    };
    creation_creates_only_what_is_absent(removed, plan);
    assert(removed.calls + creation_calls(removed, plan) =~= world.calls + seq![
        Call::Exists { url },
        removal_call(url, force),
        Call::Exists { url },
        Call::Create { url, wal: connect_opts.sqlite_create_db_wal },
        Call::Migrate { url, source: migration_source@, options: MigrateOptions::plain() },
    ]);
}

/// Where the driver refuses to create, a setup fails with the driver's
/// failure after the creation was asked for once, and no migration runs.
pub proof fn failed_creation_aborts_before_the_migration(
    migration_source: &str,
    connect_opts: &ConnectOpts,
    world: World,
    failure: Failure,
)
    requires
        !world.present,
        world.weathered_by(connect_opts.retry),
        world.create_fault == Some(failure),
    ensures
        ({
            let url = connect_opts.target@;
            world.run(setup_plan(migration_source, connect_opts).creation()) == (
                World {
                    outages: Seq::empty(),
                    calls: world.calls + checks(url, world.outages.len() + 1) + seq![
                        Call::Create { url, wal: connect_opts.sqlite_create_db_wal },
                    ],
                    ..world
                },
                Err::<(), Error>(
                    Error {
                        kind: ErrorKind::Driver,
                        operation: Capability::Create,
                        target: connect_opts.target.url,
                        failure: Some(failure),
                    },
                ),
            )
        }),
{
    let url = connect_opts.target@;
    let plan = setup_plan(migration_source, connect_opts);
    let probe = Probe { plan, purpose: Purpose::Create, failures: 0 };
    existence_check_outlasts_transient_outages(world, probe);
    let checked = World {
        outages: Seq::empty(),
        calls: world.calls + checks(url, world.outages.len() + 1),
        ..world
    };
    let create = (Probe { failures: world.outages.len() as u32, ..probe }).next(Ok(false));
    let (asked, next) = checked.respond(create);
    assert(checked.run(create) == asked.run(next));
    assert(asked.calls =~= world.calls + checks(url, world.outages.len() + 1) + seq![
        Call::Create { url, wal: connect_opts.sqlite_create_db_wal },
    ]);
}

/// Where the migrations fail, a setup fails with the engine's failure as it
/// came, the database having been created if it was absent.
pub proof fn failed_migration_is_surfaced_as_it_came(
    migration_source: &str,
    connect_opts: &ConnectOpts,
    world: World,
    failure: Failure,
)
    requires
        world.weathered_by(connect_opts.retry),
        world.create_fault is None,
        world.migrate_fault == Some(failure),
    ensures
        ({
            let end = world.run(setup_plan(migration_source, connect_opts).creation());
            &&& end.0.present
            &&& end.1 == Err::<(), Error>(
                Error {
                    kind: ErrorKind::Migration,
                    operation: Capability::Migrate,
                    target: connect_opts.target.url,
                    failure: Some(failure),
                },
            )
        }),
{
    setup_is_create_then_migrate(migration_source, connect_opts, world);
    creation_creates_only_what_is_absent(world, create_plan(connect_opts));
}

/// A database that has sessions open resists the plain removal, whose
/// failure is surfaced after one attempt, and yields to the forced one.
pub proof fn busy_database_yields_to_forced_drop_only(
    connect_opts: &ConnectOpts,
    world: World,
    failure: Failure,
)
    requires
        world.present,
        world.weathered_by(connect_opts.retry),
        world.busy == Some(failure),
    ensures
        ({
            let url = connect_opts.target@;
            let checked = World {
                outages: Seq::empty(),
                calls: world.calls + checks(url, world.outages.len() + 1),
                ..world
            };
            &&& world.run(gated_removal(drop_plan(connect_opts, false), false)) == (
                checked.logged(Call::Drop { url }),
                Err::<(), Error>(
                    Error {
                        kind: ErrorKind::Driver,
                        operation: Capability::Drop,
                        target: connect_opts.target.url,
                        failure: Some(failure),
                    },
                ),
            )
            &&& world.run(gated_removal(drop_plan(connect_opts, true), false)) == (
                World { present: false, ..checked.logged(Call::ForceDrop { url }) },
                Ok::<(), Error>(()),
            )
        }),
{
    let url = connect_opts.target@;
    let checked = World {
        outages: Seq::empty(),
        calls: world.calls + checks(url, world.outages.len() + 1),
        ..world
    };
    let plain = drop_plan(connect_opts, false);
    let probe = Probe { plan: plain, purpose: Purpose::Drop, failures: 0 };
    existence_check_outlasts_transient_outages(world, probe);
    let remove = (Probe { failures: world.outages.len() as u32, ..probe }).next(Ok(true));
    let (asked, next) = checked.respond(remove);
    assert(checked.run(remove) == asked.run(next));

    let forced = drop_plan(connect_opts, true);
    removal_removes_only_what_is_present(world, forced);
    assert(world.calls + removal_calls(world, forced) =~= checked.calls.push(
        Call::ForceDrop { url },
    ));
}

/// Whatever a collaborator replies, the step that follows is nearer to the
/// end of the operation: no operation goes on for ever, and the existence
/// check is not repeated beyond what the retry policy allows.
pub proof fn every_reply_brings_the_end_nearer<'a>(step: Step<'a>, next: Step<'a>)
    requires
        follows(step, next),
    ensures
        steps_left(next) < steps_left(step),
        steps_left(step) <= 4 * step_policy_retries(step) + 6,
{
}

/// The retries that the policy of `step` allows, where the step has one.
pub open spec fn step_policy_retries<'a>(step: Step<'a>) -> nat {
    match step {
        Step::Confirm(confirmation) => confirmation.plan.opts.retry.max_retries as nat,
        Step::RestoreCursor(restoration) => restoration.plan.opts.retry.max_retries as nat,
        Step::CheckExists(probe) => probe.plan.opts.retry.max_retries as nat,
        Step::Wait(pause) => pause.plan.opts.retry.max_retries as nat,
        Step::Create(creation) => creation.plan.opts.retry.max_retries as nat,
        Step::Drop(removal) => removal.plan.opts.retry.max_retries as nat,
        Step::Migrate(migration) => migration.opts.retry.max_retries as nat,
        Step::Done(_) => 0,
    }
}

/// A run leaves the cursor visible if it found it so, and also if it starts
/// at a prompt whose guard is armed or at the restoration of the cursor.
pub proof fn every_run_leaves_the_cursor_visible<'a>(world: World, step: Step<'a>)
    requires
        step matches Step::Confirm(confirmation) ==> !confirmation.guard.disarmed,
        world.cursor_visible || step is Confirm || step is RestoreCursor,
    ensures
        world.run(step).0.cursor_visible,
    decreases steps_left(step),
{
    if !(step is Done) {
        let (after, next) = world.respond(step);
        assert(world.run(step) == after.run(next));
        every_run_leaves_the_cursor_visible(after, next);
    }
}

/// Each of the four operations leaves the cursor visible if it found it so,
/// however the prompt ends and whatever the driver does.
pub proof fn operations_leave_the_cursor_visible(
    migration_source: &str,
    connect_opts: &ConnectOpts,
    confirm: bool,
    force: bool,
    world: World,
)
    requires
        world.cursor_visible,
    ensures
        world.run(create_plan(connect_opts).creation()).0.cursor_visible,
        world.run(gated_removal(drop_plan(connect_opts, force), confirm)).0.cursor_visible,
        world.run(
            gated_removal(reset_plan(migration_source, connect_opts, force), confirm),
        ).0.cursor_visible,
        world.run(setup_plan(migration_source, connect_opts).creation()).0.cursor_visible,
{
    every_run_leaves_the_cursor_visible(world, create_plan(connect_opts).creation());
    every_run_leaves_the_cursor_visible(
        world,
        gated_removal(drop_plan(connect_opts, force), confirm),
    );
    every_run_leaves_the_cursor_visible(
        world,
        gated_removal(reset_plan(migration_source, connect_opts, force), confirm),
    );
    every_run_leaves_the_cursor_visible(
        world,
        setup_plan(migration_source, connect_opts).creation(),
    );
}

/// A creation goes the same way under two plans that agree on the target's
/// options and on the migrations: whether a removal came before it, and how
/// that removal was made, is of no account.
proof fn lemma_creation_ignores_the_removal<'a>(
    world: World,
    step: Step<'a>,
    plan: Plan<'a>,
    other: Plan<'a>,
)
    requires
        creating(step, plan),
        plan.opts == other.opts,
        plan.migration_source == other.migration_source,
    ensures
        world.run(replanned(step, other)) == world.run(step),
    decreases steps_left(step),
{
    let twin = replanned(step, other);
    let (after, next) = world.respond(step);
    let (after_twin, next_twin) = world.respond(twin);
    assert(world.run(step) == after.run(next));
    assert(world.run(twin) == after_twin.run(next_twin));
    assert(after_twin == after);
    if creating(next, plan) {
        assert(next_twin == replanned(next, other));
        lemma_creation_ignores_the_removal(after, next, plan, other);
    } else {
        assert(next_twin == next);
    }
}

/// The world and result of a creation, once the run of the migrations is
/// added that a setup has follow it.
pub open spec fn then_migrated(
    created: (World, Result<(), Error>),
    migration_source: &str,
    connect_opts: &ConnectOpts,
) -> (World, Result<(), Error>) {
    match created.1 {
        Ok(_) => (
            created.0.logged(
                Call::Migrate {
                    url: connect_opts.target@,
                    source: migration_source@,
                    options: MigrateOptions::plain(),
                },
            ),
            match created.0.migrate_fault {
                Some(failure) => Err(
                    Error {
                        kind: ErrorKind::Migration,
                        operation: Capability::Migrate,
                        target: connect_opts.target.url,
                        failure: Some(failure),
                    },
                ),
                None => Ok(()),
            },
        ),
        Err(_) => created,
    }
}

proof fn lemma_setup_follows_creation<'a>(
    world: World,
    step: Step<'a>,
    migration_source: &'a str,
    connect_opts: &'a ConnectOpts,
)
    requires
        creating(step, create_plan(connect_opts)),
    ensures
        world.run(replanned(step, setup_plan(migration_source, connect_opts))) == then_migrated(
            world.run(step),
            migration_source,
            connect_opts,
        ),
    decreases steps_left(step),
{
    let plan = create_plan(connect_opts);
    let other = setup_plan(migration_source, connect_opts);
    let twin = replanned(step, other);
    let (after, next) = world.respond(step);
    let (after_twin, next_twin) = world.respond(twin);
    assert(world.run(step) == after.run(next));
    assert(world.run(twin) == after_twin.run(next_twin));
    assert(after_twin == after);
    if creating(next, plan) {
        assert(next_twin == replanned(next, other));
        lemma_setup_follows_creation(after, next, migration_source, connect_opts);
    } else if next == Step::Done(Ok::<(), Error>(())) {
        assert(next_twin == other.after_creation());
        let (migrated, last) = after.respond(next_twin);
        assert(after.run(next_twin) == migrated.run(last));
        assert(last is Done);
    } else {
        assert(next_twin == next);
    }
}

/// A setup is a creation followed by one plain run of the migrations: it
/// goes as the creation goes, and where the creation succeeds the migration
/// engine runs next and its failure, if any, becomes the setup's; where the
/// creation fails, so does the setup, with the same error and before any
/// migration has run.
pub proof fn setup_is_create_then_migrate(
    migration_source: &str,
    connect_opts: &ConnectOpts,
    world: World,
)
    ensures
        world.run(setup_plan(migration_source, connect_opts).creation()) == then_migrated(
            world.run(create_plan(connect_opts).creation()),
            migration_source,
            connect_opts,
        ),
{
    lemma_setup_follows_creation(
        world,
        create_plan(connect_opts).creation(),
        migration_source,
        connect_opts,
    );
}

/// The world and result of a removal, once the setup is added that a reset
/// has follow it.
pub open spec fn then_set_up(
    removed: (World, Result<(), Error>),
    migration_source: &str,
    connect_opts: &ConnectOpts,
) -> (World, Result<(), Error>) {
    match removed.1 {
        Ok(_) => removed.0.run(setup_plan(migration_source, connect_opts).creation()),
        Err(_) => removed,
    }
}

proof fn lemma_reset_follows_removal<'a>(
    world: World,
    step: Step<'a>,
    migration_source: &'a str,
    connect_opts: &'a ConnectOpts,
    force: bool,
)
    requires
        removing(step, drop_plan(connect_opts, force)),
    ensures
        world.run(replanned(step, reset_plan(migration_source, connect_opts, force)))
            == then_set_up(world.run(step), migration_source, connect_opts),
    decreases steps_left(step),
{
    let plan = drop_plan(connect_opts, force);
    let other = reset_plan(migration_source, connect_opts, force);
    let twin = replanned(step, other);
    let (after, next) = world.respond(step);
    let (after_twin, next_twin) = world.respond(twin);
    assert(world.run(step) == after.run(next));
    assert(world.run(twin) == after_twin.run(next_twin));
    assert(after_twin == after);
    if removing(next, plan) {
        assert(next_twin == replanned(next, other));
        lemma_reset_follows_removal(after, next, migration_source, connect_opts, force);
    } else if next == Step::Done(Ok::<(), Error>(())) {
        assert(next_twin == other.creation());
        let setup = setup_plan(migration_source, connect_opts);
        lemma_creation_ignores_the_removal(after, other.creation(), other, setup);
    } else {
        assert(next_twin == next);
    }
}

/// A reset is a removal followed by a setup: it goes as the removal goes,
/// confirmation included, and where the removal ends well, be it that the
/// database was removed, was absent, or that the user declined, the setup
/// runs next in the world that the removal left. Where the removal fails,
/// so does the reset, with the same error and before the setup has begun.
pub proof fn reset_is_drop_then_setup(
    migration_source: &str,
    connect_opts: &ConnectOpts,
    confirm: bool,
    force: bool,
    world: World,
)
    ensures
        world.run(gated_removal(reset_plan(migration_source, connect_opts, force), confirm))
            == then_set_up(
            world.run(gated_removal(drop_plan(connect_opts, force), confirm)),
            migration_source,
            connect_opts,
        ),
{
    lemma_reset_follows_removal(
        world,
        gated_removal(drop_plan(connect_opts, force), confirm),
        migration_source,
        connect_opts,
        force,
    );
}

} // verus!
