//! Which schema migrations run when a database is opened.
use super::DatabaseOptions;
use crate::error::{error_for, AppError, AppErrorCode};
use vstd::prelude::*;
use vstd::string::StrSliceExecFns;

verus! {

/// The schema version that the current migrations produce.
pub const DATABASE_VERSION: u32 = 7;

/// One step of opening a database, all inside one immediate transaction.
#[derive(Debug, Clone, Copy, PartialEq, Eq, Structural)]
pub enum MigrationAction {
    /// Run the whole script of this migration.
    RunScript(u32),
    /// Run this migration's script up to its first `;` only.
    RunFirstStatement(u32),
    /// Record this version as the schema version.
    SetVersion(u32),
    /// Commit the transaction.
    Commit,
    /// Abandon the transaction; the database keeps its former state.
    Fail,
}

/// Opening may not aim beyond the versions that exist.
pub fn check_target(options: &DatabaseOptions) -> (result: Result<(), AppError>)
    ensures
        result is Ok <==> options.target_version <= DATABASE_VERSION,
        result matches Err(e) ==> e == error_for(AppErrorCode::StorageMigrationFailed),
{
    if options.target_version > DATABASE_VERSION {
        Err(AppError::storage_migration_failed())
    } else {
        Ok(())
    }
}

/// A script's text before its first `;`: the statement that runs ahead of a failure
/// injected after it. A script without `;` cannot be split, which fails the migration.
pub fn first_statement(script: &str) -> (result: Result<&str, AppError>)
    ensures
        result is Ok <==> script@.contains(';'),
        result matches Ok(first) ==> {
            &&& first@.len() < script@.len()
            &&& script@[first@.len() as int] == ';'
            &&& first@ == script@.subrange(0, first@.len() as int)
            &&& !first@.contains(';')
        },
        result matches Err(e) ==> e == error_for(AppErrorCode::StorageMigrationFailed),
{
    let length = script.unicode_len();
    let mut i: usize = 0;
    while i < length
        invariant
            length == script@.len(),
            i <= length,
            forall|j: int| 0 <= j < i ==> script@[j] != ';',
        decreases length - i,
    {
        if script.get_char(i) == ';' {
            let first = script.substring_char(0, i);
            proof {
                assert forall|j: int| 0 <= j < first@.len() implies first@[j] != ';' by {
                    assert(first@[j] == script@[j]);
                }
            }
            return Ok(first);
        }
        i = i + 1;
    }
    Err(AppError::storage_migration_failed())
}

/// The steps from migration `version` on, for a database at `current` opened with the
/// given target and injected failures.
pub open spec fn plan_from(
    version: u32,
    current: u32,
    target: u32,
    failure: Option<u32>,
    failure_after_first: Option<u32>,
) -> Seq<MigrationAction>
    decreases DATABASE_VERSION + 1 - version,
{
    if version > DATABASE_VERSION || version == 0 {
        seq![MigrationAction::Commit]
    } else if !(version > current && version <= target) {
        plan_from((version + 1) as u32, current, target, failure, failure_after_first)
    } else if failure == Some(version) {
        seq![MigrationAction::Fail]
    } else if failure_after_first == Some(version) {
        seq![MigrationAction::RunFirstStatement(version), MigrationAction::Fail]
    } else {
        seq![MigrationAction::RunScript(version), MigrationAction::SetVersion(version)]
            + plan_from((version + 1) as u32, current, target, failure, failure_after_first)
    }
}

/// The steps of opening a database whose schema is at version `current`: a database newer
/// than the target is refused; otherwise every migration after `current` up to the target
/// runs in order and records its version, until an injected failure abandons the
/// transaction.
pub open spec fn migration_steps(
    current: u32,
    target: u32,
    failure: Option<u32>,
    failure_after_first: Option<u32>,
) -> Seq<MigrationAction> {
    if current > target {
        seq![MigrationAction::Fail]
    } else {
        plan_from(1, current, target, failure, failure_after_first)
    }
}

/// The steps to carry out, in order, once the schema version `current_version` has been
/// read inside the transaction.
pub fn migration_plan(options: &DatabaseOptions, current_version: u32) -> (plan: Vec<
    MigrationAction,
>)
    ensures
        plan@ == migration_steps(
            current_version,
            options.target_version,
            options.injected_migration_failure,
            options.injected_migration_failure_after_first_statement,
        ),
{
    let target = options.target_version;
    let failure = options.injected_migration_failure;
    let failure_after_first = options.injected_migration_failure_after_first_statement;
    let mut plan: Vec<MigrationAction> = Vec::new();
    if current_version > target {
        plan.push(MigrationAction::Fail);
        return plan;
    }
    let mut version: u32 = 1;
    while version <= DATABASE_VERSION
        invariant
            1 <= version <= DATABASE_VERSION + 1,
            current_version <= target,
            target == options.target_version,
            failure == options.injected_migration_failure,
            failure_after_first == options.injected_migration_failure_after_first_statement,
            plan@ + plan_from(version, current_version, target, failure, failure_after_first)
                == plan_from(1, current_version, target, failure, failure_after_first),
        decreases DATABASE_VERSION + 1 - version,
    {
        let ghost before = plan@;
        if version > current_version && version <= target {
            if failure == Some(version) {
                plan.push(MigrationAction::Fail);
                assert(plan@ =~= before + plan_from(
                    version,
                    current_version,
                    target,
                    failure,
                    failure_after_first,
                ));
                return plan;
            }
            if failure_after_first == Some(version) {
                plan.push(MigrationAction::RunFirstStatement(version));
                plan.push(MigrationAction::Fail);
                assert(plan@ =~= before + plan_from(
                    version,
                    current_version,
                    target,
                    failure,
                    failure_after_first,
                ));
                return plan;
            }
            plan.push(MigrationAction::RunScript(version));
            plan.push(MigrationAction::SetVersion(version));
            assert(before + plan_from(version, current_version, target, failure, failure_after_first)
                =~= plan@ + plan_from(
                (version + 1) as u32,
                current_version,
                target,
                failure,
                failure_after_first,
            ));
        }
        version = version + 1;
    }
    plan.push(MigrationAction::Commit);
    assert(plan@ =~= plan_from(1, current_version, target, failure, failure_after_first));
    plan
}

/// An injected failure that concerns a migration the plan would run.
pub open spec fn injected_in_range(injected: Option<u32>, current: u32, target: u32) -> bool {
    injected matches Some(v) && current < v <= target && 1 <= v <= DATABASE_VERSION
}

/// The clean upgrade from `current` to `target`: each migration in between, in increasing
/// order, runs and records its version; then the transaction commits.
pub open spec fn upgrade_steps(current: u32, target: u32) -> Seq<MigrationAction> {
    Seq::new(
        (2 * (target - current) + 1) as nat,
        |k: int|
            if k == 2 * (target - current) {
                MigrationAction::Commit
            } else if k % 2 == 0 {
                MigrationAction::RunScript((current + 1 + k / 2) as u32)
            } else {
                MigrationAction::SetVersion((current + 1 + k / 2) as u32)
            },
    )
}

proof fn lemma_plan_from_past_target(version: u32, current: u32, target: u32)
    requires
        1 <= version <= DATABASE_VERSION + 1,
        version > target,
    ensures
        plan_from(version, current, target, None, None) == seq![MigrationAction::Commit],
    decreases DATABASE_VERSION + 1 - version,
{
    if version <= DATABASE_VERSION {
        lemma_plan_from_past_target((version + 1) as u32, current, target);
    }
}

proof fn lemma_plan_from_clean(version: u32, current: u32, target: u32)
    requires
        1 <= version <= DATABASE_VERSION + 1,
        version <= target + 1,
        current <= target <= DATABASE_VERSION,
    ensures
        plan_from(version, current, target, None, None) == upgrade_steps(
            if version <= current {
                current
            } else {
                (version - 1) as u32
            },
            target,
        ),
    decreases DATABASE_VERSION + 1 - version,
{
    if version > target {
        lemma_plan_from_past_target(version, current, target);
        let start = if version <= current {
            current
        } else {
            (version - 1) as u32
        };
        assert(start == target);
        assert(upgrade_steps(start, target) =~= seq![MigrationAction::Commit]);
    } else if version <= current {
        lemma_plan_from_clean((version + 1) as u32, current, target);
    } else {
        lemma_plan_from_clean((version + 1) as u32, current, target);
        let start = (version - 1) as u32;
        let rest = upgrade_steps(version, target);
        assert(seq![MigrationAction::RunScript(version), MigrationAction::SetVersion(version)]
            + rest =~= upgrade_steps(start, target));
    }
}

/// With no injected failure, opening a database at a version no newer than the target runs
/// exactly the migrations after it up to the target, in order, each recording its version,
/// and commits.
pub proof fn lemma_clean_open_upgrades_in_order(current: u32, target: u32)
    requires
        current <= target <= DATABASE_VERSION,
    ensures
        migration_steps(current, target, None, None) == upgrade_steps(current, target),
{
    lemma_plan_from_clean(1, current, target);
}

proof fn lemma_plan_from_ignores_failures_elsewhere(
    version: u32,
    current: u32,
    target: u32,
    failure: Option<u32>,
    failure_after_first: Option<u32>,
)
    requires
        1 <= version <= DATABASE_VERSION + 1,
        target <= DATABASE_VERSION,
        !injected_in_range(failure, current, target),
        !injected_in_range(failure_after_first, current, target),
    ensures
        plan_from(version, current, target, failure, failure_after_first) == plan_from(
            version,
            current,
            target,
            None,
            None,
        ),
    decreases DATABASE_VERSION + 1 - version,
{
    if version <= DATABASE_VERSION {
        lemma_plan_from_ignores_failures_elsewhere(
            (version + 1) as u32,
            current,
            target,
            failure,
            failure_after_first,
        );
    }
}

/// An injected failure that names no migration which runs changes nothing: opening a
/// database at a version no newer than the target still runs exactly the migrations after
/// it up to the target, in order, and commits; the last version it records is the target.
pub proof fn lemma_failure_elsewhere_still_upgrades(
    current: u32,
    target: u32,
    failure: Option<u32>,
    failure_after_first: Option<u32>,
)
    requires
        current <= target <= DATABASE_VERSION,
        !injected_in_range(failure, current, target),
        !injected_in_range(failure_after_first, current, target),
    ensures
        migration_steps(current, target, failure, failure_after_first) == upgrade_steps(
            current,
            target,
        ),
        current < target ==> upgrade_steps(current, target)[2 * (target - current) - 1]
            == MigrationAction::SetVersion(target),
        upgrade_steps(current, target).last() == MigrationAction::Commit,
{
    lemma_plan_from_ignores_failures_elsewhere(1, current, target, failure, failure_after_first);
    lemma_plan_from_clean(1, current, target);
}

proof fn lemma_plan_from_commits(
    version: u32,
    current: u32,
    target: u32,
    failure: Option<u32>,
    failure_after_first: Option<u32>,
)
    requires
        1 <= version <= DATABASE_VERSION + 1,
        current <= target,
    ensures
        plan_from(version, current, target, failure, failure_after_first).len() > 0,
        (plan_from(version, current, target, failure, failure_after_first).last()
            == MigrationAction::Commit) <==> !((failure matches Some(v) && version <= v && current
            < v <= target && v <= DATABASE_VERSION) || (failure_after_first matches Some(v)
            && version <= v && current < v <= target && v <= DATABASE_VERSION)),
        forall|k: int|
            0 <= k < plan_from(version, current, target, failure, failure_after_first).len()
                ==> (#[trigger] plan_from(
                version,
                current,
                target,
                failure,
                failure_after_first,
            )[k] matches MigrationAction::SetVersion(v) ==> !(failure == Some(v)
                || failure_after_first == Some(v)) && current < v <= target),
    decreases DATABASE_VERSION + 1 - version,
{
    if version <= DATABASE_VERSION {
        lemma_plan_from_commits((version + 1) as u32, current, target, failure, failure_after_first);
        let rest = plan_from((version + 1) as u32, current, target, failure, failure_after_first);
        let here = plan_from(version, current, target, failure, failure_after_first);
        if version > current && version <= target && failure != Some(version)
            && failure_after_first != Some(version) {
            let two = seq![MigrationAction::RunScript(version), MigrationAction::SetVersion(version)];
            assert(here == two + rest);
            assert(here.last() == rest.last());
            assert forall|k: int| 0 <= k < here.len() implies (#[trigger] here[k] matches MigrationAction::SetVersion(v)
                ==> !(failure == Some(v) || failure_after_first == Some(v)) && current < v
                <= target) by {
                if k >= 2 {
                    assert(here[k] == rest[k - 2]);
                }
            }
        }
    }
}

/// Opening commits exactly when the database is no newer than the target and no injected
/// failure concerns a migration that would run; otherwise it ends by abandoning the
/// transaction. No version is ever recorded for a migration that an injected failure
/// concerns.
pub proof fn lemma_open_commits_unless_refused(
    current: u32,
    target: u32,
    failure: Option<u32>,
    failure_after_first: Option<u32>,
)
    ensures
        migration_steps(current, target, failure, failure_after_first).len() > 0,
        (migration_steps(current, target, failure, failure_after_first).last()
            == MigrationAction::Commit) <==> (current <= target && !injected_in_range(
            failure,
            current,
            target,
        ) && !injected_in_range(failure_after_first, current, target)),
        (migration_steps(current, target, failure, failure_after_first).last()
            != MigrationAction::Commit) ==> migration_steps(
            current,
            target,
            failure,
            failure_after_first,
        ).last() == MigrationAction::Fail,
        forall|k: int|
            0 <= k < migration_steps(current, target, failure, failure_after_first).len() ==> (
            #[trigger] migration_steps(current, target, failure, failure_after_first)[k] matches MigrationAction::SetVersion(v)
                ==> !(failure == Some(v) || failure_after_first == Some(v))),
{
    if current <= target {
        lemma_plan_from_commits(1, current, target, failure, failure_after_first);
        lemma_plan_from_ends(1, current, target, failure, failure_after_first);
    }
}

proof fn lemma_plan_from_ends(
    version: u32,
    current: u32,
    target: u32,
    failure: Option<u32>,
    failure_after_first: Option<u32>,
)
    requires
        1 <= version <= DATABASE_VERSION + 1,
    ensures
        plan_from(version, current, target, failure, failure_after_first).len() > 0,
        plan_from(version, current, target, failure, failure_after_first).last()
            == MigrationAction::Commit || plan_from(
            version,
            current,
            target,
            failure,
            failure_after_first,
        ).last() == MigrationAction::Fail,
    decreases DATABASE_VERSION + 1 - version,
{
    if version <= DATABASE_VERSION {
        lemma_plan_from_ends((version + 1) as u32, current, target, failure, failure_after_first);
        let rest = plan_from((version + 1) as u32, current, target, failure, failure_after_first);
        if version > current && version <= target && failure != Some(version)
            && failure_after_first != Some(version) {
            let two = seq![MigrationAction::RunScript(version), MigrationAction::SetVersion(version)];
            assert((two + rest).last() == rest.last());
        }
    }
}

} // verus!
