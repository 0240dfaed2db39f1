//! What holds of every manager, whatever it was asked before: stated over the
//! tables and proved from their definitions.

use super::key::combine;
use super::state::Tables;
use vstd::prelude::*;

verus! {

/// How often the build runs over consecutive loads of the ordered pair
/// `(first, second)`, where the build of the i-th load, if it runs, ends as
/// `outcomes[i]`.
///
/// A load runs its build exactly where it finds `Lookup::Build`: it asks
/// nothing of a build that it is handed otherwise, so it cannot call it, and
/// there its answer is an outcome of that build on the two stored sources.
/// `Manager::load_counted` says so of a build that counts its runs: each
/// load adds to the count what is added up here.
pub open spec fn builds<C, E>(
    tables: Tables<C>,
    first: Seq<u8>,
    second: Seq<u8>,
    outcomes: Seq<Result<C, E>>,
) -> nat
    decreases outcomes.len(),
{
    if outcomes.len() == 0 {
        0
    } else {
        let ran: nat = if tables.lookup(first, second) is Build {
            1
        } else {
            0
        };
        ran + builds(
            tables.loaded(first, second, outcomes.first()),
            first,
            second,
            outcomes.drop_first(),
        )
    }
}

/// The tables after consecutive loads of the ordered pair `(first, second)`
/// whose builds, where they run, end as `outcomes` says.
pub open spec fn reloaded<C, E>(
    tables: Tables<C>,
    first: Seq<u8>,
    second: Seq<u8>,
    outcomes: Seq<Result<C, E>>,
) -> Tables<C>
    decreases outcomes.len(),
{
    if outcomes.len() == 0 {
        tables
    } else {
        reloaded(
            tables.loaded(first, second, outcomes.first()),
            first,
            second,
            outcomes.drop_first(),
        )
    }
}

/// Once a pair is compiled, loading it again builds nothing and changes
/// nothing, however often.
pub proof fn law_hit_builds_nothing<C, E>(
    tables: Tables<C>,
    first: Seq<u8>,
    second: Seq<u8>,
    outcomes: Seq<Result<C, E>>,
)
    requires
        tables.is_compiled(first, second),
    ensures
        builds(tables, first, second, outcomes) == 0,
        reloaded(tables, first, second, outcomes) == tables,
    decreases outcomes.len(),
{
    if outcomes.len() > 0 {
        law_hit_builds_nothing(tables, first, second, outcomes.drop_first());
    }
}

/// At most once: over any number of loads of one pair, the first of which
/// ends well, the build runs once if the pair was not compiled before, and
/// never if it was. The object handed out by the first load is the one kept
/// to the end.
pub proof fn law_built_once<C, E>(
    tables: Tables<C>,
    first: Seq<u8>,
    second: Seq<u8>,
    outcomes: Seq<Result<C, E>>,
)
    requires
        outcomes.len() >= 1,
        tables.lookup(first, second) is Hit || (tables.lookup(first, second) is Build
            && outcomes.first() is Ok),
    ensures
        builds(tables, first, second, outcomes) == if tables.is_compiled(first, second) {
            0nat
        } else {
            1nat
        },
        reloaded(tables, first, second, outcomes).is_compiled(first, second),
        reloaded(tables, first, second, outcomes).object(first, second) == if tables.is_compiled(
            first,
            second,
        ) {
            tables.object(first, second)
        } else {
            outcomes.first()->Ok_0
        },
{
    let next = tables.loaded(first, second, outcomes.first());
    law_hit_builds_nothing(next, first, second, outcomes.drop_first());
}

/// Order matters: where the keys of `(first, second)` and `(second, first)`
/// differ and both sources are stored, loading the pair in both orders, each
/// build ending well, leaves two entries. Each holds its own object: the one
/// built for its order, or the one that was kept for that order before.
pub proof fn law_order_matters<C, E>(
    tables: Tables<C>,
    first: Seq<u8>,
    second: Seq<u8>,
    forward: C,
    backward: C,
)
    requires
        combine(first, second) != combine(second, first),
        tables.sources.contains_key(first),
        tables.sources.contains_key(second),
    ensures
        ({
            let after = tables.loaded(first, second, Ok::<C, E>(forward)).loaded(
                second,
                first,
                Ok::<C, E>(backward),
            );
            &&& after.is_compiled(first, second)
            &&& after.is_compiled(second, first)
            &&& after.object(first, second) == if tables.is_compiled(first, second) {
                tables.object(first, second)
            } else {
                forward
            }
            &&& after.object(second, first) == if tables.is_compiled(second, first) {
                tables.object(second, first)
            } else {
                backward
            }
            &&& after.compiled.dom() == tables.compiled.dom().insert(
                combine(first, second),
            ).insert(combine(second, first))
        }),
{
}

/// A failed build is not remembered: the tables are as before, so the next
/// load of the pair builds again, and keeps what that build makes.
pub proof fn law_failure_forgotten<C, E>(
    tables: Tables<C>,
    first: Seq<u8>,
    second: Seq<u8>,
    error: E,
    object: C,
)
    requires
        tables.lookup(first, second) is Build,
    ensures
        ({
            let failed = tables.loaded(first, second, Err::<C, E>(error));
            let retried = failed.loaded(first, second, Ok::<C, E>(object));
            &&& failed == tables
            &&& failed.lookup(first, second) is Build
            &&& retried.is_compiled(first, second)
            &&& retried.object(first, second) == object
        }),
{
}

/// Storing a source, new or in place of another, leaves every compiled
/// object where it is: a pair compiled before is still a hit, with the object
/// built from the sources of that time.
pub proof fn law_store_keeps_compiled<C>(
    tables: Tables<C>,
    name: Seq<u8>,
    text: String,
    first: Seq<u8>,
    second: Seq<u8>,
)
    ensures
        tables.stored(name, text).compiled == tables.compiled,
        tables.is_compiled(first, second) ==> tables.stored(name, text).lookup(first, second)
            is Hit && tables.stored(name, text).object(first, second) == tables.object(
            first,
            second,
        ),
{
}

/// Write-once: whatever a load or a recorded build does, each key that held
/// an object before holds the same object after.
pub proof fn law_kept_forever<C, E>(
    tables: Tables<C>,
    first: Seq<u8>,
    second: Seq<u8>,
    outcome: Result<C, E>,
    key: u64,
)
    requires
        tables.compiled.contains_key(key),
    ensures
        tables.recorded(first, second, outcome).compiled.contains_key(key),
        tables.recorded(first, second, outcome).compiled[key] == tables.compiled[key],
        tables.loaded(first, second, outcome).compiled.contains_key(key),
        tables.loaded(first, second, outcome).compiled[key] == tables.compiled[key],
{
}

/// A load never touches the sources.
pub proof fn law_load_keeps_sources<C, E>(
    tables: Tables<C>,
    first: Seq<u8>,
    second: Seq<u8>,
    outcome: Result<C, E>,
)
    ensures
        tables.loaded(first, second, outcome).sources == tables.sources,
{
}

/// One thing that a manager is asked to do, with the outcome of the build
/// where one belongs to it.
pub enum Step<C, E> {
    /// A source is stored under a name.
    Store { name: Seq<u8>, text: String },
    /// A pair is loaded; its build, if it runs, ends as `outcome`.
    Load { first: Seq<u8>, second: Seq<u8>, outcome: Result<C, E> },
    /// The outcome of a build for a pair is recorded.
    Record { first: Seq<u8>, second: Seq<u8>, outcome: Result<C, E> },
}

/// The tables after one step.
pub open spec fn stepped<C, E>(tables: Tables<C>, step: Step<C, E>) -> Tables<C> {
    match step {
        Step::Store { name, text } => tables.stored(name, text),
        Step::Load { first, second, outcome } => tables.loaded(first, second, outcome),
        Step::Record { first, second, outcome } => tables.recorded(first, second, outcome),
    }
}

/// The tables after a run of steps, the first step first.
pub open spec fn ran<C, E>(tables: Tables<C>, steps: Seq<Step<C, E>>) -> Tables<C>
    decreases steps.len(),
{
    if steps.len() == 0 {
        tables
    } else {
        ran(stepped(tables, steps.first()), steps.drop_first())
    }
}

/// Whether a step puts a new object under `key`.
pub open spec fn fills<C, E>(tables: Tables<C>, step: Step<C, E>, key: u64) -> bool {
    !tables.compiled.contains_key(key) && stepped(tables, step).compiled.contains_key(key)
}

/// How many steps of a run put a new object under `key`.
pub open spec fn filled<C, E>(tables: Tables<C>, steps: Seq<Step<C, E>>, key: u64) -> nat
    decreases steps.len(),
{
    if steps.len() == 0 {
        0
    } else {
        let now: nat = if fills(tables, steps.first(), key) {
            1
        } else {
            0
        };
        now + filled(stepped(tables, steps.first()), steps.drop_first(), key)
    }
}

/// Write-once, over a manager's whole life: whatever it is asked to do, a key
/// that holds an object keeps that very object, and no step fills it again.
pub proof fn law_write_once<C, E>(tables: Tables<C>, steps: Seq<Step<C, E>>, key: u64)
    requires
        tables.compiled.contains_key(key),
    ensures
        ran(tables, steps).compiled.contains_key(key),
        ran(tables, steps).compiled[key] == tables.compiled[key],
        filled(tables, steps, key) == 0,
    decreases steps.len(),
{
    if steps.len() > 0 {
        law_write_once(stepped(tables, steps.first()), steps.drop_first(), key);
    }
}

/// At most once, over a manager's whole life: whatever it is asked to do, each
/// key is filled at most once.
pub proof fn law_filled_at_most_once<C, E>(tables: Tables<C>, steps: Seq<Step<C, E>>, key: u64)
    ensures
        filled(tables, steps, key) <= 1,
    decreases steps.len(),
{
    if steps.len() > 0 {
        let next = stepped(tables, steps.first());
        if next.compiled.contains_key(key) {
            law_write_once(next, steps.drop_first(), key);
        } else {
            law_filled_at_most_once(next, steps.drop_first(), key);
        }
    }
}

/// A step changes the compiled table only by filling the key of its own
/// pair: a store fills nothing, and so does a load or a record of a failure.
pub proof fn law_fills_its_own_key<C, E>(tables: Tables<C>, step: Step<C, E>, key: u64)
    requires
        fills(tables, step, key),
    ensures
        match step {
            Step::Store { .. } => false,
            Step::Load { first, second, outcome } => key == combine(first, second)
                && outcome is Ok && tables.lookup(first, second) is Build,
            Step::Record { first, second, outcome } => key == combine(first, second)
                && outcome is Ok,
        },
{
}

} // verus!
