//! What holds of the script cache across calls, proved from the contracts of
//! [`ScriptManager`](crate::script_manager::ScriptManager).
//!
//! A call of `add_script` compiles and then caches the outcome; the laws
//! speak of the outcome of each call's compilation and of the caches before
//! and after it, as `add_script` states them.

use crate::behavior::BehaviorType;
use crate::script_manager::{stored, CompileError};
use rhai::{ParseError, AST};
use vstd::prelude::*;

verus! {

/// `after` is what a call of `add_script` for `pair`, whose compilation came
/// out as `outcome`, left of `before`.
pub open spec fn is_step(
    before: Map<(i32, BehaviorType), AST>,
    after: Map<(i32, BehaviorType), AST>,
    pair: (i32, BehaviorType),
    outcome: Result<AST, ParseError>,
) -> bool {
    exists|result: Result<(), CompileError>| #[trigger]
        stored(before, after, pair.0, pair.1, outcome, result)
}

/// The caches that a run of `add_script` calls goes through, from an empty
/// cache on: `caches[i + 1]` is what the call for `pairs[i]`, whose
/// compilation came out as `outcomes[i]`, left of `caches[i]`.
pub open spec fn is_run(
    caches: Seq<Map<(i32, BehaviorType), AST>>,
    pairs: Seq<(i32, BehaviorType)>,
    outcomes: Seq<Result<AST, ParseError>>,
) -> bool {
    &&& caches.len() == pairs.len() + 1
    &&& outcomes.len() == pairs.len()
    &&& caches[0] == Map::<(i32, BehaviorType), AST>::empty()
    &&& forall|i: int|
        0 <= i < pairs.len() ==> is_step(caches[i], #[trigger] caches[i + 1], pairs[i], outcomes[i])
}

/// Adding twice under one pair leaves the second script: after two calls for
/// `(entity_id, behavior_type)` whose compilations gave `first` and then
/// `second`, both calls have succeeded, a lookup finds exactly `second`, and
/// every other pair is as it was before the two calls.
pub proof fn second_script_replaces_first(
    before: Map<(i32, BehaviorType), AST>,
    between: Map<(i32, BehaviorType), AST>,
    after: Map<(i32, BehaviorType), AST>,
    entity_id: i32,
    behavior_type: BehaviorType,
    first: AST,
    second: AST,
    first_result: Result<(), CompileError>,
    second_result: Result<(), CompileError>,
)
    requires
        stored(before, between, entity_id, behavior_type, Ok(first), first_result),
        stored(between, after, entity_id, behavior_type, Ok(second), second_result),
    ensures
        first_result is Ok,
        second_result is Ok,
        after.get((entity_id, behavior_type)) == Some(second),
        after == before.insert((entity_id, behavior_type), second),
{
    assert(after =~= before.insert((entity_id, behavior_type), second));
}

/// A call for one pair leaves every other pair alone: however the
/// compilation for `(entity_id, behavior_type)` came out, a lookup of a pair
/// that differs in the entity or in the behavior finds what it found before.
pub proof fn other_pairs_are_untouched(
    before: Map<(i32, BehaviorType), AST>,
    after: Map<(i32, BehaviorType), AST>,
    entity_id: i32,
    behavior_type: BehaviorType,
    outcome: Result<AST, ParseError>,
    result: Result<(), CompileError>,
    other_entity: i32,
    other_behavior: BehaviorType,
)
    requires
        stored(before, after, entity_id, behavior_type, outcome, result),
        other_entity != entity_id || other_behavior != behavior_type,
    ensures
        after.get((other_entity, other_behavior)) == before.get((other_entity, other_behavior)),
{
}

/// A failed call changes nothing: a call for `(entity_id, behavior_type)`
/// whose compilation failed with `cause` fails with that cause, and a lookup
/// of that pair, as of any other, finds what was cached before the call, or
/// nothing where nothing was.
pub proof fn failed_add_keeps_the_cache(
    before: Map<(i32, BehaviorType), AST>,
    after: Map<(i32, BehaviorType), AST>,
    entity_id: i32,
    behavior_type: BehaviorType,
    cause: ParseError,
    result: Result<(), CompileError>,
)
    requires
        stored(before, after, entity_id, behavior_type, Err(cause), result),
    ensures
        result == Err::<(), CompileError>(CompileError { cause }),
        after.get((entity_id, behavior_type)) == before.get((entity_id, behavior_type)),
        after == before,
{
}

/// A pair for which nothing was ever compiled is not found: after any run of
/// calls from an empty cache in which every call for `(entity_id,
/// behavior_type)` failed to compile, a lookup of that pair finds nothing.
pub proof fn pair_without_a_compiled_script_is_absent(
    caches: Seq<Map<(i32, BehaviorType), AST>>,
    pairs: Seq<(i32, BehaviorType)>,
    outcomes: Seq<Result<AST, ParseError>>,
    entity_id: i32,
    behavior_type: BehaviorType,
)
    requires
        is_run(caches, pairs, outcomes),
        forall|i: int|
            0 <= i < pairs.len() && pairs[i] == (entity_id, behavior_type) ==> outcomes[i] is Err,
    ensures
        caches.last().get((entity_id, behavior_type)) is None,
    decreases pairs.len(),
{
    if pairs.len() > 0 {
        let last = pairs.len() - 1;
        let earlier = caches.drop_last();
        assert forall|i: int| 0 <= i < pairs.drop_last().len() implies is_step(
            earlier[i],
            #[trigger] earlier[i + 1],
            pairs.drop_last()[i],
            outcomes.drop_last()[i],
        ) by {
            assert(is_step(caches[i], caches[i + 1], pairs[i], outcomes[i]));
        }
        pair_without_a_compiled_script_is_absent(
            earlier,
            pairs.drop_last(),
            outcomes.drop_last(),
            entity_id,
            behavior_type,
        );
        assert(earlier.last() == caches[last]);
        assert(is_step(caches[last], caches[last + 1], pairs[last], outcomes[last]));
        let result = choose|result: Result<(), CompileError>| #[trigger]
            stored(
                caches[last],
                caches[last + 1],
                pairs[last].0,
                pairs[last].1,
                outcomes[last],
                result,
            );
        if pairs[last] != (entity_id, behavior_type) {
            other_pairs_are_untouched(
                caches[last],
                caches[last + 1],
                pairs[last].0,
                pairs[last].1,
                outcomes[last],
                result,
                entity_id,
                behavior_type,
            );
        }
    }
}

/// A pair that no call was made for is not found: after any run of calls from
/// an empty cache, none of them for `(entity_id, behavior_type)`, a lookup of
/// that pair finds nothing.
pub proof fn unregistered_pair_is_absent(
    caches: Seq<Map<(i32, BehaviorType), AST>>,
    pairs: Seq<(i32, BehaviorType)>,
    outcomes: Seq<Result<AST, ParseError>>,
    entity_id: i32,
    behavior_type: BehaviorType,
)
    requires
        is_run(caches, pairs, outcomes),
        forall|i: int| 0 <= i < pairs.len() ==> pairs[i] != (entity_id, behavior_type),
    ensures
        caches.last().get((entity_id, behavior_type)) is None,
{
    pair_without_a_compiled_script_is_absent(caches, pairs, outcomes, entity_id, behavior_type);
}

} // verus!
