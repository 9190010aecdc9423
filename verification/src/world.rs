//! The bridge from scripts to the world: what a script can ask of the
//! component store.
//!
//! The store is a `bevy_ecs` world. The functions here take the world
//! itself; whoever shares a world between threads locks it around each call,
//! so that a call sees one state of the world from its start to its end.

use crate::components::Health;
use crate::marshal::{carried, converted_health_reads_back, dynamic_from_id, read_back, Carried};
use bevy_ecs::world::World;
use rhai::Dynamic;
use vstd::prelude::*;

verus! {

/// `bevy_ecs::world::World`, carried as an opaque value.
#[verifier::external_type_specification]
#[verifier::external_body]
pub struct ExWorld(bevy_ecs::world::World);

/// The number of entity slots that the world has allocated so far: the
/// length of `World::entities().meta`. A slot stays when its entity is
/// despawned.
pub uninterp spec fn slot_count(world: World) -> nat;

/// The health records in the world, in the order in which a query for them
/// walks the world.
pub uninterp spec fn stored_health(world: World) -> Seq<Health>;

/// Reads the length of `World::entities().meta`.
#[verifier::external_body]
fn entity_slots(world: &World) -> (slots: usize)
    ensures
        slots == slot_count(*world),
{
    world.entities().meta.len()
}

/// Calls `World::query` for `&Health` and `QueryState::iter`, and copies
/// each record that the iterator yields.
///
/// The query notes the component type and the matching archetypes in the
/// world; it allocates no entity and writes no component.
#[verifier::external_body]
fn query_health(world: &mut World) -> (found: Vec<Health>)
    ensures
        found@ == stored_health(*old(world)),
        stored_health(*final(world)) == stored_health(*old(world)),
        slot_count(*final(world)) == slot_count(*old(world)),
{
    let mut query = world.query::<&Health>();
    query.iter(world).cloned().collect()
}

/// `values` are the ids of the world's entity slots in storage order: one
/// value per slot, the value at index `i` holding `i`.
pub open spec fn lists_slots(world: World, values: Seq<Dynamic>) -> bool {
    &&& values.len() == slot_count(world)
    &&& forall|i: int|
        0 <= i < values.len() ==> carried(#[trigger] values[i]) == Carried::EntityId(i as u64)
}

/// `values` are copies of the world's health records in query order.
pub open spec fn lists_health(world: World, values: Seq<Dynamic>) -> bool {
    &&& values.len() == stored_health(world).len()
    &&& forall|i: int|
        0 <= i < values.len() ==> carried(#[trigger] values[i]) == Carried::Health(
            stored_health(world)[i],
        )
}

/// The ids of all entity slots of the world, in storage order, as script
/// values. Slots are listed whatever components their entities have.
pub fn get_characters(world: &World) -> (ids: Vec<Dynamic>)
    ensures
        lists_slots(*world, ids@),
{
    let slots = entity_slots(world);
    let mut ids: Vec<Dynamic> = Vec::new();
    let mut next: usize = 0;
    while next < slots
        invariant
            next <= slots,
            slots == slot_count(*world),
            ids.len() == next,
            forall|i: int|
                0 <= i < ids.len() ==> carried(#[trigger] ids[i]) == Carried::EntityId(i as u64),
        decreases slots - next,
    {
        ids.push(dynamic_from_id(next as u64));
        next = next + 1;
    }
    ids
}

/// Copies of all health records of the world, in query order, as script
/// values. The records in the world stay as they are.
pub fn get_health(world: &mut World) -> (snapshots: Vec<Dynamic>)
    ensures
        lists_health(*old(world), snapshots@),
        stored_health(*final(world)) == stored_health(*old(world)),
        slot_count(*final(world)) == slot_count(*old(world)),
{
    let found = query_health(world);
    let mut snapshots: Vec<Dynamic> = Vec::new();
    let mut next: usize = 0;
    while next < found.len()
        invariant
            next <= found.len(),
            found@ == stored_health(*old(world)),
            snapshots.len() == next,
            forall|i: int|
                0 <= i < snapshots.len() ==> carried(#[trigger] snapshots[i]) == Carried::Health(
                    found[i],
                ),
        decreases found.len() - next,
    {
        let snapshot: Dynamic = (&found[next]).into();
        snapshots.push(snapshot);
        next = next + 1;
    }
    snapshots
}

/// What a script reads of a delivered record is what the world holds: the
/// value at index `i` of a listing of the world's health records reads back
/// exactly the value of the `i`-th record in the world.
pub proof fn delivered_health_reads_back(world: World, delivered: Seq<Dynamic>, i: int)
    requires
        lists_health(world, delivered),
        0 <= i < delivered.len(),
    ensures
        read_back(delivered[i]) == Some(stored_health(world)[i].value),
{
    converted_health_reads_back(stored_health(world)[i], delivered[i]);
}

} // verus!
