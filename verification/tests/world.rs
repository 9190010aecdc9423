use bevy_ecs::world::World;
use ecs_scripting::{get_characters, get_health, BehaviorType, Health, ScriptManager};
use rhai::{Array, Dynamic, Scope};
use std::sync::{Arc, Mutex};

struct Armor(u32);

fn ids_of(values: Array) -> Vec<u64> {
    values
        .into_iter()
        .map(|value: Dynamic| value.try_cast::<u64>().unwrap())
        .collect()
}

fn health_of(values: Array) -> Vec<u32> {
    values
        .into_iter()
        .map(|value: Dynamic| value.try_cast::<Health>().unwrap().value)
        .collect()
}

fn seeded_world() -> World {
    let mut world = World::new();
    world.spawn().insert(Health { value: 0 });
    world.spawn().insert(Health { value: 10 });
    world
}

fn locked_health(world: &mut Arc<Mutex<World>>) -> Array {
    let mut guard = world.lock().unwrap();
    get_health(&mut guard)
}

fn locked_characters(world: Arc<Mutex<World>>) -> Array {
    let guard = world.lock().unwrap();
    get_characters(&guard)
}

#[test]
fn empty_world_has_no_characters() {
    let world = World::new();
    assert!(get_characters(&world).is_empty());
}

#[test]
fn empty_world_has_no_health() {
    let mut world = World::new();
    assert!(get_health(&mut world).is_empty());
}

#[test]
fn characters_are_slot_numbers_in_order() {
    let mut world = World::new();
    for _ in 0..5 {
        world.spawn();
    }
    assert_eq!(ids_of(get_characters(&world)), vec![0, 1, 2, 3, 4]);
}

#[test]
fn characters_include_entities_without_health() {
    let mut world = World::new();
    world.spawn().insert(Health { value: 3 });
    world.spawn().insert(Armor(1));
    world.spawn();
    assert_eq!(ids_of(get_characters(&world)), vec![0, 1, 2]);
    assert_eq!(health_of(get_health(&mut world)), vec![3]);
}

#[test]
fn characters_keep_the_slot_of_a_despawned_entity() {
    let mut world = World::new();
    let first = world.spawn().id();
    world.spawn();
    assert!(world.despawn(first));
    assert_eq!(ids_of(get_characters(&world)), vec![0, 1]);
}

#[test]
fn health_is_listed_in_storage_order() {
    let mut world = seeded_world();
    assert_eq!(health_of(get_health(&mut world)), vec![0, 10]);
}

#[test]
fn health_skips_entities_without_it() {
    let mut world = World::new();
    world.spawn().insert(Armor(5));
    world.spawn().insert(Health { value: 42 });
    world.spawn().insert(Armor(6)).insert(Health { value: 43 });
    let mut found = health_of(get_health(&mut world));
    found.sort();
    assert_eq!(found, vec![42, 43]);
}

#[test]
fn listing_health_leaves_the_world_as_it_is() {
    let mut world = seeded_world();
    let before = ids_of(get_characters(&world));
    let first = health_of(get_health(&mut world));
    let second = health_of(get_health(&mut world));
    assert_eq!(first, second);
    assert_eq!(ids_of(get_characters(&world)), before);
}

#[test]
fn changing_a_delivered_copy_leaves_the_world_alone() {
    let mut world = seeded_world();
    let delivered = get_health(&mut world);
    for value in delivered {
        let mut copy = value.try_cast::<Health>().unwrap();
        copy.value = 999;
        assert_eq!(copy.get_value(), 999);
    }
    assert_eq!(health_of(get_health(&mut world)), vec![0, 10]);
}

#[test]
fn delivered_values_read_back_exactly() {
    let mut world = World::new();
    let values = [0, 1, 9, 10, 4096, u32::MAX - 1, u32::MAX];
    for value in values {
        world.spawn().insert(Health { value });
    }
    let delivered = get_health(&mut world);
    assert_eq!(delivered.len(), values.len());
    for (index, value) in delivered.into_iter().enumerate() {
        let mut copy = value.try_cast::<Health>().unwrap();
        assert_eq!(copy.get_value(), values[index]);
    }
}

#[test]
fn script_sums_the_health_of_the_world() {
    let world = Arc::new(Mutex::new(seeded_world()));
    let mut manager = ScriptManager::new();
    manager
        .add_script(
            1,
            BehaviorType::Combat,
            "let seen = get_health(world); \
             let total = seen[0].value; \
             for i in 1..seen.len() { total += seen[i].value; } \
             total",
        )
        .unwrap();
    manager
        .modify_engine()
        .register_type::<Health>()
        .register_get("value", Health::get_value)
        .register_fn("print", |health: &mut Health| health.to_string())
        .register_fn("get_characters", locked_characters)
        .register_fn("get_health", locked_health);

    let mut scope = Scope::new();
    scope.push("world", world.clone());
    let script = manager.get_script(1, BehaviorType::Combat).unwrap();
    let total = manager
        .get_engine()
        .eval_ast_with_scope::<u32>(&mut scope, script)
        .unwrap();
    assert_eq!(total, 10);

    let direct: u32 = health_of(locked_health(&mut world.clone())).iter().sum();
    assert_eq!(total, direct);
    assert_eq!(health_of(locked_health(&mut world.clone())), vec![0, 10]);
}

#[test]
fn script_sees_every_character_and_prints_health() {
    let world = Arc::new(Mutex::new(seeded_world()));
    let printed = Arc::new(Mutex::new(Vec::<String>::new()));
    let sink = printed.clone();
    let mut manager = ScriptManager::new();
    manager
        .add_script(
            1,
            BehaviorType::Combat,
            "for health in get_health(world) { print(health); } \
             get_characters(world).len()",
        )
        .unwrap();
    manager
        .modify_engine()
        .register_type::<Health>()
        .register_get("value", Health::get_value)
        .register_fn("print", |health: &mut Health| health.to_string())
        .register_fn("get_characters", locked_characters)
        .register_fn("get_health", locked_health)
        .on_print(move |text| sink.lock().unwrap().push(text.to_string()));

    let mut scope = Scope::new();
    scope.push("world", world);
    let script = manager.get_script(1, BehaviorType::Combat).unwrap();
    let count = manager
        .get_engine()
        .eval_ast_with_scope::<i64>(&mut scope, script)
        .unwrap();
    assert_eq!(count, 2);
    assert_eq!(
        *printed.lock().unwrap(),
        vec![
            "Health { value: 0 }".to_string(),
            "Health { value: 10 }".to_string()
        ]
    );
}

#[test]
fn script_that_uses_an_unregistered_member_fails_at_run_time() {
    let world = Arc::new(Mutex::new(seeded_world()));
    let mut manager = ScriptManager::new();
    manager
        .add_script(1, BehaviorType::Combat, "get_health(world)[0].armor")
        .unwrap();
    manager
        .modify_engine()
        .register_type::<Health>()
        .register_get("value", Health::get_value)
        .register_fn("get_health", locked_health);
    let mut scope = Scope::new();
    scope.push("world", world);
    let script = manager.get_script(1, BehaviorType::Combat).unwrap();
    assert!(manager
        .get_engine()
        .eval_ast_with_scope::<Dynamic>(&mut scope, script)
        .is_err());
    assert!(manager.get_script(1, BehaviorType::Combat).is_some());
}

#[test]
fn two_handles_read_the_same_world() {
    let first = Arc::new(Mutex::new(seeded_world()));
    let mut second = first.clone();
    assert_eq!(health_of(locked_health(&mut first.clone())), vec![0, 10]);
    assert_eq!(health_of(locked_health(&mut second)), vec![0, 10]);
    first.lock().unwrap().spawn().insert(Health { value: 3 });
    assert_eq!(health_of(locked_health(&mut second)), vec![0, 10, 3]);
    assert_eq!(ids_of(locked_characters(second)), vec![0, 1, 2]);
}
