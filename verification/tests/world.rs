use ecs_store::component::get_type_id;
use ecs_store::component::Component;
use ecs_store::component::ComponentDataType;
use ecs_store::component::ComponentInterface;
use ecs_store::component::StoredComponent;
use ecs_store::entity::Entity;
use ecs_store::typeable::Identifiable;
use ecs_store::typeable::Typeable;
use ecs_store::world::World;

#[derive(Debug, PartialEq, Clone)]
struct Position {
    x: u16,
    y: u16,
}

impl ComponentDataType for Position {}

#[derive(Debug, PartialEq, Clone)]
struct Velocity {
    dx: i32,
    dy: i32,
}

impl ComponentDataType for Velocity {}

#[derive(Debug, PartialEq, Clone)]
struct Label {
    text: String,
}

impl ComponentDataType for Label {}

#[test]
fn new_world_is_empty() {
    let world = World::new();
    assert_eq!(world.entities.len(), 0);
    assert_eq!(world.components.len(), 0);
    assert!(!world.entity_with_id_exists(0));
}

#[test]
fn add_component_round_trip() {
    let mut world = World::new();
    let entity = world.add_component(Position { x: 3, y: 7 });
    assert!(world.entity_with_id_exists(entity));
    assert_eq!(world.entities.len(), 1);
    assert_eq!(world.components.len(), 1);
    let found = world.get_component_by_entity_id::<Position>(entity);
    assert!(found.is_some());
    assert_eq!(found.unwrap().data, Position { x: 3, y: 7 });
}

#[test]
fn add_component_links_entity_and_store() {
    let mut world = World::new();
    let entity = world.add_component(Label { text: String::from("crate") });
    let filed = world.entities.get(&entity).unwrap();
    assert_eq!(filed.id, entity);
    assert_eq!(filed.components.len(), 1);
    let named = *filed.components.get(&get_type_id::<Label>()).unwrap();
    let slot = world.components.last().unwrap();
    assert_eq!(slot.get_id(), named);
    assert_eq!(slot.get_type_id(), get_type_id::<Label>());
    let found = world.get_component_by_component_id::<Label>(named).unwrap();
    assert_eq!(found.get_id(), named);
    assert_eq!(found.get_type_id(), get_type_id::<Label>());
    assert_eq!(found.data.text, "crate");
}

#[test]
fn add_component_many_times_keeps_each_payload() {
    let mut world = World::new();
    let mut entities = Vec::new();
    for y in 0..200u16 {
        entities.push(world.add_component(Position { x: 3, y }));
    }
    assert_eq!(world.components.len(), 200);
    for (y, entity) in entities.iter().enumerate() {
        let found = world.get_component_by_entity_id::<Position>(*entity).unwrap();
        assert_eq!(found.data, Position { x: 3, y: y as u16 });
    }
}

#[test]
fn attach_to_created_entity() {
    let mut world = World::new();
    let entity = world.create_new_entity_in_world();
    assert!(world.entity_with_id_exists(entity));
    assert!(world.get_component_by_entity_id::<Position>(entity).is_none());
    let attached = world.add_component_to_entity_by_entity_id(Position { x: 5, y: 6 }, entity);
    assert!(attached.is_some());
    let found = world.get_component_by_entity_id::<Position>(entity).unwrap();
    assert_eq!(found.data, Position { x: 5, y: 6 });
    assert_eq!(found.get_id(), attached.unwrap());
    assert_eq!(world.entities.len(), 1);
    assert_eq!(world.components.len(), 1);
}

#[test]
fn attach_to_missing_entity_changes_nothing() {
    let mut world = World::new();
    world.create_new_entity_in_world_by_id(7);
    world.add_component_to_entity_by_entity_id(Position { x: 2, y: 2 }, 7);
    let attached = world.add_component_to_entity_by_entity_id(Position { x: 1, y: 1 }, 8);
    assert_eq!(attached, None);
    assert_eq!(world.entities.len(), 1);
    assert_eq!(world.components.len(), 1);
    assert!(!world.entity_with_id_exists(8));
    let found = world.get_component_by_entity_id::<Position>(7).unwrap();
    assert_eq!(found.data, Position { x: 2, y: 2 });
}

#[test]
fn attach_to_unknown_id_in_empty_world() {
    let mut world = World::new();
    let attached =
        world.add_component_to_entity_by_entity_id(Position { x: 1, y: 1 }, 0xDEADBEEF);
    assert_eq!(attached, None);
    assert_eq!(world.entities.len(), 0);
    assert_eq!(world.components.len(), 0);
}

#[test]
fn second_attach_of_same_type_overwrites() {
    let mut world = World::new();
    let e1 = world.create_new_entity_in_world();
    let first = world.add_component_to_entity_by_entity_id(Position { x: 1, y: 2 }, e1);
    assert!(first.is_some());
    assert_eq!(
        world.get_component_by_entity_id::<Position>(e1).unwrap().data,
        Position { x: 1, y: 2 }
    );
    let second = world.add_component_to_entity_by_entity_id(Position { x: 9, y: 9 }, e1);
    assert!(second.is_some());
    assert_ne!(first, second);
    let found = world.get_component_by_entity_id::<Position>(e1).unwrap();
    assert_eq!(found.data, Position { x: 9, y: 9 });
    assert_eq!(found.get_id(), second.unwrap());
}

#[test]
fn overwritten_record_stays_in_store() {
    let mut world = World::new();
    let entity = world.create_new_entity_in_world();
    let first = world
        .add_component_to_entity_by_entity_id(Position { x: 1, y: 2 }, entity)
        .unwrap();
    let second = world
        .add_component_to_entity_by_entity_id(Position { x: 9, y: 9 }, entity)
        .unwrap();
    assert_eq!(world.components.len(), 2);
    assert_eq!(world.components[0].get_id(), first);
    assert_eq!(world.components[1].get_id(), second);
    let orphan = world.get_component_by_component_id::<Position>(first).unwrap();
    assert_eq!(orphan.data, Position { x: 1, y: 2 });
    let filed = world.entities.get(&entity).unwrap();
    assert_eq!(filed.components.len(), 1);
    assert!(filed.components.values().all(|named| *named != first));
}

#[test]
fn two_types_on_one_entity_are_kept_apart() {
    let mut world = World::new();
    let entity = world.create_new_entity_in_world();
    let position = world
        .add_component_to_entity_by_entity_id(Position { x: 4, y: 5 }, entity)
        .unwrap();
    let velocity = world
        .add_component_to_entity_by_entity_id(Velocity { dx: -1, dy: 8 }, entity)
        .unwrap();
    assert_eq!(
        world.get_component_by_entity_id::<Position>(entity).unwrap().data,
        Position { x: 4, y: 5 }
    );
    assert_eq!(
        world.get_component_by_entity_id::<Velocity>(entity).unwrap().data,
        Velocity { dx: -1, dy: 8 }
    );
    assert!(world.get_component_by_component_id::<Position>(velocity).is_none());
    assert!(world.get_component_by_component_id::<Velocity>(position).is_none());
    assert!(world.get_component_by_entity_id::<Label>(entity).is_none());
    assert_eq!(world.entities.get(&entity).unwrap().components.len(), 2);
}

#[test]
fn lookup_by_unknown_component_id_is_absent() {
    let mut world = World::new();
    let entity = world.add_component(Position { x: 1, y: 1 });
    let named = world.get_component_by_entity_id::<Position>(entity).unwrap().get_id();
    assert!(world.get_component_by_component_id::<Position>(named.wrapping_add(1)).is_none());
    assert!(world.get_component_by_component_id_mut::<Position>(named.wrapping_add(1)).is_none());
}

#[test]
fn lookup_by_unknown_entity_id_is_absent() {
    let mut world = World::new();
    let entity = world.add_component(Position { x: 1, y: 1 });
    assert!(world.get_component_by_entity_id::<Position>(entity.wrapping_add(1)).is_none());
    assert!(world.get_component_by_entity_id_mut::<Position>(entity.wrapping_add(1)).is_none());
}

#[test]
fn create_entity_by_id_replaces_the_entity_filed_there() {
    let mut world = World::new();
    world.create_new_entity_in_world_by_id(5);
    let attached = world
        .add_component_to_entity_by_entity_id(Position { x: 1, y: 1 }, 5)
        .unwrap();
    world.create_new_entity_in_world_by_id(5);
    assert_eq!(world.entities.len(), 1);
    assert_eq!(world.entities.get(&5).unwrap().components.len(), 0);
    assert!(world.get_component_by_entity_id::<Position>(5).is_none());
    assert_eq!(world.components.len(), 1);
    let orphan = world.get_component_by_component_id::<Position>(attached).unwrap();
    assert_eq!(orphan.data, Position { x: 1, y: 1 });
}

#[test]
fn create_entity_draws_different_identifiers() {
    let mut world = World::new();
    let a = world.create_new_entity_in_world();
    let b = world.create_new_entity_in_world();
    assert_ne!(a, b);
    assert_eq!(world.entities.len(), 2);
    assert_eq!(world.entities.get(&a).unwrap().get_id(), a);
    assert_eq!(world.entities.get(&b).unwrap().get_id(), b);
}

#[test]
fn attach_by_entity_reference_uses_its_identifier() {
    let mut world = World::new();
    world.create_new_entity_in_world_by_id(11);
    let handle = Entity::new_with_id(11);
    let attached = world.add_component_to_entity_by_entity(Velocity { dx: 2, dy: 3 }, &handle);
    assert!(attached.is_some());
    assert_eq!(handle.components.len(), 0);
    assert_eq!(
        world.get_component_by_entity_id::<Velocity>(11).unwrap().data,
        Velocity { dx: 2, dy: 3 }
    );
    let stranger = Entity::new_with_id(12);
    let refused = world.add_component_to_entity_by_entity(Velocity { dx: 0, dy: 0 }, &stranger);
    assert_eq!(refused, None);
    assert_eq!(world.components.len(), 1);
}

#[test]
fn lookup_by_entity_reads_the_index_of_the_entity_given() {
    let mut world = World::new();
    world.create_new_entity_in_world_by_id(1);
    let attached = world
        .add_component_to_entity_by_entity_id(Position { x: 8, y: 9 }, 1)
        .unwrap();
    let mut handle = Entity::new_with_id(99);
    assert!(world.get_component_by_entity::<Position>(&handle).is_none());
    handle.components.insert(get_type_id::<Position>(), attached);
    let found = world.get_component_by_entity::<Position>(&handle).unwrap();
    assert_eq!(found.data, Position { x: 8, y: 9 });
    handle.components.insert(get_type_id::<Velocity>(), attached);
    assert!(world.get_component_by_entity::<Velocity>(&handle).is_none());
    assert!(world.get_component_by_entity_mut::<Velocity>(&handle).is_none());
    let writable = world.get_component_by_entity_mut::<Position>(&handle).unwrap();
    writable.data.y = 10;
    assert_eq!(
        world.get_component_by_entity_id::<Position>(1).unwrap().data,
        Position { x: 8, y: 10 }
    );
}

#[test]
fn write_through_entity_id_lookup() {
    let mut world = World::new();
    let entity = world.add_component(Position { x: 3, y: 0 });
    let found = world.get_component_by_entity_id_mut::<Position>(entity).unwrap();
    found.data.x = 4;
    assert_eq!(
        world.get_component_by_entity_id::<Position>(entity).unwrap().data,
        Position { x: 4, y: 0 }
    );
    assert!(world.get_component_by_entity_id_mut::<Velocity>(entity).is_none());
    assert_eq!(world.components.len(), 1);
    assert_eq!(world.entities.len(), 1);
}

#[test]
fn write_through_component_id_lookup() {
    let mut world = World::new();
    world.create_new_entity_in_world_by_id(2);
    let position = world
        .add_component_to_entity_by_entity_id(Position { x: 1, y: 1 }, 2)
        .unwrap();
    let velocity = world
        .add_component_to_entity_by_entity_id(Velocity { dx: 1, dy: 1 }, 2)
        .unwrap();
    world.get_component_by_component_id_mut::<Velocity>(velocity).unwrap().data.dx = -7;
    assert!(world.get_component_by_component_id_mut::<Velocity>(position).is_none());
    assert_eq!(
        world.get_component_by_component_id::<Velocity>(velocity).unwrap().data,
        Velocity { dx: -7, dy: 1 }
    );
    assert_eq!(
        world.get_component_by_component_id::<Position>(position).unwrap().data,
        Position { x: 1, y: 1 }
    );
    assert_eq!(world.components[0].get_id(), position);
    assert_eq!(world.components[1].get_id(), velocity);
}

#[test]
fn first_slot_under_an_identifier_decides() {
    let mut world = World::new();
    let velocity = Component::new_with_id(40, Velocity { dx: 1, dy: 2 });
    let shadowed = Component::new_with_id(40, Position { x: 3, y: 4 });
    let position = Component::new_with_id(41, Position { x: 5, y: 6 });
    let twin = Component::new_with_id(41, Position { x: 7, y: 8 });
    world.components.push(StoredComponent::new(velocity));
    world.components.push(StoredComponent::new(shadowed));
    world.components.push(StoredComponent::new(position));
    world.components.push(StoredComponent::new(twin));
    assert_eq!(
        world.get_component_by_component_id::<Velocity>(40).unwrap().data,
        Velocity { dx: 1, dy: 2 }
    );
    assert!(world.get_component_by_component_id::<Position>(40).is_none());
    assert!(world.get_component_by_component_id_mut::<Position>(40).is_none());
    assert_eq!(
        world.get_component_by_component_id::<Position>(41).unwrap().data,
        Position { x: 5, y: 6 }
    );
    world.get_component_by_component_id_mut::<Position>(41).unwrap().data.x = 50;
    assert_eq!(
        world.components[2].as_any().downcast_ref::<Position>().unwrap().data,
        Position { x: 50, y: 6 }
    );
    assert_eq!(
        world.components[3].as_any().downcast_ref::<Position>().unwrap().data,
        Position { x: 7, y: 8 }
    );
}

#[test]
fn record_left_with_another_id_is_found_under_it() {
    let mut world = World::new();
    world.create_new_entity_in_world_by_id(3);
    let first = world
        .add_component_to_entity_by_entity_id(Position { x: 1, y: 2 }, 3)
        .unwrap();
    let other = first.wrapping_add(1);
    *world.get_component_by_component_id_mut::<Position>(first).unwrap() =
        Component::new_with_id(other, Position { x: 6, y: 7 });
    assert!(world.get_component_by_component_id::<Position>(first).is_none());
    assert!(world.get_component_by_component_id_mut::<Position>(first).is_none());
    let moved = world.get_component_by_component_id::<Position>(other).unwrap();
    assert_eq!(moved.get_id(), other);
    assert_eq!(moved.data, Position { x: 6, y: 7 });
    assert_eq!(world.components[0].get_id(), other);
    assert!(world.get_component_by_entity_id::<Position>(3).is_none());
    assert!(world.get_component_by_entity_id_mut::<Position>(3).is_none());
    assert_eq!(world.components.len(), 1);
}

#[test]
fn record_found_carries_the_id_asked_for() {
    let mut world = World::new();
    world.create_new_entity_in_world_by_id(3);
    let position = world
        .add_component_to_entity_by_entity_id(Position { x: 1, y: 2 }, 3)
        .unwrap();
    let velocity = world
        .add_component_to_entity_by_entity_id(Velocity { dx: 1, dy: 2 }, 3)
        .unwrap();
    let by_id = world.get_component_by_component_id::<Position>(position).unwrap();
    assert_eq!(by_id.get_id(), position);
    let by_id = world.get_component_by_component_id::<Velocity>(velocity).unwrap();
    assert_eq!(by_id.get_id(), velocity);
    let by_entity = world.get_component_by_entity_id::<Position>(3).unwrap();
    assert_eq!(by_entity.get_id(), position);
    let writable = world.get_component_by_entity_id_mut::<Velocity>(3).unwrap();
    assert_eq!(writable.get_id(), velocity);
    writable.data_mut().dx = 9;
    let by_entity = world.get_component_by_entity_id::<Velocity>(3).unwrap();
    assert_eq!(by_entity.get_id(), velocity);
    assert_eq!(*by_entity.data(), Velocity { dx: 9, dy: 2 });
}
