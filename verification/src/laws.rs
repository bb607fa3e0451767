use crate::component::type_tag_of;
use crate::component::Component;
use crate::component::ComponentDataType;
use crate::component::StoredComponent;
use crate::typeable::Identifiable;
use crate::world::first_with_id;
use crate::world::has_id;
use crate::world::identifiers_differ;
use crate::world::is_first_with_id;
use crate::world::is_stored;
use crate::world::lemma_first_with_id_is;
use crate::world::lemma_has_first;
use crate::world::slot_id;
use crate::world::slot_with;
use crate::world::WorldModel;
use vstd::prelude::*;

verus! {

/// Round trip: after a payload was added to the world with a new entity, the
/// lookup of its payload type through that entity returns the record that
/// holds the payload.
///
/// This is owed where the identifier drawn for the component was not in use
/// in the store before; where it was, the earlier slot decides the lookup.
pub proof fn law_add_then_get<DataType: ComponentDataType>(
    world: WorldModel,
    after: WorldModel,
    entity_id: u64,
    id: u64,
    data: DataType,
)
    requires
        world.adds(after, entity_id, Component::of(id, data)),
        !has_id(world.components, id),
    ensures
        after.component_of_entity_id::<DataType>(entity_id) == Some(Component::of(id, data)),
        after.component_of_entity_id::<DataType>(entity_id).unwrap().payload() == data,
{
    broadcast use Component::lemma_of_parts, StoredComponent::lemma_found_under_record;

    lemma_attached_is_found(world.with_entity(entity_id), after, entity_id, id, data);
}

/// An entity that was just filed is there to attach to, and names nothing
/// yet.
pub proof fn law_created_entity_exists(world: WorldModel, id: u64)
    ensures
        world.with_entity(id).entities.contains_key(id),
        world.with_entity(id).entities[id].components == Map::<u64, u64>::empty(),
        world.with_entity(id).components == world.components,
{
}

/// After a payload was attached to an entity that is filed in the world, the
/// lookup of its payload type through that entity returns the record that
/// holds the payload.
///
/// This is owed where the identifier drawn for the component was not in use
/// in the store before.
pub proof fn law_attach_then_get<DataType: ComponentDataType>(
    world: WorldModel,
    after: WorldModel,
    entity_id: u64,
    id: u64,
    data: DataType,
)
    requires
        world.entities.contains_key(entity_id),
        world.attaches(after, entity_id, Component::of(id, data)),
        !has_id(world.components, id),
    ensures
        after.component_of_entity_id::<DataType>(entity_id) == Some(Component::of(id, data)),
        after.component_of_entity_id::<DataType>(entity_id).unwrap().payload() == data,
{
    broadcast use Component::lemma_of_parts, StoredComponent::lemma_found_under_record;

    lemma_attached_is_found(world, after, entity_id, id, data);
}

/// Overwriting: after two payloads of one type were attached to one entity,
/// the lookup of that type through the entity returns the second. The first
/// record is still in the store, in the slot it took, but no entity names
/// it any more.
///
/// This is owed in a well-formed world, where neither identifier drawn was
/// in use in the store before.
pub proof fn law_second_attach_wins<DataType: ComponentDataType>(
    world: WorldModel,
    between: WorldModel,
    after: WorldModel,
    entity_id: u64,
    first_id: u64,
    first: DataType,
    second_id: u64,
    second: DataType,
)
    requires
        world.wf(),
        world.entities.contains_key(entity_id),
        world.attaches(between, entity_id, Component::of(first_id, first)),
        between.attaches(after, entity_id, Component::of(second_id, second)),
        !has_id(world.components, first_id),
        !has_id(between.components, second_id),
    ensures
        after.component_of_entity_id::<DataType>(entity_id) == Some(
            Component::of(second_id, second),
        ),
        after.components.len() == world.components.len() + 2,
        after.components[world.components.len() as int].is_slot_of(
            Component::of(first_id, first),
        ),
        forall|entity: u64, tag: u64| #[trigger]
            after.names(entity, tag) ==> after.named(entity, tag) != first_id,
{
    broadcast use Component::lemma_of_parts, StoredComponent::lemma_found_under_record;

    lemma_attached_is_found(between, after, entity_id, second_id, second);
    let first_slot = world.components.len() as int;
    assert(after.components[first_slot] == between.components[first_slot]);
    assert(slot_id(between.components, first_slot) == first_id);
    assert forall|entity: u64, tag: u64| #[trigger] after.names(entity, tag) implies after.named(
        entity,
        tag,
    ) != first_id by {
        if entity == entity_id && tag == type_tag_of::<DataType>() {
        } else {
            assert(world.names(entity, tag));
            let named = world.named(entity, tag);
            assert(is_stored(world.components, named, tag));
            let index = slot_with(world.components, named, tag);
            assert(slot_id(world.components, index) == named);
        }
    }
}

/// Type isolation: after a payload of one type and a payload of another were
/// attached to one entity, each is returned by the lookup of its own type
/// through the entity, and a request for one type by the identifier of the
/// record of the other returns nothing.
///
/// This is owed where the two types have different tags, and neither
/// identifier drawn was in use in the store before. Two types with one tag
/// share one place in the entity's index, so that the second attachment
/// takes the place of the first.
pub proof fn law_type_isolation<DataType: ComponentDataType, Other: ComponentDataType>(
    world: WorldModel,
    between: WorldModel,
    after: WorldModel,
    entity_id: u64,
    first_id: u64,
    first: DataType,
    second_id: u64,
    second: Other,
)
    requires
        type_tag_of::<DataType>() != type_tag_of::<Other>(),
        world.entities.contains_key(entity_id),
        world.attaches(between, entity_id, Component::of(first_id, first)),
        between.attaches(after, entity_id, Component::of(second_id, second)),
        !has_id(world.components, first_id),
        !has_id(between.components, second_id),
    ensures
        after.component_of_entity_id::<DataType>(entity_id) == Some(
            Component::of(first_id, first),
        ),
        after.component_of_entity_id::<Other>(entity_id) == Some(
            Component::of(second_id, second),
        ),
        after.component_by_id::<DataType>(second_id) is None,
        after.component_by_id::<Other>(first_id) is None,
{
    broadcast use Component::lemma_of_parts, StoredComponent::lemma_found_under_record;

    let second_record = Component::of(second_id, second);
    lemma_attached_is_found(world, between, entity_id, first_id, first);
    lemma_attached_is_found(between, after, entity_id, second_id, second);
    assert(has_id(between.components, first_id)) by {
        assert(slot_id(between.components, world.components.len() as int) == first_id);
    }
    lemma_attach_keeps_found::<DataType, Other>(between, after, entity_id, second_record, first_id);
    lemma_attach_keeps_found::<Other, Other>(between, after, entity_id, second_record, first_id);
}

/// No collision: where no two slots were found under one identifier, and a
/// record is attached under an identifier that was not in use, no two slots
/// are found under one identifier afterwards.
pub proof fn law_fresh_identifiers_differ<DataType: ComponentDataType>(
    world: WorldModel,
    after: WorldModel,
    entity_id: u64,
    id: u64,
    data: DataType,
)
    requires
        world.entities.contains_key(entity_id),
        world.attaches(after, entity_id, Component::of(id, data)),
        identifiers_differ(world.components),
        !has_id(world.components, id),
    ensures
        identifiers_differ(after.components),
{
    broadcast use Component::lemma_of_parts, StoredComponent::lemma_found_under_record;

    let store = after.components;
    assert forall|one: int, other: int| 0 <= one < other < store.len() implies #[trigger] slot_id(
        store,
        one,
    ) != #[trigger] slot_id(store, other) by {
        assert(slot_id(world.components, one) != id);
        if other < world.components.len() {
            assert(slot_id(world.components, one) != slot_id(world.components, other));
        }
    }
}

/// One record for each name: in a well-formed world where no two slots are
/// found under one identifier, a component that an entity names is held in
/// exactly one slot of the store.
pub proof fn law_named_record_is_unique(world: WorldModel, entity_id: u64, tag: u64)
    requires
        world.wf(),
        identifiers_differ(world.components),
        world.names(entity_id, tag),
    ensures
        first_with_id(world.components, world.named(entity_id, tag)) is Some,
        forall|index: int|
            0 <= index < world.components.len() && #[trigger] slot_id(world.components, index)
                == world.named(entity_id, tag) ==> first_with_id(
                world.components,
                world.named(entity_id, tag),
            ) == Some(index),
{
    let named = world.named(entity_id, tag);
    assert(is_stored(world.components, named, tag));
    let at = slot_with(world.components, named, tag);
    assert(slot_id(world.components, at) == named);
    lemma_has_first(world.components, named, at);
    let first = choose|first: int| is_first_with_id(world.components, named, first);
    lemma_first_with_id_is(world.components, named, first);
    assert forall|index: int|
        0 <= index < world.components.len() && #[trigger] slot_id(world.components, index)
            == named implies first_with_id(world.components, named) == Some(index) by {
        if index < first {
            assert(slot_id(world.components, index) != slot_id(world.components, first));
        }
        if first < index {
            assert(slot_id(world.components, first) != slot_id(world.components, index));
        }
    }
}

/// The record that a lookup by component identifier returns carries the
/// identifier asked for.
pub proof fn law_found_record_has_the_identifier<DataType: ComponentDataType>(
    world: WorldModel,
    id: u64,
)
    ensures
        world.component_by_id::<DataType>(id) matches Some(component) ==> component.identifier()
            == id,
{
    broadcast use StoredComponent::lemma_found_under_record;

    if first_with_id(world.components, id) is Some {
        let index = first_with_id(world.components, id).unwrap();
        assert(is_first_with_id(world.components, id, index));
    }
}

/// The record that a lookup through an entity returns carries the
/// identifier that the entity names for the tag of the payload type.
pub proof fn law_found_record_is_the_one_named<DataType: ComponentDataType>(
    world: WorldModel,
    entity_id: u64,
)
    ensures
        world.component_of_entity_id::<DataType>(entity_id) matches Some(component) ==> {
            &&& world.names(entity_id, type_tag_of::<DataType>())
            &&& component.identifier() == world.named(entity_id, type_tag_of::<DataType>())
        },
{
    if world.names(entity_id, type_tag_of::<DataType>()) {
        law_found_record_has_the_identifier::<DataType>(
            world,
            world.named(entity_id, type_tag_of::<DataType>()),
        );
    }
}

/// Writing: after the record that a lookup by component identifier returned
/// for writing was changed and left with the identifier it had, the same
/// lookup returns the record as it was left, and the lookup by any other
/// identifier returns what it did.
pub proof fn law_write_then_get<DataType: ComponentDataType>(
    world: WorldModel,
    after: WorldModel,
    id: u64,
    component: Component<DataType>,
)
    requires
        first_with_id(world.components, id) is Some,
        world.rewrites(after, first_with_id(world.components, id).unwrap(), component),
        component.identifier() == id,
    ensures
        after.component_by_id::<DataType>(id) == Some(component),
        forall|other: u64|
            other != id ==> #[trigger] after.component_by_id::<DataType>(other)
                == world.component_by_id::<DataType>(other),
{
    let index = first_with_id(world.components, id).unwrap();
    assert(is_first_with_id(world.components, id, index));
    lemma_rewrite_keeps_first(world, after, index, component, id);
    assert forall|other: u64| other != id implies #[trigger] after.component_by_id::<DataType>(
        other,
    ) == world.component_by_id::<DataType>(other) by {
        lemma_rewrite_keeps_first(world, after, index, component, other);
        if first_with_id(world.components, other) is Some {
            let at = first_with_id(world.components, other).unwrap();
            assert(is_first_with_id(world.components, other, at));
            assert(after.components[at] == world.components[at]);
        }
    }
}

/// Moving: after the record that a lookup by component identifier returned
/// for writing was left with another identifier, one that was not in use,
/// the lookup by the new identifier returns the record. Where no two slots
/// were found under one identifier, the lookup by the old one returns
/// nothing.
pub proof fn law_write_moves_record<DataType: ComponentDataType>(
    world: WorldModel,
    after: WorldModel,
    id: u64,
    component: Component<DataType>,
)
    requires
        first_with_id(world.components, id) is Some,
        world.rewrites(after, first_with_id(world.components, id).unwrap(), component),
        component.identifier() != id,
        !has_id(world.components, component.identifier()),
    ensures
        after.component_by_id::<DataType>(component.identifier()) == Some(component),
        identifiers_differ(world.components) ==> after.component_by_id::<DataType>(id) is None,
{
    broadcast use StoredComponent::lemma_found_under_record;

    let index = first_with_id(world.components, id).unwrap();
    let moved = component.identifier();
    assert(is_first_with_id(world.components, id, index));
    assert(after.components[index].held::<DataType>() == Some(component));
    let store = world.components;
    assert forall|at: int| 0 <= at < store.len() && at != index implies #[trigger] slot_id(
        after.components,
        at,
    ) == slot_id(store, at) by {}
    assert(is_first_with_id(after.components, moved, index)) by {
        assert forall|earlier: int| 0 <= earlier < index implies #[trigger] slot_id(
            after.components,
            earlier,
        ) != moved by {
            assert(slot_id(world.components, earlier) != moved);
        }
    }
    lemma_first_with_id_is(after.components, moved, index);
    if identifiers_differ(world.components) {
        if exists|first: int| is_first_with_id(after.components, id, first) {
            let first = choose|first: int| is_first_with_id(after.components, id, first);
            assert(first != index);
            assert(slot_id(world.components, first) == id);
            if first < index {
                assert(slot_id(world.components, first) != slot_id(world.components, index));
            } else {
                assert(slot_id(world.components, index) != slot_id(world.components, first));
            }
        }
    }
}

/// Reading through a lookup for writing changes nothing: where the record
/// is left as it was, the world is as it was.
pub proof fn law_unused_write_changes_nothing<DataType: ComponentDataType>(
    world: WorldModel,
    after: WorldModel,
    index: int,
    component: Component<DataType>,
)
    requires
        world.rewrites(after, index, component),
        world.components[index].held::<DataType>() == Some(component),
    ensures
        after == world,
{
    assert(after.components =~= world.components);
}

/// A record attached under an identifier that no slot was found under is the
/// one that the lookup by that identifier finds, and the one that the entity
/// names under the tag of its payload type.
pub proof fn lemma_attached_is_found<DataType: ComponentDataType>(
    world: WorldModel,
    after: WorldModel,
    entity_id: u64,
    id: u64,
    data: DataType,
)
    requires
        world.entities.contains_key(entity_id),
        world.attaches(after, entity_id, Component::of(id, data)),
        !has_id(world.components, id),
    ensures
        first_with_id(after.components, id) == Some(world.components.len() as int),
        after.component_by_id::<DataType>(id) == Some(Component::of(id, data)),
        after.names(entity_id, type_tag_of::<DataType>()),
        after.named(entity_id, type_tag_of::<DataType>()) == id,
{
    broadcast use Component::lemma_of_parts, StoredComponent::lemma_found_under_record;

    let last = world.components.len() as int;
    assert forall|earlier: int| 0 <= earlier < last implies #[trigger] slot_id(
        after.components,
        earlier,
    ) != id by {
        assert(slot_id(world.components, earlier) != id);
    }
    assert(is_first_with_id(after.components, id, last));
    lemma_first_with_id_is(after.components, id, last);
}

/// The lookup by an identifier that was in use before a record was attached
/// finds what it found before.
pub proof fn lemma_attach_keeps_found<DataType: ComponentDataType, Other: ComponentDataType>(
    world: WorldModel,
    after: WorldModel,
    entity_id: u64,
    component: Component<Other>,
    id: u64,
)
    requires
        world.entities.contains_key(entity_id),
        world.attaches(after, entity_id, component),
        has_id(world.components, id),
    ensures
        first_with_id(after.components, id) == first_with_id(world.components, id),
        after.component_by_id::<DataType>(id) == world.component_by_id::<DataType>(id),
{
    let index = choose|index: int|
        0 <= index < world.components.len() && #[trigger] slot_id(world.components, index) == id;
    lemma_has_first(world.components, id, index);
    let first = choose|first: int| is_first_with_id(world.components, id, first);
    lemma_first_with_id_is(world.components, id, first);
    assert forall|earlier: int| 0 <= earlier < first implies #[trigger] slot_id(
        after.components,
        earlier,
    ) != id by {
        assert(slot_id(world.components, earlier) != id);
    }
    assert(is_first_with_id(after.components, id, first));
    lemma_first_with_id_is(after.components, id, first);
}

/// Rewriting the record held in a slot moves no slot where the record left
/// there has the identifier that the slot was found under: the first slot
/// found under an identifier is the one that was.
pub proof fn lemma_rewrite_keeps_first<DataType: ComponentDataType>(
    world: WorldModel,
    after: WorldModel,
    index: int,
    component: Component<DataType>,
    id: u64,
)
    requires
        world.rewrites(after, index, component),
        component.identifier() == slot_id(world.components, index),
    ensures
        first_with_id(after.components, id) == first_with_id(world.components, id),
{
    broadcast use StoredComponent::lemma_found_under_record;

    assert(after.components[index].held::<DataType>() == Some(component));
    assert forall|at: int| 0 <= at < world.components.len() implies #[trigger] slot_id(
        after.components,
        at,
    ) == slot_id(world.components, at) by {}
    if exists|first: int| is_first_with_id(world.components, id, first) {
        let first = choose|first: int| is_first_with_id(world.components, id, first);
        assert(is_first_with_id(after.components, id, first)) by {
            assert forall|earlier: int| 0 <= earlier < first implies #[trigger] slot_id(
                after.components,
                earlier,
            ) != id by {
                assert(slot_id(world.components, earlier) != id);
            }
        }
        lemma_first_with_id_is(after.components, id, first);
    } else if exists|first: int| is_first_with_id(after.components, id, first) {
        let first = choose|first: int| is_first_with_id(after.components, id, first);
        assert(is_first_with_id(world.components, id, first)) by {
            assert forall|earlier: int| 0 <= earlier < first implies #[trigger] slot_id(
                world.components,
                earlier,
            ) != id by {
                assert(slot_id(after.components, earlier) != id);
            }
        }
    }
}

} // verus!
