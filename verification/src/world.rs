use crate::component::get_type_id;
use crate::component::type_tag_of;
use crate::component::Component;
use crate::component::ComponentDataType;
use crate::component::ComponentInterface;
use crate::component::StoredComponent;
use crate::entity::empty_entity;
use crate::entity::Entity;
use crate::entity::EntityModel;
use crate::typeable::Identifiable;
use crate::typeable::Typeable;
use std::collections::hash_map::Entry;
use std::collections::HashMap;
use vstd::prelude::*;

verus! {

/// The identifier under which slot `index` of `store` is found.
pub open spec fn slot_id(store: Seq<StoredComponent>, index: int) -> u64
    recommends
        0 <= index < store.len(),
{
    store[index].identifier()
}

/// `index` is the first slot of `store` that is found under `id`.
pub open spec fn is_first_with_id(store: Seq<StoredComponent>, id: u64, index: int) -> bool {
    &&& 0 <= index < store.len()
    &&& slot_id(store, index) == id
    &&& forall|earlier: int| 0 <= earlier < index ==> #[trigger] slot_id(store, earlier) != id
}

/// Some slot of `store` is found under `id`.
pub open spec fn has_id(store: Seq<StoredComponent>, id: u64) -> bool {
    exists|index: int| 0 <= index < store.len() && #[trigger] slot_id(store, index) == id
}

/// No two slots of `store` are found under one identifier.
pub open spec fn identifiers_differ(store: Seq<StoredComponent>) -> bool {
    forall|one: int, other: int|
        0 <= one < other < store.len() ==> #[trigger] slot_id(store, one) != #[trigger] slot_id(
            store,
            other,
        )
}

/// Slot `index` of `store` is found under `id` and under `tag`.
pub open spec fn is_slot_with(store: Seq<StoredComponent>, id: u64, tag: u64, index: int) -> bool {
    &&& 0 <= index < store.len()
    &&& slot_id(store, index) == id
    &&& store[index].type_tag() == tag
}

/// Some slot of `store` is found under `id` and under `tag`.
pub open spec fn is_stored(store: Seq<StoredComponent>, id: u64, tag: u64) -> bool {
    exists|index: int| is_slot_with(store, id, tag, index)
}

/// A slot of `store` that is found under `id` and under `tag`, where there is
/// one.
pub open spec fn slot_with(store: Seq<StoredComponent>, id: u64, tag: u64) -> int
    recommends
        is_stored(store, id, tag),
{
    choose|index: int| is_slot_with(store, id, tag, index)
}

/// The first slot of `store` that is found under `id`, if there is one.
pub open spec fn first_with_id(store: Seq<StoredComponent>, id: u64) -> Option<int> {
    if exists|index: int| is_first_with_id(store, id, index) {
        Some(choose|index: int| is_first_with_id(store, id, index))
    } else {
        None
    }
}

/// A world as contracts speak of it: the entities by identifier, and the
/// component store in the order in which records entered it.
pub struct WorldModel {
    pub entities: Map<u64, EntityModel>,
    pub components: Seq<StoredComponent>,
}

impl WorldModel {
    /// The world with nothing in it.
    pub open spec fn empty() -> WorldModel {
        WorldModel { entities: Map::empty(), components: Seq::empty() }
    }

    /// The entity filed under `entity_id` names a component under `tag`.
    pub open spec fn names(self, entity_id: u64, tag: u64) -> bool {
        &&& self.entities.contains_key(entity_id)
        &&& self.entities[entity_id].components.contains_key(tag)
    }

    /// The identifier of the component that the entity filed under
    /// `entity_id` names under `tag`.
    pub open spec fn named(self, entity_id: u64, tag: u64) -> u64
        recommends
            self.names(entity_id, tag),
    {
        self.entities[entity_id].components[tag]
    }

    /// Every entity is filed under its own identifier, and every component
    /// that an entity names is in the store, under the tag by which the
    /// entity names it. The store may hold records that no entity names.
    pub open spec fn wf(self) -> bool {
        &&& forall|id: u64| #[trigger]
            self.entities.contains_key(id) ==> self.entities[id].id == id
        &&& forall|id: u64, tag: u64| #[trigger]
            self.names(id, tag) ==> is_stored(self.components, self.named(id, tag), tag)
    }

    /// The world after an entity with no components was filed under `id`,
    /// in place of any entity filed there before.
    pub open spec fn with_entity(self, id: u64) -> WorldModel {
        WorldModel { entities: self.entities.insert(id, empty_entity(id)), ..self }
    }

    /// The world after `slot` entered the store and the entity filed under
    /// `entity_id` took up its record: the entity names the record under the
    /// slot's tag, in place of any it named there before, and the slot is the
    /// last of the store.
    pub open spec fn with_attached(self, entity_id: u64, slot: StoredComponent) -> WorldModel
        recommends
            self.entities.contains_key(entity_id),
    {
        let entity = self.entities[entity_id];
        WorldModel {
            entities: self.entities.insert(
                entity_id,
                EntityModel {
                    id: entity.id,
                    components: entity.components.insert(slot.type_tag(), slot.identifier()),
                },
            ),
            components: self.components.push(slot),
        }
    }

    /// `after` is this world after `component` was attached to the entity
    /// filed under `entity_id`: the store has one more slot, the one that
    /// the record took, and the entity names the record.
    pub open spec fn attaches<DataType: ComponentDataType>(
        self,
        after: WorldModel,
        entity_id: u64,
        component: Component<DataType>,
    ) -> bool
        recommends
            self.entities.contains_key(entity_id),
    {
        &&& after.components.len() == self.components.len() + 1
        &&& after.components.last().is_slot_of(component)
        &&& after == self.with_attached(entity_id, after.components.last())
    }

    /// `after` is this world after a new entity was filed under `entity_id`
    /// with `component` attached to it.
    pub open spec fn adds<DataType: ComponentDataType>(
        self,
        after: WorldModel,
        entity_id: u64,
        component: Component<DataType>,
    ) -> bool {
        self.with_entity(entity_id).attaches(after, entity_id, component)
    }

    /// `after` is this world after the record held in slot `index`, of
    /// payload type `DataType`, became `component`. Nothing else differs.
    /// The slot is then found under the identifier and tag of `component`;
    /// where `component` is the record that was there, the world is as it
    /// was.
    pub open spec fn rewrites<DataType: ComponentDataType>(
        self,
        after: WorldModel,
        index: int,
        component: Component<DataType>,
    ) -> bool {
        &&& 0 <= index < self.components.len()
        &&& after.entities == self.entities
        &&& after.components == self.components.update(index, after.components[index])
        &&& after.components[index].is_rewrite_of(self.components[index], component)
    }

    /// The record held in `slot`, if there is a slot and the record it holds
    /// has payload type `DataType`.
    pub open spec fn held_in<DataType: ComponentDataType>(
        self,
        slot: Option<int>,
    ) -> Option<Component<DataType>> {
        match slot {
            Some(index) => self.components[index].held::<DataType>(),
            None => None,
        }
    }

    /// The slot that decides a lookup through `entity` for payload type
    /// `DataType`: the first slot found under the identifier that the entity
    /// names for the tag of `DataType`, if it names one.
    pub open spec fn slot_of_entity<DataType: ComponentDataType>(
        self,
        entity: EntityModel,
    ) -> Option<int> {
        if entity.components.contains_key(type_tag_of::<DataType>()) {
            first_with_id(self.components, entity.components[type_tag_of::<DataType>()])
        } else {
            None
        }
    }

    /// The slot that decides a lookup for payload type `DataType` through
    /// the entity filed under `id`, if there is such an entity.
    pub open spec fn slot_of_entity_id<DataType: ComponentDataType>(self, id: u64) -> Option<int> {
        if self.entities.contains_key(id) {
            self.slot_of_entity::<DataType>(self.entities[id])
        } else {
            None
        }
    }

    /// The record of payload type `DataType` found under the component
    /// identifier `id`: the record in the first slot found under `id`, if
    /// there is such a slot and it holds a record of that payload type.
    pub open spec fn component_by_id<DataType: ComponentDataType>(
        self,
        id: u64,
    ) -> Option<Component<DataType>> {
        self.held_in::<DataType>(first_with_id(self.components, id))
    }

    /// The record of payload type `DataType` attached to `entity`: the
    /// record found under the identifier that the entity names for the tag
    /// of `DataType`, if it names one.
    pub open spec fn component_of_entity<DataType: ComponentDataType>(
        self,
        entity: EntityModel,
    ) -> Option<Component<DataType>> {
        self.held_in::<DataType>(self.slot_of_entity::<DataType>(entity))
    }

    /// The record of payload type `DataType` attached to the entity filed
    /// under `id`, if there is such an entity.
    pub open spec fn component_of_entity_id<DataType: ComponentDataType>(
        self,
        id: u64,
    ) -> Option<Component<DataType>> {
        self.held_in::<DataType>(self.slot_of_entity_id::<DataType>(id))
    }
}

/// At most one slot is the first found under an identifier.
pub proof fn lemma_first_with_id_is(store: Seq<StoredComponent>, id: u64, index: int)
    requires
        is_first_with_id(store, id, index),
    ensures
        first_with_id(store, id) == Some(index),
{
    let chosen = choose|other: int| is_first_with_id(store, id, other);
    assert(is_first_with_id(store, id, chosen));
    if chosen < index {
        assert(slot_id(store, chosen) != id);
    }
    if index < chosen {
        assert(slot_id(store, index) != id);
    }
}

/// No slot is the first found under an identifier that no slot is found
/// under.
pub proof fn lemma_first_with_id_none(store: Seq<StoredComponent>, id: u64)
    requires
        !has_id(store, id),
    ensures
        first_with_id(store, id) is None,
{
    if exists|index: int| is_first_with_id(store, id, index) {
        let index = choose|index: int| is_first_with_id(store, id, index);
        assert(slot_id(store, index) == id);
    }
}

/// Where some slot is found under an identifier, one slot is the first.
pub proof fn lemma_has_first(store: Seq<StoredComponent>, id: u64, index: int)
    requires
        0 <= index < store.len(),
        slot_id(store, index) == id,
    ensures
        exists|first: int| is_first_with_id(store, id, first),
    decreases index,
{
    if exists|earlier: int| 0 <= earlier < index && #[trigger] slot_id(store, earlier) == id {
        let earlier = choose|earlier: int|
            0 <= earlier < index && #[trigger] slot_id(store, earlier) == id;
        lemma_has_first(store, id, earlier);
    } else {
        assert(is_first_with_id(store, id, index));
    }
}

/// Filing an empty entity in a well-formed world leaves the world
/// well-formed.
pub proof fn lemma_with_entity_keeps_wf(world: WorldModel, id: u64)
    requires
        world.wf(),
    ensures
        world.with_entity(id).wf(),
{
    let after = world.with_entity(id);
    assert forall|other: u64, tag: u64| #[trigger] after.names(other, tag) implies is_stored(
        after.components,
        after.named(other, tag),
        tag,
    ) by {
        assert(world.names(other, tag));
    }
}

/// Attaching a record to an entity of a well-formed world leaves the world
/// well-formed.
pub proof fn lemma_with_attached_keeps_wf(world: WorldModel, entity_id: u64, slot: StoredComponent)
    requires
        world.wf(),
        world.entities.contains_key(entity_id),
    ensures
        world.with_attached(entity_id, slot).wf(),
{
    let after = world.with_attached(entity_id, slot);
    assert forall|id: u64, tag: u64| #[trigger] after.names(id, tag) implies is_stored(
        after.components,
        after.named(id, tag),
        tag,
    ) by {
        if id == entity_id && tag == slot.type_tag() {
            let last = world.components.len() as int;
            assert(is_slot_with(after.components, after.named(id, tag), tag, last));
        } else {
            assert(world.names(id, tag));
            let index = slot_with(world.components, world.named(id, tag), tag);
            assert(is_slot_with(after.components, after.named(id, tag), tag, index));
        }
    }
}

/// Rewriting the record held in a slot of a well-formed world leaves the
/// world well-formed, where the record left there has the identifier and tag
/// of the record that was there. A record of another identifier or tag may
/// leave an entity naming a component that the store no longer holds.
pub proof fn lemma_rewrites_keeps_wf<DataType: ComponentDataType>(world: WorldModel)
    requires
        world.wf(),
    ensures
        forall|after: WorldModel, index: int, component: Component<DataType>|
            #![trigger world.rewrites(after, index, component)]
            world.rewrites(after, index, component) && component.identifier() == slot_id(
                world.components,
                index,
            ) && component.type_tag() == world.components[index].type_tag() ==> after.wf(),
{
    broadcast use StoredComponent::lemma_found_under_record;

    assert forall|after: WorldModel, index: int, component: Component<DataType>|
        #![trigger world.rewrites(after, index, component)]
        world.rewrites(after, index, component) && component.identifier() == slot_id(
            world.components,
            index,
        ) && component.type_tag() == world.components[index].type_tag() implies after.wf() by {
        assert(after.components[index].held::<DataType>() == Some(component));
        assert forall|id: u64, tag: u64| #[trigger] after.names(id, tag) implies is_stored(
            after.components,
            after.named(id, tag),
            tag,
        ) by {
            assert(world.names(id, tag));
            let at = slot_with(world.components, world.named(id, tag), tag);
            assert(is_slot_with(after.components, after.named(id, tag), tag, at));
        }
    }
}

/// Recovers the typed record held in slot `index` of a store, for writing.
fn record_mut<ComponentType: ComponentDataType>(
    store: &mut Vec<StoredComponent>,
    index: usize,
) -> (found: Option<&mut Component<ComponentType>>)
    requires
        index < old(store)@.len(),
    ensures
        match found {
            Some(component) => {
                &&& old(store)@[index as int].held::<ComponentType>() == Some(*component)
                &&& component.identifier() == slot_id(old(store)@, index as int)
                &&& component.type_tag() == old(store)@[index as int].type_tag()
                &&& final(store)@ =~= old(store)@.update(index as int, final(store)@[index as int])
                &&& final(store)@[index as int].is_rewrite_of(
                    old(store)@[index as int],
                    *final(component),
                )
            },
            None => {
                &&& old(store)@[index as int].held::<ComponentType>() is None
                &&& final(store)@ =~= old(store)@
            },
        },
{
    broadcast use StoredComponent::lemma_same_parts, StoredComponent::lemma_found_under_record;

    store[index].as_any_mut().downcast_mut::<ComponentType>()
}

/// The storage engine: the entities by identifier, and every component
/// record ever attached, each in the slot it took when it entered.
pub struct World {
    /// The entities, each filed under its identifier.
    pub entities: HashMap<u64, Entity>,
    /// The component store. Records are appended and never removed.
    pub components: Vec<StoredComponent>,
}

impl View for World {
    type V = WorldModel;

    open spec fn view(&self) -> WorldModel {
        WorldModel {
            entities: self.entities@.map_values(|entity: Entity| entity@),
            components: self.components@,
        }
    }
}

impl World {
    /// Makes a world with no entities and no components.
    pub fn new() -> (world: Self)
        ensures
            world@ == WorldModel::empty(),
            world@.wf(),
    {
        let world = World { entities: HashMap::new(), components: Vec::new() };
        assert(world@.entities =~= Map::empty());
        assert(world@.components =~= Seq::empty());
        world
    }

    /// Files a new entity with no components under a freshly drawn
    /// identifier and returns the identifier. An entity already filed under
    /// that identifier is replaced.
    pub fn create_new_entity_in_world(&mut self) -> (id: u64)
        ensures
            final(self)@ == old(self)@.with_entity(id),
            old(self)@.wf() ==> final(self)@.wf(),
    {
        let entity = Entity::new();
        let result = entity.get_id();
        self.entities.insert(result, entity);
        proof {
            assert(self@.entities =~= old(self)@.with_entity(result).entities);
            if old(self)@.wf() {
                lemma_with_entity_keeps_wf(old(self)@, result);
            }
        }
        result
    }

    /// Files a new entity with no components under `iid`. An entity already
    /// filed there is replaced: nothing of it is kept.
    pub fn create_new_entity_in_world_by_id(&mut self, iid: u64)
        ensures
            final(self)@ == old(self)@.with_entity(iid),
            old(self)@.wf() ==> final(self)@.wf(),
    {
        let entity = Entity::new_with_id(iid);
        let result = entity.get_id();
        self.entities.insert(result, entity);
        proof {
            assert(self@.entities =~= old(self)@.with_entity(iid).entities);
            if old(self)@.wf() {
                lemma_with_entity_keeps_wf(old(self)@, iid);
            }
        }
    }

    /// Tells whether an entity is filed under `iid`.
    pub fn entity_with_id_exists(&self, iid: u64) -> (exists: bool)
        ensures
            exists == self@.entities.contains_key(iid),
    {
        self.entities.contains_key(&iid)
    }

    /// Attaches a new component with payload `component_data` to the entity
    /// filed under `iid`, and returns the identifier drawn for the
    /// component. The entity then names the new component under the tag of
    /// `DataType`, in place of any it named there before; a record named
    /// there before stays in the store. When no entity is filed under `iid`,
    /// nothing is returned and the world is unchanged.
    pub fn add_component_to_entity_by_entity_id<DataType: ComponentDataType>(
        &mut self,
        component_data: DataType,
        iid: u64,
    ) -> (attached: Option<u64>)
        ensures
            attached is Some <==> old(self)@.entities.contains_key(iid),
            attached matches Some(cid) ==> old(self)@.attaches(
                final(self)@,
                iid,
                Component::of(cid, component_data),
            ),
            attached is None ==> final(self)@ == old(self)@,
            old(self)@.wf() ==> final(self)@.wf(),
    {
        let constructed_component = Component::new(component_data);
        match self.entities.entry(iid) {
            Entry::Occupied(occupied) => {
                let entity = occupied.into_mut();
                entity.components.insert(
                    constructed_component.get_type_id(),
                    constructed_component.get_id(),
                );
                let ret_val = constructed_component.get_id();
                self.components.push(StoredComponent::new(constructed_component));
                proof {
                    self@.components.last().lemma_found_under_record::<DataType>();
                    let after = old(self)@.with_attached(iid, self@.components.last());
                    assert(self@.entities =~= after.entities);
                    assert(self@.components =~= after.components);
                    if old(self)@.wf() {
                        lemma_with_attached_keeps_wf(old(self)@, iid, self@.components.last());
                    }
                }
                Some(ret_val)
            },
            Entry::Vacant(_) => {
                proof {
                    assert(self@.entities =~= old(self)@.entities);
                }
                None
            },
        }
    }

    /// Files a new entity under a freshly drawn identifier, attaches a new
    /// component with payload `component_data` to it, and returns the
    /// entity's identifier. The component's identifier is drawn too; it is
    /// the one under which the last slot of the store is found afterwards.
    pub fn add_component<DataType: ComponentDataType>(
        &mut self,
        component_data: DataType,
    ) -> (id: u64)
        ensures
            old(self)@.adds(
                final(self)@,
                id,
                Component::of(final(self)@.components.last().identifier(), component_data),
            ),
            old(self)@.wf() ==> final(self)@.wf(),
    {
        let mut new_entity = Entity::new();
        let constructed_component = Component::new(component_data);
        new_entity.components.insert(
            constructed_component.get_type_id(),
            constructed_component.get_id(),
        );
        let ret_val = new_entity.get_id();
        self.entities.insert(new_entity.get_id(), new_entity);
        self.components.push(StoredComponent::new(constructed_component));
        proof {
            let slot = self@.components.last();
            slot.lemma_found_under_record::<DataType>();
            let after = old(self)@.with_entity(ret_val).with_attached(ret_val, slot);
            assert(self@.components =~= after.components);
            assert(self@.entities =~= after.entities);
            if old(self)@.wf() {
                lemma_with_entity_keeps_wf(old(self)@, ret_val);
                lemma_with_attached_keeps_wf(old(self)@.with_entity(ret_val), ret_val, slot);
            }
        }
        ret_val
    }

    /// Attaches a new component to the entity whose identifier `entity`
    /// carries, as `add_component_to_entity_by_entity_id` does. Only the
    /// identifier of `entity` is read: the entity that is changed is the one
    /// filed under it in this world.
    pub fn add_component_to_entity_by_entity<DataType: ComponentDataType>(
        &mut self,
        component_data: DataType,
        entity: &Entity,
    ) -> (attached: Option<u64>)
        ensures
            attached is Some <==> old(self)@.entities.contains_key(entity@.id),
            attached matches Some(cid) ==> old(self)@.attaches(
                final(self)@,
                entity@.id,
                Component::of(cid, component_data),
            ),
            attached is None ==> final(self)@ == old(self)@,
            old(self)@.wf() ==> final(self)@.wf(),
    {
        self.add_component_to_entity_by_entity_id(component_data, entity.get_id())
    }

    /// Looks a component record up by its instance identifier. The store is
    /// scanned from its first slot, and the first slot found under `cid`
    /// decides: the result is the record it holds if that record has payload
    /// type `ComponentType`, and nothing if it has another. Nothing is
    /// returned either when no slot is found under `cid`; the two causes are
    /// not told apart.
    pub fn get_component_by_component_id<ComponentType: ComponentDataType>(
        &self,
        cid: u64,
    ) -> (found: Option<&Component<ComponentType>>)
        ensures
            match found {
                Some(component) => {
                    &&& self@.component_by_id::<ComponentType>(cid) == Some(*component)
                    &&& component.identifier() == cid
                },
                None => self@.component_by_id::<ComponentType>(cid) is None,
            },
    {
        let mut index: usize = 0;
        while index < self.components.len()
            invariant
                index <= self.components@.len(),
                forall|earlier: int|
                    0 <= earlier < index ==> #[trigger] slot_id(self.components@, earlier) != cid,
            decreases self.components@.len() - index,
        {
            let stored = &self.components[index];
            if stored.get_id() == cid {
                proof {
                    lemma_first_with_id_is(self@.components, cid, index as int);
                }
                let found = stored.as_any().downcast_ref::<ComponentType>();
                proof {
                    stored.lemma_found_under_record::<ComponentType>();
                }
                return found;
            }
            index += 1;
        }
        proof {
            lemma_first_with_id_none(self@.components, cid);
        }
        None
    }

    /// Looks up the component of payload type `ComponentType` that `e`
    /// names. The entity need not be filed in this world: only its index is
    /// read. Nothing is returned when the entity names no component under
    /// the tag of `ComponentType`, or when the lookup by the identifier it
    /// names returns nothing.
    pub fn get_component_by_entity<ComponentType: ComponentDataType>(
        &self,
        e: &Entity,
    ) -> (found: Option<&Component<ComponentType>>)
        ensures
            match found {
                Some(component) => {
                    &&& self@.component_of_entity::<ComponentType>(e@) == Some(*component)
                    &&& component.identifier() == e@.components[type_tag_of::<ComponentType>()]
                },
                None => self@.component_of_entity::<ComponentType>(e@) is None,
            },
    {
        let tp = get_type_id::<ComponentType>();
        match e.components.get(&tp) {
            Some(id) => self.get_component_by_component_id(*id),
            None => None,
        }
    }

    /// Looks up the component of payload type `ComponentType` attached to
    /// the entity filed under `iid`. Nothing is returned when no entity is
    /// filed there, or when the lookup through the entity returns nothing.
    pub fn get_component_by_entity_id<ComponentType: ComponentDataType>(
        &self,
        iid: u64,
    ) -> (found: Option<&Component<ComponentType>>)
        ensures
            match found {
                Some(component) => {
                    &&& self@.component_of_entity_id::<ComponentType>(iid) == Some(*component)
                    &&& component.identifier() == self@.named(iid, type_tag_of::<ComponentType>())
                },
                None => self@.component_of_entity_id::<ComponentType>(iid) is None,
            },
    {
        match self.entities.get(&iid) {
            Some(entity) => self.get_component_by_entity(entity),
            None => None,
        }
    }

    /// Looks a component record up by its instance identifier, for writing.
    /// The slot that decides is the one that decides the read-only lookup.
    /// When a record is returned, the world afterwards differs from the
    /// world before in that slot alone, which then holds what the caller
    /// left behind the reference and is found under the identifier and tag
    /// of that record. Where the caller leaves the record as it was, and
    /// when nothing is returned, the world is unchanged. A world that was
    /// well-formed stays so where the record left carries the identifier
    /// and tag of the record returned.
    pub fn get_component_by_component_id_mut<ComponentType: ComponentDataType>(
        &mut self,
        iid: u64,
    ) -> (found: Option<&mut Component<ComponentType>>)
        ensures
            match found {
                Some(component) => {
                    &&& old(self)@.component_by_id::<ComponentType>(iid) == Some(*component)
                    &&& component.identifier() == iid
                    &&& first_with_id(old(self)@.components, iid) matches Some(index)
                        && old(self)@.rewrites(final(self)@, index, *final(component))
                    &&& old(self)@.wf() && component.same_place(*final(component)) ==> {
                        final(self)@.wf()
                    }
                },
                None => {
                    &&& old(self)@.component_by_id::<ComponentType>(iid) is None
                    &&& final(self)@ == old(self)@
                },
            },
    {
        let mut index: usize = 0;
        while index < self.components.len()
            invariant
                index <= self.components@.len(),
                *self == *old(self),
                forall|earlier: int|
                    0 <= earlier < index ==> #[trigger] slot_id(self.components@, earlier) != iid,
            decreases self.components@.len() - index,
        {
            if self.components[index].get_id() == iid {
                proof {
                    lemma_first_with_id_is(self@.components, iid, index as int);
                    if self@.wf() {
                        lemma_rewrites_keeps_wf::<ComponentType>(self@);
                    }
                }
                return record_mut(&mut self.components, index);
            }
            index += 1;
        }
        proof {
            lemma_first_with_id_none(self@.components, iid);
        }
        None
    }

    /// Looks up the component of payload type `ComponentType` that `e`
    /// names, for writing. The slot that decides is the one that decides the
    /// read-only lookup, and the world changes as it does under the lookup
    /// by component identifier.
    pub fn get_component_by_entity_mut<ComponentType: ComponentDataType>(
        &mut self,
        e: &Entity,
    ) -> (found: Option<&mut Component<ComponentType>>)
        ensures
            match found {
                Some(component) => {
                    &&& old(self)@.component_of_entity::<ComponentType>(e@) == Some(*component)
                    &&& component.identifier() == e@.components[type_tag_of::<ComponentType>()]
                    &&& old(self)@.slot_of_entity::<ComponentType>(e@) matches Some(index)
                        && old(self)@.rewrites(final(self)@, index, *final(component))
                    &&& old(self)@.wf() && component.same_place(*final(component)) ==> {
                        final(self)@.wf()
                    }
                },
                None => {
                    &&& old(self)@.component_of_entity::<ComponentType>(e@) is None
                    &&& final(self)@ == old(self)@
                },
            },
    {
        let tp = get_type_id::<ComponentType>();
        match e.components.get(&tp) {
            Some(id) => self.get_component_by_component_id_mut(*id),
            None => None,
        }
    }

    /// Looks up the component of payload type `ComponentType` attached to
    /// the entity filed under `iid`, for writing. The slot that decides is
    /// the one that decides the read-only lookup, and the world changes as
    /// it does under the lookup by component identifier.
    pub fn get_component_by_entity_id_mut<ComponentType: ComponentDataType>(
        &mut self,
        iid: u64,
    ) -> (found: Option<&mut Component<ComponentType>>)
        ensures
            match found {
                Some(component) => {
                    &&& old(self)@.component_of_entity_id::<ComponentType>(iid) == Some(
                        *component,
                    )
                    &&& component.identifier() == old(self)@.named(
                        iid,
                        type_tag_of::<ComponentType>(),
                    )
                    &&& old(self)@.slot_of_entity_id::<ComponentType>(iid) matches Some(index)
                        && old(self)@.rewrites(final(self)@, index, *final(component))
                    &&& old(self)@.wf() && component.same_place(*final(component)) ==> {
                        final(self)@.wf()
                    }
                },
                None => {
                    &&& old(self)@.component_of_entity_id::<ComponentType>(iid) is None
                    &&& final(self)@ == old(self)@
                },
            },
    {
        let component_id: u64;
        match self.entities.get(&iid) {
            Some(entity) => {
                let t = get_type_id::<ComponentType>();
                match entity.components.get(&t) {
                    Some(cid) => {
                        component_id = *cid;
                    },
                    None => {
                        return None;
                    },
                };
            },
            None => {
                return None;
            },
        };
        self.get_component_by_component_id_mut(component_id)
    }
}

} // verus!
