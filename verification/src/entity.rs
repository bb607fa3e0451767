use crate::identity::new_identifier;
use crate::typeable::Identifiable;
use std::collections::HashMap;
use vstd::prelude::*;

verus! {

/// An entity as contracts speak of it: its identifier, and for each type tag
/// the identifier of the one component of that type attached to it.
pub struct EntityModel {
    pub id: u64,
    pub components: Map<u64, u64>,
}

/// The model of an entity to which nothing is attached.
pub open spec fn empty_entity(id: u64) -> EntityModel {
    EntityModel { id, components: Map::empty() }
}

/// An entity: an identifier and an index of the components attached to it.
/// The entity owns no component; it holds their identifiers only.
pub struct Entity {
    /// The instance identifier of the entity.
    pub id: u64,
    /// From type tag to the instance identifier of the attached component.
    pub components: HashMap<u64, u64>,
}

impl View for Entity {
    type V = EntityModel;

    open spec fn view(&self) -> EntityModel {
        EntityModel { id: self.id, components: self.components@ }
    }
}

impl Identifiable for Entity {
    open spec fn identifier(&self) -> u64 {
        self.id
    }

    fn get_id(&self) -> (id: u64) {
        self.id
    }
}

impl Entity {
    /// Makes an entity with no components and a freshly drawn identifier.
    pub fn new() -> (entity: Self)
        ensures
            entity@ == empty_entity(entity.id),
    {
        Self::new_with_id(new_identifier())
    }

    /// Makes an entity with no components and the given identifier.
    pub fn new_with_id(iid: u64) -> (entity: Self)
        ensures
            entity@ == empty_entity(iid),
    {
        Entity { id: iid, components: HashMap::new() }
    }
}

} // verus!
