use vstd::prelude::*;

verus! {

/// A value that carries a 64-bit instance identifier.
///
/// Entity identifiers and component identifiers are drawn in the same way but
/// live in separate spaces: nothing in this crate compares one with the other.
pub trait Identifiable {
    /// The instance identifier of the value, as contracts speak of it.
    spec fn identifier(&self) -> u64;

    /// Returns the instance identifier.
    fn get_id(&self) -> (id: u64)
        ensures
            id == self.identifier(),
    ;
}

/// A value that carries the 64-bit tag of a payload type.
pub trait Typeable {
    /// The type tag of the value, as contracts speak of it.
    spec fn type_tag(&self) -> u64;

    /// Returns the type tag.
    fn get_type_id(&self) -> (tag: u64)
        ensures
            tag == self.type_tag(),
    ;
}

} // verus!
