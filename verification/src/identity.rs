use std::any::TypeId;
use std::collections::hash_map::DefaultHasher;
use std::collections::hash_map::RandomState;
use std::hash::BuildHasher;
use std::hash::Hash;
use std::hash::Hasher;
use vstd::prelude::*;
use vstd::std_specs::hash::DefaultHasherAdditionalSpecFns;

verus! {

/// `RandomState::new` hands out a hasher factory with keys drawn at random.
/// Nothing is claimed of the keys.
pub assume_specification[ RandomState::new ]() -> (state: RandomState)
;

/// `RandomState::build_hasher` makes a hasher from the factory's keys.
/// Nothing is claimed of the hasher: what it will digest to depends on the
/// keys, which are random.
pub assume_specification[ <RandomState as BuildHasher>::build_hasher ](
    state: &RandomState,
) -> (hasher: DefaultHasher)
;

/// `std::any::TypeId`, the identity that the language gives to a type.
#[verifier::external_type_specification]
#[verifier::external_body]
pub struct ExTypeId(TypeId);

/// What hashing a type identity writes into a hasher, one byte sequence per
/// write.
pub uninterp spec fn identity_writes(identity: TypeId) -> Seq<Seq<u8>>;

/// `<TypeId as Hash>::hash`, into a `DefaultHasher`: the writes that the
/// hasher receives depend on the identity alone and follow those it already
/// took.
#[verifier::external_body]
fn write_identity(identity: &TypeId, hasher: &mut DefaultHasher)
    ensures
        final(hasher)@ == old(hasher)@ + identity_writes(*identity),
{
    identity.hash(hasher)
}

/// The 64-bit digest of a type identity.
pub open spec fn identity_hash(identity: TypeId) -> u64 {
    DefaultHasher::spec_finish(identity_writes(identity))
}

/// Draws a fresh 64-bit identifier from the process-local source of
/// randomness. No two results are promised to differ, and no result is
/// promised to differ from an identifier already in use.
pub fn new_identifier() -> (id: u64) {
    RandomState::new().build_hasher().finish()
}

/// Digests a type identity to 64 bits with the standard hasher in its fixed
/// initial state, so that equal identities always give equal digests.
pub fn hash_identity(identity: &TypeId) -> (digest: u64)
    ensures
        digest == identity_hash(*identity),
{
    let mut hasher = DefaultHasher::new();
    write_identity(identity, &mut hasher);
    assert(hasher@ =~= identity_writes(*identity));
    hasher.finish()
}

} // verus!
