use crate::identity::hash_identity;
use crate::identity::identity_hash;
use crate::identity::new_identifier;
use crate::typeable::Identifiable;
use crate::typeable::Typeable;
use std::any::Any;
use std::any::TypeId;
use vstd::prelude::*;

verus! {

/// Marks a type as a payload type: a type whose values can be attached to
/// entities as component data. The store keeps payloads of many such types
/// side by side and hands each back under the type it came in with. It asks
/// nothing else of a payload: it never looks into one, and never encodes one.
pub trait ComponentDataType: Sized + 'static {}

/// The identity of a payload type: the `TypeId` that the language gives it.
///
/// The definition fixes one identity for each payload type and leaves open
/// which; no more can be said of a type that is not known. The contract of
/// `identity_of` ties it to the running program.
pub closed spec fn type_identity<DataType: ComponentDataType>() -> TypeId {
    arbitrary::<(Option<DataType>, TypeId)>().1
}

/// `TypeId::of`, for a payload type: the identity of the type, the same at
/// every call.
#[verifier::external_body]
fn identity_of<DataType: ComponentDataType>() -> (identity: TypeId)
    ensures
        identity == type_identity::<DataType>(),
{
    TypeId::of::<DataType>()
}

/// The type tag of a payload type: the 64-bit digest of its identity. Two
/// payload types may share a tag, though this is not expected in practice.
pub open spec fn type_tag_of<DataType: ComponentDataType>() -> u64 {
    identity_hash(type_identity::<DataType>())
}

/// Computes the type tag of a payload type. The tag depends on the type
/// alone and on no state.
pub fn get_type_id<DataType: ComponentDataType>() -> (tag: u64)
    ensures
        tag == type_tag_of::<DataType>(),
{
    let identity = identity_of::<DataType>();
    hash_identity(&identity)
}

/// A component record: a payload together with its own instance identifier
/// and the tag of the payload's type.
pub struct Component<DataType: ComponentDataType> {
    /// The instance identifier of this record.
    id: u64,
    /// The tag shared by all records of this payload type.
    tid: u64,
    /// The payload.
    pub data: DataType,
}

impl<DataType: ComponentDataType> Identifiable for Component<DataType> {
    closed spec fn identifier(&self) -> u64 {
        self.id
    }

    fn get_id(&self) -> (id: u64) {
        self.id
    }
}

impl<DataType: ComponentDataType> Typeable for Component<DataType> {
    closed spec fn type_tag(&self) -> u64 {
        self.tid
    }

    fn get_type_id(&self) -> (tag: u64) {
        self.tid
    }
}

impl<DataType: ComponentDataType> Component<DataType> {
    /// The payload of the record, as contracts speak of it.
    pub closed spec fn payload(&self) -> DataType {
        self.data
    }

    /// The record with identifier `id` and payload `data`, tagged for
    /// `DataType`.
    pub closed spec fn of(id: u64, data: DataType) -> Self {
        Component { id, tid: type_tag_of::<DataType>(), data }
    }

    /// The two records carry one identifier and one tag.
    pub open spec fn same_place(self, other: Self) -> bool {
        &&& self.identifier() == other.identifier()
        &&& self.type_tag() == other.type_tag()
    }

    /// This record with `data` in place of its payload.
    pub closed spec fn with_payload(self, data: DataType) -> Self {
        Component { data, ..self }
    }

    /// A record with another payload keeps its identifier and tag, and
    /// carries the payload it was given.
    pub broadcast proof fn lemma_with_payload_parts(self, data: DataType)
        ensures
            (#[trigger] self.with_payload(data)).identifier() == self.identifier(),
            self.with_payload(data).type_tag() == self.type_tag(),
            self.with_payload(data).payload() == data,
            self.with_payload(self.payload()) == self,
    {
    }

    /// A record made by `of`, given another payload, is the record made by
    /// `of` from that payload.
    pub broadcast proof fn lemma_of_with_payload(id: u64, data: DataType, other: DataType)
        ensures
            #[trigger] Self::of(id, data).with_payload(other) == Self::of(id, other),
    {
    }

    /// A record made by `of` has the identifier and payload it was made
    /// from, and the tag of its payload type.
    pub broadcast proof fn lemma_of_parts(id: u64, data: DataType)
        ensures
            (#[trigger] Self::of(id, data)).identifier() == id,
            Self::of(id, data).type_tag() == type_tag_of::<DataType>(),
            Self::of(id, data).payload() == data,
    {
    }

    /// Makes a record with the given instance identifier. The caller answers
    /// for the identifier being unused: nothing is checked.
    pub fn new_with_id(id: u64, data: DataType) -> (component: Self)
        ensures
            component == Self::of(id, data),
    {
        Self { id, tid: get_type_id::<DataType>(), data }
    }

    /// Makes a record with a freshly drawn instance identifier.
    pub fn new(data: DataType) -> (component: Self)
        ensures
            component == Self::of(component.identifier(), data),
    {
        Self::new_with_id(new_identifier(), data)
    }

    /// Returns the payload.
    pub fn data(&self) -> (data: &DataType)
        ensures
            *data == self.payload(),
    {
        &self.data
    }

    /// Returns the payload for writing. Afterwards the record carries what
    /// the caller left behind the reference, under the identifier and tag it
    /// had.
    pub fn data_mut(&mut self) -> (data: &mut DataType)
        ensures
            *data == old(self).payload(),
            *final(self) == old(self).with_payload(*final(data)),
    {
        &mut self.data
    }
}

/// A component record whose payload type is no longer known statically. It
/// holds one `Component<DataType>`, for some payload type, behind `dyn Any`,
/// and beside it the way to read the identifier and tag of that record,
/// which `dyn Any` does not offer.
///
/// The verifier is not shown the inside, which it could not read. What
/// contracts know of a value is what it holds: the payload type of the
/// record, `held_type`; its identifier and tag, `held_id` and `held_tag`; and
/// the record itself, `held_as`. The functions that touch the inside say how
/// these come about.
#[verifier::external_body]
pub struct AnyComponent {
    inner: Box<dyn Any>,
    head_of: Box<dyn Fn(&dyn Any) -> Option<(u64, u64)>>,
}

/// The identity of the payload type of the record that an `AnyComponent`
/// holds.
pub uninterp spec fn held_type(any: AnyComponent) -> TypeId;

/// The instance identifier of the record that an `AnyComponent` holds.
pub uninterp spec fn held_id(any: AnyComponent) -> u64;

/// The type tag of the record that an `AnyComponent` holds.
pub uninterp spec fn held_tag(any: AnyComponent) -> u64;

/// The record that an `AnyComponent` holds, read as a record of payload type
/// `DataType`. It has a meaning only where `DataType` is the payload type of
/// the record held: see `AnyComponent::held`.
///
/// The definition fixes one reading for each value and each payload type and
/// leaves open which. The contracts of `box_any`, `any_downcast_ref` and
/// `any_downcast_mut` tie it to the record that is there.
pub closed spec fn held_as<DataType: ComponentDataType>(any: AnyComponent) -> Component<DataType> {
    arbitrary::<spec_fn(AnyComponent) -> Component<DataType>>()(any)
}

/// `Box::new`, with the box then taken as a `Box<dyn Any>`: the new value
/// holds the record handed in, under the identity of its payload type. The
/// function kept beside the box is `<dyn Any>::downcast_ref` to the type
/// boxed, followed by the pick of the two fields.
#[verifier::external_body]
fn box_any<DataType: ComponentDataType>(component: Component<DataType>) -> (any: AnyComponent)
    ensures
        held_type(any) == type_identity::<DataType>(),
        held_as::<DataType>(any) == component,
        held_id(any) == component.identifier(),
        held_tag(any) == component.type_tag(),
{
    AnyComponent {
        inner: Box::new(component),
        head_of: Box::new(|held| held.downcast_ref::<Component<DataType>>().map(|c| (c.id, c.tid))),
    }
}

/// A call of the function kept beside the box, on what the box holds: the
/// identifier and tag of the record held, as they are now. The function was
/// made for the payload type of that record, which no write through
/// `any_downcast_mut` can change, so that its downcast does not fail.
#[verifier::external_body]
fn any_head(any: &AnyComponent) -> (head: Option<(u64, u64)>)
    ensures
        head == Some((held_id(*any), held_tag(*any))),
{
    (any.head_of)(any.inner.as_ref())
}

/// `<dyn Any>::downcast_ref`: a reference to the record held if its payload
/// type is `DataType`, and nothing otherwise.
#[verifier::external_body]
fn any_downcast_ref<DataType: ComponentDataType>(
    any: &AnyComponent,
) -> (found: Option<&Component<DataType>>)
    ensures
        match found {
            Some(component) => {
                &&& held_type(*any) == type_identity::<DataType>()
                &&& *component == held_as::<DataType>(*any)
                &&& component.identifier() == held_id(*any)
                &&& component.type_tag() == held_tag(*any)
            },
            None => held_type(*any) != type_identity::<DataType>(),
        },
{
    any.inner.downcast_ref::<Component<DataType>>()
}

/// `<dyn Any>::downcast_mut`: a mutable reference to the record held if its
/// payload type is `DataType`, and nothing otherwise. What the caller leaves
/// behind the reference is what the value holds afterwards, still under the
/// same payload type; where the caller leaves the record as it was, and
/// when nothing is returned, the value is as it was.
#[verifier::external_body]
fn any_downcast_mut<DataType: ComponentDataType>(
    any: &mut AnyComponent,
) -> (found: Option<&mut Component<DataType>>)
    ensures
        match found {
            Some(component) => {
                &&& held_type(*old(any)) == type_identity::<DataType>()
                &&& *component == held_as::<DataType>(*old(any))
                &&& component.identifier() == held_id(*old(any))
                &&& component.type_tag() == held_tag(*old(any))
                &&& held_type(*final(any)) == type_identity::<DataType>()
                &&& held_as::<DataType>(*final(any)) == *final(component)
                &&& held_id(*final(any)) == final(component).identifier()
                &&& held_tag(*final(any)) == final(component).type_tag()
                &&& *final(component) == *component ==> *final(any) == *old(any)
            },
            None => {
                &&& held_type(*old(any)) != type_identity::<DataType>()
                &&& *final(any) == *old(any)
            },
        },
{
    any.inner.downcast_mut::<Component<DataType>>()
}

impl AnyComponent {
    /// The record held, if its payload type is `DataType`. The identifier
    /// and tag that the value answers with are those of the record.
    pub open spec fn held<DataType: ComponentDataType>(self) -> Option<Component<DataType>> {
        let record = held_as::<DataType>(self);
        if held_type(self) == type_identity::<DataType>() && record.identifier() == held_id(self)
            && record.type_tag() == held_tag(self) {
            Some(record)
        } else {
            None
        }
    }

    /// Forgets the payload type of a record.
    pub fn new<DataType: ComponentDataType>(component: Component<DataType>) -> (any: Self)
        ensures
            any.held::<DataType>() == Some(component),
    {
        box_any(component)
    }

    /// Recovers the typed record: present exactly when the record held has
    /// payload type `DataType`, and then it is that record.
    pub fn downcast_ref<DataType: ComponentDataType>(
        &self,
    ) -> (found: Option<&Component<DataType>>)
        ensures
            match found {
                Some(component) => self.held::<DataType>() == Some(*component),
                None => self.held::<DataType>() is None,
            },
    {
        any_downcast_ref::<DataType>(self)
    }

    /// Recovers the typed record for writing: present exactly when the record
    /// held has payload type `DataType`. Afterwards the value holds what the
    /// caller left behind the reference, under the same payload type. Where
    /// the caller leaves the record as it was, and when nothing is returned,
    /// the value is unchanged.
    pub fn downcast_mut<DataType: ComponentDataType>(
        &mut self,
    ) -> (found: Option<&mut Component<DataType>>)
        ensures
            match found {
                Some(component) => {
                    &&& old(self).held::<DataType>() == Some(*component)
                    &&& final(self).held::<DataType>() == Some(*final(component))
                    &&& *final(component) == *component ==> *final(self) == *old(self)
                },
                None => {
                    &&& old(self).held::<DataType>() is None
                    &&& *final(self) == *old(self)
                },
            },
    {
        any_downcast_mut::<DataType>(self)
    }
}

/// What every stored record offers whatever its payload type: its
/// identifier, its tag, and the way back to the typed record.
pub trait ComponentInterface: Typeable + Identifiable {
    /// The record held, with its payload type forgotten.
    spec fn erased(&self) -> AnyComponent;

    /// Returns the record held, with its payload type forgotten.
    fn as_any(&self) -> (any: &AnyComponent)
        ensures
            *any == self.erased(),
    ;

    /// Returns the record held, with its payload type forgotten, for writing.
    fn as_any_mut(&mut self) -> (any: &mut AnyComponent)
        ensures
            *any == old(self).erased(),
            final(self).erased() == *final(any),
    ;
}

/// One slot of a component store: a record of any payload type. The slot is
/// found under the identifier and tag of the record it holds, as they are
/// when it is asked: a caller that was handed the record for writing and
/// left there a record of another identifier has moved the slot.
pub struct StoredComponent {
    /// The record held.
    any: AnyComponent,
}

impl Identifiable for StoredComponent {
    closed spec fn identifier(&self) -> u64 {
        held_id(self.any)
    }

    fn get_id(&self) -> (id: u64) {
        match any_head(&self.any) {
            Some(head) => head.0,
            None => unreached(),
        }
    }
}

impl Typeable for StoredComponent {
    closed spec fn type_tag(&self) -> u64 {
        held_tag(self.any)
    }

    fn get_type_id(&self) -> (tag: u64) {
        match any_head(&self.any) {
            Some(head) => head.1,
            None => unreached(),
        }
    }
}

impl ComponentInterface for StoredComponent {
    closed spec fn erased(&self) -> AnyComponent {
        self.any
    }

    fn as_any(&self) -> (any: &AnyComponent) {
        &self.any
    }

    fn as_any_mut(&mut self) -> (any: &mut AnyComponent) {
        &mut self.any
    }
}

impl StoredComponent {
    /// The record held in the slot, if its payload type is `DataType`.
    pub open spec fn held<DataType: ComponentDataType>(&self) -> Option<Component<DataType>> {
        self.erased().held::<DataType>()
    }

    /// The slot is the one that `component` takes when it enters a store: it
    /// holds the record, and so is found under its identifier and tag.
    pub open spec fn is_slot_of<DataType: ComponentDataType>(
        &self,
        component: Component<DataType>,
    ) -> bool {
        self.held::<DataType>() == Some(component)
    }

    /// The slot is `before` with the record held replaced by `component`,
    /// of the payload type that `before` held. Where `component` is the
    /// record that `before` held, the slot is `before`.
    pub open spec fn is_rewrite_of<DataType: ComponentDataType>(
        &self,
        before: StoredComponent,
        component: Component<DataType>,
    ) -> bool {
        &&& before.held::<DataType>() is Some
        &&& self.held::<DataType>() == Some(component)
        &&& before.held::<DataType>() == Some(component) ==> *self == before
    }

    /// A slot is found under the identifier and tag of the record it holds.
    pub broadcast proof fn lemma_found_under_record<DataType: ComponentDataType>(self)
        ensures
            #![trigger self.held::<DataType>()]
            self.held::<DataType>() matches Some(component) ==> {
                &&& self.identifier() == component.identifier()
                &&& self.type_tag() == component.type_tag()
            },
    {
    }

    /// A slot is known by what it holds.
    pub broadcast proof fn lemma_same_parts(self, other: Self)
        requires
            self.erased() == other.erased(),
        ensures
            #![trigger self.erased(), other.erased()]
            self == other,
    {
    }

    /// Takes a record into a slot, forgetting its payload type.
    pub fn new<DataType: ComponentDataType>(component: Component<DataType>) -> (stored: Self)
        ensures
            stored.is_slot_of(component),
    {
        Self { any: AnyComponent::new(component) }
    }
}

} // verus!
