//! The entity model, reduced to what validation reads: the variant tag and
//! the one byte-string field per variant that holds an encoded data value.
//!
//! The variant set is the closed set of ontology entity kinds. Five of them
//! carry a serialized data value — an annotation's value is mandatory, the
//! four assertion kinds carry theirs optionally — and every other kind
//! carries none, so validation has nothing to check on it.

use vstd::prelude::*;

verus! {

/// An ontology entity, as far as data-field validation is concerned: its
/// kind, and the encoded data value the kind may carry.
#[derive(Clone, Debug, PartialEq, Eq)]
pub enum Entity {
    Class,
    ObjectIntersectionOf,
    ObjectUnionOf,
    ObjectComplementOf,
    ObjectOneOf,
    ObjectSomeValuesFrom,
    ObjectAllValuesFrom,
    ObjectHasValue,
    ObjectHasSelf,
    ObjectMinCardinality,
    ObjectMaxCardinality,
    ObjectExactCardinality,
    DataSomeValuesFrom,
    DataAllValuesFrom,
    DataHasValue,
    DataMinCardinality,
    DataMaxCardinality,
    DataExactCardinality,
    ObjectProperty,
    InverseObjectProperty,
    DataProperty,
    Annotation { value: Vec<u8> },
    Individual,
    AnnotationProperty,
    ClassAssertion,
    NegativeClassAssertion,
    ObjectPropertyAssertion,
    NegativeObjectPropertyAssertion,
    DataPropertyAssertion { target: Option<Vec<u8>> },
    NegativeDataPropertyAssertion { target: Option<Vec<u8>> },
    AnnotationAssertion { value: Option<Vec<u8>> },
    NegativeAnnotationAssertion { value: Option<Vec<u8>> },
    Literal,
    Datatype,
    DataIntersectionOf,
    DataUnionOf,
    DataComplementOf,
    DataOneOf,
}

/// The serialized-data field an entity carries, if its kind has one and the
/// field is present. An absent optional field is no field at all.
pub open spec fn data_field(e: Entity) -> Option<Seq<u8>> {
    match e {
        Entity::Annotation { value } => Some(value@),
        Entity::DataPropertyAssertion { target: Some(value) } => Some(value@),
        Entity::NegativeDataPropertyAssertion { target: Some(value) } => Some(value@),
        Entity::AnnotationAssertion { value: Some(value) } => Some(value@),
        Entity::NegativeAnnotationAssertion { value: Some(value) } => Some(value@),
        _ => None,
    }
}

/// Look up the byte-string field of `entity` that must be validated as
/// serialized data: a fixed, variant-specific rule that performs no
/// decoding. A kind without such a field, or with its optional field left
/// absent, yields nothing, which is not an error.
pub fn fields_to_validate(entity: &Entity) -> (r: Option<&Vec<u8>>)
    ensures
        match r {
            Some(value) => data_field(*entity) == Some(value@),
            None => data_field(*entity) is None,
        },
{
    match entity {
        Entity::Annotation { value } => Some(value),
        Entity::DataPropertyAssertion { target: Some(value) } => Some(value),
        Entity::NegativeDataPropertyAssertion { target: Some(value) } => Some(value),
        Entity::AnnotationAssertion { value: Some(value) } => Some(value),
        Entity::NegativeAnnotationAssertion { value: Some(value) } => Some(value),
        _ => None,
    }
}

} // verus!
