//! The schema-derivation side of the return protocol.
//!
//! A return type's success type gets a static schema object, keyed by
//! codec: a descriptive schema for the structured-text codec, a binary
//! layout container for the dense binary codec. Resolution runs
//! against the same two candidates as return normalization, so the
//! success type both protocols operate over is the same by
//! construction: each candidate fixes one `Okay` type that both its
//! normalization and its schema implementations share.

use vstd::prelude::*;

use crate::contract_error::BaseError;
use crate::contract_error::FallibleReturn;
use crate::contract_error::PlainReturn;
use crate::method_info::TypeExpr;

verus! {

#[verifier::external_type_specification]
#[verifier::external_body]
pub struct ExSchema(schemars::schema::Schema);

#[verifier::external_type_specification]
#[verifier::external_body]
pub struct ExBorshSchemaContainer(borsh::schema::BorshSchemaContainer);

/// The schema object the structured-text codec derives for the type
/// with the given name: a function of the type alone.
pub uninterp spec fn json_schema_of(name: Seq<char>) -> schemars::schema::Schema;

/// The layout container the dense binary codec derives for the type
/// with the given name: a function of the type alone.
pub uninterp spec fn borsh_schema_of(name: Seq<char>) -> borsh::schema::BorshSchemaContainer;

/// Relies on schemars::gen::SchemaGenerator::subschema_for at `u32`:
/// the derived schema depends on the type alone.
#[verifier::external_body]
fn json_schema_u32() -> (r: schemars::schema::Schema)
    ensures
        r == json_schema_of("u32"@),
{
    schemars::gen::SchemaGenerator::default().subschema_for::<u32>()
}

/// Relies on borsh::schema_container_of at `u32`: the derived layout
/// container depends on the type alone.
#[verifier::external_body]
fn borsh_schema_u32() -> (r: borsh::schema::BorshSchemaContainer)
    ensures
        r == borsh_schema_of("u32"@),
{
    borsh::schema_container_of::<u32>()
}

/// A codec a schema can be derived for, and the schema object type it
/// produces.
pub trait SerializationFormat {
    /// The static schema object this codec derives.
    type SchemaObject;
}

/// The structured-text codec: its schema object is a descriptive
/// schema.
pub struct JsonSerializationFormat;

impl SerializationFormat for JsonSerializationFormat {
    type SchemaObject = schemars::schema::Schema;
}

/// The dense binary codec: its schema object is a binary layout
/// container.
pub struct BorshSerializationFormat;

impl SerializationFormat for BorshSerializationFormat {
    type SchemaObject = borsh::schema::BorshSchemaContainer;
}

/// The schema side of the return protocol. The `self` receiver is only
/// an anchor for resolution, and the format parameter only picks the
/// codec; the result is a function of the success type and the codec
/// alone.
pub trait ContractReturnSchema<S: SerializationFormat, Error> {
    /// The method return type as the author wrote it.
    type Input;

    /// The success type the schema describes: the same type the
    /// normalization candidate for this return type yields.
    type Okay;

    /// What the derived schema object is.
    spec fn spec_schema() -> S::SchemaObject;

    /// Derive the static schema object for the success type.
    fn schema(self, serialization_format: S) -> (r: S::SchemaObject)
        ensures
            r == Self::spec_schema(),
    ;
}

impl ContractReturnSchema<JsonSerializationFormat, BaseError> for PlainReturn<u32> {
    type Input = u32;

    type Okay = u32;

    open spec fn spec_schema() -> schemars::schema::Schema {
        json_schema_of("u32"@)
    }

    fn schema(self, serialization_format: JsonSerializationFormat) -> (r:
        schemars::schema::Schema) {
        json_schema_u32()
    }
}

impl<Error> ContractReturnSchema<JsonSerializationFormat, Error> for FallibleReturn<u32, Error> {
    type Input = Result<u32, Error>;

    type Okay = u32;

    open spec fn spec_schema() -> schemars::schema::Schema {
        json_schema_of("u32"@)
    }

    fn schema(self, serialization_format: JsonSerializationFormat) -> (r:
        schemars::schema::Schema) {
        json_schema_u32()
    }
}

impl ContractReturnSchema<BorshSerializationFormat, BaseError> for PlainReturn<u32> {
    type Input = u32;

    type Okay = u32;

    open spec fn spec_schema() -> borsh::schema::BorshSchemaContainer {
        borsh_schema_of("u32"@)
    }

    fn schema(self, serialization_format: BorshSerializationFormat) -> (r:
        borsh::schema::BorshSchemaContainer) {
        borsh_schema_u32()
    }
}

impl<Error> ContractReturnSchema<BorshSerializationFormat, Error> for FallibleReturn<u32, Error> {
    type Input = Result<u32, Error>;

    type Okay = u32;

    open spec fn spec_schema() -> borsh::schema::BorshSchemaContainer {
        borsh_schema_of("u32"@)
    }

    fn schema(self, serialization_format: BorshSerializationFormat) -> (r:
        borsh::schema::BorshSchemaContainer) {
        borsh_schema_u32()
    }
}

/// The success type a return-type expression resolves to, by the one
/// shape-matching rule both protocols share: the ok part of a
/// fallible-result shape, the type itself otherwise.
pub open spec fn spec_success_type(t: TypeExpr) -> TypeExpr {
    match t {
        TypeExpr::FallibleResult(ok, _) => *ok,
        _ => t,
    }
}

/// Resolution precedence at the shape level: a fallible-result shape
/// always resolves to its ok part (the specific candidate), every
/// other shape to itself (the generic candidate) — exactly one of the
/// two applies to any shape.
pub proof fn lemma_success_type_follows_shape(t: TypeExpr)
    ensures
        t.spec_is_fallible() ==> (t matches TypeExpr::FallibleResult(ok, _) && spec_success_type(t)
            == *ok),
        !t.spec_is_fallible() ==> spec_success_type(t) == t,
{
}

} // verus!
