//! The record schema: the structural description of the type being given a
//! builder, and its extraction from a general type definition.

use vstd::prelude::*;

verus! {

/// One named, typed field of a record, both parts held as plain identifier
/// and type text.
pub struct FieldDef {
    pub name: String,
    pub ty: String,
}

/// The field list shape of a struct definition.
pub enum FieldsShape {
    /// Named fields, in declaration order.
    Named(Vec<FieldDef>),
    /// Tuple-like, positional fields.
    Unnamed,
    /// No fields at all.
    Unit,
}

/// The overall shape of a type definition handed to the engine.
pub enum TypeData {
    Struct(FieldsShape),
    Enumeration,
    Union,
}

/// A structural type definition: a name and the shape of its body.
pub struct TypeDef {
    pub name: String,
    pub data: TypeData,
}

impl TypeDef {
    /// The engine accepts exactly this shape: a struct with named fields.
    pub open spec fn is_named_record(self) -> bool {
        self.data matches TypeData::Struct(FieldsShape::Named(_))
    }

    /// The ordered field list of a named record.
    pub open spec fn spec_fields(self) -> Seq<FieldDef>
        recommends
            self.is_named_record(),
    {
        match self.data {
            TypeData::Struct(FieldsShape::Named(fields)) => fields@,
            _ => Seq::empty(),
        }
    }
}

/// Says whether a definition is a struct with named fields, the only shape
/// the engine accepts.
pub fn has_named_fields(def: &TypeDef) -> (b: bool)
    ensures
        b == def.is_named_record(),
{
    match &def.data {
        TypeData::Struct(FieldsShape::Named(_)) => true,
        _ => false,
    }
}

/// Schema extraction: yields the ordered field list of a named record,
/// verbatim and in source order. Any other shape is a definition-time
/// contract violation and is excluded up front.
pub fn fields_of(def: &TypeDef) -> (r: &Vec<FieldDef>)
    requires
        def.is_named_record(),
    ensures
        r@ == def.spec_fields(),
{
    match &def.data {
        TypeData::Struct(FieldsShape::Named(fields)) => fields,
        _ => vstd::pervasive::unreached(),
    }
}

} // verus!
