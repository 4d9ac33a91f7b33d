//! The structural description of a record type: its name and its fields, in
//! declaration order, each with a primitive kind.

use vstd::prelude::*;
use vstd::string::*;

verus! {

/// The primitive kinds a field may be declared with.
#[derive(Clone, Copy, Debug, PartialEq, Eq, Structural)]
pub enum FieldKind {
    Boolean,
    Int8,
    Int16,
    Int32,
    Int64,
    Uint8,
    Uint16,
    Uint32,
    Uint64,
    Str,
    Binary,
}

/// One field of a record type: its name and its declared kind. Its position
/// is its index in the schema's field list.
#[derive(Debug)]
pub struct FieldDescriptor {
    pub name: String,
    pub kind: FieldKind,
}

/// A record type: its type name and its fields in declaration order.
#[derive(Debug)]
pub struct ModelSchema {
    pub model_type: String,
    pub fields: Vec<FieldDescriptor>,
}

/// Why a schema could not be derived from a type declaration.
#[derive(Debug, PartialEq, Eq)]
pub enum SchemaError {
    /// The type is not a record with named fields.
    NotNamedStruct,
    /// The field at `index` has a declared type with no parameter mapping.
    UnsupportedType { index: usize },
}

/// The kind that a declared type, written as Rust source, maps to.
pub open spec fn kind_of_type(ty: Seq<char>) -> Option<FieldKind> {
    if ty == "bool"@ {
        Some(FieldKind::Boolean)
    } else if ty == "i8"@ {
        Some(FieldKind::Int8)
    } else if ty == "i16"@ {
        Some(FieldKind::Int16)
    } else if ty == "i32"@ {
        Some(FieldKind::Int32)
    } else if ty == "i64"@ {
        Some(FieldKind::Int64)
    } else if ty == "u8"@ {
        Some(FieldKind::Uint8)
    } else if ty == "u16"@ {
        Some(FieldKind::Uint16)
    } else if ty == "u32"@ {
        Some(FieldKind::Uint32)
    } else if ty == "u64"@ {
        Some(FieldKind::Uint64)
    } else if ty == "String"@ {
        Some(FieldKind::Str)
    } else if ty == "Vec<u8>"@ || ty == "Vec < u8 >"@ {
        Some(FieldKind::Binary)
    } else {
        None
    }
}

impl ModelSchema {
    /// The field names, in declaration order.
    pub open spec fn names(&self) -> Seq<Seq<char>> {
        Seq::new(self.fields@.len(), |i: int| self.fields@[i].name@)
    }

    /// The field kinds, in declaration order.
    pub open spec fn kinds(&self) -> Seq<FieldKind> {
        Seq::new(self.fields@.len(), |i: int| self.fields@[i].kind)
    }

    /// Whether the schema was derived from `model_type` and the declared
    /// `(name, type)` pairs `decl`.
    pub open spec fn describes(&self, model_type: Seq<char>, decl: Seq<(String, String)>) -> bool {
        &&& self.model_type@ == model_type
        &&& self.fields@.len() == decl.len()
        &&& forall|i: int|
            0 <= i < decl.len() ==> {
                &&& (#[trigger] self.fields@[i]).name@ == decl[i].0@
                &&& kind_of_type(decl[i].1@) == Some(self.fields@[i].kind)
            }
    }

    /// Derives a schema from a type declaration: `fields` holds the declared
    /// `(name, type)` pairs in order, or is `None` when the type is not a
    /// record with named fields. Every field must have a supported type;
    /// the first one that does not is reported.
    pub fn extract(model_type: String, fields: Option<Vec<(String, String)>>) -> (r: Result<
        ModelSchema,
        SchemaError,
    >)
        ensures
            fields is None ==> r === Err(SchemaError::NotNamedStruct),
            fields is Some ==> match r {
                Ok(s) => s.describes(model_type@, fields->0@),
                Err(SchemaError::UnsupportedType { index }) => {
                    &&& index < fields->0@.len()
                    &&& kind_of_type(fields->0@[index as int].1@) is None
                    &&& forall|j: int|
                        0 <= j < index ==> #[trigger] kind_of_type(fields->0@[j].1@) is Some
                },
                Err(SchemaError::NotNamedStruct) => false,
            },
    {
        match fields {
            None => Err(SchemaError::NotNamedStruct),
            Some(decl) => {
                let mut out: Vec<FieldDescriptor> = Vec::new();
                let n = decl.len();
                for i in 0..n
                    invariant
                        fields == Some(decl),
                        n == decl@.len(),
                        out@.len() == i,
                        forall|j: int|
                            0 <= j < i ==> {
                                &&& (#[trigger] out@[j]).name@ == decl@[j].0@
                                &&& kind_of_type(decl@[j].1@) == Some(out@[j].kind)
                            },
                {
                    match kind_from_model_type(&decl[i].1) {
                        Some(kind) => {
                            out.push(FieldDescriptor { name: decl[i].0.clone(), kind });
                        },
                        None => {
                            assert forall|j: int| 0 <= j < i implies #[trigger] kind_of_type(
                                decl@[j].1@,
                            ) is Some by {
                                assert(kind_of_type(decl@[j].1@) == Some(out@[j].kind));
                            }
                            return Err(SchemaError::UnsupportedType { index: i });
                        },
                    }
                }
                Ok(ModelSchema { model_type, fields: out })
            },
        }
    }
}

/// Maps a declared type, written as Rust source, to its field kind.
pub fn kind_from_model_type(ty: &String) -> (r: Option<FieldKind>)
    ensures
        r == kind_of_type(ty@),
{
    if *ty == String::from_str("bool") {
        Some(FieldKind::Boolean)
    } else if *ty == String::from_str("i8") {
        Some(FieldKind::Int8)
    } else if *ty == String::from_str("i16") {
        Some(FieldKind::Int16)
    } else if *ty == String::from_str("i32") {
        Some(FieldKind::Int32)
    } else if *ty == String::from_str("i64") {
        Some(FieldKind::Int64)
    } else if *ty == String::from_str("u8") {
        Some(FieldKind::Uint8)
    } else if *ty == String::from_str("u16") {
        Some(FieldKind::Uint16)
    } else if *ty == String::from_str("u32") {
        Some(FieldKind::Uint32)
    } else if *ty == String::from_str("u64") {
        Some(FieldKind::Uint64)
    } else if *ty == String::from_str("String") {
        Some(FieldKind::Str)
    } else if *ty == String::from_str("Vec<u8>") || *ty == String::from_str("Vec < u8 >") {
        Some(FieldKind::Binary)
    } else {
        None
    }
}

} // verus!
