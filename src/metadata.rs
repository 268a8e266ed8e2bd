//! Function and type level metadata: how a declared type maps to SQL.
use vstd::prelude::*;

verus! {

/// How a declared type is represented in SQL.
#[derive(Clone, Debug, PartialEq, Eq, Hash)]
pub enum SqlMapping {
    /// A literal SQL type name.
    As(String),
    /// A composite (record) type registered in the graph under the type's identity key.
    Composite { array_brackets: bool },
    /// A type known only by its declaration signature, looked up in the source-only table.
    Source { array_brackets: bool },
    /// The type has no SQL representation.
    Skip,
}

/// Why a declared type could not be mapped to an SQL argument type.
#[derive(Clone, Debug, PartialEq, Eq, Hash)]
pub enum ArgumentError {
    SetOf,
    Table,
    BareU8Array,
    SkipInArray,
    Datum,
    NotValidAsArgument(String),
}

/// How a declared return type is represented in SQL.
#[derive(Clone, Debug, PartialEq, Eq, Hash)]
pub enum Returns {
    One(SqlMapping),
    SetOf(SqlMapping),
    Table(Vec<SqlMapping>),
}

/// Why a declared type could not be mapped to an SQL return type.
#[derive(Clone, Debug, PartialEq, Eq, Hash)]
pub enum ReturnsError {
    NestedSetOf,
    NestedTable,
    SetOfContainingTable,
    TableContainingSetOf,
    SetOfInArray,
    TableInArray,
    BareU8Array,
    SkipInArray,
    Datum,
}

/// Metadata of one argument or return type of a function.
#[derive(Debug, PartialEq, Eq, Hash)]
pub struct FunctionMetadataTypeEntity {
    pub ty_name: String,
    pub argument_sql: Result<SqlMapping, ArgumentError>,
    pub return_sql: Result<Returns, ReturnsError>,
    pub variadic: bool,
    pub optional: bool,
}

/// Metadata of a function: its arguments, its return value and its path.
#[derive(Debug, PartialEq, Eq, Hash)]
pub struct FunctionMetadataEntity {
    pub arguments: Vec<FunctionMetadataTypeEntity>,
    pub retval: Option<FunctionMetadataTypeEntity>,
    pub path: String,
}

/// Whether to render an entity with its default template, with literal SQL, or not at all.
#[derive(Clone, Debug, PartialEq, Eq, Hash)]
pub enum ToSqlConfigEntity {
    Default,
    Custom(String),
    Skip,
}

/// A typed reference from one entity to the SQL representation of a type.
#[derive(Debug, PartialEq, Eq, Hash)]
pub struct UsedTypeEntity {
    /// The declaration signature of the type, the key of the source-only table.
    pub ty_source: String,
    /// The identity key of the referenced type.
    pub ty_id: u64,
    pub full_path: String,
    pub mod_path: String,
    pub variadic: bool,
    pub optional: bool,
    pub metadata: FunctionMetadataTypeEntity,
}

/// An exact copy of an argument error.
pub fn copy_argument_error(e: &ArgumentError) -> (r: ArgumentError)
    ensures
        r == *e,
{
    match e {
        ArgumentError::SetOf => ArgumentError::SetOf,
        ArgumentError::Table => ArgumentError::Table,
        ArgumentError::BareU8Array => ArgumentError::BareU8Array,
        ArgumentError::SkipInArray => ArgumentError::SkipInArray,
        ArgumentError::Datum => ArgumentError::Datum,
        ArgumentError::NotValidAsArgument(s) => ArgumentError::NotValidAsArgument(s.clone()),
    }
}

} // verus!
