//! Type resolution: the SQL text of a used type.
use vstd::prelude::*;

use crate::graph::{composite_from, source_from, type_node_name, SqlGraph, SqlGraphView};
use crate::metadata::{copy_argument_error, ArgumentError, SqlMapping, UsedTypeEntity};

verus! {

/// Why a used type has no SQL text. Each carries the path of the used type.
#[derive(Debug, PartialEq, Eq)]
pub enum TypeResolutionError {
    /// The type promised a composite type that no registered type provides.
    CompositeNotRegistered { path: String },
    /// The type promised a source-only mapping that the table does not hold.
    SourceOnlyMappingMissing { path: String },
    /// The type has no SQL representation, where one is required.
    SkippedTypeUsedAsConcrete { path: String },
    /// The type's mapping failed when the entity was made, and no source-only mapping stands in.
    MappingFailed { path: String, error: ArgumentError },
}

/// `s`, followed by `[]` when `array_brackets` holds.
pub open spec fn with_brackets(s: Seq<char>, array_brackets: bool) -> Seq<char> {
    if array_brackets {
        s + "[]"@
    } else {
        s
    }
}

/// The view of a result that holds a string.
pub open spec fn text_result<E>(r: Result<String, E>) -> Result<Seq<char>, E> {
    match r {
        Ok(s) => Ok(s@),
        Err(e) => Err(e),
    }
}

/// The SQL text of the used type `u`, or why it has none.
pub open spec fn resolved_sql(g: SqlGraphView, u: UsedTypeEntity) -> Result<Seq<char>, TypeResolutionError> {
    match u.metadata.argument_sql {
        Ok(SqlMapping::As(name)) => Ok(name@),
        Ok(SqlMapping::Composite { array_brackets }) => match composite_from(g.entities, u.ty_id, 0) {
            Some(i) => Ok(with_brackets(type_node_name(g.entities[i]), array_brackets)),
            None => Err(TypeResolutionError::CompositeNotRegistered { path: u.full_path }),
        },
        Ok(SqlMapping::Source { array_brackets }) => match source_from(g.source_only, u.ty_source@, 0) {
            Some(i) => Ok(with_brackets(g.source_only[i].1@, array_brackets)),
            None => Err(TypeResolutionError::SourceOnlyMappingMissing { path: u.full_path }),
        },
        Ok(SqlMapping::Skip) => Err(TypeResolutionError::SkippedTypeUsedAsConcrete { path: u.full_path }),
        Err(e) => match source_from(g.source_only, u.ty_source@, 0) {
            Some(i) => Ok(g.source_only[i].1@),
            None => Err(TypeResolutionError::MappingFailed { path: u.full_path, error: e }),
        },
    }
}

/// A literal mapping resolves to its SQL type name unchanged.
pub proof fn lemma_literal_mapping_unchanged(g: SqlGraphView, u: UsedTypeEntity, name: String)
    requires
        u.metadata.argument_sql == Ok::<SqlMapping, ArgumentError>(SqlMapping::As(name)),
    ensures
        resolved_sql(g, u) == Ok::<Seq<char>, TypeResolutionError>(name@),
{
}

/// A composite mapping with array brackets resolves to the name of the registered type with
/// the same identity key followed by `[]`, and fails with `CompositeNotRegistered` when no
/// type with that key is registered.
pub proof fn lemma_composite_array(g: SqlGraphView, u: UsedTypeEntity)
    requires
        u.metadata.argument_sql == Ok::<SqlMapping, ArgumentError>(SqlMapping::Composite { array_brackets: true }),
    ensures
        composite_from(g.entities, u.ty_id, 0) matches Some(i) ==> resolved_sql(g, u) == Ok::<
            Seq<char>,
            TypeResolutionError,
        >(type_node_name(g.entities[i]) + "[]"@),
        composite_from(g.entities, u.ty_id, 0) is None ==> resolved_sql(g, u) == Err::<
            Seq<char>,
            TypeResolutionError,
        >(TypeResolutionError::CompositeNotRegistered { path: u.full_path }),
{
}

fn bracketed(s: &String, array_brackets: bool) -> (r: String)
    ensures
        r@ == with_brackets(s@, array_brackets),
{
    let mut t = s.clone();
    if array_brackets {
        t.append("[]");
    }
    t
}

/// Resolves a used type to its SQL text: a literal mapping as it stands; a composite type by
/// the registered type with the same identity key; a source-only type by the table; a failed
/// mapping by the table if it can.
pub fn resolve(g: &SqlGraph, u: &UsedTypeEntity) -> (r: Result<String, TypeResolutionError>)
    ensures
        text_result(r) == resolved_sql(g@, *u),
{
    match &u.metadata.argument_sql {
        Ok(SqlMapping::As(name)) => Ok(name.clone()),
        Ok(SqlMapping::Composite { array_brackets }) => match g.find_composite(u.ty_id) {
            Some(i) => {
                let name = g.type_name_at(i);
                Ok(bracketed(&name, *array_brackets))
            },
            None => Err(TypeResolutionError::CompositeNotRegistered { path: u.full_path.clone() }),
        },
        Ok(SqlMapping::Source { array_brackets }) => match g.source_only_to_sql_type(&u.ty_source) {
            Some(name) => Ok(bracketed(name, *array_brackets)),
            None => Err(TypeResolutionError::SourceOnlyMappingMissing { path: u.full_path.clone() }),
        },
        Ok(SqlMapping::Skip) => Err(
            TypeResolutionError::SkippedTypeUsedAsConcrete { path: u.full_path.clone() },
        ),
        Err(e) => match g.source_only_to_sql_type(&u.ty_source) {
            Some(name) => Ok(name.clone()),
            None => Err(
                TypeResolutionError::MappingFailed {
                    path: u.full_path.clone(),
                    error: copy_argument_error(e),
                },
            ),
        },
    }
}

} // verus!

verus! {

/// Why an entity could not be rendered. Each carries the path of the entity being rendered.
#[derive(Debug, PartialEq, Eq)]
pub enum RenderError {
    /// A used type, named by its path, matches no node of the graph.
    MissingGraphNode { entity: String, path: String },
    /// A used type has no SQL text.
    TypeResolution { entity: String, error: TypeResolutionError },
}

/// The view of a list of strings.
pub open spec fn views(v: Seq<String>) -> Seq<Seq<char>> {
    v.map_values(|s: String| s@)
}

} // verus!
