use sql_entity_graph::graph::{SqlGraph, SqlGraphEntity};
use sql_entity_graph::metadata::{
    ArgumentError, FunctionMetadataTypeEntity, Returns, SqlMapping, ToSqlConfigEntity,
    UsedTypeEntity,
};
use sql_entity_graph::pg_type::PgTypeEntity;
use sql_entity_graph::resolve::{resolve, TypeResolutionError};

fn used_with(source: &str, id: u64, argument_sql: Result<SqlMapping, ArgumentError>) -> UsedTypeEntity {
    UsedTypeEntity {
        ty_source: source.to_string(),
        ty_id: id,
        full_path: format!("ext::{source}"),
        mod_path: "ext".to_string(),
        variadic: false,
        optional: false,
        metadata: FunctionMetadataTypeEntity {
            ty_name: source.to_string(),
            argument_sql,
            return_sql: Ok(Returns::One(SqlMapping::Skip)),
            variadic: false,
            optional: false,
        },
    }
}

fn registered(name: &str, id: u64) -> SqlGraphEntity {
    SqlGraphEntity::Type(PgTypeEntity {
        name: name.to_string(),
        file: "src/types.rs".to_string(),
        line: 1,
        full_path: format!("ext::{name}"),
        mod_path: "ext".to_string(),
        id,
        schema: None,
        to_sql_config: ToSqlConfigEntity::Default,
    })
}

fn graph(entities: Vec<SqlGraphEntity>, table: Vec<(&str, &str)>) -> SqlGraph {
    SqlGraph::build(
        entities,
        None,
        table.into_iter().map(|(k, v)| (k.to_string(), v.to_string())).collect(),
    )
    .unwrap()
}

#[test]
fn literal_mapping_is_returned_unchanged() {
    let g = graph(vec![], vec![]);
    for t in ["int4", "text[]", "", "double precision"] {
        let u = used_with("T", 1, Ok(SqlMapping::As(t.to_string())));
        assert_eq!(resolve(&g, &u), Ok(t.to_string()));
    }
}

#[test]
fn registered_composite_with_brackets() {
    let g = graph(vec![registered("foo", 7)], vec![]);
    let u = used_with("Foo", 7, Ok(SqlMapping::Composite { array_brackets: true }));
    assert_eq!(resolve(&g, &u), Ok("foo[]".to_string()));
    let u = used_with("Foo", 7, Ok(SqlMapping::Composite { array_brackets: false }));
    assert_eq!(resolve(&g, &u), Ok("foo".to_string()));
}

#[test]
fn unregistered_composite_fails() {
    let g = graph(vec![registered("foo", 7)], vec![]);
    let u = used_with("Bar", 8, Ok(SqlMapping::Composite { array_brackets: true }));
    assert_eq!(
        resolve(&g, &u),
        Err(TypeResolutionError::CompositeNotRegistered { path: "ext::Bar".to_string() })
    );
}

#[test]
fn source_only_mapping() {
    let g = graph(vec![], vec![("Vec<Point>", "point"), ("Vec<Point>", "other")]);
    let u = used_with("Vec<Point>", 3, Ok(SqlMapping::Source { array_brackets: true }));
    assert_eq!(resolve(&g, &u), Ok("point[]".to_string()));
    let u = used_with("Vec<Point>", 3, Ok(SqlMapping::Source { array_brackets: false }));
    assert_eq!(resolve(&g, &u), Ok("point".to_string()));
}

#[test]
fn source_only_mapping_missing() {
    let g = graph(vec![], vec![("Other", "other")]);
    let u = used_with("Point", 3, Ok(SqlMapping::Source { array_brackets: false }));
    assert_eq!(
        resolve(&g, &u),
        Err(TypeResolutionError::SourceOnlyMappingMissing { path: "ext::Point".to_string() })
    );
}

#[test]
fn skip_is_not_a_concrete_type() {
    let g = graph(vec![], vec![]);
    let u = used_with("Unit", 3, Ok(SqlMapping::Skip));
    assert_eq!(
        resolve(&g, &u),
        Err(TypeResolutionError::SkippedTypeUsedAsConcrete { path: "ext::Unit".to_string() })
    );
}

#[test]
fn failed_mapping_falls_back_to_source_table() {
    let g = graph(vec![], vec![("Datum", "internal")]);
    let u = used_with("Datum", 3, Err(ArgumentError::Datum));
    assert_eq!(resolve(&g, &u), Ok("internal".to_string()));
}

#[test]
fn failed_mapping_without_fallback_keeps_its_error() {
    let g = graph(vec![], vec![]);
    let u = used_with("Odd", 3, Err(ArgumentError::NotValidAsArgument("Odd".to_string())));
    assert_eq!(
        resolve(&g, &u),
        Err(TypeResolutionError::MappingFailed {
            path: "ext::Odd".to_string(),
            error: ArgumentError::NotValidAsArgument("Odd".to_string()),
        })
    );
}
