use sql_entity_graph::aggregate::{AggregateTypeEntity, PgAggregateEntity};
use sql_entity_graph::emit::{emission_order_of, emit, node_precedes, render_node, str_lt, EmissionError};
use sql_entity_graph::graph::{Direction, SqlGraph, SqlGraphEntity};
use sql_entity_graph::hash::PostgresHashEntity;
use sql_entity_graph::metadata::{
    FunctionMetadataTypeEntity, Returns, SqlMapping, ToSqlConfigEntity, UsedTypeEntity,
};
use sql_entity_graph::pg_type::{PgEnumEntity, PgTypeEntity};
use sql_entity_graph::resolve::{RenderError, TypeResolutionError};

fn used(path: &str, id: u64, mapping: SqlMapping) -> UsedTypeEntity {
    UsedTypeEntity {
        ty_source: path.to_string(),
        ty_id: id,
        full_path: path.to_string(),
        mod_path: String::new(),
        variadic: false,
        optional: false,
        metadata: FunctionMetadataTypeEntity {
            ty_name: path.to_string(),
            argument_sql: Ok(mapping.clone()),
            return_sql: Ok(Returns::One(mapping)),
            variadic: false,
            optional: false,
        },
    }
}

fn aggregate(arg_mapping: SqlMapping) -> PgAggregateEntity {
    PgAggregateEntity {
        full_path: "ext::SumState".to_string(),
        mod_path: "ext".to_string(),
        file: "src/lib.rs".to_string(),
        line: 10,
        ty_id: 100,
        schema: None,
        name: "sum_state".to_string(),
        ordered_set: false,
        args: vec![AggregateTypeEntity { used_ty: used("i32", 1, arg_mapping), name: None }],
        direct_args: None,
        stype: AggregateTypeEntity {
            used_ty: used("i64", 2, SqlMapping::As("int8".to_string())),
            name: None,
        },
        sfunc: "sum_sfunc".to_string(),
        finalfunc: None,
        finalfunc_modify: None,
        combinefunc: None,
        serialfunc: None,
        deserialfunc: None,
        initcond: None,
        msfunc: None,
        minvfunc: None,
        mstype: None,
        mfinalfunc: None,
        mfinalfunc_modify: None,
        minitcond: None,
        sortop: None,
        parallel: None,
        hypothetical: false,
        to_sql_config: ToSqlConfigEntity::Default,
    }
}

fn mood(config: ToSqlConfigEntity) -> PgEnumEntity {
    PgEnumEntity {
        name: "mood".to_string(),
        file: "src/a.rs".to_string(),
        line: 5,
        full_path: "ext::Mood".to_string(),
        mod_path: "ext".to_string(),
        id: 4,
        schema: None,
        variants: vec!["sad".to_string(), "happy".to_string()],
        to_sql_config: config,
    }
}

fn point_hash() -> PostgresHashEntity {
    PostgresHashEntity {
        name: "point".to_string(),
        file: "src/lib.rs".to_string(),
        line: 3,
        full_path: "ext::Point".to_string(),
        mod_path: "ext".to_string(),
        id: 6,
        to_sql_config: ToSqlConfigEntity::Default,
    }
}

fn entities(arg_mapping: SqlMapping) -> Vec<SqlGraphEntity> {
    vec![
        SqlGraphEntity::Aggregate(aggregate(arg_mapping)),
        SqlGraphEntity::BuiltinType("i32".to_string()),
        SqlGraphEntity::Enum(mood(ToSqlConfigEntity::Default)),
        SqlGraphEntity::Hash(point_hash()),
    ]
}

const MOOD: &str = "\n-- src/a.rs:5\n-- ext::Mood\nCREATE TYPE mood AS ENUM (\n\t'sad',\n\t'happy'\n);";

#[test]
fn enum_declaration() {
    assert_eq!(mood(ToSqlConfigEntity::Default).to_sql(&None), MOOD);
    let mut m = mood(ToSqlConfigEntity::Default);
    m.schema = Some("s".to_string());
    assert!(m.to_sql(&None).contains("CREATE TYPE s.mood AS ENUM (\n"));
    m.variants = vec![];
    assert!(m.to_sql(&Some("s".to_string())).ends_with("CREATE TYPE mood AS ENUM (\n\n);"));
}

#[test]
fn type_declaration() {
    let t = PgTypeEntity {
        name: "point".to_string(),
        file: "src/p.rs".to_string(),
        line: 1234567,
        full_path: "ext::Point".to_string(),
        mod_path: "ext".to_string(),
        id: 6,
        schema: Some("geo".to_string()),
        to_sql_config: ToSqlConfigEntity::Default,
    };
    assert_eq!(t.to_sql(&None), "\n-- src/p.rs:1234567\n-- ext::Point\nCREATE TYPE geo.point;");
}

#[test]
fn emission_order_types_then_by_file_and_line() {
    let g = SqlGraph::build(entities(SqlMapping::As("int4".to_string())), None, vec![]).unwrap();
    // builtin (no file), enum in src/a.rs, then hash at line 3 and aggregate at line 10
    assert_eq!(emission_order_of(&g), vec![1, 2, 3, 0]);
    assert!(node_precedes(&g, 2, 0));
    assert!(!node_precedes(&g, 0, 3));
}

#[test]
fn emitted_script_is_joined_by_blank_lines() {
    let g = SqlGraph::build(entities(SqlMapping::As("int4".to_string())), None, vec![]).unwrap();
    let script = emit(&g).unwrap();
    let agg = aggregate(SqlMapping::As("int4".to_string())).to_sql(&g).unwrap();
    let expected = format!("{MOOD}\n{}\n{}", point_hash().to_sql(), agg);
    assert_eq!(script, expected);
    assert!(script.contains(";\n\n-- src/lib.rs:3"));
}

#[test]
fn emission_is_deterministic() {
    let g = SqlGraph::build(entities(SqlMapping::As("int4".to_string())), None, vec![]).unwrap();
    let first = emit(&g);
    let second = emit(&g);
    assert_eq!(first, second);
    let again = SqlGraph::build(entities(SqlMapping::As("int4".to_string())), None, vec![]).unwrap();
    assert_eq!(emit(&again), first);
}

#[test]
fn scenario_d_skipped_argument_aborts_emission() {
    let g = SqlGraph::build(entities(SqlMapping::Skip), None, vec![]).unwrap();
    let r = emit(&g);
    assert_eq!(
        r,
        Err(EmissionError {
            entity_path: "ext::SumState".to_string(),
            file: Some("src/lib.rs".to_string()),
            line: Some(10),
            error: RenderError::TypeResolution {
                entity: "ext::SumState".to_string(),
                error: TypeResolutionError::SkippedTypeUsedAsConcrete { path: "i32".to_string() },
            },
        })
    );
}

#[test]
fn custom_and_skipped_entities() {
    let mut es = vec![
        SqlGraphEntity::Enum(mood(ToSqlConfigEntity::Custom("CREATE TYPE mood AS ENUM ();".to_string()))),
        SqlGraphEntity::Hash(point_hash()),
    ];
    let g = SqlGraph::build(es, None, vec![]).unwrap();
    assert_eq!(render_node(&g, 0), Ok(Some("CREATE TYPE mood AS ENUM ();".to_string())));
    assert_eq!(emit(&g).unwrap(), format!("CREATE TYPE mood AS ENUM ();\n{}", point_hash().to_sql()));
    es = vec![SqlGraphEntity::Enum(mood(ToSqlConfigEntity::Skip)), SqlGraphEntity::BuiltinType("i32".to_string())];
    let g = SqlGraph::build(es, None, vec![]).unwrap();
    assert_eq!(render_node(&g, 0), Ok(None));
    assert_eq!(render_node(&g, 1), Ok(None));
    assert_eq!(emit(&g), Ok(String::new()));
}

#[test]
fn lexicographic_order() {
    assert!(str_lt("a", "b"));
    assert!(str_lt("ab", "abc"));
    assert!(!str_lt("abc", "ab"));
    assert!(!str_lt("same", "same"));
    assert!(str_lt("", "a"));
    assert!(str_lt("B", "a"));
}

#[test]
fn neighbors_follow_type_references() {
    let mut es = entities(SqlMapping::As("int4".to_string()));
    // an operator class for the enum (identity key 4)
    let mut h = point_hash();
    h.id = 4;
    es[3] = SqlGraphEntity::Hash(h);
    let g = SqlGraph::build(es, None, vec![]).unwrap();
    assert_eq!(g.neighbors(0, Direction::Outgoing), vec![1]);
    assert_eq!(g.neighbors(1, Direction::Incoming), vec![0]);
    assert_eq!(g.neighbors(2, Direction::Incoming), vec![3]);
    assert_eq!(g.neighbors(2, Direction::Either), vec![3]);
    assert_eq!(g.neighbors(3, Direction::Either), vec![2]);
    assert_eq!(g.neighbors(1, Direction::Outgoing), Vec::<usize>::new());
    assert!(g.refers(0, 1));
    assert!(!g.refers(1, 0));
}

#[test]
fn custom_parts_are_parted_by_a_blank_line() {
    let mut second = mood(ToSqlConfigEntity::Custom("CREATE TYPE b;".to_string()));
    second.id = 5;
    second.line = 6;
    second.full_path = "ext::B".to_string();
    let es = vec![
        SqlGraphEntity::Enum(second),
        SqlGraphEntity::Enum(mood(ToSqlConfigEntity::Custom("CREATE TYPE a;".to_string()))),
    ];
    let g = SqlGraph::build(es, None, vec![]).unwrap();
    assert_eq!(emit(&g), Ok("CREATE TYPE a;\n\nCREATE TYPE b;".to_string()));
}
