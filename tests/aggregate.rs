use sql_entity_graph::aggregate::{
    AggregateTypeEntity, FinalizeModify, ParallelOption, PgAggregateEntity,
};
use sql_entity_graph::graph::{SqlGraph, SqlGraphEntity};
use sql_entity_graph::metadata::{
    FunctionMetadataTypeEntity, Returns, SqlMapping, ToSqlConfigEntity, UsedTypeEntity,
};
use sql_entity_graph::resolve::{RenderError, TypeResolutionError};

fn used(path: &str, id: u64, mapping: SqlMapping) -> UsedTypeEntity {
    UsedTypeEntity {
        ty_source: path.to_string(),
        ty_id: id,
        full_path: path.to_string(),
        mod_path: String::new(),
        variadic: false,
        optional: false,
        metadata: FunctionMetadataTypeEntity {
            ty_name: path.to_string(),
            argument_sql: Ok(mapping.clone()),
            return_sql: Ok(Returns::One(mapping)),
            variadic: false,
            optional: false,
        },
    }
}

fn as_type(path: &str, id: u64, sql: &str) -> UsedTypeEntity {
    used(path, id, SqlMapping::As(sql.to_string()))
}

fn arg(u: UsedTypeEntity, name: Option<&str>) -> AggregateTypeEntity {
    AggregateTypeEntity { used_ty: u, name: name.map(|n| n.to_string()) }
}

fn sum_state() -> PgAggregateEntity {
    PgAggregateEntity {
        full_path: "ext::SumState".to_string(),
        mod_path: "ext".to_string(),
        file: "src/lib.rs".to_string(),
        line: 10,
        ty_id: 100,
        schema: None,
        name: "sum_state".to_string(),
        ordered_set: false,
        args: vec![arg(as_type("i32", 1, "int4"), None)],
        direct_args: None,
        stype: arg(as_type("i64", 2, "int8"), None),
        sfunc: "sum_sfunc".to_string(),
        finalfunc: None,
        finalfunc_modify: None,
        combinefunc: None,
        serialfunc: None,
        deserialfunc: None,
        initcond: None,
        msfunc: None,
        minvfunc: None,
        mstype: None,
        mfinalfunc: None,
        mfinalfunc_modify: None,
        minitcond: None,
        sortop: None,
        parallel: None,
        hypothetical: false,
        to_sql_config: ToSqlConfigEntity::Default,
    }
}

fn builtin_graph(target: Option<&str>) -> SqlGraph {
    SqlGraph::build(
        vec![
            SqlGraphEntity::BuiltinType("i32".to_string()),
            SqlGraphEntity::BuiltinType("i64".to_string()),
        ],
        target.map(|t| t.to_string()),
        vec![],
    )
    .unwrap()
}

const HEAD: &str = "\n-- src/lib.rs:10\n-- ext::SumState\n";

#[test]
fn scenario_a_minimal_aggregate() {
    let g = builtin_graph(None);
    let sql = sum_state().to_sql(&g).unwrap();
    let expected = format!(
        "{HEAD}CREATE AGGREGATE sum_state (\n\tint4 /* i32 */\n)\n(\n\tSFUNC = \"sum_sfunc\", /* ext::SumState::state */\n\tSTYPE = int8 /* i64 */\n);"
    );
    assert_eq!(sql, expected);
}

#[test]
fn no_optional_clauses_has_no_comma_after_stype() {
    let g = builtin_graph(None);
    let sql = sum_state().to_sql(&g).unwrap();
    let body = sql.split("(\n\t").last().unwrap();
    assert_eq!(body, "SFUNC = \"sum_sfunc\", /* ext::SumState::state */\n\tSTYPE = int8 /* i64 */\n);");
    assert!(!sql.contains("int8,"));
}

#[test]
fn scenario_b_combine_and_parallel() {
    let g = builtin_graph(None);
    let mut a = sum_state();
    a.parallel = Some(ParallelOption::Safe);
    a.combinefunc = Some("sum_combine".to_string());
    let sql = a.to_sql(&g).unwrap();
    let expected = format!(
        "{HEAD}CREATE AGGREGATE sum_state (\n\tint4 /* i32 */\n)\n(\n\tSFUNC = \"sum_sfunc\", /* ext::SumState::state */\n\tSTYPE = int8, /* i64 */\n\tCOMBINEFUNC = \"sum_combine\", /* ext::SumState::combine */\n\tPARALLEL = SAFE /* ext::SumState::PARALLEL */\n);"
    );
    assert_eq!(sql, expected);
}

#[test]
fn all_clauses_in_canonical_order() {
    let g = builtin_graph(None);
    let mut a = sum_state();
    // set in an order unrelated to the canonical one
    a.mstype = Some(as_type("i64", 2, "int8"));
    a.hypothetical = true;
    a.parallel = Some(ParallelOption::Restricted);
    a.sortop = Some("<".to_string());
    a.minitcond = Some("1".to_string());
    a.mfinalfunc_modify = Some(FinalizeModify::ReadWrite);
    a.mfinalfunc = Some("m_final".to_string());
    a.minvfunc = Some("m_inv".to_string());
    a.msfunc = Some("m_state".to_string());
    a.initcond = Some("0".to_string());
    a.deserialfunc = Some("de".to_string());
    a.serialfunc = Some("ser".to_string());
    a.combinefunc = Some("comb".to_string());
    a.finalfunc_modify = Some(FinalizeModify::Shareable);
    a.finalfunc = Some("fin".to_string());
    let sql = a.to_sql(&g).unwrap();
    let keywords = [
        "\tSFUNC =",
        "\tSTYPE =",
        "\tFINALFUNC =",
        "\tFINALFUNC_MODIFY =",
        "\tCOMBINEFUNC =",
        "\tSERIALFUNC =",
        "\tDESERIALFUNC =",
        "\tINITCOND =",
        "\tMSFUNC =",
        "\tMINVFUNC =",
        "\tMFINALFUNC =",
        "\tMFINALFUNC_MODIFY =",
        "\tMINITCOND =",
        "\tSORTOP =",
        "\tPARALLEL =",
        "\tHYPOTHETICAL",
        "\tMSTYPE =",
    ];
    let mut last = 0;
    for k in keywords {
        let at = sql.find(k).unwrap_or_else(|| panic!("missing {k}"));
        assert!(at >= last, "{k} out of order");
        last = at;
    }
    assert!(sql.contains("\tFINALFUNC_MODIFY = SHAREABLE, /* ext::SumState::FINALIZE_MODIFY */\n"));
    assert!(sql.contains("\tINITCOND = '0', /* ext::SumState::INITIAL_CONDITION */\n"));
    assert!(sql.contains("\tSORTOP = \"<\", /* ext::SumState::SORT_OPERATOR */\n"));
    assert!(sql.contains("\tMFINALFUNC_MODIFY = READ_WRITE, "));
    assert!(sql.ends_with("\tMSTYPE = int8 /* ext::SumState::MovingState = i64 */\n);"));
}

#[test]
fn schema_prefix_qualifies_functions_and_types() {
    let g = builtin_graph(None);
    let mut a = sum_state();
    a.schema = Some("ext".to_string());
    a.finalfunc = Some("fin".to_string());
    let sql = a.to_sql(&g).unwrap();
    assert!(sql.contains("CREATE AGGREGATE ext.sum_state ("));
    assert!(sql.contains("\tSFUNC = ext.\"sum_sfunc\", "));
    assert!(sql.contains("\tSTYPE = ext.int8, "));
    assert!(sql.contains("\tFINALFUNC = ext.\"fin\" /* ext::SumState::final */\n);"));
}

#[test]
fn schema_equal_to_target_is_not_written() {
    let g = builtin_graph(Some("ext"));
    let mut a = sum_state();
    a.schema = Some("ext".to_string());
    let sql = a.to_sql(&g).unwrap();
    assert!(sql.contains("CREATE AGGREGATE sum_state ("));
}

#[test]
fn named_variadic_and_several_arguments() {
    let g = builtin_graph(None);
    let mut a = sum_state();
    let mut v = as_type("i64", 2, "int8");
    v.variadic = true;
    a.args = vec![arg(as_type("i32", 1, "int4"), Some("value")), arg(v, Some("rest"))];
    let sql = a.to_sql(&g).unwrap();
    assert!(sql.contains(
        "CREATE AGGREGATE sum_state (\n\t\"value\" int4, /* i32 */\n\tVARIADIC \"rest\" int8 /* i64 */\n)\n"
    ));
}

#[test]
fn ordered_set_with_direct_arguments() {
    let g = builtin_graph(None);
    let mut a = sum_state();
    a.ordered_set = true;
    a.direct_args = Some(vec![arg(as_type("i64", 2, "int8"), Some("fraction"))]);
    let sql = a.to_sql(&g).unwrap();
    assert!(sql.contains(
        "CREATE AGGREGATE sum_state (\n\t\"fraction\" int8 /* i64 */\n\tORDER BY\n\tint4 /* i32 */\n)\n"
    ));
    assert!(!a.has_direct_args_without_order_by());
    a.ordered_set = false;
    assert!(a.has_direct_args_without_order_by());
}

#[test]
fn missing_graph_node_for_argument() {
    let g = SqlGraph::build(vec![], None, vec![]).unwrap();
    let r = sum_state().to_sql(&g);
    assert_eq!(r, Err(RenderError::MissingGraphNode {
            entity: "ext::SumState".to_string(),
            path: "i32".to_string()
        }));
}

#[test]
fn skipped_argument_type_fails() {
    let g = builtin_graph(None);
    let mut a = sum_state();
    a.args = vec![arg(used("i32", 1, SqlMapping::Skip), None)];
    let r = a.to_sql(&g);
    assert_eq!(
        r,
        Err(RenderError::TypeResolution {
            entity: "ext::SumState".to_string(),
            error: TypeResolutionError::SkippedTypeUsedAsConcrete { path: "i32".to_string() },
        })
    );
}

#[test]
fn state_type_failure_comes_first() {
    let g = SqlGraph::build(vec![], None, vec![]).unwrap();
    let mut a = sum_state();
    a.stype = arg(used("State", 5, SqlMapping::Composite { array_brackets: false }), None);
    let r = a.to_sql(&g);
    assert_eq!(
        r,
        Err(RenderError::TypeResolution {
            entity: "ext::SumState".to_string(),
            error: TypeResolutionError::CompositeNotRegistered { path: "State".to_string() },
        })
    );
}

#[test]
fn aggregate_identifiers() {
    let a = sum_state();
    assert_eq!(a.dot_identifier(), "aggregate ext::SumState");
    assert_eq!(a.rust_identifier(), "ext::SumState");
    assert_eq!(a.file(), Some("src/lib.rs"));
    assert_eq!(a.line(), Some(10));
    assert_eq!(FinalizeModify::ReadOnly.to_sql(), "READ_ONLY");
    assert_eq!(ParallelOption::Unsafe.to_sql(), "UNSAFE");
}

#[test]
fn skipped_state_type_names_the_aggregate() {
    let g = builtin_graph(None);
    let mut a = sum_state();
    a.stype = arg(used("Unit", 5, SqlMapping::Skip), None);
    assert_eq!(
        a.to_sql(&g),
        Err(RenderError::TypeResolution {
            entity: "ext::SumState".to_string(),
            error: TypeResolutionError::SkippedTypeUsedAsConcrete { path: "Unit".to_string() },
        })
    );
}

#[test]
fn missing_direct_argument_node_names_the_aggregate() {
    let g = builtin_graph(None);
    let mut a = sum_state();
    a.direct_args = Some(vec![arg(as_type("f64", 3, "float8"), None)]);
    assert_eq!(
        a.to_sql(&g),
        Err(RenderError::MissingGraphNode {
            entity: "ext::SumState".to_string(),
            path: "f64".to_string()
        })
    );
}
