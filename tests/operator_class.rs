use sql_entity_graph::hash::PostgresHashEntity;
use sql_entity_graph::metadata::ToSqlConfigEntity;
use sql_entity_graph::ord::PostgresOrdEntity;

fn hash(name: &str) -> PostgresHashEntity {
    PostgresHashEntity {
        name: name.to_string(),
        file: "src/point.rs".to_string(),
        line: 42,
        full_path: "ext::Point3D".to_string(),
        mod_path: "ext".to_string(),
        id: 9,
        to_sql_config: ToSqlConfigEntity::Default,
    }
}

fn ord(name: &str) -> PostgresOrdEntity {
    PostgresOrdEntity {
        name: name.to_string(),
        file: "src/point.rs".to_string(),
        line: 43,
        full_path: "ext::Point3D".to_string(),
        mod_path: "ext".to_string(),
        id: 9,
        to_sql_config: ToSqlConfigEntity::Default,
    }
}

#[test]
fn scenario_c_hash_operator_class() {
    let sql = hash("point3d").to_sql();
    assert!(sql.contains("CREATE OPERATOR FAMILY point3d_hash_ops USING hash;"));
    assert!(sql.contains("FUNCTION    1   point3d_hash(point3d)"));
    assert_eq!(
        sql,
        "\n-- src/point.rs:42\n-- ext::Point3D\nCREATE OPERATOR FAMILY point3d_hash_ops USING hash;\nCREATE OPERATOR CLASS point3d_hash_ops DEFAULT FOR TYPE point3d USING hash FAMILY point3d_hash_ops AS\n\tOPERATOR    1   =  (point3d, point3d),\n\tFUNCTION    1   point3d_hash(point3d);"
    );
}

#[test]
fn hash_support_function_is_lowercased() {
    let h = hash("Point3D");
    assert_eq!(h.fn_name(), "point3d_hash");
    assert!(h.to_sql().contains("FUNCTION    1   point3d_hash(Point3D);"));
    assert_eq!(h.to_sql_with_fn_name("f"), hash("Point3D").to_sql().replace("point3d_hash", "f"));
}

#[test]
fn hash_identifiers() {
    let h = hash("point3d");
    assert_eq!(h.dot_identifier(), "hash ext::Point3D");
    assert_eq!(h.rust_identifier(), "ext::Point3D");
    assert_eq!(h.file(), Some("src/point.rs"));
    assert_eq!(h.line(), Some(42));
}

#[test]
fn ord_operator_class() {
    let o = ord("Point3D");
    assert_eq!(o.fn_name(), "point3d_cmp");
    assert_eq!(
        o.to_sql(),
        "\n-- src/point.rs:43\n-- ext::Point3D\nCREATE OPERATOR FAMILY Point3D_btree_ops USING btree;\nCREATE OPERATOR CLASS Point3D_btree_ops DEFAULT FOR TYPE Point3D USING btree FAMILY Point3D_btree_ops AS\n\tOPERATOR 1 <,\n\tOPERATOR 2 <=,\n\tOPERATOR 3 =,\n\tOPERATOR 4 >=,\n\tOPERATOR 5 >,\n\tFUNCTION 1 point3d_cmp(Point3D, Point3D);"
    );
    assert_eq!(o.dot_identifier(), "ord ext::Point3D");
    assert_eq!(o.rust_identifier(), "ext::Point3D");
    assert_eq!(o.file(), Some("src/point.rs"));
    assert_eq!(o.line(), Some(43));
}
