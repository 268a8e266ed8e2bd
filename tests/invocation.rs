use sql_entity_graph::cargo_test::{targets_all_versions, test_features_arg, test_invocation};
use sql_entity_graph::spi::{check_argument_count, prepare_arguments, prepare_datum, ArgumentMismatch};
use sql_entity_graph::text::{provenance_header_text, u32_to_decimal};

fn strings(v: &[&str]) -> Vec<String> {
    v.iter().map(|s| s.to_string()).collect()
}

#[test]
fn features_always_name_pg_test() {
    assert_eq!(test_features_arg(&vec![]), " pg_test");
    assert_eq!(test_features_arg(&strings(&["a", "b"])), "a b pg_test");
    assert_eq!(test_features_arg(&strings(&["pg_test", "a"])), "pg_test a");
}

#[test]
fn full_invocation() {
    let inv = test_invocation(
        &strings(&["pg15"]),
        true,
        false,
        "release",
        &strings(&["--release"]),
        true,
        Some("ext/Cargo.toml".to_string()),
        Some("ext".to_string()),
        Some("my_test".to_string()),
    );
    assert_eq!(
        inv.args,
        strings(&[
            "test",
            "--features",
            "pg15 pg_test",
            "--no-default-features",
            "--release",
            "--manifest-path",
            "ext/Cargo.toml",
            "--package",
            "ext",
            "my_test"
        ])
    );
    let envs: Vec<(String, String)> = [
        ("PGX_FEATURES", "pg15 pg_test"),
        ("PGX_NO_DEFAULT_FEATURES", "true"),
        ("PGX_ALL_FEATURES", "false"),
        ("PGX_BUILD_PROFILE", "release"),
        ("PGX_NO_SCHEMA", "true"),
    ]
    .iter()
    .map(|(k, v)| (k.to_string(), v.to_string()))
    .collect();
    assert_eq!(inv.envs, envs);
}

#[test]
fn minimal_invocation() {
    let inv = test_invocation(&vec![], false, true, "dev", &vec![], false, None, None, None);
    assert_eq!(inv.args, strings(&["test", "--features", " pg_test", "--all-features"]));
    assert_eq!(inv.envs[2], ("PGX_ALL_FEATURES".to_string(), "true".to_string()));
}

#[test]
fn all_versions() {
    assert!(targets_all_versions(&Some("all".to_string())));
    assert!(!targets_all_versions(&Some("pg15".to_string())));
    assert!(!targets_all_versions(&None));
}

#[test]
fn datum_marshaling() {
    assert_eq!(prepare_datum(Some(7)), (7, b' ' as i8));
    assert_eq!(prepare_datum(None), (0, b'n' as i8));
    let (datums, nulls) = prepare_arguments(&vec![Some(1), None, Some(3)]);
    assert_eq!(datums, vec![1, 0, 3]);
    assert_eq!(nulls, vec![b' ' as i8, b'n' as i8, b' ' as i8]);
}

#[test]
fn argument_count() {
    assert_eq!(check_argument_count(2, 2), Ok(()));
    assert_eq!(check_argument_count(2, 3), Err(ArgumentMismatch { expected: 2, got: 3 }));
}

#[test]
fn decimal_and_header() {
    assert_eq!(u32_to_decimal(0), "0");
    assert_eq!(u32_to_decimal(4294967295), "4294967295");
    assert_eq!(u32_to_decimal(1050), "1050");
    assert_eq!(
        provenance_header_text(&"f.rs".to_string(), 7, &"a::b".to_string()),
        "\n-- f.rs:7\n-- a::b\n"
    );
}
