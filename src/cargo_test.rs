//! The `cargo test` invocation that runs an extension's test suite.
use vstd::prelude::*;

verus! {

/// The feature that turns on the in-database tests.
pub open spec fn pg_test_feature() -> Seq<char> {
    "pg_test"@
}

/// The first `k` features, separated by single spaces.
pub open spec fn joined_features(features: Seq<String>, k: int) -> Seq<char>
    decreases k,
{
    if k <= 0 {
        Seq::empty()
    } else if k == 1 {
        features[0]@
    } else {
        joined_features(features, k - 1) + " "@ + features[k - 1]@
    }
}

/// Whether the features name `pg_test`.
pub open spec fn names_pg_test(features: Seq<String>) -> bool {
    exists|i: int| 0 <= i < features.len() && #[trigger] features[i]@ == pg_test_feature()
}

/// The features passed to `cargo test`: those asked for, with `pg_test` added when missing.
pub open spec fn test_features(features: Seq<String>) -> Seq<char> {
    if names_pg_test(features) {
        joined_features(features, features.len() as int)
    } else {
        joined_features(features, features.len() as int) + " "@ + pg_test_feature()
    }
}

/// The space-separated features for `cargo test`, with `pg_test` added when missing.
pub fn test_features_arg(features: &Vec<String>) -> (r: String)
    ensures
        r@ == test_features(features@),
{
    let pg_test = String::from_str("pg_test");
    let n = features.len();
    let mut s = String::new();
    let mut found = false;
    let mut k: usize = 0;
    while k < n
        invariant
            n == features@.len(),
            k <= n,
            pg_test@ == pg_test_feature(),
            s@ == joined_features(features@, k as int),
            found == exists|i: int| 0 <= i < k && #[trigger] features@[i]@ == pg_test_feature(),
        decreases n - k,
    {
        if k > 0 {
            s.append(" ");
        } else {
            proof {
                assert(s@ + features@[0]@ =~= features@[0]@);
            }
        }
        s.append(features[k].as_str());
        if features[k] == pg_test {
            found = true;
        }
        k = k + 1;
    }
    if !found {
        s.append(" ");
        s.append(pg_test.as_str());
    }
    s
}

/// What `cargo test` is run with: its arguments and the environment variables set for it.
pub struct CargoTestInvocation {
    pub args: Vec<String>,
    pub envs: Vec<(String, String)>,
}

/// `"true"` or `"false"`.
pub open spec fn bool_text(b: bool) -> Seq<char> {
    if b {
        "true"@
    } else {
        "false"@
    }
}

fn bool_string(b: bool) -> (r: String)
    ensures
        r@ == bool_text(b),
{
    if b {
        String::from_str("true")
    } else {
        String::from_str("false")
    }
}

/// The `--flag value` pair when a value is given, else nothing.
pub open spec fn optional_flag(flag: Seq<char>, value: Option<String>) -> Seq<Seq<char>> {
    match value {
        Some(v) => seq![flag, v@],
        None => Seq::empty(),
    }
}

/// The arguments of `cargo test`: the features (never empty, since they always name
/// `pg_test`), the feature switches, the profile's own arguments, the manifest path, the
/// package and the test name.
pub open spec fn test_args(
    features: Seq<String>,
    no_default_features: bool,
    all_features: bool,
    profile_args: Seq<String>,
    manifest_path: Option<String>,
    package: Option<String>,
    testname: Option<String>,
) -> Seq<Seq<char>> {
    seq!["test"@, "--features"@, test_features(features)]
        + (if no_default_features { seq!["--no-default-features"@] } else { Seq::empty() })
        + (if all_features { seq!["--all-features"@] } else { Seq::empty() })
        + arg_views(profile_args)
        + optional_flag("--manifest-path"@, manifest_path)
        + optional_flag("--package"@, package)
        + (match testname {
        Some(t) => seq![t@],
        None => Seq::empty(),
    })
}

/// The environment variables that tell the test harness how the extension was built.
pub open spec fn test_envs(
    features: Seq<String>,
    no_default_features: bool,
    all_features: bool,
    profile_name: Seq<char>,
    no_schema: bool,
) -> Seq<(Seq<char>, Seq<char>)> {
    seq![
        ("PGX_FEATURES"@, test_features(features)),
        ("PGX_NO_DEFAULT_FEATURES"@, bool_text(no_default_features)),
        ("PGX_ALL_FEATURES"@, bool_text(all_features)),
        ("PGX_BUILD_PROFILE"@, profile_name),
        ("PGX_NO_SCHEMA"@, bool_text(no_schema)),
    ]
}

/// The views of a list of strings.
pub open spec fn arg_views(v: Seq<String>) -> Seq<Seq<char>> {
    v.map_values(|a: String| a@)
}

fn push_str(v: &mut Vec<String>, s: &str)
    ensures
        arg_views(final(v)@) == arg_views(old(v)@).push(s@),
{
    let t = String::from_str(s);
    v.push(t);
    assert(arg_views(v@) =~= arg_views(old(v)@).push(s@));
}

/// The `cargo test` invocation for an extension's tests.
pub fn test_invocation(
    features: &Vec<String>,
    no_default_features: bool,
    all_features: bool,
    profile_name: &str,
    profile_args: &Vec<String>,
    no_schema: bool,
    manifest_path: Option<String>,
    package: Option<String>,
    testname: Option<String>,
) -> (r: CargoTestInvocation)
    ensures
        arg_views(r.args@) == test_args(
            features@,
            no_default_features,
            all_features,
            profile_args@,
            manifest_path,
            package,
            testname,
        ),
        r.envs@.map_values(|e: (String, String)| (e.0@, e.1@)) == test_envs(
            features@,
            no_default_features,
            all_features,
            profile_name@,
            no_schema,
        ),
{
    let features_arg = test_features_arg(features);
    let mut args: Vec<String> = Vec::new();
    push_str(&mut args, "test");
    push_str(&mut args, "--features");
    push_str(&mut args, features_arg.as_str());
    assert(arg_views(args@) =~= seq!["test"@, "--features"@, test_features(features@)]);
    let ghost start = arg_views(args@);
    if no_default_features {
        push_str(&mut args, "--no-default-features");
    }
    let ghost with_default = arg_views(args@);
    assert(with_default =~= start + (if no_default_features {
        seq!["--no-default-features"@]
    } else {
        Seq::empty()
    }));
    if all_features {
        push_str(&mut args, "--all-features");
    }
    assert(arg_views(args@) =~= with_default + (if all_features {
        seq!["--all-features"@]
    } else {
        Seq::empty()
    }));
    let ghost base = arg_views(args@);
    let n = profile_args.len();
    let mut k: usize = 0;
    while k < n
        invariant
            n == profile_args@.len(),
            k <= n,
            arg_views(args@) == base + arg_views(profile_args@.subrange(0, k as int)),
        decreases n - k,
    {
        push_str(&mut args, profile_args[k].as_str());
        proof {
            assert(arg_views(profile_args@.subrange(0, k as int + 1)) =~= arg_views(
                profile_args@.subrange(0, k as int),
            ).push(profile_args@[k as int]@));
        }
        k = k + 1;
    }
    proof {
        assert(profile_args@.subrange(0, n as int) =~= profile_args@);
    }
    let ghost with_profile = arg_views(args@);
    if let Some(p) = &manifest_path {
        push_str(&mut args, "--manifest-path");
        push_str(&mut args, p.as_str());
    }
    let ghost with_manifest = arg_views(args@);
    assert(with_manifest =~= with_profile + optional_flag("--manifest-path"@, manifest_path));
    if let Some(p) = &package {
        push_str(&mut args, "--package");
        push_str(&mut args, p.as_str());
    }
    let ghost with_package = arg_views(args@);
    assert(with_package =~= with_manifest + optional_flag("--package"@, package));
    if let Some(t) = &testname {
        push_str(&mut args, t.as_str());
    }
    proof {
        let expected = test_args(
            features@,
            no_default_features,
            all_features,
            profile_args@,
            manifest_path,
            package,
            testname,
        );
        assert(arg_views(args@) =~= expected);
    }
    let mut envs: Vec<(String, String)> = Vec::new();
    envs.push((String::from_str("PGX_FEATURES"), features_arg));
    envs.push((String::from_str("PGX_NO_DEFAULT_FEATURES"), bool_string(no_default_features)));
    envs.push((String::from_str("PGX_ALL_FEATURES"), bool_string(all_features)));
    envs.push((String::from_str("PGX_BUILD_PROFILE"), String::from_str(profile_name)));
    envs.push((String::from_str("PGX_NO_SCHEMA"), bool_string(no_schema)));
    proof {
        assert(envs@.map_values(|e: (String, String)| (e.0@, e.1@)) =~= test_envs(
            features@,
            no_default_features,
            all_features,
            profile_name@,
            no_schema,
        ));
    }
    CargoTestInvocation { args, envs }
}

/// Whether the tests are to run against every known server version: the version asked for
/// is `all`.
pub fn targets_all_versions(pg_version: &Option<String>) -> (r: bool)
    ensures
        r == (pg_version matches Some(v) && v@ == "all"@),
{
    match pg_version {
        Some(v) => *v == String::from_str("all"),
        None => false,
    }
}

} // verus!
