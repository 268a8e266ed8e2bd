//! The emission driver: orders the entities of a frozen graph and concatenates their statements.
use vstd::prelude::*;

use crate::aggregate::aggregate_sql;
use crate::graph::{
    args_refer_to, decl_site, decl_site_of, entity_path_string, id_node_from, is_type_or_enum_with_id, path_of, provides_type,
    refers_to, type_node_from, SqlGraph, SqlGraphEntity, SqlGraphView,
};
use crate::metadata::UsedTypeEntity;
use crate::hash::{hash_fn_name, hash_sql};
use crate::metadata::ToSqlConfigEntity;
use crate::ord::{cmp_fn_name, ord_sql};
use crate::pg_type::{enum_sql, type_sql};
use crate::resolve::{views, RenderError};

verus! {

/// Why the script could not be emitted: the entity whose rendering failed, where it was
/// declared, and the failure.
#[derive(Debug, PartialEq, Eq)]
pub struct EmissionError {
    pub entity_path: String,
    pub file: Option<String>,
    pub line: Option<u32>,
    pub error: RenderError,
}

/// How an entity asks to be rendered; a builtin type asks for nothing.
pub open spec fn config_of(e: SqlGraphEntity) -> Option<ToSqlConfigEntity> {
    match e {
        SqlGraphEntity::Type(t) => Some(t.to_sql_config),
        SqlGraphEntity::Enum(t) => Some(t.to_sql_config),
        SqlGraphEntity::BuiltinType(_) => None,
        SqlGraphEntity::Aggregate(a) => Some(a.to_sql_config),
        SqlGraphEntity::Hash(h) => Some(h.to_sql_config),
        SqlGraphEntity::Ord(o) => Some(o.to_sql_config),
    }
}

/// What node `i` contributes to the script: nothing, its statements, or why it cannot be
/// rendered.
pub open spec fn node_output(g: SqlGraphView, i: int) -> Result<Option<Seq<char>>, RenderError> {
    let e = g.entities[i];
    match config_of(e) {
        Some(ToSqlConfigEntity::Skip) => Ok(None),
        Some(ToSqlConfigEntity::Custom(sql)) => Ok(Some(sql@)),
        _ => match e {
            SqlGraphEntity::BuiltinType(_) => Ok(None),
            SqlGraphEntity::Type(t) => Ok(Some(type_sql(t, g.target_schema))),
            SqlGraphEntity::Enum(t) => Ok(Some(enum_sql(t, g.target_schema))),
            SqlGraphEntity::Aggregate(a) => match aggregate_sql(a, g) {
                Ok(s) => Ok(Some(s)),
                Err(err) => Err(err),
            },
            SqlGraphEntity::Hash(h) => Ok(Some(hash_sql(h, hash_fn_name(h.name@)))),
            SqlGraphEntity::Ord(o) => Ok(Some(ord_sql(o, cmp_fn_name(o.name@)))),
        },
    }
}

/// The dependency rank of an entity: types come first, then the entities that refer to types.
pub open spec fn rank(e: SqlGraphEntity) -> int {
    match e {
        SqlGraphEntity::Type(_) | SqlGraphEntity::Enum(_) | SqlGraphEntity::BuiltinType(_) => 0,
        _ => 1,
    }
}

/// The source file an entity was declared in; empty for a builtin type.
pub open spec fn decl_file(e: SqlGraphEntity) -> Seq<char> {
    match e {
        SqlGraphEntity::Type(t) => t.file@,
        SqlGraphEntity::Enum(t) => t.file@,
        SqlGraphEntity::BuiltinType(_) => Seq::empty(),
        SqlGraphEntity::Aggregate(a) => a.file@,
        SqlGraphEntity::Hash(h) => h.file@,
        SqlGraphEntity::Ord(o) => o.file@,
    }
}

/// The line an entity was declared on; zero for a builtin type.
pub open spec fn decl_line(e: SqlGraphEntity) -> u32 {
    match e {
        SqlGraphEntity::Type(t) => t.line,
        SqlGraphEntity::Enum(t) => t.line,
        SqlGraphEntity::BuiltinType(_) => 0,
        SqlGraphEntity::Aggregate(a) => a.line,
        SqlGraphEntity::Hash(h) => h.line,
        SqlGraphEntity::Ord(o) => o.line,
    }
}

/// `a` comes before `b` in lexicographic order of characters, comparing from position `k`.
pub open spec fn lex_lt_from(a: Seq<char>, b: Seq<char>, k: int) -> bool
    decreases a.len() - k,
{
    if k < 0 {
        false
    } else if k >= a.len() {
        k < b.len()
    } else if k >= b.len() {
        false
    } else if a[k] != b[k] {
        (a[k] as u32) < (b[k] as u32)
    } else {
        lex_lt_from(a, b, k + 1)
    }
}

/// `a` comes before `b` in lexicographic order of characters.
pub open spec fn lex_lt(a: Seq<char>, b: Seq<char>) -> bool {
    lex_lt_from(a, b, 0)
}

/// Node `i` is emitted before node `j`: by rank, then by file, then by line, then by position.
pub open spec fn precedes(g: SqlGraphView, i: int, j: int) -> bool {
    let a = g.entities[i];
    let b = g.entities[j];
    if rank(a) != rank(b) {
        rank(a) < rank(b)
    } else if decl_file(a) != decl_file(b) {
        lex_lt(decl_file(a), decl_file(b))
    } else if decl_line(a) != decl_line(b) {
        decl_line(a) < decl_line(b)
    } else {
        i < j
    }
}

/// `s` with node `x` inserted before the first node that `x` precedes.
pub open spec fn insert_sorted(g: SqlGraphView, s: Seq<int>, x: int) -> Seq<int>
    decreases s.len(),
{
    if s.len() == 0 {
        seq![x]
    } else if precedes(g, x, s[0]) {
        seq![x] + s
    } else {
        seq![s[0]] + insert_sorted(g, s.drop_first(), x)
    }
}

/// The first `k` nodes in emission order.
pub open spec fn sorted_upto(g: SqlGraphView, k: int) -> Seq<int>
    decreases k,
{
    if k <= 0 {
        Seq::empty()
    } else {
        insert_sorted(g, sorted_upto(g, k - 1), k - 1)
    }
}

/// All nodes in emission order.
pub open spec fn emission_order(g: SqlGraphView) -> Seq<int> {
    sorted_upto(g, g.entities.len() as int)
}

/// The outputs of the first `k` nodes of `order`, leaving out those that contribute nothing,
/// or the first failure.
pub open spec fn outputs_upto(g: SqlGraphView, order: Seq<int>, k: int) -> Result<Seq<Seq<char>>, EmissionError>
    decreases k,
{
    if k <= 0 {
        Ok(Seq::empty())
    } else {
        match outputs_upto(g, order, k - 1) {
            Err(e) => Err(e),
            Ok(parts) => match node_output(g, order[k - 1]) {
                Err(err) => {
                    let e = g.entities[order[k - 1]];
                    Err(
                        EmissionError {
                            entity_path: entity_path_string(e),
                            file: decl_site(e).0,
                            line: decl_site(e).1,
                            error: err,
                        },
                    )
                },
                Ok(None) => Ok(parts),
                Ok(Some(s)) => Ok(parts.push(s)),
            },
        }
    }
}

/// What goes before a part that follows another, so that a blank line always parts them: one
/// newline when the part begins with a newline itself (as the default templates do), else two.
pub open spec fn separator(part: Seq<char>) -> Seq<char> {
    if part.len() > 0 && part[0] == '\n' {
        "\n"@
    } else {
        "\n\n"@
    }
}

/// The first `k` parts, each after the first preceded by its separator.
pub open spec fn join_lines(parts: Seq<Seq<char>>, k: int) -> Seq<char>
    decreases k,
{
    if k <= 0 {
        Seq::empty()
    } else if k == 1 {
        parts[0]
    } else {
        join_lines(parts, k - 1) + separator(parts[k - 1]) + parts[k - 1]
    }
}

/// The whole script, or the first failure in emission order.
pub open spec fn emitted(g: SqlGraphView) -> Result<Seq<char>, EmissionError> {
    let order = emission_order(g);
    match outputs_upto(g, order, order.len() as int) {
        Err(e) => Err(e),
        Ok(parts) => Ok(join_lines(parts, parts.len() as int)),
    }
}

/// Whether `a` comes before `b` in lexicographic order of characters (which is the order of
/// their UTF-8 bytes).
pub fn str_lt(a: &str, b: &str) -> (r: bool)
    ensures
        r == lex_lt(a@, b@),
{
    let n = a.unicode_len();
    let m = b.unicode_len();
    let mut k: usize = 0;
    while k < n && k < m
        invariant
            n == a@.len(),
            m == b@.len(),
            k <= n,
            k <= m,
            lex_lt(a@, b@) == lex_lt_from(a@, b@, k as int),
        decreases n - k,
    {
        let x = a.get_char(k);
        let y = b.get_char(k);
        if x != y {
            return (x as u32) < (y as u32);
        }
        k = k + 1;
    }
    k < m
}

fn rank_of(e: &SqlGraphEntity) -> (r: u8)
    ensures
        r as int == rank(*e),
{
    match e {
        SqlGraphEntity::Type(_) | SqlGraphEntity::Enum(_) | SqlGraphEntity::BuiltinType(_) => 0,
        _ => 1,
    }
}

fn decl_file_of(e: &SqlGraphEntity) -> (r: &str)
    ensures
        r@ == decl_file(*e),
{
    match e {
        SqlGraphEntity::Type(t) => t.file.as_str(),
        SqlGraphEntity::Enum(t) => t.file.as_str(),
        SqlGraphEntity::BuiltinType(_) => {
            proof {
                reveal_strlit("");
            }
            ""
        },
        SqlGraphEntity::Aggregate(a) => a.file.as_str(),
        SqlGraphEntity::Hash(h) => h.file.as_str(),
        SqlGraphEntity::Ord(o) => o.file.as_str(),
    }
}

fn decl_line_of(e: &SqlGraphEntity) -> (r: u32)
    ensures
        r == decl_line(*e),
{
    match e {
        SqlGraphEntity::Type(t) => t.line,
        SqlGraphEntity::Enum(t) => t.line,
        SqlGraphEntity::BuiltinType(_) => 0,
        SqlGraphEntity::Aggregate(a) => a.line,
        SqlGraphEntity::Hash(h) => h.line,
        SqlGraphEntity::Ord(o) => o.line,
    }
}

fn str_eq(a: &str, b: &str) -> (r: bool)
    ensures
        r == (a@ == b@),
{
    let n = a.unicode_len();
    if n != b.unicode_len() {
        return false;
    }
    let mut k: usize = 0;
    while k < n
        invariant
            n == a@.len(),
            n == b@.len(),
            k <= n,
            forall|q: int| 0 <= q < k ==> a@[q] == b@[q],
        decreases n - k,
    {
        if a.get_char(k) != b.get_char(k) {
            return false;
        }
        k = k + 1;
    }
    assert(a@ =~= b@);
    true
}

/// Whether node `i` is emitted before node `j`.
pub fn node_precedes(g: &SqlGraph, i: usize, j: usize) -> (r: bool)
    requires
        i < g@.entities.len(),
        j < g@.entities.len(),
    ensures
        r == precedes(g@, i as int, j as int),
{
    let a = &g.entities()[i];
    let b = &g.entities()[j];
    let ra = rank_of(a);
    let rb = rank_of(b);
    if ra != rb {
        return ra < rb;
    }
    let fa = decl_file_of(a);
    let fb = decl_file_of(b);
    if !str_eq(fa, fb) {
        return str_lt(fa, fb);
    }
    let la = decl_line_of(a);
    let lb = decl_line_of(b);
    if la != lb {
        return la < lb;
    }
    i < j
}

proof fn lemma_insert_sorted(g: SqlGraphView, s: Seq<int>, x: int, p: int)
    requires
        0 <= p <= s.len(),
        forall|q: int| 0 <= q < p ==> !precedes(g, x, #[trigger] s[q]),
        p < s.len() ==> precedes(g, x, s[p]),
    ensures
        insert_sorted(g, s, x) == s.insert(p, x),
    decreases s.len(),
{
    if s.len() == 0 {
        assert(s.insert(p, x) =~= seq![x]);
    } else if p == 0 {
        assert(s.insert(p, x) =~= seq![x] + s);
    } else {
        let t = s.drop_first();
        assert forall|q: int| 0 <= q < p - 1 implies !precedes(g, x, #[trigger] t[q]) by {
            assert(t[q] == s[q + 1]);
        }
        lemma_insert_sorted(g, t, x, p - 1);
        assert(s.insert(p, x) =~= seq![s[0]] + t.insert(p - 1, x));
    }
}

/// The nodes of the graph in emission order: by rank, then file, then line, then position.
pub fn emission_order_of(g: &SqlGraph) -> (r: Vec<usize>)
    ensures
        r@.len() == g@.entities.len(),
        forall|q: int| 0 <= q < r@.len() ==> #[trigger] r@[q] < g@.entities.len(),
        r@.map_values(|i: usize| i as int) == emission_order(g@),
{
    let n = g.entities().len();
    let mut v: Vec<usize> = Vec::new();
    let mut k: usize = 0;
    assert(v@.map_values(|i: usize| i as int) =~= Seq::<int>::empty());
    while k < n
        invariant
            n == g@.entities.len(),
            k <= n,
            v@.len() == k,
            forall|q: int| 0 <= q < v@.len() ==> #[trigger] v@[q] < k,
            v@.map_values(|i: usize| i as int) == sorted_upto(g@, k as int),
        decreases n - k,
    {
        let mut p: usize = 0;
        while p < v.len() && !node_precedes(g, k, v[p])
            invariant
                n == g@.entities.len(),
                k < n,
                v@.len() == k,
                p <= v@.len(),
                forall|q: int| 0 <= q < v@.len() ==> #[trigger] v@[q] < k,
                forall|q: int| 0 <= q < p ==> !precedes(g@, k as int, #[trigger] v@[q] as int),
            decreases v@.len() - p,
        {
            p = p + 1;
        }
        let ghost old_v = v@;
        proof {
            let s = old_v.map_values(|i: usize| i as int);
            assert forall|q: int| 0 <= q < p implies !precedes(g@, k as int, #[trigger] s[q]) by {
                assert(s[q] == old_v[q] as int);
            }
            lemma_insert_sorted(g@, s, k as int, p as int);
        }
        v.insert(p, k);
        proof {
            assert(v@.map_values(|i: usize| i as int) =~= old_v.map_values(|i: usize| i as int).insert(
                p as int,
                k as int,
            ));
            assert forall|q: int| 0 <= q < v@.len() implies #[trigger] v@[q] < k + 1 by {
                if q < p {
                    assert(v@[q] == old_v[q]);
                } else if q > p {
                    assert(v@[q] == old_v[q - 1]);
                }
            }
        }
        k = k + 1;
    }
    v
}

/// The view of what a node contributes.
pub open spec fn output_view(r: Result<Option<String>, RenderError>) -> Result<Option<Seq<char>>, RenderError> {
    match r {
        Ok(Some(s)) => Ok(Some(s@)),
        Ok(None) => Ok(None),
        Err(e) => Err(e),
    }
}

/// Renders node `i`: nothing for a skipped entity or a builtin type, the literal SQL of a
/// custom entity, else the statements of its kind.
pub fn render_node(g: &SqlGraph, i: usize) -> (r: Result<Option<String>, RenderError>)
    requires
        i < g@.entities.len(),
    ensures
        output_view(r) == node_output(g@, i as int),
{
    let e = &g.entities()[i];
    let config = match e {
        SqlGraphEntity::Type(t) => Some(&t.to_sql_config),
        SqlGraphEntity::Enum(t) => Some(&t.to_sql_config),
        SqlGraphEntity::BuiltinType(_) => None,
        SqlGraphEntity::Aggregate(a) => Some(&a.to_sql_config),
        SqlGraphEntity::Hash(h) => Some(&h.to_sql_config),
        SqlGraphEntity::Ord(o) => Some(&o.to_sql_config),
    };
    match config {
        Some(ToSqlConfigEntity::Skip) => {
            return Ok(None);
        },
        Some(ToSqlConfigEntity::Custom(sql)) => {
            return Ok(Some(sql.clone()));
        },
        _ => {},
    }
    match e {
        SqlGraphEntity::BuiltinType(_) => Ok(None),
        SqlGraphEntity::Type(t) => Ok(Some(t.to_sql(g.target_schema()))),
        SqlGraphEntity::Enum(t) => Ok(Some(t.to_sql(g.target_schema()))),
        SqlGraphEntity::Aggregate(a) => match a.to_sql(g) {
            Ok(s) => Ok(Some(s)),
            Err(err) => Err(err),
        },
        SqlGraphEntity::Hash(h) => Ok(Some(h.to_sql())),
        SqlGraphEntity::Ord(o) => Ok(Some(o.to_sql())),
    }
}

/// The view of the script, or the failure.
pub open spec fn script_view(r: Result<String, EmissionError>) -> Result<Seq<char>, EmissionError> {
    match r {
        Ok(s) => Ok(s@),
        Err(e) => Err(e),
    }
}

proof fn lemma_outputs_fail(g: SqlGraphView, order: Seq<int>, k: int, n: int)
    requires
        outputs_upto(g, order, k) is Err,
        k <= n,
    ensures
        outputs_upto(g, order, n) == outputs_upto(g, order, k),
    decreases n - k,
{
    if k < n {
        lemma_outputs_fail(g, order, k, n - 1);
    }
}

/// Emits the whole script: every node in emission order, the statements of consecutive nodes
/// parted by a blank line. Fails, with no output at all, on the first node in that order
/// that cannot be rendered, naming its path and declaration site.
pub fn emit(g: &SqlGraph) -> (r: Result<String, EmissionError>)
    ensures
        script_view(r) == emitted(g@),
{
    let order = emission_order_of(g);
    let ghost ord = order@.map_values(|i: usize| i as int);
    let n = order.len();
    let mut parts: Vec<String> = Vec::new();
    let mut k: usize = 0;
    assert(views(parts@) =~= Seq::<Seq<char>>::empty());
    while k < n
        invariant
            n == order@.len(),
            n == g@.entities.len(),
            k <= n,
            forall|q: int| 0 <= q < order@.len() ==> #[trigger] order@[q] < g@.entities.len(),
            ord == order@.map_values(|i: usize| i as int),
            ord == emission_order(g@),
            outputs_upto(g@, ord, k as int) == Ok::<Seq<Seq<char>>, EmissionError>(views(parts@)),
        decreases n - k,
    {
        let i = order[k];
        assert(ord[k as int] == i as int);
        match render_node(g, i) {
            Err(err) => {
                let entity_path = path_of(&g.entities()[i]).clone();
                let (file, line) = decl_site_of(&g.entities()[i]);
                proof {
                    assert(outputs_upto(g@, ord, k as int + 1) == Err::<Seq<Seq<char>>, EmissionError>(
                        EmissionError { entity_path, file, line, error: err },
                    ));
                    lemma_outputs_fail(g@, ord, k as int + 1, n as int);
                }
                return Err(EmissionError { entity_path, file, line, error: err });
            },
            Ok(None) => {},
            Ok(Some(s)) => {
                proof {
                    assert(views(parts@.push(s)) =~= views(parts@).push(s@));
                }
                parts.push(s);
            },
        }
        k = k + 1;
    }
    let m = parts.len();
    let mut out = String::new();
    let mut j: usize = 0;
    while j < m
        invariant
            m == parts@.len(),
            j <= m,
            out@ == join_lines(views(parts@), j as int),
        decreases m - j,
    {
        if j > 0 {
            let part = parts[j].as_str();
            let sep: &str = if part.unicode_len() > 0 && part.get_char(0) == '\n' {
                "\n"
            } else {
                "\n\n"
            };
            out.append(sep);
        }
        proof {
            if j == 0 {
                assert(out@ + parts@[0]@ =~= parts@[0]@);
            }
        }
        out.append(parts[j].as_str());
        j = j + 1;
    }
    Ok(out)
}

/// The script is a function of the frozen graph alone: graphs that hold the same entities,
/// target schema and source-only table emit the same script, byte for byte, or fail alike.
pub proof fn lemma_emission_deterministic(g1: SqlGraphView, g2: SqlGraphView)
    requires
        g1.entities == g2.entities,
        g1.target_schema == g2.target_schema,
        g1.source_only == g2.source_only,
    ensures
        emitted(g1) == emitted(g2),
{
    assert(g1 == g2);
}

/// No node appears twice in `s`.
pub open spec fn no_repeats(s: Seq<int>) -> bool {
    forall|p: int, q: int| 0 <= p < q < s.len() ==> s[p] != s[q]
}

/// The ranks of the nodes in `s` never decrease.
pub open spec fn rank_sorted(g: SqlGraphView, s: Seq<int>) -> bool {
    forall|p: int, q: int|
        0 <= p < q < s.len() ==> rank(g.entities[#[trigger] s[p]]) <= rank(g.entities[#[trigger] s[q]])
}

proof fn lemma_insert_keeps_order(g: SqlGraphView, s: Seq<int>, x: int)
    requires
        no_repeats(s),
        !s.contains(x),
        rank_sorted(g, s),
    ensures
        insert_sorted(g, s, x).len() == s.len() + 1,
        forall|y: int| #[trigger] insert_sorted(g, s, x).contains(y) <==> (y == x || s.contains(y)),
        no_repeats(insert_sorted(g, s, x)),
        rank_sorted(g, insert_sorted(g, s, x)),
    decreases s.len(),
{
    let r = insert_sorted(g, s, x);
    if s.len() == 0 {
        assert forall|y: int| #[trigger] r.contains(y) <==> (y == x || s.contains(y)) by {
            if r.contains(y) {
                assert(r[0] == y);
            } else if y == x {
                assert(r[0] == x);
            }
        }
    } else if precedes(g, x, s[0]) {
        assert forall|y: int| #[trigger] r.contains(y) <==> (y == x || s.contains(y)) by {
            if r.contains(y) {
                let i = choose|i: int| 0 <= i < r.len() && r[i] == y;
                if i > 0 {
                    assert(s[i - 1] == y);
                }
            } else if y == x {
                assert(r[0] == x);
            } else if s.contains(y) {
                let i = choose|i: int| 0 <= i < s.len() && s[i] == y;
                assert(r[i + 1] == y);
            }
        }
        assert forall|p: int, q: int| 0 <= p < q < r.len() implies r[p] != r[q] by {
            if p == 0 {
                assert(r[q] == s[q - 1]);
            } else {
                assert(r[p] == s[p - 1] && r[q] == s[q - 1]);
            }
        }
        assert forall|p: int, q: int| 0 <= p < q < r.len() implies rank(g.entities[#[trigger] r[p]]) <= rank(
            g.entities[#[trigger] r[q]],
        ) by {
            if p == 0 {
                assert(r[q] == s[q - 1]);
                if q > 1 {
                    assert(rank(g.entities[s[0]]) <= rank(g.entities[s[q - 1]]));
                }
            } else {
                assert(r[p] == s[p - 1] && r[q] == s[q - 1]);
            }
        }
    } else {
        let t = s.drop_first();
        assert forall|p: int, q: int| 0 <= p < q < t.len() implies t[p] != t[q] by {
            assert(t[p] == s[p + 1] && t[q] == s[q + 1]);
        }
        assert(!t.contains(x)) by {
            if t.contains(x) {
                let i = choose|i: int| 0 <= i < t.len() && t[i] == x;
                assert(s[i + 1] == x);
            }
        }
        assert forall|p: int, q: int| 0 <= p < q < t.len() implies rank(g.entities[#[trigger] t[p]]) <= rank(
            g.entities[#[trigger] t[q]],
        ) by {
            assert(t[p] == s[p + 1] && t[q] == s[q + 1]);
        }
        lemma_insert_keeps_order(g, t, x);
        let rest = insert_sorted(g, t, x);
        assert(r == seq![s[0]] + rest);
        assert forall|y: int| #[trigger] t.contains(y) ==> s.contains(y) by {
            if t.contains(y) {
                let i = choose|i: int| 0 <= i < t.len() && t[i] == y;
                assert(s[i + 1] == y);
            }
        }
        assert(!rest.contains(s[0])) by {
            if t.contains(s[0]) {
                let i = choose|i: int| 0 <= i < t.len() && t[i] == s[0];
                assert(s[i + 1] == s[0]);
            }
        }
        assert forall|y: int| #[trigger] r.contains(y) <==> (y == x || s.contains(y)) by {
            if r.contains(y) {
                let i = choose|i: int| 0 <= i < r.len() && r[i] == y;
                if i > 0 {
                    assert(rest[i - 1] == y);
                    assert(rest.contains(y));
                }
            }
            if y == x {
                assert(rest.contains(x));
                let i = choose|i: int| 0 <= i < rest.len() && rest[i] == x;
                assert(r[i + 1] == x);
            } else if s.contains(y) {
                let i = choose|i: int| 0 <= i < s.len() && s[i] == y;
                if i == 0 {
                    assert(r[0] == y);
                } else {
                    assert(t[i - 1] == y);
                    assert(rest.contains(y));
                    let j = choose|j: int| 0 <= j < rest.len() && rest[j] == y;
                    assert(r[j + 1] == y);
                }
            }
        }
        assert forall|p: int, q: int| 0 <= p < q < r.len() implies r[p] != r[q] by {
            if p == 0 {
                assert(r[q] == rest[q - 1]);
                assert(rest.contains(rest[q - 1]));
            } else {
                assert(r[p] == rest[p - 1] && r[q] == rest[q - 1]);
            }
        }
        assert forall|p: int, q: int| 0 <= p < q < r.len() implies rank(g.entities[#[trigger] r[p]]) <= rank(
            g.entities[#[trigger] r[q]],
        ) by {
            if p == 0 {
                let y = rest[q - 1];
                assert(r[q] == y);
                assert(rest.contains(y));
                if y != x {
                    assert(s.contains(y));
                    let i = choose|i: int| 0 <= i < s.len() && s[i] == y;
                    if i > 0 {
                        assert(rank(g.entities[s[0]]) <= rank(g.entities[s[i]]));
                    }
                }
            } else {
                assert(r[p] == rest[p - 1] && r[q] == rest[q - 1]);
            }
        }
    }
}

proof fn lemma_sorted_upto(g: SqlGraphView, k: int)
    requires
        k >= 0,
    ensures
        sorted_upto(g, k).len() == k,
        forall|y: int| #[trigger] sorted_upto(g, k).contains(y) <==> 0 <= y < k,
        no_repeats(sorted_upto(g, k)),
        rank_sorted(g, sorted_upto(g, k)),
    decreases k,
{
    if k > 0 {
        lemma_sorted_upto(g, k - 1);
        lemma_insert_keeps_order(g, sorted_upto(g, k - 1), k - 1);
    }
}

/// Emission order lists every node of the graph exactly once, and never puts an entity that
/// refers to types (an aggregate or an operator class) before a type.
pub proof fn lemma_emission_order(g: SqlGraphView)
    ensures
        emission_order(g).len() == g.entities.len(),
        forall|i: int| #[trigger] emission_order(g).contains(i) <==> 0 <= i < g.entities.len(),
        no_repeats(emission_order(g)),
        rank_sorted(g, emission_order(g)),
{
    lemma_sorted_upto(g, g.entities.len() as int);
}

proof fn lemma_type_node_found(s: Seq<SqlGraphEntity>, u: UsedTypeEntity, i: int)
    requires
        i >= 0,
        type_node_from(s, u, i) is Some,
    ensures
        i <= type_node_from(s, u, i)->0 < s.len(),
        provides_type(s[type_node_from(s, u, i)->0], u),
    decreases s.len() - i,
{
    if i < s.len() && !provides_type(s[i], u) {
        lemma_type_node_found(s, u, i + 1);
    }
}

proof fn lemma_id_node_found(s: Seq<SqlGraphEntity>, id: u64, i: int)
    requires
        i >= 0,
        id_node_from(s, id, i) is Some,
    ensures
        i <= id_node_from(s, id, i)->0 < s.len(),
        is_type_or_enum_with_id(s[id_node_from(s, id, i)->0], id),
    decreases s.len() - i,
{
    if i < s.len() && !is_type_or_enum_with_id(s[i], id) {
        lemma_id_node_found(s, id, i + 1);
    }
}

/// What a node refers to is a type node: it has rank zero, while the node itself has rank one.
proof fn lemma_refers_ranks(g: SqlGraphView, i: int, j: int)
    requires
        0 <= i < g.entities.len(),
        refers_to(g, i, j),
    ensures
        0 <= j < g.entities.len(),
        rank(g.entities[i]) == 1,
        rank(g.entities[j]) == 0,
{
    let s = g.entities;
    match s[i] {
        SqlGraphEntity::Aggregate(a) => {
            if type_node_from(s, a.stype.used_ty, 0) == Some(j) {
                lemma_type_node_found(s, a.stype.used_ty, 0);
            } else if a.mstype is Some && type_node_from(s, a.mstype->0, 0) == Some(j) {
                lemma_type_node_found(s, a.mstype->0, 0);
            } else if args_refer_to(s, a.args@, j) {
                let k = choose|k: int| 0 <= k < a.args@.len() && type_node_from(s, #[trigger] a.args@[k].used_ty, 0) == Some(j);
                lemma_type_node_found(s, a.args@[k].used_ty, 0);
            } else {
                let d = a.direct_args->0;
                let k = choose|k: int| 0 <= k < d@.len() && type_node_from(s, #[trigger] d@[k].used_ty, 0) == Some(j);
                lemma_type_node_found(s, d@[k].used_ty, 0);
            }
        },
        SqlGraphEntity::Hash(h) => {
            lemma_id_node_found(s, h.id, 0);
        },
        SqlGraphEntity::Ord(o) => {
            lemma_id_node_found(s, o.id, 0);
        },
        _ => {},
    }
}

/// A node that another node refers to (a type used by an aggregate, the type of an operator
/// class) is emitted before it.
pub proof fn lemma_referenced_first(g: SqlGraphView, i: int, j: int, p: int, q: int)
    requires
        0 <= i < g.entities.len(),
        refers_to(g, i, j),
        0 <= p < emission_order(g).len(),
        0 <= q < emission_order(g).len(),
        emission_order(g)[p] == i,
        emission_order(g)[q] == j,
    ensures
        q < p,
{
    lemma_refers_ranks(g, i, j);
    lemma_emission_order(g);
    if p < q {
        assert(rank(g.entities[emission_order(g)[p]]) <= rank(g.entities[emission_order(g)[q]]));
    }
}

} // verus!
