//! Aggregates: the entity and its `CREATE AGGREGATE` statement.
use vstd::prelude::*;

use crate::graph::{prefix_for_schema, schema_prefix, type_node_from, SqlGraph, SqlGraphView};
use crate::metadata::{SqlMapping, ToSqlConfigEntity, UsedTypeEntity};
use crate::resolve::{resolve, resolved_sql, text_result, views, RenderError};
use crate::text::{decimal, provenance_header, provenance_header_text};

verus! {

/// What the final function of an aggregate may do to the state.
#[derive(Clone, Copy, Debug, PartialEq, Eq, Hash)]
pub enum FinalizeModify {
    ReadOnly,
    Shareable,
    ReadWrite,
}

/// Whether an aggregate is safe to run in parallel.
#[derive(Clone, Copy, Debug, PartialEq, Eq, Hash)]
pub enum ParallelOption {
    Safe,
    Restricted,
    Unsafe,
}

/// An argument or state type of an aggregate, with its optional SQL name.
#[derive(Debug, PartialEq, Eq, Hash)]
pub struct AggregateTypeEntity {
    pub used_ty: UsedTypeEntity,
    pub name: Option<String>,
}

/// An aggregate: its arguments, state type and transition function, and the optional
/// clauses of its definition.
#[derive(Debug, PartialEq, Eq, Hash)]
pub struct PgAggregateEntity {
    pub full_path: String,
    pub mod_path: String,
    pub file: String,
    pub line: u32,
    pub ty_id: u64,
    /// The schema the aggregate is created in; `None` is the default schema.
    pub schema: Option<String>,
    pub name: String,
    /// Whether the aggregate is an ordered-set aggregate.
    pub ordered_set: bool,
    /// The aggregated arguments.
    pub args: Vec<AggregateTypeEntity>,
    /// The direct arguments, written before `ORDER BY` in ordered-set aggregates.
    pub direct_args: Option<Vec<AggregateTypeEntity>>,
    /// The state type.
    pub stype: AggregateTypeEntity,
    /// The state transition function.
    pub sfunc: String,
    pub finalfunc: Option<String>,
    pub finalfunc_modify: Option<FinalizeModify>,
    pub combinefunc: Option<String>,
    pub serialfunc: Option<String>,
    pub deserialfunc: Option<String>,
    pub initcond: Option<String>,
    pub msfunc: Option<String>,
    pub minvfunc: Option<String>,
    pub mstype: Option<UsedTypeEntity>,
    pub mfinalfunc: Option<String>,
    pub mfinalfunc_modify: Option<FinalizeModify>,
    pub minitcond: Option<String>,
    pub sortop: Option<String>,
    pub parallel: Option<ParallelOption>,
    pub hypothetical: bool,
    pub to_sql_config: ToSqlConfigEntity,
}

/// The number of optional clauses of an aggregate definition.
pub const CLAUSE_COUNT: usize = 15;

/// An optional clause of `CREATE AGGREGATE`.
#[derive(Clone, Copy, Debug, PartialEq, Eq, Hash)]
pub enum AggregateClause {
    FinalFunc,
    FinalFuncModify,
    CombineFunc,
    SerialFunc,
    DeserialFunc,
    InitCond,
    MsFunc,
    MinvFunc,
    MFinalFunc,
    MFinalFuncModify,
    MInitCond,
    SortOp,
    Parallel,
    Hypothetical,
    MsType,
}

/// The optional clauses in the order they are written.
pub open spec fn canonical_clause(k: int) -> AggregateClause {
    if k == 0 {
        AggregateClause::FinalFunc
    } else if k == 1 {
        AggregateClause::FinalFuncModify
    } else if k == 2 {
        AggregateClause::CombineFunc
    } else if k == 3 {
        AggregateClause::SerialFunc
    } else if k == 4 {
        AggregateClause::DeserialFunc
    } else if k == 5 {
        AggregateClause::InitCond
    } else if k == 6 {
        AggregateClause::MsFunc
    } else if k == 7 {
        AggregateClause::MinvFunc
    } else if k == 8 {
        AggregateClause::MFinalFunc
    } else if k == 9 {
        AggregateClause::MFinalFuncModify
    } else if k == 10 {
        AggregateClause::MInitCond
    } else if k == 11 {
        AggregateClause::SortOp
    } else if k == 12 {
        AggregateClause::Parallel
    } else if k == 13 {
        AggregateClause::Hypothetical
    } else {
        AggregateClause::MsType
    }
}

/// The position of a clause in the canonical order.
pub open spec fn clause_rank(c: AggregateClause) -> int {
    match c {
        AggregateClause::FinalFunc => 0,
        AggregateClause::FinalFuncModify => 1,
        AggregateClause::CombineFunc => 2,
        AggregateClause::SerialFunc => 3,
        AggregateClause::DeserialFunc => 4,
        AggregateClause::InitCond => 5,
        AggregateClause::MsFunc => 6,
        AggregateClause::MinvFunc => 7,
        AggregateClause::MFinalFunc => 8,
        AggregateClause::MFinalFuncModify => 9,
        AggregateClause::MInitCond => 10,
        AggregateClause::SortOp => 11,
        AggregateClause::Parallel => 12,
        AggregateClause::Hypothetical => 13,
        AggregateClause::MsType => 14,
    }
}

/// Whether the aggregate sets the field of clause `c`.
pub open spec fn clause_present(a: PgAggregateEntity, c: AggregateClause) -> bool {
    match c {
        AggregateClause::FinalFunc => a.finalfunc is Some,
        AggregateClause::FinalFuncModify => a.finalfunc_modify is Some,
        AggregateClause::CombineFunc => a.combinefunc is Some,
        AggregateClause::SerialFunc => a.serialfunc is Some,
        AggregateClause::DeserialFunc => a.deserialfunc is Some,
        AggregateClause::InitCond => a.initcond is Some,
        AggregateClause::MsFunc => a.msfunc is Some,
        AggregateClause::MinvFunc => a.minvfunc is Some,
        AggregateClause::MFinalFunc => a.mfinalfunc is Some,
        AggregateClause::MFinalFuncModify => a.mfinalfunc_modify is Some,
        AggregateClause::MInitCond => a.minitcond is Some,
        AggregateClause::SortOp => a.sortop is Some,
        AggregateClause::Parallel => a.parallel is Some,
        AggregateClause::Hypothetical => a.hypothetical,
        AggregateClause::MsType => a.mstype is Some,
    }
}

/// The clauses among the first `k` of the canonical order that the aggregate sets, in order.
pub open spec fn present_upto(a: PgAggregateEntity, k: int) -> Seq<AggregateClause>
    decreases k,
{
    if k <= 0 {
        Seq::empty()
    } else if clause_present(a, canonical_clause(k - 1)) {
        present_upto(a, k - 1).push(canonical_clause(k - 1))
    } else {
        present_upto(a, k - 1)
    }
}

/// The optional clauses that the aggregate sets, in canonical order.
pub open spec fn present_clauses(a: PgAggregateEntity) -> Seq<AggregateClause> {
    present_upto(a, CLAUSE_COUNT as int)
}

pub open spec fn modify_sql(m: FinalizeModify) -> Seq<char> {
    match m {
        FinalizeModify::ReadOnly => "READ_ONLY"@,
        FinalizeModify::Shareable => "SHAREABLE"@,
        FinalizeModify::ReadWrite => "READ_WRITE"@,
    }
}

pub open spec fn parallel_sql(p: ParallelOption) -> Seq<char> {
    match p {
        ParallelOption::Safe => "SAFE"@,
        ParallelOption::Restricted => "RESTRICTED"@,
        ParallelOption::Unsafe => "UNSAFE"@,
    }
}

impl FinalizeModify {
    /// The SQL keyword of the mode.
    pub fn to_sql(&self) -> (r: &'static str)
        ensures
            r@ == modify_sql(*self),
    {
        match self {
            FinalizeModify::ReadOnly => "READ_ONLY",
            FinalizeModify::Shareable => "SHAREABLE",
            FinalizeModify::ReadWrite => "READ_WRITE",
        }
    }
}

impl ParallelOption {
    /// The SQL keyword of the marker.
    pub fn to_sql(&self) -> (r: &'static str)
        ensures
            r@ == parallel_sql(*self),
    {
        match self {
            ParallelOption::Safe => "SAFE",
            ParallelOption::Restricted => "RESTRICTED",
            ParallelOption::Unsafe => "UNSAFE",
        }
    }
}

/// A comment that traces a clause back to the aggregate's path.
pub open spec fn trace_comment(full_path: Seq<char>, what: Seq<char>) -> Seq<char> {
    "/* "@ + full_path + "::"@ + what + " */"@
}

/// `keyword = <schema>"<name>"`, a clause that names a function.
pub open spec fn func_clause(keyword: Seq<char>, schema: Seq<char>, name: Seq<char>) -> Seq<char> {
    keyword + schema + "\""@ + name + "\""@
}

/// The text and the trace comment of clause `c`, where `schema` is the aggregate's schema
/// prefix and `mstype` the SQL text of its moving state type.
pub open spec fn clause_text(
    a: PgAggregateEntity,
    c: AggregateClause,
    schema: Seq<char>,
    mstype: Seq<char>,
) -> (Seq<char>, Seq<char>) {
    let p = a.full_path@;
    match c {
        AggregateClause::FinalFunc => (
            func_clause("\tFINALFUNC = "@, schema, a.finalfunc->0@),
            trace_comment(p, "final"@),
        ),
        AggregateClause::FinalFuncModify => (
            "\tFINALFUNC_MODIFY = "@ + modify_sql(a.finalfunc_modify->0),
            trace_comment(p, "FINALIZE_MODIFY"@),
        ),
        AggregateClause::CombineFunc => (
            func_clause("\tCOMBINEFUNC = "@, schema, a.combinefunc->0@),
            trace_comment(p, "combine"@),
        ),
        AggregateClause::SerialFunc => (
            func_clause("\tSERIALFUNC = "@, schema, a.serialfunc->0@),
            trace_comment(p, "serial"@),
        ),
        AggregateClause::DeserialFunc => (
            func_clause("\tDESERIALFUNC = "@, schema, a.deserialfunc->0@),
            trace_comment(p, "deserial"@),
        ),
        AggregateClause::InitCond => (
            "\tINITCOND = '"@ + a.initcond->0@ + "'"@,
            trace_comment(p, "INITIAL_CONDITION"@),
        ),
        AggregateClause::MsFunc => (
            func_clause("\tMSFUNC = "@, schema, a.msfunc->0@),
            trace_comment(p, "moving_state"@),
        ),
        AggregateClause::MinvFunc => (
            func_clause("\tMINVFUNC = "@, schema, a.minvfunc->0@),
            trace_comment(p, "moving_state_inverse"@),
        ),
        AggregateClause::MFinalFunc => (
            func_clause("\tMFINALFUNC = "@, schema, a.mfinalfunc->0@),
            trace_comment(p, "moving_state_finalize"@),
        ),
        AggregateClause::MFinalFuncModify => (
            "\tMFINALFUNC_MODIFY = "@ + modify_sql(a.mfinalfunc_modify->0),
            trace_comment(p, "MOVING_FINALIZE_MODIFY"@),
        ),
        AggregateClause::MInitCond => (
            "\tMINITCOND = '"@ + a.minitcond->0@ + "'"@,
            trace_comment(p, "MOVING_INITIAL_CONDITION"@),
        ),
        AggregateClause::SortOp => (
            "\tSORTOP = \""@ + a.sortop->0@ + "\""@,
            trace_comment(p, "SORT_OPERATOR"@),
        ),
        AggregateClause::Parallel => (
            "\tPARALLEL = "@ + parallel_sql(a.parallel->0),
            trace_comment(p, "PARALLEL"@),
        ),
        AggregateClause::Hypothetical => ("\tHYPOTHETICAL"@, trace_comment(p, "hypothetical"@)),
        AggregateClause::MsType => (
            "\tMSTYPE = "@ + mstype,
            trace_comment(p, "MovingState = "@ + a.mstype->0.full_path@),
        ),
    }
}

/// The text and comment of each clause that the aggregate sets, in canonical order.
pub open spec fn clause_lines(a: PgAggregateEntity, schema: Seq<char>, mstype: Seq<char>) -> Seq<(Seq<char>, Seq<char>)> {
    present_clauses(a).map_values(|c: AggregateClause| clause_text(a, c, schema, mstype))
}

/// Line `i` of the clause section: every clause but the last ends in a comma and a newline.
pub open spec fn clause_line(lines: Seq<(Seq<char>, Seq<char>)>, i: int) -> Seq<char> {
    let last = i == lines.len() - 1;
    lines[i].0 + (if last { ""@ } else { ","@ }) + " "@ + lines[i].1 + (if last { ""@ } else { "\n"@ })
}

/// The first `k` lines of the clause section.
pub open spec fn clause_block(lines: Seq<(Seq<char>, Seq<char>)>, k: int) -> Seq<char>
    decreases k,
{
    if k <= 0 {
        Seq::empty()
    } else {
        clause_block(lines, k - 1) + clause_line(lines, k - 1)
    }
}

/// One entry of an argument list: its mode, its name, its type and a trace comment.
pub open spec fn arg_entry(arg: AggregateTypeEntity, ty: Seq<char>, last: bool) -> Seq<char> {
    "\t"@ + (if arg.used_ty.variadic { "VARIADIC "@ } else { ""@ }) + (match arg.name {
        Some(n) => "\""@ + n@ + "\" "@,
        None => ""@,
    }) + ty + (if last { " "@ } else { ", "@ }) + "/* "@ + arg.used_ty.full_path@ + " */"@
}

/// The first `k` entries of an argument list, one per line; `tys` holds their types.
pub open spec fn arg_lines(args: Seq<AggregateTypeEntity>, tys: Seq<Seq<char>>, k: int) -> Seq<char>
    decreases k,
{
    if k <= 0 {
        Seq::empty()
    } else {
        arg_lines(args, tys, k - 1) + (if k - 1 > 0 { "\n"@ } else { ""@ }) + arg_entry(
            args[k - 1],
            tys[k - 1],
            k - 1 == args.len() - 1,
        )
    }
}

/// A whole argument list, between newlines.
pub open spec fn arg_list(args: Seq<AggregateTypeEntity>, tys: Seq<Seq<char>>) -> Seq<char> {
    "\n"@ + arg_lines(args, tys, args.len() as int) + "\n"@
}

/// The schema-qualified SQL type of an argument, found through the graph node that provides it.
pub open spec fn arg_type_sql(g: SqlGraphView, entity: String, arg: AggregateTypeEntity) -> Result<Seq<char>, RenderError> {
    match type_node_from(g.entities, arg.used_ty, 0) {
        None => Err(RenderError::MissingGraphNode { entity, path: arg.used_ty.full_path }),
        Some(i) => match resolved_sql(g, arg.used_ty) {
            Ok(s) => Ok(g.prefix_of(i) + s),
            Err(e) => Err(RenderError::TypeResolution { entity, error: e }),
        },
    }
}

/// The types of the first `k` arguments, or the first failure among them.
pub open spec fn arg_types_upto(g: SqlGraphView, entity: String, args: Seq<AggregateTypeEntity>, k: int) -> Result<Seq<Seq<char>>, RenderError>
    decreases k,
{
    if k <= 0 {
        Ok(Seq::empty())
    } else {
        match arg_types_upto(g, entity, args, k - 1) {
            Err(e) => Err(e),
            Ok(tys) => match arg_type_sql(g, entity, args[k - 1]) {
                Err(e) => Err(e),
                Ok(t) => Ok(tys.push(t)),
            },
        }
    }
}

/// The types of all arguments in `args`.
pub open spec fn arg_types(g: SqlGraphView, entity: String, args: Seq<AggregateTypeEntity>) -> Result<Seq<Seq<char>>, RenderError> {
    arg_types_upto(g, entity, args, args.len() as int)
}

/// A resolved type, with a resolution failure turned into a render failure.
pub open spec fn used_type_sql(g: SqlGraphView, entity: String, u: UsedTypeEntity) -> Result<Seq<char>, RenderError> {
    match resolved_sql(g, u) {
        Ok(s) => Ok(s),
        Err(e) => Err(RenderError::TypeResolution { entity, error: e }),
    }
}

/// The statement, given the resolved state type, moving state type, argument types and
/// direct argument types.
pub open spec fn aggregate_text(
    a: PgAggregateEntity,
    target: Option<String>,
    stype: Seq<char>,
    mstype: Seq<char>,
    tys: Seq<Seq<char>>,
    direct_tys: Seq<Seq<char>>,
) -> Seq<char> {
    let schema = schema_prefix(a.schema, target);
    let lines = clause_lines(a, schema, mstype);
    let none = lines.len() == 0;
    provenance_header(a.file@, a.line, a.full_path@) + "CREATE AGGREGATE "@ + schema + a.name@ + " ("@
        + (match a.direct_args {
        Some(d) => arg_list(d@, direct_tys),
        None => ""@,
    }) + (if a.ordered_set { "\tORDER BY"@ } else { ""@ }) + arg_list(a.args@, tys)
        + ")\n(\n\tSFUNC = "@ + schema + "\""@ + a.sfunc@ + "\", /* "@ + a.full_path@
        + "::state */\n\tSTYPE = "@ + schema + stype + (if none { ""@ } else { ","@ }) + " /* "@
        + a.stype.used_ty.full_path@ + " */\n"@ + clause_block(lines, lines.len() as int) + (if none {
        ""@
    } else {
        "\n"@
    }) + ");"@
}

/// The `CREATE AGGREGATE` statement of `a`, or the first failure: the state type, then the
/// moving state type, then each argument, then each direct argument. A failure names the
/// aggregate's path beside the used type's.
pub open spec fn aggregate_sql(a: PgAggregateEntity, g: SqlGraphView) -> Result<Seq<char>, RenderError> {
    match used_type_sql(g, a.full_path, a.stype.used_ty) {
        Err(e) => Err(e),
        Ok(stype) => match (match a.mstype {
            Some(u) => used_type_sql(g, a.full_path, u),
            None => Ok(Seq::empty()),
        }) {
            Err(e) => Err(e),
            Ok(mstype) => match arg_types(g, a.full_path, a.args@) {
                Err(e) => Err(e),
                Ok(tys) => match (match a.direct_args {
                    Some(d) => arg_types(g, a.full_path, d@),
                    None => Ok(Seq::empty()),
                }) {
                    Err(e) => Err(e),
                    Ok(direct_tys) => Ok(aggregate_text(a, g.target_schema, stype, mstype, tys, direct_tys)),
                },
            },
        },
    }
}

/// The view of a list of clause texts and comments.
pub open spec fn pair_views(v: Seq<(String, String)>) -> Seq<(Seq<char>, Seq<char>)> {
    v.map_values(|p: (String, String)| (p.0@, p.1@))
}

/// The view of a result that holds a list of strings.
pub open spec fn texts_result<E>(r: Result<Vec<String>, E>) -> Result<Seq<Seq<char>>, E> {
    match r {
        Ok(v) => Ok(views(v@)),
        Err(e) => Err(e),
    }
}

fn trace_comment_text(full_path: &str, what: &str) -> (r: String)
    ensures
        r@ == trace_comment(full_path@, what@),
{
    let mut s = String::from_str("/* ");
    s.append(full_path);
    s.append("::");
    s.append(what);
    s.append(" */");
    s
}

fn func_clause_text(keyword: &str, schema: &str, name: &str) -> (r: String)
    ensures
        r@ == func_clause(keyword@, schema@, name@),
{
    let mut s = String::from_str(keyword);
    s.append(schema);
    s.append("\"");
    s.append(name);
    s.append("\"");
    s
}

fn keyword_value_text(keyword: &str, value: &str) -> (r: String)
    ensures
        r@ == keyword@ + value@,
{
    let mut s = String::from_str(keyword);
    s.append(value);
    s
}

fn quoted_clause_text(keyword: &str, value: &str, close: &str) -> (r: String)
    ensures
        r@ == keyword@ + value@ + close@,
{
    let mut s = String::from_str(keyword);
    s.append(value);
    s.append(close);
    s
}

fn clause_at(k: usize) -> (r: AggregateClause)
    requires
        k < CLAUSE_COUNT,
    ensures
        r == canonical_clause(k as int),
{
    if k == 0 {
        AggregateClause::FinalFunc
    } else if k == 1 {
        AggregateClause::FinalFuncModify
    } else if k == 2 {
        AggregateClause::CombineFunc
    } else if k == 3 {
        AggregateClause::SerialFunc
    } else if k == 4 {
        AggregateClause::DeserialFunc
    } else if k == 5 {
        AggregateClause::InitCond
    } else if k == 6 {
        AggregateClause::MsFunc
    } else if k == 7 {
        AggregateClause::MinvFunc
    } else if k == 8 {
        AggregateClause::MFinalFunc
    } else if k == 9 {
        AggregateClause::MFinalFuncModify
    } else if k == 10 {
        AggregateClause::MInitCond
    } else if k == 11 {
        AggregateClause::SortOp
    } else if k == 12 {
        AggregateClause::Parallel
    } else if k == 13 {
        AggregateClause::Hypothetical
    } else {
        AggregateClause::MsType
    }
}

fn used_type_text(g: &SqlGraph, entity: &String, u: &UsedTypeEntity) -> (r: Result<String, RenderError>)
    ensures
        text_result(r) == used_type_sql(g@, *entity, *u),
{
    match resolve(g, u) {
        Ok(s) => Ok(s),
        Err(e) => Err(RenderError::TypeResolution { entity: entity.clone(), error: e }),
    }
}

fn arg_type_text(g: &SqlGraph, entity: &String, arg: &AggregateTypeEntity) -> (r: Result<String, RenderError>)
    ensures
        text_result(r) == arg_type_sql(g@, *entity, *arg),
{
    match g.find_type_node(&arg.used_ty) {
        None => Err(
            RenderError::MissingGraphNode { entity: entity.clone(), path: arg.used_ty.full_path.clone() },
        ),
        Some(i) => match resolve(g, &arg.used_ty) {
            Ok(t) => {
                let mut s = g.schema_prefix_for(i);
                s.append(t.as_str());
                Ok(s)
            },
            Err(e) => Err(RenderError::TypeResolution { entity: entity.clone(), error: e }),
        },
    }
}

fn arg_type_texts(g: &SqlGraph, entity: &String, args: &Vec<AggregateTypeEntity>) -> (r: Result<
    Vec<String>,
    RenderError,
>)
    ensures
        texts_result(r) == arg_types(g@, *entity, args@),
        r matches Ok(v) ==> v@.len() == args@.len(),
{
    let n = args.len();
    let mut tys: Vec<String> = Vec::new();
    let mut k: usize = 0;
    assert(views(tys@) =~= Seq::<Seq<char>>::empty());
    while k < n
        invariant
            n == args@.len(),
            k <= n,
            tys@.len() == k,
            arg_types_upto(g@, *entity, args@, k as int) == Ok::<Seq<Seq<char>>, RenderError>(views(tys@)),
        decreases n - k,
    {
        match arg_type_text(g, entity, &args[k]) {
            Err(e) => {
                proof {
                    lemma_arg_types_fail(g@, *entity, args@, k as int + 1, n as int);
                }
                return Err(e);
            },
            Ok(t) => {
                proof {
                    assert(views(tys@.push(t)) =~= views(tys@).push(t@));
                }
                tys.push(t);
            },
        }
        k = k + 1;
    }
    Ok(tys)
}

/// A failure among the first `k` arguments is the failure of all of them.
proof fn lemma_arg_types_fail(g: SqlGraphView, entity: String, args: Seq<AggregateTypeEntity>, k: int, n: int)
    requires
        arg_types_upto(g, entity, args, k) is Err,
        k <= n,
    ensures
        arg_types_upto(g, entity, args, n) == arg_types_upto(g, entity, args, k),
    decreases n - k,
{
    if k < n {
        lemma_arg_types_fail(g, entity, args, k, n - 1);
    }
}

fn arg_entry_text(arg: &AggregateTypeEntity, ty: &str, last: bool) -> (r: String)
    ensures
        r@ == arg_entry(*arg, ty@, last),
{
    let mut s = String::from_str("\t");
    let mode: &str = if arg.used_ty.variadic {
        "VARIADIC "
    } else {
        ""
    };
    s.append(mode);
    let label = match &arg.name {
        Some(name) => {
            let mut q = String::from_str("\"");
            q.append(name.as_str());
            q.append("\" ");
            q
        },
        None => String::from_str(""),
    };
    s.append(label.as_str());
    s.append(ty);
    let comma: &str = if last {
        " "
    } else {
        ", "
    };
    s.append(comma);
    s.append("/* ");
    s.append(arg.used_ty.full_path.as_str());
    s.append(" */");
    s
}

fn arg_list_text(args: &Vec<AggregateTypeEntity>, tys: &Vec<String>) -> (r: String)
    requires
        tys@.len() == args@.len(),
    ensures
        r@ == arg_list(args@, views(tys@)),
{
    let n = args.len();
    let mut s = String::new();
    let mut k: usize = 0;
    while k < n
        invariant
            n == args@.len(),
            tys@.len() == n,
            k <= n,
            s@ == arg_lines(args@, views(tys@), k as int),
        decreases n - k,
    {
        let sep: &str = if k > 0 {
            "\n"
        } else {
            ""
        };
        s.append(sep);
        let e = arg_entry_text(&args[k], tys[k].as_str(), k == n - 1);
        s.append(e.as_str());
        k = k + 1;
    }
    let mut r = String::from_str("\n");
    r.append(s.as_str());
    r.append("\n");
    r
}

fn clause_block_text(lines: &Vec<(String, String)>) -> (r: String)
    ensures
        r@ == clause_block(pair_views(lines@), lines@.len() as int),
{
    let n = lines.len();
    let mut s = String::new();
    let mut k: usize = 0;
    while k < n
        invariant
            n == lines@.len(),
            k <= n,
            s@ == clause_block(pair_views(lines@), k as int),
        decreases n - k,
    {
        let last = k == n - 1;
        let comma: &str = if last {
            ""
        } else {
            ","
        };
        let newline: &str = if last {
            ""
        } else {
            "\n"
        };
        s.append(lines[k].0.as_str());
        s.append(comma);
        s.append(" ");
        s.append(lines[k].1.as_str());
        s.append(newline);
        k = k + 1;
    }
    s
}

impl PgAggregateEntity {
    /// Renders the `CREATE AGGREGATE` statement: a provenance comment, the schema-qualified
    /// name, the direct arguments, the `ORDER BY` marker of an ordered-set aggregate and the
    /// arguments, then `SFUNC`, `STYPE` and the optional clauses that are set, in canonical
    /// order. Fails on the first type that cannot be resolved.
    pub fn to_sql(&self, g: &SqlGraph) -> (r: Result<String, RenderError>)
        ensures
            text_result(r) == aggregate_sql(*self, g@),
    {
        let stype = match used_type_text(g, &self.full_path, &self.stype.used_ty) {
            Err(e) => return Err(e),
            Ok(t) => t,
        };
        let mstype = match &self.mstype {
            Some(u) => match used_type_text(g, &self.full_path, u) {
                Err(e) => return Err(e),
                Ok(t) => t,
            },
            None => String::new(),
        };
        let tys = match arg_type_texts(g, &self.full_path, &self.args) {
            Err(e) => return Err(e),
            Ok(v) => v,
        };
        let direct_tys = match &self.direct_args {
            Some(d) => match arg_type_texts(g, &self.full_path, d) {
                Err(e) => return Err(e),
                Ok(v) => v,
            },
            None => Vec::new(),
        };
        proof {
            if self.direct_args is None {
                assert(views(direct_tys@) =~= Seq::<Seq<char>>::empty());
            }
        }
        let schema = prefix_for_schema(&self.schema, g.target_schema());
        let lines = self.clause_entries(schema.as_str(), mstype.as_str());
        let none = lines.len() == 0;
        let mut s = provenance_header_text(&self.file, self.line, &self.full_path);
        s.append("CREATE AGGREGATE ");
        s.append(schema.as_str());
        s.append(self.name.as_str());
        s.append(" (");
        let direct = match &self.direct_args {
            Some(d) => arg_list_text(d, &direct_tys),
            None => String::from_str(""),
        };
        s.append(direct.as_str());
        let order_by: &str = if self.ordered_set {
            "\tORDER BY"
        } else {
            ""
        };
        s.append(order_by);
        let l = arg_list_text(&self.args, &tys);
        s.append(l.as_str());
        s.append(")\n(\n\tSFUNC = ");
        s.append(schema.as_str());
        s.append("\"");
        s.append(self.sfunc.as_str());
        s.append("\", /* ");
        s.append(self.full_path.as_str());
        s.append("::state */\n\tSTYPE = ");
        s.append(schema.as_str());
        s.append(stype.as_str());
        let comma: &str = if none {
            ""
        } else {
            ","
        };
        s.append(comma);
        s.append(" /* ");
        s.append(self.stype.used_ty.full_path.as_str());
        s.append(" */\n");
        let block = clause_block_text(&lines);
        s.append(block.as_str());
        let newline: &str = if none {
            ""
        } else {
            "\n"
        };
        s.append(newline);
        s.append(");");
        Ok(s)
    }

    /// Whether the aggregate has direct arguments but is not marked ordered-set: its statement
    /// then lists them without the `ORDER BY` marker, which is worth a warning.
    pub fn has_direct_args_without_order_by(&self) -> (r: bool)
        ensures
            r == (self.direct_args is Some && !self.ordered_set),
    {
        self.direct_args.is_some() && !self.ordered_set
    }

    /// The text and comment of clause `c`, if the aggregate sets it.
    fn clause_entry(&self, c: AggregateClause, schema: &str, mstype: &str) -> (r: Option<(String, String)>)
        ensures
            r is Some <==> clause_present(*self, c),
            r matches Some(p) ==> (p.0@, p.1@) == clause_text(*self, c, schema@, mstype@),
    {
        let p = self.full_path.as_str();
        match c {
            AggregateClause::FinalFunc => match &self.finalfunc {
                Some(v) => Some(
                    (func_clause_text("\tFINALFUNC = ", schema, v.as_str()), trace_comment_text(p, "final")),
                ),
                None => None,
            },
            AggregateClause::FinalFuncModify => match &self.finalfunc_modify {
                Some(v) => Some(
                    (
                        keyword_value_text("\tFINALFUNC_MODIFY = ", v.to_sql()),
                        trace_comment_text(p, "FINALIZE_MODIFY"),
                    ),
                ),
                None => None,
            },
            AggregateClause::CombineFunc => match &self.combinefunc {
                Some(v) => Some(
                    (func_clause_text("\tCOMBINEFUNC = ", schema, v.as_str()), trace_comment_text(p, "combine")),
                ),
                None => None,
            },
            AggregateClause::SerialFunc => match &self.serialfunc {
                Some(v) => Some(
                    (func_clause_text("\tSERIALFUNC = ", schema, v.as_str()), trace_comment_text(p, "serial")),
                ),
                None => None,
            },
            AggregateClause::DeserialFunc => match &self.deserialfunc {
                Some(v) => Some(
                    (func_clause_text("\tDESERIALFUNC = ", schema, v.as_str()), trace_comment_text(p, "deserial")),
                ),
                None => None,
            },
            AggregateClause::InitCond => match &self.initcond {
                Some(v) => Some(
                    (
                        quoted_clause_text("\tINITCOND = '", v.as_str(), "'"),
                        trace_comment_text(p, "INITIAL_CONDITION"),
                    ),
                ),
                None => None,
            },
            AggregateClause::MsFunc => match &self.msfunc {
                Some(v) => Some(
                    (func_clause_text("\tMSFUNC = ", schema, v.as_str()), trace_comment_text(p, "moving_state")),
                ),
                None => None,
            },
            AggregateClause::MinvFunc => match &self.minvfunc {
                Some(v) => Some(
                    (
                        func_clause_text("\tMINVFUNC = ", schema, v.as_str()),
                        trace_comment_text(p, "moving_state_inverse"),
                    ),
                ),
                None => None,
            },
            AggregateClause::MFinalFunc => match &self.mfinalfunc {
                Some(v) => Some(
                    (
                        func_clause_text("\tMFINALFUNC = ", schema, v.as_str()),
                        trace_comment_text(p, "moving_state_finalize"),
                    ),
                ),
                None => None,
            },
            AggregateClause::MFinalFuncModify => match &self.mfinalfunc_modify {
                Some(v) => Some(
                    (
                        keyword_value_text("\tMFINALFUNC_MODIFY = ", v.to_sql()),
                        trace_comment_text(p, "MOVING_FINALIZE_MODIFY"),
                    ),
                ),
                None => None,
            },
            AggregateClause::MInitCond => match &self.minitcond {
                Some(v) => Some(
                    (
                        quoted_clause_text("\tMINITCOND = '", v.as_str(), "'"),
                        trace_comment_text(p, "MOVING_INITIAL_CONDITION"),
                    ),
                ),
                None => None,
            },
            AggregateClause::SortOp => match &self.sortop {
                Some(v) => Some(
                    (
                        quoted_clause_text("\tSORTOP = \"", v.as_str(), "\""),
                        trace_comment_text(p, "SORT_OPERATOR"),
                    ),
                ),
                None => None,
            },
            AggregateClause::Parallel => match &self.parallel {
                Some(v) => Some(
                    (
                        keyword_value_text("\tPARALLEL = ", v.to_sql()),
                        trace_comment_text(p, "PARALLEL"),
                    ),
                ),
                None => None,
            },
            AggregateClause::Hypothetical => if self.hypothetical {
                Some((String::from_str("\tHYPOTHETICAL"), trace_comment_text(p, "hypothetical")))
            } else {
                None
            },
            AggregateClause::MsType => match &self.mstype {
                Some(u) => {
                    let mut what = String::from_str("MovingState = ");
                    what.append(u.full_path.as_str());
                    Some(
                        (
                            keyword_value_text("\tMSTYPE = ", mstype),
                            trace_comment_text(p, what.as_str()),
                        ),
                    )
                },
                None => None,
            },
        }
    }

    /// The text and comment of each clause that the aggregate sets, in canonical order.
    fn clause_entries(&self, schema: &str, mstype: &str) -> (r: Vec<(String, String)>)
        ensures
            pair_views(r@) == clause_lines(*self, schema@, mstype@),
    {
        let mut v: Vec<(String, String)> = Vec::new();
        let mut k: usize = 0;
        while k < CLAUSE_COUNT
            invariant
                k <= CLAUSE_COUNT,
                pair_views(v@) == present_upto(*self, k as int).map_values(
                    |c: AggregateClause| clause_text(*self, c, schema@, mstype@),
                ),
            decreases CLAUSE_COUNT - k,
        {
            let c = clause_at(k);
            match self.clause_entry(c, schema, mstype) {
                Some(e) => {
                    proof {
                        assert(pair_views(v@.push(e)) =~= pair_views(v@).push((e.0@, e.1@)));
                        assert(present_upto(*self, k as int + 1).map_values(
                            |c: AggregateClause| clause_text(*self, c, schema@, mstype@),
                        ) =~= present_upto(*self, k as int).map_values(
                            |c: AggregateClause| clause_text(*self, c, schema@, mstype@),
                        ).push(clause_text(*self, c, schema@, mstype@)));
                    }
                    v.push(e);
                },
                None => {},
            }
            k = k + 1;
        }
        v
    }
}

/// The aggregate sets none of its optional clauses.
pub open spec fn no_optional_clauses(a: PgAggregateEntity) -> bool {
    &&& a.finalfunc is None
    &&& a.finalfunc_modify is None
    &&& a.combinefunc is None
    &&& a.serialfunc is None
    &&& a.deserialfunc is None
    &&& a.initcond is None
    &&& a.msfunc is None
    &&& a.minvfunc is None
    &&& a.mfinalfunc is None
    &&& a.mfinalfunc_modify is None
    &&& a.minitcond is None
    &&& a.sortop is None
    &&& a.parallel is None
    &&& !a.hypothetical
    &&& a.mstype is None
}

/// An aggregate without optional clauses has `SFUNC` and then `STYPE` as its only clauses,
/// with no comma after `STYPE`: the statement closes right after the state type's comment.
pub proof fn lemma_no_optional_clauses(
    a: PgAggregateEntity,
    target: Option<String>,
    stype: Seq<char>,
    mstype: Seq<char>,
    tys: Seq<Seq<char>>,
    direct_tys: Seq<Seq<char>>,
)
    requires
        no_optional_clauses(a),
    ensures
        ({
            let schema = schema_prefix(a.schema, target);
            aggregate_text(a, target, stype, mstype, tys, direct_tys) == provenance_header(
                a.file@,
                a.line,
                a.full_path@,
            ) + "CREATE AGGREGATE "@ + schema + a.name@ + " ("@ + (match a.direct_args {
                Some(d) => arg_list(d@, direct_tys),
                None => ""@,
            }) + (if a.ordered_set { "\tORDER BY"@ } else { ""@ }) + arg_list(a.args@, tys)
                + ")\n(\n\tSFUNC = "@ + schema + "\""@ + a.sfunc@ + "\", /* "@ + a.full_path@
                + "::state */\n\tSTYPE = "@ + schema + stype + " /* "@ + a.stype.used_ty.full_path@
                + " */\n"@ + ");"@
        }),
{
    reveal_with_fuel(present_upto, 16);
    reveal_strlit("");
    let schema = schema_prefix(a.schema, target);
    assert(present_clauses(a) =~= Seq::<AggregateClause>::empty());
    let lines = clause_lines(a, schema, mstype);
    assert(lines.len() == 0);
    assert(clause_block(lines, 0) == Seq::<char>::empty());
    let head = provenance_header(a.file@, a.line, a.full_path@) + "CREATE AGGREGATE "@ + schema
        + a.name@ + " ("@ + (match a.direct_args {
        Some(d) => arg_list(d@, direct_tys),
        None => ""@,
    }) + (if a.ordered_set { "\tORDER BY"@ } else { ""@ }) + arg_list(a.args@, tys)
        + ")\n(\n\tSFUNC = "@ + schema + "\""@ + a.sfunc@ + "\", /* "@ + a.full_path@
        + "::state */\n\tSTYPE = "@ + schema + stype;
    assert(head + ""@ =~= head);
    let tail = head + " /* "@ + a.stype.used_ty.full_path@ + " */\n"@;
    assert(tail + Seq::<char>::empty() =~= tail);
    assert(tail + ""@ =~= tail);
}

/// The statement of a one-argument aggregate without optional clauses, written out: the
/// argument and state type each on their own line with their trace comments.
pub proof fn lemma_minimal_aggregate_text(a: PgAggregateEntity, target: Option<String>)
    requires
        no_optional_clauses(a),
        a.name@ == "sum_state"@,
        a.full_path@ == "ext::sum_state"@,
        a.file@ == "src/lib.rs"@,
        a.line == 10,
        a.schema is None,
        !a.ordered_set,
        a.direct_args is None,
        a.args@.len() == 1,
        a.args@[0].name is None,
        !a.args@[0].used_ty.variadic,
        a.args@[0].used_ty.full_path@ == "i32"@,
        a.stype.used_ty.full_path@ == "i64"@,
        a.sfunc@ == "sum_sfunc"@,
    ensures
        aggregate_text(a, target, "int8"@, Seq::empty(), seq!["int4"@], Seq::empty())
            == "\n-- src/lib.rs:10\n-- ext::sum_state\nCREATE AGGREGATE sum_state (\n\tint4 /* i32 */\n)\n(\n\tSFUNC = \"sum_sfunc\", /* ext::sum_state::state */\n\tSTYPE = int8 /* i64 */\n);"@,
{
    lemma_no_optional_clauses(a, target, "int8"@, Seq::empty(), seq!["int4"@], Seq::empty());
    assert(decimal(10) =~= seq!['1', '0']) by {
        reveal_with_fuel(decimal, 2);
    }
    reveal_with_fuel(arg_lines, 2);
    reveal_strlit("\n-- ");
    reveal_strlit(":");
    reveal_strlit("\n");
    reveal_strlit("CREATE AGGREGATE ");
    reveal_strlit(" (");
    reveal_strlit("");
    reveal_strlit("\t");
    reveal_strlit(" ");
    reveal_strlit("/* ");
    reveal_strlit(" */");
    reveal_strlit(")\n(\n\tSFUNC = ");
    reveal_strlit("\"");
    reveal_strlit("\", /* ");
    reveal_strlit("::state */\n\tSTYPE = ");
    reveal_strlit(" /* ");
    reveal_strlit(" */\n");
    reveal_strlit(");");
    reveal_strlit("sum_state");
    reveal_strlit("ext::sum_state");
    reveal_strlit("src/lib.rs");
    reveal_strlit("i32");
    reveal_strlit("i64");
    reveal_strlit("int4");
    reveal_strlit("int8");
    reveal_strlit("sum_sfunc");
    reveal_strlit(
        "\n-- src/lib.rs:10\n-- ext::sum_state\nCREATE AGGREGATE sum_state (\n\tint4 /* i32 */\n)\n(\n\tSFUNC = \"sum_sfunc\", /* ext::sum_state::state */\n\tSTYPE = int8 /* i64 */\n);",
    );
    assert(schema_prefix(a.schema, target) =~= Seq::<char>::empty());
    reveal_strlit("\n\tint4 /* i32 */\n");
    reveal_strlit("\tint4 /* i32 */");
    let tys = seq!["int4"@];
    assert(arg_entry(a.args@[0], tys[0], true) =~= "\tint4 /* i32 */"@);
    assert(arg_lines(a.args@, tys, 0) =~= Seq::<char>::empty());
    assert(arg_lines(a.args@, tys, 1) =~= "\tint4 /* i32 */"@);
    assert(arg_list(a.args@, tys) =~= "\n\tint4 /* i32 */\n"@);
    assert(aggregate_text(a, target, "int8"@, Seq::empty(), seq!["int4"@], Seq::empty())
        =~= "\n-- src/lib.rs:10\n-- ext::sum_state\nCREATE AGGREGATE sum_state (\n\tint4 /* i32 */\n)\n(\n\tSFUNC = \"sum_sfunc\", /* ext::sum_state::state */\n\tSTYPE = int8 /* i64 */\n);"@);
}

/// The one-argument aggregate without optional clauses, rendered through a graph in which its
/// argument's type node has no schema prefix: the whole statement, written out.
pub proof fn lemma_minimal_aggregate_sql(a: PgAggregateEntity, g: SqlGraphView, node: int)
    requires
        no_optional_clauses(a),
        a.name@ == "sum_state"@,
        a.full_path@ == "ext::sum_state"@,
        a.file@ == "src/lib.rs"@,
        a.line == 10,
        a.schema is None,
        !a.ordered_set,
        a.direct_args is None,
        a.args@.len() == 1,
        a.args@[0].name is None,
        !a.args@[0].used_ty.variadic,
        a.args@[0].used_ty.full_path@ == "i32"@,
        a.args@[0].used_ty.metadata.argument_sql matches Ok(SqlMapping::As(t)) && t@ == "int4"@,
        type_node_from(g.entities, a.args@[0].used_ty, 0) == Some(node),
        g.prefix_of(node) == Seq::<char>::empty(),
        a.stype.used_ty.full_path@ == "i64"@,
        a.stype.used_ty.metadata.argument_sql matches Ok(SqlMapping::As(t)) && t@ == "int8"@,
        a.sfunc@ == "sum_sfunc"@,
    ensures
        aggregate_sql(a, g) == Ok::<Seq<char>, RenderError>(
            "\n-- src/lib.rs:10\n-- ext::sum_state\nCREATE AGGREGATE sum_state (\n\tint4 /* i32 */\n)\n(\n\tSFUNC = \"sum_sfunc\", /* ext::sum_state::state */\n\tSTYPE = int8 /* i64 */\n);"@,
        ),
{
    let tys = seq!["int4"@];
    assert(Seq::<Seq<char>>::empty().push("int4"@) =~= tys);
    assert(Seq::<char>::empty() + "int4"@ =~= "int4"@);
    assert(arg_types(g, a.full_path, a.args@) == Ok::<Seq<Seq<char>>, RenderError>(tys)) by {
        reveal_with_fuel(arg_types_upto, 2);
    }
    lemma_minimal_aggregate_text(a, g.target_schema);
}

/// The one-argument aggregate with a combine function and a parallel marker as its only
/// optional clauses, written out: two clause lines, `COMBINEFUNC` before `PARALLEL`, each with
/// its comment, the last without a comma.
pub proof fn lemma_combine_parallel_aggregate_text(a: PgAggregateEntity, target: Option<String>)
    requires
        a.finalfunc is None,
        a.finalfunc_modify is None,
        a.combinefunc matches Some(c) && c@ == "sum_combine"@,
        a.serialfunc is None,
        a.deserialfunc is None,
        a.initcond is None,
        a.msfunc is None,
        a.minvfunc is None,
        a.mfinalfunc is None,
        a.mfinalfunc_modify is None,
        a.minitcond is None,
        a.sortop is None,
        a.parallel == Some(ParallelOption::Safe),
        !a.hypothetical,
        a.mstype is None,
        a.name@ == "sum_state"@,
        a.full_path@ == "ext::sum_state"@,
        a.file@ == "src/lib.rs"@,
        a.line == 10,
        a.schema is None,
        !a.ordered_set,
        a.direct_args is None,
        a.args@.len() == 1,
        a.args@[0].name is None,
        !a.args@[0].used_ty.variadic,
        a.args@[0].used_ty.full_path@ == "i32"@,
        a.stype.used_ty.full_path@ == "i64"@,
        a.sfunc@ == "sum_sfunc"@,
    ensures
        aggregate_text(a, target, "int8"@, Seq::empty(), seq!["int4"@], Seq::empty())
            == "\n-- src/lib.rs:10\n-- ext::sum_state\nCREATE AGGREGATE sum_state (\n\tint4 /* i32 */\n)\n(\n\tSFUNC = \"sum_sfunc\", /* ext::sum_state::state */\n\tSTYPE = int8, /* i64 */\n\tCOMBINEFUNC = \"sum_combine\", /* ext::sum_state::combine */\n\tPARALLEL = SAFE /* ext::sum_state::PARALLEL */\n);"@,
{
    reveal_with_fuel(present_upto, 16);
    reveal_with_fuel(clause_block, 3);
    reveal_with_fuel(arg_lines, 2);
    assert(decimal(10) =~= seq!['1', '0']) by {
        reveal_with_fuel(decimal, 2);
    }
    let schema = schema_prefix(a.schema, target);
    assert(schema =~= Seq::<char>::empty());
    assert(present_clauses(a) =~= seq![AggregateClause::CombineFunc, AggregateClause::Parallel]);
    let lines = clause_lines(a, schema, Seq::empty());
    assert(lines.len() == 2);
    reveal_strlit("\n-- ");
    reveal_strlit(":");
    reveal_strlit("\n");
    reveal_strlit("CREATE AGGREGATE ");
    reveal_strlit(" (");
    reveal_strlit("");
    reveal_strlit(",");
    reveal_strlit("\t");
    reveal_strlit(" ");
    reveal_strlit("/* ");
    reveal_strlit(" */");
    reveal_strlit("::");
    reveal_strlit(")\n(\n\tSFUNC = ");
    reveal_strlit("\"");
    reveal_strlit("\", /* ");
    reveal_strlit("::state */\n\tSTYPE = ");
    reveal_strlit(" /* ");
    reveal_strlit(" */\n");
    reveal_strlit(");");
    reveal_strlit("\tCOMBINEFUNC = ");
    reveal_strlit("combine");
    reveal_strlit("\tPARALLEL = ");
    reveal_strlit("SAFE");
    reveal_strlit("PARALLEL");
    reveal_strlit("sum_state");
    reveal_strlit("ext::sum_state");
    reveal_strlit("src/lib.rs");
    reveal_strlit("i32");
    reveal_strlit("i64");
    reveal_strlit("int4");
    reveal_strlit("int8");
    reveal_strlit("sum_sfunc");
    reveal_strlit("sum_combine");
    reveal_strlit("\n\tint4 /* i32 */\n");
    reveal_strlit("\tint4 /* i32 */");
    reveal_strlit("\tCOMBINEFUNC = \"sum_combine\", /* ext::sum_state::combine */\n");
    reveal_strlit("\tPARALLEL = SAFE /* ext::sum_state::PARALLEL */");
    reveal_strlit(
        "\n-- src/lib.rs:10\n-- ext::sum_state\nCREATE AGGREGATE sum_state (\n\tint4 /* i32 */\n)\n(\n\tSFUNC = \"sum_sfunc\", /* ext::sum_state::state */\n\tSTYPE = int8, /* i64 */\n\tCOMBINEFUNC = \"sum_combine\", /* ext::sum_state::combine */\n\tPARALLEL = SAFE /* ext::sum_state::PARALLEL */\n);",
    );
    let tys = seq!["int4"@];
    assert(arg_entry(a.args@[0], tys[0], true) =~= "\tint4 /* i32 */"@);
    assert(arg_lines(a.args@, tys, 0) =~= Seq::<char>::empty());
    assert(arg_lines(a.args@, tys, 1) =~= "\tint4 /* i32 */"@);
    assert(arg_list(a.args@, tys) =~= "\n\tint4 /* i32 */\n"@);
    assert(clause_line(lines, 0) =~= "\tCOMBINEFUNC = \"sum_combine\", /* ext::sum_state::combine */\n"@);
    assert(clause_line(lines, 1) =~= "\tPARALLEL = SAFE /* ext::sum_state::PARALLEL */"@);
    assert(clause_block(lines, 0) =~= Seq::<char>::empty());
    assert(aggregate_text(a, target, "int8"@, Seq::empty(), tys, Seq::empty())
        =~= "\n-- src/lib.rs:10\n-- ext::sum_state\nCREATE AGGREGATE sum_state (\n\tint4 /* i32 */\n)\n(\n\tSFUNC = \"sum_sfunc\", /* ext::sum_state::state */\n\tSTYPE = int8, /* i64 */\n\tCOMBINEFUNC = \"sum_combine\", /* ext::sum_state::combine */\n\tPARALLEL = SAFE /* ext::sum_state::PARALLEL */\n);"@);
}

proof fn lemma_rank_of_canonical(k: int)
    requires
        0 <= k < CLAUSE_COUNT,
    ensures
        clause_rank(canonical_clause(k)) == k,
{
}

proof fn lemma_canonical_of_rank(c: AggregateClause)
    ensures
        0 <= clause_rank(c) < CLAUSE_COUNT,
        canonical_clause(clause_rank(c)) == c,
{
}

proof fn lemma_present_upto(a: PgAggregateEntity, k: int)
    requires
        0 <= k <= CLAUSE_COUNT,
    ensures
        forall|i: int| 0 <= i < present_upto(a, k).len() ==> clause_rank(#[trigger] present_upto(a, k)[i]) < k,
        forall|i: int, j: int|
            0 <= i < j < present_upto(a, k).len() ==> clause_rank(#[trigger] present_upto(a, k)[i])
                < clause_rank(#[trigger] present_upto(a, k)[j]),
        forall|c: AggregateClause|
            #[trigger] present_upto(a, k).contains(c) <==> (clause_rank(c) < k && clause_present(a, c)),
    decreases k,
{
    if k > 0 {
        lemma_present_upto(a, k - 1);
        lemma_rank_of_canonical(k - 1);
        let prev = present_upto(a, k - 1);
        let cur = present_upto(a, k);
        assert forall|c: AggregateClause| #[trigger] cur.contains(c) <==> (clause_rank(c) < k && clause_present(a, c)) by {
            lemma_canonical_of_rank(c);
            if clause_present(a, canonical_clause(k - 1)) {
                if cur.contains(c) {
                    let i = choose|i: int| 0 <= i < cur.len() && cur[i] == c;
                    if i < prev.len() {
                        assert(prev.contains(c));
                    }
                }
                if clause_rank(c) < k && clause_present(a, c) {
                    if clause_rank(c) == k - 1 {
                        assert(cur[cur.len() - 1] == c);
                    } else {
                        assert(prev.contains(c));
                        let i = choose|i: int| 0 <= i < prev.len() && prev[i] == c;
                        assert(cur[i] == c);
                    }
                }
            } else {
                if clause_rank(c) == k - 1 && clause_present(a, c) {
                    assert(!prev.contains(c));
                }
            }
        }
    }
}

/// Whatever optional clauses an aggregate sets, its statement lists exactly those clauses,
/// each once, in canonical order: line `i` of the clause section belongs to the `i`-th set
/// clause, and the set clauses have strictly increasing canonical positions.
pub proof fn lemma_clause_order(a: PgAggregateEntity, schema: Seq<char>, mstype: Seq<char>)
    ensures
        forall|i: int, j: int|
            0 <= i < j < present_clauses(a).len() ==> clause_rank(#[trigger] present_clauses(a)[i])
                < clause_rank(#[trigger] present_clauses(a)[j]),
        forall|c: AggregateClause| #[trigger] present_clauses(a).contains(c) <==> clause_present(a, c),
        clause_lines(a, schema, mstype).len() == present_clauses(a).len(),
        forall|i: int|
            0 <= i < present_clauses(a).len() ==> #[trigger] clause_lines(a, schema, mstype)[i]
                == clause_text(a, present_clauses(a)[i], schema, mstype),
{
    lemma_present_upto(a, CLAUSE_COUNT as int);
    assert forall|c: AggregateClause| #[trigger] present_clauses(a).contains(c) <==> clause_present(a, c) by {
        lemma_canonical_of_rank(c);
    }
}


impl PgAggregateEntity {
    /// The label of the entity in a rendering of the graph: `aggregate <path>`.
    pub fn dot_identifier(&self) -> (r: String)
        ensures
            r@ == "aggregate "@ + self.full_path@,
    {
        let mut s = String::from_str("aggregate ");
        s.append(self.full_path.as_str());
        s
    }

    /// The fully qualified path of the entity.
    pub fn rust_identifier(&self) -> (r: String)
        ensures
            r@ == self.full_path@,
    {
        self.full_path.clone()
    }

    /// The source file the entity was declared in.
    pub fn file(&self) -> (r: Option<&str>)
        ensures
            r matches Some(f) && f@ == self.file@,
    {
        Some(self.file.as_str())
    }

    /// The line the entity was declared on.
    pub fn line(&self) -> (r: Option<u32>)
        ensures
            r == Some(self.line),
    {
        Some(self.line)
    }
}

} // verus!
