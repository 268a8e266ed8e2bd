//! The entity graph: the arena of schema entities, built once and read by the renderers.
use vstd::prelude::*;

use crate::aggregate::{AggregateTypeEntity, PgAggregateEntity};
use crate::hash::PostgresHashEntity;
use crate::metadata::UsedTypeEntity;
use crate::ord::PostgresOrdEntity;
use crate::pg_type::{PgEnumEntity, PgTypeEntity};

verus! {

/// One schema object to be emitted.
pub enum SqlGraphEntity {
    Type(PgTypeEntity),
    Enum(PgEnumEntity),
    /// A type that the database already knows, named by its full path.
    BuiltinType(String),
    Aggregate(PgAggregateEntity),
    Hash(PostgresHashEntity),
    Ord(PostgresOrdEntity),
}

/// Why a set of entities could not become a graph.
#[derive(Debug, PartialEq, Eq)]
pub enum GraphError {
    /// Two entities share both identity key and fully qualified path; the second one's path
    /// and declaration site.
    DuplicateEntity { path: String, file: Option<String>, line: Option<u32> },
}

/// The declaration site of an entity; a builtin type has none.
pub open spec fn decl_site(e: SqlGraphEntity) -> (Option<String>, Option<u32>) {
    match e {
        SqlGraphEntity::Type(t) => (Some(t.file), Some(t.line)),
        SqlGraphEntity::Enum(t) => (Some(t.file), Some(t.line)),
        SqlGraphEntity::BuiltinType(_) => (None, None),
        SqlGraphEntity::Aggregate(a) => (Some(a.file), Some(a.line)),
        SqlGraphEntity::Hash(h) => (Some(h.file), Some(h.line)),
        SqlGraphEntity::Ord(o) => (Some(o.file), Some(o.line)),
    }
}

/// The declaration site of an entity.
pub fn decl_site_of(e: &SqlGraphEntity) -> (r: (Option<String>, Option<u32>))
    ensures
        r == decl_site(*e),
{
    match e {
        SqlGraphEntity::Type(t) => (Some(t.file.clone()), Some(t.line)),
        SqlGraphEntity::Enum(t) => (Some(t.file.clone()), Some(t.line)),
        SqlGraphEntity::BuiltinType(_) => (None, None),
        SqlGraphEntity::Aggregate(a) => (Some(a.file.clone()), Some(a.line)),
        SqlGraphEntity::Hash(h) => (Some(h.file.clone()), Some(h.line)),
        SqlGraphEntity::Ord(o) => (Some(o.file.clone()), Some(o.line)),
    }
}

/// The identity key of an entity; a builtin type has none.
pub open spec fn identity_key(e: SqlGraphEntity) -> Option<u64> {
    match e {
        SqlGraphEntity::Type(t) => Some(t.id),
        SqlGraphEntity::Enum(t) => Some(t.id),
        SqlGraphEntity::BuiltinType(_) => None,
        SqlGraphEntity::Aggregate(a) => Some(a.ty_id),
        SqlGraphEntity::Hash(h) => Some(h.id),
        SqlGraphEntity::Ord(o) => Some(o.id),
    }
}

/// The fully qualified path of an entity.
pub open spec fn entity_path_string(e: SqlGraphEntity) -> String {
    match e {
        SqlGraphEntity::Type(t) => t.full_path,
        SqlGraphEntity::Enum(t) => t.full_path,
        SqlGraphEntity::BuiltinType(p) => p,
        SqlGraphEntity::Aggregate(a) => a.full_path,
        SqlGraphEntity::Hash(h) => h.full_path,
        SqlGraphEntity::Ord(o) => o.full_path,
    }
}

/// The characters of the fully qualified path of an entity.
pub open spec fn entity_path(e: SqlGraphEntity) -> Seq<char> {
    entity_path_string(e)@
}

/// The schema that owns an entity; `None` is the implicit default schema.
pub open spec fn owning_schema(e: SqlGraphEntity) -> Option<String> {
    match e {
        SqlGraphEntity::Type(t) => t.schema,
        SqlGraphEntity::Enum(t) => t.schema,
        SqlGraphEntity::BuiltinType(_) => None,
        SqlGraphEntity::Aggregate(a) => a.schema,
        SqlGraphEntity::Hash(_) => None,
        SqlGraphEntity::Ord(_) => None,
    }
}

pub open spec fn same_identity(a: SqlGraphEntity, b: SqlGraphEntity) -> bool {
    identity_key(a) == identity_key(b) && entity_path(a) == entity_path(b)
}

/// Entity `j` repeats the identity of an entity before it.
pub open spec fn duplicates_earlier(s: Seq<SqlGraphEntity>, j: int) -> bool {
    exists|i: int| 0 <= i < j && same_identity(#[trigger] s[i], s[j])
}

/// The first entity at or after `j` that repeats an earlier one.
pub open spec fn first_duplicate_from(s: Seq<SqlGraphEntity>, j: int) -> Option<int>
    decreases s.len() - j,
{
    if j < 0 || j >= s.len() {
        None
    } else if duplicates_earlier(s, j) {
        Some(j)
    } else {
        first_duplicate_from(s, j + 1)
    }
}

/// The node can stand for the SQL type that `u` refers to.
pub open spec fn provides_type(e: SqlGraphEntity, u: UsedTypeEntity) -> bool {
    match e {
        SqlGraphEntity::Type(t) => t.id == u.ty_id,
        SqlGraphEntity::Enum(t) => t.id == u.ty_id,
        SqlGraphEntity::BuiltinType(p) => p@ == u.full_path@,
        _ => false,
    }
}

/// The first node at or after `i` that provides the type of `u`.
pub open spec fn type_node_from(s: Seq<SqlGraphEntity>, u: UsedTypeEntity, i: int) -> Option<int>
    decreases s.len() - i,
{
    if i < 0 || i >= s.len() {
        None
    } else if provides_type(s[i], u) {
        Some(i)
    } else {
        type_node_from(s, u, i + 1)
    }
}

/// The node is a registered type with identity key `id`.
pub open spec fn is_type_with_id(e: SqlGraphEntity, id: u64) -> bool {
    e matches SqlGraphEntity::Type(t) && t.id == id
}

/// The first registered type at or after `i` with identity key `id`.
pub open spec fn composite_from(s: Seq<SqlGraphEntity>, id: u64, i: int) -> Option<int>
    decreases s.len() - i,
{
    if i < 0 || i >= s.len() {
        None
    } else if is_type_with_id(s[i], id) {
        Some(i)
    } else {
        composite_from(s, id, i + 1)
    }
}

/// The SQL name of a registered type node.
pub open spec fn type_node_name(e: SqlGraphEntity) -> Seq<char> {
    match e {
        SqlGraphEntity::Type(t) => t.name@,
        _ => Seq::empty(),
    }
}

/// The first entry at or after `i` of the source-only table whose key is `key`.
pub open spec fn source_from(t: Seq<(String, String)>, key: Seq<char>, i: int) -> Option<int>
    decreases t.len() - i,
{
    if i < 0 || i >= t.len() {
        None
    } else if t[i].0@ == key {
        Some(i)
    } else {
        source_from(t, key, i + 1)
    }
}

/// The qualification of an identifier owned by `schema`, seen from `target`.
pub open spec fn schema_prefix(schema: Option<String>, target: Option<String>) -> Seq<char> {
    match schema {
        None => Seq::empty(),
        Some(s) => if target is Some && target->0@ == s@ {
            Seq::empty()
        } else {
            s@.push('.')
        },
    }
}

/// What a frozen graph holds.
pub ghost struct SqlGraphView {
    pub entities: Seq<SqlGraphEntity>,
    pub target_schema: Option<String>,
    pub source_only: Seq<(String, String)>,
}

impl SqlGraphView {
    /// No two entities share both identity key and path.
    pub open spec fn wf(self) -> bool {
        first_duplicate_from(self.entities, 0) is None
    }

    /// The schema prefix of node `i`, relative to the target schema.
    pub open spec fn prefix_of(self, i: int) -> Seq<char> {
        schema_prefix(owning_schema(self.entities[i]), self.target_schema)
    }
}

/// The frozen graph of entities, together with the target schema and the source-only mapping
/// table (declaration signature to SQL type name) that type resolution consults.
pub struct SqlGraph {
    entities: Vec<SqlGraphEntity>,
    target_schema: Option<String>,
    source_only: Vec<(String, String)>,
}

impl View for SqlGraph {
    type V = SqlGraphView;

    closed spec fn view(&self) -> SqlGraphView {
        SqlGraphView {
            entities: self.entities@,
            target_schema: self.target_schema,
            source_only: self.source_only@,
        }
    }
}

fn identity_key_of(e: &SqlGraphEntity) -> (r: Option<u64>)
    ensures
        r == identity_key(*e),
{
    match e {
        SqlGraphEntity::Type(t) => Some(t.id),
        SqlGraphEntity::Enum(t) => Some(t.id),
        SqlGraphEntity::BuiltinType(_) => None,
        SqlGraphEntity::Aggregate(a) => Some(a.ty_id),
        SqlGraphEntity::Hash(h) => Some(h.id),
        SqlGraphEntity::Ord(o) => Some(o.id),
    }
}

/// The fully qualified path of an entity.
pub fn path_of(e: &SqlGraphEntity) -> (r: &String)
    ensures
        *r == entity_path_string(*e),
{
    match e {
        SqlGraphEntity::Type(t) => &t.full_path,
        SqlGraphEntity::Enum(t) => &t.full_path,
        SqlGraphEntity::BuiltinType(p) => p,
        SqlGraphEntity::Aggregate(a) => &a.full_path,
        SqlGraphEntity::Hash(h) => &h.full_path,
        SqlGraphEntity::Ord(o) => &o.full_path,
    }
}

fn schema_of(e: &SqlGraphEntity) -> (r: &Option<String>)
    ensures
        *r == owning_schema(*e),
{
    match e {
        SqlGraphEntity::Type(t) => &t.schema,
        SqlGraphEntity::Enum(t) => &t.schema,
        SqlGraphEntity::BuiltinType(_) => &None,
        SqlGraphEntity::Aggregate(a) => &a.schema,
        SqlGraphEntity::Hash(_) => &None,
        SqlGraphEntity::Ord(_) => &None,
    }
}

fn has_same_identity(a: &SqlGraphEntity, b: &SqlGraphEntity) -> (r: bool)
    ensures
        r == same_identity(*a, *b),
{
    let ka = identity_key_of(a);
    let kb = identity_key_of(b);
    let same_key = match (ka, kb) {
        (None, None) => true,
        (Some(x), Some(y)) => x == y,
        _ => false,
    };
    same_key && *path_of(a) == *path_of(b)
}

/// The schema prefix of an identifier owned by `schema`: empty when `schema` is the implicit
/// default or the target itself, else the schema's name followed by a dot.
pub fn prefix_for_schema(schema: &Option<String>, target: &Option<String>) -> (r: String)
    ensures
        r@ == schema_prefix(*schema, *target),
{
    match schema {
        None => String::new(),
        Some(s) => {
            let same = match target {
                Some(t) => *t == *s,
                None => false,
            };
            if same {
                String::new()
            } else {
                let mut p = s.clone();
                p.append(".");
                proof {
                    reveal_strlit(".");
                    assert(p@ =~= s@.push('.'));
                }
                p
            }
        },
    }
}

impl SqlGraph {
    /// Builds the graph from entity records, refusing the first entity that repeats the
    /// identity key and path of an earlier one.
    pub fn build(
        entities: Vec<SqlGraphEntity>,
        target_schema: Option<String>,
        source_only: Vec<(String, String)>,
    ) -> (r: Result<SqlGraph, GraphError>)
        ensures
            match r {
                Ok(g) => {
                    &&& first_duplicate_from(entities@, 0) is None
                    &&& g@.entities == entities@
                    &&& g@.target_schema == target_schema
                    &&& g@.source_only == source_only@
                },
                Err(GraphError::DuplicateEntity { path, file, line }) => {
                    &&& first_duplicate_from(entities@, 0) is Some
                    &&& path@ == entity_path(entities@[first_duplicate_from(entities@, 0)->0])
                    &&& (file, line) == decl_site(entities@[first_duplicate_from(entities@, 0)->0])
                },
            },
    {
        let n = entities.len();
        let mut j: usize = 0;
        while j < n
            invariant
                n == entities@.len(),
                j <= n,
                first_duplicate_from(entities@, 0) == first_duplicate_from(entities@, j as int),
            decreases n - j,
        {
            let mut i: usize = 0;
            while i < j
                invariant
                    n == entities@.len(),
                    i <= j < n,
                    first_duplicate_from(entities@, 0) == first_duplicate_from(entities@, j as int),
                    forall|k: int| 0 <= k < i ==> !same_identity(entities@[k], entities@[j as int]),
                decreases j - i,
            {
                if has_same_identity(&entities[i], &entities[j]) {
                    assert(duplicates_earlier(entities@, j as int));
                    assert(first_duplicate_from(entities@, j as int) == Some(j as int));
                    let path = path_of(&entities[j]).clone();
                    assert(path@ == entity_path(entities@[j as int]));
                    let (file, line) = decl_site_of(&entities[j]);
                    return Err(GraphError::DuplicateEntity { path, file, line });
                }
                i = i + 1;
            }
            assert(!duplicates_earlier(entities@, j as int));
            j = j + 1;
        }
        Ok(SqlGraph { entities, target_schema, source_only })
    }

    /// The entities of the graph, in the order they were given.
    pub fn entities(&self) -> (r: &Vec<SqlGraphEntity>)
        ensures
            r@ == self@.entities,
    {
        &self.entities
    }

    /// The schema that the script is installed into; `None` is the default schema.
    pub fn target_schema(&self) -> (r: &Option<String>)
        ensures
            *r == self@.target_schema,
    {
        &self.target_schema
    }

    /// The schema prefix of node `i`: empty when its schema is the target or the default.
    pub fn schema_prefix_for(&self, i: usize) -> (r: String)
        requires
            i < self@.entities.len(),
        ensures
            r@ == self@.prefix_of(i as int),
    {
        prefix_for_schema(schema_of(&self.entities[i]), &self.target_schema)
    }

    /// The first node that provides the SQL type `u` refers to.
    pub fn find_type_node(&self, u: &UsedTypeEntity) -> (r: Option<usize>)
        ensures
            r matches Some(i) ==> i < self@.entities.len() && type_node_from(self@.entities, *u, 0)
                == Some(i as int),
            r is None ==> type_node_from(self@.entities, *u, 0) is None,
    {
        let n = self.entities.len();
        let mut i: usize = 0;
        while i < n
            invariant
                n == self@.entities.len(),
                i <= n,
                type_node_from(self@.entities, *u, 0) == type_node_from(self@.entities, *u, i as int),
            decreases n - i,
        {
            let hit = match &self.entities[i] {
                SqlGraphEntity::Type(t) => t.id == u.ty_id,
                SqlGraphEntity::Enum(t) => t.id == u.ty_id,
                SqlGraphEntity::BuiltinType(p) => *p == u.full_path,
                _ => false,
            };
            if hit {
                return Some(i);
            }
            i = i + 1;
        }
        None
    }

    /// The first registered type with identity key `id`.
    pub fn find_composite(&self, id: u64) -> (r: Option<usize>)
        ensures
            r matches Some(i) ==> i < self@.entities.len() && composite_from(self@.entities, id, 0)
                == Some(i as int),
            r is None ==> composite_from(self@.entities, id, 0) is None,
    {
        let n = self.entities.len();
        let mut i: usize = 0;
        while i < n
            invariant
                n == self@.entities.len(),
                i <= n,
                composite_from(self@.entities, id, 0) == composite_from(self@.entities, id, i as int),
            decreases n - i,
        {
            let hit = match &self.entities[i] {
                SqlGraphEntity::Type(t) => t.id == id,
                _ => false,
            };
            if hit {
                return Some(i);
            }
            i = i + 1;
        }
        None
    }

    /// The SQL name of the registered type at node `i`.
    pub fn type_name_at(&self, i: usize) -> (r: String)
        requires
            i < self@.entities.len(),
        ensures
            r@ == type_node_name(self@.entities[i as int]),
    {
        match &self.entities[i] {
            SqlGraphEntity::Type(t) => t.name.clone(),
            _ => String::new(),
        }
    }

    /// The SQL name that the source-only table gives the declaration signature `key`.
    pub fn source_only_to_sql_type(&self, key: &String) -> (r: Option<&String>)
        ensures
            r matches Some(s) ==> source_from(self@.source_only, key@, 0) matches Some(i)
                && s@ == self@.source_only[i].1@,
            r is None ==> source_from(self@.source_only, key@, 0) is None,
    {
        let n = self.source_only.len();
        let mut i: usize = 0;
        while i < n
            invariant
                n == self@.source_only.len(),
                i <= n,
                source_from(self@.source_only, key@, 0) == source_from(self@.source_only, key@, i as int),
            decreases n - i,
        {
            if self.source_only[i].0 == *key {
                return Some(&self.source_only[i].1);
            }
            i = i + 1;
        }
        None
    }
}

/// The node is a registered type or enumeration with identity key `id`.
pub open spec fn is_type_or_enum_with_id(e: SqlGraphEntity, id: u64) -> bool {
    ||| e matches SqlGraphEntity::Type(t) && t.id == id
    ||| e matches SqlGraphEntity::Enum(t) && t.id == id
}

/// The first registered type or enumeration at or after `i` with identity key `id`.
pub open spec fn id_node_from(s: Seq<SqlGraphEntity>, id: u64, i: int) -> Option<int>
    decreases s.len() - i,
{
    if i < 0 || i >= s.len() {
        None
    } else if is_type_or_enum_with_id(s[i], id) {
        Some(i)
    } else {
        id_node_from(s, id, i + 1)
    }
}

/// Some entry of an argument list has its type provided by node `j`.
pub open spec fn args_refer_to(s: Seq<SqlGraphEntity>, args: Seq<AggregateTypeEntity>, j: int) -> bool {
    exists|k: int| 0 <= k < args.len() && type_node_from(s, #[trigger] args[k].used_ty, 0) == Some(j)
}

/// Node `i` refers to node `j`: `j` provides a type that the aggregate `i` uses, or `j` is
/// the type that the operator class `i` is for.
pub open spec fn refers_to(g: SqlGraphView, i: int, j: int) -> bool {
    let s = g.entities;
    match s[i] {
        SqlGraphEntity::Aggregate(a) => {
            ||| type_node_from(s, a.stype.used_ty, 0) == Some(j)
            ||| a.mstype matches Some(u) && type_node_from(s, u, 0) == Some(j)
            ||| args_refer_to(s, a.args@, j)
            ||| a.direct_args matches Some(d) && args_refer_to(s, d@, j)
        },
        SqlGraphEntity::Hash(h) => id_node_from(s, h.id, 0) == Some(j),
        SqlGraphEntity::Ord(o) => id_node_from(s, o.id, 0) == Some(j),
        _ => false,
    }
}

/// Which edges of a node to follow.
#[derive(Clone, Copy, Debug, PartialEq, Eq)]
pub enum Direction {
    /// To the nodes it refers to.
    Outgoing,
    /// To the nodes that refer to it.
    Incoming,
    /// Either way.
    Either,
}

/// Nodes `i` and `j` are linked in direction `d`.
pub open spec fn linked(g: SqlGraphView, d: Direction, i: int, j: int) -> bool {
    match d {
        Direction::Outgoing => refers_to(g, i, j),
        Direction::Incoming => refers_to(g, j, i),
        Direction::Either => refers_to(g, i, j) || refers_to(g, j, i),
    }
}

/// The nodes among the first `k` that are linked to node `i` in direction `d`, in order.
pub open spec fn neighbors_upto(g: SqlGraphView, d: Direction, i: int, k: int) -> Seq<int>
    decreases k,
{
    if k <= 0 {
        Seq::empty()
    } else if linked(g, d, i, k - 1) {
        neighbors_upto(g, d, i, k - 1).push(k - 1)
    } else {
        neighbors_upto(g, d, i, k - 1)
    }
}

impl SqlGraph {
    fn id_node(&self, id: u64) -> (r: Option<usize>)
        ensures
            r matches Some(i) ==> id_node_from(self@.entities, id, 0) == Some(i as int),
            r is None ==> id_node_from(self@.entities, id, 0) is None,
    {
        let n = self.entities.len();
        let mut i: usize = 0;
        while i < n
            invariant
                n == self@.entities.len(),
                i <= n,
                id_node_from(self@.entities, id, 0) == id_node_from(self@.entities, id, i as int),
            decreases n - i,
        {
            let hit = match &self.entities[i] {
                SqlGraphEntity::Type(t) => t.id == id,
                SqlGraphEntity::Enum(t) => t.id == id,
                _ => false,
            };
            if hit {
                return Some(i);
            }
            i = i + 1;
        }
        None
    }

    fn provided_by(&self, u: &UsedTypeEntity, j: usize) -> (r: bool)
        ensures
            r == (type_node_from(self@.entities, *u, 0) == Some(j as int)),
    {
        match self.find_type_node(u) {
            Some(k) => k == j,
            None => false,
        }
    }

    fn args_provided_by(&self, args: &Vec<AggregateTypeEntity>, j: usize) -> (r: bool)
        ensures
            r == args_refer_to(self@.entities, args@, j as int),
    {
        let n = args.len();
        let mut k: usize = 0;
        while k < n
            invariant
                n == args@.len(),
                k <= n,
                forall|q: int| 0 <= q < k ==> type_node_from(self@.entities, #[trigger] args@[q].used_ty, 0)
                    != Some(j as int),
            decreases n - k,
        {
            if self.provided_by(&args[k].used_ty, j) {
                return true;
            }
            k = k + 1;
        }
        false
    }

    /// Whether node `i` refers to node `j`.
    pub fn refers(&self, i: usize, j: usize) -> (r: bool)
        requires
            i < self@.entities.len(),
        ensures
            r == refers_to(self@, i as int, j as int),
    {
        match &self.entities[i] {
            SqlGraphEntity::Aggregate(a) => {
                if self.provided_by(&a.stype.used_ty, j) {
                    return true;
                }
                if let Some(u) = &a.mstype {
                    if self.provided_by(u, j) {
                        return true;
                    }
                }
                if self.args_provided_by(&a.args, j) {
                    return true;
                }
                match &a.direct_args {
                    Some(d) => self.args_provided_by(d, j),
                    None => false,
                }
            },
            SqlGraphEntity::Hash(h) => match self.id_node(h.id) {
                Some(k) => k == j,
                None => false,
            },
            SqlGraphEntity::Ord(o) => match self.id_node(o.id) {
                Some(k) => k == j,
                None => false,
            },
            _ => false,
        }
    }

    /// The nodes linked to node `i` in direction `d`, in the order of the graph.
    pub fn neighbors(&self, i: usize, d: Direction) -> (r: Vec<usize>)
        requires
            i < self@.entities.len(),
        ensures
            r@.map_values(|j: usize| j as int) == neighbors_upto(self@, d, i as int, self@.entities.len() as int),
    {
        let n = self.entities.len();
        let mut v: Vec<usize> = Vec::new();
        let mut k: usize = 0;
        assert(v@.map_values(|j: usize| j as int) =~= Seq::<int>::empty());
        while k < n
            invariant
                n == self@.entities.len(),
                i < n,
                k <= n,
                v@.map_values(|j: usize| j as int) == neighbors_upto(self@, d, i as int, k as int),
            decreases n - k,
        {
            let hit = match d {
                Direction::Outgoing => self.refers(i, k),
                Direction::Incoming => self.refers(k, i),
                Direction::Either => self.refers(i, k) || self.refers(k, i),
            };
            if hit {
                proof {
                    assert(v@.push(k).map_values(|j: usize| j as int) =~= v@.map_values(|j: usize| j as int).push(
                        k as int,
                    ));
                }
                v.push(k);
            }
            k = k + 1;
        }
        v
    }
}

} // verus!
