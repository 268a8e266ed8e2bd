//! Ordering (btree) operator classes.
use vstd::prelude::*;

use crate::metadata::ToSqlConfigEntity;
use crate::text::{lower_of, lowercase, provenance_header, provenance_header_text};

verus! {

/// A type that gets the default btree operator family and class.
#[derive(Clone, Debug, PartialEq, Eq, Hash)]
pub struct PostgresOrdEntity {
    pub name: String,
    pub file: String,
    pub line: u32,
    pub full_path: String,
    pub mod_path: String,
    pub id: u64,
    pub to_sql_config: ToSqlConfigEntity,
}

/// The statements that register the btree operator class of `o`, whose comparison function is
/// `fn_name`.
pub open spec fn ord_sql(o: PostgresOrdEntity, fn_name: Seq<char>) -> Seq<char> {
    let n = o.name@;
    provenance_header(o.file@, o.line, o.full_path@) + "CREATE OPERATOR FAMILY "@ + n
        + "_btree_ops USING btree;\nCREATE OPERATOR CLASS "@ + n + "_btree_ops DEFAULT FOR TYPE "@ + n
        + " USING btree FAMILY "@ + n
        + "_btree_ops AS\n\tOPERATOR 1 <,\n\tOPERATOR 2 <=,\n\tOPERATOR 3 =,\n\tOPERATOR 4 >=,\n\tOPERATOR 5 >,\n\tFUNCTION 1 "@
        + fn_name + "("@ + n + ", "@ + n + ");"@
}

/// The name of the comparison function of a type named `name`.
pub open spec fn cmp_fn_name(name: Seq<char>) -> Seq<char> {
    lower_of(name) + "_cmp"@
}

impl PostgresOrdEntity {
    /// The comparison function's name: the lowercased type name followed by `_cmp`.
    pub fn fn_name(&self) -> (r: String)
        ensures
            r@ == cmp_fn_name(self.name@),
    {
        let mut s = lowercase(self.name.as_str());
        s.append("_cmp");
        s
    }

    /// The statements that register the btree operator class, with `fn_name` as comparison
    /// function.
    pub fn to_sql_with_fn_name(&self, fn_name: &str) -> (r: String)
        ensures
            r@ == ord_sql(*self, fn_name@),
    {
        let n = self.name.as_str();
        let mut s = provenance_header_text(&self.file, self.line, &self.full_path);
        s.append("CREATE OPERATOR FAMILY ");
        s.append(n);
        s.append("_btree_ops USING btree;\nCREATE OPERATOR CLASS ");
        s.append(n);
        s.append("_btree_ops DEFAULT FOR TYPE ");
        s.append(n);
        s.append(" USING btree FAMILY ");
        s.append(n);
        s.append(
            "_btree_ops AS\n\tOPERATOR 1 <,\n\tOPERATOR 2 <=,\n\tOPERATOR 3 =,\n\tOPERATOR 4 >=,\n\tOPERATOR 5 >,\n\tFUNCTION 1 ",
        );
        s.append(fn_name);
        s.append("(");
        s.append(n);
        s.append(", ");
        s.append(n);
        s.append(");");
        s
    }

    /// The statements that register the default btree operator family and class of the type.
    pub fn to_sql(&self) -> (r: String)
        ensures
            r@ == ord_sql(*self, cmp_fn_name(self.name@)),
    {
        let f = self.fn_name();
        self.to_sql_with_fn_name(f.as_str())
    }
}


impl PostgresOrdEntity {
    /// The label of the entity in a rendering of the graph: `ord <path>`.
    pub fn dot_identifier(&self) -> (r: String)
        ensures
            r@ == "ord "@ + self.full_path@,
    {
        let mut s = String::from_str("ord ");
        s.append(self.full_path.as_str());
        s
    }

    /// The fully qualified path of the entity.
    pub fn rust_identifier(&self) -> (r: String)
        ensures
            r@ == self.full_path@,
    {
        self.full_path.clone()
    }

    /// The source file the entity was declared in.
    pub fn file(&self) -> (r: Option<&str>)
        ensures
            r matches Some(f) && f@ == self.file@,
    {
        Some(self.file.as_str())
    }

    /// The line the entity was declared on.
    pub fn line(&self) -> (r: Option<u32>)
        ensures
            r == Some(self.line),
    {
        Some(self.line)
    }
}

} // verus!
