//! Hash operator classes.
use vstd::prelude::*;

use crate::metadata::ToSqlConfigEntity;
use crate::text::{lower_of, lowercase, provenance_header, provenance_header_text};

verus! {

/// A type that gets the default hash operator family and class.
#[derive(Clone, Debug, PartialEq, Eq, Hash)]
pub struct PostgresHashEntity {
    pub name: String,
    pub file: String,
    pub line: u32,
    pub full_path: String,
    pub mod_path: String,
    pub id: u64,
    pub to_sql_config: ToSqlConfigEntity,
}

/// The statements that register the hash operator class of `h`, whose support function is
/// `fn_name`.
pub open spec fn hash_sql(h: PostgresHashEntity, fn_name: Seq<char>) -> Seq<char> {
    let n = h.name@;
    provenance_header(h.file@, h.line, h.full_path@) + "CREATE OPERATOR FAMILY "@ + n
        + "_hash_ops USING hash;\nCREATE OPERATOR CLASS "@ + n + "_hash_ops DEFAULT FOR TYPE "@ + n
        + " USING hash FAMILY "@ + n + "_hash_ops AS\n\tOPERATOR    1   =  ("@ + n + ", "@ + n
        + "),\n\tFUNCTION    1   "@ + fn_name + "("@ + n + ");"@
}

/// The name of the hash support function of a type named `name`.
pub open spec fn hash_fn_name(name: Seq<char>) -> Seq<char> {
    lower_of(name) + "_hash"@
}

impl PostgresHashEntity {
    /// The support function's name: the lowercased type name followed by `_hash`.
    pub fn fn_name(&self) -> (r: String)
        ensures
            r@ == hash_fn_name(self.name@),
    {
        let mut s = lowercase(self.name.as_str());
        s.append("_hash");
        s
    }

    /// The statements that register the hash operator class, with `fn_name` as support function.
    pub fn to_sql_with_fn_name(&self, fn_name: &str) -> (r: String)
        ensures
            r@ == hash_sql(*self, fn_name@),
    {
        let n = self.name.as_str();
        let mut s = provenance_header_text(&self.file, self.line, &self.full_path);
        s.append("CREATE OPERATOR FAMILY ");
        s.append(n);
        s.append("_hash_ops USING hash;\nCREATE OPERATOR CLASS ");
        s.append(n);
        s.append("_hash_ops DEFAULT FOR TYPE ");
        s.append(n);
        s.append(" USING hash FAMILY ");
        s.append(n);
        s.append("_hash_ops AS\n\tOPERATOR    1   =  (");
        s.append(n);
        s.append(", ");
        s.append(n);
        s.append("),\n\tFUNCTION    1   ");
        s.append(fn_name);
        s.append("(");
        s.append(n);
        s.append(");");
        s
    }

    /// The statements that register the default hash operator family and class of the type.
    pub fn to_sql(&self) -> (r: String)
        ensures
            r@ == hash_sql(*self, hash_fn_name(self.name@)),
    {
        let f = self.fn_name();
        self.to_sql_with_fn_name(f.as_str())
    }
}


impl PostgresHashEntity {
    /// The label of the entity in a rendering of the graph: `hash <path>`.
    pub fn dot_identifier(&self) -> (r: String)
        ensures
            r@ == "hash "@ + self.full_path@,
    {
        let mut s = String::from_str("hash ");
        s.append(self.full_path.as_str());
        s
    }

    /// The fully qualified path of the entity.
    pub fn rust_identifier(&self) -> (r: String)
        ensures
            r@ == self.full_path@,
    {
        self.full_path.clone()
    }

    /// The source file the entity was declared in.
    pub fn file(&self) -> (r: Option<&str>)
        ensures
            r matches Some(f) && f@ == self.file@,
    {
        Some(self.file.as_str())
    }

    /// The line the entity was declared on.
    pub fn line(&self) -> (r: Option<u32>)
        ensures
            r == Some(self.line),
    {
        Some(self.line)
    }
}

} // verus!
