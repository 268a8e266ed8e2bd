//! Registered types and enumerations.
use vstd::prelude::*;

use crate::graph::schema_prefix;
use crate::metadata::ToSqlConfigEntity;
use crate::text::{provenance_header, provenance_header_text};

verus! {

/// A type registered by the extension, known to other entities by its identity key.
#[derive(Clone, Debug, PartialEq, Eq, Hash)]
pub struct PgTypeEntity {
    pub name: String,
    pub file: String,
    pub line: u32,
    pub full_path: String,
    pub mod_path: String,
    pub id: u64,
    pub schema: Option<String>,
    pub to_sql_config: ToSqlConfigEntity,
}

/// An enumeration registered by the extension.
#[derive(Clone, Debug, PartialEq, Eq, Hash)]
pub struct PgEnumEntity {
    pub name: String,
    pub file: String,
    pub line: u32,
    pub full_path: String,
    pub mod_path: String,
    pub id: u64,
    pub schema: Option<String>,
    pub variants: Vec<String>,
    pub to_sql_config: ToSqlConfigEntity,
}

/// The declaration of a registered type's name.
pub open spec fn type_sql(t: PgTypeEntity, target: Option<String>) -> Seq<char> {
    provenance_header(t.file@, t.line, t.full_path@) + "CREATE TYPE "@ + schema_prefix(t.schema, target)
        + t.name@ + ";"@
}

/// The first `k` enumeration labels, each quoted on a line of its own, separated by commas.
pub open spec fn enum_labels(v: Seq<String>, k: int) -> Seq<char>
    decreases k,
{
    if k <= 0 {
        Seq::empty()
    } else if k == 1 {
        "\t'"@ + v[0]@ + "'"@
    } else {
        enum_labels(v, k - 1) + ",\n\t'"@ + v[k - 1]@ + "'"@
    }
}

/// The declaration of an enumeration type with its labels in order.
pub open spec fn enum_sql(e: PgEnumEntity, target: Option<String>) -> Seq<char> {
    provenance_header(e.file@, e.line, e.full_path@) + "CREATE TYPE "@ + schema_prefix(e.schema, target)
        + e.name@ + " AS ENUM (\n"@ + enum_labels(e.variants@, e.variants@.len() as int) + "\n);"@
}

impl PgTypeEntity {
    /// Declares the type's name, qualified unless it lives in `target`.
    pub fn to_sql(&self, target: &Option<String>) -> (r: String)
        ensures
            r@ == type_sql(*self, *target),
    {
        let mut s = provenance_header_text(&self.file, self.line, &self.full_path);
        s.append("CREATE TYPE ");
        let p = crate::graph::prefix_for_schema(&self.schema, target);
        s.append(p.as_str());
        s.append(self.name.as_str());
        s.append(";");
        s
    }
}

impl PgEnumEntity {
    /// Declares the enumeration type, qualified unless it lives in `target`.
    pub fn to_sql(&self, target: &Option<String>) -> (r: String)
        ensures
            r@ == enum_sql(*self, *target),
    {
        let mut s = provenance_header_text(&self.file, self.line, &self.full_path);
        s.append("CREATE TYPE ");
        let p = crate::graph::prefix_for_schema(&self.schema, target);
        s.append(p.as_str());
        s.append(self.name.as_str());
        s.append(" AS ENUM (\n");
        let n = self.variants.len();
        let mut labels = String::new();
        let mut k: usize = 0;
        while k < n
            invariant
                n == self.variants@.len(),
                k <= n,
                labels@ == enum_labels(self.variants@, k as int),
            decreases n - k,
        {
            if k == 0 {
                labels.append("\t'");
            } else {
                labels.append(",\n\t'");
            }
            labels.append(self.variants[k].as_str());
            labels.append("'");
            k = k + 1;
        }
        s.append(labels.as_str());
        s.append("\n);");
        s
    }
}

} // verus!
