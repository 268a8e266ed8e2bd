//! Turns a model of an extension's schema objects (types, enumerations, aggregates, operator
//! classes) into a deterministic, dependency-ordered script of DDL statements.
//!
//! Entities are collected in a [`graph::SqlGraph`], built once and never changed. Used types are
//! resolved to SQL text by [`resolve::resolve`]; each kind of entity has its renderer; and
//! [`emit::emit`] orders the entities and concatenates their statements, or fails as a whole.
use vstd::prelude::*;

pub mod aggregate;
pub mod cargo_test;
pub mod emit;
pub mod graph;
pub mod hash;
pub mod metadata;
pub mod oids;
pub mod ord;
pub mod pg_type;
pub mod resolve;
pub mod spi;
pub mod text;

verus! {

} // verus!
