//! The kinds of statements and the database backends.

use vstd::prelude::*;
use crate::text::{is_word, joined, owned};

verus! {

/// The common base of the statements that define the schema.
#[derive(Clone, Copy, Debug, Default, PartialEq, Eq)]
pub struct PySchemaStatement;

/// The common base of the statements that query or change data.
#[derive(Clone, Copy, Debug, Default, PartialEq, Eq)]
pub struct PyQueryStatement;

/// A database backend, for which SQL text is written.
#[derive(Clone, Copy, Debug, PartialEq, Eq, Structural)]
pub enum Backend {
    Sqlite,
    Mysql,
    Postgres,
}

/// The backend that a name stands for. Names are exact: `sqlite`, `mysql`,
/// and `postgresql` or `postgres`.
pub open spec fn backend_of(name: Seq<char>) -> Option<Backend> {
    if name == "sqlite"@ {
        Some(Backend::Sqlite)
    } else if name == "mysql"@ {
        Some(Backend::Mysql)
    } else if name == "postgresql"@ || name == "postgres"@ {
        Some(Backend::Postgres)
    } else {
        None
    }
}

/// The message for a name that stands for no backend.
pub open spec fn invalid_backend(name: Seq<char>) -> Seq<char> {
    "invalid backend value, got "@ + name
}

/// The backend whose query builder a name selects, or the message for a name
/// that selects none.
pub fn into_query_builder(name: &str) -> (r: Result<Backend, String>)
    ensures
        match r {
            Ok(backend) => backend_of(name@) == Some(backend),
            Err(message) => backend_of(name@) is None && message@ == invalid_backend(name@),
        },
{
    let val = owned(name);
    if is_word(&val, "sqlite") {
        Ok(Backend::Sqlite)
    } else if is_word(&val, "mysql") {
        Ok(Backend::Mysql)
    } else if is_word(&val, "postgresql") || is_word(&val, "postgres") {
        Ok(Backend::Postgres)
    } else {
        Err(joined(owned("invalid backend value, got "), name))
    }
}

/// The backend whose schema builder a name selects, or the message for a
/// name that selects none.
pub fn into_schema_builder(name: &str) -> (r: Result<Backend, String>)
    ensures
        match r {
            Ok(backend) => backend_of(name@) == Some(backend),
            Err(message) => backend_of(name@) is None && message@ == invalid_backend(name@),
        },
{
    into_query_builder(name)
}

} // verus!
