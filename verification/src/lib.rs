//! Value adaptation between a dynamically typed host runtime and the typed
//! values of an SQL engine, with the plain data of the statements around it.
//!
//! The host is a runtime whose objects carry their type at run time; the
//! engine is an SQL builder with a closed set of value types. The library
//! sits between the two and never touches either: it works on records.
//!
//! - [`host`] holds the record of a host object: its exact runtime type, the
//!   fields of that type, and what the host's JSON encoder made of it.
//! - [`column`] holds the column types, and what the host declares as one.
//! - [`adaptation`] holds the adapted values. A
//!   [`adaptation::deserialize::DeserializedValue`] is a value on the host's
//!   side, a [`adaptation::serialize::RustValue`] one on the engine's side,
//!   and a [`adaptation::ReturnableValue`] holds either or both, working out
//!   the missing one when it is first asked for. [`adaptation::model`] says
//!   what each conversion comes to, and [`adaptation::laws`] what holds of
//!   them. [`adaptation::builder`] holds the record of a value of the SQL
//!   builder, to and from which engine values go.
//! - [`calendar`], [`decimal`] and [`bits`] hold the engine's dates, times,
//!   decimals and floating-point numbers by their fields and bit patterns.
//!   Which dates exist, and how a decimal is read and written, is asked of
//!   the crates that the engine takes them from.
//! - [`common`], [`index`], [`foreign_key`], [`table`], [`query`] and
//!   [`backend`] hold the names, options and key words of the statements.
//!
//! Contracts are stated over mathematical forms: a text is a sequence of
//! characters, a list a sequence of forms. `value@` is the form of `value`.

pub mod adaptation;
pub mod backend;
pub mod bits;
pub mod calendar;
pub mod column;
pub mod common;
pub mod decimal;
pub mod error;
pub mod foreign_key;
pub mod host;
pub mod index;
pub mod parameters;
pub mod query;
pub mod table;
pub mod text;
