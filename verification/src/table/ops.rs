//! The options of an `ALTER TABLE` statement that are plain data.

use vstd::prelude::*;
use crate::text::{debug_text, joined, owned, quoted};

verus! {

/// The common base of the options of an `ALTER TABLE` statement. It is no
/// option by itself.
#[derive(Clone, Copy, Debug, Default, PartialEq, Eq)]
pub struct PyAlterTableOptionMeta;

/// The option that renames a column.
#[derive(Debug, PartialEq, Eq)]
pub struct PyAlterTableRenameColumnOption {
    from_name: String,
    to_name: String,
}

impl PyAlterTableRenameColumnOption {
    /// The name that the column has, as the option holds it.
    pub closed spec fn from_model(self) -> Seq<char> {
        self.from_name@
    }

    /// The name that the column gets, as the option holds it.
    pub closed spec fn to_model(self) -> Seq<char> {
        self.to_name@
    }

    /// The option that renames the column `from_name` to `to_name`.
    pub fn new(from_name: String, to_name: String) -> (r: (Self, PyAlterTableOptionMeta))
        ensures
            r.0.from_model() == from_name@,
            r.0.to_model() == to_name@,
    {
        (PyAlterTableRenameColumnOption { from_name, to_name }, PyAlterTableOptionMeta)
    }

    /// The name that the column has.
    #[allow(clippy::wrong_self_convention)]
    pub fn from_name(&self) -> (r: String)
        ensures
            r@ == self.from_model(),
    {
        self.from_name.clone()
    }

    /// The name that the column gets.
    pub fn to_name(&self) -> (r: String)
        ensures
            r@ == self.to_model(),
    {
        self.to_name.clone()
    }

    /// The printed form of the option, with both names quoted.
    pub fn __repr__(&self) -> (r: String)
        ensures
            r@ == "<AlterTableRenameColumnOption from_name="@ + debug_text(self.from_model())
                + " to_name="@ + debug_text(self.to_model()) + ">"@,
    {
        let s = owned("<AlterTableRenameColumnOption from_name=");
        let s = joined(s, quoted(self.from_name.as_str()).as_str());
        let s = joined(s, " to_name=");
        let s = joined(s, quoted(self.to_name.as_str()).as_str());
        joined(s, ">")
    }
}

/// The option that drops a column.
#[derive(Debug, PartialEq, Eq)]
pub struct PyAlterTableDropColumnOption {
    name: String,
}

impl PyAlterTableDropColumnOption {
    /// The name of the column, as the option holds it.
    pub closed spec fn name_model(self) -> Seq<char> {
        self.name@
    }

    /// The option that drops the column `name`.
    pub fn new(name: String) -> (r: (Self, PyAlterTableOptionMeta))
        ensures
            r.0.name_model() == name@,
    {
        (PyAlterTableDropColumnOption { name }, PyAlterTableOptionMeta)
    }

    /// The name of the column.
    pub fn name(&self) -> (r: String)
        ensures
            r@ == self.name_model(),
    {
        self.name.clone()
    }

    /// The printed form of the option, with the name quoted.
    pub fn __repr__(&self) -> (r: String)
        ensures
            r@ == "<AlterTableDropColumnOption "@ + debug_text(self.name_model()) + ">"@,
    {
        let s = owned("<AlterTableDropColumnOption ");
        let s = joined(s, quoted(self.name.as_str()).as_str());
        joined(s, ">")
    }
}

/// The option that drops a foreign key.
#[derive(Debug, PartialEq, Eq)]
pub struct PyAlterTableDropForeignKeyOption {
    name: String,
}

impl PyAlterTableDropForeignKeyOption {
    /// The name of the foreign key, as the option holds it.
    pub closed spec fn name_model(self) -> Seq<char> {
        self.name@
    }

    /// The option that drops the foreign key `name`.
    pub fn new(name: String) -> (r: (Self, PyAlterTableOptionMeta))
        ensures
            r.0.name_model() == name@,
    {
        (PyAlterTableDropForeignKeyOption { name }, PyAlterTableOptionMeta)
    }

    /// The name of the foreign key.
    pub fn name(&self) -> (r: String)
        ensures
            r@ == self.name_model(),
    {
        self.name.clone()
    }

    /// The printed form of the option, with the name quoted.
    pub fn __repr__(&self) -> (r: String)
        ensures
            r@ == "<AlterTableDropForeignKeyOption "@ + debug_text(self.name_model()) + ">"@,
    {
        let s = owned("<AlterTableDropForeignKeyOption ");
        let s = joined(s, quoted(self.name.as_str()).as_str());
        joined(s, ">")
    }
}

} // verus!
