//! Indexes.

use vstd::prelude::*;
use crate::common::{PyIndexColumn, PyTableName};
use crate::text::{ascii_lower, is_word, joined, lowered, owned};

verus! {

/// The method of an index.
#[derive(Debug, PartialEq, Eq)]
pub enum IndexType {
    BTree,
    FullText,
    Hash,
    /// A method that only the database knows, by its name.
    Custom(String),
}

/// An index method under the name that the host gives it.
#[derive(Debug, PartialEq, Eq)]
pub struct IndexTypeAlias(pub IndexType);

/// The mathematical form of an [`IndexType`].
pub enum IndexTypeModel {
    BTree,
    FullText,
    Hash,
    Custom(Seq<char>),
}

impl View for IndexType {
    type V = IndexTypeModel;

    open spec fn view(&self) -> IndexTypeModel {
        match self {
            IndexType::BTree => IndexTypeModel::BTree,
            IndexType::FullText => IndexTypeModel::FullText,
            IndexType::Hash => IndexTypeModel::Hash,
            IndexType::Custom(name) => IndexTypeModel::Custom(name@),
        }
    }
}

/// The index method that a name stands for: one of the three that the
/// library knows, letter case apart, else a custom method of that very name.
pub open spec fn index_type_of(name: Seq<char>) -> IndexTypeModel {
    let lower = ascii_lower(name);
    if lower == "hash"@ {
        IndexTypeModel::Hash
    } else if lower == "full text"@ {
        IndexTypeModel::FullText
    } else if lower == "btree"@ {
        IndexTypeModel::BTree
    } else {
        IndexTypeModel::Custom(name)
    }
}

/// The name of an index method in SQL.
pub open spec fn index_type_text(method: IndexTypeModel) -> Seq<char> {
    match method {
        IndexTypeModel::BTree => "BTREE"@,
        IndexTypeModel::FullText => "FULL TEXT"@,
        IndexTypeModel::Hash => "HASH"@,
        IndexTypeModel::Custom(name) => name,
    }
}

impl IndexTypeAlias {
    /// The index method that a name stands for.
    pub fn from(value: String) -> (r: Self)
        ensures
            r.0@ == index_type_of(value@),
    {
        let lower = lowered(value.as_str());
        if is_word(&lower, "hash") {
            IndexTypeAlias(IndexType::Hash)
        } else if is_word(&lower, "full text") {
            IndexTypeAlias(IndexType::FullText)
        } else if is_word(&lower, "btree") {
            IndexTypeAlias(IndexType::BTree)
        } else {
            IndexTypeAlias(IndexType::Custom(value))
        }
    }

    /// The name of the index method in SQL.
    pub fn fmt(&self) -> (r: String)
        ensures
            r@ == index_type_text(self.0@),
    {
        match &self.0 {
            IndexType::BTree => owned("BTREE"),
            IndexType::FullText => owned("FULL TEXT"),
            IndexType::Hash => owned("HASH"),
            IndexType::Custom(name) => name.clone(),
        }
    }
}

/// The names of the columns, each with an underscore before it, one after
/// the other.
pub open spec fn column_suffix(columns: Seq<Seq<char>>) -> Seq<char>
    decreases columns.len(),
{
    if columns.len() == 0 {
        Seq::empty()
    } else {
        column_suffix(columns.drop_last()) + "_"@ + columns.last()
    }
}

/// The name that an index gets where none is given: `ix_`, the name of the
/// table, and the name of each column after an underscore.
pub open spec fn index_name(table: Seq<char>, columns: Seq<Seq<char>>) -> Seq<char> {
    "ix_"@ + table + column_suffix(columns)
}

/// The names of the columns of an index.
pub open spec fn column_names(columns: Vec<PyIndexColumn>) -> Seq<Seq<char>> {
    Seq::new(columns.len() as nat, |i: int| columns[i].name@)
}

/// The name of a table that may be missing: the empty name where it is.
pub open spec fn table_name(table: Option<PyTableName>) -> Seq<char> {
    match table {
        Some(t) => t.name@,
        None => Seq::empty(),
    }
}

/// What an index is made of, but for the condition of a partial index,
/// which is an expression of the host.
#[derive(Debug, PartialEq, Eq)]
pub struct IndexInner {
    pub name: String,
    pub columns: Vec<PyIndexColumn>,
    pub table: Option<PyTableName>,
    /// The options, as a set of bits. See [`IndexOptions`].
    pub options: u8,
    pub index_type: Option<IndexTypeAlias>,
    pub included: Vec<String>,
}

impl IndexInner {
    /// The set of bits for the four options.
    pub open spec fn options_model(
        primary: bool,
        unique: bool,
        if_not_exists: bool,
        nulls_not_distinct: bool,
    ) -> int {
        (if primary {
            1int
        } else {
            0int
        }) + (if unique {
            2int
        } else {
            0int
        }) + (if if_not_exists {
            4int
        } else {
            0int
        }) + (if nulls_not_distinct {
            8int
        } else {
            0int
        })
    }

    /// The set of bits for the four options.
    pub fn options_of(primary: bool, unique: bool, if_not_exists: bool, nulls_not_distinct: bool) -> (r:
        u8)
        ensures
            r == Self::options_model(primary, unique, if_not_exists, nulls_not_distinct),
            IndexOptions::Primary.held_by(r) == primary,
            IndexOptions::Unique.held_by(r) == unique,
            IndexOptions::IfNotExists.held_by(r) == if_not_exists,
            IndexOptions::NullsNotDistinct.held_by(r) == nulls_not_distinct,
    {
        let a: u8 = if primary {
            1
        } else {
            0
        };
        let b: u8 = if unique {
            2
        } else {
            0
        };
        let c: u8 = if if_not_exists {
            4
        } else {
            0
        };
        let d: u8 = if nulls_not_distinct {
            8
        } else {
            0
        };
        assert((a == 0 || a == 1) && (b == 0 || b == 2) && (c == 0 || c == 4) && (d == 0 || d == 8)
            ==> {
            &&& (a | b | c | d) == a + b + c + d
            &&& ((a | b | c | d) & 1 != 0) == (a == 1)
            &&& ((a | b | c | d) & 2 != 0) == (b == 2)
            &&& ((a | b | c | d) & 4 != 0) == (c == 4)
            &&& ((a | b | c | d) & 8 != 0) == (d == 8)
        }) by (bit_vector);
        a | b | c | d
    }

    /// Gives the index the name that it gets where none is given: `ix_`,
    /// the name of its table, and the name of each of its columns after an
    /// underscore. Nothing else of the index changes.
    pub fn regenerate_name(&mut self)
        ensures
            final(self).name@ == index_name(table_name(old(self).table), column_names(old(self).columns)),
            final(self).columns == old(self).columns,
            final(self).table == old(self).table,
            final(self).options == old(self).options,
            final(self).index_type == old(self).index_type,
            final(self).included == old(self).included,
    {
        let ghost names = column_names(self.columns);
        let mut s = match &self.table {
            Some(table) => joined(owned("ix_"), table.name.as_str()),
            None => {
                assert("ix_"@ + Seq::<char>::empty() =~= "ix_"@);
                owned("ix_")
            },
        };
        let mut i: usize = 0;
        assert(names.take(0) =~= Seq::<Seq<char>>::empty());
        assert(s@ =~= "ix_"@ + table_name(self.table) + column_suffix(names.take(0)));
        while i < self.columns.len()
            invariant
                0 <= i <= self.columns.len(),
                *self == *old(self),
                names == column_names(self.columns),
                s@ == "ix_"@ + table_name(self.table) + column_suffix(names.take(i as int)),
            decreases self.columns.len() - i,
        {
            proof {
                assert(names.take(i + 1).drop_last() =~= names.take(i as int));
                assert(names.take(i + 1).last() == self.columns[i as int].name@);
            }
            s = joined(s, "_");
            s = joined(s, self.columns[i].name.as_str());
            assert(s@ =~= "ix_"@ + table_name(self.table) + column_suffix(names.take(i + 1)));
            i = i + 1;
        }
        assert(names.take(self.columns.len() as int) =~= names);
        self.name = s;
    }

    /// Whether the option is set.
    pub fn has(&self, option: IndexOptions) -> (r: bool)
        ensures
            r == option.held_by(self.options),
    {
        option.is_set(self.options)
    }

    /// Sets or clears the option. Nothing else of the index changes, the
    /// other options neither.
    pub fn set(&mut self, option: IndexOptions, val: bool)
        ensures
            option.held_by(final(self).options) == val,
            forall|other: IndexOptions|
                other != option ==> other.held_by(final(self).options) == other.held_by(
                    old(self).options,
                ),
            final(self).name == old(self).name,
            final(self).columns == old(self).columns,
            final(self).table == old(self).table,
            final(self).index_type == old(self).index_type,
            final(self).included == old(self).included,
    {
        proof {
            assert forall|other: IndexOptions| true implies {
                &&& (self.options | option.bit_model()) & option.bit_model() != 0
                &&& (self.options & !option.bit_model()) & option.bit_model() == 0
                &&& other != option ==> ((self.options | option.bit_model()) & other.bit_model())
                    == (self.options & other.bit_model())
                &&& other != option ==> ((self.options & !option.bit_model()) & other.bit_model())
                    == (self.options & other.bit_model())
            } by {
                apply_sets_one_bit(option, other, self.options);
            }
        }
        self.options = option.apply(self.options, val);
    }
}

/// An option of an index. The options of an index are held as a set of bits.
#[derive(Clone, Copy, Debug, PartialEq, Eq, PartialOrd, Ord, Structural)]
pub enum IndexOptions {
    Primary,
    Unique,
    IfNotExists,
    NullsNotDistinct,
}

impl IndexOptions {
    /// The bit of the option: a power of two, the options counted from 0 in
    /// the order of their declaration.
    pub open spec fn bit_model(self) -> u8 {
        match self {
            IndexOptions::Primary => 1,
            IndexOptions::Unique => 2,
            IndexOptions::IfNotExists => 4,
            IndexOptions::NullsNotDistinct => 8,
        }
    }

    /// The bit of the option.
    pub fn bit(self) -> (r: u8)
        ensures
            r == self.bit_model(),
    {
        match self {
            IndexOptions::Primary => 1,
            IndexOptions::Unique => 2,
            IndexOptions::IfNotExists => 4,
            IndexOptions::NullsNotDistinct => 8,
        }
    }

    /// Whether the option is among the options that `bits` holds.
    pub open spec fn held_by(self, bits: u8) -> bool {
        bits & self.bit_model() != 0
    }

    /// Whether the option is among the options that `bits` holds.
    pub fn is_set(self, bits: u8) -> (r: bool)
        ensures
            r == self.held_by(bits),
    {
        bits & self.bit() != 0
    }

    /// The options `bits` with this option set or cleared.
    pub fn apply(self, bits: u8, on: bool) -> (r: u8)
        ensures
            r == (if on {
                bits | self.bit_model()
            } else {
                bits & !self.bit_model()
            }),
    {
        if on {
            bits | self.bit()
        } else {
            bits & !self.bit()
        }
    }
}

/// Setting an option sets it and clearing it clears it, and neither touches
/// another option.
pub proof fn apply_sets_one_bit(option: IndexOptions, other: IndexOptions, bits: u8)
    ensures
        (bits | option.bit_model()) & option.bit_model() != 0,
        (bits & !option.bit_model()) & option.bit_model() == 0,
        other != option ==> ((bits | option.bit_model()) & other.bit_model()) == (bits
            & other.bit_model()),
        other != option ==> ((bits & !option.bit_model()) & other.bit_model()) == (bits
            & other.bit_model()),
{
    let a = option.bit_model();
    let b = other.bit_model();
    assert(a == 1 || a == 2 || a == 4 || a == 8);
    assert(b == 1 || b == 2 || b == 4 || b == 8);
    assert((a == 1 || a == 2 || a == 4 || a == 8) ==> (bits | a) & a != 0 && (bits & !a) & a == 0)
        by (bit_vector);
    assert((a == 1 || a == 2 || a == 4 || a == 8) && (b == 1 || b == 2 || b == 4 || b == 8) && a
        != b ==> ((bits | a) & b) == (bits & b) && ((bits & !a) & b) == (bits & b))
        by (bit_vector);
}

} // verus!
