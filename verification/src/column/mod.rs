//! Declared column types.

use vstd::prelude::*;
use crate::common::{ColumnRef, ColumnRefModel, PyTableName, TableNameParts};
use crate::text::owned;

pub mod convert;
pub mod types;

verus! {

/// The reference to a column that is worked out when the name of the column
/// is known, and kept from then on.
#[derive(Debug, PartialEq, Eq)]
pub enum LazyColumnRef {
    /// Nothing is known: the column will stand alone.
    Unset,
    /// The table of the column is known.
    TableName(PyTableName),
    /// The reference is worked out.
    ColumnRef(ColumnRef),
}

/// The mathematical form of a [`LazyColumnRef`].
pub enum LazyColumnModel {
    Unset,
    TableName(TableNameParts),
    ColumnRef(ColumnRefModel),
}

impl View for LazyColumnRef {
    type V = LazyColumnModel;

    open spec fn view(&self) -> LazyColumnModel {
        match self {
            LazyColumnRef::Unset => LazyColumnModel::Unset,
            LazyColumnRef::TableName(table) => LazyColumnModel::TableName(table@),
            LazyColumnRef::ColumnRef(reference) => LazyColumnModel::ColumnRef(reference@),
        }
    }
}

impl LazyColumnModel {
    /// The reference with the name of the column set anew, where it is
    /// worked out and names a column. Else nothing changes.
    pub open spec fn renamed(self, name: Seq<char>) -> LazyColumnModel {
        match self {
            LazyColumnModel::ColumnRef(ColumnRefModel::Column(_)) => LazyColumnModel::ColumnRef(
                ColumnRefModel::Column(name),
            ),
            LazyColumnModel::ColumnRef(ColumnRefModel::TableColumn(table, _)) =>
                LazyColumnModel::ColumnRef(ColumnRefModel::TableColumn(table, name)),
            LazyColumnModel::ColumnRef(ColumnRefModel::SchemaTableColumn(schema, table, _)) =>
                LazyColumnModel::ColumnRef(ColumnRefModel::SchemaTableColumn(schema, table, name)),
            _ => self,
        }
    }

    /// The reference to the column `name`: the one that is worked out, where
    /// there is one, whatever the name; else the column of the table that is
    /// known, with its schema where it has one; else the column alone.
    pub open spec fn resolved(self, name: Seq<char>) -> ColumnRefModel {
        match self {
            LazyColumnModel::Unset => ColumnRefModel::Column(name),
            LazyColumnModel::TableName(table) => match table.schema {
                Some(schema) => ColumnRefModel::SchemaTableColumn(schema, table.name, name),
                None => ColumnRefModel::TableColumn(table.name, name),
            },
            LazyColumnModel::ColumnRef(reference) => reference,
        }
    }
}

/// Once the reference is worked out, it stays what it is, whatever name it
/// is asked for.
pub proof fn resolved_once(lazy: LazyColumnModel, first: Seq<char>, second: Seq<char>)
    ensures
        LazyColumnModel::ColumnRef(lazy.resolved(first)).resolved(second) == lazy.resolved(first),
{
}

impl LazyColumnRef {
    /// A copy.
    pub fn clone_ref(&self) -> (r: Self)
        ensures
            r@ == self@,
    {
        match self {
            LazyColumnRef::Unset => LazyColumnRef::Unset,
            LazyColumnRef::ColumnRef(reference) => LazyColumnRef::ColumnRef(reference.duplicate()),
            LazyColumnRef::TableName(table) => LazyColumnRef::TableName(table.copy()),
        }
    }

    /// Sets the name of the column anew, where the reference is worked out
    /// and names a column.
    pub fn set_name(&mut self, name: &str)
        ensures
            final(self)@ == old(self)@.renamed(name@),
    {
        let renamed = match &*self {
            LazyColumnRef::ColumnRef(ColumnRef::Column(_)) => Some(ColumnRef::Column(owned(name))),
            LazyColumnRef::ColumnRef(ColumnRef::TableColumn(table, _)) => Some(
                ColumnRef::TableColumn(table.clone(), owned(name)),
            ),
            LazyColumnRef::ColumnRef(ColumnRef::SchemaTableColumn(schema, table, _)) => Some(
                ColumnRef::SchemaTableColumn(schema.clone(), table.clone(), owned(name)),
            ),
            _ => None,
        };
        match renamed {
            Some(reference) => {
                *self = LazyColumnRef::ColumnRef(reference);
            },
            None => {},
        }
    }

    /// The reference to the column `name`. It is worked out when it is
    /// first asked for, and kept.
    pub fn with_name(&mut self, name: &str) -> (r: ColumnRef)
        ensures
            r@ == old(self)@.resolved(name@),
            final(self)@ == LazyColumnModel::ColumnRef(r@),
    {
        let reference = match &*self {
            LazyColumnRef::Unset => ColumnRef::Column(owned(name)),
            LazyColumnRef::TableName(table) => match &table.schema {
                Some(schema) => ColumnRef::SchemaTableColumn(
                    schema.clone(),
                    table.name.clone(),
                    owned(name),
                ),
                None => ColumnRef::TableColumn(table.name.clone(), owned(name)),
            },
            LazyColumnRef::ColumnRef(reference) => reference.duplicate(),
        };
        *self = LazyColumnRef::ColumnRef(reference.duplicate());
        reference
    }
}

/// The length of a character or binary column.
#[derive(Clone, Copy, Debug, PartialEq, Eq, Structural)]
pub enum StringLen {
    /// A length in characters or bytes.
    N(u32),
    /// The greatest length that the database has.
    Max,
    /// No length is declared.
    Unbounded,
}

/// The fields of an interval column.
#[derive(Clone, Copy, Debug, PartialEq, Eq, Structural)]
pub enum PgInterval {
    Year,
    Month,
    Day,
    Hour,
    Minute,
    Second,
    YearToMonth,
    DayToHour,
    DayToMinute,
    DayToSecond,
    HourToMinute,
    HourToSecond,
    MinuteToSecond,
}

/// The SQL type of a column, as the engine knows it.
#[derive(Debug, PartialEq, Eq)]
pub enum ColumnType {
    Char(Option<u32>),
    String(StringLen),
    Text,
    Blob,
    TinyInteger,
    SmallInteger,
    Integer,
    BigInteger,
    TinyUnsigned,
    SmallUnsigned,
    Unsigned,
    BigUnsigned,
    Float,
    Double,
    Decimal(Option<(u32, u32)>),
    DateTime,
    Timestamp,
    TimestampWithTimeZone,
    Time,
    Date,
    Year,
    Interval(Option<PgInterval>, Option<u32>),
    Binary(u32),
    VarBinary(StringLen),
    Bit(Option<u32>),
    VarBit(u32),
    Boolean,
    Money(Option<(u32, u32)>),
    Json,
    JsonBinary,
    Uuid,
    /// A type that only the database knows, by its name.
    Custom(String),
    /// An enumerated type, by its name and the names of its variants.
    Enum { name: String, variants: Vec<String> },
    /// An array with elements of the given type.
    Array(Box<ColumnType>),
    /// A vector of floating-point numbers, of the given dimension.
    Vector(Option<u32>),
    Cidr,
    Inet,
    MacAddr,
    LTree,
}

/// What a column type asks of a host value. Column types of one family take
/// the same host values and give the same kind of adapted value.
#[derive(Clone, Copy, Debug, PartialEq, Eq, Structural)]
pub enum ColumnFamily {
    Boolean,
    /// Integers of any width, and years: 64 signed bits.
    Signed,
    /// Unsigned integers of any width: 64 unsigned bits.
    Unsigned,
    /// Character types, and the types that the database reads from text.
    Text,
    /// Binary and bit types.
    Binary,
    /// Floating-point types.
    Real,
    /// Exact decimal types.
    Decimal,
    /// Dates with a time of day, with or without a time zone.
    DateTime,
    Time,
    Date,
    Json,
    Uuid,
    Enum,
    Array,
    Vector,
    Custom,
}

impl ColumnType {
    /// The family of the column type.
    pub open spec fn family_model(self) -> ColumnFamily {
        match self {
            ColumnType::Boolean => ColumnFamily::Boolean,
            ColumnType::TinyInteger
            | ColumnType::SmallInteger
            | ColumnType::Integer
            | ColumnType::BigInteger
            | ColumnType::Year => ColumnFamily::Signed,
            ColumnType::TinyUnsigned
            | ColumnType::SmallUnsigned
            | ColumnType::Unsigned
            | ColumnType::BigUnsigned => ColumnFamily::Unsigned,
            ColumnType::Char(_)
            | ColumnType::String(_)
            | ColumnType::Text
            | ColumnType::Interval(_, _)
            | ColumnType::Cidr
            | ColumnType::Inet
            | ColumnType::MacAddr
            | ColumnType::LTree => ColumnFamily::Text,
            ColumnType::Blob
            | ColumnType::Binary(_)
            | ColumnType::VarBinary(_)
            | ColumnType::Bit(_)
            | ColumnType::VarBit(_) => ColumnFamily::Binary,
            ColumnType::Float | ColumnType::Double => ColumnFamily::Real,
            ColumnType::Decimal(_) | ColumnType::Money(_) => ColumnFamily::Decimal,
            ColumnType::DateTime
            | ColumnType::Timestamp
            | ColumnType::TimestampWithTimeZone => ColumnFamily::DateTime,
            ColumnType::Time => ColumnFamily::Time,
            ColumnType::Date => ColumnFamily::Date,
            ColumnType::Json | ColumnType::JsonBinary => ColumnFamily::Json,
            ColumnType::Uuid => ColumnFamily::Uuid,
            ColumnType::Custom(_) => ColumnFamily::Custom,
            ColumnType::Enum { .. } => ColumnFamily::Enum,
            ColumnType::Array(_) => ColumnFamily::Array,
            ColumnType::Vector(_) => ColumnFamily::Vector,
        }
    }

    /// The family of the column type.
    pub fn family(&self) -> (r: ColumnFamily)
        ensures
            r == self.family_model(),
    {
        match self {
            ColumnType::Boolean => ColumnFamily::Boolean,
            ColumnType::TinyInteger
            | ColumnType::SmallInteger
            | ColumnType::Integer
            | ColumnType::BigInteger
            | ColumnType::Year => ColumnFamily::Signed,
            ColumnType::TinyUnsigned
            | ColumnType::SmallUnsigned
            | ColumnType::Unsigned
            | ColumnType::BigUnsigned => ColumnFamily::Unsigned,
            ColumnType::Char(_)
            | ColumnType::String(_)
            | ColumnType::Text
            | ColumnType::Interval(_, _)
            | ColumnType::Cidr
            | ColumnType::Inet
            | ColumnType::MacAddr
            | ColumnType::LTree => ColumnFamily::Text,
            ColumnType::Blob
            | ColumnType::Binary(_)
            | ColumnType::VarBinary(_)
            | ColumnType::Bit(_)
            | ColumnType::VarBit(_) => ColumnFamily::Binary,
            ColumnType::Float | ColumnType::Double => ColumnFamily::Real,
            ColumnType::Decimal(_) | ColumnType::Money(_) => ColumnFamily::Decimal,
            ColumnType::DateTime
            | ColumnType::Timestamp
            | ColumnType::TimestampWithTimeZone => ColumnFamily::DateTime,
            ColumnType::Time => ColumnFamily::Time,
            ColumnType::Date => ColumnFamily::Date,
            ColumnType::Json | ColumnType::JsonBinary => ColumnFamily::Json,
            ColumnType::Uuid => ColumnFamily::Uuid,
            ColumnType::Custom(_) => ColumnFamily::Custom,
            ColumnType::Enum { .. } => ColumnFamily::Enum,
            ColumnType::Array(_) => ColumnFamily::Array,
            ColumnType::Vector(_) => ColumnFamily::Vector,
        }
    }

    /// Whether values can be adapted to the column type: it is no custom
    /// type, nor an array of a type that is not supported.
    pub open spec fn supported(self) -> bool
        decreases self,
    {
        match self {
            ColumnType::Custom(_) => false,
            ColumnType::Array(element) => element.supported(),
            _ => true,
        }
    }

    /// Whether two column types are the same type: equal, with names and
    /// variants compared by their characters.
    pub open spec fn same(self, other: ColumnType) -> bool
        decreases self,
    {
        match (self, other) {
            (ColumnType::Custom(a), ColumnType::Custom(b)) => a@ == b@,
            (
                ColumnType::Enum { name: a, variants: v },
                ColumnType::Enum { name: b, variants: w },
            ) => {
                &&& a@ == b@
                &&& v.len() == w.len()
                &&& forall|i: int| 0 <= i < v.len() ==> (#[trigger] v[i])@ == w[i]@
            },
            (ColumnType::Array(a), ColumnType::Array(b)) => a.same(*b),
            (ColumnType::Custom(_), _)
            | (ColumnType::Enum { .. }, _)
            | (ColumnType::Array(_), _) => false,
            _ => self == other,
        }
    }

    /// Two column types that are the same type are supported alike.
    pub proof fn same_supported(self, other: ColumnType)
        requires
            self.same(other),
        ensures
            self.supported() == other.supported(),
            self.family_model() == other.family_model(),
        decreases self,
    {
        match (self, other) {
            (ColumnType::Array(a), ColumnType::Array(b)) => {
                a.same_supported(*b);
            },
            _ => {},
        }
    }

    /// A copy of the column type.
    pub fn duplicate(&self) -> (r: Self)
        ensures
            self.same(r),
        decreases self,
    {
        match self {
            ColumnType::Char(n) => ColumnType::Char(*n),
            ColumnType::String(n) => ColumnType::String(*n),
            ColumnType::Text => ColumnType::Text,
            ColumnType::Blob => ColumnType::Blob,
            ColumnType::TinyInteger => ColumnType::TinyInteger,
            ColumnType::SmallInteger => ColumnType::SmallInteger,
            ColumnType::Integer => ColumnType::Integer,
            ColumnType::BigInteger => ColumnType::BigInteger,
            ColumnType::TinyUnsigned => ColumnType::TinyUnsigned,
            ColumnType::SmallUnsigned => ColumnType::SmallUnsigned,
            ColumnType::Unsigned => ColumnType::Unsigned,
            ColumnType::BigUnsigned => ColumnType::BigUnsigned,
            ColumnType::Float => ColumnType::Float,
            ColumnType::Double => ColumnType::Double,
            ColumnType::Decimal(p) => ColumnType::Decimal(*p),
            ColumnType::DateTime => ColumnType::DateTime,
            ColumnType::Timestamp => ColumnType::Timestamp,
            ColumnType::TimestampWithTimeZone => ColumnType::TimestampWithTimeZone,
            ColumnType::Time => ColumnType::Time,
            ColumnType::Date => ColumnType::Date,
            ColumnType::Year => ColumnType::Year,
            ColumnType::Interval(f, p) => ColumnType::Interval(*f, *p),
            ColumnType::Binary(n) => ColumnType::Binary(*n),
            ColumnType::VarBinary(n) => ColumnType::VarBinary(*n),
            ColumnType::Bit(n) => ColumnType::Bit(*n),
            ColumnType::VarBit(n) => ColumnType::VarBit(*n),
            ColumnType::Boolean => ColumnType::Boolean,
            ColumnType::Money(p) => ColumnType::Money(*p),
            ColumnType::Json => ColumnType::Json,
            ColumnType::JsonBinary => ColumnType::JsonBinary,
            ColumnType::Uuid => ColumnType::Uuid,
            ColumnType::Custom(name) => ColumnType::Custom(name.clone()),
            ColumnType::Enum { name, variants } => {
                let mut copies: Vec<String> = Vec::new();
                let mut i: usize = 0;
                while i < variants.len()
                    invariant
                        0 <= i <= variants.len(),
                        copies.len() == i,
                        forall|j: int| 0 <= j < i ==> (#[trigger] variants[j])@ == copies[j]@,
                    decreases variants.len() - i,
                {
                    copies.push(variants[i].clone());
                    i = i + 1;
                }
                ColumnType::Enum { name: name.clone(), variants: copies }
            },
            ColumnType::Array(element) => ColumnType::Array(Box::new(element.duplicate())),
            ColumnType::Vector(n) => ColumnType::Vector(*n),
            ColumnType::Cidr => ColumnType::Cidr,
            ColumnType::Inet => ColumnType::Inet,
            ColumnType::MacAddr => ColumnType::MacAddr,
            ColumnType::LTree => ColumnType::LTree,
        }
    }

    /// Whether values can be adapted to the column type.
    pub fn is_supported(&self) -> (r: bool)
        ensures
            r == self.supported(),
        decreases self,
    {
        match self {
            ColumnType::Custom(_) => false,
            ColumnType::Array(element) => element.is_supported(),
            _ => true,
        }
    }
}

impl Clone for ColumnType {
    fn clone(&self) -> (r: Self)
        ensures
            self.same(r),
    {
        self.duplicate()
    }
}

} // verus!
