//! From a column type declaration to the column type.

use vstd::prelude::*;
use crate::text::{ascending, deduplicated, owned, sorted_texts, texts};
use super::{ColumnType, PgInterval, StringLen};

verus! {

/// The column types that are declared without a parameter.
#[derive(Clone, Copy, Debug, PartialEq, Eq, Structural)]
pub enum PlainColumn {
    TinyInteger,
    SmallInteger,
    Integer,
    BigInteger,
    TinyUnsigned,
    SmallUnsigned,
    Unsigned,
    BigUnsigned,
    Text,
    Float,
    Double,
    DateTime,
    Timestamp,
    TimestampWithTimeZone,
    Time,
    Date,
    Year,
    Blob,
    Boolean,
    Json,
    JsonBinary,
    Uuid,
    Cidr,
    Inet,
    MacAddr,
    LTree,
}

/// The column types that are declared with a length.
#[derive(Clone, Copy, Debug, PartialEq, Eq, Structural)]
pub enum SizedColumn {
    Char,
    String,
    Binary,
    VarBinary,
    Bit,
    VarBit,
    Vector,
}

/// The column types that are declared with a precision and a scale.
#[derive(Clone, Copy, Debug, PartialEq, Eq, Structural)]
pub enum ScaledColumn {
    Decimal,
    Money,
}

/// What the host gives where a column type is expected: one of the
/// declarations that the library offers, told apart by its exact runtime
/// type, or some other object.
#[derive(Debug, PartialEq, Eq)]
pub enum TypeDeclaration {
    /// An object that is no column type declaration.
    Foreign,
    Plain(PlainColumn),
    /// A declaration with a length, where 0 stands for none.
    Sized(SizedColumn, u32),
    /// A declaration with a precision and a scale, where a 0 in either
    /// stands for none.
    Scaled(ScaledColumn, u32, u32),
    Interval(Option<PgInterval>, Option<u32>),
    Enum { name: String, variants: Vec<String> },
    Array(Box<TypeDeclaration>),
}

/// The message for an enumerated type without variants.
pub open spec fn no_variants() -> Seq<char> {
    "variants cannot be empty"@
}

impl TypeDeclaration {
    /// Declares an enumerated type of the given name. It has to have a
    /// variant; the declaration holds the variants in ascending order, each
    /// once.
    pub fn enumeration(name: String, variants: Vec<String>) -> (r: Result<Self, String>)
        ensures
            match r {
                Ok(declaration) => {
                    &&& variants.len() > 0
                    &&& declaration matches TypeDeclaration::Enum { name: held_name, variants: held }
                        && {
                        &&& held_name@ == name@
                        &&& ascending(texts(held))
                        &&& forall|x: Seq<char>|
                            texts(held).contains(x) <==> texts(variants).contains(x)
                    }
                },
                Err(message) => variants.len() == 0 && message@ == no_variants(),
            },
    {
        if variants.len() == 0 {
            return Err(owned("variants cannot be empty"));
        }
        let held = deduplicated(sorted_texts(variants));
        Ok(TypeDeclaration::Enum { name, variants: held })
    }
}

/// The length that a declaration gives: none where it holds 0.
pub open spec fn declared_length(length: u32) -> Option<u32> {
    if length == 0 {
        None
    } else {
        Some(length)
    }
}

/// The column type of a declaration without a parameter.
pub open spec fn plain_type(column: PlainColumn) -> ColumnType {
    match column {
        PlainColumn::TinyInteger => ColumnType::TinyInteger,
        PlainColumn::SmallInteger => ColumnType::SmallInteger,
        PlainColumn::Integer => ColumnType::Integer,
        PlainColumn::BigInteger => ColumnType::BigInteger,
        PlainColumn::TinyUnsigned => ColumnType::TinyUnsigned,
        PlainColumn::SmallUnsigned => ColumnType::SmallUnsigned,
        PlainColumn::Unsigned => ColumnType::Unsigned,
        PlainColumn::BigUnsigned => ColumnType::BigUnsigned,
        PlainColumn::Text => ColumnType::Text,
        PlainColumn::Float => ColumnType::Float,
        PlainColumn::Double => ColumnType::Double,
        PlainColumn::DateTime => ColumnType::DateTime,
        PlainColumn::Timestamp => ColumnType::Timestamp,
        PlainColumn::TimestampWithTimeZone => ColumnType::TimestampWithTimeZone,
        PlainColumn::Time => ColumnType::Time,
        PlainColumn::Date => ColumnType::Date,
        PlainColumn::Year => ColumnType::Year,
        PlainColumn::Blob => ColumnType::Blob,
        PlainColumn::Boolean => ColumnType::Boolean,
        PlainColumn::Json => ColumnType::Json,
        PlainColumn::JsonBinary => ColumnType::JsonBinary,
        PlainColumn::Uuid => ColumnType::Uuid,
        PlainColumn::Cidr => ColumnType::Cidr,
        PlainColumn::Inet => ColumnType::Inet,
        PlainColumn::MacAddr => ColumnType::MacAddr,
        PlainColumn::LTree => ColumnType::LTree,
    }
}

/// The column type of a declaration with a length. Fixed-width binary and
/// variable-width bit columns have length 1 where none is declared; the
/// character and variable-width binary columns are then unbounded.
pub open spec fn sized_type(column: SizedColumn, length: u32) -> ColumnType {
    let declared = declared_length(length);
    let string_len = match declared {
        Some(n) => StringLen::N(n),
        None => StringLen::Unbounded,
    };
    let or_one: u32 = match declared {
        Some(n) => n,
        None => 1,
    };
    match column {
        SizedColumn::Char => ColumnType::Char(declared),
        SizedColumn::String => ColumnType::String(string_len),
        SizedColumn::Binary => ColumnType::Binary(or_one),
        SizedColumn::VarBinary => ColumnType::VarBinary(string_len),
        SizedColumn::Bit => ColumnType::Bit(declared),
        SizedColumn::VarBit => ColumnType::VarBit(or_one),
        SizedColumn::Vector => ColumnType::Vector(declared),
    }
}

/// The column type of a declaration with a precision and a scale: they
/// count only where neither is 0.
pub open spec fn scaled_type(column: ScaledColumn, precision: u32, scale: u32) -> ColumnType {
    let declared = if precision == 0 || scale == 0 {
        None
    } else {
        Some((precision, scale))
    };
    match column {
        ScaledColumn::Decimal => ColumnType::Decimal(declared),
        ScaledColumn::Money => ColumnType::Money(declared),
    }
}

/// Whether the declaration is one of a column type: it is no foreign object,
/// nor an array of one.
pub open spec fn declares(declaration: TypeDeclaration) -> bool
    decreases declaration,
{
    match declaration {
        TypeDeclaration::Foreign => false,
        TypeDeclaration::Array(element) => declares(*element),
        _ => true,
    }
}

/// The column type that a declaration declares. Of an object that declares
/// none it says nothing that matters.
pub open spec fn declared_type(declaration: TypeDeclaration) -> ColumnType
    decreases declaration,
{
    match declaration {
        TypeDeclaration::Foreign => ColumnType::Text,
        TypeDeclaration::Plain(column) => plain_type(column),
        TypeDeclaration::Sized(column, length) => sized_type(column, length),
        TypeDeclaration::Scaled(column, precision, scale) => scaled_type(column, precision, scale),
        TypeDeclaration::Interval(fields, precision) => ColumnType::Interval(fields, precision),
        TypeDeclaration::Enum { name, variants } => ColumnType::Enum { name, variants },
        TypeDeclaration::Array(element) => ColumnType::Array(Box::new(declared_type(*element))),
    }
}

/// The column type that a declaration declares, and `None` for an object
/// that declares none.
pub fn convert_to_column_type(declaration: &TypeDeclaration) -> (r: Option<ColumnType>)
    ensures
        r is Some <==> declares(*declaration),
        r matches Some(ty) ==> declared_type(*declaration).same(ty),
    decreases declaration,
{
    match declaration {
        TypeDeclaration::Foreign => None,
        TypeDeclaration::Plain(column) => Some(
            match column {
                PlainColumn::TinyInteger => ColumnType::TinyInteger,
                PlainColumn::SmallInteger => ColumnType::SmallInteger,
                PlainColumn::Integer => ColumnType::Integer,
                PlainColumn::BigInteger => ColumnType::BigInteger,
                PlainColumn::TinyUnsigned => ColumnType::TinyUnsigned,
                PlainColumn::SmallUnsigned => ColumnType::SmallUnsigned,
                PlainColumn::Unsigned => ColumnType::Unsigned,
                PlainColumn::BigUnsigned => ColumnType::BigUnsigned,
                PlainColumn::Text => ColumnType::Text,
                PlainColumn::Float => ColumnType::Float,
                PlainColumn::Double => ColumnType::Double,
                PlainColumn::DateTime => ColumnType::DateTime,
                PlainColumn::Timestamp => ColumnType::Timestamp,
                PlainColumn::TimestampWithTimeZone => ColumnType::TimestampWithTimeZone,
                PlainColumn::Time => ColumnType::Time,
                PlainColumn::Date => ColumnType::Date,
                PlainColumn::Year => ColumnType::Year,
                PlainColumn::Blob => ColumnType::Blob,
                PlainColumn::Boolean => ColumnType::Boolean,
                PlainColumn::Json => ColumnType::Json,
                PlainColumn::JsonBinary => ColumnType::JsonBinary,
                PlainColumn::Uuid => ColumnType::Uuid,
                PlainColumn::Cidr => ColumnType::Cidr,
                PlainColumn::Inet => ColumnType::Inet,
                PlainColumn::MacAddr => ColumnType::MacAddr,
                PlainColumn::LTree => ColumnType::LTree,
            },
        ),
        TypeDeclaration::Sized(column, length) => {
            let declared: Option<u32> = if *length == 0 {
                None
            } else {
                Some(*length)
            };
            let string_len = match declared {
                Some(n) => StringLen::N(n),
                None => StringLen::Unbounded,
            };
            let or_one: u32 = match declared {
                Some(n) => n,
                None => 1,
            };
            Some(
                match column {
                    SizedColumn::Char => ColumnType::Char(declared),
                    SizedColumn::String => ColumnType::String(string_len),
                    SizedColumn::Binary => ColumnType::Binary(or_one),
                    SizedColumn::VarBinary => ColumnType::VarBinary(string_len),
                    SizedColumn::Bit => ColumnType::Bit(declared),
                    SizedColumn::VarBit => ColumnType::VarBit(or_one),
                    SizedColumn::Vector => ColumnType::Vector(declared),
                },
            )
        },
        TypeDeclaration::Scaled(column, precision, scale) => {
            let declared: Option<(u32, u32)> = if *precision == 0 || *scale == 0 {
                None
            } else {
                Some((*precision, *scale))
            };
            Some(
                match column {
                    ScaledColumn::Decimal => ColumnType::Decimal(declared),
                    ScaledColumn::Money => ColumnType::Money(declared),
                },
            )
        },
        TypeDeclaration::Interval(fields, precision) => Some(
            ColumnType::Interval(*fields, *precision),
        ),
        TypeDeclaration::Enum { name, variants } => {
            let mut copies: Vec<String> = Vec::new();
            let mut i: usize = 0;
            while i < variants.len()
                invariant
                    0 <= i <= variants.len(),
                    copies.len() == i,
                    forall|j: int| 0 <= j < i ==> (#[trigger] copies[j])@ == variants[j]@,
                decreases variants.len() - i,
            {
                copies.push(variants[i].clone());
                i = i + 1;
            }
            Some(ColumnType::Enum { name: name.clone(), variants: copies })
        },
        TypeDeclaration::Array(element) => match convert_to_column_type(element) {
            Some(inner) => Some(ColumnType::Array(Box::new(inner))),
            None => None,
        },
    }
}

/// A declared column type is never a custom type, so values can be adapted
/// to it.
pub proof fn declared_types_are_supported(declaration: TypeDeclaration)
    requires
        declares(declaration),
    ensures
        declared_type(declaration).supported(),
    decreases declaration,
{
    match declaration {
        TypeDeclaration::Array(element) => {
            declared_types_are_supported(*element);
        },
        TypeDeclaration::Sized(column, length) => {},
        TypeDeclaration::Scaled(column, precision, scale) => {},
        TypeDeclaration::Plain(column) => {},
        _ => {},
    }
}

} // verus!
