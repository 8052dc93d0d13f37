//! The values of the SQL builder, as the library reads them.
//!
//! The SQL builder has a value type of its own, with a null for every type
//! and with types that the library does not hold. A [`Value`] is a record of
//! such a value: what it holds where the library holds values of its type,
//! and no more than its type where it is a null or of another type.

use vstd::prelude::*;
use vstd::string::*;
use vstd::utf8::{decode_utf8, decode_utf8_encode_utf8, encode_utf8, encode_utf8_valid_utf8};
use crate::calendar::{Date, EngineDateTime, EngineTime, EngineZoned};
use crate::decimal::EngineDecimal;
use crate::host::copy_items;
use super::model::{engine_valid, EngineModel};
use super::serialize::{engine_models, string_of_utf8, RustValue};

verus! {

/// The types of the values of the SQL builder.
#[derive(Clone, Copy, Debug, PartialEq, Eq, Structural)]
pub enum ValueType {
    Bool,
    TinyInt,
    SmallInt,
    Int,
    BigInt,
    TinyUnsigned,
    SmallUnsigned,
    Unsigned,
    BigUnsigned,
    Float,
    Double,
    String,
    Char,
    Bytes,
    Json,
    ChronoDate,
    ChronoTime,
    ChronoDateTime,
    ChronoDateTimeUtc,
    ChronoDateTimeLocal,
    ChronoDateTimeWithTimeZone,
    Uuid,
    Decimal,
    Array,
    Vector,
    IpNetwork,
    MacAddress,
}

/// A value of the SQL builder.
#[derive(Debug, PartialEq, Eq)]
pub enum Value {
    /// The null of a type.
    Null(ValueType),
    Bool(bool),
    BigInt(i64),
    BigUnsigned(u64),
    /// A double-precision number, by its bit pattern.
    Double(u64),
    String(String),
    Bytes(Vec<u8>),
    /// A JSON document, by its compact text.
    Json(String),
    ChronoDate(Date),
    ChronoTime(EngineTime),
    ChronoDateTime(EngineDateTime),
    ChronoDateTimeWithTimeZone(EngineZoned),
    Uuid(u128),
    Decimal(EngineDecimal),
    /// An array, with the type of its elements as the builder has it.
    Array(ValueType, Vec<Value>),
    /// A vector of single-precision numbers, by their bit patterns.
    Vector(Vec<u32>),
    /// A value, not a null, of a type of which the library holds no values.
    Other(ValueType),
}

/// The mathematical form of a [`Value`].
pub enum ValueModel {
    Null(ValueType),
    Bool(bool),
    BigInt(i64),
    BigUnsigned(u64),
    Double(u64),
    String(Seq<char>),
    Bytes(Seq<u8>),
    Json(Seq<char>),
    ChronoDate(Date),
    ChronoTime(EngineTime),
    ChronoDateTime(EngineDateTime),
    ChronoDateTimeWithTimeZone(EngineZoned),
    Uuid(u128),
    Decimal(EngineDecimal),
    Array(ValueType, Seq<ValueModel>),
    Vector(Seq<u32>),
    Other(ValueType),
}

/// The mathematical form of a value of the builder.
pub open spec fn value_model(value: Value) -> ValueModel
    decreases value,
{
    match value {
        Value::Null(t) => ValueModel::Null(t),
        Value::Bool(b) => ValueModel::Bool(b),
        Value::BigInt(x) => ValueModel::BigInt(x),
        Value::BigUnsigned(x) => ValueModel::BigUnsigned(x),
        Value::Double(bits) => ValueModel::Double(bits),
        Value::String(s) => ValueModel::String(s@),
        Value::Bytes(bytes) => ValueModel::Bytes(bytes@),
        Value::Json(document) => ValueModel::Json(document@),
        Value::ChronoDate(d) => ValueModel::ChronoDate(d),
        Value::ChronoTime(t) => ValueModel::ChronoTime(t),
        Value::ChronoDateTime(dt) => ValueModel::ChronoDateTime(dt),
        Value::ChronoDateTimeWithTimeZone(z) => ValueModel::ChronoDateTimeWithTimeZone(z),
        Value::Uuid(u) => ValueModel::Uuid(u),
        Value::Decimal(d) => ValueModel::Decimal(d),
        Value::Array(t, items) => ValueModel::Array(t, value_models(items)),
        Value::Vector(singles) => ValueModel::Vector(singles@),
        Value::Other(t) => ValueModel::Other(t),
    }
}

/// The mathematical form of a list of values of the builder.
pub open spec fn value_models(values: Vec<Value>) -> Seq<ValueModel>
    decreases values,
{
    Seq::new(
        values.len() as nat,
        |i: int|
            if 0 <= i < values.len() {
                value_model(values[i])
            } else {
                ValueModel::Null(ValueType::BigInt)
            },
    )
}

impl View for Value {
    type V = ValueModel;

    open spec fn view(&self) -> ValueModel {
        value_model(*self)
    }
}

/// Whether the library holds the value: it is of none of the other types,
/// and no array with such a value in it.
pub open spec fn held(value: ValueModel) -> bool
    decreases value,
{
    match value {
        ValueModel::Other(_) => false,
        ValueModel::Array(_, items) => forall|i: int|
            0 <= i < items.len() ==> held(#[trigger] items[i]),
        _ => true,
    }
}

/// The engine value of the library for a value of the builder. Every null of
/// the builder is the one null of the library, whatever its type, and the
/// type of the elements of an array is dropped.
pub open spec fn engine_of(value: ValueModel) -> EngineModel
    decreases value,
{
    match value {
        ValueModel::Null(_) => EngineModel::Null,
        ValueModel::Bool(b) => EngineModel::Bool(b),
        ValueModel::BigInt(x) => EngineModel::BigInt(x),
        ValueModel::BigUnsigned(x) => EngineModel::BigUnsigned(x),
        ValueModel::Double(bits) => EngineModel::Double(bits),
        ValueModel::String(s) => EngineModel::String(encode_utf8(s)),
        ValueModel::Bytes(b) => EngineModel::Bytes(b),
        ValueModel::Json(document) => EngineModel::Json(document),
        ValueModel::ChronoDate(d) => EngineModel::ChronoDate(d),
        ValueModel::ChronoTime(t) => EngineModel::ChronoTime(t),
        ValueModel::ChronoDateTime(dt) => EngineModel::ChronoDateTime(dt),
        ValueModel::ChronoDateTimeWithTimeZone(z) => EngineModel::ChronoDateTimeWithTimeZone(z),
        ValueModel::Uuid(u) => EngineModel::Uuid(u),
        ValueModel::Decimal(d) => EngineModel::Decimal(d),
        ValueModel::Array(_, items) => EngineModel::Array(engine_of_each(items)),
        ValueModel::Vector(singles) => EngineModel::Vector(singles),
        ValueModel::Other(_) => EngineModel::Null,
    }
}

/// [`engine_of`] for each item of an array.
pub open spec fn engine_of_each(items: Seq<ValueModel>) -> Seq<EngineModel>
    decreases items,
{
    Seq::new(
        items.len(),
        |i: int|
            if 0 <= i < items.len() {
                engine_of(items[i])
            } else {
                EngineModel::Null
            },
    )
}

/// The value of the builder for an engine value of the library. The null of
/// the library is the builder's null of a 64-bit integer, and the elements
/// of an array count as 64-bit integers, whatever they are: the builder
/// asks for a type and makes no use of it here.
pub open spec fn builder_of(value: EngineModel) -> ValueModel
    decreases value,
{
    match value {
        EngineModel::Null => ValueModel::Null(ValueType::BigInt),
        EngineModel::Bool(b) => ValueModel::Bool(b),
        EngineModel::BigInt(x) => ValueModel::BigInt(x),
        EngineModel::BigUnsigned(x) => ValueModel::BigUnsigned(x),
        EngineModel::Double(bits) => ValueModel::Double(bits),
        EngineModel::String(bytes) => ValueModel::String(decode_utf8(bytes)),
        EngineModel::Bytes(b) => ValueModel::Bytes(b),
        EngineModel::Json(document) => ValueModel::Json(document),
        EngineModel::ChronoDate(d) => ValueModel::ChronoDate(d),
        EngineModel::ChronoTime(t) => ValueModel::ChronoTime(t),
        EngineModel::ChronoDateTime(dt) => ValueModel::ChronoDateTime(dt),
        EngineModel::ChronoDateTimeWithTimeZone(z) => ValueModel::ChronoDateTimeWithTimeZone(z),
        EngineModel::Uuid(u) => ValueModel::Uuid(u),
        EngineModel::Decimal(d) => ValueModel::Decimal(d),
        EngineModel::Array(items) => ValueModel::Array(ValueType::BigInt, builder_of_each(items)),
        EngineModel::Vector(singles) => ValueModel::Vector(singles),
    }
}

/// [`builder_of`] for each item of an array.
pub open spec fn builder_of_each(items: Seq<EngineModel>) -> Seq<ValueModel>
    decreases items,
{
    Seq::new(
        items.len(),
        |i: int|
            if 0 <= i < items.len() {
                builder_of(items[i])
            } else {
                ValueModel::Null(ValueType::BigInt)
            },
    )
}

/// An engine value that the engine can hold, handed to the builder and
/// taken back, is the value that it was; and the builder gets nothing but
/// values that the library holds.
pub proof fn builder_round_trip(value: EngineModel)
    requires
        engine_valid(value),
    ensures
        held(builder_of(value)),
        engine_of(builder_of(value)) == value,
    decreases value,
{
    match value {
        EngineModel::String(bytes) => {
            decode_utf8_encode_utf8(bytes);
        },
        EngineModel::Array(items) => {
            assert forall|i: int| 0 <= i < items.len() implies held(
                #[trigger] builder_of_each(items)[i],
            ) && engine_of(builder_of(items[i])) == items[i] by {
                builder_round_trip(items[i]);
            }
            assert(engine_of_each(builder_of_each(items)) =~= items);
        },
        _ => {},
    }
}

/// What the library takes from the builder, it can hold, where the builder's
/// dates, times and decimals exist, as the builder's own types see to.
pub open spec fn sound(value: ValueModel) -> bool
    decreases value,
{
    match value {
        ValueModel::ChronoDate(d) => d.valid(),
        ValueModel::ChronoTime(t) => t.valid(),
        ValueModel::ChronoDateTime(dt) => dt.valid(),
        ValueModel::ChronoDateTimeWithTimeZone(z) => z.valid(),
        ValueModel::Decimal(d) => d.valid(),
        ValueModel::Array(_, items) => forall|i: int|
            0 <= i < items.len() ==> sound(#[trigger] items[i]),
        _ => true,
    }
}

/// A sound value of the builder gives an engine value that the engine can
/// hold.
pub proof fn sound_values_are_valid(value: ValueModel)
    requires
        sound(value),
    ensures
        engine_valid(engine_of(value)),
    decreases value,
{
    match value {
        ValueModel::String(s) => {
            encode_utf8_valid_utf8(s);
        },
        ValueModel::Array(_, items) => {
            assert forall|i: int| 0 <= i < items.len() implies engine_valid(
                #[trigger] engine_of_each(items)[i],
            ) by {
                sound_values_are_valid(items[i]);
            }
            assert(engine_valid(EngineModel::Array(engine_of_each(items))));
        },
        _ => {},
    }
}

impl Value {
    /// Whether the library holds the value.
    pub fn is_held(&self) -> (r: bool)
        ensures
            r == held(self@),
        decreases self,
    {
        match self {
            Value::Other(_) => false,
            Value::Array(_, items) => {
                let mut i: usize = 0;
                while i < items.len()
                    invariant
                        self is Array,
                        self->Array_1 == *items,
                        0 <= i <= items.len(),
                        forall|j: int| 0 <= j < i ==> held(#[trigger] value_models(*items)[j]),
                    decreases items.len() - i,
                {
                    assert(value_models(*items)[i as int] == items[i as int]@);
                    if !items[i].is_held() {
                        assert(self@ == ValueModel::Array(self->Array_0, value_models(*items)));
                        assert(!held(self@->Array_1[i as int]));
                        return false;
                    }
                    i = i + 1;
                }
                assert(held(ValueModel::Array(self->Array_0, value_models(*items))));
                true
            },
            _ => true,
        }
    }

    /// The value of the builder for an engine value of the library.
    pub fn from(value: &RustValue) -> (r: Value)
        requires
            value.wf(),
        ensures
            r@ == builder_of(value@),
        decreases value,
    {
        match value {
            RustValue::Null => Value::Null(ValueType::BigInt),
            RustValue::Bool(x) => Value::Bool(*x),
            RustValue::BigInt(x) => Value::BigInt(*x),
            RustValue::BigUnsigned(x) => Value::BigUnsigned(*x),
            RustValue::Double(x) => Value::Double(*x),
            RustValue::String(x) => Value::String(string_of_utf8(copy_items(x))),
            RustValue::Bytes(x) => Value::Bytes(copy_items(x)),
            RustValue::Json(x) => Value::Json(x.clone()),
            RustValue::ChronoDate(x) => Value::ChronoDate(*x),
            RustValue::ChronoTime(x) => Value::ChronoTime(*x),
            RustValue::ChronoDateTime(x) => Value::ChronoDateTime(*x),
            RustValue::ChronoDateTimeWithTimeZone(x) => Value::ChronoDateTimeWithTimeZone(*x),
            RustValue::Uuid(x) => Value::Uuid(*x),
            RustValue::Decimal(x) => Value::Decimal(*x),
            RustValue::Array(items) => {
                let mut out: Vec<Value> = Vec::new();
                let mut i: usize = 0;
                while i < items.len()
                    invariant
                        value is Array,
                        value->Array_0 == *items,
                        value.wf(),
                        0 <= i <= items.len(),
                        out.len() == i,
                        forall|j: int| 0 <= j < i ==> out[j]@ == builder_of(items[j]@),
                    decreases items.len() - i,
                {
                    proof {
                        assert(value@ == EngineModel::Array(engine_models(*items)));
                        assert(engine_models(*items)[i as int] == items[i as int]@);
                        assert(engine_valid(value@->Array_0[i as int]));
                    }
                    let item = Value::from(&items[i]);
                    out.push(item);
                    i = i + 1;
                }
                assert(value_models(out) =~= builder_of_each(engine_models(*items)));
                Value::Array(ValueType::BigInt, out)
            },
            RustValue::Vector(singles) => Value::Vector(copy_items(singles)),
        }
    }
}

impl RustValue {
    /// The engine value of the library for a value of the builder that the
    /// library holds.
    pub fn from(value: &Value) -> (r: RustValue)
        requires
            held(value@),
        ensures
            r@ == engine_of(value@),
            sound(value@) ==> r.wf(),
        decreases value,
    {
        proof {
            if sound(value@) {
                sound_values_are_valid(value@);
            }
        }
        match value {
            Value::Null(_) => RustValue::Null,
            Value::Bool(x) => RustValue::Bool(*x),
            Value::BigInt(x) => RustValue::BigInt(*x),
            Value::BigUnsigned(x) => RustValue::BigUnsigned(*x),
            Value::Double(x) => RustValue::Double(*x),
            Value::String(x) => RustValue::String(x.as_str().as_bytes_vec()),
            Value::Bytes(x) => RustValue::Bytes(copy_items(x)),
            Value::Json(x) => RustValue::Json(x.clone()),
            Value::ChronoDate(x) => RustValue::ChronoDate(*x),
            Value::ChronoTime(x) => RustValue::ChronoTime(*x),
            Value::ChronoDateTime(x) => RustValue::ChronoDateTime(*x),
            Value::ChronoDateTimeWithTimeZone(x) => RustValue::ChronoDateTimeWithTimeZone(*x),
            Value::Uuid(x) => RustValue::Uuid(*x),
            Value::Decimal(x) => RustValue::Decimal(*x),
            Value::Array(_, items) => {
                let mut out: Vec<RustValue> = Vec::new();
                let mut i: usize = 0;
                while i < items.len()
                    invariant
                        value is Array,
                        value->Array_1 == *items,
                        held(value@),
                        0 <= i <= items.len(),
                        out.len() == i,
                        forall|j: int| 0 <= j < i ==> out[j]@ == engine_of(items[j]@),
                    decreases items.len() - i,
                {
                    proof {
                        assert(value@ == ValueModel::Array(value->Array_0, value_models(*items)));
                        assert(value_models(*items)[i as int] == items[i as int]@);
                        assert(held(value@->Array_1[i as int]));
                    }
                    let item = RustValue::from(&items[i]);
                    out.push(item);
                    i = i + 1;
                }
                assert(engine_models(out) =~= engine_of_each(value_models(*items)));
                RustValue::Array(out)
            },
            Value::Vector(singles) => RustValue::Vector(copy_items(singles)),
            Value::Other(_) => vstd::pervasive::unreached(),
        }
    }
}

} // verus!
