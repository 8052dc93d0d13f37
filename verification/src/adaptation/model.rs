//! The mathematical forms of the adapted values, and what each conversion
//! between them comes to.

use vstd::prelude::*;
use vstd::utf8::{decode_utf8, encode_utf8, valid_utf8};
use crate::bits::{doubles_equal, singles_equal, widen_model};
use crate::calendar::{
    instant_exists, offset_exists, same_instant, Date, EngineDateTime, EngineTime, EngineZoned,
    HostDateTime, HostTime, HostZone,
};
use crate::column::convert::{declared_type, declares, TypeDeclaration};
use crate::column::{ColumnFamily, ColumnType};
use crate::decimal::{decimal_of_text, decimal_text, decimals_equal, EngineDecimal};
use crate::error::{ErrorModel, ExpectedType, ExtractionFailure};
use crate::host::{HostInt, HostJsonModel, HostKindModel, HostModel, HostReal};
use super::common::{documents_equal, json_canonical, json_equal, json_probe};

verus! {

/// The mathematical form of a value on the host's side.
pub enum DynModel {
    Null,
    Bool(bool),
    BigInt(i64),
    BigUnsigned(u64),
    Double(u64),
    String(Seq<char>),
    Bytes(Seq<u8>),
    Json(HostModel),
    ChronoDate(Date),
    ChronoTime(HostTime),
    ChronoDateTime(HostDateTime),
    Uuid(u128),
    Decimal(Seq<char>),
    Array(Seq<DynModel>),
    Vector(Seq<HostModel>),
}

/// The mathematical form of a value on the engine's side.
pub enum EngineModel {
    Null,
    Bool(bool),
    BigInt(i64),
    BigUnsigned(u64),
    Double(u64),
    String(Seq<u8>),
    Bytes(Seq<u8>),
    Json(Seq<char>),
    ChronoDate(Date),
    ChronoTime(EngineTime),
    ChronoDateTime(EngineDateTime),
    ChronoDateTimeWithTimeZone(EngineZoned),
    Uuid(u128),
    Decimal(EngineDecimal),
    Array(Seq<EngineModel>),
    Vector(Seq<u32>),
}

/// The outcomes of converting the items of a sequence one after the other:
/// all the results in order where every item converts, else the error of the
/// first item that does not.
pub open spec fn collect<T>(results: Seq<Result<T, ErrorModel>>) -> Result<Seq<T>, ErrorModel>
    decreases results.len(),
{
    if results.len() == 0 {
        Ok(Seq::empty())
    } else {
        match collect(results.drop_last()) {
            Err(e) => Err(e),
            Ok(items) => match results.last() {
                Err(e) => Err(e),
                Ok(v) => Ok(items.push(v)),
            },
        }
    }
}

/// One more item after a prefix: the prefix's error stands, else the item's
/// outcome decides.
pub proof fn collect_step<T>(results: Seq<Result<T, ErrorModel>>, i: int)
    requires
        0 <= i < results.len(),
    ensures
        collect(results.take(i + 1)) == (match collect(results.take(i)) {
            Err(e) => Err(e),
            Ok(items) => match results[i] {
                Err(e) => Err(e),
                Ok(v) => Ok(items.push(v)),
            },
        }),
{
    assert(results.take(i + 1).drop_last() == results.take(i));
    assert(results.take(i + 1).last() == results[i]);
}

/// The empty prefix converts to nothing, and the whole sequence is its own
/// longest prefix.
pub proof fn collect_ends<T>(results: Seq<Result<T, ErrorModel>>)
    ensures
        collect(results.take(0)) == Ok::<Seq<T>, ErrorModel>(Seq::empty()),
        collect(results.take(results.len() as int)) == collect(results),
{
    assert(results.take(results.len() as int) == results);
}

/// Once a prefix has failed, its error is the error of the whole.
pub proof fn collect_err<T>(results: Seq<Result<T, ErrorModel>>, k: int)
    requires
        0 <= k <= results.len(),
        collect(results.take(k)) is Err,
    ensures
        collect(results) == collect(results.take(k)),
    decreases results.len() - k,
{
    if k < results.len() {
        collect_step(results, k);
        collect_err(results, k + 1);
    } else {
        assert(results.take(k) == results);
    }
}

/// Where every item converts, the results stand item for item.
pub proof fn collect_ok<T>(results: Seq<Result<T, ErrorModel>>)
    ensures
        match collect(results) {
            Ok(items) => {
                &&& items.len() == results.len()
                &&& forall|i: int| 0 <= i < results.len() ==> results[i] == Ok::<T, ErrorModel>(items[i])
            },
            Err(e) => exists|k: int|
                {
                    &&& 0 <= k < results.len()
                    &&& results[k] == Err::<T, ErrorModel>(e)
                    &&& forall|j: int| 0 <= j < k ==> (#[trigger] results[j]) is Ok
                },
        },
    decreases results.len(),
{
    if results.len() > 0 {
        collect_ok(results.drop_last());
        let front = results.drop_last();
        match collect(front) {
            Err(e) => {
                let k = choose|k: int|
                    {
                        &&& 0 <= k < front.len()
                        &&& front[k] == Err::<T, ErrorModel>(e)
                        &&& forall|j: int| 0 <= j < k ==> (#[trigger] front[j]) is Ok
                    };
                assert(results[k] == front[k]);
                assert forall|j: int| 0 <= j < k implies (#[trigger] results[j]) is Ok by {
                    assert(results[j] == front[j]);
                }
            },
            Ok(items) => {
                match results.last() {
                    Err(e) => {
                        let k = results.len() - 1;
                        assert forall|j: int| 0 <= j < k implies (#[trigger] results[j]) is Ok by {
                            assert(results[j] == front[j]);
                        }
                    },
                    Ok(v) => {
                        let all = items.push(v);
                        assert forall|i: int| 0 <= i < results.len() implies results[i] == Ok::<
                            T,
                            ErrorModel,
                        >(all[i]) by {
                            if i < front.len() {
                                assert(results[i] == front[i]);
                            }
                        }
                    },
                }
            },
        }
    }
}

/// The error of a host value whose runtime type is not the expected one.
pub open spec fn mismatch(expected: ExpectedType, object: HostModel) -> ErrorModel {
    ErrorModel::TypeMismatch { expected, actual: object.kind.qualified_name() }
}

/// The time of day that the engine holds for a host time.
pub open spec fn engine_time(t: HostTime) -> EngineTime {
    EngineTime {
        hour: t.hour,
        minute: t.minute,
        second: t.second,
        nanosecond: (t.microsecond * 1000) as u32,
    }
}

/// The engine's value for a host datetime. A datetime without a time zone
/// becomes a naive one; one at a fixed offset keeps its local time and the
/// offset. The time zone is looked at first, then the day, then the time of
/// day, and last whether the instant lies in the engine's calendar.
pub open spec fn datetime_to_engine(dt: HostDateTime) -> Result<EngineModel, ErrorModel> {
    let local = EngineDateTime { date: dt.date, time: engine_time(dt.time) };
    match dt.zone {
        HostZone::Variable => Err(ErrorModel::Extraction(ExtractionFailure::VariableOffset)),
        HostZone::Fixed(offset) if !offset_exists(offset as int) => Err(
            ErrorModel::Extraction(ExtractionFailure::OffsetOutOfBounds),
        ),
        _ => if !dt.date.valid() {
            Err(ErrorModel::Extraction(ExtractionFailure::InvalidDate))
        } else if !dt.time.valid() {
            Err(ErrorModel::Extraction(ExtractionFailure::InvalidTime))
        } else {
            match dt.zone {
                HostZone::Fixed(offset) => if instant_exists(local, offset as int) {
                    Ok(EngineModel::ChronoDateTimeWithTimeZone(EngineZoned { local, offset }))
                } else {
                    Err(ErrorModel::Extraction(ExtractionFailure::InstantOutOfRange))
                },
                _ => Ok(EngineModel::ChronoDateTime(local)),
            }
        },
    }
}

/// The engine's value for the JSON form of a host object: the document that
/// the engine reads from the text that the host's encoder wrote.
pub open spec fn json_to_engine(json: HostJsonModel) -> Result<EngineModel, ErrorModel> {
    match json {
        HostJsonModel::NotEncoded => Err(ErrorModel::JsonNotEncoded),
        HostJsonModel::Rejected(message) => Err(ErrorModel::JsonCodec(message)),
        HostJsonModel::Text(text) => match json_canonical(text) {
            Some(document) => Ok(EngineModel::Json(document)),
            None => Err(ErrorModel::JsonParse),
        },
    }
}

/// The single-precision form of a host number.
pub open spec fn single_of(number: HostReal) -> Result<u32, ErrorModel> {
    match number.single {
        Some(single) => Ok(single),
        None => Err(ErrorModel::Extraction(ExtractionFailure::NoSinglePrecision)),
    }
}

/// The single-precision number that the element of a vector stands for.
pub open spec fn element_single(object: HostModel) -> Result<u32, ErrorModel> {
    match object.kind {
        HostKindModel::Float(number) => single_of(number),
        HostKindModel::Int(HostInt { float: Some(number), .. }) => single_of(number),
        HostKindModel::Int(_) => Err(ErrorModel::Extraction(ExtractionFailure::FloatOverflow)),
        _ => Err(ErrorModel::VectorElement { actual: object.kind.qualified_name() }),
    }
}

/// What converting a value on the host's side to the engine's side comes to.
pub open spec fn serialize_model(value: DynModel) -> Result<EngineModel, ErrorModel>
    decreases value,
{
    match value {
        DynModel::Null => Ok(EngineModel::Null),
        DynModel::Bool(b) => Ok(EngineModel::Bool(b)),
        DynModel::BigInt(x) => Ok(EngineModel::BigInt(x)),
        DynModel::BigUnsigned(x) => Ok(EngineModel::BigUnsigned(x)),
        DynModel::Double(bits) => Ok(EngineModel::Double(bits)),
        DynModel::String(s) => Ok(EngineModel::String(encode_utf8(s))),
        DynModel::Bytes(b) => Ok(EngineModel::Bytes(b)),
        DynModel::Json(object) => json_to_engine(object.json),
        DynModel::ChronoDate(d) => if d.valid() {
            Ok(EngineModel::ChronoDate(d))
        } else {
            Err(ErrorModel::Extraction(ExtractionFailure::InvalidDate))
        },
        DynModel::ChronoTime(t) => if t.valid() {
            Ok(EngineModel::ChronoTime(engine_time(t)))
        } else {
            Err(ErrorModel::Extraction(ExtractionFailure::InvalidTime))
        },
        DynModel::ChronoDateTime(dt) => datetime_to_engine(dt),
        DynModel::Uuid(u) => Ok(EngineModel::Uuid(u)),
        DynModel::Decimal(text) => match decimal_of_text(text) {
            Some(d) => Ok(EngineModel::Decimal(d)),
            None => Err(ErrorModel::Extraction(ExtractionFailure::InvalidDecimal)),
        },
        DynModel::Array(items) => match collect(serialize_each(items)) {
            Ok(values) => Ok(EngineModel::Array(values)),
            Err(e) => Err(e),
        },
        DynModel::Vector(items) => match collect(items.map_values(|o: HostModel| element_single(o))) {
            Ok(singles) => Ok(EngineModel::Vector(singles)),
            Err(e) => Err(e),
        },
    }
}

/// The outcome of [`serialize_model`] for each item of an array.
pub open spec fn serialize_each(items: Seq<DynModel>) -> Seq<Result<EngineModel, ErrorModel>>
    decreases items,
{
    Seq::new(
        items.len(),
        |i: int|
            if 0 <= i < items.len() {
                serialize_model(items[i])
            } else {
                Ok(EngineModel::Null)
            },
    )
}

/// Whether two decimals of the engine are equal: as numbers. Decimals that
/// the engine cannot hold are equal where mantissa and scale are.
pub open spec fn decimal_values_equal(a: EngineDecimal, b: EngineDecimal) -> bool {
    if a.valid() && b.valid() {
        decimals_equal(a, b)
    } else {
        a == b
    }
}

/// Whether two datetimes at an offset are equal: as instants. Datetimes that
/// the engine cannot hold are equal where local time and offset are.
pub open spec fn zoned_values_equal(a: EngineZoned, b: EngineZoned) -> bool {
    if a.valid() && b.valid() {
        same_instant(a, b)
    } else {
        a == b
    }
}

/// Whether two engine values are equal, as the engine has it: part for part,
/// each part as the engine's own type of it compares.
///
/// - Floating-point numbers compare as numbers. A NaN, alone or in a vector,
///   makes a value unequal to every value, itself included, and zero is equal
///   to minus zero.
/// - Decimals compare as numbers: 1.0 is equal to 1.00.
/// - Datetimes at an offset compare as instants: noon two hours east of
///   Greenwich is equal to ten o'clock at Greenwich.
/// - JSON documents compare as `serde_json` compares what it reads from them.
/// - Every other part is equal where it is the same.
pub open spec fn engine_equal(a: EngineModel, b: EngineModel) -> bool
    decreases a,
{
    match (a, b) {
        (EngineModel::Double(x), EngineModel::Double(y)) => doubles_equal(x, y),
        (EngineModel::Decimal(x), EngineModel::Decimal(y)) => decimal_values_equal(x, y),
        (
            EngineModel::ChronoDateTimeWithTimeZone(x),
            EngineModel::ChronoDateTimeWithTimeZone(y),
        ) => zoned_values_equal(x, y),
        (EngineModel::Json(x), EngineModel::Json(y)) => documents_equal(json_equal(x, y), x == y),
        (EngineModel::Vector(x), EngineModel::Vector(y)) => {
            &&& x.len() == y.len()
            &&& forall|i: int| 0 <= i < x.len() ==> singles_equal(#[trigger] x[i], y[i])
        },
        (EngineModel::Array(x), EngineModel::Array(y)) => {
            &&& x.len() == y.len()
            &&& forall|i: int| 0 <= i < x.len() ==> engine_equal(#[trigger] x[i], y[i])
        },
        _ => a == b,
    }
}

/// Whether an engine value is one that the engine can hold: its strings are
/// valid UTF-8, its dates, times and decimals exist.
pub open spec fn engine_valid(value: EngineModel) -> bool
    decreases value,
{
    match value {
        EngineModel::String(bytes) => valid_utf8(bytes),
        EngineModel::ChronoDate(d) => d.valid(),
        EngineModel::ChronoTime(t) => t.valid(),
        EngineModel::ChronoDateTime(dt) => dt.valid(),
        EngineModel::ChronoDateTimeWithTimeZone(z) => z.valid(),
        EngineModel::Decimal(d) => d.valid(),
        EngineModel::Array(items) => forall|i: int|
            0 <= i < items.len() ==> engine_valid(#[trigger] items[i]),
        _ => true,
    }
}

/// The host's time of day for a time of the engine: to the microsecond, a
/// leap second taken off.
pub open spec fn host_time(t: EngineTime) -> HostTime {
    HostTime {
        hour: t.hour,
        minute: t.minute,
        second: t.second,
        microsecond: t.host_microsecond() as u32,
    }
}

/// The host's floating-point number for a single-precision number.
pub open spec fn host_float(single: u32) -> HostModel {
    HostModel {
        kind: HostKindModel::Float(HostReal { double: widen_model(single) as u64, single: Some(single) }),
        json: HostJsonModel::NotEncoded,
        token: None,
    }
}

/// The host object that the host's decoder makes of a JSON document.
pub open spec fn decoded(document: Seq<char>) -> HostModel {
    HostModel { kind: HostKindModel::Decoded, json: HostJsonModel::Text(document), token: None }
}

/// The error of a date that the host's calendar does not reach.
pub open spec fn host_range_error() -> ErrorModel {
    ErrorModel::Extraction(ExtractionFailure::YearOutOfHostRange)
}

/// What converting a value on the engine's side to the host's side comes to.
pub open spec fn deserialize_model(value: EngineModel) -> Result<DynModel, ErrorModel>
    decreases value,
{
    match value {
        EngineModel::Null => Ok(DynModel::Null),
        EngineModel::Bool(b) => Ok(DynModel::Bool(b)),
        EngineModel::BigInt(x) => Ok(DynModel::BigInt(x)),
        EngineModel::BigUnsigned(x) => Ok(DynModel::BigUnsigned(x)),
        EngineModel::Double(bits) => Ok(DynModel::Double(bits)),
        EngineModel::String(bytes) => Ok(DynModel::String(decode_utf8(bytes))),
        EngineModel::Bytes(b) => Ok(DynModel::Bytes(b)),
        EngineModel::Json(document) => Ok(DynModel::Json(decoded(document))),
        EngineModel::ChronoDate(d) => if d.in_host_range() {
            Ok(DynModel::ChronoDate(d))
        } else {
            Err(host_range_error())
        },
        EngineModel::ChronoTime(t) => Ok(DynModel::ChronoTime(host_time(t))),
        EngineModel::ChronoDateTime(dt) => if dt.date.in_host_range() {
            Ok(
                DynModel::ChronoDateTime(
                    HostDateTime { date: dt.date, time: host_time(dt.time), zone: HostZone::Naive },
                ),
            )
        } else {
            Err(host_range_error())
        },
        EngineModel::ChronoDateTimeWithTimeZone(z) => if z.local.date.in_host_range() {
            Ok(
                DynModel::ChronoDateTime(
                    HostDateTime {
                        date: z.local.date,
                        time: host_time(z.local.time),
                        zone: HostZone::Fixed(z.offset),
                    },
                ),
            )
        } else {
            Err(host_range_error())
        },
        EngineModel::Uuid(u) => Ok(DynModel::Uuid(u)),
        EngineModel::Decimal(d) => Ok(DynModel::Decimal(decimal_text(d))),
        EngineModel::Array(items) => match collect(deserialize_each(items)) {
            Ok(values) => Ok(DynModel::Array(values)),
            Err(e) => Err(e),
        },
        EngineModel::Vector(singles) => Ok(
            DynModel::Vector(singles.map_values(|s: u32| host_float(s))),
        ),
    }
}

/// The outcome of [`deserialize_model`] for each item of an array.
pub open spec fn deserialize_each(items: Seq<EngineModel>) -> Seq<Result<DynModel, ErrorModel>>
    decreases items,
{
    Seq::new(
        items.len(),
        |i: int|
            if 0 <= i < items.len() {
                deserialize_model(items[i])
            } else {
                Ok(DynModel::Null)
            },
    )
}

/// A host object of the given type of which the JSON encoder was not asked.
pub open spec fn plain(kind: HostKindModel) -> HostModel {
    HostModel { kind, json: HostJsonModel::NotEncoded, token: None }
}

/// The host object that a value on the host's side is.
pub open spec fn host_of(value: DynModel) -> HostModel
    decreases value,
{
    match value {
        DynModel::Null => plain(HostKindModel::Null),
        DynModel::Bool(b) => plain(HostKindModel::Bool(b)),
        DynModel::BigInt(x) => plain(HostKindModel::Int(HostInt { value: Some(x as i128), float: None })),
        DynModel::BigUnsigned(x) => plain(
            HostKindModel::Int(HostInt { value: Some(x as i128), float: None }),
        ),
        DynModel::Double(bits) => plain(HostKindModel::Float(HostReal { double: bits, single: None })),
        DynModel::String(s) => plain(HostKindModel::Str(s)),
        DynModel::Bytes(b) => plain(HostKindModel::Bytes(b)),
        DynModel::Json(object) => object,
        DynModel::ChronoDate(d) => plain(HostKindModel::Date(d)),
        DynModel::ChronoTime(t) => plain(HostKindModel::Time(t)),
        DynModel::ChronoDateTime(dt) => plain(HostKindModel::DateTime(dt)),
        DynModel::Uuid(u) => plain(HostKindModel::Uuid(u)),
        DynModel::Decimal(text) => plain(HostKindModel::Decimal(text)),
        DynModel::Array(items) => plain(HostKindModel::List(host_of_each(items))),
        DynModel::Vector(items) => plain(HostKindModel::List(items)),
    }
}

/// [`host_of`] for each item of an array.
pub open spec fn host_of_each(items: Seq<DynModel>) -> Seq<HostModel>
    decreases items,
{
    Seq::new(
        items.len(),
        |i: int|
            if 0 <= i < items.len() {
                host_of(items[i])
            } else {
                plain(HostKindModel::Null)
            },
    )
}

/// The 64-bit signed integer of a host integer.
pub open spec fn signed_of(i: HostInt) -> Result<DynModel, ErrorModel> {
    match i.value {
        Some(v) if i64::MIN <= v <= i64::MAX => Ok(DynModel::BigInt(v as i64)),
        _ => Err(ErrorModel::Extraction(ExtractionFailure::SignedOverflow)),
    }
}

/// The 64-bit unsigned integer of a host integer.
pub open spec fn unsigned_of(i: HostInt) -> Result<DynModel, ErrorModel> {
    match i.value {
        Some(v) if 0 <= v <= u64::MAX => Ok(DynModel::BigUnsigned(v as u64)),
        _ => Err(ErrorModel::Extraction(ExtractionFailure::UnsignedOverflow)),
    }
}

/// The double-precision number of a host integer.
pub open spec fn real_of(i: HostInt) -> Result<DynModel, ErrorModel> {
    match i.float {
        Some(number) => Ok(DynModel::Double(number.double)),
        None => Err(ErrorModel::Extraction(ExtractionFailure::FloatOverflow)),
    }
}

/// Whether a host object may stand in a vector: it is a float or an integer.
pub open spec fn vector_element(object: HostModel) -> Result<HostModel, ErrorModel> {
    match object.kind {
        HostKindModel::Float(_) | HostKindModel::Int(_) => Ok(object),
        _ => Err(ErrorModel::VectorElement { actual: object.kind.qualified_name() }),
    }
}

/// What adapting a host object to a declared column type comes to. The
/// runtime type has to be exactly the one that the column type's family asks
/// for; nothing is coerced, but that an integer column takes a boolean as 0
/// or 1 and a floating-point column takes an integer.
pub open spec fn adapt_model(object: HostModel, ty: ColumnType) -> Result<DynModel, ErrorModel>
    decreases object,
{
    match (ty.family_model(), object.kind) {
        (ColumnFamily::Boolean, HostKindModel::Bool(b)) => Ok(DynModel::Bool(b)),
        (ColumnFamily::Boolean, _) => Err(mismatch(ExpectedType::Bool, object)),
        (ColumnFamily::Signed, HostKindModel::Int(i)) => signed_of(i),
        (ColumnFamily::Signed, HostKindModel::Bool(b)) => Ok(
            DynModel::BigInt(
                if b {
                    1
                } else {
                    0
                },
            ),
        ),
        (ColumnFamily::Signed, _) => Err(mismatch(ExpectedType::Int, object)),
        (ColumnFamily::Unsigned, HostKindModel::Int(i)) => unsigned_of(i),
        (ColumnFamily::Unsigned, HostKindModel::Bool(b)) => Ok(
            DynModel::BigUnsigned(
                if b {
                    1
                } else {
                    0
                },
            ),
        ),
        (ColumnFamily::Unsigned, _) => Err(mismatch(ExpectedType::Int, object)),
        (ColumnFamily::Text, HostKindModel::Str(s)) => Ok(DynModel::String(s)),
        (ColumnFamily::Text, _) => Err(mismatch(ExpectedType::Str, object)),
        (ColumnFamily::Enum, HostKindModel::Str(s)) => Ok(DynModel::String(s)),
        (ColumnFamily::Enum, _) => Err(mismatch(ExpectedType::Str, object)),
        (ColumnFamily::Binary, HostKindModel::Bytes(b)) => Ok(DynModel::Bytes(b)),
        (ColumnFamily::Binary, _) => Err(mismatch(ExpectedType::Bytes, object)),
        (ColumnFamily::Real, HostKindModel::Float(number)) => Ok(DynModel::Double(number.double)),
        (ColumnFamily::Real, HostKindModel::Int(i)) => real_of(i),
        (ColumnFamily::Real, _) => Err(mismatch(ExpectedType::FloatOrInt, object)),
        (ColumnFamily::Decimal, HostKindModel::Decimal(text)) => Ok(DynModel::Decimal(text)),
        (ColumnFamily::Decimal, _) => Err(mismatch(ExpectedType::Decimal, object)),
        (ColumnFamily::DateTime, HostKindModel::DateTime(dt)) => Ok(DynModel::ChronoDateTime(dt)),
        (ColumnFamily::DateTime, _) => Err(mismatch(ExpectedType::DateTime, object)),
        (ColumnFamily::Time, HostKindModel::Time(t)) => Ok(DynModel::ChronoTime(t)),
        (ColumnFamily::Time, _) => Err(mismatch(ExpectedType::Time, object)),
        (ColumnFamily::Date, HostKindModel::Date(d)) => Ok(DynModel::ChronoDate(d)),
        (ColumnFamily::Date, _) => Err(mismatch(ExpectedType::Date, object)),
        (ColumnFamily::Json, _) => match json_probe(object) {
            Ok(_) => Ok(DynModel::Json(object)),
            Err(e) => Err(e),
        },
        (ColumnFamily::Uuid, HostKindModel::Uuid(u)) => Ok(DynModel::Uuid(u)),
        (ColumnFamily::Uuid, _) => Err(mismatch(ExpectedType::Uuid, object)),
        (ColumnFamily::Array, HostKindModel::List(items)) => match collect(
            adapt_each(items, element_type(ty)),
        ) {
            Ok(values) => Ok(DynModel::Array(values)),
            Err(e) => Err(e),
        },
        (ColumnFamily::Array, _) => Err(mismatch(ExpectedType::List, object)),
        (ColumnFamily::Vector, HostKindModel::List(items)) => match collect(
            items.map_values(|o: HostModel| vector_element(o)),
        ) {
            Ok(_) => Ok(DynModel::Vector(items)),
            Err(e) => Err(e),
        },
        (ColumnFamily::Vector, _) => Err(mismatch(ExpectedType::ListOfFloats, object)),
        (ColumnFamily::Custom, _) => Err(ErrorModel::UnknownColumnType),
    }
}

/// The element type of an array column type.
pub open spec fn element_type(ty: ColumnType) -> ColumnType {
    match ty {
        ColumnType::Array(element) => *element,
        _ => ty,
    }
}

/// The outcome of [`adapt_model`] for each item of a list.
pub open spec fn adapt_each(items: Seq<HostModel>, ty: ColumnType) -> Seq<
    Result<DynModel, ErrorModel>,
>
    decreases items,
{
    Seq::new(
        items.len(),
        |i: int|
            if 0 <= i < items.len() {
                adapt_model(items[i], ty)
            } else {
                Ok(DynModel::Null)
            },
    )
}

/// Adapting to the same column type gives the same result.
pub proof fn adapt_same(object: HostModel, a: ColumnType, b: ColumnType)
    requires
        a.same(b),
    ensures
        adapt_model(object, a) == adapt_model(object, b),
    decreases object,
{
    a.same_supported(b);
    match (a, b, object.kind) {
        (ColumnType::Array(x), ColumnType::Array(y), HostKindModel::List(items)) => {
            assert forall|i: int| 0 <= i < items.len() implies adapt_model(items[i], *x)
                == adapt_model(items[i], *y) by {
                adapt_same(items[i], *x, *y);
            }
            assert(adapt_each(items, *x) =~= adapt_each(items, *y));
        },
        _ => {},
    }
}

/// What making an adapted value of a host object and a declared type comes
/// to on the host's side: the host's null is the null value whatever is
/// declared; with nothing declared the object is classified by its runtime
/// type; with a column type declared it is adapted to that type; with
/// anything else declared there is no value.
pub open spec fn bound_model(object: HostModel, declared: Option<TypeDeclaration>) -> Result<
    DynModel,
    ErrorModel,
> {
    if object.kind is Null {
        Ok(DynModel::Null)
    } else {
        match declared {
            None => infer_model(object),
            Some(declaration) => if declares(declaration) {
                adapt_model(object, declared_type(declaration))
            } else {
                Err(ErrorModel::UnknownColumnType)
            },
        }
    }
}

/// What classifying a host object by its own runtime type comes to, where no
/// column type is declared.
pub open spec fn infer_model(object: HostModel) -> Result<DynModel, ErrorModel> {
    match object.kind {
        HostKindModel::Int(_) => adapt_model(object, ColumnType::BigInteger),
        HostKindModel::Float(_) => adapt_model(object, ColumnType::Double),
        HostKindModel::Str(s) => Ok(DynModel::String(s)),
        HostKindModel::Bool(b) => Ok(DynModel::Bool(b)),
        HostKindModel::Bytes(b) => Ok(DynModel::Bytes(b)),
        HostKindModel::Dict | HostKindModel::List(_) => match json_probe(object) {
            Ok(_) => Ok(DynModel::Json(object)),
            Err(e) => Err(e),
        },
        HostKindModel::Decimal(text) => Ok(DynModel::Decimal(text)),
        HostKindModel::DateTime(dt) => Ok(DynModel::ChronoDateTime(dt)),
        HostKindModel::Date(d) => Ok(DynModel::ChronoDate(d)),
        HostKindModel::Time(t) => Ok(DynModel::ChronoTime(t)),
        HostKindModel::Uuid(u) => Ok(DynModel::Uuid(u)),
        _ => Err(ErrorModel::UnrecognizedType(object.kind.qualified_name())),
    }
}

} // verus!
