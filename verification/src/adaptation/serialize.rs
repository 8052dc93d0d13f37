//! Values on the engine's side.

use vstd::prelude::*;
use vstd::std_specs::cmp::PartialEqSpecImpl;
use vstd::utf8::{decode_utf8, valid_utf8};
use crate::bits::{equal_doubles, equal_singles, singles_equal, widen_single};
use crate::calendar::{
    chrono_has_date, chrono_has_instant, chrono_has_offset, chrono_same_instant, Date,
    EngineDateTime, EngineTime, EngineZoned, HostDateTime, HostTime, HostZone, HOST_MAX_YEAR,
    HOST_MIN_YEAR,
};
use crate::decimal::{same_decimal, write_decimal, EngineDecimal, MAX_MANTISSA, MAX_SCALE};
use crate::error::{AdaptError, ErrorModel, ExtractionFailure};
use crate::host::{copy_items, objects_model, HostKind, HostObject, HostReal};
use super::common::{deserialize_object_with_pyjson, documents_verdict, same_documents};
use super::deserialize::{dyn_models, DeserializedValue};
use super::model::{
    collect, collect_ends, collect_err, collect_step, deserialize_each, deserialize_model,
    engine_equal, engine_valid, host_float, host_time, DynModel, EngineModel,
};

verus! {

/// A value on the engine's side: it owns all its data and refers to nothing
/// of the host. A floating-point number is held by its bit pattern, a string
/// by its UTF-8 bytes, a JSON document by its compact text, a date, a time or
/// a decimal by its fields. Two values are equal, by `==` and by
/// [`RustValue::equals`], where they are equal part for part, each part
/// compared as the engine's own type of it compares: numbers as numbers,
/// datetimes at an offset as instants, JSON documents as documents.
#[derive(Debug)]
pub enum RustValue {
    Null,
    Bool(bool),
    BigInt(i64),
    BigUnsigned(u64),
    Double(u64),
    String(Vec<u8>),
    Bytes(Vec<u8>),
    Json(String),
    ChronoDate(Date),
    ChronoTime(EngineTime),
    ChronoDateTime(EngineDateTime),
    ChronoDateTimeWithTimeZone(EngineZoned),
    Uuid(u128),
    Decimal(EngineDecimal),
    Array(Vec<RustValue>),
    Vector(Vec<u32>),
}

/// The mathematical form of an engine value.
pub open spec fn engine_model(value: RustValue) -> EngineModel
    decreases value,
{
    match value {
        RustValue::Null => EngineModel::Null,
        RustValue::Bool(b) => EngineModel::Bool(b),
        RustValue::BigInt(x) => EngineModel::BigInt(x),
        RustValue::BigUnsigned(x) => EngineModel::BigUnsigned(x),
        RustValue::Double(bits) => EngineModel::Double(bits),
        RustValue::String(bytes) => EngineModel::String(bytes@),
        RustValue::Bytes(bytes) => EngineModel::Bytes(bytes@),
        RustValue::Json(document) => EngineModel::Json(document@),
        RustValue::ChronoDate(d) => EngineModel::ChronoDate(d),
        RustValue::ChronoTime(t) => EngineModel::ChronoTime(t),
        RustValue::ChronoDateTime(dt) => EngineModel::ChronoDateTime(dt),
        RustValue::ChronoDateTimeWithTimeZone(z) => EngineModel::ChronoDateTimeWithTimeZone(z),
        RustValue::Uuid(u) => EngineModel::Uuid(u),
        RustValue::Decimal(d) => EngineModel::Decimal(d),
        RustValue::Array(items) => EngineModel::Array(engine_models(items)),
        RustValue::Vector(singles) => EngineModel::Vector(singles@),
    }
}

/// The mathematical form of a list of engine values.
pub open spec fn engine_models(values: Vec<RustValue>) -> Seq<EngineModel>
    decreases values,
{
    Seq::new(
        values.len() as nat,
        |i: int|
            if 0 <= i < values.len() {
                engine_model(values[i])
            } else {
                EngineModel::Null
            },
    )
}

impl View for RustValue {
    type V = EngineModel;

    open spec fn view(&self) -> EngineModel {
        engine_model(*self)
    }
}

/// Turns UTF-8 bytes into a string with `String::from_utf8`.
///
/// Trusted: on valid UTF-8 the standard library gives the string whose
/// characters the bytes encode.
#[verifier::external_body]
pub(crate) fn string_of_utf8(bytes: Vec<u8>) -> (r: String)
    requires
        valid_utf8(bytes@),
    ensures
        r@ == decode_utf8(bytes@),
{
    match String::from_utf8(bytes) {
        Ok(s) => s,
        Err(_) => String::new(),
    }
}

/// Asks the standard library whether bytes are valid UTF-8, with
/// `std::str::from_utf8`.
///
/// Trusted: the standard library accepts exactly the byte strings that are
/// valid UTF-8.
#[verifier::external_body]
pub(crate) fn is_utf8(bytes: &Vec<u8>) -> (r: bool)
    ensures
        r == valid_utf8(bytes@),
{
    std::str::from_utf8(bytes).is_ok()
}

/// Whether the day exists in the engine's calendar.
pub fn date_is_valid(d: &Date) -> (r: bool)
    ensures
        r == d.valid(),
{
    chrono_has_date(d.year, d.month, d.day)
}

/// Whether the time of day exists.
pub fn time_is_valid(t: &EngineTime) -> (r: bool)
    ensures
        r == t.valid(),
{
    t.hour < 24 && t.minute < 60 && t.second < 60 && t.nanosecond < 2_000_000_000 && (t.nanosecond
        < 1_000_000_000 || t.second == 59)
}

/// Whether the local time and the offset exist and the instant lies in the
/// engine's calendar.
pub fn zoned_is_valid(z: &EngineZoned) -> (r: bool)
    ensures
        r == z.valid(),
{
    date_is_valid(&z.local.date) && time_is_valid(&z.local.time) && chrono_has_offset(z.offset)
        && chrono_has_instant(&z.local, z.offset)
}

/// Whether the engine can hold the decimal.
pub fn decimal_is_valid(d: &EngineDecimal) -> (r: bool)
    ensures
        r == d.valid(),
{
    d.scale <= MAX_SCALE && -MAX_MANTISSA <= d.mantissa && d.mantissa <= MAX_MANTISSA
}

/// Whether two byte vectors hold the same bytes.
pub fn same_bytes(a: &Vec<u8>, b: &Vec<u8>) -> (r: bool)
    ensures
        r == (a@ == b@),
{
    if a.len() != b.len() {
        return false;
    }
    let mut i: usize = 0;
    while i < a.len()
        invariant
            0 <= i <= a.len(),
            a.len() == b.len(),
            forall|j: int| 0 <= j < i ==> a@[j] == b@[j],
        decreases a.len() - i,
    {
        if a[i] != b[i] {
            return false;
        }
        i = i + 1;
    }
    assert(a@ =~= b@);
    true
}

/// Whether two vectors hold equal single-precision numbers, item for item.
pub fn equal_vectors(a: &Vec<u32>, b: &Vec<u32>) -> (r: bool)
    ensures
        r == engine_equal(EngineModel::Vector(a@), EngineModel::Vector(b@)),
{
    if a.len() != b.len() {
        return false;
    }
    let mut i: usize = 0;
    while i < a.len()
        invariant
            0 <= i <= a.len(),
            a.len() == b.len(),
            forall|j: int| 0 <= j < i ==> singles_equal(#[trigger] a@[j], b@[j]),
        decreases a.len() - i,
    {
        if !equal_singles(a[i], b[i]) {
            return false;
        }
        i = i + 1;
    }
    true
}

impl RustValue {
    /// Whether the engine can hold the value: its strings are valid UTF-8,
    /// its dates, times and decimals exist.
    pub open spec fn wf(self) -> bool {
        engine_valid(self@)
    }

    /// Whether the engine can hold the value.
    pub fn is_wf(&self) -> (r: bool)
        ensures
            r == self.wf(),
        decreases self,
    {
        match self {
            RustValue::String(bytes) => is_utf8(bytes),
            RustValue::ChronoDate(d) => date_is_valid(d),
            RustValue::ChronoTime(t) => time_is_valid(t),
            RustValue::ChronoDateTime(dt) => date_is_valid(&dt.date) && time_is_valid(&dt.time),
            RustValue::ChronoDateTimeWithTimeZone(z) => zoned_is_valid(z),
            RustValue::Decimal(d) => decimal_is_valid(d),
            RustValue::Array(items) => {
                let mut i: usize = 0;
                while i < items.len()
                    invariant
                        self is Array,
                        self->Array_0 == *items,
                        0 <= i <= items.len(),
                        forall|j: int| 0 <= j < i ==> engine_valid(#[trigger] engine_models(*items)[j]),
                    decreases items.len() - i,
                {
                    assert(engine_models(*items)[i as int] == items[i as int]@);
                    if !items[i].is_wf() {
                        assert(self@ == EngineModel::Array(engine_models(*items)));
                        assert(!engine_valid(self@->Array_0[i as int]));
                        return false;
                    }
                    i = i + 1;
                }
                assert(engine_valid(EngineModel::Array(engine_models(*items))));
                true
            },
            _ => true,
        }
    }

    /// A copy of the value.
    pub fn duplicate(&self) -> (r: Self)
        ensures
            r@ == self@,
        decreases self,
    {
        match self {
            RustValue::Null => RustValue::Null,
            RustValue::Bool(b) => RustValue::Bool(*b),
            RustValue::BigInt(x) => RustValue::BigInt(*x),
            RustValue::BigUnsigned(x) => RustValue::BigUnsigned(*x),
            RustValue::Double(bits) => RustValue::Double(*bits),
            RustValue::String(bytes) => RustValue::String(copy_items(bytes)),
            RustValue::Bytes(bytes) => RustValue::Bytes(copy_items(bytes)),
            RustValue::Json(document) => RustValue::Json(document.clone()),
            RustValue::ChronoDate(d) => RustValue::ChronoDate(*d),
            RustValue::ChronoTime(t) => RustValue::ChronoTime(*t),
            RustValue::ChronoDateTime(dt) => RustValue::ChronoDateTime(*dt),
            RustValue::ChronoDateTimeWithTimeZone(z) => RustValue::ChronoDateTimeWithTimeZone(*z),
            RustValue::Uuid(u) => RustValue::Uuid(*u),
            RustValue::Decimal(d) => RustValue::Decimal(*d),
            RustValue::Array(items) => {
                let mut out: Vec<RustValue> = Vec::new();
                let mut i: usize = 0;
                while i < items.len()
                    invariant
                        self is Array,
                        self->Array_0 == *items,
                        0 <= i <= items.len(),
                        out.len() == i,
                        forall|j: int| 0 <= j < i ==> out[j]@ == items[j]@,
                    decreases items.len() - i,
                {
                    let copy = items[i].duplicate();
                    out.push(copy);
                    i = i + 1;
                }
                assert(engine_models(out) =~= engine_models(*items));
                RustValue::Array(out)
            },
            RustValue::Vector(singles) => RustValue::Vector(copy_items(singles)),
        }
    }

    /// Whether two engine values are equal: part for part, each part as the
    /// engine's own type of it compares. See [`engine_equal`].
    pub fn equals(&self, other: &RustValue) -> (r: bool)
        ensures
            r == engine_equal(self@, other@),
        decreases self,
    {
        match (self, other) {
            (RustValue::Null, RustValue::Null) => true,
            (RustValue::Bool(a), RustValue::Bool(b)) => *a == *b,
            (RustValue::BigInt(a), RustValue::BigInt(b)) => *a == *b,
            (RustValue::BigUnsigned(a), RustValue::BigUnsigned(b)) => *a == *b,
            (RustValue::Double(a), RustValue::Double(b)) => equal_doubles(*a, *b),
            (RustValue::String(a), RustValue::String(b)) => same_bytes(a, b),
            (RustValue::Bytes(a), RustValue::Bytes(b)) => same_bytes(a, b),
            (RustValue::Json(a), RustValue::Json(b)) => documents_verdict(
                same_documents(a.as_str(), b.as_str()),
                *a == *b,
            ),
            (RustValue::ChronoDate(a), RustValue::ChronoDate(b)) => *a == *b,
            (RustValue::ChronoTime(a), RustValue::ChronoTime(b)) => *a == *b,
            (RustValue::ChronoDateTime(a), RustValue::ChronoDateTime(b)) => *a == *b,
            (RustValue::ChronoDateTimeWithTimeZone(a), RustValue::ChronoDateTimeWithTimeZone(b)) => {
                if zoned_is_valid(a) && zoned_is_valid(b) {
                    chrono_same_instant(a, b)
                } else {
                    *a == *b
                }
            },
            (RustValue::Uuid(a), RustValue::Uuid(b)) => *a == *b,
            (RustValue::Decimal(a), RustValue::Decimal(b)) => {
                if decimal_is_valid(a) && decimal_is_valid(b) {
                    same_decimal(a, b)
                } else {
                    *a == *b
                }
            },
            (RustValue::Array(a), RustValue::Array(b)) => {
                if a.len() != b.len() {
                    assert(engine_models(*a).len() != engine_models(*b).len());
                    assert(!engine_equal(
                        EngineModel::Array(engine_models(*a)),
                        EngineModel::Array(engine_models(*b)),
                    ));
                    return false;
                }
                let mut i: usize = 0;
                while i < a.len()
                    invariant
                        self is Array,
                        self->Array_0 == *a,
                        other is Array,
                        other->Array_0 == *b,
                        0 <= i <= a.len(),
                        a.len() == b.len(),
                        forall|j: int|
                            0 <= j < i ==> engine_equal(
                                #[trigger] engine_models(*a)[j],
                                engine_models(*b)[j],
                            ),
                    decreases a.len() - i,
                {
                    proof {
                        assert(engine_models(*a)[i as int] == a[i as int]@);
                        assert(engine_models(*b)[i as int] == b[i as int]@);
                    }
                    if !a[i].equals(&b[i]) {
                        assert(self@ == EngineModel::Array(engine_models(*a)));
                        assert(other@ == EngineModel::Array(engine_models(*b)));
                        assert(!engine_equal(self@->Array_0[i as int], other@->Array_0[i as int]));
                        return false;
                    }
                    i = i + 1;
                }
                assert(engine_equal(
                    EngineModel::Array(engine_models(*a)),
                    EngineModel::Array(engine_models(*b)),
                ));
                true
            },
            (RustValue::Vector(a), RustValue::Vector(b)) => equal_vectors(a, b),
            _ => false,
        }
    }

    /// Converts the value to the host's side.
    ///
    /// Scalars and bytes pass unchanged. A string becomes the host string
    /// that its bytes encode. A JSON document becomes what the host's decoder
    /// makes of it. Dates and times become the host's, to the microsecond;
    /// a date outside the host's calendar is an error. A decimal becomes the
    /// host decimal
    /// of its text. The items of an array are converted in order and the
    /// first error is the array's. A vector becomes a list of host floats.
    pub fn deserialize(&self) -> (r: Result<DeserializedValue, AdaptError>)
        requires
            self.wf(),
        ensures
            match r {
                Ok(value) => deserialize_model(self@) == Ok::<DynModel, ErrorModel>(value@),
                Err(e) => deserialize_model(self@) == Err::<DynModel, ErrorModel>(e@),
            },
        decreases self,
    {
        match self {
            RustValue::Null => Ok(DeserializedValue::Null),
            RustValue::Bool(b) => Ok(DeserializedValue::Bool(*b)),
            RustValue::BigInt(x) => Ok(DeserializedValue::BigInt(*x)),
            RustValue::BigUnsigned(x) => Ok(DeserializedValue::BigUnsigned(*x)),
            RustValue::Double(bits) => Ok(DeserializedValue::Double(*bits)),
            RustValue::String(bytes) => Ok(DeserializedValue::String(string_of_utf8(copy_items(bytes)))),
            RustValue::Bytes(bytes) => Ok(DeserializedValue::Bytes(copy_items(bytes))),
            RustValue::Json(document) => Ok(
                DeserializedValue::Json(deserialize_object_with_pyjson(document.clone())),
            ),
            RustValue::ChronoDate(d) => {
                if in_host_range(d) {
                    Ok(DeserializedValue::ChronoDate(*d))
                } else {
                    Err(AdaptError::Extraction(ExtractionFailure::YearOutOfHostRange))
                }
            },
            RustValue::ChronoTime(t) => Ok(DeserializedValue::ChronoTime(time_for_host(t))),
            RustValue::ChronoDateTime(dt) => {
                if in_host_range(&dt.date) {
                    Ok(
                        DeserializedValue::ChronoDateTime(
                            HostDateTime {
                                date: dt.date,
                                time: time_for_host(&dt.time),
                                zone: HostZone::Naive,
                            },
                        ),
                    )
                } else {
                    Err(AdaptError::Extraction(ExtractionFailure::YearOutOfHostRange))
                }
            },
            RustValue::ChronoDateTimeWithTimeZone(z) => {
                if in_host_range(&z.local.date) {
                    Ok(
                        DeserializedValue::ChronoDateTime(
                            HostDateTime {
                                date: z.local.date,
                                time: time_for_host(&z.local.time),
                                zone: HostZone::Fixed(z.offset),
                            },
                        ),
                    )
                } else {
                    Err(AdaptError::Extraction(ExtractionFailure::YearOutOfHostRange))
                }
            },
            RustValue::Uuid(u) => Ok(DeserializedValue::Uuid(*u)),
            RustValue::Decimal(d) => Ok(DeserializedValue::Decimal(write_decimal(d))),
            RustValue::Array(items) => {
                let ghost results = deserialize_each(engine_models(*items));
                let mut out: Vec<DeserializedValue> = Vec::new();
                let mut i: usize = 0;
                proof {
                    collect_ends(results);
                    assert(dyn_models(out) =~= Seq::<DynModel>::empty());
                }
                while i < items.len()
                    invariant
                        self is Array,
                        self->Array_0 == *items,
                        self.wf(),
                        0 <= i <= items.len(),
                        results == deserialize_each(engine_models(*items)),
                        collect(results.take(i as int)) == Ok::<Seq<DynModel>, ErrorModel>(
                            dyn_models(out),
                        ),
                    decreases items.len() - i,
                {
                    proof {
                        collect_step(results, i as int);
                        assert(engine_models(*items)[i as int] == items[i as int]@);
                        assert(engine_valid(engine_models(*items)[i as int]));
                    }
                    match items[i].deserialize() {
                        Ok(value) => {
                            let ghost before = dyn_models(out);
                            out.push(value);
                            assert(dyn_models(out) =~= before.push(value@));
                        },
                        Err(e) => {
                            proof {
                                collect_err(results, i + 1);
                            }
                            return Err(e);
                        },
                    }
                    i = i + 1;
                }
                proof {
                    collect_ends(results);
                }
                Ok(DeserializedValue::Array(out))
            },
            RustValue::Vector(singles) => {
                let mut out: Vec<HostObject> = Vec::new();
                let mut i: usize = 0;
                while i < singles.len()
                    invariant
                        0 <= i <= singles.len(),
                        out.len() == i,
                        forall|j: int| 0 <= j < i ==> out[j]@ == host_float(singles@[j]),
                    decreases singles.len() - i,
                {
                    let single = singles[i];
                    let number = HostReal { double: widen_single(single), single: Some(single) };
                    out.push(HostObject::plain(HostKind::Float(number)));
                    i = i + 1;
                }
                assert(objects_model(out) =~= singles@.map_values(|s: u32| host_float(s)));
                Ok(DeserializedValue::Vector(out))
            },
        }
    }
}

/// Whether the host's calendar has the year of the date.
pub fn in_host_range(date: &Date) -> (r: bool)
    ensures
        r == date.in_host_range(),
{
    HOST_MIN_YEAR <= date.year && date.year <= HOST_MAX_YEAR
}

/// The host's time of day for a time of the engine: the nanoseconds cut
/// down to microseconds, a leap second taken off.
pub fn time_for_host(t: &EngineTime) -> (r: HostTime)
    ensures
        r == host_time(*t),
{
    let nanosecond: u32 = if t.nanosecond >= 1_000_000_000 {
        t.nanosecond - 1_000_000_000
    } else {
        t.nanosecond
    };
    HostTime { hour: t.hour, minute: t.minute, second: t.second, microsecond: nanosecond / 1000 }
}

impl PartialEq for RustValue {
    fn eq(&self, other: &RustValue) -> (r: bool) {
        self.equals(other)
    }
}

impl PartialEqSpecImpl for RustValue {
    open spec fn obeys_eq_spec() -> bool {
        true
    }

    open spec fn eq_spec(&self, other: &RustValue) -> bool {
        engine_equal(self@, other@)
    }
}

impl Clone for RustValue {
    fn clone(&self) -> (r: Self)
        ensures
            r@ == self@,
    {
        self.duplicate()
    }
}

} // verus!
