//! Values on the host's side.

use vstd::prelude::*;
use vstd::string::*;
use vstd::utf8::encode_utf8_valid_utf8;
use crate::calendar::{
    chrono_has_date, chrono_has_instant, chrono_has_offset, chrono_has_time, Date, EngineDateTime,
    EngineTime, EngineZoned, HostDateTime, HostTime, HostZone,
};
use crate::decimal::{read_decimal, EngineDecimal};
use crate::error::{AdaptError, ErrorModel, ExtractionFailure};
use crate::host::{
    copy_items, duplicate_all, objects_model, HostInt, HostKind, HostModel, HostObject, HostReal,
};
use super::common::{read_json, serialize_object_with_pyjson};
use super::model::{
    collect, collect_ends, collect_err, collect_step, datetime_to_engine, element_single,
    engine_time, engine_valid, host_of, host_of_each, serialize_each, serialize_model, DynModel,
    EngineModel,
};
use super::serialize::{engine_models, RustValue};

verus! {

/// A value on the host's side: a value that still has the runtime type under
/// which the host gave it, or under which the host will get it.
#[derive(Debug, PartialEq, Eq)]
pub enum DeserializedValue {
    Null,
    Bool(bool),
    BigInt(i64),
    BigUnsigned(u64),
    /// A double-precision number, by its bit pattern.
    Double(u64),
    String(String),
    Bytes(Vec<u8>),
    /// An object with a JSON form.
    Json(HostObject),
    ChronoDate(Date),
    ChronoTime(HostTime),
    /// A datetime, with or without a time zone.
    ChronoDateTime(HostDateTime),
    Uuid(u128),
    /// A decimal, by the text that the host prints for it.
    Decimal(String),
    Array(Vec<DeserializedValue>),
    /// The elements of a list of numbers, as the host gave them.
    Vector(Vec<HostObject>),
}

/// The mathematical form of a value on the host's side.
pub open spec fn dyn_model(value: DeserializedValue) -> DynModel
    decreases value,
{
    match value {
        DeserializedValue::Null => DynModel::Null,
        DeserializedValue::Bool(b) => DynModel::Bool(b),
        DeserializedValue::BigInt(x) => DynModel::BigInt(x),
        DeserializedValue::BigUnsigned(x) => DynModel::BigUnsigned(x),
        DeserializedValue::Double(bits) => DynModel::Double(bits),
        DeserializedValue::String(s) => DynModel::String(s@),
        DeserializedValue::Bytes(bytes) => DynModel::Bytes(bytes@),
        DeserializedValue::Json(object) => DynModel::Json(object@),
        DeserializedValue::ChronoDate(d) => DynModel::ChronoDate(d),
        DeserializedValue::ChronoTime(t) => DynModel::ChronoTime(t),
        DeserializedValue::ChronoDateTime(dt) => DynModel::ChronoDateTime(dt),
        DeserializedValue::Uuid(u) => DynModel::Uuid(u),
        DeserializedValue::Decimal(text) => DynModel::Decimal(text@),
        DeserializedValue::Array(items) => DynModel::Array(dyn_models(items)),
        DeserializedValue::Vector(items) => DynModel::Vector(objects_model(items)),
    }
}

/// The mathematical form of a list of values on the host's side.
pub open spec fn dyn_models(values: Vec<DeserializedValue>) -> Seq<DynModel>
    decreases values,
{
    Seq::new(
        values.len() as nat,
        |i: int|
            if 0 <= i < values.len() {
                dyn_model(values[i])
            } else {
                DynModel::Null
            },
    )
}

impl View for DeserializedValue {
    type V = DynModel;

    open spec fn view(&self) -> DynModel {
        dyn_model(*self)
    }
}

impl DeserializedValue {
    /// A copy of the value. Each host object in it gets one more holder.
    pub fn duplicate(&self) -> (r: Self)
        ensures
            r@ == self@,
        decreases self,
    {
        match self {
            DeserializedValue::Null => DeserializedValue::Null,
            DeserializedValue::Bool(b) => DeserializedValue::Bool(*b),
            DeserializedValue::BigInt(x) => DeserializedValue::BigInt(*x),
            DeserializedValue::BigUnsigned(x) => DeserializedValue::BigUnsigned(*x),
            DeserializedValue::Double(bits) => DeserializedValue::Double(*bits),
            DeserializedValue::String(s) => DeserializedValue::String(s.clone()),
            DeserializedValue::Bytes(bytes) => DeserializedValue::Bytes(copy_items(bytes)),
            DeserializedValue::Json(object) => DeserializedValue::Json(object.duplicate()),
            DeserializedValue::ChronoDate(d) => DeserializedValue::ChronoDate(*d),
            DeserializedValue::ChronoTime(t) => DeserializedValue::ChronoTime(*t),
            DeserializedValue::ChronoDateTime(dt) => DeserializedValue::ChronoDateTime(*dt),
            DeserializedValue::Uuid(u) => DeserializedValue::Uuid(*u),
            DeserializedValue::Decimal(text) => DeserializedValue::Decimal(text.clone()),
            DeserializedValue::Array(items) => {
                let mut out: Vec<DeserializedValue> = Vec::new();
                let mut i: usize = 0;
                while i < items.len()
                    invariant
                        self is Array,
                        self->Array_0 == *items,
                        0 <= i <= items.len(),
                        out.len() == i,
                        forall|j: int| 0 <= j < i ==> out[j]@ == items[j]@,
                    decreases items.len() - i,
                {
                    let copy = items[i].duplicate();
                    out.push(copy);
                    i = i + 1;
                }
                assert(dyn_models(out) =~= dyn_models(*items));
                DeserializedValue::Array(out)
            },
            DeserializedValue::Vector(items) => DeserializedValue::Vector(duplicate_all(items)),
        }
    }

    /// The host object that the value is. A value that holds a host object
    /// gives a copy of it; a scalar gives a fresh object of its runtime type;
    /// an array gives a list of the objects of its items.
    pub fn as_pyobject(&self) -> (r: HostObject)
        ensures
            r@ == host_of(self@),
        decreases self,
    {
        match self {
            DeserializedValue::Null => HostObject::plain(HostKind::Null),
            DeserializedValue::Bool(b) => HostObject::plain(HostKind::Bool(*b)),
            DeserializedValue::BigInt(x) => HostObject::plain(
                HostKind::Int(HostInt { value: Some(*x as i128), float: None }),
            ),
            DeserializedValue::BigUnsigned(x) => HostObject::plain(
                HostKind::Int(HostInt { value: Some(*x as i128), float: None }),
            ),
            DeserializedValue::Double(bits) => HostObject::plain(
                HostKind::Float(HostReal { double: *bits, single: None }),
            ),
            DeserializedValue::String(s) => HostObject::plain(HostKind::Str(s.clone())),
            DeserializedValue::Bytes(bytes) => HostObject::plain(HostKind::Bytes(copy_items(bytes))),
            DeserializedValue::Json(object) => object.duplicate(),
            DeserializedValue::ChronoDate(d) => HostObject::plain(HostKind::Date(*d)),
            DeserializedValue::ChronoTime(t) => HostObject::plain(HostKind::Time(*t)),
            DeserializedValue::ChronoDateTime(dt) => HostObject::plain(HostKind::DateTime(*dt)),
            DeserializedValue::Uuid(u) => HostObject::plain(HostKind::Uuid(*u)),
            DeserializedValue::Decimal(text) => HostObject::plain(HostKind::Decimal(text.clone())),
            DeserializedValue::Array(items) => {
                let mut out: Vec<HostObject> = Vec::new();
                let mut i: usize = 0;
                while i < items.len()
                    invariant
                        self is Array,
                        self->Array_0 == *items,
                        0 <= i <= items.len(),
                        out.len() == i,
                        forall|j: int| 0 <= j < i ==> out[j]@ == host_of(items[j]@),
                    decreases items.len() - i,
                {
                    let object = items[i].as_pyobject();
                    out.push(object);
                    i = i + 1;
                }
                assert(objects_model(out) =~= host_of_each(dyn_models(*items)));
                HostObject::plain(HostKind::List(out))
            },
            DeserializedValue::Vector(items) => HostObject::plain(HostKind::List(duplicate_all(items))),
        }
    }
}

/// The engine's JSON value for what reading the host's JSON text gave: the
/// document, or an error where the text was no JSON document.
pub fn json_outcome(document: Option<String>) -> (r: Result<RustValue, AdaptError>)
    ensures
        match document {
            Some(d) => r matches Ok(v) && v@ == EngineModel::Json(d@) && v.wf(),
            None => r matches Err(e) && e@ == ErrorModel::JsonParse,
        },
{
    match document {
        Some(d) => Ok(RustValue::Json(d)),
        None => Err(AdaptError::JsonParse),
    }
}

/// The engine's decimal value for what reading the host decimal's text gave:
/// the decimal, or an error where the text was no decimal that the engine
/// can hold.
pub fn decimal_outcome(parsed: Option<EngineDecimal>) -> (r: Result<RustValue, AdaptError>)
    ensures
        match parsed {
            Some(d) => r matches Ok(v) && v@ == EngineModel::Decimal(d),
            None => r matches Err(e) && e@ == ErrorModel::Extraction(
                ExtractionFailure::InvalidDecimal,
            ),
        },
{
    match parsed {
        Some(d) => Ok(RustValue::Decimal(d)),
        None => Err(AdaptError::Extraction(ExtractionFailure::InvalidDecimal)),
    }
}

/// The time of day that the engine holds for a host time that exists.
pub fn time_for_engine(t: &HostTime) -> (r: EngineTime)
    requires
        t.valid(),
    ensures
        r == engine_time(*t),
        r.valid(),
{
    EngineTime {
        hour: t.hour,
        minute: t.minute,
        second: t.second,
        nanosecond: t.microsecond * 1000,
    }
}

/// The engine's value for a host datetime: a naive datetime where the host's
/// has no time zone, else the local time with its offset from UTC.
pub fn datetime_for_engine(dt: &HostDateTime) -> (r: Result<RustValue, AdaptError>)
    ensures
        match r {
            Ok(v) => datetime_to_engine(*dt) == Ok::<EngineModel, ErrorModel>(v@) && v.wf(),
            Err(e) => datetime_to_engine(*dt) == Err::<EngineModel, ErrorModel>(e@),
        },
{
    match dt.zone {
        HostZone::Variable => {
            return Err(AdaptError::Extraction(ExtractionFailure::VariableOffset));
        },
        HostZone::Fixed(offset) => {
            if !chrono_has_offset(offset) {
                return Err(AdaptError::Extraction(ExtractionFailure::OffsetOutOfBounds));
            }
        },
        HostZone::Naive => {},
    }
    if !chrono_has_date(dt.date.year, dt.date.month, dt.date.day) {
        return Err(AdaptError::Extraction(ExtractionFailure::InvalidDate));
    }
    if !chrono_has_time(dt.time.hour, dt.time.minute, dt.time.second, dt.time.microsecond) {
        return Err(AdaptError::Extraction(ExtractionFailure::InvalidTime));
    }
    let local = EngineDateTime { date: dt.date, time: time_for_engine(&dt.time) };
    match dt.zone {
        HostZone::Fixed(offset) => {
            if chrono_has_instant(&local, offset) {
                Ok(RustValue::ChronoDateTimeWithTimeZone(EngineZoned { local, offset }))
            } else {
                Err(AdaptError::Extraction(ExtractionFailure::InstantOutOfRange))
            }
        },
        _ => Ok(RustValue::ChronoDateTime(local)),
    }
}

/// The single-precision number that the element of a vector stands for.
pub fn single_for_engine(object: &HostObject) -> (r: Result<u32, AdaptError>)
    ensures
        match r {
            Ok(single) => element_single(object@) == Ok::<u32, ErrorModel>(single),
            Err(e) => element_single(object@) == Err::<u32, ErrorModel>(e@),
        },
{
    let number = match &object.kind {
        HostKind::Float(number) => *number,
        HostKind::Int(i) => match i.float {
            Some(number) => number,
            None => {
                return Err(AdaptError::Extraction(ExtractionFailure::FloatOverflow));
            },
        },
        other => {
            return Err(AdaptError::VectorElement { actual: other.get_type_name() });
        },
    };
    match number.single {
        Some(single) => Ok(single),
        None => Err(AdaptError::Extraction(ExtractionFailure::NoSinglePrecision)),
    }
}

impl DeserializedValue {
    /// Converts the value to the engine's side.
    ///
    /// Scalars and bytes pass unchanged. A string gives its UTF-8 bytes. An
    /// object with a JSON form gives the document that the engine reads from
    /// the text of the host's encoder. A date, a time or a datetime gives the
    /// engine's, where it exists; whether a datetime has a time zone is
    /// settled here. A decimal gives the decimal that the engine reads from
    /// its text. The items of an array are converted in order and the first
    /// error is the array's. Each element of a vector gives its
    /// single-precision number.
    pub fn serialize(&self) -> (r: Result<RustValue, AdaptError>)
        ensures
            match r {
                Ok(v) => serialize_model(self@) == Ok::<EngineModel, ErrorModel>(v@) && v.wf(),
                Err(e) => serialize_model(self@) == Err::<EngineModel, ErrorModel>(e@),
            },
        decreases self,
    {
        match self {
            DeserializedValue::Null => Ok(RustValue::Null),
            DeserializedValue::Bool(b) => Ok(RustValue::Bool(*b)),
            DeserializedValue::BigInt(x) => Ok(RustValue::BigInt(*x)),
            DeserializedValue::BigUnsigned(x) => Ok(RustValue::BigUnsigned(*x)),
            DeserializedValue::Double(bits) => Ok(RustValue::Double(*bits)),
            DeserializedValue::String(s) => {
                proof {
                    encode_utf8_valid_utf8(s@);
                }
                Ok(RustValue::String(s.as_str().as_bytes_vec()))
            },
            DeserializedValue::Bytes(bytes) => Ok(RustValue::Bytes(copy_items(bytes))),
            DeserializedValue::Json(object) => match serialize_object_with_pyjson(object) {
                Ok(text) => json_outcome(read_json(text.as_str())),
                Err(e) => Err(e),
            },
            DeserializedValue::ChronoDate(d) => {
                if chrono_has_date(d.year, d.month, d.day) {
                    Ok(RustValue::ChronoDate(*d))
                } else {
                    Err(AdaptError::Extraction(ExtractionFailure::InvalidDate))
                }
            },
            DeserializedValue::ChronoTime(t) => {
                if chrono_has_time(t.hour, t.minute, t.second, t.microsecond) {
                    Ok(RustValue::ChronoTime(time_for_engine(t)))
                } else {
                    Err(AdaptError::Extraction(ExtractionFailure::InvalidTime))
                }
            },
            DeserializedValue::ChronoDateTime(dt) => datetime_for_engine(dt),
            DeserializedValue::Uuid(u) => Ok(RustValue::Uuid(*u)),
            DeserializedValue::Decimal(text) => decimal_outcome(read_decimal(text.as_str())),
            DeserializedValue::Array(items) => {
                let ghost results = serialize_each(dyn_models(*items));
                let mut out: Vec<RustValue> = Vec::new();
                let mut i: usize = 0;
                proof {
                    collect_ends(results);
                    assert(engine_models(out) =~= Seq::<EngineModel>::empty());
                }
                while i < items.len()
                    invariant
                        self is Array,
                        self->Array_0 == *items,
                        0 <= i <= items.len(),
                        out.len() == i,
                        results == serialize_each(dyn_models(*items)),
                        collect(results.take(i as int)) == Ok::<Seq<EngineModel>, ErrorModel>(
                            engine_models(out),
                        ),
                        forall|j: int| 0 <= j < i ==> engine_valid(#[trigger] engine_models(out)[j]),
                    decreases items.len() - i,
                {
                    proof {
                        collect_step(results, i as int);
                        assert(dyn_models(*items)[i as int] == items[i as int]@);
                    }
                    match items[i].serialize() {
                        Ok(value) => {
                            let ghost before = engine_models(out);
                            out.push(value);
                            assert(engine_models(out) =~= before.push(value@));
                        },
                        Err(e) => {
                            proof {
                                collect_err(results, i + 1);
                            }
                            return Err(e);
                        },
                    }
                    i = i + 1;
                }
                proof {
                    collect_ends(results);
                }
                Ok(RustValue::Array(out))
            },
            DeserializedValue::Vector(items) => {
                let ghost results = objects_model(*items).map_values(
                    |o: HostModel| element_single(o),
                );
                let mut out: Vec<u32> = Vec::new();
                let mut i: usize = 0;
                proof {
                    collect_ends(results);
                    assert(out@ =~= Seq::<u32>::empty());
                }
                while i < items.len()
                    invariant
                        self is Vector,
                        self->Vector_0 == *items,
                        0 <= i <= items.len(),
                        results == objects_model(*items).map_values(
                            |o: HostModel| element_single(o),
                        ),
                        collect(results.take(i as int)) == Ok::<Seq<u32>, ErrorModel>(out@),
                    decreases items.len() - i,
                {
                    proof {
                        collect_step(results, i as int);
                        assert(objects_model(*items)[i as int] == items[i as int]@);
                    }
                    match single_for_engine(&items[i]) {
                        Ok(single) => {
                            out.push(single);
                        },
                        Err(e) => {
                            proof {
                                collect_err(results, i + 1);
                            }
                            return Err(e);
                        },
                    }
                    i = i + 1;
                }
                proof {
                    collect_ends(results);
                }
                Ok(RustValue::Vector(out))
            },
        }
    }
}

impl Clone for DeserializedValue {
    fn clone(&self) -> (r: Self)
        ensures
            r@ == self@,
    {
        self.duplicate()
    }
}

} // verus!
