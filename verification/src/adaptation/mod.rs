//! Adapted values: one value in two forms, the host's and the engine's.
//!
//! A [`ReturnableValue`] is made of a host object, checked against a declared
//! column type or classified by its own runtime type, or of an engine value.
//! It holds the form in which it was made and works out the other one when it
//! is first asked for, once.

use vstd::prelude::*;
use crate::column::convert::{
    convert_to_column_type, declared_type, declared_types_are_supported, TypeDeclaration,
};
use crate::column::ColumnType;
use crate::error::{AdaptError, ErrorModel, ExpectedType, ExtractionFailure};
use crate::host::{objects_model, HostInt, HostKind, HostModel, HostObject};
use self::builder::{builder_of, Value};
use self::common::validate_json_object;
use self::deserialize::{dyn_models, DeserializedValue};
use self::model::{
    adapt_each, adapt_model, adapt_same, bound_model, collect, collect_ends, collect_err,
    collect_step, deserialize_model, engine_equal, engine_valid, infer_model, serialize_model,
    signed_of,
    unsigned_of, vector_element, DynModel, EngineModel,
};
use self::serialize::RustValue;

pub mod builder;
pub mod common;
pub mod deserialize;
pub mod laws;
pub mod model;
pub mod serialize;

verus! {

/// The error of a host value whose runtime type is not the expected one.
pub fn type_mismatch(expected: ExpectedType, object: &HostObject) -> (r: AdaptError)
    ensures
        r@ == model::mismatch(expected, object@),
{
    AdaptError::TypeMismatch { expected, actual: object.kind.get_type_name() }
}

/// The 64-bit signed integer of a host integer.
pub fn signed_for(i: &HostInt) -> (r: Result<DeserializedValue, AdaptError>)
    ensures
        match r {
            Ok(v) => signed_of(*i) == Ok::<DynModel, ErrorModel>(v@),
            Err(e) => signed_of(*i) == Err::<DynModel, ErrorModel>(e@),
        },
{
    match i.value {
        Some(v) => {
            if -0x8000_0000_0000_0000 <= v && v <= 0x7fff_ffff_ffff_ffff {
                Ok(DeserializedValue::BigInt(v as i64))
            } else {
                Err(AdaptError::Extraction(ExtractionFailure::SignedOverflow))
            }
        },
        None => Err(AdaptError::Extraction(ExtractionFailure::SignedOverflow)),
    }
}

/// The 64-bit unsigned integer of a host integer.
pub fn unsigned_for(i: &HostInt) -> (r: Result<DeserializedValue, AdaptError>)
    ensures
        match r {
            Ok(v) => unsigned_of(*i) == Ok::<DynModel, ErrorModel>(v@),
            Err(e) => unsigned_of(*i) == Err::<DynModel, ErrorModel>(e@),
        },
{
    match i.value {
        Some(v) => {
            if 0 <= v && v <= 0xffff_ffff_ffff_ffff {
                Ok(DeserializedValue::BigUnsigned(v as u64))
            } else {
                Err(AdaptError::Extraction(ExtractionFailure::UnsignedOverflow))
            }
        },
        None => Err(AdaptError::Extraction(ExtractionFailure::UnsignedOverflow)),
    }
}

/// Checks that every object of a list may stand in a vector.
pub fn check_vector(items: &Vec<HostObject>) -> (r: Result<(), AdaptError>)
    ensures
        match r {
            Ok(_) => collect(objects_model(*items).map_values(|o: HostModel| vector_element(o)))
                is Ok,
            Err(e) => collect(objects_model(*items).map_values(|o: HostModel| vector_element(o)))
                == Err::<Seq<HostModel>, ErrorModel>(e@),
        },
{
    let ghost results = objects_model(*items).map_values(|o: HostModel| vector_element(o));
    let mut i: usize = 0;
    proof {
        collect_ends(results);
    }
    while i < items.len()
        invariant
            0 <= i <= items.len(),
            results == objects_model(*items).map_values(|o: HostModel| vector_element(o)),
            collect(results.take(i as int)) is Ok,
        decreases items.len() - i,
    {
        proof {
            collect_step(results, i as int);
            assert(objects_model(*items)[i as int] == items[i as int]@);
        }
        match &items[i].kind {
            HostKind::Float(_) | HostKind::Int(_) => {},
            other => {
                proof {
                    collect_err(results, i + 1);
                }
                return Err(AdaptError::VectorElement { actual: other.get_type_name() });
            },
        }
        i = i + 1;
    }
    proof {
        collect_ends(results);
    }
    Ok(())
}

/// Adapts a host object to a declared column type: checks that its runtime
/// type is the one that the column type asks for, and takes out its value.
pub fn adapt(object: &HostObject, ty: &ColumnType) -> (r: Result<DeserializedValue, AdaptError>)
    requires
        ty.supported(),
    ensures
        match r {
            Ok(v) => adapt_model(object@, *ty) == Ok::<DynModel, ErrorModel>(v@),
            Err(e) => adapt_model(object@, *ty) == Err::<DynModel, ErrorModel>(e@),
        },
    decreases object,
{
    match ty {
        ColumnType::Boolean => match &object.kind {
            HostKind::Bool(b) => Ok(DeserializedValue::Bool(*b)),
            _ => Err(type_mismatch(ExpectedType::Bool, object)),
        },
        ColumnType::TinyInteger
        | ColumnType::SmallInteger
        | ColumnType::Integer
        | ColumnType::BigInteger
        | ColumnType::Year => match &object.kind {
            HostKind::Int(i) => signed_for(i),
            HostKind::Bool(b) => Ok(
                DeserializedValue::BigInt(
                    if *b {
                        1
                    } else {
                        0
                    },
                ),
            ),
            _ => Err(type_mismatch(ExpectedType::Int, object)),
        },
        ColumnType::TinyUnsigned
        | ColumnType::SmallUnsigned
        | ColumnType::Unsigned
        | ColumnType::BigUnsigned => match &object.kind {
            HostKind::Int(i) => unsigned_for(i),
            HostKind::Bool(b) => Ok(
                DeserializedValue::BigUnsigned(
                    if *b {
                        1
                    } else {
                        0
                    },
                ),
            ),
            _ => Err(type_mismatch(ExpectedType::Int, object)),
        },
        ColumnType::Char(_)
        | ColumnType::String(_)
        | ColumnType::Text
        | ColumnType::Interval(_, _)
        | ColumnType::Cidr
        | ColumnType::Inet
        | ColumnType::MacAddr
        | ColumnType::LTree
        | ColumnType::Enum { .. } => match &object.kind {
            HostKind::Str(s) => Ok(DeserializedValue::String(s.clone())),
            _ => Err(type_mismatch(ExpectedType::Str, object)),
        },
        ColumnType::Blob
        | ColumnType::Binary(_)
        | ColumnType::VarBinary(_)
        | ColumnType::Bit(_)
        | ColumnType::VarBit(_) => match &object.kind {
            HostKind::Bytes(bytes) => Ok(DeserializedValue::Bytes(crate::host::copy_items(bytes))),
            _ => Err(type_mismatch(ExpectedType::Bytes, object)),
        },
        ColumnType::Float | ColumnType::Double => match &object.kind {
            HostKind::Float(number) => Ok(DeserializedValue::Double(number.double)),
            HostKind::Int(i) => match i.float {
                Some(number) => Ok(DeserializedValue::Double(number.double)),
                None => Err(AdaptError::Extraction(ExtractionFailure::FloatOverflow)),
            },
            _ => Err(type_mismatch(ExpectedType::FloatOrInt, object)),
        },
        ColumnType::Decimal(_) | ColumnType::Money(_) => match &object.kind {
            HostKind::Decimal(text) => Ok(DeserializedValue::Decimal(text.clone())),
            _ => Err(type_mismatch(ExpectedType::Decimal, object)),
        },
        ColumnType::DateTime | ColumnType::Timestamp | ColumnType::TimestampWithTimeZone => match &object.kind {
            HostKind::DateTime(dt) => Ok(DeserializedValue::ChronoDateTime(*dt)),
            _ => Err(type_mismatch(ExpectedType::DateTime, object)),
        },
        ColumnType::Time => match &object.kind {
            HostKind::Time(t) => Ok(DeserializedValue::ChronoTime(*t)),
            _ => Err(type_mismatch(ExpectedType::Time, object)),
        },
        ColumnType::Date => match &object.kind {
            HostKind::Date(d) => Ok(DeserializedValue::ChronoDate(*d)),
            _ => Err(type_mismatch(ExpectedType::Date, object)),
        },
        ColumnType::Json | ColumnType::JsonBinary => match validate_json_object(object) {
            Ok(_) => Ok(DeserializedValue::Json(object.duplicate())),
            Err(e) => Err(e),
        },
        ColumnType::Uuid => match &object.kind {
            HostKind::Uuid(u) => Ok(DeserializedValue::Uuid(*u)),
            _ => Err(type_mismatch(ExpectedType::Uuid, object)),
        },
        ColumnType::Custom(_) => vstd::pervasive::unreached(),
        ColumnType::Array(element) => match &object.kind {
            HostKind::List(items) => {
                let ghost results = adapt_each(objects_model(*items), **element);
                let mut values: Vec<DeserializedValue> = Vec::new();
                let mut i: usize = 0;
                proof {
                    collect_ends(results);
                    assert(dyn_models(values) =~= Seq::<DynModel>::empty());
                }
                while i < items.len()
                    invariant
                        object.kind is List,
                        object.kind->List_0 == *items,
                        *ty == ColumnType::Array(*element),
                        element.supported(),
                        0 <= i <= items.len(),
                        results == adapt_each(objects_model(*items), **element),
                        collect(results.take(i as int)) == Ok::<Seq<DynModel>, ErrorModel>(
                            dyn_models(values),
                        ),
                    decreases items.len() - i,
                {
                    proof {
                        collect_step(results, i as int);
                        assert(objects_model(*items)[i as int] == items[i as int]@);
                        assert(decreases_to!(object => object.kind));
                        assert(decreases_to!(object.kind => object.kind->List_0));
                    }
                    match adapt(&items[i], element) {
                        Ok(value) => {
                            let ghost before = dyn_models(values);
                            values.push(value);
                            assert(dyn_models(values) =~= before.push(value@));
                        },
                        Err(e) => {
                            proof {
                                collect_err(results, i + 1);
                            }
                            return Err(e);
                        },
                    }
                    i = i + 1;
                }
                proof {
                    collect_ends(results);
                }
                Ok(DeserializedValue::Array(values))
            },
            _ => Err(type_mismatch(ExpectedType::List, object)),
        },
        ColumnType::Vector(_) => match &object.kind {
            HostKind::List(items) => match check_vector(items) {
                Ok(_) => Ok(DeserializedValue::Vector(crate::host::duplicate_all(items))),
                Err(e) => Err(e),
            },
            _ => Err(type_mismatch(ExpectedType::ListOfFloats, object)),
        },
    }
}

/// Classifies a host object by its own runtime type, where no column type is
/// declared. An integer is taken as a 64-bit signed integer, a float as a
/// double; a boolean is a boolean and never an integer; a dictionary or a
/// list is a JSON value if it has a JSON form.
pub fn infer(object: &HostObject) -> (r: Result<DeserializedValue, AdaptError>)
    ensures
        match r {
            Ok(v) => infer_model(object@) == Ok::<DynModel, ErrorModel>(v@),
            Err(e) => infer_model(object@) == Err::<DynModel, ErrorModel>(e@),
        },
{
    match &object.kind {
        HostKind::Int(_) => adapt(object, &ColumnType::BigInteger),
        HostKind::Float(_) => adapt(object, &ColumnType::Double),
        HostKind::Str(s) => Ok(DeserializedValue::String(s.clone())),
        HostKind::Bool(b) => Ok(DeserializedValue::Bool(*b)),
        HostKind::Bytes(bytes) => Ok(DeserializedValue::Bytes(crate::host::copy_items(bytes))),
        HostKind::Dict | HostKind::List(_) => match validate_json_object(object) {
            Ok(_) => Ok(DeserializedValue::Json(object.duplicate())),
            Err(e) => Err(e),
        },
        HostKind::Decimal(text) => Ok(DeserializedValue::Decimal(text.clone())),
        HostKind::DateTime(dt) => Ok(DeserializedValue::ChronoDateTime(*dt)),
        HostKind::Date(d) => Ok(DeserializedValue::ChronoDate(*d)),
        HostKind::Time(t) => Ok(DeserializedValue::ChronoTime(*t)),
        HostKind::Uuid(u) => Ok(DeserializedValue::Uuid(*u)),
        other => Err(AdaptError::UnrecognizedType(other.get_type_name())),
    }
}

/// The declaration that stands behind a reference, if there is one.
pub open spec fn referent(declared: Option<&TypeDeclaration>) -> Option<TypeDeclaration> {
    match declared {
        Some(declaration) => Some(*declaration),
        None => None,
    }
}

/// A value between the host and the engine. It holds the value in the host's
/// form, in the engine's form, or in both, and never in neither.
#[derive(Debug)]
pub struct ReturnableValue {
    deserialized: Option<DeserializedValue>,
    serialized: Option<RustValue>,
}

impl ReturnableValue {
    /// The value in the host's form, where it is held.
    pub closed spec fn host_side(self) -> Option<DynModel> {
        match self.deserialized {
            Some(value) => Some(value@),
            None => None,
        }
    }

    /// The value in the engine's form, where it is held.
    pub closed spec fn engine_side(self) -> Option<EngineModel> {
        match self.serialized {
            Some(value) => Some(value@),
            None => None,
        }
    }

    /// Whether the two forms, where both are held, are forms of one value:
    /// one of them is what the other converts to.
    pub open spec fn coherent(self) -> bool {
        match (self.host_side(), self.engine_side()) {
            (Some(host), Some(engine)) => serialize_model(host) == Ok::<EngineModel, ErrorModel>(
                engine,
            ) || deserialize_model(engine) == Ok::<DynModel, ErrorModel>(host),
            _ => true,
        }
    }

    /// The invariant: a form is held, the engine's form is one that the
    /// engine can hold, and two forms are forms of one value.
    pub open spec fn wf(self) -> bool {
        &&& self.host_side() is Some || self.engine_side() is Some
        &&& self.engine_side() matches Some(engine) ==> engine_valid(engine)
        &&& self.coherent()
    }

    /// The engine's form of the value: the one that is held, else what the
    /// host's form converts to.
    pub open spec fn engine_form(self) -> Result<EngineModel, ErrorModel> {
        match self.engine_side() {
            Some(engine) => Ok(engine),
            None => serialize_model(self.host_side()->Some_0),
        }
    }

    /// The engine's form that is held once the engine's form has been asked
    /// for: the one that was held, else what the host's form converts to,
    /// where it converts.
    pub open spec fn engine_after(self) -> Option<EngineModel> {
        match self.engine_form() {
            Ok(engine) => Some(engine),
            Err(_) => None,
        }
    }

    /// The host's form that is held once the host's form has been asked for:
    /// the one that was held, else what the engine's form converts to, where
    /// it converts.
    pub open spec fn host_after(self) -> Option<DynModel> {
        match self.host_form() {
            Ok(host) => Some(host),
            Err(_) => None,
        }
    }

    /// The host's form of the value: the one that is held, else what the
    /// engine's form converts to.
    pub open spec fn host_form(self) -> Result<DynModel, ErrorModel> {
        match self.host_side() {
            Some(host) => Ok(host),
            None => deserialize_model(self.engine_side()->Some_0),
        }
    }

    /// A value held in the host's form.
    pub fn from_deserialized(value: DeserializedValue) -> (r: Self)
        ensures
            r.host_side() == Some(value@),
            r.engine_side() is None,
            r.wf(),
    {
        ReturnableValue { deserialized: Some(value), serialized: None }
    }

    /// A value held in the engine's form.
    pub fn from_serialized(value: RustValue) -> (r: Self)
        ensures
            r.host_side() is None,
            r.engine_side() == Some(value@),
            value.wf() ==> r.wf(),
    {
        ReturnableValue { deserialized: None, serialized: Some(value) }
    }

    /// Adapts a host object to a declared column type. The runtime type of
    /// the object has to be exactly the one that the column type asks for.
    /// The result holds the host's form only.
    pub fn with_specific_type(object: HostObject, ty: &ColumnType) -> (r: Result<Self, AdaptError>)
        requires
            ty.supported(),
        ensures
            match r {
                Ok(v) => {
                    &&& adapt_model(object@, *ty) is Ok
                    &&& v.host_side() == Some(adapt_model(object@, *ty)->Ok_0)
                    &&& v.engine_side() is None
                    &&& v.wf()
                },
                Err(e) => adapt_model(object@, *ty) == Err::<DynModel, ErrorModel>(e@),
            },
    {
        match adapt(&object, ty) {
            Ok(value) => Ok(Self::from_deserialized(value)),
            Err(e) => Err(e),
        }
    }

    /// Classifies a host object by its own runtime type, where no column
    /// type is declared. The result holds the host's form only.
    pub fn infer_pyobject_type(object: HostObject) -> (r: Result<Self, AdaptError>)
        ensures
            match r {
                Ok(v) => {
                    &&& infer_model(object@) is Ok
                    &&& v.host_side() == Some(infer_model(object@)->Ok_0)
                    &&& v.engine_side() is None
                    &&& v.wf()
                },
                Err(e) => infer_model(object@) == Err::<DynModel, ErrorModel>(e@),
            },
    {
        match infer(&object) {
            Ok(value) => Ok(Self::from_deserialized(value)),
            Err(e) => Err(e),
        }
    }

    /// Makes an adapted value of a host object and what the host gave as its
    /// column type, if anything.
    ///
    /// The host's null gives the null value with both forms in place,
    /// whatever was given as the type. Else, with no type the object is
    /// classified by its own runtime type; with a column type declaration it
    /// is adapted to the declared type; with anything else as the type the
    /// call fails.
    pub fn from_bound(object: HostObject, declared: Option<&TypeDeclaration>) -> (r: Result<
        Self,
        AdaptError,
    >)
        ensures
            match r {
                Ok(v) => {
                    &&& v.wf()
                    &&& v.host_side() is Some
                    &&& bound_model(object@, referent(declared)) == Ok::<DynModel, ErrorModel>(
                        v.host_side()->Some_0,
                    )
                    &&& v.engine_side() == (if object@.kind is Null {
                        Some(EngineModel::Null)
                    } else {
                        None
                    })
                },
                Err(e) => bound_model(object@, referent(declared)) == Err::<DynModel, ErrorModel>(
                    e@,
                ),
            },
    {
        if let HostKind::Null = &object.kind {
            return Ok(
                ReturnableValue {
                    deserialized: Some(DeserializedValue::Null),
                    serialized: Some(RustValue::Null),
                },
            );
        }
        match declared {
            None => Self::infer_pyobject_type(object),
            Some(declaration) => match convert_to_column_type(declaration) {
                None => Err(AdaptError::UnknownColumnType),
                Some(ty) => {
                    proof {
                        declared_types_are_supported(*declaration);
                        declared_type(*declaration).same_supported(ty);
                        adapt_same(object@, declared_type(*declaration), ty);
                    }
                    Self::with_specific_type(object, &ty)
                },
            },
        }
    }

    /// The value in the engine's form. It is worked out of the host's form
    /// when it is first asked for, and kept; a form that is held is handed
    /// out as it is. A conversion that fails leaves the value as it was.
    pub fn serialize(&mut self) -> (r: Result<&RustValue, AdaptError>)
        requires
            old(self).wf(),
        ensures
            final(self).wf(),
            final(self).host_side() == old(self).host_side(),
            final(self).engine_side() == old(self).engine_after(),
            match r {
                Ok(v) => old(self).engine_form() == Ok::<EngineModel, ErrorModel>(v@),
                Err(e) => old(self).engine_form() == Err::<EngineModel, ErrorModel>(e@),
            },
    {
        if self.serialized.is_none() {
            match &self.deserialized {
                Some(value) => match value.serialize() {
                    Ok(engine) => {
                        self.serialized = Some(engine);
                    },
                    Err(e) => {
                        return Err(e);
                    },
                },
                None => vstd::pervasive::unreached(),
            }
        }
        match &self.serialized {
            Some(engine) => Ok(engine),
            None => vstd::pervasive::unreached(),
        }
    }

    /// The value in the host's form. It is worked out of the engine's form
    /// when it is first asked for, and kept; a form that is held is handed
    /// out as it is. A conversion that fails leaves the value as it was.
    pub fn deserialize(&mut self) -> (r: Result<&DeserializedValue, AdaptError>)
        requires
            old(self).wf(),
        ensures
            final(self).wf(),
            final(self).engine_side() == old(self).engine_side(),
            final(self).host_side() == old(self).host_after(),
            match r {
                Ok(v) => old(self).host_form() == Ok::<DynModel, ErrorModel>(v@),
                Err(e) => old(self).host_form() == Err::<DynModel, ErrorModel>(e@),
            },
    {
        if self.deserialized.is_none() {
            match &self.serialized {
                Some(value) => match value.deserialize() {
                    Ok(host) => {
                        self.deserialized = Some(host);
                    },
                    Err(e) => {
                        return Err(e);
                    },
                },
                None => vstd::pervasive::unreached(),
            }
        }
        match &self.deserialized {
            Some(host) => Ok(host),
            None => vstd::pervasive::unreached(),
        }
    }

    /// The value as the literal of an expression of the SQL builder: the
    /// engine's form is worked out if it is not held, and handed out as a
    /// value of the builder.
    pub fn create_simple_expr(&mut self) -> (r: Result<Value, AdaptError>)
        requires
            old(self).wf(),
        ensures
            final(self).wf(),
            final(self).host_side() == old(self).host_side(),
            final(self).engine_side() == old(self).engine_after(),
            match r {
                Ok(v) => old(self).engine_form() is Ok && v@ == builder_of(
                    old(self).engine_form()->Ok_0,
                ),
                Err(e) => old(self).engine_form() == Err::<EngineModel, ErrorModel>(e@),
            },
    {
        match self.serialize() {
            Ok(engine) => Ok(Value::from(engine)),
            Err(e) => Err(e),
        }
    }

    /// A copy of the value, with a copy of each form that is held.
    pub fn duplicate(&self) -> (r: Self)
        ensures
            r.host_side() == self.host_side(),
            r.engine_side() == self.engine_side(),
    {
        let deserialized = match &self.deserialized {
            Some(value) => Some(value.duplicate()),
            None => None,
        };
        let serialized = match &self.serialized {
            Some(value) => Some(value.duplicate()),
            None => None,
        };
        ReturnableValue { deserialized, serialized }
    }
}

impl ReturnableValue {
    /// The value that holds `value` as its host form and nothing else.
    pub closed spec fn of_deserialized(value: DeserializedValue) -> ReturnableValue {
        ReturnableValue { deserialized: Some(value), serialized: None }
    }

    /// The value that holds `value` as its engine form and nothing else.
    pub closed spec fn of_serialized(value: RustValue) -> ReturnableValue {
        ReturnableValue { deserialized: None, serialized: Some(value) }
    }

    /// A value made of one form holds that form and no other.
    pub proof fn made_of_one_form(host: DeserializedValue, engine: RustValue)
        ensures
            Self::of_deserialized(host).host_side() == Some(host@),
            Self::of_deserialized(host).engine_side() is None,
            Self::of_deserialized(host).wf(),
            Self::of_serialized(engine).engine_side() == Some(engine@),
            Self::of_serialized(engine).host_side() is None,
            engine.wf() ==> Self::of_serialized(engine).wf(),
    {
    }
}

impl From<DeserializedValue> for ReturnableValue {
    fn from(value: DeserializedValue) -> (r: Self) {
        ReturnableValue { deserialized: Some(value), serialized: None }
    }
}

impl vstd::std_specs::convert::FromSpecImpl<DeserializedValue> for ReturnableValue {
    open spec fn obeys_from_spec() -> bool {
        true
    }

    open spec fn from_spec(value: DeserializedValue) -> Self {
        ReturnableValue::of_deserialized(value)
    }
}

impl From<RustValue> for ReturnableValue {
    fn from(value: RustValue) -> (r: Self) {
        ReturnableValue { deserialized: None, serialized: Some(value) }
    }
}

impl vstd::std_specs::convert::FromSpecImpl<RustValue> for ReturnableValue {
    open spec fn obeys_from_spec() -> bool {
        true
    }

    open spec fn from_spec(value: RustValue) -> Self {
        ReturnableValue::of_serialized(value)
    }
}

impl Clone for ReturnableValue {
    fn clone(&self) -> (r: Self)
        ensures
            r.host_side() == self.host_side(),
            r.engine_side() == self.engine_side(),
    {
        self.duplicate()
    }
}

/// The kind of an adapted value, as either of its forms shows it.
#[derive(Clone, Copy, Debug, PartialEq, Eq, Structural)]
pub enum ValueKind {
    Null,
    Integer,
    Float,
    Boolean,
    String,
    Date,
    DateTime,
    Time,
    Uuid,
    Bytes,
    Json,
    Decimal,
    Array,
    Vector,
}

/// The kind of a value in the host's form.
pub open spec fn host_kind(value: DynModel) -> ValueKind {
    match value {
        DynModel::Null => ValueKind::Null,
        DynModel::Bool(_) => ValueKind::Boolean,
        DynModel::BigInt(_) | DynModel::BigUnsigned(_) => ValueKind::Integer,
        DynModel::Double(_) => ValueKind::Float,
        DynModel::String(_) => ValueKind::String,
        DynModel::Bytes(_) => ValueKind::Bytes,
        DynModel::Json(_) => ValueKind::Json,
        DynModel::ChronoDate(_) => ValueKind::Date,
        DynModel::ChronoTime(_) => ValueKind::Time,
        DynModel::ChronoDateTime(_) => ValueKind::DateTime,
        DynModel::Uuid(_) => ValueKind::Uuid,
        DynModel::Decimal(_) => ValueKind::Decimal,
        DynModel::Array(_) => ValueKind::Array,
        DynModel::Vector(_) => ValueKind::Vector,
    }
}

/// The kind of a value in the engine's form.
pub open spec fn engine_kind(value: EngineModel) -> ValueKind {
    match value {
        EngineModel::Null => ValueKind::Null,
        EngineModel::Bool(_) => ValueKind::Boolean,
        EngineModel::BigInt(_) | EngineModel::BigUnsigned(_) => ValueKind::Integer,
        EngineModel::Double(_) => ValueKind::Float,
        EngineModel::String(_) => ValueKind::String,
        EngineModel::Bytes(_) => ValueKind::Bytes,
        EngineModel::Json(_) => ValueKind::Json,
        EngineModel::ChronoDate(_) => ValueKind::Date,
        EngineModel::ChronoTime(_) => ValueKind::Time,
        EngineModel::ChronoDateTime(_) | EngineModel::ChronoDateTimeWithTimeZone(_) =>
            ValueKind::DateTime,
        EngineModel::Uuid(_) => ValueKind::Uuid,
        EngineModel::Decimal(_) => ValueKind::Decimal,
        EngineModel::Array(_) => ValueKind::Array,
        EngineModel::Vector(_) => ValueKind::Vector,
    }
}

impl DeserializedValue {
    /// The kind of the value.
    pub fn kind(&self) -> (r: ValueKind)
        ensures
            r == host_kind(self@),
    {
        match self {
            DeserializedValue::Null => ValueKind::Null,
            DeserializedValue::Bool(_) => ValueKind::Boolean,
            DeserializedValue::BigInt(_) | DeserializedValue::BigUnsigned(_) => ValueKind::Integer,
            DeserializedValue::Double(_) => ValueKind::Float,
            DeserializedValue::String(_) => ValueKind::String,
            DeserializedValue::Bytes(_) => ValueKind::Bytes,
            DeserializedValue::Json(_) => ValueKind::Json,
            DeserializedValue::ChronoDate(_) => ValueKind::Date,
            DeserializedValue::ChronoTime(_) => ValueKind::Time,
            DeserializedValue::ChronoDateTime(_) => ValueKind::DateTime,
            DeserializedValue::Uuid(_) => ValueKind::Uuid,
            DeserializedValue::Decimal(_) => ValueKind::Decimal,
            DeserializedValue::Array(_) => ValueKind::Array,
            DeserializedValue::Vector(_) => ValueKind::Vector,
        }
    }
}

/// Whether a value on the host's side is a host object that is handed out
/// as it is, whenever the value is asked for. Of the null, of a boolean, of
/// a number and of an array a fresh object is made each time.
pub open spec fn is_held_object(value: DynModel) -> bool {
    match value {
        DynModel::Null
        | DynModel::Bool(_)
        | DynModel::BigInt(_)
        | DynModel::BigUnsigned(_)
        | DynModel::Double(_)
        | DynModel::Array(_) => false,
        _ => true,
    }
}

impl DeserializedValue {
    /// Whether the value is a host object that is handed out as it is.
    pub fn holds_object(&self) -> (r: bool)
        ensures
            r == is_held_object(self@),
    {
        match self {
            DeserializedValue::Null
            | DeserializedValue::Bool(_)
            | DeserializedValue::BigInt(_)
            | DeserializedValue::BigUnsigned(_)
            | DeserializedValue::Double(_)
            | DeserializedValue::Array(_) => false,
            _ => true,
        }
    }
}

impl RustValue {
    /// The kind of the value.
    pub fn kind(&self) -> (r: ValueKind)
        ensures
            r == engine_kind(self@),
    {
        match self {
            RustValue::Null => ValueKind::Null,
            RustValue::Bool(_) => ValueKind::Boolean,
            RustValue::BigInt(_) | RustValue::BigUnsigned(_) => ValueKind::Integer,
            RustValue::Double(_) => ValueKind::Float,
            RustValue::String(_) => ValueKind::String,
            RustValue::Bytes(_) => ValueKind::Bytes,
            RustValue::Json(_) => ValueKind::Json,
            RustValue::ChronoDate(_) => ValueKind::Date,
            RustValue::ChronoTime(_) => ValueKind::Time,
            RustValue::ChronoDateTime(_) | RustValue::ChronoDateTimeWithTimeZone(_) =>
                ValueKind::DateTime,
            RustValue::Uuid(_) => ValueKind::Uuid,
            RustValue::Decimal(_) => ValueKind::Decimal,
            RustValue::Array(_) => ValueKind::Array,
            RustValue::Vector(_) => ValueKind::Vector,
        }
    }
}

impl ReturnableValue {
    /// Whether the value is of the kind: whether a form that is held shows
    /// it. Either form may be the only one that is held.
    pub open spec fn shows(self, kind: ValueKind) -> bool {
        ||| self.host_side() matches Some(host) && host_kind(host) == kind
        ||| self.engine_side() matches Some(engine) && engine_kind(engine) == kind
    }

    /// Whether the value is of the kind.
    pub fn is_kind(&self, kind: ValueKind) -> (r: bool)
        ensures
            r == self.shows(kind),
    {
        let host = match &self.deserialized {
            Some(value) => value.kind() == kind,
            None => false,
        };
        let engine = match &self.serialized {
            Some(value) => value.kind() == kind,
            None => false,
        };
        host || engine
    }

    /// The host's form, where it is held.
    pub fn deserialized(&self) -> (r: Option<&DeserializedValue>)
        ensures
            match r {
                Some(value) => self.host_side() == Some(value@),
                None => self.host_side() is None,
            },
    {
        self.deserialized.as_ref()
    }

    /// The engine's form, where it is held.
    pub fn serialized(&self) -> (r: Option<&RustValue>)
        ensures
            match r {
                Some(value) => self.engine_side() == Some(value@),
                None => self.engine_side() is None,
            },
    {
        self.serialized.as_ref()
    }

    /// Whether the engine's form is held.
    pub fn has_serialized(&self) -> (r: bool)
        ensures
            r == self.engine_side() is Some,
    {
        self.serialized.is_some()
    }

    /// Whether the host's form is held.
    pub fn has_deserialized(&self) -> (r: bool)
        ensures
            r == self.host_side() is Some,
    {
        self.deserialized.is_some()
    }
}

/// How two adapted values compare.
#[derive(Debug, PartialEq, Eq)]
pub enum Comparison {
    /// The answer, settled on the engine's forms.
    Decided(bool),
    /// The host has to compare the two objects for equality; the answer is
    /// what the host says, turned round where `negate` is set.
    ByHost { left: HostObject, right: HostObject, negate: bool },
}

/// What a handle on an adapted value holds. The handle itself, with its lock
/// against concurrent use, belongs to the code that embeds the library.
#[derive(Debug)]
pub struct PyAdaptedValue {
    pub(crate) inner: ReturnableValue,
}

impl PyAdaptedValue {
    /// The adapted value behind the handle.
    pub closed spec fn state(self) -> ReturnableValue {
        self.inner
    }

    /// The adapted value behind the handle.
    pub fn inner(&self) -> (r: &ReturnableValue)
        ensures
            *r == self.state(),
    {
        &self.inner
    }

    /// Whether both values hold the engine's form, so that they compare on
    /// it without a call to the host.
    pub open spec fn both_serialized(self, other: PyAdaptedValue) -> bool {
        self.state().engine_side() is Some && other.state().engine_side() is Some
    }

    /// Makes the handle's value of a host object and what the host gave as
    /// its column type, if anything.
    pub fn new(value: HostObject, declared: Option<&TypeDeclaration>) -> (r: Result<Self, AdaptError>)
        ensures
            match r {
                Ok(v) => {
                    &&& v.state().wf()
                    &&& v.state().host_side() is Some
                    &&& bound_model(value@, referent(declared)) == Ok::<DynModel, ErrorModel>(
                        v.state().host_side()->Some_0,
                    )
                    &&& v.state().engine_side() == (if value@.kind is Null {
                        Some(EngineModel::Null)
                    } else {
                        None
                    })
                },
                Err(e) => bound_model(value@, referent(declared)) == Err::<DynModel, ErrorModel>(
                    e@,
                ),
            },
    {
        match ReturnableValue::from_bound(value, declared) {
            Ok(inner) => Ok(PyAdaptedValue { inner }),
            Err(e) => Err(e),
        }
    }

    /// The handle's value for an engine value, as the engine hands one back.
    pub fn from_serialized(value: RustValue) -> (r: Self)
        ensures
            r.state().host_side() is None,
            r.state().engine_side() == Some(value@),
            value.wf() ==> r.state().wf(),
    {
        PyAdaptedValue { inner: ReturnableValue::from_serialized(value) }
    }

    /// Whether the value is the null value.
    pub fn is_null(&self) -> (r: bool)
        ensures
            r == self.state().shows(ValueKind::Null),
    {
        self.inner.is_kind(ValueKind::Null)
    }

    /// Whether the value is an integer, signed or unsigned.
    pub fn is_integer(&self) -> (r: bool)
        ensures
            r == self.state().shows(ValueKind::Integer),
    {
        self.inner.is_kind(ValueKind::Integer)
    }

    /// Whether the value is a floating-point number.
    pub fn is_float(&self) -> (r: bool)
        ensures
            r == self.state().shows(ValueKind::Float),
    {
        self.inner.is_kind(ValueKind::Float)
    }

    /// Whether the value is a boolean.
    pub fn is_boolean(&self) -> (r: bool)
        ensures
            r == self.state().shows(ValueKind::Boolean),
    {
        self.inner.is_kind(ValueKind::Boolean)
    }

    /// Whether the value is a string.
    pub fn is_string(&self) -> (r: bool)
        ensures
            r == self.state().shows(ValueKind::String),
    {
        self.inner.is_kind(ValueKind::String)
    }

    /// Whether the value is a date.
    pub fn is_date(&self) -> (r: bool)
        ensures
            r == self.state().shows(ValueKind::Date),
    {
        self.inner.is_kind(ValueKind::Date)
    }

    /// Whether the value is a datetime, with or without a time zone.
    pub fn is_datetime(&self) -> (r: bool)
        ensures
            r == self.state().shows(ValueKind::DateTime),
    {
        self.inner.is_kind(ValueKind::DateTime)
    }

    /// Whether the value is a time of day.
    pub fn is_time(&self) -> (r: bool)
        ensures
            r == self.state().shows(ValueKind::Time),
    {
        self.inner.is_kind(ValueKind::Time)
    }

    /// Whether the value is a UUID.
    pub fn is_uuid(&self) -> (r: bool)
        ensures
            r == self.state().shows(ValueKind::Uuid),
    {
        self.inner.is_kind(ValueKind::Uuid)
    }

    /// Whether the value is a byte string.
    pub fn is_bytes(&self) -> (r: bool)
        ensures
            r == self.state().shows(ValueKind::Bytes),
    {
        self.inner.is_kind(ValueKind::Bytes)
    }

    /// Whether the value is a JSON value.
    pub fn is_json(&self) -> (r: bool)
        ensures
            r == self.state().shows(ValueKind::Json),
    {
        self.inner.is_kind(ValueKind::Json)
    }

    /// Whether the value is a decimal.
    pub fn is_decimal(&self) -> (r: bool)
        ensures
            r == self.state().shows(ValueKind::Decimal),
    {
        self.inner.is_kind(ValueKind::Decimal)
    }

    /// Whether the value is an array.
    pub fn is_array(&self) -> (r: bool)
        ensures
            r == self.state().shows(ValueKind::Array),
    {
        self.inner.is_kind(ValueKind::Array)
    }

    /// Whether the value is a vector.
    pub fn is_vector(&self) -> (r: bool)
        ensures
            r == self.state().shows(ValueKind::Vector),
    {
        self.inner.is_kind(ValueKind::Vector)
    }

    /// The host object that the value is. The host's form is worked out if
    /// it is not held.
    pub fn value(&mut self) -> (r: Result<HostObject, AdaptError>)
        requires
            old(self).state().wf(),
        ensures
            final(self).state().wf(),
            final(self).state().engine_side() == old(self).state().engine_side(),
            final(self).state().host_side() == old(self).state().host_after(),
            match r {
                Ok(object) => {
                    &&& old(self).state().host_form() is Ok
                    &&& object@ == model::host_of(old(self).state().host_form()->Ok_0)
                },
                Err(e) => old(self).state().host_form() == Err::<DynModel, ErrorModel>(e@),
            },
    {
        match self.inner.deserialize() {
            Ok(host) => Ok(host.as_pyobject()),
            Err(e) => Err(e),
        }
    }

    /// The host object whose hash is the hash of the value: the hash is the
    /// host's own, of the value in the host's form.
    pub fn __hash__(&mut self) -> (r: Result<HostObject, AdaptError>)
        requires
            old(self).state().wf(),
        ensures
            final(self).state().wf(),
            final(self).state().engine_side() == old(self).state().engine_side(),
            final(self).state().host_side() == old(self).state().host_after(),
            match r {
                Ok(object) => {
                    &&& old(self).state().host_form() is Ok
                    &&& object@ == model::host_of(old(self).state().host_form()->Ok_0)
                },
                Err(e) => old(self).state().host_form() == Err::<DynModel, ErrorModel>(e@),
            },
    {
        self.value()
    }

    /// What a comparison of two handles comes to. `before` and `other_before`
    /// are the values when the comparison starts, `after` and `other_after`
    /// when it ends.
    ///
    /// Where both hold the engine's form, they compare on it as the engine
    /// compares, part for part and each part as the engine's own type of it
    /// compares (see [`engine_equal`]), and neither changes. Else the host's form of each is worked out, of
    /// this one first, and the host is asked to compare the two objects; the
    /// first form that cannot be made is the error.
    pub open spec fn compared(
        before: ReturnableValue,
        other_before: ReturnableValue,
        after: ReturnableValue,
        other_after: ReturnableValue,
        negate: bool,
        outcome: Result<Comparison, AdaptError>,
    ) -> bool {
        &&& after.engine_side() == before.engine_side()
        &&& other_after.engine_side() == other_before.engine_side()
        &&& if before.engine_side() is Some && other_before.engine_side() is Some {
            &&& outcome == Ok::<Comparison, AdaptError>(
                Comparison::Decided(
                    engine_equal(
                        before.engine_side()->Some_0,
                        other_before.engine_side()->Some_0,
                    ) != negate,
                ),
            )
            &&& after.host_side() == before.host_side()
            &&& other_after.host_side() == other_before.host_side()
        } else {
            match outcome {
                Ok(Comparison::Decided(_)) => false,
                Ok(Comparison::ByHost { left, right, negate: turned }) => {
                    &&& before.host_form() is Ok
                    &&& other_before.host_form() is Ok
                    &&& left@ == model::host_of(before.host_form()->Ok_0)
                    &&& right@ == model::host_of(other_before.host_form()->Ok_0)
                    &&& turned == negate
                    &&& after.host_side() == Some(before.host_form()->Ok_0)
                    &&& other_after.host_side() == Some(other_before.host_form()->Ok_0)
                },
                Err(e) => {
                    ||| {
                        &&& before.host_form() == Err::<DynModel, ErrorModel>(e@)
                        &&& after.host_side() is None
                        &&& other_after.host_side() == other_before.host_side()
                    }
                    ||| {
                        &&& before.host_form() is Ok
                        &&& after.host_side() == Some(before.host_form()->Ok_0)
                        &&& other_before.host_form() == Err::<DynModel, ErrorModel>(e@)
                        &&& other_after.host_side() is None
                    }
                },
            }
        }
    }

    /// Compares the values of two handles, `negate` unset for "equal" and
    /// set for "not equal". See [`Self::compared`].
    pub fn compare(&mut self, other: &mut PyAdaptedValue, negate: bool) -> (r: Result<
        Comparison,
        AdaptError,
    >)
        requires
            old(self).state().wf(),
            old(other).state().wf(),
        ensures
            final(self).state().wf(),
            final(other).state().wf(),
            Self::compared(
                old(self).state(),
                old(other).state(),
                final(self).state(),
                final(other).state(),
                negate,
                r,
            ),
    {
        if self.inner.has_serialized() && other.inner.has_serialized() {
            let same = match (&self.inner.serialized, &other.inner.serialized) {
                (Some(x), Some(y)) => x.equals(y),
                _ => false,
            };
            return Ok(Comparison::Decided(same != negate));
        }
        let left = match self.inner.deserialize() {
            Ok(host) => host.as_pyobject(),
            Err(e) => {
                return Err(e);
            },
        };
        let right = match other.inner.deserialize() {
            Ok(host) => host.as_pyobject(),
            Err(e) => {
                return Err(e);
            },
        };
        Ok(Comparison::ByHost { left, right, negate })
    }

    /// Whether the values of two handles are equal. See [`Self::compared`].
    pub fn __eq__(&mut self, other: &mut PyAdaptedValue) -> (r: Result<Comparison, AdaptError>)
        requires
            old(self).state().wf(),
            old(other).state().wf(),
        ensures
            final(self).state().wf(),
            final(other).state().wf(),
            Self::compared(
                old(self).state(),
                old(other).state(),
                final(self).state(),
                final(other).state(),
                false,
                r,
            ),
    {
        self.compare(other, false)
    }

    /// Whether the values of two handles are unequal. See [`Self::compared`].
    pub fn __ne__(&mut self, other: &mut PyAdaptedValue) -> (r: Result<Comparison, AdaptError>)
        requires
            old(self).state().wf(),
            old(other).state().wf(),
        ensures
            final(self).state().wf(),
            final(other).state().wf(),
            Self::compared(
                old(self).state(),
                old(other).state(),
                final(self).state(),
                final(other).state(),
                true,
                r,
            ),
    {
        self.compare(other, true)
    }

    /// The answer of a comparison of a handle with itself: it is equal to
    /// itself and not unequal, whatever it holds, and nothing of its value is
    /// looked at. Whether two handles are one is the host's to find out.
    pub fn compare_same(negate: bool) -> (r: Comparison)
        ensures
            r == Comparison::Decided(!negate),
    {
        Comparison::Decided(!negate)
    }

    /// The answer of a comparison that the host was asked to make.
    pub fn conclude(host_says_equal: bool, negate: bool) -> (r: bool)
        ensures
            r == (host_says_equal != negate),
    {
        host_says_equal != negate
    }

    /// A copy of the handle's value, with a copy of each form that is held.
    pub fn copy(&self) -> (r: Self)
        ensures
            r.state().host_side() == self.state().host_side(),
            r.state().engine_side() == self.state().engine_side(),
    {
        PyAdaptedValue { inner: self.inner.duplicate() }
    }

    /// A copy of the handle's value. See [`Self::copy`].
    pub fn __copy__(&self) -> (r: Self)
        ensures
            r.state().host_side() == self.state().host_side(),
            r.state().engine_side() == self.state().engine_side(),
    {
        self.copy()
    }

    /// The literal that stands for the value in an SQL text: the value in
    /// the engine's form, worked out if it is not held, as a value of the
    /// SQL builder. The builder writes the text.
    pub fn to_sql(&mut self) -> (r: Result<Value, AdaptError>)
        requires
            old(self).state().wf(),
        ensures
            final(self).state().wf(),
            final(self).state().host_side() == old(self).state().host_side(),
            final(self).state().engine_side() == old(self).state().engine_after(),
            match r {
                Ok(v) => old(self).state().engine_form() is Ok && v@ == builder_of(
                    old(self).state().engine_form()->Ok_0,
                ),
                Err(e) => old(self).state().engine_form() == Err::<EngineModel, ErrorModel>(e@),
            },
    {
        self.inner.create_simple_expr()
    }
}

} // verus!
