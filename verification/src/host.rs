//! The host runtime's objects, as the library reads them.
//!
//! The host is a dynamically typed runtime. The library never touches one of
//! its objects: it works on a [`HostObject`], a record of what the runtime
//! reports of the object, taken by the code that embeds the library, and it
//! describes the objects that it wants made with the same type.

use vstd::prelude::*;
use crate::calendar::{Date, HostDateTime, HostTime};
use crate::text::owned;

verus! {

/// A floating-point number of the host.
#[derive(Clone, Copy, Debug, PartialEq, Eq, Structural)]
pub struct HostReal {
    /// The bit pattern of the double-precision number that it is.
    pub double: u64,
    /// The bit pattern of the single-precision number nearest to it, where
    /// the maker of the record has worked it out.
    pub single: Option<u32>,
}

/// An integer of the host, which has no fixed width.
#[derive(Clone, Copy, Debug, PartialEq, Eq, Structural)]
pub struct HostInt {
    /// The integer, where 128 bits hold it.
    pub value: Option<i128>,
    /// The integer as a floating-point number, where the host has converted
    /// it.
    pub float: Option<HostReal>,
}

/// What the host's JSON encoder makes of an object.
#[derive(Debug, PartialEq, Eq)]
pub enum HostJson {
    /// The encoder was not asked.
    NotEncoded,
    /// The encoder wrote this text.
    Text(String),
    /// The encoder rejected the object with this message.
    Rejected(String),
}

/// The mathematical form of a [`HostJson`].
pub enum HostJsonModel {
    NotEncoded,
    Text(Seq<char>),
    Rejected(Seq<char>),
}

impl View for HostJson {
    type V = HostJsonModel;

    open spec fn view(&self) -> HostJsonModel {
        match self {
            HostJson::NotEncoded => HostJsonModel::NotEncoded,
            HostJson::Text(text) => HostJsonModel::Text(text@),
            HostJson::Rejected(message) => HostJsonModel::Rejected(message@),
        }
    }
}

impl Clone for HostJson {
    fn clone(&self) -> (r: Self)
        ensures
            r@ == self@,
    {
        match self {
            HostJson::NotEncoded => HostJson::NotEncoded,
            HostJson::Text(text) => HostJson::Text(text.clone()),
            HostJson::Rejected(message) => HostJson::Rejected(message.clone()),
        }
    }
}

/// The exact runtime type of a host object, with the fields that the library
/// reads of an object of that type. An object of a subtype of one of the
/// types listed here is [`HostKind::Other`].
#[derive(Debug, PartialEq, Eq)]
pub enum HostKind {
    /// The host's null.
    Null,
    Bool(bool),
    Int(HostInt),
    Float(HostReal),
    Str(String),
    Bytes(Vec<u8>),
    /// A dictionary. The library reads it through the JSON encoder only.
    Dict,
    List(Vec<HostObject>),
    /// An arbitrary-precision decimal, by the text that the host prints for it.
    Decimal(String),
    DateTime(HostDateTime),
    Date(Date),
    Time(HostTime),
    /// A UUID, by its 128-bit integer.
    Uuid(u128),
    /// Whatever the host's JSON decoder makes of the text that stands in the
    /// object's `json` field. The library describes such an object and never
    /// reads one.
    Decoded,
    /// An object of any other type, by the qualified name of the type.
    Other(String),
}

/// A host object.
#[derive(Debug, PartialEq, Eq)]
pub struct HostObject {
    pub kind: HostKind,
    pub json: HostJson,
    /// A mark by which the maker of the record finds the host object again.
    /// The library hands it on with the record and never reads it; an object
    /// that the library describes has none.
    pub token: Option<u64>,
}

/// The mathematical form of a [`HostKind`].
pub enum HostKindModel {
    Null,
    Bool(bool),
    Int(HostInt),
    Float(HostReal),
    Str(Seq<char>),
    Bytes(Seq<u8>),
    Dict,
    List(Seq<HostModel>),
    Decimal(Seq<char>),
    DateTime(HostDateTime),
    Date(Date),
    Time(HostTime),
    Uuid(u128),
    Decoded,
    Other(Seq<char>),
}

/// The mathematical form of a [`HostObject`].
pub struct HostModel {
    pub kind: HostKindModel,
    pub json: HostJsonModel,
    pub token: Option<u64>,
}

/// The mathematical form of a host object.
pub open spec fn object_model(object: HostObject) -> HostModel
    decreases object,
{
    HostModel { kind: kind_model(object.kind), json: object.json@, token: object.token }
}

/// The mathematical form of a list of host objects.
pub open spec fn objects_model(objects: Vec<HostObject>) -> Seq<HostModel>
    decreases objects,
{
    Seq::new(
        objects.len() as nat,
        |i: int|
            if 0 <= i < objects.len() {
                object_model(objects[i])
            } else {
                HostModel { kind: HostKindModel::Null, json: HostJsonModel::NotEncoded, token: None }
            },
    )
}

/// The mathematical form of a host object's type and fields.
pub open spec fn kind_model(kind: HostKind) -> HostKindModel
    decreases kind,
{
    match kind {
        HostKind::Null => HostKindModel::Null,
        HostKind::Bool(b) => HostKindModel::Bool(b),
        HostKind::Int(i) => HostKindModel::Int(i),
        HostKind::Float(f) => HostKindModel::Float(f),
        HostKind::Str(s) => HostKindModel::Str(s@),
        HostKind::Bytes(b) => HostKindModel::Bytes(b@),
        HostKind::Dict => HostKindModel::Dict,
        HostKind::List(items) => HostKindModel::List(objects_model(items)),
        HostKind::Decimal(text) => HostKindModel::Decimal(text@),
        HostKind::DateTime(d) => HostKindModel::DateTime(d),
        HostKind::Date(d) => HostKindModel::Date(d),
        HostKind::Time(t) => HostKindModel::Time(t),
        HostKind::Uuid(u) => HostKindModel::Uuid(u),
        HostKind::Decoded => HostKindModel::Decoded,
        HostKind::Other(name) => HostKindModel::Other(name@),
    }
}

impl View for HostKind {
    type V = HostKindModel;

    open spec fn view(&self) -> HostKindModel {
        kind_model(*self)
    }
}

impl View for HostObject {
    type V = HostModel;

    open spec fn view(&self) -> HostModel {
        object_model(*self)
    }
}

impl HostKindModel {
    /// The qualified name of the runtime type.
    pub open spec fn qualified_name(self) -> Seq<char> {
        match self {
            HostKindModel::Null => "NoneType"@,
            HostKindModel::Bool(_) => "bool"@,
            HostKindModel::Int(_) => "int"@,
            HostKindModel::Float(_) => "float"@,
            HostKindModel::Str(_) => "str"@,
            HostKindModel::Bytes(_) => "bytes"@,
            HostKindModel::Dict => "dict"@,
            HostKindModel::List(_) => "list"@,
            HostKindModel::Decimal(_) => "decimal.Decimal"@,
            HostKindModel::DateTime(_) => "datetime.datetime"@,
            HostKindModel::Date(_) => "datetime.date"@,
            HostKindModel::Time(_) => "datetime.time"@,
            HostKindModel::Uuid(_) => "uuid.UUID"@,
            HostKindModel::Decoded => "object"@,
            HostKindModel::Other(name) => name,
        }
    }
}

impl HostKind {
    /// The qualified name of the runtime type.
    pub fn get_type_name(&self) -> (r: String)
        ensures
            r@ == self@.qualified_name(),
    {
        match self {
            HostKind::Null => owned("NoneType"),
            HostKind::Bool(_) => owned("bool"),
            HostKind::Int(_) => owned("int"),
            HostKind::Float(_) => owned("float"),
            HostKind::Str(_) => owned("str"),
            HostKind::Bytes(_) => owned("bytes"),
            HostKind::Dict => owned("dict"),
            HostKind::List(_) => owned("list"),
            HostKind::Decimal(_) => owned("decimal.Decimal"),
            HostKind::DateTime(_) => owned("datetime.datetime"),
            HostKind::Date(_) => owned("datetime.date"),
            HostKind::Time(_) => owned("datetime.time"),
            HostKind::Uuid(_) => owned("uuid.UUID"),
            HostKind::Decoded => owned("object"),
            HostKind::Other(name) => name.clone(),
        }
    }
}

/// A copy of a vector of plain items: of bytes, or of bit patterns.
pub fn copy_items<T: Copy>(items: &Vec<T>) -> (r: Vec<T>)
    ensures
        r@ == items@,
{
    let mut out: Vec<T> = Vec::new();
    let mut i: usize = 0;
    while i < items.len()
        invariant
            0 <= i <= items.len(),
            out@ == items@.take(i as int),
        decreases items.len() - i,
    {
        out.push(items[i]);
        assert(items@.take(i + 1) == items@.take(i as int).push(items@[i as int]));
        i = i + 1;
    }
    assert(items@.take(items.len() as int) == items@);
    out
}

impl HostObject {
    /// A host object of the given type that the library describes: the JSON
    /// encoder was not asked about it, and it has no mark.
    pub fn plain(kind: HostKind) -> (r: Self)
        ensures
            r@ == (HostModel { kind: kind@, json: HostJsonModel::NotEncoded, token: None }),
    {
        HostObject { kind, json: HostJson::NotEncoded, token: None }
    }

    /// A copy of the object. The host keeps count of the holders of each of
    /// its objects; a copy stands for one more holder.
    pub fn duplicate(&self) -> (r: Self)
        ensures
            r@ == self@,
        decreases self,
    {
        let kind = match &self.kind {
            HostKind::Null => HostKind::Null,
            HostKind::Bool(b) => HostKind::Bool(*b),
            HostKind::Int(i) => HostKind::Int(*i),
            HostKind::Float(f) => HostKind::Float(*f),
            HostKind::Str(s) => HostKind::Str(s.clone()),
            HostKind::Bytes(b) => HostKind::Bytes(copy_items(b)),
            HostKind::Dict => HostKind::Dict,
            HostKind::List(items) => {
                let copies = duplicate_all(items);
                HostKind::List(copies)
            },
            HostKind::Decimal(text) => HostKind::Decimal(text.clone()),
            HostKind::DateTime(d) => HostKind::DateTime(*d),
            HostKind::Date(d) => HostKind::Date(*d),
            HostKind::Time(t) => HostKind::Time(*t),
            HostKind::Uuid(u) => HostKind::Uuid(*u),
            HostKind::Decoded => HostKind::Decoded,
            HostKind::Other(name) => HostKind::Other(name.clone()),
        };
        HostObject { kind, json: self.json.clone(), token: self.token }
    }
}

/// Copies of the objects of a list, in order.
pub fn duplicate_all(objects: &Vec<HostObject>) -> (r: Vec<HostObject>)
    ensures
        objects_model(r) == objects_model(*objects),
    decreases objects,
{
    let mut out: Vec<HostObject> = Vec::new();
    let mut i: usize = 0;
    while i < objects.len()
        invariant
            0 <= i <= objects.len(),
            out.len() == i,
            forall|j: int| 0 <= j < i ==> out[j]@ == objects[j]@,
        decreases objects.len() - i,
    {
        let copy = objects[i].duplicate();
        out.push(copy);
        i = i + 1;
    }
    assert(objects_model(out) =~= objects_model(*objects));
    out
}

impl Clone for HostObject {
    fn clone(&self) -> (r: Self)
        ensures
            r@ == self@,
    {
        self.duplicate()
    }
}

} // verus!
