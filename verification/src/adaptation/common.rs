//! The bridge to JSON.
//!
//! A host object's JSON form is the text that the host's own encoder writes
//! for it, so that numbers, key order and custom encoders come out as the
//! host's application expects. The engine reads that text with `serde_json`.

use vstd::prelude::*;
use crate::column::convert::{PlainColumn, TypeDeclaration};
use crate::error::{AdaptError, ErrorModel};
use crate::host::{HostJson, HostJsonModel, HostKind, HostKindModel, HostModel, HostObject};

verus! {

/// The compact text that `serde_json` writes for the document that it reads
/// from `text`, and `None` where it reads no document.
pub uninterp spec fn json_canonical(text: Seq<char>) -> Option<Seq<char>>;

/// Reads a JSON document with `serde_json::from_str` and writes it again with
/// `serde_json::to_string`.
///
/// Trusted: the result is [`json_canonical`] of the text by definition.
#[verifier::external_body]
pub(crate) fn read_json(text: &str) -> (r: Option<String>)
    ensures
        r matches Some(document) ==> json_canonical(text@) == Some(document@),
        r is None ==> json_canonical(text@) is None,
{
    match serde_json::from_str::<serde_json::Value>(text) {
        Ok(value) => serde_json::to_string(&value).ok(),
        Err(_) => None,
    }
}

/// Whether `serde_json` finds the documents that it reads from two texts
/// equal, and `None` where it reads no document from one of them.
pub uninterp spec fn json_equal(a: Seq<char>, b: Seq<char>) -> Option<bool>;

/// Reads two JSON documents with `serde_json::from_str` and compares them
/// with `serde_json::Value`'s `==`.
///
/// Trusted: the result is [`json_equal`] of the two texts by definition.
#[verifier::external_body]
pub(crate) fn same_documents(a: &str, b: &str) -> (r: Option<bool>)
    ensures
        r == json_equal(a@, b@),
{
    let x = serde_json::from_str::<serde_json::Value>(a);
    let y = serde_json::from_str::<serde_json::Value>(b);
    match (x, y) {
        (Ok(x), Ok(y)) => Some(x == y),
        _ => None,
    }
}

/// Whether two JSON values of the engine are equal, given what comparing
/// their documents came to: what it came to, and where one of the texts is
/// no document, whether the texts are the same.
pub open spec fn documents_equal(outcome: Option<bool>, same_text: bool) -> bool {
    match outcome {
        Some(equal) => equal,
        None => same_text,
    }
}

/// Whether two JSON values of the engine are equal, given what comparing
/// their documents came to and whether their texts are the same.
pub fn documents_verdict(outcome: Option<bool>, same_text: bool) -> (r: bool)
    ensures
        r == documents_equal(outcome, same_text),
{
    match outcome {
        Some(equal) => equal,
        None => same_text,
    }
}

/// Whether the runtime type is one whose objects always have a JSON form:
/// integers, strings, floats and the host's null.
pub open spec fn always_json(kind: HostKindModel) -> bool {
    kind is Int || kind is Str || kind is Float || kind is Null
}

/// What the text of an object's JSON form comes to.
pub open spec fn json_text(json: HostJsonModel) -> Result<Seq<char>, ErrorModel> {
    match json {
        HostJsonModel::Text(text) => Ok(text),
        HostJsonModel::Rejected(message) => Err(ErrorModel::JsonCodec(message)),
        HostJsonModel::NotEncoded => Err(ErrorModel::JsonNotEncoded),
    }
}

/// Whether a host object has a JSON form. An object of one of the types of
/// [`always_json`] has one whatever the encoder says; of any other object the
/// encoder decides.
pub open spec fn json_probe(object: HostModel) -> Result<(), ErrorModel> {
    if always_json(object.kind) {
        Ok(())
    } else {
        match json_text(object.json) {
            Ok(_) => Ok(()),
            Err(e) => Err(e),
        }
    }
}

/// The text that the host's JSON encoder wrote for the object, or the error
/// with which it rejected the object.
pub fn serialize_object_with_pyjson(object: &HostObject) -> (r: Result<String, AdaptError>)
    ensures
        match r {
            Ok(text) => json_text(object@.json) == Ok::<Seq<char>, ErrorModel>(text@),
            Err(e) => json_text(object@.json) == Err::<Seq<char>, ErrorModel>(e@),
        },
{
    match &object.json {
        HostJson::Text(text) => Ok(text.clone()),
        HostJson::Rejected(message) => Err(AdaptError::JsonCodec(message.clone())),
        HostJson::NotEncoded => Err(AdaptError::JsonNotEncoded),
    }
}

/// The host object that the host's JSON decoder makes of a document.
pub fn deserialize_object_with_pyjson(document: String) -> (r: HostObject)
    ensures
        r@ == super::model::decoded(document@),
{
    HostObject { kind: HostKind::Decoded, json: HostJson::Text(document), token: None }
}

/// Checks that a host object has a JSON form. Integers, strings, floats and
/// the host's null pass without a look at the encoder's outcome.
pub fn validate_json_object(object: &HostObject) -> (r: Result<(), AdaptError>)
    ensures
        match r {
            Ok(_) => json_probe(object@) is Ok,
            Err(e) => json_probe(object@) == Err::<(), ErrorModel>(e@),
        },
        always_json(object@.kind) ==> r is Ok,
{
    match &object.kind {
        HostKind::Int(_) | HostKind::Str(_) | HostKind::Float(_) | HostKind::Null => Ok(()),
        _ => match serialize_object_with_pyjson(object) {
            Ok(_) => Ok(()),
            Err(e) => Err(e),
        },
    }
}

/// What a host object is read for, as far as that decides whether the
/// host's JSON encoder has to be asked about it. The encoder is costly, and
/// most objects are adapted without a look at what it would make of them:
/// whoever takes the records asks it only where this says so.
#[derive(Debug)]
pub enum Reading<'a> {
    /// Nothing of the object's JSON form is read.
    Never,
    /// No column type is declared: the object is classified by its own
    /// runtime type.
    Inferred,
    /// The object is adapted to what the declaration declares.
    Declared(&'a TypeDeclaration),
}

/// The mathematical form of a [`Reading`].
pub enum ReadingModel {
    Never,
    Inferred,
    Declared(TypeDeclaration),
}

impl<'a> View for Reading<'a> {
    type V = ReadingModel;

    open spec fn view(&self) -> ReadingModel {
        match self {
            Reading::Never => ReadingModel::Never,
            Reading::Inferred => ReadingModel::Inferred,
            Reading::Declared(declaration) => ReadingModel::Declared(**declaration),
        }
    }
}

/// Whether a declaration declares a JSON column.
pub open spec fn declares_json(declaration: TypeDeclaration) -> bool {
    declaration matches TypeDeclaration::Plain(column) && (column == PlainColumn::Json || column
        == PlainColumn::JsonBinary)
}

impl ReadingModel {
    /// The reading of an object that stands alone, not in a list: of the
    /// host's null nothing is read, whatever is declared.
    pub open spec fn at_top(declared: Option<TypeDeclaration>, is_null: bool) -> ReadingModel {
        if is_null {
            ReadingModel::Never
        } else {
            match declared {
                None => ReadingModel::Inferred,
                Some(declaration) => ReadingModel::Declared(declaration),
            }
        }
    }

    /// Whether the JSON form of an object with this reading is read: of
    /// every object that goes to a JSON column, since its JSON form is what
    /// the engine gets, and of a dictionary or a list where nothing is
    /// declared, since it is a JSON value only if it has a JSON form.
    pub open spec fn asks_encoder(self, kind: HostKindModel) -> bool {
        match self {
            ReadingModel::Never => false,
            ReadingModel::Inferred => kind is Dict || kind is List,
            ReadingModel::Declared(declaration) => declares_json(declaration),
        }
    }

    /// The reading of the items of a list with this reading: they are
    /// adapted one by one where an array is declared, and else nothing of
    /// their JSON forms is read.
    pub open spec fn of_items(self) -> ReadingModel {
        match self {
            ReadingModel::Declared(TypeDeclaration::Array(element)) => ReadingModel::Declared(
                *element,
            ),
            _ => ReadingModel::Never,
        }
    }
}

impl<'a> Reading<'a> {
    /// The reading of an object that stands alone, not in a list.
    pub fn at_top(declared: Option<&'a TypeDeclaration>, is_null: bool) -> (r: Reading<'a>)
        ensures
            r@ == ReadingModel::at_top(
                match declared {
                    Some(declaration) => Some(*declaration),
                    None => None,
                },
                is_null,
            ),
    {
        if is_null {
            Reading::Never
        } else {
            match declared {
                None => Reading::Inferred,
                Some(declaration) => Reading::Declared(declaration),
            }
        }
    }

    /// Whether the JSON encoder has to be asked about an object of the
    /// given runtime type.
    pub fn asks_encoder(&self, kind: &HostKind) -> (r: bool)
        ensures
            r == self@.asks_encoder(kind@),
    {
        match self {
            Reading::Never => false,
            Reading::Inferred => match kind {
                HostKind::Dict | HostKind::List(_) => true,
                _ => false,
            },
            Reading::Declared(declaration) => match declaration {
                TypeDeclaration::Plain(PlainColumn::Json)
                | TypeDeclaration::Plain(PlainColumn::JsonBinary) => true,
                _ => false,
            },
        }
    }

    /// The reading of the items of a list with this reading.
    pub fn of_items(&self) -> (r: Reading<'a>)
        ensures
            r@ == self@.of_items(),
    {
        match self {
            Reading::Declared(declaration) => match declaration {
                TypeDeclaration::Array(element) => Reading::Declared(&**element),
                _ => Reading::Never,
            },
            _ => Reading::Never,
        }
    }
}

} // verus!
