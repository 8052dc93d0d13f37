//! What holds of the conversions between the host's side and the engine's.

use vstd::prelude::*;
use vstd::utf8::{decode_utf8_encode_utf8, encode_utf8_decode_utf8};
use crate::bits::{double_is_nan, single_is_nan, singles_equal};
use crate::calendar::{
    instant_exists, offset_exists, EngineDateTime, EngineTime, EngineZoned, HostZone,
};
use crate::column::{ColumnFamily, ColumnType};
use crate::decimal::{
    decimal_of_text, decimal_text, pow10, EngineDecimal, MAX_MANTISSA, MAX_SCALE,
};
use crate::error::ErrorModel;
use crate::column::convert::{declared_type, declares, TypeDeclaration};
use crate::host::{HostJsonModel, HostKindModel, HostModel};
use super::common::{always_json, json_canonical, json_probe, ReadingModel};
use super::host_kind;
use super::model::{
    adapt_each, adapt_model, bound_model, collect, collect_ok, decoded, deserialize_each,
    deserialize_model, element_single, engine_equal, engine_time, engine_valid, host_float,
    infer_model, serialize_each, serialize_model, vector_element, DynModel, EngineModel,
};
use super::ReturnableValue;

verus! {

/// Where every item converts, the whole converts to the results in order.
pub proof fn collect_all_ok<T>(results: Seq<Result<T, ErrorModel>>, items: Seq<T>)
    requires
        results.len() == items.len(),
        forall|i: int| 0 <= i < results.len() ==> results[i] == Ok::<T, ErrorModel>(items[i]),
    ensures
        collect(results) == Ok::<Seq<T>, ErrorModel>(items),
    decreases results.len(),
{
    if results.len() > 0 {
        collect_all_ok(results.drop_last(), items.drop_last());
        assert(items.drop_last().push(items.last()) =~= items);
    } else {
        assert(items =~= Seq::<T>::empty());
    }
}

/// The error of the first item that does not convert is the error of the
/// whole, and nothing of the items before it is left.
pub proof fn collect_first_error<T>(results: Seq<Result<T, ErrorModel>>, k: int)
    requires
        0 <= k < results.len(),
        results[k] is Err,
        forall|j: int| 0 <= j < k ==> (#[trigger] results[j]) is Ok,
    ensures
        collect(results) == Err::<Seq<T>, ErrorModel>(results[k]->Err_0),
{
    collect_ok(results);
    match collect(results) {
        Ok(items) => {
            assert(results[k] == Ok::<T, ErrorModel>(items[k]));
        },
        Err(e) => {
            let w = choose|w: int|
                {
                    &&& 0 <= w < results.len()
                    &&& results[w] == Err::<T, ErrorModel>(e)
                    &&& forall|j: int| 0 <= j < w ==> (#[trigger] results[j]) is Ok
                };
            if w < k {
                assert(results[w] is Ok);
            }
            if k < w {
                assert(results[k] is Ok);
            }
        },
    }
}

/// Whether a value on the host's side comes back as it was from a trip to
/// the engine's side.
pub open spec fn host_trip(value: DynModel) -> bool {
    serialize_model(value) matches Ok(engine) && deserialize_model(engine) == Ok::<
        DynModel,
        ErrorModel,
    >(value)
}

/// The values on the host's side that a trip to the engine's side gives
/// back as they were.
///
/// Scalars, strings, bytes and UUIDs always are. A date has to exist in both
/// calendars. A time of day, alone or in a datetime, comes back to the
/// microsecond and without a leap second. A datetime's time zone has
/// to be a fixed offset, if it has one. A decimal has to be written as the
/// engine writes it, a JSON value has to be a decoded document that the
/// engine writes as it reads it, and the elements of a vector have to be
/// floats that single precision holds exactly.
pub open spec fn dyn_stable(value: DynModel) -> bool
    decreases value,
{
    match value {
        DynModel::Json(object) => {
            &&& object.kind is Decoded
            &&& object.token is None
            &&& object.json matches HostJsonModel::Text(text) && json_canonical(text) == Some(text)
        },
        DynModel::ChronoDate(d) => d.valid() && d.in_host_range(),
        DynModel::ChronoTime(t) => t.valid() && t.microsecond < 1_000_000,
        DynModel::ChronoDateTime(dt) => {
            &&& dt.date.valid()
            &&& dt.date.in_host_range()
            &&& dt.time.valid()
            &&& dt.time.microsecond < 1_000_000
            &&& match dt.zone {
                HostZone::Naive => true,
                HostZone::Variable => false,
                HostZone::Fixed(offset) => offset_exists(offset as int) && instant_exists(
                    EngineDateTime { date: dt.date, time: engine_time(dt.time) },
                    offset as int,
                ),
            }
        },
        DynModel::Decimal(text) => decimal_of_text(text) matches Some(d) && decimal_text(d) == text,
        DynModel::Array(items) => forall|i: int|
            0 <= i < items.len() ==> dyn_stable(#[trigger] items[i]),
        DynModel::Vector(items) => forall|i: int|
            0 <= i < items.len() ==> exists_single(#[trigger] items[i]),
        _ => true,
    }
}

/// Whether a host object is the float that the library makes of a
/// single-precision number.
pub open spec fn exists_single(object: HostModel) -> bool {
    element_single(object) matches Ok(single) && object == host_float(single)
}

/// A value on the host's side, taken to the engine's side and back, is the
/// value that it was, for exactly the values of [`dyn_stable`].
pub proof fn host_round_trip(value: DynModel)
    ensures
        host_trip(value) <==> dyn_stable(value),
    decreases value,
{
    match value {
        DynModel::String(s) => {
            encode_utf8_decode_utf8(s);
        },
        DynModel::Array(items) => {
            let results = serialize_each(items);
            assert forall|i: int| 0 <= i < items.len() implies (host_trip(#[trigger] items[i])
                <==> dyn_stable(items[i])) by {
                host_round_trip(items[i]);
            }
            collect_ok(results);
            if dyn_stable(value) {
                let engines = Seq::new(items.len(), |i: int| serialize_model(items[i])->Ok_0);
                assert forall|i: int| 0 <= i < results.len() implies results[i] == Ok::<
                    EngineModel,
                    ErrorModel,
                >(engines[i]) by {
                    assert(host_trip(items[i]));
                }
                collect_all_ok(results, engines);
                let back = deserialize_each(engines);
                assert forall|i: int| 0 <= i < back.len() implies back[i] == Ok::<
                    DynModel,
                    ErrorModel,
                >(items[i]) by {
                    assert(host_trip(items[i]));
                }
                collect_all_ok(back, items);
            }
            if host_trip(value) {
                let engines = collect(results)->Ok_0;
                let back = deserialize_each(engines);
                collect_ok(back);
                assert(collect(back) == Ok::<Seq<DynModel>, ErrorModel>(items));
                assert forall|i: int| 0 <= i < items.len() implies dyn_stable(
                    #[trigger] items[i],
                ) by {
                    assert(results[i] == Ok::<EngineModel, ErrorModel>(engines[i]));
                    assert(back[i] == Ok::<DynModel, ErrorModel>(items[i]));
                    assert(host_trip(items[i]));
                }
            }
        },
        DynModel::Vector(items) => {
            let results = items.map_values(|o: HostModel| element_single(o));
            collect_ok(results);
            if dyn_stable(value) {
                let singles = Seq::new(items.len(), |i: int| element_single(items[i])->Ok_0);
                assert forall|i: int| 0 <= i < results.len() implies results[i] == Ok::<
                    u32,
                    ErrorModel,
                >(singles[i]) by {
                    assert(exists_single(items[i]));
                }
                collect_all_ok(results, singles);
                assert(singles.map_values(|s: u32| host_float(s)) =~= items) by {
                    assert forall|i: int| 0 <= i < items.len() implies host_float(singles[i])
                        == items[i] by {
                        assert(exists_single(items[i]));
                    }
                }
            }
            if host_trip(value) {
                let singles = collect(results)->Ok_0;
                let back = singles.map_values(|s: u32| host_float(s));
                assert(back == items);
                assert forall|i: int| 0 <= i < items.len() implies exists_single(
                    #[trigger] items[i],
                ) by {
                    assert(results[i] == Ok::<u32, ErrorModel>(singles[i]));
                    assert(back[i] == host_float(singles[i]));
                }
            }
        },
        _ => {},
    }
}

/// Whether a value on the engine's side comes back as it was from a trip to
/// the host's side.
pub open spec fn engine_trip(value: EngineModel) -> bool {
    deserialize_model(value) matches Ok(host) && serialize_model(host) == Ok::<
        EngineModel,
        ErrorModel,
    >(value)
}

/// The values on the engine's side that a trip to the host's side gives
/// back as they were.
///
/// Scalars, strings, bytes, UUIDs and vectors always are. A date has to lie
/// in the host's calendar. A time of day, alone or in a datetime, has to be
/// a whole microsecond and no leap second. A decimal and a
/// JSON document have to be read by the engine as it writes them.
pub open spec fn engine_stable(value: EngineModel) -> bool
    decreases value,
{
    match value {
        EngineModel::Json(document) => json_canonical(document) == Some(document),
        EngineModel::ChronoDate(d) => d.in_host_range(),
        EngineModel::ChronoTime(t) => host_has_time(t),
        EngineModel::ChronoDateTime(dt) => dt.date.in_host_range() && host_has_time(dt.time),
        EngineModel::ChronoDateTimeWithTimeZone(z) => z.local.date.in_host_range()
            && host_has_time(z.local.time),
        EngineModel::Decimal(d) => decimal_of_text(decimal_text(d)) == Some(d),
        EngineModel::Array(items) => forall|i: int|
            0 <= i < items.len() ==> engine_stable(#[trigger] items[i]),
        _ => true,
    }
}

/// A value that the engine can hold, taken to the host's side and back, is
/// the value that it was, for exactly the values of [`engine_stable`].
pub proof fn engine_round_trip(value: EngineModel)
    requires
        engine_valid(value),
    ensures
        engine_trip(value) <==> engine_stable(value),
    decreases value,
{
    match value {
        EngineModel::String(bytes) => {
            decode_utf8_encode_utf8(bytes);
        },
        EngineModel::Array(items) => {
            let results = deserialize_each(items);
            assert forall|i: int| 0 <= i < items.len() implies (engine_trip(#[trigger] items[i])
                <==> engine_stable(items[i])) by {
                engine_round_trip(items[i]);
            }
            collect_ok(results);
            if engine_stable(value) {
                let hosts = Seq::new(items.len(), |i: int| deserialize_model(items[i])->Ok_0);
                assert forall|i: int| 0 <= i < results.len() implies results[i] == Ok::<
                    DynModel,
                    ErrorModel,
                >(hosts[i]) by {
                    assert(engine_trip(items[i]));
                }
                collect_all_ok(results, hosts);
                let back = serialize_each(hosts);
                assert forall|i: int| 0 <= i < back.len() implies back[i] == Ok::<
                    EngineModel,
                    ErrorModel,
                >(items[i]) by {
                    assert(engine_trip(items[i]));
                }
                collect_all_ok(back, items);
            }
            if engine_trip(value) {
                let hosts = collect(results)->Ok_0;
                let back = serialize_each(hosts);
                collect_ok(back);
                assert(collect(back) == Ok::<Seq<EngineModel>, ErrorModel>(items));
                assert forall|i: int| 0 <= i < items.len() implies engine_stable(
                    #[trigger] items[i],
                ) by {
                    assert(results[i] == Ok::<DynModel, ErrorModel>(hosts[i]));
                    assert(back[i] == Ok::<EngineModel, ErrorModel>(items[i]));
                    assert(engine_trip(items[i]));
                }
            }
        },
        EngineModel::Vector(singles) => {
            let hosts = singles.map_values(|s: u32| host_float(s));
            let results = hosts.map_values(|o: HostModel| element_single(o));
            assert forall|i: int| 0 <= i < results.len() implies results[i] == Ok::<
                u32,
                ErrorModel,
            >(singles[i]) by {
                assert(hosts[i] == host_float(singles[i]));
            }
            collect_all_ok(results, singles);
        },
        _ => {},
    }
}

/// Asking for the engine's form is idempotent. `before` is a value, and
/// `between` the value after the engine's form has been asked for once:
/// asking again changes nothing, and where the first answer was a form, the
/// second is the same.
pub proof fn serialize_twice(before: ReturnableValue, between: ReturnableValue)
    requires
        before.wf(),
        between.host_side() == before.host_side(),
        between.engine_side() == before.engine_after(),
    ensures
        between.engine_after() == between.engine_side(),
        before.engine_form() is Ok ==> between.engine_form() == before.engine_form(),
        before.engine_form() is Err ==> between.engine_form() == before.engine_form(),
{
}

/// Asking for the host's form is idempotent, as asking for the engine's
/// form is.
pub proof fn deserialize_twice(before: ReturnableValue, between: ReturnableValue)
    requires
        before.wf(),
        between.engine_side() == before.engine_side(),
        between.host_side() == before.host_after(),
    ensures
        between.host_after() == between.host_side(),
        before.host_form() is Ok ==> between.host_form() == before.host_form(),
        before.host_form() is Err ==> between.host_form() == before.host_form(),
{
}

/// Whether a time of day of the engine is one that the host has: a whole
/// microsecond and no leap second.
pub open spec fn host_has_time(t: EngineTime) -> bool {
    t.nanosecond % 1000 == 0 && t.nanosecond < 1_000_000_000
}

/// Scalars, strings, bytes, UUIDs and vectors, dates in the host's calendar
/// and times that the host has come back from the host's side as they were,
/// each as a value of the kind that it was: a date as a date, a datetime
/// without a time zone as one without, a datetime at an offset as one at
/// that offset.
pub proof fn plain_values_come_back(value: EngineModel)
    requires
        engine_valid(value),
        match value {
            EngineModel::Json(_) | EngineModel::Decimal(_) | EngineModel::Array(_) => false,
            EngineModel::ChronoDate(d) => d.in_host_range(),
            EngineModel::ChronoTime(t) => host_has_time(t),
            EngineModel::ChronoDateTime(dt) => dt.date.in_host_range() && host_has_time(dt.time),
            EngineModel::ChronoDateTimeWithTimeZone(z) => z.local.date.in_host_range()
                && host_has_time(z.local.time),
            _ => true,
        },
    ensures
        engine_trip(value),
{
    engine_round_trip(value);
}

/// A decimal comes back from the host's side as it was exactly where the
/// engine reads the text that it writes for the decimal as that decimal.
pub proof fn decimal_comes_back_as_read(d: EngineDecimal)
    requires
        d.valid(),
    ensures
        engine_trip(EngineModel::Decimal(d)) <==> decimal_of_text(decimal_text(d)) == Some(d),
{
    engine_round_trip(EngineModel::Decimal(d));
}

/// What comes back from the host's side as it was is equal to what it was
/// as the engine compares, unless it holds a NaN or a JSON document.
pub proof fn what_comes_back_is_equal(value: EngineModel)
    requires
        engine_trip(value),
        !holds_nan(value),
        !holds_json(value),
    ensures
        engine_equal(serialize_model(deserialize_model(value)->Ok_0)->Ok_0, value),
{
    equal_to_itself(value);
}

/// Whether an engine value holds a NaN, as a double or in a vector.
pub open spec fn holds_nan(value: EngineModel) -> bool
    decreases value,
{
    match value {
        EngineModel::Double(bits) => double_is_nan(bits),
        EngineModel::Vector(singles) => exists|i: int|
            0 <= i < singles.len() && single_is_nan(#[trigger] singles[i]),
        EngineModel::Array(items) => exists|i: int|
            0 <= i < items.len() && holds_nan(#[trigger] items[i]),
        _ => false,
    }
}

/// Whether an engine value holds a JSON document. How two documents
/// compare is `serde_json`'s to say, and the library knows no law of it.
pub open spec fn holds_json(value: EngineModel) -> bool
    decreases value,
{
    match value {
        EngineModel::Json(_) => true,
        EngineModel::Array(items) => exists|i: int|
            0 <= i < items.len() && holds_json(#[trigger] items[i]),
        _ => false,
    }
}

/// An engine value without a JSON document is equal to itself exactly where
/// it holds no NaN.
pub proof fn equal_to_itself(value: EngineModel)
    requires
        !holds_json(value),
    ensures
        engine_equal(value, value) <==> !holds_nan(value),
    decreases value,
{
    match value {
        EngineModel::Array(items) => {
            assert forall|i: int| 0 <= i < items.len() implies (engine_equal(
                #[trigger] items[i],
                items[i],
            ) <==> !holds_nan(items[i])) by {
                assert(!holds_json(items[i]));
                equal_to_itself(items[i]);
            }
        },
        _ => {},
    }
}

/// Equality of engine values goes both ways, where no JSON document is
/// compared.
pub proof fn equality_is_symmetric(a: EngineModel, b: EngineModel)
    requires
        !holds_json(a),
    ensures
        engine_equal(a, b) == engine_equal(b, a),
    decreases a,
{
    match (a, b) {
        (EngineModel::Array(x), EngineModel::Array(y)) => {
            if x.len() == y.len() {
                assert forall|i: int| 0 <= i < x.len() implies engine_equal(
                    #[trigger] x[i],
                    y[i],
                ) == engine_equal(y[i], x[i]) by {
                    assert(!holds_json(x[i]));
                    equality_is_symmetric(x[i], y[i]);
                }
                if engine_equal(a, b) {
                    assert forall|i: int| 0 <= i < y.len() implies engine_equal(
                        #[trigger] y[i],
                        x[i],
                    ) by {
                        assert(engine_equal(x[i], y[i]));
                    }
                }
                if engine_equal(b, a) {
                    assert forall|i: int| 0 <= i < x.len() implies engine_equal(
                        #[trigger] x[i],
                        y[i],
                    ) by {
                        assert(engine_equal(y[i], x[i]));
                    }
                }
            }
        },
        (EngineModel::Vector(x), EngineModel::Vector(y)) => {
            if x.len() == y.len() {
                if engine_equal(a, b) {
                    assert forall|i: int| 0 <= i < y.len() implies singles_equal(
                        #[trigger] y[i],
                        x[i],
                    ) by {
                        assert(singles_equal(x[i], y[i]));
                    }
                }
                if engine_equal(b, a) {
                    assert forall|i: int| 0 <= i < x.len() implies singles_equal(
                        #[trigger] x[i],
                        y[i],
                    ) by {
                        assert(singles_equal(y[i], x[i]));
                    }
                }
            }
        },
        _ => {},
    }
}

/// Decimals are equal where they are the same number, whatever their
/// scales: a decimal is equal to itself with one more zero at its end.
pub proof fn decimals_compare_as_numbers(d: EngineDecimal)
    requires
        d.valid(),
        -MAX_MANTISSA <= 10 * d.mantissa <= MAX_MANTISSA,
        d.scale < MAX_SCALE,
    ensures
        engine_equal(
            EngineModel::Decimal(d),
            EngineModel::Decimal(
                EngineDecimal { mantissa: (10 * d.mantissa) as i128, scale: (d.scale + 1) as u32 },
            ),
        ),
{
    let longer = EngineDecimal { mantissa: (10 * d.mantissa) as i128, scale: (d.scale + 1) as u32 };
    assert(pow10(longer.scale as nat) == 10 * pow10(d.scale as nat));
    assert(d.mantissa * (10 * pow10(d.scale as nat)) == (10 * d.mantissa) * pow10(
        d.scale as nat,
    )) by (nonlinear_arith);
}

/// Datetimes at an offset are equal where they are the same instant: the
/// same local time of day one hour further east, an hour later, is the same.
pub proof fn instants_compare_as_instants(z: EngineZoned)
    requires
        z.valid(),
        z.local.time.hour < 23,
        z.offset < 82_800,
        instant_exists(
            EngineDateTime {
                date: z.local.date,
                time: EngineTime { hour: (z.local.time.hour + 1) as u32, ..z.local.time },
            },
            z.offset + 3600,
        ),
    ensures
        engine_equal(
            EngineModel::ChronoDateTimeWithTimeZone(z),
            EngineModel::ChronoDateTimeWithTimeZone(
                EngineZoned {
                    local: EngineDateTime {
                        date: z.local.date,
                        time: EngineTime { hour: (z.local.time.hour + 1) as u32, ..z.local.time },
                    },
                    offset: (z.offset + 3600) as i32,
                },
            ),
        ),
{
}

/// Zero and minus zero are equal, and a NaN is equal to nothing.
pub proof fn numbers_compare_as_numbers(nan: u64, other: u64)
    requires
        double_is_nan(nan),
    ensures
        engine_equal(
            EngineModel::Double(0),
            EngineModel::Double(0x8000_0000_0000_0000),
        ),
        !engine_equal(EngineModel::Double(nan), EngineModel::Double(other)),
        !engine_equal(EngineModel::Double(nan), EngineModel::Double(nan)),
{
}

/// The host's null is the null value, whatever is declared as its type.
pub proof fn null_is_null(object: HostModel, declared: Option<TypeDeclaration>)
    requires
        object.kind is Null,
    ensures
        bound_model(object, declared) == Ok::<DynModel, ErrorModel>(DynModel::Null),
        serialize_model(DynModel::Null) == Ok::<EngineModel, ErrorModel>(EngineModel::Null),
{
}

/// Integers, strings, floats and the host's null have a JSON form whatever
/// the encoder made of them; of any other object the encoder decides.
pub proof fn json_fast_path(object: HostModel)
    ensures
        always_json(object.kind) ==> json_probe(object) is Ok,
        !always_json(object.kind) ==> (json_probe(object) is Ok <==> object.json is Text),
{
}

/// A list fails to adapt to an array type with the error of its first
/// element that fails to adapt to the element type, and gives no array.
pub proof fn array_fails_as_its_element(object: HostModel, ty: ColumnType, k: int)
    requires
        ty.family_model() == ColumnFamily::Array,
        object.kind is List,
        0 <= k < object.kind->List_0.len(),
        adapt_model(object.kind->List_0[k], *ty->Array_0) is Err,
        forall|j: int| 0 <= j < k ==> adapt_model(object.kind->List_0[j], *ty->Array_0) is Ok,
    ensures
        adapt_model(object, ty) == adapt_model(object.kind->List_0[k], *ty->Array_0),
{
    let items = object.kind->List_0;
    let results = adapt_each(items, *ty->Array_0);
    assert(results[k] is Err);
    assert forall|j: int| 0 <= j < k implies (#[trigger] results[j]) is Ok by {
        assert(adapt_model(items[j], *ty->Array_0) is Ok);
    }
    collect_first_error(results, k);
}

/// A boolean is classified as a boolean, never as an integer.
pub proof fn boolean_is_no_integer(object: HostModel)
    requires
        object.kind is Bool,
    ensures
        infer_model(object) == Ok::<DynModel, ErrorModel>(DynModel::Bool(object.kind->Bool_0)),
        adapt_model(object, ColumnType::Boolean) == Ok::<DynModel, ErrorModel>(
            DynModel::Bool(object.kind->Bool_0),
        ),
{
}

/// A boolean column takes booleans only.
pub proof fn boolean_column_is_strict(object: HostModel)
    ensures
        adapt_model(object, ColumnType::Boolean) is Ok <==> object.kind is Bool,
{
}

/// A host object of which the JSON encoder was asked only as its reading
/// says, and so each item of a list in it.
pub open spec fn skimmed(object: HostModel, reading: ReadingModel) -> HostModel
    decreases object,
{
    HostModel {
        kind: match object.kind {
            HostKindModel::List(items) => HostKindModel::List(
                skimmed_each(items, reading.of_items()),
            ),
            kind => kind,
        },
        json: if reading.asks_encoder(object.kind) {
            object.json
        } else {
            HostJsonModel::NotEncoded
        },
        token: object.token,
    }
}

/// [`skimmed`] for each item of a list.
pub open spec fn skimmed_each(items: Seq<HostModel>, reading: ReadingModel) -> Seq<HostModel>
    decreases items,
{
    Seq::new(
        items.len(),
        |i: int|
            if 0 <= i < items.len() {
                skimmed(items[i], reading)
            } else {
                items[0]
            },
    )
}

/// Whether two outcomes of an adaptation are the same to the engine: the
/// same error, or values of one kind that the engine gets alike.
pub open spec fn same_outcome(
    a: Result<DynModel, ErrorModel>,
    b: Result<DynModel, ErrorModel>,
) -> bool {
    match (a, b) {
        (Err(x), Err(y)) => x == y,
        (Ok(x), Ok(y)) => serialize_model(x) == serialize_model(y) && host_kind(x) == host_kind(y),
        _ => false,
    }
}

/// Items that come out the same one by one come out the same together.
pub proof fn collect_alike(
    first: Seq<Result<DynModel, ErrorModel>>,
    second: Seq<Result<DynModel, ErrorModel>>,
)
    requires
        first.len() == second.len(),
        forall|i: int| 0 <= i < first.len() ==> same_outcome(#[trigger] first[i], second[i]),
    ensures
        match (collect(first), collect(second)) {
            (Err(x), Err(y)) => x == y,
            (Ok(x), Ok(y)) => {
                &&& x.len() == first.len()
                &&& y.len() == first.len()
                &&& forall|i: int|
                    0 <= i < x.len() ==> serialize_model(#[trigger] x[i]) == serialize_model(y[i])
            },
            _ => false,
        },
    decreases first.len(),
{
    if first.len() > 0 {
        collect_alike(first.drop_last(), second.drop_last());
        assert(same_outcome(first[first.len() - 1], second[first.len() - 1]));
    }
}

/// The kind of a skimmed object is the kind of the object, but for what is
/// known of the JSON forms of the items of a list.
pub proof fn skimmed_keeps_the_kind(object: HostModel, reading: ReadingModel)
    ensures
        skimmed(object, reading).kind.qualified_name() == object.kind.qualified_name(),
        !(object.kind is List) ==> skimmed(object, reading).kind == object.kind,
        object.kind is List ==> skimmed(object, reading).kind is List,
        element_single(skimmed(object, reading)) == element_single(object),
        always_json(skimmed(object, reading).kind) == always_json(object.kind),
{
}

/// Adapting an object to a declared column type comes out the same to the
/// engine where the JSON encoder was asked only as the reading says.
pub proof fn adapting_reads_as_declared(object: HostModel, declaration: TypeDeclaration)
    requires
        declares(declaration),
    ensures
        same_outcome(
            adapt_model(object, declared_type(declaration)),
            adapt_model(
                skimmed(object, ReadingModel::Declared(declaration)),
                declared_type(declaration),
            ),
        ),
    decreases object,
{
    let reading = ReadingModel::Declared(declaration);
    let ty = declared_type(declaration);
    let other = skimmed(object, reading);
    skimmed_keeps_the_kind(object, reading);
    match (declaration, object.kind) {
        (TypeDeclaration::Array(element), HostKindModel::List(items)) => {
            let first = adapt_each(items, declared_type(*element));
            let second = adapt_each(
                skimmed_each(items, ReadingModel::Declared(*element)),
                declared_type(*element),
            );
            assert forall|i: int| 0 <= i < first.len() implies same_outcome(
                #[trigger] first[i],
                second[i],
            ) by {
                adapting_reads_as_declared(items[i], *element);
            }
            collect_alike(first, second);
            match (collect(first), collect(second)) {
                (Ok(x), Ok(y)) => {
                    assert(serialize_each(x) =~= serialize_each(y));
                },
                _ => {},
            }
        },
        (_, HostKindModel::List(items)) => {
            let skimmed_items = skimmed_each(items, ReadingModel::Never);
            assert forall|i: int| 0 <= i < items.len() implies element_single(
                #[trigger] skimmed_items[i],
            ) == element_single(items[i]) && vector_element(skimmed_items[i]) is Ok
                == vector_element(items[i]) is Ok && (vector_element(items[i]) is Err
                ==> vector_element(skimmed_items[i]) == vector_element(items[i])) by {
                skimmed_keeps_the_kind(items[i], ReadingModel::Never);
            }
            if ty.family_model() == ColumnFamily::Vector {
                let first = items.map_values(|o: HostModel| vector_element(o));
                let second = skimmed_items.map_values(|o: HostModel| vector_element(o));
                vector_checks_alike(first, second);
                assert(items.map_values(|o: HostModel| element_single(o))
                    =~= skimmed_items.map_values(|o: HostModel| element_single(o)));
            }
        },
        _ => {},
    }
}

/// Two lists whose items pass or fail the check of a vector alike pass or
/// fail it alike together.
pub proof fn vector_checks_alike(
    first: Seq<Result<HostModel, ErrorModel>>,
    second: Seq<Result<HostModel, ErrorModel>>,
)
    requires
        first.len() == second.len(),
        forall|i: int|
            0 <= i < first.len() ==> (#[trigger] first[i]) is Ok == second[i] is Ok && (first[i]
                is Err ==> first[i] == second[i]),
    ensures
        collect(first) is Ok == collect(second) is Ok,
        collect(first) matches Err(e) ==> collect(second) matches Err(f) && e == f,
    decreases first.len(),
{
    if first.len() > 0 {
        vector_checks_alike(first.drop_last(), second.drop_last());
        assert(first[first.len() - 1] is Ok == second[first.len() - 1] is Ok);
    }
}

/// Making an adapted value of a host object comes out the same to the
/// engine where the JSON encoder was asked only as the reading says: of a
/// JSON column's objects, and of dictionaries and lists where nothing is
/// declared.
pub proof fn binding_reads_as_declared(object: HostModel, declared: Option<TypeDeclaration>)
    ensures
        same_outcome(
            bound_model(object, declared),
            bound_model(
                skimmed(object, ReadingModel::at_top(declared, object.kind is Null)),
                declared,
            ),
        ),
{
    let reading = ReadingModel::at_top(declared, object.kind is Null);
    skimmed_keeps_the_kind(object, reading);
    match declared {
        Some(declaration) => {
            if declares(declaration) && !(object.kind is Null) {
                adapting_reads_as_declared(object, declaration);
            }
        },
        None => {},
    }
}

} // verus!
