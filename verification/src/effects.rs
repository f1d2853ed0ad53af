//! The tagged-effect decoder: one JSON object with a numeric `type` field and
//! variant-specific sibling fields becomes one `ConsumeEffect`.
//!
//! The discriminant is the variant's position in the declaration, counted from
//! zero; the set is closed and versioned, so any discriminant past the last
//! declared variant is an unknown-variant failure, never a fallback.

use vstd::prelude::*;
use crate::json::{obj_get, take_field, Json, JsonNum};
use crate::models::{AcceptMissionEffect, AddCreditsEffect, AddItemEffect, ConsumeEffect, MinMax};

verus! {

/// Why a value failed to decode.
#[derive(Debug, Clone, Copy, PartialEq, Eq, Structural)]
pub enum DecodeError {
    /// The value should have been an object and was not.
    NotAnObject,
    /// The value should have been an array and was not.
    NotAnArray,
    /// A required field is absent.
    Missing,
    /// A field is present but has the wrong shape, or a number is out of the
    /// field's range.
    WrongType,
    /// The `type` discriminant names no declared variant.
    UnknownVariant(u64),
}

impl DecodeError {
    /// A short diagnostic for the error, fit for an error report: one fixed
    /// text per kind.
    pub fn message(&self) -> (r: String)
        ensures
            *self is NotAnObject ==> r@ == "expected an object"@,
            *self is NotAnArray ==> r@ == "expected an array"@,
            *self is Missing ==> r@ == "missing field"@,
            *self is WrongType ==> r@ == "field has the wrong type or range"@,
            *self is UnknownVariant ==> r@ == "unknown variant discriminant"@,
    {
        match self {
            DecodeError::NotAnObject => "expected an object".to_owned(),
            DecodeError::NotAnArray => "expected an array".to_owned(),
            DecodeError::Missing => "missing field".to_owned(),
            DecodeError::WrongType => "field has the wrong type or range".to_owned(),
            DecodeError::UnknownVariant(_) => "unknown variant discriminant".to_owned(),
        }
    }
}

/// The signed integer a JSON value holds, if it holds one.
pub open spec fn json_int(j: Json) -> Option<int> {
    match j {
        Json::UInt(u) => Some(u as int),
        Json::Int(i) => Some(i as int),
        _ => None,
    }
}

/// An `isize` field value: an integer within the machine range.
pub open spec fn isize_of(v: Option<Json>) -> Result<isize, DecodeError> {
    match v {
        None => Err(DecodeError::Missing),
        Some(j) => match json_int(j) {
            Some(n) => if isize::MIN <= n <= isize::MAX {
                Ok(n as isize)
            } else {
                Err(DecodeError::WrongType)
            },
            None => Err(DecodeError::WrongType),
        },
    }
}

/// A `usize` field value: a nonnegative integer within the machine range.
pub open spec fn usize_of(v: Option<Json>) -> Result<usize, DecodeError> {
    match v {
        None => Err(DecodeError::Missing),
        Some(j) => match json_int(j) {
            Some(n) => if 0 <= n <= usize::MAX {
                Ok(n as usize)
            } else {
                Err(DecodeError::WrongType)
            },
            None => Err(DecodeError::WrongType),
        },
    }
}

/// A `u8` field value.
pub open spec fn u8_of(v: Option<Json>) -> Result<u8, DecodeError> {
    match v {
        None => Err(DecodeError::Missing),
        Some(j) => match json_int(j) {
            Some(n) => if 0 <= n <= u8::MAX {
                Ok(n as u8)
            } else {
                Err(DecodeError::WrongType)
            },
            None => Err(DecodeError::WrongType),
        },
    }
}

/// A string field value.
pub open spec fn string_of(v: Option<Json>) -> Result<String, DecodeError> {
    match v {
        None => Err(DecodeError::Missing),
        Some(j) => match j {
            Json::Str(s) => Ok(s),
            _ => Err(DecodeError::WrongType),
        },
    }
}

/// A numeric field value, kept as it came off the wire.
pub open spec fn num_of(v: Option<Json>) -> Result<JsonNum, DecodeError> {
    match v {
        None => Err(DecodeError::Missing),
        Some(j) => match j {
            Json::UInt(u) => Ok(JsonNum::UInt(u)),
            Json::Int(i) => Ok(JsonNum::Int(i)),
            Json::NumText(s) => Ok(JsonNum::Text(s)),
            _ => Err(DecodeError::WrongType),
        },
    }
}

/// An optional `usize` field: absent or null is a valid, distinct "no value".
pub open spec fn opt_usize_of(v: Option<Json>) -> Result<Option<usize>, DecodeError> {
    match v {
        None => Ok(None),
        Some(Json::Null) => Ok(None),
        Some(j) => match usize_of(Some(j)) {
            Ok(u) => Ok(Some(u)),
            Err(e) => Err(e),
        },
    }
}

/// Decodes an `isize` field taken out of an object.
pub fn isize_field(v: Option<Json>) -> (r: Result<isize, DecodeError>)
    ensures
        r == isize_of(v),
{
    match v {
        None => Err(DecodeError::Missing),
        Some(Json::UInt(u)) => if u <= (isize::MAX as u64) {
            Ok(u as isize)
        } else {
            Err(DecodeError::WrongType)
        },
        Some(Json::Int(i)) => if (isize::MIN as i64) <= i && i <= (isize::MAX as i64) {
            Ok(i as isize)
        } else {
            Err(DecodeError::WrongType)
        },
        Some(_) => Err(DecodeError::WrongType),
    }
}

/// Decodes a `usize` field taken out of an object.
pub fn usize_field(v: Option<Json>) -> (r: Result<usize, DecodeError>)
    ensures
        r == usize_of(v),
{
    match v {
        None => Err(DecodeError::Missing),
        Some(Json::UInt(u)) => if u <= (usize::MAX as u64) {
            Ok(u as usize)
        } else {
            Err(DecodeError::WrongType)
        },
        Some(Json::Int(i)) => if 0 <= i && (i as u64) <= (usize::MAX as u64) {
            Ok(i as usize)
        } else {
            Err(DecodeError::WrongType)
        },
        Some(_) => Err(DecodeError::WrongType),
    }
}

/// Decodes a `u8` field taken out of an object.
pub fn u8_field(v: Option<Json>) -> (r: Result<u8, DecodeError>)
    ensures
        r == u8_of(v),
{
    match v {
        None => Err(DecodeError::Missing),
        Some(Json::UInt(u)) => if u <= (u8::MAX as u64) {
            Ok(u as u8)
        } else {
            Err(DecodeError::WrongType)
        },
        Some(Json::Int(i)) => if 0 <= i && i <= (u8::MAX as i64) {
            Ok(i as u8)
        } else {
            Err(DecodeError::WrongType)
        },
        Some(_) => Err(DecodeError::WrongType),
    }
}

/// Decodes a string field taken out of an object.
pub fn string_field(v: Option<Json>) -> (r: Result<String, DecodeError>)
    ensures
        r == string_of(v),
{
    match v {
        Some(Json::Str(s)) => Ok(s),
        Some(_) => Err(DecodeError::WrongType),
        None => Err(DecodeError::Missing),
    }
}

/// Decodes a numeric field taken out of an object, keeping the wire value.
pub fn num_field(v: Option<Json>) -> (r: Result<JsonNum, DecodeError>)
    ensures
        r == num_of(v),
{
    match v {
        Some(Json::UInt(u)) => Ok(JsonNum::UInt(u)),
        Some(Json::Int(i)) => Ok(JsonNum::Int(i)),
        Some(Json::NumText(s)) => Ok(JsonNum::Text(s)),
        Some(_) => Err(DecodeError::WrongType),
        None => Err(DecodeError::Missing),
    }
}

/// Decodes an optional `usize` field taken out of an object.
pub fn opt_usize_field(v: Option<Json>) -> (r: Result<Option<usize>, DecodeError>)
    ensures
        r == opt_usize_of(v),
{
    match v {
        None => Ok(None),
        Some(Json::Null) => Ok(None),
        Some(j) => match usize_field(Some(j)) {
            Ok(u) => Ok(Some(u)),
            Err(e) => Err(e),
        },
    }
}

/// What a min/max payload decodes to from an effect object's fields.
pub open spec fn min_max_of(fs: Seq<(String, Json)>) -> Result<MinMax, DecodeError> {
    match isize_of(obj_get(fs, "min"@)) {
        Err(e) => Err(e),
        Ok(mn) => match isize_of(obj_get(fs, "max"@)) {
            Err(e) => Err(e),
            Ok(mx) => Ok(MinMax { min: mn, max: mx }),
        },
    }
}

/// What a credit-delta payload decodes to from an effect object's fields.
pub open spec fn add_credits_of(fs: Seq<(String, Json)>) -> Result<AddCreditsEffect, DecodeError> {
    match isize_of(obj_get(fs, "min"@)) {
        Err(e) => Err(e),
        Ok(mn) => match isize_of(obj_get(fs, "max"@)) {
            Err(e) => Err(e),
            Ok(mx) => match opt_usize_of(obj_get(fs, "worthMultiplier"@)) {
                Err(e) => Err(e),
                Ok(w) => Ok(AddCreditsEffect { min: mn, max: mx, worth_multiplier: w }),
            },
        },
    }
}

/// What a mission-reference payload decodes to from an effect object's fields.
pub open spec fn accept_mission_of(fs: Seq<(String, Json)>) -> Result<
    AcceptMissionEffect,
    DecodeError,
> {
    match string_of(obj_get(fs, "missionName"@)) {
        Err(e) => Err(e),
        Ok(m) => Ok(AcceptMissionEffect { mission_name: m }),
    }
}

/// What an item-grant payload decodes to from an effect object's fields.
pub open spec fn add_item_of(fs: Seq<(String, Json)>) -> Result<AddItemEffect, DecodeError> {
    match num_of(obj_get(fs, "chance"@)) {
        Err(e) => Err(e),
        Ok(chance) => match string_of(obj_get(fs, "itemName"@)) {
            Err(e) => Err(e),
            Ok(item_name) => match u8_of(obj_get(fs, "qualityMin"@)) {
                Err(e) => Err(e),
                Ok(quality_min) => match u8_of(obj_get(fs, "qualityMax"@)) {
                    Err(e) => Err(e),
                    Ok(quality_max) => match usize_of(obj_get(fs, "quantityMin"@)) {
                        Err(e) => Err(e),
                        Ok(quantity_min) => match usize_of(obj_get(fs, "quantityMax"@)) {
                            Err(e) => Err(e),
                            Ok(quantity_max) => Ok(
                                AddItemEffect {
                                    chance,
                                    item_name,
                                    quality_min,
                                    quality_max,
                                    quantity_min,
                                    quantity_max,
                                },
                            ),
                        },
                    },
                },
            },
        },
    }
}

/// The discriminant an effect object carries: its `type` field, which must be
/// a nonnegative integer.
pub open spec fn effect_type_of(fs: Seq<(String, Json)>) -> Result<u64, DecodeError> {
    match obj_get(fs, "type"@) {
        None => Err(DecodeError::Missing),
        Some(Json::UInt(u)) => Ok(u),
        Some(_) => Err(DecodeError::WrongType),
    }
}

/// The variant a discriminant selects, with its payload decoded from the
/// sibling fields. Discriminants follow declaration order from zero; anything
/// past the last declared variant is an unknown-variant failure.
pub open spec fn effect_variant_of(fs: Seq<(String, Json)>, d: u64) -> Result<
    ConsumeEffect,
    DecodeError,
> {
    if d == 0 {
        Ok(ConsumeEffect::Unknown)
    } else if d == 1 {
        match min_max_of(fs) { Ok(m) => Ok(ConsumeEffect::RestoreHealth(m)), Err(e) => Err(e) }
    } else if d == 2 {
        match min_max_of(fs) { Ok(m) => Ok(ConsumeEffect::RestoreEnergy(m)), Err(e) => Err(e) }
    } else if d == 3 {
        match min_max_of(fs) { Ok(m) => Ok(ConsumeEffect::RestoreSpirit(m)), Err(e) => Err(e) }
    } else if d == 4 {
        match min_max_of(fs) { Ok(m) => Ok(ConsumeEffect::BuffHealth(m)), Err(e) => Err(e) }
    } else if d == 5 {
        match min_max_of(fs) { Ok(m) => Ok(ConsumeEffect::BuffEnergy(m)), Err(e) => Err(e) }
    } else if d == 6 {
        match min_max_of(fs) { Ok(m) => Ok(ConsumeEffect::BuffSpirit(m)), Err(e) => Err(e) }
    } else if d == 7 {
        match min_max_of(fs) { Ok(m) => Ok(ConsumeEffect::DecreaseHealth(m)), Err(e) => Err(e) }
    } else if d == 8 {
        match min_max_of(fs) { Ok(m) => Ok(ConsumeEffect::DecreaseEnergy(m)), Err(e) => Err(e) }
    } else if d == 9 {
        match min_max_of(fs) { Ok(m) => Ok(ConsumeEffect::DecreaseSpirit(m)), Err(e) => Err(e) }
    } else if d == 10 {
        match min_max_of(fs) { Ok(m) => Ok(ConsumeEffect::DebuffHealth(m)), Err(e) => Err(e) }
    } else if d == 11 {
        match min_max_of(fs) { Ok(m) => Ok(ConsumeEffect::DebuffEnergy(m)), Err(e) => Err(e) }
    } else if d == 12 {
        match min_max_of(fs) { Ok(m) => Ok(ConsumeEffect::DebuffSpirit(m)), Err(e) => Err(e) }
    } else if d == 13 {
        match add_credits_of(fs) { Ok(a) => Ok(ConsumeEffect::AddCredits(a)), Err(e) => Err(e) }
    } else if d == 14 {
        match min_max_of(fs) { Ok(m) => Ok(ConsumeEffect::RemoveCredits(m)), Err(e) => Err(e) }
    } else if d == 15 {
        match accept_mission_of(fs) {
            Ok(a) => Ok(ConsumeEffect::AcceptMission(a)),
            Err(e) => Err(e),
        }
    } else if d == 16 {
        match add_item_of(fs) { Ok(a) => Ok(ConsumeEffect::AddItem(a)), Err(e) => Err(e) }
    } else {
        Err(DecodeError::UnknownVariant(d))
    }
}

/// What a whole effect value decodes to.
pub open spec fn effect_of(j: Json) -> Result<ConsumeEffect, DecodeError> {
    match j {
        Json::Obj(fs) => match effect_type_of(fs@) {
            Ok(d) => effect_variant_of(fs@, d),
            Err(e) => Err(e),
        },
        _ => Err(DecodeError::NotAnObject),
    }
}

/// The field names effect payloads use are pairwise distinct, and none is the
/// discriminant's own key.
proof fn payload_key_facts()
    ensures
        "type"@ != "min"@,
        "type"@ != "max"@,
        "type"@ != "worthMultiplier"@,
        "type"@ != "missionName"@,
        "type"@ != "chance"@,
        "type"@ != "itemName"@,
        "type"@ != "qualityMin"@,
        "type"@ != "qualityMax"@,
        "type"@ != "quantityMin"@,
        "type"@ != "quantityMax"@,
        "min"@ != "max"@,
        "worthMultiplier"@ != "min"@,
        "worthMultiplier"@ != "max"@,
        "itemName"@ != "chance"@,
        "qualityMin"@ != "chance"@,
        "qualityMin"@ != "itemName"@,
        "qualityMax"@ != "chance"@,
        "qualityMax"@ != "itemName"@,
        "qualityMax"@ != "qualityMin"@,
        "quantityMin"@ != "chance"@,
        "quantityMin"@ != "itemName"@,
        "quantityMin"@ != "qualityMin"@,
        "quantityMin"@ != "qualityMax"@,
        "quantityMax"@ != "chance"@,
        "quantityMax"@ != "itemName"@,
        "quantityMax"@ != "qualityMin"@,
        "quantityMax"@ != "qualityMax"@,
        "quantityMax"@ != "quantityMin"@,
{
    reveal_strlit("type");
    reveal_strlit("min");
    reveal_strlit("max");
    reveal_strlit("worthMultiplier");
    reveal_strlit("missionName");
    reveal_strlit("chance");
    reveal_strlit("itemName");
    reveal_strlit("qualityMin");
    reveal_strlit("qualityMax");
    reveal_strlit("quantityMin");
    reveal_strlit("quantityMax");
    assert("type"@.len() == 4);
    assert("min"@.len() == 3);
    assert("max"@.len() == 3);
    assert("worthMultiplier"@.len() == 15);
    assert("missionName"@.len() == 11);
    assert("chance"@.len() == 6);
    assert("itemName"@.len() == 8);
    assert("qualityMin"@.len() == 10);
    assert("qualityMax"@.len() == 10);
    assert("quantityMin"@.len() == 11);
    assert("quantityMax"@.len() == 11);
    assert("type"@[0] != "min"@[0]);
    assert("type"@[0] != "max"@[0]);
    assert("min"@[1] != "max"@[1]);
    assert("qualityMin"@[8] != "qualityMax"@[8]);
    assert("quantityMin"@[9] != "quantityMax"@[9]);
    assert("missionName"@[0] != "quantityMin"@[0]);
    assert("missionName"@[0] != "quantityMax"@[0]);
}

/// Decodes a min/max payload from an effect object's remaining fields.
fn decode_min_max(fs: Vec<(String, Json)>) -> (r: Result<MinMax, DecodeError>)
    ensures
        r == min_max_of(fs@),
{
    proof {
        payload_key_facts();
    }
    let ghost fs0 = fs@;
    let (minv, fs) = take_field(fs, "min");
    let mn = match isize_field(minv) {
        Ok(v) => v,
        Err(e) => {
            return Err(e);
        },
    };
    let (maxv, _) = take_field(fs, "max");
    let mx = match isize_field(maxv) {
        Ok(v) => v,
        Err(e) => {
            return Err(e);
        },
    };
    Ok(MinMax { min: mn, max: mx })
}

/// Decodes a credit-delta payload from an effect object's remaining fields.
fn decode_add_credits(fs: Vec<(String, Json)>) -> (r: Result<AddCreditsEffect, DecodeError>)
    ensures
        r == add_credits_of(fs@),
{
    proof {
        payload_key_facts();
    }
    let ghost fs0 = fs@;
    let (minv, fs) = take_field(fs, "min");
    let mn = match isize_field(minv) {
        Ok(v) => v,
        Err(e) => {
            return Err(e);
        },
    };
    let (maxv, fs) = take_field(fs, "max");
    let mx = match isize_field(maxv) {
        Ok(v) => v,
        Err(e) => {
            return Err(e);
        },
    };
    let (wv, _) = take_field(fs, "worthMultiplier");
    let w = match opt_usize_field(wv) {
        Ok(v) => v,
        Err(e) => {
            return Err(e);
        },
    };
    Ok(AddCreditsEffect { min: mn, max: mx, worth_multiplier: w })
}

/// Decodes a mission-reference payload from an effect object's remaining fields.
fn decode_accept_mission(fs: Vec<(String, Json)>) -> (r: Result<AcceptMissionEffect, DecodeError>)
    ensures
        r == accept_mission_of(fs@),
{
    let (mv, _) = take_field(fs, "missionName");
    let m = match string_field(mv) {
        Ok(v) => v,
        Err(e) => {
            return Err(e);
        },
    };
    Ok(AcceptMissionEffect { mission_name: m })
}

/// Decodes an item-grant payload from an effect object's remaining fields.
fn decode_add_item(fs: Vec<(String, Json)>) -> (r: Result<AddItemEffect, DecodeError>)
    ensures
        r == add_item_of(fs@),
{
    proof {
        payload_key_facts();
    }
    let ghost fs0 = fs@;
    let (cv, fs) = take_field(fs, "chance");
    let chance = match num_field(cv) {
        Ok(v) => v,
        Err(e) => {
            return Err(e);
        },
    };
    let (nv, fs) = take_field(fs, "itemName");
    let item_name = match string_field(nv) {
        Ok(v) => v,
        Err(e) => {
            return Err(e);
        },
    };
    let (v1, fs) = take_field(fs, "qualityMin");
    let quality_min = match u8_field(v1) {
        Ok(v) => v,
        Err(e) => {
            return Err(e);
        },
    };
    let (v2, fs) = take_field(fs, "qualityMax");
    let quality_max = match u8_field(v2) {
        Ok(v) => v,
        Err(e) => {
            return Err(e);
        },
    };
    let (v3, fs) = take_field(fs, "quantityMin");
    let quantity_min = match usize_field(v3) {
        Ok(v) => v,
        Err(e) => {
            return Err(e);
        },
    };
    let (v4, _) = take_field(fs, "quantityMax");
    let quantity_max = match usize_field(v4) {
        Ok(v) => v,
        Err(e) => {
            return Err(e);
        },
    };
    Ok(AddItemEffect { chance, item_name, quality_min, quality_max, quantity_min, quantity_max })
}

/// Decodes one effect: reads the `type` discriminant, then the payload the
/// selected variant declares, from the sibling fields. Fails with an
/// unknown-variant error on any discriminant past the last declared variant,
/// and propagates any per-field failure.
pub fn decode_consume_effect(j: Json) -> (r: Result<ConsumeEffect, DecodeError>)
    ensures
        r == effect_of(j),
{
    let fs = match j {
        Json::Obj(fs) => fs,
        _ => {
            return Err(DecodeError::NotAnObject);
        },
    };
    proof {
        payload_key_facts();
    }
    let ghost fs0 = fs@;
    let (tv, fs) = take_field(fs, "type");
    let d: u64 = match tv {
        Some(Json::UInt(u)) => u,
        Some(_) => {
            return Err(DecodeError::WrongType);
        },
        None => {
            return Err(DecodeError::Missing);
        },
    };
    if d == 0 {
        Ok(ConsumeEffect::Unknown)
    } else if d == 1 {
        match decode_min_max(fs) {
            Ok(m) => Ok(ConsumeEffect::RestoreHealth(m)),
            Err(e) => Err(e),
        }
    } else if d == 2 {
        match decode_min_max(fs) {
            Ok(m) => Ok(ConsumeEffect::RestoreEnergy(m)),
            Err(e) => Err(e),
        }
    } else if d == 3 {
        match decode_min_max(fs) {
            Ok(m) => Ok(ConsumeEffect::RestoreSpirit(m)),
            Err(e) => Err(e),
        }
    } else if d == 4 {
        match decode_min_max(fs) {
            Ok(m) => Ok(ConsumeEffect::BuffHealth(m)),
            Err(e) => Err(e),
        }
    } else if d == 5 {
        match decode_min_max(fs) {
            Ok(m) => Ok(ConsumeEffect::BuffEnergy(m)),
            Err(e) => Err(e),
        }
    } else if d == 6 {
        match decode_min_max(fs) {
            Ok(m) => Ok(ConsumeEffect::BuffSpirit(m)),
            Err(e) => Err(e),
        }
    } else if d == 7 {
        match decode_min_max(fs) {
            Ok(m) => Ok(ConsumeEffect::DecreaseHealth(m)),
            Err(e) => Err(e),
        }
    } else if d == 8 {
        match decode_min_max(fs) {
            Ok(m) => Ok(ConsumeEffect::DecreaseEnergy(m)),
            Err(e) => Err(e),
        }
    } else if d == 9 {
        match decode_min_max(fs) {
            Ok(m) => Ok(ConsumeEffect::DecreaseSpirit(m)),
            Err(e) => Err(e),
        }
    } else if d == 10 {
        match decode_min_max(fs) {
            Ok(m) => Ok(ConsumeEffect::DebuffHealth(m)),
            Err(e) => Err(e),
        }
    } else if d == 11 {
        match decode_min_max(fs) {
            Ok(m) => Ok(ConsumeEffect::DebuffEnergy(m)),
            Err(e) => Err(e),
        }
    } else if d == 12 {
        match decode_min_max(fs) {
            Ok(m) => Ok(ConsumeEffect::DebuffSpirit(m)),
            Err(e) => Err(e),
        }
    } else if d == 13 {
        match decode_add_credits(fs) {
            Ok(a) => Ok(ConsumeEffect::AddCredits(a)),
            Err(e) => Err(e),
        }
    } else if d == 14 {
        match decode_min_max(fs) {
            Ok(m) => Ok(ConsumeEffect::RemoveCredits(m)),
            Err(e) => Err(e),
        }
    } else if d == 15 {
        match decode_accept_mission(fs) {
            Ok(a) => Ok(ConsumeEffect::AcceptMission(a)),
            Err(e) => Err(e),
        }
    } else if d == 16 {
        match decode_add_item(fs) {
            Ok(a) => Ok(ConsumeEffect::AddItem(a)),
            Err(e) => Err(e),
        }
    } else {
        Err(DecodeError::UnknownVariant(d))
    }
}

/// Builds the three wire fields of a min/max variant.
fn min_max_fields(d: u64, m: &MinMax) -> (fs: Vec<(String, Json)>)
    ensures
        effect_type_of(fs@) == Ok::<u64, DecodeError>(d),
        min_max_of(fs@) == Ok::<MinMax, DecodeError>(*m),
{
    let mut fs: Vec<(String, Json)> = Vec::new();
    fs.push(("type".to_owned(), Json::UInt(d)));
    fs.push(("min".to_owned(), Json::Int(m.min as i64)));
    fs.push(("max".to_owned(), Json::Int(m.max as i64)));
    proof {
        payload_key_facts();
        reveal_with_fuel(obj_get, 5);
        assert(fs@.drop_first() =~= seq![fs@[1], fs@[2]]);
        assert(fs@.drop_first().drop_first() =~= seq![fs@[2]]);
        assert(obj_get(fs@, "type"@) == Some(Json::UInt(d)));
        assert(obj_get(fs@, "min"@) == Some(Json::Int(m.min as i64)));
        assert(obj_get(fs@, "max"@) == Some(Json::Int(m.max as i64)));
    }
    fs
}

/// Builds the wire fields of the credit-delta variant.
fn add_credits_fields(d: u64, a: &AddCreditsEffect) -> (fs: Vec<(String, Json)>)
    ensures
        effect_type_of(fs@) == Ok::<u64, DecodeError>(d),
        add_credits_of(fs@) == Ok::<AddCreditsEffect, DecodeError>(*a),
{
    let mut fs: Vec<(String, Json)> = Vec::new();
    fs.push(("type".to_owned(), Json::UInt(d)));
    fs.push(("min".to_owned(), Json::Int(a.min as i64)));
    fs.push(("max".to_owned(), Json::Int(a.max as i64)));
    match a.worth_multiplier {
        Some(w) => {
            fs.push(("worthMultiplier".to_owned(), Json::UInt(w as u64)));
            proof {
                payload_key_facts();
                reveal_with_fuel(obj_get, 6);
                assert(fs@.drop_first() =~= seq![fs@[1], fs@[2], fs@[3]]);
                assert(fs@.drop_first().drop_first() =~= seq![fs@[2], fs@[3]]);
                assert(fs@.drop_first().drop_first().drop_first() =~= seq![fs@[3]]);
                assert(obj_get(fs@, "type"@) == Some(Json::UInt(d)));
                assert(obj_get(fs@, "min"@) == Some(Json::Int(a.min as i64)));
                assert(obj_get(fs@, "max"@) == Some(Json::Int(a.max as i64)));
                assert(obj_get(fs@, "worthMultiplier"@) == Some(Json::UInt(w as u64)));
            }
        },
        None => {
            proof {
                payload_key_facts();
                reveal_with_fuel(obj_get, 5);
                assert(fs@.drop_first() =~= seq![fs@[1], fs@[2]]);
                assert(fs@.drop_first().drop_first() =~= seq![fs@[2]]);
                assert(obj_get(fs@, "type"@) == Some(Json::UInt(d)));
                assert(obj_get(fs@, "min"@) == Some(Json::Int(a.min as i64)));
                assert(obj_get(fs@, "max"@) == Some(Json::Int(a.max as i64)));
                assert(obj_get(fs@, "worthMultiplier"@) is None);
            }
        },
    }
    fs
}

/// Builds the wire fields of the mission-reference variant.
fn accept_mission_fields(d: u64, a: &AcceptMissionEffect) -> (fs: Vec<(String, Json)>)
    ensures
        effect_type_of(fs@) == Ok::<u64, DecodeError>(d),
        accept_mission_of(fs@) == Ok::<AcceptMissionEffect, DecodeError>(*a),
{
    let mut fs: Vec<(String, Json)> = Vec::new();
    fs.push(("type".to_owned(), Json::UInt(d)));
    fs.push(("missionName".to_owned(), Json::Str(a.mission_name.clone())));
    proof {
        payload_key_facts();
        reveal_with_fuel(obj_get, 4);
        assert(fs@.drop_first() =~= seq![fs@[1]]);
        assert(obj_get(fs@, "type"@) == Some(Json::UInt(d)));
        assert(obj_get(fs@, "missionName"@) == Some(Json::Str(a.mission_name)));
    }
    fs
}

/// Rebuilds a wire number from the value the decoder kept.
fn num_to_json(n: &JsonNum) -> (j: Json)
    ensures
        num_of(Some(j)) == Ok::<JsonNum, DecodeError>(*n),
{
    match n {
        JsonNum::UInt(u) => Json::UInt(*u),
        JsonNum::Int(i) => Json::Int(*i),
        JsonNum::Text(s) => Json::NumText(s.clone()),
    }
}

/// Builds the wire fields of the item-grant variant.
fn add_item_fields(d: u64, a: &AddItemEffect) -> (fs: Vec<(String, Json)>)
    ensures
        effect_type_of(fs@) == Ok::<u64, DecodeError>(d),
        add_item_of(fs@) == Ok::<AddItemEffect, DecodeError>(*a),
{
    let mut fs: Vec<(String, Json)> = Vec::new();
    fs.push(("type".to_owned(), Json::UInt(d)));
    fs.push(("chance".to_owned(), num_to_json(&a.chance)));
    fs.push(("itemName".to_owned(), Json::Str(a.item_name.clone())));
    fs.push(("qualityMin".to_owned(), Json::UInt(a.quality_min as u64)));
    fs.push(("qualityMax".to_owned(), Json::UInt(a.quality_max as u64)));
    fs.push(("quantityMin".to_owned(), Json::UInt(a.quantity_min as u64)));
    fs.push(("quantityMax".to_owned(), Json::UInt(a.quantity_max as u64)));
    proof {
        payload_key_facts();
        reveal_with_fuel(obj_get, 9);
        assert(fs@.drop_first() =~= fs@.subrange(1, 7));
        assert(fs@.subrange(1, 7).drop_first() =~= fs@.subrange(2, 7));
        assert(fs@.subrange(2, 7).drop_first() =~= fs@.subrange(3, 7));
        assert(fs@.subrange(3, 7).drop_first() =~= fs@.subrange(4, 7));
        assert(fs@.subrange(4, 7).drop_first() =~= fs@.subrange(5, 7));
        assert(fs@.subrange(5, 7).drop_first() =~= fs@.subrange(6, 7));
        assert(fs@.subrange(1, 7)[0] == fs@[1]);
        assert(fs@.subrange(2, 7)[0] == fs@[2]);
        assert(fs@.subrange(3, 7)[0] == fs@[3]);
        assert(fs@.subrange(4, 7)[0] == fs@[4]);
        assert(fs@.subrange(5, 7)[0] == fs@[5]);
        assert(fs@.subrange(6, 7)[0] == fs@[6]);
        assert(obj_get(fs@, "type"@) == Some(Json::UInt(d)));
        assert(obj_get(fs@, "chance"@) == Some(fs@[1].1));
        assert(obj_get(fs@, "itemName"@) == Some(Json::Str(a.item_name)));
        assert(obj_get(fs@, "qualityMin"@) == Some(Json::UInt(a.quality_min as u64)));
        assert(obj_get(fs@, "qualityMax"@) == Some(Json::UInt(a.quality_max as u64)));
        assert(obj_get(fs@, "quantityMin"@) == Some(Json::UInt(a.quantity_min as u64)));
        assert(obj_get(fs@, "quantityMax"@) == Some(Json::UInt(a.quantity_max as u64)));
    }
    fs
}

/// Builds the wire object for an effect: its discriminant under `type`, the
/// variant's payload fields beside it.
///
/// The contract is the decoder's round trip: every declared variant, with any
/// payload its fields can hold, decodes back to exactly the effect it encodes.
pub fn effect_to_json(e: &ConsumeEffect) -> (j: Json)
    ensures
        effect_of(j) == Ok::<ConsumeEffect, DecodeError>(*e),
{
    match e {
        ConsumeEffect::Unknown => {
            let mut fs: Vec<(String, Json)> = Vec::new();
            fs.push(("type".to_owned(), Json::UInt(0)));
            proof {
                reveal_with_fuel(obj_get, 2);
                assert(obj_get(fs@, "type"@) == Some(Json::UInt(0u64)));
            }
            Json::Obj(fs)
        },
        ConsumeEffect::RestoreHealth(m) => Json::Obj(min_max_fields(1, m)),
        ConsumeEffect::RestoreEnergy(m) => Json::Obj(min_max_fields(2, m)),
        ConsumeEffect::RestoreSpirit(m) => Json::Obj(min_max_fields(3, m)),
        ConsumeEffect::BuffHealth(m) => Json::Obj(min_max_fields(4, m)),
        ConsumeEffect::BuffEnergy(m) => Json::Obj(min_max_fields(5, m)),
        ConsumeEffect::BuffSpirit(m) => Json::Obj(min_max_fields(6, m)),
        ConsumeEffect::DecreaseHealth(m) => Json::Obj(min_max_fields(7, m)),
        ConsumeEffect::DecreaseEnergy(m) => Json::Obj(min_max_fields(8, m)),
        ConsumeEffect::DecreaseSpirit(m) => Json::Obj(min_max_fields(9, m)),
        ConsumeEffect::DebuffHealth(m) => Json::Obj(min_max_fields(10, m)),
        ConsumeEffect::DebuffEnergy(m) => Json::Obj(min_max_fields(11, m)),
        ConsumeEffect::DebuffSpirit(m) => Json::Obj(min_max_fields(12, m)),
        ConsumeEffect::AddCredits(a) => Json::Obj(add_credits_fields(13, a)),
        ConsumeEffect::RemoveCredits(m) => Json::Obj(min_max_fields(14, m)),
        ConsumeEffect::AcceptMission(a) => Json::Obj(accept_mission_fields(15, a)),
        ConsumeEffect::AddItem(a) => Json::Obj(add_item_fields(16, a)),
    }
}

/// Decodes an array of effects, element by element and in order; the first
/// element that fails decides the failure.
#[verifier::loop_isolation(false)]
pub fn decode_effects(items: Vec<Json>) -> (r: Result<Vec<ConsumeEffect>, DecodeError>)
    ensures
        r matches Ok(v) ==> v@.len() == items@.len() && (forall|k: int|
            0 <= k < items@.len() ==> effect_of(items@[k]) == Ok::<ConsumeEffect, DecodeError>(
                v@[k],
            )),
        r is Ok <==> (forall|k: int| 0 <= k < items@.len() ==> effect_of(items@[k]) is Ok),
        r matches Err(e) ==> (exists|k: int|
            0 <= k < items@.len() && effect_of(items@[k]) == Err::<ConsumeEffect, DecodeError>(e)
                && (forall|j: int| 0 <= j < k ==> effect_of(items@[j]) is Ok)),
{
    let ghost orig = items@;
    let mut items = items;
    let mut out: Vec<ConsumeEffect> = Vec::new();
    while items.len() > 0
        invariant
            out@.len() + items@.len() == orig.len(),
            items@ == orig.subrange(out@.len() as int, orig.len() as int),
            forall|k: int| 0 <= k < out@.len() ==> effect_of(orig[k]) == Ok::<
                ConsumeEffect,
                DecodeError,
            >(out@[k]),
        decreases items@.len(),
    {
        let ghost i = out@.len() as int;
        let x = items.remove(0);
        proof {
            assert(x == orig[i]);
            assert(orig.subrange(i, orig.len() as int).remove(0) =~= orig.subrange(
                i + 1,
                orig.len() as int,
            ));
        }
        match decode_consume_effect(x) {
            Ok(v) => out.push(v),
            Err(e) => {
                proof {
                    assert(0 <= i < orig.len());
                    assert(effect_of(orig[i]) == Err::<ConsumeEffect, DecodeError>(e));
                    assert(forall|j: int| 0 <= j < i ==> effect_of(orig[j]) is Ok);
                    assert(!(forall|k: int| 0 <= k < orig.len() ==> effect_of(orig[k]) is Ok))
                        by {
                        assert(!(effect_of(orig[i]) is Ok));
                    }
                    assert(exists|k: int|
                        0 <= k < orig.len() && effect_of(orig[k]) == Err::<
                            ConsumeEffect,
                            DecodeError,
                        >(e) && (forall|j: int| 0 <= j < k ==> effect_of(orig[j]) is Ok)) by {
                        assert(0 <= i < orig.len() && effect_of(orig[i]) == Err::<
                            ConsumeEffect,
                            DecodeError,
                        >(e) && (forall|j: int| 0 <= j < i ==> effect_of(orig[j]) is Ok));
                    }
                }
                return Err(e);
            },
        }
    }
    proof {
        assert(out@.len() == orig.len());
    }
    Ok(out)
}

} // verus!
