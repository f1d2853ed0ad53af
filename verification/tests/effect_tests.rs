use betweenworlds_api::effects::{decode_consume_effect, effect_to_json, DecodeError};
use betweenworlds_api::json::{parse_json, Json, JsonNum};
use betweenworlds_api::models::{
    AcceptMissionEffect, AddCreditsEffect, AddItemEffect, ConsumeEffect, MinMax,
};

fn min_max_object(d: u64, min: i64, max: i64) -> Json {
    Json::Obj(vec![
        ("type".to_owned(), Json::UInt(d)),
        ("min".to_owned(), Json::Int(min)),
        ("max".to_owned(), Json::Int(max)),
    ])
}

#[test]
fn unknown_variant_discriminant_fails() {
    let j = Json::Obj(vec![("type".to_owned(), Json::UInt(17))]);
    assert_eq!(decode_consume_effect(j), Err(DecodeError::UnknownVariant(17)));
    let j = Json::Obj(vec![("type".to_owned(), Json::UInt(99))]);
    assert_eq!(decode_consume_effect(j), Err(DecodeError::UnknownVariant(99)));
}

#[test]
fn discriminant_zero_is_the_bare_unknown_effect() {
    let j = Json::Obj(vec![("type".to_owned(), Json::UInt(0))]);
    assert_eq!(decode_consume_effect(j), Ok(ConsumeEffect::Unknown));
}

#[test]
fn each_min_max_discriminant_decodes_to_its_variant() {
    let m = MinMax { min: -4, max: 9 };
    let expected = [
        ConsumeEffect::RestoreHealth(m),
        ConsumeEffect::RestoreEnergy(m),
        ConsumeEffect::RestoreSpirit(m),
        ConsumeEffect::BuffHealth(m),
        ConsumeEffect::BuffEnergy(m),
        ConsumeEffect::BuffSpirit(m),
        ConsumeEffect::DecreaseHealth(m),
        ConsumeEffect::DecreaseEnergy(m),
        ConsumeEffect::DecreaseSpirit(m),
        ConsumeEffect::DebuffHealth(m),
        ConsumeEffect::DebuffEnergy(m),
        ConsumeEffect::DebuffSpirit(m),
    ];
    for (k, want) in expected.iter().enumerate() {
        let got = decode_consume_effect(min_max_object((k + 1) as u64, -4, 9));
        assert_eq!(got.as_ref(), Ok(want));
    }
    assert_eq!(
        decode_consume_effect(min_max_object(14, -4, 9)),
        Ok(ConsumeEffect::RemoveCredits(m))
    );
}

#[test]
fn add_credits_decodes_with_and_without_multiplier() {
    let j = Json::Obj(vec![
        ("type".to_owned(), Json::UInt(13)),
        ("min".to_owned(), Json::Int(10)),
        ("max".to_owned(), Json::Int(30)),
        ("worthMultiplier".to_owned(), Json::UInt(7)),
    ]);
    assert_eq!(
        decode_consume_effect(j),
        Ok(ConsumeEffect::AddCredits(AddCreditsEffect {
            min: 10,
            max: 30,
            worth_multiplier: Some(7),
        }))
    );
    let j = Json::Obj(vec![
        ("type".to_owned(), Json::UInt(13)),
        ("min".to_owned(), Json::Int(10)),
        ("max".to_owned(), Json::Int(30)),
    ]);
    assert_eq!(
        decode_consume_effect(j),
        Ok(ConsumeEffect::AddCredits(AddCreditsEffect {
            min: 10,
            max: 30,
            worth_multiplier: None,
        }))
    );
}

#[test]
fn accept_mission_decodes_its_name() {
    let j = Json::Obj(vec![
        ("type".to_owned(), Json::UInt(15)),
        ("missionName".to_owned(), Json::Str("rescue-run".to_owned())),
    ]);
    assert_eq!(
        decode_consume_effect(j),
        Ok(ConsumeEffect::AcceptMission(AcceptMissionEffect {
            mission_name: "rescue-run".to_owned(),
        }))
    );
}

#[test]
fn add_item_decodes_all_fields() {
    let j = Json::Obj(vec![
        ("type".to_owned(), Json::UInt(16)),
        ("chance".to_owned(), Json::NumText("0.25".to_owned())),
        ("itemName".to_owned(), Json::Str("medkit".to_owned())),
        ("qualityMin".to_owned(), Json::UInt(1)),
        ("qualityMax".to_owned(), Json::UInt(4)),
        ("quantityMin".to_owned(), Json::UInt(2)),
        ("quantityMax".to_owned(), Json::UInt(5)),
    ]);
    assert_eq!(
        decode_consume_effect(j),
        Ok(ConsumeEffect::AddItem(AddItemEffect {
            chance: JsonNum::Text("0.25".to_owned()),
            item_name: "medkit".to_owned(),
            quality_min: 1,
            quality_max: 4,
            quantity_min: 2,
            quantity_max: 5,
        }))
    );
}

#[test]
fn missing_discriminant_and_bad_payload_fail() {
    let j = Json::Obj(vec![("min".to_owned(), Json::Int(1))]);
    assert_eq!(decode_consume_effect(j), Err(DecodeError::Missing));
    let j = Json::Obj(vec![("type".to_owned(), Json::Str("one".to_owned()))]);
    assert_eq!(decode_consume_effect(j), Err(DecodeError::WrongType));
    let j = Json::Str("not an effect".to_owned());
    assert_eq!(decode_consume_effect(j), Err(DecodeError::NotAnObject));
    // A negative discriminant is not an unsigned integer.
    let j = Json::Obj(vec![("type".to_owned(), Json::Int(-1))]);
    assert_eq!(decode_consume_effect(j), Err(DecodeError::WrongType));
    // A payload field is present but out of range.
    let j = Json::Obj(vec![
        ("type".to_owned(), Json::UInt(1)),
        ("min".to_owned(), Json::Str("low".to_owned())),
        ("max".to_owned(), Json::Int(2)),
    ]);
    assert_eq!(decode_consume_effect(j), Err(DecodeError::WrongType));
}

#[test]
fn every_variant_round_trips_through_its_wire_object() {
    let m = MinMax { min: -100, max: 250 };
    let cases = vec![
        ConsumeEffect::Unknown,
        ConsumeEffect::RestoreHealth(m),
        ConsumeEffect::RestoreEnergy(m),
        ConsumeEffect::RestoreSpirit(m),
        ConsumeEffect::BuffHealth(m),
        ConsumeEffect::BuffEnergy(m),
        ConsumeEffect::BuffSpirit(m),
        ConsumeEffect::DecreaseHealth(m),
        ConsumeEffect::DecreaseEnergy(m),
        ConsumeEffect::DecreaseSpirit(m),
        ConsumeEffect::DebuffHealth(m),
        ConsumeEffect::DebuffEnergy(m),
        ConsumeEffect::DebuffSpirit(m),
        ConsumeEffect::AddCredits(AddCreditsEffect { min: 5, max: 6, worth_multiplier: Some(2) }),
        ConsumeEffect::RemoveCredits(m),
        ConsumeEffect::AcceptMission(AcceptMissionEffect { mission_name: "run".to_owned() }),
        ConsumeEffect::AddItem(AddItemEffect {
            chance: JsonNum::UInt(1),
            item_name: "cell".to_owned(),
            quality_min: 0,
            quality_max: 4,
            quantity_min: 1,
            quantity_max: 3,
        }),
    ];
    for e in cases {
        let wire = effect_to_json(&e);
        assert_eq!(decode_consume_effect(wire), Ok(e));
    }
}

#[test]
fn effects_decode_from_real_json_text() {
    let body = "{\"type\": 14, \"min\": -8, \"max\": 20}";
    let j = parse_json(body).unwrap();
    assert_eq!(
        decode_consume_effect(j),
        Ok(ConsumeEffect::RemoveCredits(MinMax { min: -8, max: 20 }))
    );
    let body = "{\"type\": 12, \"min\": -8, \"max\": 20}";
    let j = parse_json(body).unwrap();
    assert_eq!(
        decode_consume_effect(j),
        Ok(ConsumeEffect::DebuffSpirit(MinMax { min: -8, max: 20 }))
    );
}
