use betweenworlds_api::decode::{decode_entry, decode_hl_entry, decode_items, decode_strings};
use betweenworlds_api::effects::DecodeError;
use betweenworlds_api::json::Json;

#[test]
fn the_item_catalog_must_be_an_array() {
    let r = decode_items(Json::Str("nope".to_owned()));
    assert_eq!(r.unwrap_err(), DecodeError::NotAnArray);
}

#[test]
fn strings_reject_a_non_string_element() {
    let r = decode_strings(vec![Json::Str("a".to_owned()), Json::UInt(3)]);
    assert_eq!(r.unwrap_err(), DecodeError::WrongType);
    let r = decode_strings(vec![]);
    assert_eq!(r.unwrap(), Vec::<String>::new());
}

#[test]
fn an_entry_accepts_any_section_name_for_its_value() {
    for key in ["value", "credits", "level", "combatsWon", "itemsCrafted", "jobsPerformed", "overdoses", "missionsCompleted"] {
        let j = Json::Obj(vec![
            ("rank".to_owned(), Json::UInt(3)),
            (key.to_owned(), Json::UInt(77)),
            ("name".to_owned(), Json::Str("Alice".to_owned())),
            ("roles".to_owned(), Json::Arr(vec![])),
        ]);
        let e = decode_entry(j).unwrap();
        assert_eq!((e.rank, e.value), (3, 77));
        assert_eq!(e.name, "Alice");
        assert!(e.roles.is_empty());
    }
}

#[test]
fn an_entry_without_any_value_spelling_is_missing_a_field() {
    let j = Json::Obj(vec![
        ("rank".to_owned(), Json::UInt(3)),
        ("name".to_owned(), Json::Str("Alice".to_owned())),
        ("roles".to_owned(), Json::Arr(vec![])),
    ]);
    assert_eq!(decode_entry(j).unwrap_err(), DecodeError::Missing);
}

#[test]
fn a_highest_levels_row_carries_level_and_experience() {
    let j = Json::Obj(vec![
        ("rank".to_owned(), Json::UInt(2)),
        ("level".to_owned(), Json::UInt(31)),
        ("expCurrent".to_owned(), Json::UInt(900)),
        ("name".to_owned(), Json::Str("Cara".to_owned())),
        ("roles".to_owned(), Json::Arr(vec![Json::Str("vip".to_owned())])),
    ]);
    let e = decode_hl_entry(j).unwrap();
    assert_eq!((e.rank, e.level, e.exp_current), (2, 31, 900));
    assert_eq!(e.roles, vec!["vip".to_owned()]);
}
