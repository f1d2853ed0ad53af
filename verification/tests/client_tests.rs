use betweenworlds_api::client::{
    classify_error, items_from_body, leaderboard_user_from_body, leaderboards_from_body,
    parse_items_response, parse_leaderboard_user_response, parse_leaderboards_response,
    parse_user_response, user_from_body, Client,
};
use betweenworlds_api::flags::{LeaderboardsFlags, UserDataFlags};
use betweenworlds_api::models::ApiError;

#[test]
fn http_404_maps_to_not_found() {
    assert_eq!(classify_error(false, Some(404)), ApiError::NotFound);
}

#[test]
fn http_401_maps_to_unauthorized() {
    assert_eq!(classify_error(false, Some(401)), ApiError::Unauthorized);
}

#[test]
fn transport_timeout_maps_to_request_timeout() {
    assert_eq!(classify_error(true, None), ApiError::RequestTimeout);
    // A timeout outranks whatever status may have been seen.
    assert_eq!(classify_error(true, Some(404)), ApiError::RequestTimeout);
}

#[test]
fn other_statuses_and_transport_failures_map_to_other() {
    assert_eq!(classify_error(false, Some(500)), ApiError::Other);
    assert_eq!(classify_error(false, Some(200)), ApiError::Other);
    assert_eq!(classify_error(false, None), ApiError::Other);
}

#[test]
fn malformed_json_maps_to_deserialization() {
    let r = parse_user_response("{\"name\": ");
    assert!(matches!(r, Err(ApiError::Deserialization(_))));
    let r = parse_leaderboards_response("not json at all");
    assert!(matches!(r, Err(ApiError::Deserialization(_))));
    let r = parse_items_response("{}");
    assert!(matches!(r, Err(ApiError::Deserialization(_))));
}

#[test]
fn user_url_carries_credentials_name_and_markers() {
    let client = Client::new("alice".to_owned(), "SECRET-REDACTED".to_owned());
    let url = client.user_url("bob", UserDataFlags::inventory().union(UserDataFlags::equipment()));
    assert_eq!(
        url,
        "https://api.betweenworlds.net/v1/users?authId=alice&apiKey=SECRET-REDACTED&name=bob&equipment&inventory"
    );
    let url = client.user_url("bob", UserDataFlags::none());
    assert_eq!(
        url,
        "https://api.betweenworlds.net/v1/users?authId=alice&apiKey=SECRET-REDACTED&name=bob"
    );
}

#[test]
fn items_url_carries_credentials_only() {
    let client = Client::new("alice".to_owned(), "k1".to_owned());
    assert_eq!(
        client.items_url(),
        "https://api.betweenworlds.net/v1/items?authId=alice&apiKey=k1"
    );
}

#[test]
fn leaderboards_urls_embed_the_flag_tokens() {
    let client = Client::new("alice".to_owned(), "k1".to_owned());
    let url = client.leaderboards_url(LeaderboardsFlags::credits());
    assert_eq!(
        url,
        "https://api.betweenworlds.net/v1/leaderboards?authId=alice&apiKey=k1&credits"
    );
    let url = client.leaderboard_user_url("bob", LeaderboardsFlags::all());
    assert_eq!(
        url,
        "https://api.betweenworlds.net/v1/leaderboards?authId=alice&apiKey=k1&name=bob&credits&highestLevels&combatsWon&itemsCrafted&jobsPerformed&overdoses&missionsCompleted"
    );
}

#[test]
fn user_body_decodes_into_the_model() {
    let body = "{\
        \"name\": \"alice\",\
        \"createdAt\": \"2023-01-05T10:00:00Z\",\
        \"roles\": [\"player\", \"tester\"],\
        \"biography\": \"hi\",\
        \"equipment\": [{\"itemName\": \"knife\", \"quality\": 2}],\
        \"inventory\": [{\"itemName\": \"cell\", \"moduleSlots\": 1, \"quality\": 0, \"modules\": [], \"quantity\": 9}]\
    }";
    let u = parse_user_response(body).unwrap();
    assert_eq!(u.name, "alice");
    assert_eq!(u.created_at, "2023-01-05T10:00:00Z");
    assert_eq!(u.roles, vec!["player".to_owned(), "tester".to_owned()]);
    assert_eq!(u.biography.as_deref(), Some("hi"));
    let eq = u.equipment.unwrap();
    assert_eq!(eq.len(), 1);
    assert_eq!(eq[0].item_name, "knife");
    assert_eq!(eq[0].quality, 2);
    let inv = u.inventory.unwrap();
    assert_eq!(inv.len(), 1);
    assert_eq!((inv[0].quantity, inv[0].module_slots), (9, 1));
}

#[test]
fn absent_optional_user_fields_stay_absent() {
    let body = "{\"name\": \"alice\", \"createdAt\": \"x\", \"roles\": []}";
    let u = parse_user_response(body).unwrap();
    assert!(u.biography.is_none());
    assert!(u.equipment.is_none());
    assert!(u.inventory.is_none());
    assert!(u.roles.is_empty());
}

#[test]
fn items_body_decodes_into_the_catalog() {
    let body = "[{\
        \"qualityAdjectives\": [\"a\",\"b\",\"c\",\"d\",\"e\"],\
        \"level\": 4,\
        \"imageUrl\": \"http://img\",\
        \"type\": 7,\
        \"name\": \"medkit\",\
        \"worthMultiplier\": 100,\
        \"consumeEffects\": [{\"type\": 1, \"min\": 5, \"max\": 10}],\
        \"skillEffects\": null,\
        \"qualityDescriptions\": [\"v\",\"w\",\"x\",\"y\",\"z\"]\
    }]";
    let items = parse_items_response(body).unwrap();
    assert_eq!(items.len(), 1);
    let it = &items[0];
    assert_eq!(it.name, "medkit");
    assert_eq!(it.worth_multiplier, 100);
    assert_eq!(it.item_type, 7);
    assert_eq!(it.level, 4);
    assert_eq!(it.quality_adjectives[4], "e");
    assert_eq!(it.quality_descriptions[0], "v");
    assert!(it.skill_effects.is_none());
    assert_eq!(it.consume_effects.as_ref().unwrap().len(), 1);
}

#[test]
fn leaderboards_body_decodes_sections_with_aliased_values() {
    let body = "{\
        \"credits\": [{\"rank\": 3, \"credits\": 1000, \"name\": \"Alice\", \"roles\": []}],\
        \"combatsWon\": [{\"rank\": 8, \"combatsWon\": 42, \"name\": \"Bob\", \"roles\": []}]\
    }";
    let lb = parse_leaderboards_response(body).unwrap();
    let credits = lb.credits.unwrap();
    assert_eq!((credits[0].rank, credits[0].value), (3, 1000));
    assert_eq!(credits[0].name, "Alice");
    let combats = lb.combats_won.unwrap();
    assert_eq!((combats[0].rank, combats[0].value), (8, 42));
    assert!(lb.overdoses.is_none());
    assert!(lb.highest_levels.is_none());
}

#[test]
fn by_user_body_reassembles_last_writer_wins() {
    let body = "{\
        \"credits\": [{\"rank\": 3, \"credits\": 1000, \"name\": \"Alice\", \"roles\": []}],\
        \"combatsWon\": [{\"rank\": 8, \"combatsWon\": 42, \"name\": \"Bob\", \"roles\": []}]\
    }";
    let user = parse_leaderboard_user_response(body).unwrap();
    assert_eq!(user.name, "Bob");
    assert_eq!(user.credits.unwrap().credits, 1000);
    assert_eq!(user.combats_won.unwrap().combats_won, 42);
}

#[test]
fn by_user_body_with_empty_section_is_not_found() {
    let body = "{\"credits\": []}";
    assert_eq!(parse_leaderboard_user_response(body), Err(ApiError::NotFound));
}

#[test]
fn an_unreadable_body_maps_to_other() {
    assert_eq!(user_from_body(None), Err(ApiError::Other));
    assert_eq!(items_from_body(None), Err(ApiError::Other));
    assert_eq!(leaderboards_from_body(None), Err(ApiError::Other));
    assert_eq!(leaderboard_user_from_body(None), Err(ApiError::Other));
}

#[test]
fn a_readable_body_decides_through_the_decoder() {
    let body = "{\"name\": \"alice\", \"createdAt\": \"x\", \"roles\": []}".to_owned();
    let u = user_from_body(Some(body)).unwrap();
    assert_eq!(u.name, "alice");
    let r = user_from_body(Some("{broken".to_owned()));
    assert!(matches!(r, Err(ApiError::Deserialization(_))));
}
