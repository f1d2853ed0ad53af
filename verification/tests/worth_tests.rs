use betweenworlds_api::models::{
    AddCreditsEffect, ConsumeEffect, Item, LeaderboardUser, LeaderboardUserCombatsWon,
    LeaderboardUserCredits, LeaderboardUserItemsCrafted, LeaderboardUserJobsPerformed,
    LeaderboardUserLevel, LeaderboardUserMissionsCompleted, LeaderboardUserOverdoses, MinMax,
};
use betweenworlds_api::tracker::{Graph, LeaderboardsRecord};
use betweenworlds_api::worth::{calculate_item_worth, try_item_worth};

fn five(s: &str) -> [String; 5] {
    [s.to_owned(), s.to_owned(), s.to_owned(), s.to_owned(), s.to_owned()]
}

fn bare_item(worth_multiplier: usize, effects: Option<Vec<ConsumeEffect>>) -> Item {
    Item {
        quality_adjectives: five("adj"),
        level: 1,
        image_url: String::new(),
        item_type: 0,
        name: "thing".to_owned(),
        worth_multiplier,
        consume_effects: effects,
        skill_effects: None,
        quality_descriptions: five("desc"),
    }
}

#[test]
fn worth_without_effects_scales_with_quality_tier() {
    let item = bare_item(100, None);
    for q in 0u8..5 {
        assert_eq!(calculate_item_worth(&item, q), 100 * (q as usize + 1));
    }
}

#[test]
fn empty_effect_list_keeps_the_sell_value() {
    let item = bare_item(100, Some(vec![]));
    assert_eq!(calculate_item_worth(&item, 0), 100);
}

#[test]
fn credit_effects_raise_the_worth_when_higher() {
    let effects = vec![ConsumeEffect::AddCredits(AddCreditsEffect {
        min: 500,
        max: 700,
        worth_multiplier: None,
    })];
    let item = bare_item(100, Some(effects));
    // The midpoint 600 beats the sell value 100.
    assert_eq!(calculate_item_worth(&item, 0), 600);
    // At tier four the sell value 500 still loses to 600.
    assert_eq!(calculate_item_worth(&item, 4), 600);
}

#[test]
fn remove_credits_lowers_the_effect_value_not_below_sell() {
    let effects = vec![
        ConsumeEffect::AddCredits(AddCreditsEffect { min: 500, max: 700, worth_multiplier: None }),
        ConsumeEffect::RemoveCredits(MinMax { min: 100, max: 300 }),
    ];
    let item = bare_item(100, Some(effects));
    // 600 gained minus 200 paid leaves 400, above the sell value 100.
    assert_eq!(calculate_item_worth(&item, 0), 400);
}

#[test]
fn unrelated_effects_contribute_nothing() {
    let effects = vec![ConsumeEffect::RestoreHealth(MinMax { min: 50, max: 90 })];
    let item = bare_item(30, Some(effects));
    assert_eq!(calculate_item_worth(&item, 1), 60);
}

#[test]
fn try_item_worth_matches_and_checks_the_range() {
    let item = bare_item(100, None);
    assert_eq!(try_item_worth(&item, 2), Some(300));
    let big = bare_item(usize::MAX, None);
    assert_eq!(try_item_worth(&big, 4), None);
}

#[test]
fn graph_names_are_fixed() {
    assert_eq!(Graph::Level.name(), "level");
    assert_eq!(Graph::Credits.name(), "credits");
    assert_eq!(Graph::MissionsCompleted.name(), "missions completed");
    assert_eq!(Graph::Overdoses.name(), "overdoses");
    assert_eq!(Graph::CombatsWon.name(), "combats won");
    assert_eq!(Graph::ItemsCrafted.name(), "items crafted");
    assert_eq!(Graph::JobsPerformed.name(), "jobs performed");
}

#[test]
fn record_needs_every_section() {
    let user = LeaderboardUser {
        name: "alice".to_owned(),
        roles: vec![],
        credits: Some(LeaderboardUserCredits { rank: 1, credits: 10 }),
        highest_levels: None,
        combats_won: None,
        items_crafted: None,
        jobs_performed: None,
        overdoses: None,
        missions_completed: None,
    };
    assert!(LeaderboardsRecord::from_user(&user, 0).is_none());
}

#[test]
fn record_copies_every_statistic() {
    let user = LeaderboardUser {
        name: "alice".to_owned(),
        roles: vec![],
        credits: Some(LeaderboardUserCredits { rank: 1, credits: 10 }),
        highest_levels: Some(LeaderboardUserLevel { rank: 2, level: 20, exp_current: 5 }),
        combats_won: Some(LeaderboardUserCombatsWon { rank: 3, combats_won: 30 }),
        items_crafted: Some(LeaderboardUserItemsCrafted { rank: 4, items_crafted: 40 }),
        jobs_performed: Some(LeaderboardUserJobsPerformed { rank: 5, jobs_performed: 50 }),
        overdoses: Some(LeaderboardUserOverdoses { rank: 6, overdoses: 60 }),
        missions_completed: Some(LeaderboardUserMissionsCompleted {
            rank: 7,
            missions_completed: 70,
        }),
    };
    let rec = LeaderboardsRecord::from_user(&user, 12345).unwrap();
    assert_eq!(rec.time, 12345);
    assert_eq!(
        (rec.credits, rec.level, rec.combats_won, rec.items_crafted),
        (10, 20, 30, 40)
    );
    assert_eq!((rec.jobs_performed, rec.overdoses, rec.missions_completed), (50, 60, 70));
}

#[test]
fn catalog_lookup_takes_the_last_entry_under_a_name() {
    let items = vec![bare_item(10, None), bare_item(20, None), bare_item(30, None)];
    let found = betweenworlds_api::find_item(&items, "thing").unwrap();
    assert_eq!(found.worth_multiplier, 30);
    assert!(betweenworlds_api::find_item(&items, "absent").is_none());
}
