use betweenworlds_api::leaderboard::leaderboard_user_from;
use betweenworlds_api::models::{
    ApiError, Leaderboards, LeaderboardsEntry, LeaderboardsHighestLevelEntry,
    LeaderboardUserCombatsWon, LeaderboardUserCredits,
};

fn empty_leaderboards() -> Leaderboards {
    Leaderboards {
        credits: None,
        highest_levels: None,
        combats_won: None,
        items_crafted: None,
        jobs_performed: None,
        overdoses: None,
        missions_completed: None,
    }
}

fn entry(rank: usize, value: usize, name: &str) -> LeaderboardsEntry {
    LeaderboardsEntry { rank, value, name: name.to_owned(), roles: vec!["player".to_owned()] }
}

#[test]
fn credits_only_reassembles_that_section_alone() {
    let lb = Leaderboards { credits: Some(vec![entry(3, 1000, "Alice")]), ..empty_leaderboards() };
    let user = leaderboard_user_from(lb).unwrap();
    assert_eq!(user.name, "Alice");
    assert_eq!(user.credits, Some(LeaderboardUserCredits { rank: 3, credits: 1000 }));
    assert!(user.highest_levels.is_none());
    assert!(user.combats_won.is_none());
    assert!(user.items_crafted.is_none());
    assert!(user.jobs_performed.is_none());
    assert!(user.overdoses.is_none());
    assert!(user.missions_completed.is_none());
}

#[test]
fn last_processed_section_overwrites_name_and_roles() {
    let lb = Leaderboards {
        credits: Some(vec![entry(3, 1000, "Alice")]),
        combats_won: Some(vec![entry(8, 42, "Bob")]),
        ..empty_leaderboards()
    };
    let user = leaderboard_user_from(lb).unwrap();
    // Combats-won comes after credits in the fixed order, so its entry wins.
    assert_eq!(user.name, "Bob");
    assert_eq!(user.credits, Some(LeaderboardUserCredits { rank: 3, credits: 1000 }));
    assert_eq!(user.combats_won, Some(LeaderboardUserCombatsWon { rank: 8, combats_won: 42 }));
}

#[test]
fn highest_levels_carries_level_and_experience() {
    let lb = Leaderboards {
        highest_levels: Some(vec![LeaderboardsHighestLevelEntry {
            rank: 2,
            level: 31,
            exp_current: 900,
            name: "Cara".to_owned(),
            roles: vec![],
        }]),
        ..empty_leaderboards()
    };
    let user = leaderboard_user_from(lb).unwrap();
    assert_eq!(user.name, "Cara");
    let hl = user.highest_levels.unwrap();
    assert_eq!((hl.rank, hl.level, hl.exp_current), (2, 31, 900));
}

#[test]
fn a_present_but_empty_section_is_not_found() {
    let lb = Leaderboards { credits: Some(vec![]), ..empty_leaderboards() };
    assert_eq!(leaderboard_user_from(lb), Err(ApiError::NotFound));
    let lb = Leaderboards {
        credits: Some(vec![entry(1, 5, "Alice")]),
        overdoses: Some(vec![]),
        ..empty_leaderboards()
    };
    assert_eq!(leaderboard_user_from(lb), Err(ApiError::NotFound));
}

#[test]
fn no_sections_give_the_default_view() {
    let user = leaderboard_user_from(empty_leaderboards()).unwrap();
    assert_eq!(user.name, "");
    assert!(user.roles.is_empty());
    assert!(user.credits.is_none());
}

#[test]
fn each_section_takes_the_last_entry_of_its_list() {
    // A global listing has many rows; the by-user path takes the final one.
    let lb = Leaderboards {
        credits: Some(vec![entry(1, 900, "First"), entry(7, 550, "Dana")]),
        ..empty_leaderboards()
    };
    let user = leaderboard_user_from(lb).unwrap();
    assert_eq!(user.name, "Dana");
    assert_eq!(user.credits, Some(LeaderboardUserCredits { rank: 7, credits: 550 }));
}
