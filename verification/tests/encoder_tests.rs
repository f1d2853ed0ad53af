use betweenworlds_api::flags::{LeaderboardsFlags, UserDataFlags};
use betweenworlds_api::query::{leaderboard_flags_to_query, DelimiterStringWriter};

#[test]
fn encoder_emits_all_tokens_in_declared_order() {
    let q = leaderboard_flags_to_query(LeaderboardsFlags::all());
    assert_eq!(
        q,
        "credits&highestLevels&combatsWon&itemsCrafted&jobsPerformed&overdoses&missionsCompleted"
    );
}

#[test]
fn encoder_empty_flags_give_empty_string() {
    let q = leaderboard_flags_to_query(LeaderboardsFlags::none());
    assert_eq!(q, "");
}

#[test]
fn encoder_single_flag_has_no_delimiter() {
    assert_eq!(leaderboard_flags_to_query(LeaderboardsFlags::credits()), "credits");
    assert_eq!(leaderboard_flags_to_query(LeaderboardsFlags::overdoses()), "overdoses");
    assert_eq!(
        leaderboard_flags_to_query(LeaderboardsFlags::missions_completed()),
        "missionsCompleted"
    );
}

#[test]
fn encoder_keeps_declared_order_for_subsets() {
    let flags = LeaderboardsFlags::overdoses().union(LeaderboardsFlags::credits());
    assert_eq!(leaderboard_flags_to_query(flags), "credits&overdoses");
    let flags = LeaderboardsFlags::jobs_performed().union(LeaderboardsFlags::highest_levels());
    assert_eq!(leaderboard_flags_to_query(flags), "highestLevels&jobsPerformed");
}

#[test]
fn delimiter_writer_joins_pieces() {
    let mut w = DelimiterStringWriter::new("&");
    w.add("a");
    w.add("b");
    w.add("c");
    assert_eq!(w.get(), "a&b&c");
}

#[test]
fn delimiter_writer_single_piece_stands_alone() {
    let mut w = DelimiterStringWriter::new(", ");
    w.add("one");
    assert_eq!(w.get(), "one");
}

#[test]
fn delimiter_writer_empty_gives_empty_string() {
    let w = DelimiterStringWriter::new("&");
    assert_eq!(w.get(), "");
}

#[test]
fn user_flags_has_checks_overlap() {
    let flags = UserDataFlags::inventory().union(UserDataFlags::equipment());
    assert!(flags.has(UserDataFlags::inventory()));
    assert!(flags.has(UserDataFlags::equipment()));
    assert!(!flags.has(UserDataFlags::biography()));
    assert!(UserDataFlags::all().has(UserDataFlags::biography()));
    assert!(!UserDataFlags::none().has(UserDataFlags::all()));
}

#[test]
fn leaderboard_flags_has_checks_overlap() {
    let flags = LeaderboardsFlags::credits().union(LeaderboardsFlags::overdoses());
    assert!(flags.has(LeaderboardsFlags::credits()));
    assert!(flags.has(LeaderboardsFlags::overdoses()));
    assert!(!flags.has(LeaderboardsFlags::combats_won()));
    assert!(LeaderboardsFlags::all().has(LeaderboardsFlags::missions_completed()));
}
