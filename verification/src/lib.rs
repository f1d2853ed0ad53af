//! A typed client model for the Between Worlds web API: request flags, query
//! encoding, JSON decoding of the response models, leaderboard reassembly, and
//! item worth calculation.
//!
//! The verified core is everything except the network round-trip itself: a
//! caller (see the accompanying programs) issues the GET for a URL built here
//! and hands the body text or the transport outcome back to this crate.

pub mod catalog;
pub mod client;
pub mod decode;
pub mod effects;
pub mod flags;
pub mod json;
pub mod leaderboard;
pub mod models;
pub mod query;
pub mod tracker;
pub mod worth;

pub use catalog::find_item;
pub use client::Client;
pub use flags::{LeaderboardsFlags, UserDataFlags};
pub use leaderboard::leaderboard_user_from;
pub use models::{
    AcceptMissionEffect, AddCreditsEffect, AddItemEffect, ApiError, ConsumeEffect,
    EquipmentItemRef, InventoryItem, Item, LeaderboardUser, LeaderboardUserCombatsWon,
    LeaderboardUserCredits, LeaderboardUserItemsCrafted, LeaderboardUserJobsPerformed,
    LeaderboardUserLevel, LeaderboardUserMissionsCompleted, LeaderboardUserOverdoses,
    Leaderboards, LeaderboardsEntry, LeaderboardsHighestLevelEntry, MinMax, User,
};
pub use query::DelimiterStringWriter;
pub use worth::calculate_item_worth;
