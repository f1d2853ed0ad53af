//! The response models: plain data records mirroring the API's JSON shapes,
//! and the error kinds every client operation can surface.

use vstd::prelude::*;
use crate::json::Json;

verus! {

/// The ways a client operation can fail.
#[derive(Debug, Clone, PartialEq, Eq)]
pub enum ApiError {
    /// The resource, or an expected sub-entry of it, is absent.
    NotFound,
    /// The transport reported a timeout before any response arrived.
    RequestTimeout,
    /// The server rejected the credentials.
    Unauthorized,
    /// The response body did not match the expected shape; carries the
    /// decoder's diagnostic.
    Deserialization(String),
    /// Any other transport or status failure.
    Other,
}

/// A user record. Optional fields are present only when the matching request
/// flag was set; absence is distinct from empty.
#[derive(Debug, PartialEq, Eq)]
pub struct User {
    pub biography: Option<String>,
    pub created_at: String,
    pub equipment: Option<Vec<EquipmentItemRef>>,
    pub inventory: Option<Vec<InventoryItem>>,
    pub roles: Vec<String>,
    pub name: String,
}

/// A reference to an equipped item: catalog name and quality tier.
#[derive(Debug, Clone, PartialEq, Eq)]
pub struct EquipmentItemRef {
    pub item_name: String,
    pub quality: u8,
}

/// One inventory stack: catalog name, quality tier, quantity, and the opaque
/// module values socketed into it.
#[derive(Debug, PartialEq, Eq)]
pub struct InventoryItem {
    pub item_name: String,
    pub module_slots: u8,
    pub quality: u8,
    pub modules: Vec<Json>,
    pub quantity: usize,
}

/// One catalog item.
#[derive(Debug, PartialEq, Eq)]
pub struct Item {
    pub quality_adjectives: [String; 5],
    pub level: usize,
    pub image_url: String,
    pub item_type: usize,
    pub name: String,
    pub worth_multiplier: usize,
    pub consume_effects: Option<Vec<ConsumeEffect>>,
    pub skill_effects: Option<Vec<Json>>,
    pub quality_descriptions: [String; 5],
}

/// One effect of consuming an item: a closed tagged union. On the wire each
/// effect is an object whose `type` field is the variant's position in this
/// declaration, counted from zero.
#[derive(Debug, Clone, PartialEq, Eq)]
pub enum ConsumeEffect {
    Unknown,
    RestoreHealth(MinMax),
    RestoreEnergy(MinMax),
    RestoreSpirit(MinMax),
    BuffHealth(MinMax),
    BuffEnergy(MinMax),
    BuffSpirit(MinMax),
    DecreaseHealth(MinMax),
    DecreaseEnergy(MinMax),
    DecreaseSpirit(MinMax),
    DebuffHealth(MinMax),
    DebuffEnergy(MinMax),
    DebuffSpirit(MinMax),
    AddCredits(AddCreditsEffect),
    RemoveCredits(MinMax),
    AcceptMission(AcceptMissionEffect),
    AddItem(AddItemEffect),
}

/// An inclusive range payload.
#[derive(Debug, Clone, Copy, PartialEq, Eq)]
pub struct MinMax {
    pub min: isize,
    pub max: isize,
}

/// A credit delta with an optional worth multiplier.
#[derive(Debug, Clone, Copy, PartialEq, Eq)]
pub struct AddCreditsEffect {
    pub min: isize,
    pub max: isize,
    pub worth_multiplier: Option<usize>,
}

/// A mission reference.
#[derive(Debug, Clone, PartialEq, Eq)]
pub struct AcceptMissionEffect {
    pub mission_name: String,
}

/// An item-grant descriptor: a probability (kept as the number that came off
/// the wire) with quality and quantity ranges.
#[derive(Debug, Clone, PartialEq, Eq)]
pub struct AddItemEffect {
    pub chance: crate::json::JsonNum,
    pub item_name: String,
    pub quality_min: u8,
    pub quality_max: u8,
    pub quantity_min: usize,
    pub quantity_max: usize,
}

/// The leaderboards response: up to seven optional sections, each an ordered
/// list of entries. A section is present exactly when it was requested.
#[derive(Debug, Clone, PartialEq, Eq)]
pub struct Leaderboards {
    pub credits: Option<Vec<LeaderboardsEntry>>,
    pub highest_levels: Option<Vec<LeaderboardsHighestLevelEntry>>,
    pub combats_won: Option<Vec<LeaderboardsEntry>>,
    pub items_crafted: Option<Vec<LeaderboardsEntry>>,
    pub jobs_performed: Option<Vec<LeaderboardsEntry>>,
    pub overdoses: Option<Vec<LeaderboardsEntry>>,
    pub missions_completed: Option<Vec<LeaderboardsEntry>>,
}

/// One row of a single-valued leaderboard section.
#[derive(Debug, Clone, PartialEq, Eq)]
pub struct LeaderboardsEntry {
    pub rank: usize,
    pub value: usize,
    pub name: String,
    pub roles: Vec<String>,
}

/// One row of the highest-levels section, which carries level and current
/// experience instead of a single value.
#[derive(Debug, Clone, PartialEq, Eq)]
pub struct LeaderboardsHighestLevelEntry {
    pub rank: usize,
    pub level: usize,
    pub exp_current: usize,
    pub name: String,
    pub roles: Vec<String>,
}

/// The reassembled per-user leaderboard view: one optional sub-record per
/// section. `name` and `roles` come from whichever present section was
/// processed last in the fixed section order — a documented quirk, not a
/// cross-section consistency check.
#[derive(Debug, Clone, PartialEq, Eq)]
pub struct LeaderboardUser {
    pub name: String,
    pub roles: Vec<String>,
    pub credits: Option<LeaderboardUserCredits>,
    pub highest_levels: Option<LeaderboardUserLevel>,
    pub combats_won: Option<LeaderboardUserCombatsWon>,
    pub items_crafted: Option<LeaderboardUserItemsCrafted>,
    pub jobs_performed: Option<LeaderboardUserJobsPerformed>,
    pub overdoses: Option<LeaderboardUserOverdoses>,
    pub missions_completed: Option<LeaderboardUserMissionsCompleted>,
}

impl Default for LeaderboardUser {
    /// The empty view: no name, no roles, every section absent.
    fn default() -> (r: Self)
        ensures
            r.name@ == Seq::<char>::empty(),
            r.roles@ == Seq::<String>::empty(),
            r.credits is None,
            r.highest_levels is None,
            r.combats_won is None,
            r.items_crafted is None,
            r.jobs_performed is None,
            r.overdoses is None,
            r.missions_completed is None,
    {
        LeaderboardUser {
            name: String::new(),
            roles: Vec::new(),
            credits: None,
            highest_levels: None,
            combats_won: None,
            items_crafted: None,
            jobs_performed: None,
            overdoses: None,
            missions_completed: None,
        }
    }
}

/// The user's row in the credits section.
#[derive(Debug, Clone, Copy, PartialEq, Eq, Structural)]
pub struct LeaderboardUserCredits {
    pub rank: usize,
    pub credits: usize,
}

/// The user's row in the highest-levels section.
#[derive(Debug, Clone, Copy, PartialEq, Eq, Structural)]
pub struct LeaderboardUserLevel {
    pub rank: usize,
    pub level: usize,
    pub exp_current: usize,
}

/// The user's row in the combats-won section.
#[derive(Debug, Clone, Copy, PartialEq, Eq, Structural)]
pub struct LeaderboardUserCombatsWon {
    pub rank: usize,
    pub combats_won: usize,
}

/// The user's row in the items-crafted section.
#[derive(Debug, Clone, Copy, PartialEq, Eq, Structural)]
pub struct LeaderboardUserItemsCrafted {
    pub rank: usize,
    pub items_crafted: usize,
}

/// The user's row in the jobs-performed section.
#[derive(Debug, Clone, Copy, PartialEq, Eq, Structural)]
pub struct LeaderboardUserJobsPerformed {
    pub rank: usize,
    pub jobs_performed: usize,
}

/// The user's row in the overdoses section.
#[derive(Debug, Clone, Copy, PartialEq, Eq, Structural)]
pub struct LeaderboardUserOverdoses {
    pub rank: usize,
    pub overdoses: usize,
}

/// The user's row in the missions-completed section.
#[derive(Debug, Clone, Copy, PartialEq, Eq, Structural)]
pub struct LeaderboardUserMissionsCompleted {
    pub rank: usize,
    pub missions_completed: usize,
}

} // verus!
