//! The stat tracker's computational parts: the graph selection and the
//! per-sample record built from a reassembled leaderboard view. The caller
//! owns scheduling, persistence and drawing.

use vstd::prelude::*;
use crate::models::LeaderboardUser;

verus! {

/// Which statistic a tracker graph plots.
#[derive(Debug, Clone, Copy, PartialEq, Eq, Structural)]
pub enum Graph {
    Level,
    Credits,
    MissionsCompleted,
    Overdoses,
    CombatsWon,
    ItemsCrafted,
    JobsPerformed,
}

impl Graph {
    /// The graph's display name.
    pub fn name(&self) -> (r: &'static str)
        ensures
            *self is Level ==> r@ == "level"@,
            *self is Credits ==> r@ == "credits"@,
            *self is MissionsCompleted ==> r@ == "missions completed"@,
            *self is Overdoses ==> r@ == "overdoses"@,
            *self is CombatsWon ==> r@ == "combats won"@,
            *self is ItemsCrafted ==> r@ == "items crafted"@,
            *self is JobsPerformed ==> r@ == "jobs performed"@,
    {
        match self {
            Graph::Level => "level",
            Graph::Credits => "credits",
            Graph::MissionsCompleted => "missions completed",
            Graph::Overdoses => "overdoses",
            Graph::CombatsWon => "combats won",
            Graph::ItemsCrafted => "items crafted",
            Graph::JobsPerformed => "jobs performed",
        }
    }
}

/// One tracked sample: every statistic of a player at one moment, the moment
/// held as a timestamp in seconds.
#[derive(Debug, Clone, Copy, PartialEq, Eq, Structural)]
pub struct LeaderboardsRecord {
    pub time: i64,
    pub credits: usize,
    pub level: usize,
    pub overdoses: usize,
    pub combats_won: usize,
    pub items_crafted: usize,
    pub jobs_performed: usize,
    pub missions_completed: usize,
}

impl LeaderboardsRecord {
    /// Builds one sample from a reassembled per-user view taken with every
    /// section requested; a view missing any section yields nothing.
    pub fn from_user(user: &LeaderboardUser, time: i64) -> (r: Option<LeaderboardsRecord>)
        ensures
            r is Some <==> {
                &&& user.credits is Some
                &&& user.highest_levels is Some
                &&& user.overdoses is Some
                &&& user.combats_won is Some
                &&& user.items_crafted is Some
                &&& user.jobs_performed is Some
                &&& user.missions_completed is Some
            },
            r matches Some(rec) ==> {
                &&& rec.time == time
                &&& rec.credits == user.credits->0.credits
                &&& rec.level == user.highest_levels->0.level
                &&& rec.overdoses == user.overdoses->0.overdoses
                &&& rec.combats_won == user.combats_won->0.combats_won
                &&& rec.items_crafted == user.items_crafted->0.items_crafted
                &&& rec.jobs_performed == user.jobs_performed->0.jobs_performed
                &&& rec.missions_completed == user.missions_completed->0.missions_completed
            },
    {
        match (
            &user.credits,
            &user.highest_levels,
            &user.overdoses,
            &user.combats_won,
            &user.items_crafted,
            &user.jobs_performed,
            &user.missions_completed,
        ) {
            (
                Some(credits),
                Some(levels),
                Some(overdoses),
                Some(combats),
                Some(crafted),
                Some(jobs),
                Some(missions),
            ) => Some(
                LeaderboardsRecord {
                    time,
                    credits: credits.credits,
                    level: levels.level,
                    overdoses: overdoses.overdoses,
                    combats_won: combats.combats_won,
                    items_crafted: crafted.items_crafted,
                    jobs_performed: jobs.jobs_performed,
                    missions_completed: missions.missions_completed,
                },
            ),
            _ => None,
        }
    }
}

} // verus!
