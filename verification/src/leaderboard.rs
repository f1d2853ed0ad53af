//! Reassembly of a by-username leaderboards response: folds up to seven
//! optional sections, each holding at most one matching row, into a single
//! per-user view.

use vstd::prelude::*;
use crate::models::{
    ApiError, Leaderboards, LeaderboardUser, LeaderboardUserCombatsWon, LeaderboardUserCredits,
    LeaderboardUserItemsCrafted, LeaderboardUserJobsPerformed, LeaderboardUserLevel,
    LeaderboardUserMissionsCompleted, LeaderboardUserOverdoses,
};

verus! {

/// Some section of the response is present but holds no entry, so the row the
/// lookup was for is missing and reassembly must fail.
pub open spec fn some_section_empty(lb: Leaderboards) -> bool {
    ||| (lb.credits matches Some(v) && v@.len() == 0)
    ||| (lb.highest_levels matches Some(v) && v@.len() == 0)
    ||| (lb.combats_won matches Some(v) && v@.len() == 0)
    ||| (lb.items_crafted matches Some(v) && v@.len() == 0)
    ||| (lb.jobs_performed matches Some(v) && v@.len() == 0)
    ||| (lb.overdoses matches Some(v) && v@.len() == 0)
    ||| (lb.missions_completed matches Some(v) && v@.len() == 0)
}

/// The name and roles of the entry in the present section that comes last in
/// the fixed section order, if any section is present at all. Reassembly
/// overwrites `name` and `roles` once per present section, so this entry is
/// the one whose values survive.
pub open spec fn last_present_entry(lb: Leaderboards) -> Option<(String, Vec<String>)> {
    if lb.missions_completed is Some {
        let v = lb.missions_completed->0;
        Some((v@.last().name, v@.last().roles))
    } else if lb.overdoses is Some {
        let v = lb.overdoses->0;
        Some((v@.last().name, v@.last().roles))
    } else if lb.jobs_performed is Some {
        let v = lb.jobs_performed->0;
        Some((v@.last().name, v@.last().roles))
    } else if lb.items_crafted is Some {
        let v = lb.items_crafted->0;
        Some((v@.last().name, v@.last().roles))
    } else if lb.combats_won is Some {
        let v = lb.combats_won->0;
        Some((v@.last().name, v@.last().roles))
    } else if lb.highest_levels is Some {
        let v = lb.highest_levels->0;
        Some((v@.last().name, v@.last().roles))
    } else if lb.credits is Some {
        let v = lb.credits->0;
        Some((v@.last().name, v@.last().roles))
    } else {
        None
    }
}

/// What the reassembled view holds, given the response it came from: one
/// sub-record per present section taken from that section's final entry, and
/// `name`/`roles` from the last present section in the fixed order.
pub open spec fn reassembly_matches(lb: Leaderboards, u: LeaderboardUser) -> bool {
    &&& (lb.credits matches Some(v) ==> u.credits == Some(
        LeaderboardUserCredits { rank: v@.last().rank, credits: v@.last().value },
    ))
    &&& (lb.credits is None ==> u.credits is None)
    &&& (lb.highest_levels matches Some(v) ==> u.highest_levels == Some(
        LeaderboardUserLevel {
            rank: v@.last().rank,
            level: v@.last().level,
            exp_current: v@.last().exp_current,
        },
    ))
    &&& (lb.highest_levels is None ==> u.highest_levels is None)
    &&& (lb.combats_won matches Some(v) ==> u.combats_won == Some(
        LeaderboardUserCombatsWon { rank: v@.last().rank, combats_won: v@.last().value },
    ))
    &&& (lb.combats_won is None ==> u.combats_won is None)
    &&& (lb.items_crafted matches Some(v) ==> u.items_crafted == Some(
        LeaderboardUserItemsCrafted { rank: v@.last().rank, items_crafted: v@.last().value },
    ))
    &&& (lb.items_crafted is None ==> u.items_crafted is None)
    &&& (lb.jobs_performed matches Some(v) ==> u.jobs_performed == Some(
        LeaderboardUserJobsPerformed { rank: v@.last().rank, jobs_performed: v@.last().value },
    ))
    &&& (lb.jobs_performed is None ==> u.jobs_performed is None)
    &&& (lb.overdoses matches Some(v) ==> u.overdoses == Some(
        LeaderboardUserOverdoses { rank: v@.last().rank, overdoses: v@.last().value },
    ))
    &&& (lb.overdoses is None ==> u.overdoses is None)
    &&& (lb.missions_completed matches Some(v) ==> u.missions_completed == Some(
        LeaderboardUserMissionsCompleted {
            rank: v@.last().rank,
            missions_completed: v@.last().value,
        },
    ))
    &&& (lb.missions_completed is None ==> u.missions_completed is None)
    &&& (last_present_entry(lb) matches Some(p) ==> u.name == p.0 && u.roles == p.1)
    &&& (last_present_entry(lb) is None ==> u.name@ == Seq::<char>::empty() && u.roles@
        == Seq::<String>::empty())
}

/// Folds a by-username leaderboards response into one `LeaderboardUser`.
///
/// Each present section contributes its one entry (the entry at the end of the
/// list, where the server put the matching row) as the section's sub-record; a
/// present but empty section aborts the whole reassembly with `NotFound`.
/// `name` and `roles` are overwritten by every present section in the fixed
/// order, so the last present section wins — the response is not checked for
/// cross-section agreement.
pub fn leaderboard_user_from(lb: Leaderboards) -> (r: Result<LeaderboardUser, ApiError>)
    ensures
        r is Err <==> some_section_empty(lb),
        r matches Err(e) ==> e == ApiError::NotFound,
        r matches Ok(u) ==> reassembly_matches(lb, u),
{
    let Leaderboards {
        credits,
        highest_levels,
        combats_won,
        items_crafted,
        jobs_performed,
        overdoses,
        missions_completed,
    } = lb;
    let mut user = LeaderboardUser::default();
    if let Some(mut entries) = credits {
        let entry = match entries.pop() {
            Some(entry) => entry,
            None => {
                return Err(ApiError::NotFound);
            },
        };
        user.credits = Some(LeaderboardUserCredits { rank: entry.rank, credits: entry.value });
        user.name = entry.name;
        user.roles = entry.roles;
    }
    if let Some(mut entries) = highest_levels {
        let entry = match entries.pop() {
            Some(entry) => entry,
            None => {
                return Err(ApiError::NotFound);
            },
        };
        user.highest_levels = Some(
            LeaderboardUserLevel {
                rank: entry.rank,
                level: entry.level,
                exp_current: entry.exp_current,
            },
        );
        user.name = entry.name;
        user.roles = entry.roles;
    }
    if let Some(mut entries) = combats_won {
        let entry = match entries.pop() {
            Some(entry) => entry,
            None => {
                return Err(ApiError::NotFound);
            },
        };
        user.combats_won = Some(
            LeaderboardUserCombatsWon { rank: entry.rank, combats_won: entry.value },
        );
        user.name = entry.name;
        user.roles = entry.roles;
    }
    if let Some(mut entries) = items_crafted {
        let entry = match entries.pop() {
            Some(entry) => entry,
            None => {
                return Err(ApiError::NotFound);
            },
        };
        user.items_crafted = Some(
            LeaderboardUserItemsCrafted { rank: entry.rank, items_crafted: entry.value },
        );
        user.name = entry.name;
        user.roles = entry.roles;
    }
    if let Some(mut entries) = jobs_performed {
        let entry = match entries.pop() {
            Some(entry) => entry,
            None => {
                return Err(ApiError::NotFound);
            },
        };
        user.jobs_performed = Some(
            LeaderboardUserJobsPerformed { rank: entry.rank, jobs_performed: entry.value },
        );
        user.name = entry.name;
        user.roles = entry.roles;
    }
    if let Some(mut entries) = overdoses {
        let entry = match entries.pop() {
            Some(entry) => entry,
            None => {
                return Err(ApiError::NotFound);
            },
        };
        user.overdoses = Some(
            LeaderboardUserOverdoses { rank: entry.rank, overdoses: entry.value },
        );
        user.name = entry.name;
        user.roles = entry.roles;
    }
    if let Some(mut entries) = missions_completed {
        let entry = match entries.pop() {
            Some(entry) => entry,
            None => {
                return Err(ApiError::NotFound);
            },
        };
        user.missions_completed = Some(
            LeaderboardUserMissionsCompleted { rank: entry.rank, missions_completed: entry.value },
        );
        user.name = entry.name;
        user.roles = entry.roles;
    }
    Ok(user)
}

} // verus!
