//! Request flags: named boolean options that select which optional parts of a
//! response the server includes.

use vstd::prelude::*;

verus! {

/// Options for a user lookup: which optional user fields to request.
#[derive(Debug, Clone, Copy, PartialEq, Eq, Structural)]
pub struct UserDataFlags {
    pub biography: bool,
    pub equipment: bool,
    pub inventory: bool,
}

impl UserDataFlags {
    /// The empty flag set: no optional field is requested.
    pub fn none() -> (r: Self)
        ensures
            r == (UserDataFlags { biography: false, equipment: false, inventory: false }),
    {
        UserDataFlags { biography: false, equipment: false, inventory: false }
    }

    /// Every option set.
    pub fn all() -> (r: Self)
        ensures
            r == (UserDataFlags { biography: true, equipment: true, inventory: true }),
    {
        UserDataFlags { biography: true, equipment: true, inventory: true }
    }

    /// Only the biography option.
    pub fn biography() -> (r: Self)
        ensures
            r == (UserDataFlags { biography: true, equipment: false, inventory: false }),
    {
        UserDataFlags { biography: true, equipment: false, inventory: false }
    }

    /// Only the equipment option.
    pub fn equipment() -> (r: Self)
        ensures
            r == (UserDataFlags { biography: false, equipment: true, inventory: false }),
    {
        UserDataFlags { biography: false, equipment: true, inventory: false }
    }

    /// Only the inventory option.
    pub fn inventory() -> (r: Self)
        ensures
            r == (UserDataFlags { biography: false, equipment: false, inventory: true }),
    {
        UserDataFlags { biography: false, equipment: false, inventory: true }
    }

    /// The union of two flag sets.
    pub fn union(self, other: Self) -> (r: Self)
        ensures
            r == (UserDataFlags {
                biography: self.biography || other.biography,
                equipment: self.equipment || other.equipment,
                inventory: self.inventory || other.inventory,
            }),
    {
        UserDataFlags {
            biography: self.biography || other.biography,
            equipment: self.equipment || other.equipment,
            inventory: self.inventory || other.inventory,
        }
    }

    /// True when some option of `flags` is also set in `self`.
    pub fn has(&self, flags: Self) -> (r: bool)
        ensures
            r == ((self.biography && flags.biography)
                || (self.equipment && flags.equipment)
                || (self.inventory && flags.inventory)),
    {
        (self.biography && flags.biography)
            || (self.equipment && flags.equipment)
            || (self.inventory && flags.inventory)
    }
}

/// Options for a leaderboards lookup: which sections to request.
#[derive(Debug, Clone, Copy, PartialEq, Eq, Structural)]
pub struct LeaderboardsFlags {
    pub credits: bool,
    pub highest_levels: bool,
    pub combats_won: bool,
    pub items_crafted: bool,
    pub jobs_performed: bool,
    pub overdoses: bool,
    pub missions_completed: bool,
}

impl LeaderboardsFlags {
    /// The empty flag set: no section is requested.
    pub fn none() -> (r: Self)
        ensures
            r == LeaderboardsFlags::empty_spec(),
    {
        LeaderboardsFlags {
            credits: false,
            highest_levels: false,
            combats_won: false,
            items_crafted: false,
            jobs_performed: false,
            overdoses: false,
            missions_completed: false,
        }
    }

    /// The empty flag set, as a spec-level value.
    pub open spec fn empty_spec() -> Self {
        LeaderboardsFlags {
            credits: false,
            highest_levels: false,
            combats_won: false,
            items_crafted: false,
            jobs_performed: false,
            overdoses: false,
            missions_completed: false,
        }
    }

    /// Every section requested.
    pub fn all() -> (r: Self)
        ensures
            r == (LeaderboardsFlags {
                credits: true,
                highest_levels: true,
                combats_won: true,
                items_crafted: true,
                jobs_performed: true,
                overdoses: true,
                missions_completed: true,
            }),
    {
        LeaderboardsFlags {
            credits: true,
            highest_levels: true,
            combats_won: true,
            items_crafted: true,
            jobs_performed: true,
            overdoses: true,
            missions_completed: true,
        }
    }

    /// Only the credits section.
    pub fn credits() -> (r: Self)
        ensures
            r == (LeaderboardsFlags { credits: true, ..LeaderboardsFlags::empty_spec() }),
    {
        LeaderboardsFlags { credits: true, ..Self::none() }
    }

    /// Only the highest-levels section.
    pub fn highest_levels() -> (r: Self)
        ensures
            r == (LeaderboardsFlags { highest_levels: true, ..LeaderboardsFlags::empty_spec() }),
    {
        LeaderboardsFlags { highest_levels: true, ..Self::none() }
    }

    /// Only the combats-won section.
    pub fn combats_won() -> (r: Self)
        ensures
            r == (LeaderboardsFlags { combats_won: true, ..LeaderboardsFlags::empty_spec() }),
    {
        LeaderboardsFlags { combats_won: true, ..Self::none() }
    }

    /// Only the items-crafted section.
    pub fn items_crafted() -> (r: Self)
        ensures
            r == (LeaderboardsFlags { items_crafted: true, ..LeaderboardsFlags::empty_spec() }),
    {
        LeaderboardsFlags { items_crafted: true, ..Self::none() }
    }

    /// Only the jobs-performed section.
    pub fn jobs_performed() -> (r: Self)
        ensures
            r == (LeaderboardsFlags { jobs_performed: true, ..LeaderboardsFlags::empty_spec() }),
    {
        LeaderboardsFlags { jobs_performed: true, ..Self::none() }
    }

    /// Only the overdoses section.
    pub fn overdoses() -> (r: Self)
        ensures
            r == (LeaderboardsFlags { overdoses: true, ..LeaderboardsFlags::empty_spec() }),
    {
        LeaderboardsFlags { overdoses: true, ..Self::none() }
    }

    /// Only the missions-completed section.
    pub fn missions_completed() -> (r: Self)
        ensures
            r == (LeaderboardsFlags { missions_completed: true, ..LeaderboardsFlags::empty_spec() }),
    {
        LeaderboardsFlags { missions_completed: true, ..Self::none() }
    }

    /// The union of two flag sets.
    pub fn union(self, other: Self) -> (r: Self)
        ensures
            r == (LeaderboardsFlags {
                credits: self.credits || other.credits,
                highest_levels: self.highest_levels || other.highest_levels,
                combats_won: self.combats_won || other.combats_won,
                items_crafted: self.items_crafted || other.items_crafted,
                jobs_performed: self.jobs_performed || other.jobs_performed,
                overdoses: self.overdoses || other.overdoses,
                missions_completed: self.missions_completed || other.missions_completed,
            }),
    {
        LeaderboardsFlags {
            credits: self.credits || other.credits,
            highest_levels: self.highest_levels || other.highest_levels,
            combats_won: self.combats_won || other.combats_won,
            items_crafted: self.items_crafted || other.items_crafted,
            jobs_performed: self.jobs_performed || other.jobs_performed,
            overdoses: self.overdoses || other.overdoses,
            missions_completed: self.missions_completed || other.missions_completed,
        }
    }

    /// True when some section of `flags` is also set in `self`.
    pub fn has(&self, flags: Self) -> (r: bool)
        ensures
            r == ((self.credits && flags.credits)
                || (self.highest_levels && flags.highest_levels)
                || (self.combats_won && flags.combats_won)
                || (self.items_crafted && flags.items_crafted)
                || (self.jobs_performed && flags.jobs_performed)
                || (self.overdoses && flags.overdoses)
                || (self.missions_completed && flags.missions_completed)),
    {
        (self.credits && flags.credits)
            || (self.highest_levels && flags.highest_levels)
            || (self.combats_won && flags.combats_won)
            || (self.items_crafted && flags.items_crafted)
            || (self.jobs_performed && flags.jobs_performed)
            || (self.overdoses && flags.overdoses)
            || (self.missions_completed && flags.missions_completed)
    }
}

} // verus!
