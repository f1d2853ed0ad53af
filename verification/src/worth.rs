//! Item worth: what one item sells for at a given quality tier, raised by the
//! credits its consume effects would pay out.

use vstd::prelude::*;
use crate::models::{ConsumeEffect, Item};

verus! {

/// Halves an integer, rounding toward zero.
pub open spec fn half_toward_zero(x: int) -> int {
    if x >= 0 {
        x / 2
    } else {
        -((-x) / 2)
    }
}

/// The credit delta one consume effect contributes to an item's worth: the
/// midpoint of a credit grant, minus the midpoint of a credit cost (never
/// below zero), and nothing for any other effect.
pub open spec fn effect_delta(e: ConsumeEffect) -> int {
    match e {
        ConsumeEffect::AddCredits(a) => half_toward_zero(a.min + a.max),
        ConsumeEffect::RemoveCredits(m) => if half_toward_zero(m.min + m.max) > 0 {
            -half_toward_zero(m.min + m.max)
        } else {
            0
        },
        _ => 0,
    }
}

/// The summed credit value of a list of consume effects.
pub open spec fn effects_value(s: Seq<ConsumeEffect>) -> int
    decreases s.len(),
{
    if s.len() == 0 {
        0
    } else {
        effects_value(s.drop_last()) + effect_delta(s.last())
    }
}

/// What an item sells for at a quality tier, before effects: the worth
/// multiplier scaled by the one-based tier.
pub open spec fn sell_value(item: Item, quality: u8) -> int {
    item.worth_multiplier * (quality + 1)
}

/// An item's worth at a quality tier: the sell value, or the summed credit
/// value of its consume effects where that is higher. An item without consume
/// effects is worth exactly its sell value.
pub open spec fn item_worth_spec(item: Item, quality: u8) -> int {
    match item.consume_effects {
        Some(es) => if effects_value(es@) > sell_value(item, quality) {
            effects_value(es@)
        } else {
            sell_value(item, quality)
        },
        None => sell_value(item, quality),
    }
}

/// One effect's delta, as machine arithmetic.
fn effect_delta_exec(e: &ConsumeEffect) -> (r: i128)
    ensures
        r as int == effect_delta(*e),
        -0x8000_0000_0000_0000i128 <= r <= 0x8000_0000_0000_0000i128,
{
    match e {
        ConsumeEffect::AddCredits(a) => {
            let s: i128 = (a.min as i128) + (a.max as i128);
            if s >= 0 {
                s / 2
            } else {
                -((-s) / 2)
            }
        },
        ConsumeEffect::RemoveCredits(m) => {
            let s: i128 = (m.min as i128) + (m.max as i128);
            let h: i128 = if s >= 0 {
                s / 2
            } else {
                -((-s) / 2)
            };
            if h > 0 {
                -h
            } else {
                0
            }
        },
        _ => 0,
    }
}

/// The summed credit value of an item's consume effects, as machine
/// arithmetic; the sum of fewer than 2^64 deltas cannot leave `i128`.
#[verifier::loop_isolation(false)]
fn effects_value_exec(effects: &Vec<ConsumeEffect>) -> (r: i128)
    ensures
        r as int == effects_value(effects@),
{
    let mut value: i128 = 0;
    let mut i: usize = 0;
    while i < effects.len()
        invariant
            i <= effects.len(),
            value as int == effects_value(effects@.subrange(0, i as int)),
            -(i as int) * 0x8000_0000_0000_0000 <= value as int <= (i as int)
                * 0x8000_0000_0000_0000,
        decreases effects.len() - i,
    {
        let d = effect_delta_exec(&effects[i]);
        proof {
            assert(effects@.subrange(0, i + 1 as int).drop_last() =~= effects@.subrange(
                0,
                i as int,
            ));
            assert(effects@.subrange(0, i + 1 as int).last() == effects@[i as int]);
        }
        value = value + d;
        i = i + 1;
    }
    proof {
        assert(effects@.subrange(0, effects@.len() as int) =~= effects@);
    }
    value
}

/// An item's worth at a quality tier. The caller's quality must keep the
/// result within the machine range; `try_item_worth` checks it instead.
pub fn calculate_item_worth(item: &Item, quality: u8) -> (r: usize)
    requires
        item_worth_spec(*item, quality) <= usize::MAX,
    ensures
        r as int == item_worth_spec(*item, quality),
{
    let sell: u128 = (item.worth_multiplier as u128) * ((quality as u128) + 1);
    match &item.consume_effects {
        Some(effects) => {
            let value = effects_value_exec(effects);
            if value > 0 && (value as u128) > sell {
                value as usize
            } else {
                sell as usize
            }
        },
        None => sell as usize,
    }
}

/// An item's worth at a quality tier, or nothing where the value would not fit
/// the machine range. This is the total form of `calculate_item_worth`.
pub fn try_item_worth(item: &Item, quality: u8) -> (r: Option<usize>)
    ensures
        item_worth_spec(*item, quality) <= usize::MAX ==> r == Some(
            (item_worth_spec(*item, quality) as usize),
        ),
        item_worth_spec(*item, quality) > usize::MAX ==> r is None,
{
    proof {
        assert(item.worth_multiplier as int <= 0xFFFF_FFFF_FFFF_FFFFu64 as int);
        assert((item.worth_multiplier as int) * ((quality as int) + 1) <= (
        0xFFFF_FFFF_FFFF_FFFFu64 as int) * 256) by (nonlinear_arith)
            requires
                0 <= item.worth_multiplier as int <= 0xFFFF_FFFF_FFFF_FFFFu64 as int,
                0 <= quality as int <= 255,
        ;
    }
    let sell: u128 = (item.worth_multiplier as u128) * ((quality as u128) + 1);
    let worth: u128 = match &item.consume_effects {
        Some(effects) => {
            let value = effects_value_exec(effects);
            if value > 0 && (value as u128) > sell {
                value as u128
            } else {
                sell
            }
        },
        None => sell,
    };
    if worth <= (usize::MAX as u128) {
        Some(worth as usize)
    } else {
        None
    }
}

} // verus!
