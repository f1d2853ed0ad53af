//! Decoders from parsed JSON to the response models. Each decoder consumes the
//! document and states exactly when it succeeds and what the result holds.

use vstd::prelude::*;
use crate::effects::{string_of, u8_of, usize_of, DecodeError};
use crate::json::{obj_get, take_field, Json};
use crate::models::{
    EquipmentItemRef, InventoryItem, Item, Leaderboards, LeaderboardsEntry,
    LeaderboardsHighestLevelEntry, User,
};

verus! {

/// The value field of a leaderboard entry: the server names it after the
/// section, so the first present among the accepted spellings is taken.
pub open spec fn value_field(fs: Seq<(String, Json)>) -> Option<Json> {
    if obj_get(fs, "value"@) is Some {
        obj_get(fs, "value"@)
    } else if obj_get(fs, "credits"@) is Some {
        obj_get(fs, "credits"@)
    } else if obj_get(fs, "level"@) is Some {
        obj_get(fs, "level"@)
    } else if obj_get(fs, "combatsWon"@) is Some {
        obj_get(fs, "combatsWon"@)
    } else if obj_get(fs, "itemsCrafted"@) is Some {
        obj_get(fs, "itemsCrafted"@)
    } else if obj_get(fs, "jobsPerformed"@) is Some {
        obj_get(fs, "jobsPerformed"@)
    } else if obj_get(fs, "overdoses"@) is Some {
        obj_get(fs, "overdoses"@)
    } else {
        obj_get(fs, "missionsCompleted"@)
    }
}

/// The string a JSON value holds, if it holds one.
pub open spec fn json_str(j: Json) -> Option<String> {
    match j {
        Json::Str(s) => Some(s),
        _ => None,
    }
}

/// Every element of the array is a string.
pub open spec fn strings_ok(items: Seq<Json>) -> bool {
    forall|k: int| 0 <= k < items.len() ==> #[trigger] json_str(items[k]) is Some
}

/// The decoded strings, element for element and in order.
pub open spec fn strings_match(items: Seq<Json>, out: Seq<String>) -> bool {
    &&& out.len() == items.len()
    &&& forall|k: int| 0 <= k < items.len() ==> #[trigger] json_str(items[k]) == Some(out[k])
}

/// A roles list decodes when every element is a string.
pub open spec fn roles_ok(v: Option<Json>) -> bool {
    v matches Some(j) && j is Arr && strings_ok(j->Arr_0@)
}

/// The decoded roles list, element for element.
pub open spec fn roles_match(v: Option<Json>, out: Seq<String>) -> bool {
    v matches Some(j) && j is Arr && strings_match(j->Arr_0@, out)
}

/// When one single-valued leaderboard row decodes.
pub open spec fn entry_ok(j: Json) -> bool {
    &&& j is Obj
    &&& usize_of(obj_get(j->Obj_0@, "rank"@)) is Ok
    &&& usize_of(value_field(j->Obj_0@)) is Ok
    &&& string_of(obj_get(j->Obj_0@, "name"@)) is Ok
    &&& roles_ok(obj_get(j->Obj_0@, "roles"@))
}

/// What a decoded single-valued leaderboard row holds.
pub open spec fn entry_matches(j: Json, e: LeaderboardsEntry) -> bool {
    &&& j is Obj
    &&& usize_of(obj_get(j->Obj_0@, "rank"@)) == Ok::<usize, DecodeError>(e.rank)
    &&& usize_of(value_field(j->Obj_0@)) == Ok::<usize, DecodeError>(e.value)
    &&& string_of(obj_get(j->Obj_0@, "name"@)) == Ok::<String, DecodeError>(e.name)
    &&& roles_match(obj_get(j->Obj_0@, "roles"@), e.roles@)
}

/// When one highest-levels row decodes.
pub open spec fn hl_entry_ok(j: Json) -> bool {
    &&& j is Obj
    &&& usize_of(obj_get(j->Obj_0@, "rank"@)) is Ok
    &&& usize_of(obj_get(j->Obj_0@, "level"@)) is Ok
    &&& usize_of(obj_get(j->Obj_0@, "expCurrent"@)) is Ok
    &&& string_of(obj_get(j->Obj_0@, "name"@)) is Ok
    &&& roles_ok(obj_get(j->Obj_0@, "roles"@))
}

/// What a decoded highest-levels row holds.
pub open spec fn hl_entry_matches(j: Json, e: LeaderboardsHighestLevelEntry) -> bool {
    &&& j is Obj
    &&& usize_of(obj_get(j->Obj_0@, "rank"@)) == Ok::<usize, DecodeError>(e.rank)
    &&& usize_of(obj_get(j->Obj_0@, "level"@)) == Ok::<usize, DecodeError>(e.level)
    &&& usize_of(obj_get(j->Obj_0@, "expCurrent"@)) == Ok::<usize, DecodeError>(e.exp_current)
    &&& string_of(obj_get(j->Obj_0@, "name"@)) == Ok::<String, DecodeError>(e.name)
    &&& roles_match(obj_get(j->Obj_0@, "roles"@), e.roles@)
}



/// Decodes an array of strings, element by element and in order.
#[verifier::loop_isolation(false)]
pub fn decode_strings(items: Vec<Json>) -> (r: Result<Vec<String>, DecodeError>)
    ensures
        r is Ok <==> strings_ok(items@),
        r matches Ok(v) ==> strings_match(items@, v@),
        r matches Err(e) ==> e == DecodeError::WrongType,
{
    let ghost orig = items@;
    let mut items = items;
    let mut out: Vec<String> = Vec::new();
    while items.len() > 0
        invariant
            out@.len() + items@.len() == orig.len(),
            items@ == orig.subrange(out@.len() as int, orig.len() as int),
            forall|k: int| 0 <= k < out@.len() ==> #[trigger] json_str(orig[k]) == Some(out@[k]),
        decreases items@.len(),
    {
        let ghost i = out@.len() as int;
        let x = items.remove(0);
        proof {
            assert(x == orig[i]);
            assert(orig.subrange(i, orig.len() as int).remove(0) =~= orig.subrange(
                i + 1,
                orig.len() as int,
            ));
        }
        match x {
            Json::Str(s) => {
                proof {
                    assert(json_str(orig[i]) == Some(s));
                }
                out.push(s);
                proof {
                    assert(out@[i] == s);
                }
            },
            _ => {
                proof {
                    assert(0 <= i < orig.len());
                    assert(!(strings_ok(orig))) by {
                        assert(json_str(orig[i]) is None);
                    }
                }
                return Err(DecodeError::WrongType);
            },
        }
    }
    proof {
        assert(out@.len() == orig.len());
    }
    Ok(out)
}

/// Takes the entry's `roles` field and decodes it.
fn decode_roles(v: Option<Json>) -> (r: Result<Vec<String>, DecodeError>)
    ensures
        r is Ok <==> roles_ok(v),
        r matches Ok(out) ==> roles_match(v, out@),
{
    match v {
        Some(Json::Arr(items)) => decode_strings(items),
        Some(_) => Err(DecodeError::WrongType),
        None => Err(DecodeError::Missing),
    }
}

/// Decodes one single-valued leaderboard row.
pub fn decode_entry(j: Json) -> (r: Result<LeaderboardsEntry, DecodeError>)
    ensures
        r is Ok <==> entry_ok(j),
        r matches Ok(e) ==> entry_matches(j, e),
{
    let fs = match j {
        Json::Obj(fs) => fs,
        _ => {
            return Err(DecodeError::NotAnObject);
        },
    };
    proof {
        reveal_strlit("rank");
        reveal_strlit("name");
        reveal_strlit("value");
        reveal_strlit("level");
        reveal_strlit("roles");
        reveal_strlit("credits");
        reveal_strlit("combatsWon");
        reveal_strlit("itemsCrafted");
        reveal_strlit("jobsPerformed");
        reveal_strlit("overdoses");
        reveal_strlit("missionsCompleted");
        assert("rank"@.len() == 4);
        assert("name"@.len() == 4);
        assert("value"@.len() == 5);
        assert("level"@.len() == 5);
        assert("roles"@.len() == 5);
        assert("credits"@.len() == 7);
        assert("combatsWon"@.len() == 10);
        assert("itemsCrafted"@.len() == 12);
        assert("jobsPerformed"@.len() == 13);
        assert("overdoses"@.len() == 9);
        assert("missionsCompleted"@.len() == 17);
        assert("rank"@[0] != "name"@[0]);
        assert("value"@[0] != "level"@[0]);
        assert("value"@[0] != "roles"@[0]);
        assert("level"@[0] != "roles"@[0]);
    }
    let ghost fs0 = fs@;
    let (rv, fs1) = take_field(fs, "rank");
    proof {
        assert(obj_get(fs1@, "value"@) == obj_get(fs0, "value"@));
        assert(obj_get(fs1@, "credits"@) == obj_get(fs0, "credits"@));
        assert(obj_get(fs1@, "level"@) == obj_get(fs0, "level"@));
        assert(obj_get(fs1@, "combatsWon"@) == obj_get(fs0, "combatsWon"@));
        assert(obj_get(fs1@, "itemsCrafted"@) == obj_get(fs0, "itemsCrafted"@));
        assert(obj_get(fs1@, "jobsPerformed"@) == obj_get(fs0, "jobsPerformed"@));
        assert(obj_get(fs1@, "overdoses"@) == obj_get(fs0, "overdoses"@));
        assert(obj_get(fs1@, "missionsCompleted"@) == obj_get(fs0, "missionsCompleted"@));
        assert(obj_get(fs1@, "name"@) == obj_get(fs0, "name"@));
        assert(obj_get(fs1@, "roles"@) == obj_get(fs0, "roles"@));
    }
    let rank = match crate::effects::usize_field(rv) {
        Ok(v) => v,
        Err(e) => {
            return Err(e);
        },
    };
    let (v1, fs2) = take_field(fs1, "value");
    proof {
        assert(obj_get(fs2@, "credits"@) == obj_get(fs0, "credits"@));
        assert(obj_get(fs2@, "level"@) == obj_get(fs0, "level"@));
        assert(obj_get(fs2@, "combatsWon"@) == obj_get(fs0, "combatsWon"@));
        assert(obj_get(fs2@, "itemsCrafted"@) == obj_get(fs0, "itemsCrafted"@));
        assert(obj_get(fs2@, "jobsPerformed"@) == obj_get(fs0, "jobsPerformed"@));
        assert(obj_get(fs2@, "overdoses"@) == obj_get(fs0, "overdoses"@));
        assert(obj_get(fs2@, "missionsCompleted"@) == obj_get(fs0, "missionsCompleted"@));
        assert(obj_get(fs2@, "name"@) == obj_get(fs0, "name"@));
        assert(obj_get(fs2@, "roles"@) == obj_get(fs0, "roles"@));
    }
    let (v2, fs3) = take_field(fs2, "credits");
    proof {
        assert(obj_get(fs3@, "level"@) == obj_get(fs0, "level"@));
        assert(obj_get(fs3@, "combatsWon"@) == obj_get(fs0, "combatsWon"@));
        assert(obj_get(fs3@, "itemsCrafted"@) == obj_get(fs0, "itemsCrafted"@));
        assert(obj_get(fs3@, "jobsPerformed"@) == obj_get(fs0, "jobsPerformed"@));
        assert(obj_get(fs3@, "overdoses"@) == obj_get(fs0, "overdoses"@));
        assert(obj_get(fs3@, "missionsCompleted"@) == obj_get(fs0, "missionsCompleted"@));
        assert(obj_get(fs3@, "name"@) == obj_get(fs0, "name"@));
        assert(obj_get(fs3@, "roles"@) == obj_get(fs0, "roles"@));
    }
    let (v3, fs4) = take_field(fs3, "level");
    proof {
        assert(obj_get(fs4@, "combatsWon"@) == obj_get(fs0, "combatsWon"@));
        assert(obj_get(fs4@, "itemsCrafted"@) == obj_get(fs0, "itemsCrafted"@));
        assert(obj_get(fs4@, "jobsPerformed"@) == obj_get(fs0, "jobsPerformed"@));
        assert(obj_get(fs4@, "overdoses"@) == obj_get(fs0, "overdoses"@));
        assert(obj_get(fs4@, "missionsCompleted"@) == obj_get(fs0, "missionsCompleted"@));
        assert(obj_get(fs4@, "name"@) == obj_get(fs0, "name"@));
        assert(obj_get(fs4@, "roles"@) == obj_get(fs0, "roles"@));
    }
    let (v4, fs5) = take_field(fs4, "combatsWon");
    proof {
        assert(obj_get(fs5@, "itemsCrafted"@) == obj_get(fs0, "itemsCrafted"@));
        assert(obj_get(fs5@, "jobsPerformed"@) == obj_get(fs0, "jobsPerformed"@));
        assert(obj_get(fs5@, "overdoses"@) == obj_get(fs0, "overdoses"@));
        assert(obj_get(fs5@, "missionsCompleted"@) == obj_get(fs0, "missionsCompleted"@));
        assert(obj_get(fs5@, "name"@) == obj_get(fs0, "name"@));
        assert(obj_get(fs5@, "roles"@) == obj_get(fs0, "roles"@));
    }
    let (v5, fs6) = take_field(fs5, "itemsCrafted");
    proof {
        assert(obj_get(fs6@, "jobsPerformed"@) == obj_get(fs0, "jobsPerformed"@));
        assert(obj_get(fs6@, "overdoses"@) == obj_get(fs0, "overdoses"@));
        assert(obj_get(fs6@, "missionsCompleted"@) == obj_get(fs0, "missionsCompleted"@));
        assert(obj_get(fs6@, "name"@) == obj_get(fs0, "name"@));
        assert(obj_get(fs6@, "roles"@) == obj_get(fs0, "roles"@));
    }
    let (v6, fs7) = take_field(fs6, "jobsPerformed");
    proof {
        assert(obj_get(fs7@, "overdoses"@) == obj_get(fs0, "overdoses"@));
        assert(obj_get(fs7@, "missionsCompleted"@) == obj_get(fs0, "missionsCompleted"@));
        assert(obj_get(fs7@, "name"@) == obj_get(fs0, "name"@));
        assert(obj_get(fs7@, "roles"@) == obj_get(fs0, "roles"@));
    }
    let (v7, fs8) = take_field(fs7, "overdoses");
    proof {
        assert(obj_get(fs8@, "missionsCompleted"@) == obj_get(fs0, "missionsCompleted"@));
        assert(obj_get(fs8@, "name"@) == obj_get(fs0, "name"@));
        assert(obj_get(fs8@, "roles"@) == obj_get(fs0, "roles"@));
    }
    let (v8, fs9) = take_field(fs8, "missionsCompleted");
    proof {
        assert(obj_get(fs9@, "name"@) == obj_get(fs0, "name"@));
        assert(obj_get(fs9@, "roles"@) == obj_get(fs0, "roles"@));
    }
    let vv = if v1.is_some() {
        v1
    } else if v2.is_some() {
        v2
    } else if v3.is_some() {
        v3
    } else if v4.is_some() {
        v4
    } else if v5.is_some() {
        v5
    } else if v6.is_some() {
        v6
    } else if v7.is_some() {
        v7
    } else {
        v8
    };
    proof {
        assert(vv == value_field(fs0));
    }
    let value = match crate::effects::usize_field(vv) {
        Ok(v) => v,
        Err(e) => {
            return Err(e);
        },
    };
    let (nv, fs10) = take_field(fs9, "name");
    proof {
        assert(obj_get(fs10@, "roles"@) == obj_get(fs0, "roles"@));
    }
    let name = match crate::effects::string_field(nv) {
        Ok(v) => v,
        Err(e) => {
            return Err(e);
        },
    };
    let (rlv, _) = take_field(fs10, "roles");
    let roles = match decode_roles(rlv) {
        Ok(v) => v,
        Err(e) => {
            return Err(e);
        },
    };
    Ok(LeaderboardsEntry { rank, value, name, roles })
}

/// Decodes one highest-levels row.
pub fn decode_hl_entry(j: Json) -> (r: Result<LeaderboardsHighestLevelEntry, DecodeError>)
    ensures
        r is Ok <==> hl_entry_ok(j),
        r matches Ok(e) ==> hl_entry_matches(j, e),
{
    let fs = match j {
        Json::Obj(fs) => fs,
        _ => {
            return Err(DecodeError::NotAnObject);
        },
    };
    proof {
        reveal_strlit("rank");
        reveal_strlit("level");
        reveal_strlit("expCurrent");
        reveal_strlit("name");
        reveal_strlit("roles");
        assert("rank"@.len() == 4);
        assert("level"@.len() == 5);
        assert("expCurrent"@.len() == 10);
        assert("name"@.len() == 4);
        assert("roles"@.len() == 5);
        assert("rank"@[0] != "name"@[0]);
        assert("level"@[0] != "roles"@[0]);
    }
    let ghost fs0 = fs@;
    let (rv, fs1) = take_field(fs, "rank");
    proof {
        assert(obj_get(fs1@, "level"@) == obj_get(fs0, "level"@));
        assert(obj_get(fs1@, "expCurrent"@) == obj_get(fs0, "expCurrent"@));
        assert(obj_get(fs1@, "name"@) == obj_get(fs0, "name"@));
        assert(obj_get(fs1@, "roles"@) == obj_get(fs0, "roles"@));
    }
    let rank = match crate::effects::usize_field(rv) {
        Ok(v) => v,
        Err(e) => {
            return Err(e);
        },
    };
    let (lv, fs2) = take_field(fs1, "level");
    proof {
        assert(obj_get(fs2@, "expCurrent"@) == obj_get(fs0, "expCurrent"@));
        assert(obj_get(fs2@, "name"@) == obj_get(fs0, "name"@));
        assert(obj_get(fs2@, "roles"@) == obj_get(fs0, "roles"@));
    }
    let level = match crate::effects::usize_field(lv) {
        Ok(v) => v,
        Err(e) => {
            return Err(e);
        },
    };
    let (ev, fs3) = take_field(fs2, "expCurrent");
    proof {
        assert(obj_get(fs3@, "name"@) == obj_get(fs0, "name"@));
        assert(obj_get(fs3@, "roles"@) == obj_get(fs0, "roles"@));
    }
    let exp_current = match crate::effects::usize_field(ev) {
        Ok(v) => v,
        Err(e) => {
            return Err(e);
        },
    };
    let (nv, fs4) = take_field(fs3, "name");
    proof {
        assert(obj_get(fs4@, "roles"@) == obj_get(fs0, "roles"@));
    }
    let name = match crate::effects::string_field(nv) {
        Ok(v) => v,
        Err(e) => {
            return Err(e);
        },
    };
    let (rlv, _) = take_field(fs4, "roles");
    let roles = match decode_roles(rlv) {
        Ok(v) => v,
        Err(e) => {
            return Err(e);
        },
    };
    Ok(LeaderboardsHighestLevelEntry { rank, level, exp_current, name, roles })
}


/// Every element of the array is a well-formed single-valued row.
pub open spec fn entries_ok(items: Seq<Json>) -> bool {
    forall|k: int| 0 <= k < items.len() ==> #[trigger] entry_ok(items[k])
}

/// The decoded rows, element for element and in order.
pub open spec fn entries_match(items: Seq<Json>, out: Seq<LeaderboardsEntry>) -> bool {
    &&& out.len() == items.len()
    &&& forall|k: int| 0 <= k < items.len() ==> #[trigger] entry_matches(items[k], out[k])
}

/// Every element of the array is a well-formed highest-levels row.
pub open spec fn hl_entries_ok(items: Seq<Json>) -> bool {
    forall|k: int| 0 <= k < items.len() ==> #[trigger] hl_entry_ok(items[k])
}

/// The decoded highest-levels rows, element for element and in order.
pub open spec fn hl_entries_match(items: Seq<Json>, out: Seq<LeaderboardsHighestLevelEntry>) -> bool {
    &&& out.len() == items.len()
    &&& forall|k: int| 0 <= k < items.len() ==> #[trigger] hl_entry_matches(items[k], out[k])
}

/// Decodes an array of single-valued rows, element by element and in order.
#[verifier::loop_isolation(false)]
pub fn decode_entries(items: Vec<Json>) -> (r: Result<Vec<LeaderboardsEntry>, DecodeError>)
    ensures
        r is Ok <==> entries_ok(items@),
        r matches Ok(v) ==> entries_match(items@, v@),
{
    let ghost orig = items@;
    let mut items = items;
    let mut out: Vec<LeaderboardsEntry> = Vec::new();
    while items.len() > 0
        invariant
            out@.len() + items@.len() == orig.len(),
            items@ == orig.subrange(out@.len() as int, orig.len() as int),
            forall|k: int| 0 <= k < out@.len() ==> #[trigger] entry_ok(orig[k]),
            forall|k: int| 0 <= k < out@.len() ==> #[trigger] entry_matches(orig[k], out@[k]),
        decreases items@.len(),
    {
        let ghost i = out@.len() as int;
        let x = items.remove(0);
        proof {
            assert(x == orig[i]);
            assert(orig.subrange(i, orig.len() as int).remove(0) =~= orig.subrange(
                i + 1,
                orig.len() as int,
            ));
        }
        match decode_entry(x) {
            Ok(v) => out.push(v),
            Err(e) => {
                proof {
                    assert(!entries_ok(orig)) by {
                        assert(!entry_ok(orig[i]));
                    }
                }
                return Err(e);
            },
        }
    }
    proof {
        assert(out@.len() == orig.len());
    }
    Ok(out)
}

/// Decodes an array of highest-levels rows, element by element and in order.
#[verifier::loop_isolation(false)]
pub fn decode_hl_entries(items: Vec<Json>) -> (r: Result<
    Vec<LeaderboardsHighestLevelEntry>,
    DecodeError,
>)
    ensures
        r is Ok <==> hl_entries_ok(items@),
        r matches Ok(v) ==> hl_entries_match(items@, v@),
{
    let ghost orig = items@;
    let mut items = items;
    let mut out: Vec<LeaderboardsHighestLevelEntry> = Vec::new();
    while items.len() > 0
        invariant
            out@.len() + items@.len() == orig.len(),
            items@ == orig.subrange(out@.len() as int, orig.len() as int),
            forall|k: int| 0 <= k < out@.len() ==> #[trigger] hl_entry_ok(orig[k]),
            forall|k: int| 0 <= k < out@.len() ==> #[trigger] hl_entry_matches(orig[k], out@[k]),
        decreases items@.len(),
    {
        let ghost i = out@.len() as int;
        let x = items.remove(0);
        proof {
            assert(x == orig[i]);
            assert(orig.subrange(i, orig.len() as int).remove(0) =~= orig.subrange(
                i + 1,
                orig.len() as int,
            ));
        }
        match decode_hl_entry(x) {
            Ok(v) => out.push(v),
            Err(e) => {
                proof {
                    assert(!hl_entries_ok(orig)) by {
                        assert(!hl_entry_ok(orig[i]));
                    }
                }
                return Err(e);
            },
        }
    }
    proof {
        assert(out@.len() == orig.len());
    }
    Ok(out)
}

/// When an optional leaderboard section decodes: absent and null both mean the
/// section was not requested; otherwise it must be an array of rows.
pub open spec fn section_ok(v: Option<Json>) -> bool {
    match v {
        None => true,
        Some(Json::Null) => true,
        Some(Json::Arr(a)) => entries_ok(a@),
        Some(_) => false,
    }
}

/// What a decoded optional section holds.
pub open spec fn section_matches(v: Option<Json>, out: Option<Vec<LeaderboardsEntry>>) -> bool {
    match v {
        None => out is None,
        Some(Json::Null) => out is None,
        Some(Json::Arr(a)) => out matches Some(es) && entries_match(a@, es@),
        Some(_) => false,
    }
}

/// When the optional highest-levels section decodes.
pub open spec fn hl_section_ok(v: Option<Json>) -> bool {
    match v {
        None => true,
        Some(Json::Null) => true,
        Some(Json::Arr(a)) => hl_entries_ok(a@),
        Some(_) => false,
    }
}

/// What the decoded highest-levels section holds.
pub open spec fn hl_section_matches(
    v: Option<Json>,
    out: Option<Vec<LeaderboardsHighestLevelEntry>>,
) -> bool {
    match v {
        None => out is None,
        Some(Json::Null) => out is None,
        Some(Json::Arr(a)) => out matches Some(es) && hl_entries_match(a@, es@),
        Some(_) => false,
    }
}

/// Decodes one optional single-valued section.
fn decode_section(v: Option<Json>) -> (r: Result<Option<Vec<LeaderboardsEntry>>, DecodeError>)
    ensures
        r is Ok <==> section_ok(v),
        r matches Ok(out) ==> section_matches(v, out),
{
    match v {
        None => Ok(None),
        Some(Json::Null) => Ok(None),
        Some(Json::Arr(a)) => match decode_entries(a) {
            Ok(es) => Ok(Some(es)),
            Err(e) => Err(e),
        },
        Some(_) => Err(DecodeError::WrongType),
    }
}

/// Decodes the optional highest-levels section.
fn decode_hl_section(v: Option<Json>) -> (r: Result<
    Option<Vec<LeaderboardsHighestLevelEntry>>,
    DecodeError,
>)
    ensures
        r is Ok <==> hl_section_ok(v),
        r matches Ok(out) ==> hl_section_matches(v, out),
{
    match v {
        None => Ok(None),
        Some(Json::Null) => Ok(None),
        Some(Json::Arr(a)) => match decode_hl_entries(a) {
            Ok(es) => Ok(Some(es)),
            Err(e) => Err(e),
        },
        Some(_) => Err(DecodeError::WrongType),
    }
}

/// When a leaderboards response decodes.
pub open spec fn leaderboards_ok(j: Json) -> bool {
    &&& j is Obj
    &&& section_ok(obj_get(j->Obj_0@, "credits"@))
    &&& hl_section_ok(obj_get(j->Obj_0@, "highestLevels"@))
    &&& section_ok(obj_get(j->Obj_0@, "combatsWon"@))
    &&& section_ok(obj_get(j->Obj_0@, "itemsCrafted"@))
    &&& section_ok(obj_get(j->Obj_0@, "jobsPerformed"@))
    &&& section_ok(obj_get(j->Obj_0@, "overdoses"@))
    &&& section_ok(obj_get(j->Obj_0@, "missionsCompleted"@))
}

/// What a decoded leaderboards response holds, section for section.
pub open spec fn leaderboards_matches(j: Json, lb: Leaderboards) -> bool {
    &&& j is Obj
    &&& section_matches(obj_get(j->Obj_0@, "credits"@), lb.credits)
    &&& hl_section_matches(obj_get(j->Obj_0@, "highestLevels"@), lb.highest_levels)
    &&& section_matches(obj_get(j->Obj_0@, "combatsWon"@), lb.combats_won)
    &&& section_matches(obj_get(j->Obj_0@, "itemsCrafted"@), lb.items_crafted)
    &&& section_matches(obj_get(j->Obj_0@, "jobsPerformed"@), lb.jobs_performed)
    &&& section_matches(obj_get(j->Obj_0@, "overdoses"@), lb.overdoses)
    &&& section_matches(obj_get(j->Obj_0@, "missionsCompleted"@), lb.missions_completed)
}

/// Decodes a whole leaderboards response: up to seven optional sections.
pub fn decode_leaderboards(j: Json) -> (r: Result<Leaderboards, DecodeError>)
    ensures
        r is Ok <==> leaderboards_ok(j),
        r matches Ok(lb) ==> leaderboards_matches(j, lb),
{
    let fs = match j {
        Json::Obj(fs) => fs,
        _ => {
            return Err(DecodeError::NotAnObject);
        },
    };
    proof {
        reveal_strlit("credits");
        reveal_strlit("highestLevels");
        reveal_strlit("combatsWon");
        reveal_strlit("itemsCrafted");
        reveal_strlit("jobsPerformed");
        reveal_strlit("overdoses");
        reveal_strlit("missionsCompleted");
        assert("credits"@.len() == 7);
        assert("highestLevels"@.len() == 13);
        assert("combatsWon"@.len() == 10);
        assert("itemsCrafted"@.len() == 12);
        assert("jobsPerformed"@.len() == 13);
        assert("overdoses"@.len() == 9);
        assert("missionsCompleted"@.len() == 17);
        assert("highestLevels"@[0] != "jobsPerformed"@[0]);
    }
    let ghost fs0 = fs@;
    let (v1, fs1) = take_field(fs, "credits");
    proof {
        assert(obj_get(fs1@, "highestLevels"@) == obj_get(fs0, "highestLevels"@));
        assert(obj_get(fs1@, "combatsWon"@) == obj_get(fs0, "combatsWon"@));
        assert(obj_get(fs1@, "itemsCrafted"@) == obj_get(fs0, "itemsCrafted"@));
        assert(obj_get(fs1@, "jobsPerformed"@) == obj_get(fs0, "jobsPerformed"@));
        assert(obj_get(fs1@, "overdoses"@) == obj_get(fs0, "overdoses"@));
        assert(obj_get(fs1@, "missionsCompleted"@) == obj_get(fs0, "missionsCompleted"@));
    }
    let credits = match decode_section(v1) {
        Ok(v) => v,
        Err(e) => {
            return Err(e);
        },
    };
    let (v2, fs2) = take_field(fs1, "highestLevels");
    proof {
        assert(obj_get(fs2@, "combatsWon"@) == obj_get(fs0, "combatsWon"@));
        assert(obj_get(fs2@, "itemsCrafted"@) == obj_get(fs0, "itemsCrafted"@));
        assert(obj_get(fs2@, "jobsPerformed"@) == obj_get(fs0, "jobsPerformed"@));
        assert(obj_get(fs2@, "overdoses"@) == obj_get(fs0, "overdoses"@));
        assert(obj_get(fs2@, "missionsCompleted"@) == obj_get(fs0, "missionsCompleted"@));
    }
    let highest_levels = match decode_hl_section(v2) {
        Ok(v) => v,
        Err(e) => {
            return Err(e);
        },
    };
    let (v3, fs3) = take_field(fs2, "combatsWon");
    proof {
        assert(obj_get(fs3@, "itemsCrafted"@) == obj_get(fs0, "itemsCrafted"@));
        assert(obj_get(fs3@, "jobsPerformed"@) == obj_get(fs0, "jobsPerformed"@));
        assert(obj_get(fs3@, "overdoses"@) == obj_get(fs0, "overdoses"@));
        assert(obj_get(fs3@, "missionsCompleted"@) == obj_get(fs0, "missionsCompleted"@));
    }
    let combats_won = match decode_section(v3) {
        Ok(v) => v,
        Err(e) => {
            return Err(e);
        },
    };
    let (v4, fs4) = take_field(fs3, "itemsCrafted");
    proof {
        assert(obj_get(fs4@, "jobsPerformed"@) == obj_get(fs0, "jobsPerformed"@));
        assert(obj_get(fs4@, "overdoses"@) == obj_get(fs0, "overdoses"@));
        assert(obj_get(fs4@, "missionsCompleted"@) == obj_get(fs0, "missionsCompleted"@));
    }
    let items_crafted = match decode_section(v4) {
        Ok(v) => v,
        Err(e) => {
            return Err(e);
        },
    };
    let (v5, fs5) = take_field(fs4, "jobsPerformed");
    proof {
        assert(obj_get(fs5@, "overdoses"@) == obj_get(fs0, "overdoses"@));
        assert(obj_get(fs5@, "missionsCompleted"@) == obj_get(fs0, "missionsCompleted"@));
    }
    let jobs_performed = match decode_section(v5) {
        Ok(v) => v,
        Err(e) => {
            return Err(e);
        },
    };
    let (v6, fs6) = take_field(fs5, "overdoses");
    proof {
        assert(obj_get(fs6@, "missionsCompleted"@) == obj_get(fs0, "missionsCompleted"@));
    }
    let overdoses = match decode_section(v6) {
        Ok(v) => v,
        Err(e) => {
            return Err(e);
        },
    };
    let (v7, _) = take_field(fs6, "missionsCompleted");
    let missions_completed = match decode_section(v7) {
        Ok(v) => v,
        Err(e) => {
            return Err(e);
        },
    };
    Ok(Leaderboards {
        credits,
        highest_levels,
        combats_won,
        items_crafted,
        jobs_performed,
        overdoses,
        missions_completed,
    })
}


/// An optional string field: absent or null is a valid, distinct "no value".
pub open spec fn opt_string_ok(v: Option<Json>) -> bool {
    match v {
        None => true,
        Some(Json::Null) => true,
        Some(Json::Str(_)) => true,
        Some(_) => false,
    }
}

/// What a decoded optional string field holds.
pub open spec fn opt_string_matches(v: Option<Json>, out: Option<String>) -> bool {
    match v {
        None => out is None,
        Some(Json::Null) => out is None,
        Some(Json::Str(s)) => out == Some(s),
        Some(_) => false,
    }
}

/// Decodes an optional string field.
fn decode_opt_string(v: Option<Json>) -> (r: Result<Option<String>, DecodeError>)
    ensures
        r is Ok <==> opt_string_ok(v),
        r matches Ok(out) ==> opt_string_matches(v, out),
{
    match v {
        None => Ok(None),
        Some(Json::Null) => Ok(None),
        Some(Json::Str(s)) => Ok(Some(s)),
        Some(_) => Err(DecodeError::WrongType),
    }
}

/// When one equipped-item reference decodes.
pub open spec fn equip_ok(j: Json) -> bool {
    &&& j is Obj
    &&& string_of(obj_get(j->Obj_0@, "itemName"@)) is Ok
    &&& u8_of(obj_get(j->Obj_0@, "quality"@)) is Ok
}

/// What a decoded equipped-item reference holds.
pub open spec fn equip_matches(j: Json, e: EquipmentItemRef) -> bool {
    &&& j is Obj
    &&& string_of(obj_get(j->Obj_0@, "itemName"@)) == Ok::<String, DecodeError>(e.item_name)
    &&& u8_of(obj_get(j->Obj_0@, "quality"@)) == Ok::<u8, DecodeError>(e.quality)
}

/// Decodes one equipped-item reference.
pub fn decode_equipment_ref(j: Json) -> (r: Result<EquipmentItemRef, DecodeError>)
    ensures
        r is Ok <==> equip_ok(j),
        r matches Ok(e) ==> equip_matches(j, e),
{
    let fs = match j {
        Json::Obj(fs) => fs,
        _ => {
            return Err(DecodeError::NotAnObject);
        },
    };
    proof {
        reveal_strlit("itemName");
        reveal_strlit("quality");
        assert("itemName"@.len() == 8);
        assert("quality"@.len() == 7);
    }
    let ghost fs0 = fs@;
    let (nv, fs1) = take_field(fs, "itemName");
    proof {
        assert(obj_get(fs1@, "quality"@) == obj_get(fs0, "quality"@));
    }
    let item_name = match crate::effects::string_field(nv) {
        Ok(v) => v,
        Err(e) => {
            return Err(e);
        },
    };
    let (qv, _) = take_field(fs1, "quality");
    let quality = match crate::effects::u8_field(qv) {
        Ok(v) => v,
        Err(e) => {
            return Err(e);
        },
    };
    Ok(EquipmentItemRef { item_name, quality })
}

/// When one inventory stack decodes.
pub open spec fn inventory_ok(j: Json) -> bool {
    &&& j is Obj
    &&& string_of(obj_get(j->Obj_0@, "itemName"@)) is Ok
    &&& u8_of(obj_get(j->Obj_0@, "moduleSlots"@)) is Ok
    &&& u8_of(obj_get(j->Obj_0@, "quality"@)) is Ok
    &&& obj_get(j->Obj_0@, "modules"@) matches Some(m) && m is Arr
    &&& usize_of(obj_get(j->Obj_0@, "quantity"@)) is Ok
}

/// What a decoded inventory stack holds. The module values are kept exactly as
/// they came off the wire.
pub open spec fn inventory_matches(j: Json, e: InventoryItem) -> bool {
    &&& j is Obj
    &&& string_of(obj_get(j->Obj_0@, "itemName"@)) == Ok::<String, DecodeError>(e.item_name)
    &&& u8_of(obj_get(j->Obj_0@, "moduleSlots"@)) == Ok::<u8, DecodeError>(e.module_slots)
    &&& u8_of(obj_get(j->Obj_0@, "quality"@)) == Ok::<u8, DecodeError>(e.quality)
    &&& obj_get(j->Obj_0@, "modules"@) matches Some(m) && m is Arr && e.modules == m->Arr_0
    &&& usize_of(obj_get(j->Obj_0@, "quantity"@)) == Ok::<usize, DecodeError>(e.quantity)
}

/// Decodes one inventory stack.
pub fn decode_inventory_item(j: Json) -> (r: Result<InventoryItem, DecodeError>)
    ensures
        r is Ok <==> inventory_ok(j),
        r matches Ok(e) ==> inventory_matches(j, e),
{
    let fs = match j {
        Json::Obj(fs) => fs,
        _ => {
            return Err(DecodeError::NotAnObject);
        },
    };
    proof {
        reveal_strlit("itemName");
        reveal_strlit("moduleSlots");
        reveal_strlit("quality");
        reveal_strlit("modules");
        reveal_strlit("quantity");
        assert("itemName"@.len() == 8);
        assert("moduleSlots"@.len() == 11);
        assert("quality"@.len() == 7);
        assert("modules"@.len() == 7);
        assert("quantity"@.len() == 8);
        assert("itemName"@[0] != "quantity"@[0]);
        assert("quality"@[0] != "modules"@[0]);
    }
    let ghost fs0 = fs@;
    let (nv, fs1) = take_field(fs, "itemName");
    proof {
        assert(obj_get(fs1@, "moduleSlots"@) == obj_get(fs0, "moduleSlots"@));
        assert(obj_get(fs1@, "quality"@) == obj_get(fs0, "quality"@));
        assert(obj_get(fs1@, "modules"@) == obj_get(fs0, "modules"@));
        assert(obj_get(fs1@, "quantity"@) == obj_get(fs0, "quantity"@));
    }
    let item_name = match crate::effects::string_field(nv) {
        Ok(v) => v,
        Err(e) => {
            return Err(e);
        },
    };
    let (sv, fs2) = take_field(fs1, "moduleSlots");
    proof {
        assert(obj_get(fs2@, "quality"@) == obj_get(fs0, "quality"@));
        assert(obj_get(fs2@, "modules"@) == obj_get(fs0, "modules"@));
        assert(obj_get(fs2@, "quantity"@) == obj_get(fs0, "quantity"@));
    }
    let module_slots = match crate::effects::u8_field(sv) {
        Ok(v) => v,
        Err(e) => {
            return Err(e);
        },
    };
    let (qv, fs3) = take_field(fs2, "quality");
    proof {
        assert(obj_get(fs3@, "modules"@) == obj_get(fs0, "modules"@));
        assert(obj_get(fs3@, "quantity"@) == obj_get(fs0, "quantity"@));
    }
    let quality = match crate::effects::u8_field(qv) {
        Ok(v) => v,
        Err(e) => {
            return Err(e);
        },
    };
    let (mv, fs4) = take_field(fs3, "modules");
    proof {
        assert(obj_get(fs4@, "quantity"@) == obj_get(fs0, "quantity"@));
    }
    let modules = match mv {
        Some(Json::Arr(m)) => m,
        Some(_) => {
            return Err(DecodeError::WrongType);
        },
        None => {
            return Err(DecodeError::Missing);
        },
    };
    let (cv, _) = take_field(fs4, "quantity");
    let quantity = match crate::effects::usize_field(cv) {
        Ok(v) => v,
        Err(e) => {
            return Err(e);
        },
    };
    Ok(InventoryItem { item_name, module_slots, quality, modules, quantity })
}

/// Every element decodes as an equipped-item reference.
pub open spec fn equips_ok(items: Seq<Json>) -> bool {
    forall|k: int| 0 <= k < items.len() ==> #[trigger] equip_ok(items[k])
}

/// The decoded references, element for element and in order.
pub open spec fn equips_match(items: Seq<Json>, out: Seq<EquipmentItemRef>) -> bool {
    &&& out.len() == items.len()
    &&& forall|k: int| 0 <= k < items.len() ==> #[trigger] equip_matches(items[k], out[k])
}

/// Every element decodes as an inventory stack.
pub open spec fn inventories_ok(items: Seq<Json>) -> bool {
    forall|k: int| 0 <= k < items.len() ==> #[trigger] inventory_ok(items[k])
}

/// The decoded stacks, element for element and in order.
pub open spec fn inventories_match(items: Seq<Json>, out: Seq<InventoryItem>) -> bool {
    &&& out.len() == items.len()
    &&& forall|k: int| 0 <= k < items.len() ==> #[trigger] inventory_matches(items[k], out[k])
}

/// Decodes an array of equipped-item references.
#[verifier::loop_isolation(false)]
pub fn decode_equipment(items: Vec<Json>) -> (r: Result<Vec<EquipmentItemRef>, DecodeError>)
    ensures
        r is Ok <==> equips_ok(items@),
        r matches Ok(v) ==> equips_match(items@, v@),
{
    let ghost orig = items@;
    let mut items = items;
    let mut out: Vec<EquipmentItemRef> = Vec::new();
    while items.len() > 0
        invariant
            out@.len() + items@.len() == orig.len(),
            items@ == orig.subrange(out@.len() as int, orig.len() as int),
            forall|k: int| 0 <= k < out@.len() ==> #[trigger] equip_ok(orig[k]),
            forall|k: int| 0 <= k < out@.len() ==> #[trigger] equip_matches(orig[k], out@[k]),
        decreases items@.len(),
    {
        let ghost i = out@.len() as int;
        let x = items.remove(0);
        proof {
            assert(x == orig[i]);
            assert(orig.subrange(i, orig.len() as int).remove(0) =~= orig.subrange(
                i + 1,
                orig.len() as int,
            ));
        }
        match decode_equipment_ref(x) {
            Ok(v) => out.push(v),
            Err(e) => {
                proof {
                    assert(!equips_ok(orig)) by {
                        assert(!equip_ok(orig[i]));
                    }
                }
                return Err(e);
            },
        }
    }
    proof {
        assert(out@.len() == orig.len());
    }
    Ok(out)
}

/// Decodes an array of inventory stacks.
#[verifier::loop_isolation(false)]
pub fn decode_inventory(items: Vec<Json>) -> (r: Result<Vec<InventoryItem>, DecodeError>)
    ensures
        r is Ok <==> inventories_ok(items@),
        r matches Ok(v) ==> inventories_match(items@, v@),
{
    let ghost orig = items@;
    let mut items = items;
    let mut out: Vec<InventoryItem> = Vec::new();
    while items.len() > 0
        invariant
            out@.len() + items@.len() == orig.len(),
            items@ == orig.subrange(out@.len() as int, orig.len() as int),
            forall|k: int| 0 <= k < out@.len() ==> #[trigger] inventory_ok(orig[k]),
            forall|k: int| 0 <= k < out@.len() ==> #[trigger] inventory_matches(orig[k], out@[k]),
        decreases items@.len(),
    {
        let ghost i = out@.len() as int;
        let x = items.remove(0);
        proof {
            assert(x == orig[i]);
            assert(orig.subrange(i, orig.len() as int).remove(0) =~= orig.subrange(
                i + 1,
                orig.len() as int,
            ));
        }
        match decode_inventory_item(x) {
            Ok(v) => out.push(v),
            Err(e) => {
                proof {
                    assert(!inventories_ok(orig)) by {
                        assert(!inventory_ok(orig[i]));
                    }
                }
                return Err(e);
            },
        }
    }
    proof {
        assert(out@.len() == orig.len());
    }
    Ok(out)
}

/// When an optional array-of-objects field decodes as equipment.
pub open spec fn opt_equipment_ok(v: Option<Json>) -> bool {
    match v {
        None => true,
        Some(Json::Null) => true,
        Some(Json::Arr(a)) => equips_ok(a@),
        Some(_) => false,
    }
}

/// What a decoded optional equipment field holds.
pub open spec fn opt_equipment_matches(v: Option<Json>, out: Option<Vec<EquipmentItemRef>>) -> bool {
    match v {
        None => out is None,
        Some(Json::Null) => out is None,
        Some(Json::Arr(a)) => out matches Some(es) && equips_match(a@, es@),
        Some(_) => false,
    }
}

/// When an optional array-of-objects field decodes as inventory.
pub open spec fn opt_inventory_ok(v: Option<Json>) -> bool {
    match v {
        None => true,
        Some(Json::Null) => true,
        Some(Json::Arr(a)) => inventories_ok(a@),
        Some(_) => false,
    }
}

/// What a decoded optional inventory field holds.
pub open spec fn opt_inventory_matches(v: Option<Json>, out: Option<Vec<InventoryItem>>) -> bool {
    match v {
        None => out is None,
        Some(Json::Null) => out is None,
        Some(Json::Arr(a)) => out matches Some(es) && inventories_match(a@, es@),
        Some(_) => false,
    }
}

/// When a user record decodes.
pub open spec fn user_ok(j: Json) -> bool {
    &&& j is Obj
    &&& opt_string_ok(obj_get(j->Obj_0@, "biography"@))
    &&& string_of(obj_get(j->Obj_0@, "createdAt"@)) is Ok
    &&& opt_equipment_ok(obj_get(j->Obj_0@, "equipment"@))
    &&& opt_inventory_ok(obj_get(j->Obj_0@, "inventory"@))
    &&& roles_ok(obj_get(j->Obj_0@, "roles"@))
    &&& string_of(obj_get(j->Obj_0@, "name"@)) is Ok
}

/// What a decoded user record holds.
pub open spec fn user_matches(j: Json, u: User) -> bool {
    &&& j is Obj
    &&& opt_string_matches(obj_get(j->Obj_0@, "biography"@), u.biography)
    &&& string_of(obj_get(j->Obj_0@, "createdAt"@)) == Ok::<String, DecodeError>(u.created_at)
    &&& opt_equipment_matches(obj_get(j->Obj_0@, "equipment"@), u.equipment)
    &&& opt_inventory_matches(obj_get(j->Obj_0@, "inventory"@), u.inventory)
    &&& roles_match(obj_get(j->Obj_0@, "roles"@), u.roles@)
    &&& string_of(obj_get(j->Obj_0@, "name"@)) == Ok::<String, DecodeError>(u.name)
}

/// Decodes a user record. Optional fields stay absent when the response left
/// them out: absence is distinct from empty.
pub fn decode_user(j: Json) -> (r: Result<User, DecodeError>)
    ensures
        r is Ok <==> user_ok(j),
        r matches Ok(u) ==> user_matches(j, u),
{
    let fs = match j {
        Json::Obj(fs) => fs,
        _ => {
            return Err(DecodeError::NotAnObject);
        },
    };
    proof {
        reveal_strlit("biography");
        reveal_strlit("createdAt");
        reveal_strlit("equipment");
        reveal_strlit("inventory");
        reveal_strlit("roles");
        reveal_strlit("name");
        assert("biography"@.len() == 9);
        assert("createdAt"@.len() == 9);
        assert("equipment"@.len() == 9);
        assert("inventory"@.len() == 9);
        assert("roles"@.len() == 5);
        assert("name"@.len() == 4);
        assert("biography"@[0] != "createdAt"@[0]);
        assert("biography"@[0] != "equipment"@[0]);
        assert("biography"@[0] != "inventory"@[0]);
        assert("createdAt"@[0] != "equipment"@[0]);
        assert("createdAt"@[0] != "inventory"@[0]);
        assert("equipment"@[0] != "inventory"@[0]);
    }
    let ghost fs0 = fs@;
    let (bv, fs1) = take_field(fs, "biography");
    proof {
        assert(obj_get(fs1@, "createdAt"@) == obj_get(fs0, "createdAt"@));
        assert(obj_get(fs1@, "equipment"@) == obj_get(fs0, "equipment"@));
        assert(obj_get(fs1@, "inventory"@) == obj_get(fs0, "inventory"@));
        assert(obj_get(fs1@, "roles"@) == obj_get(fs0, "roles"@));
        assert(obj_get(fs1@, "name"@) == obj_get(fs0, "name"@));
    }
    let biography = match decode_opt_string(bv) {
        Ok(v) => v,
        Err(e) => {
            return Err(e);
        },
    };
    let (cv, fs2) = take_field(fs1, "createdAt");
    proof {
        assert(obj_get(fs2@, "equipment"@) == obj_get(fs0, "equipment"@));
        assert(obj_get(fs2@, "inventory"@) == obj_get(fs0, "inventory"@));
        assert(obj_get(fs2@, "roles"@) == obj_get(fs0, "roles"@));
        assert(obj_get(fs2@, "name"@) == obj_get(fs0, "name"@));
    }
    let created_at = match crate::effects::string_field(cv) {
        Ok(v) => v,
        Err(e) => {
            return Err(e);
        },
    };
    let (ev, fs3) = take_field(fs2, "equipment");
    proof {
        assert(obj_get(fs3@, "inventory"@) == obj_get(fs0, "inventory"@));
        assert(obj_get(fs3@, "roles"@) == obj_get(fs0, "roles"@));
        assert(obj_get(fs3@, "name"@) == obj_get(fs0, "name"@));
    }
    let equipment = match ev {
        None => None,
        Some(Json::Null) => None,
        Some(Json::Arr(a)) => match decode_equipment(a) {
            Ok(v) => Some(v),
            Err(e) => {
                return Err(e);
            },
        },
        Some(_) => {
            return Err(DecodeError::WrongType);
        },
    };
    let (iv, fs4) = take_field(fs3, "inventory");
    proof {
        assert(obj_get(fs4@, "roles"@) == obj_get(fs0, "roles"@));
        assert(obj_get(fs4@, "name"@) == obj_get(fs0, "name"@));
    }
    let inventory = match iv {
        None => None,
        Some(Json::Null) => None,
        Some(Json::Arr(a)) => match decode_inventory(a) {
            Ok(v) => Some(v),
            Err(e) => {
                return Err(e);
            },
        },
        Some(_) => {
            return Err(DecodeError::WrongType);
        },
    };
    let (rv, fs5) = take_field(fs4, "roles");
    proof {
        assert(obj_get(fs5@, "name"@) == obj_get(fs0, "name"@));
    }
    let roles = match decode_roles(rv) {
        Ok(v) => v,
        Err(e) => {
            return Err(e);
        },
    };
    let (nv, _) = take_field(fs5, "name");
    let name = match crate::effects::string_field(nv) {
        Ok(v) => v,
        Err(e) => {
            return Err(e);
        },
    };
    Ok(User { biography, created_at, equipment, inventory, roles, name })
}


/// Moves exactly five strings into the fixed-size array the item model uses.
fn five_strings(v: Vec<String>) -> (r: [String; 5])
    requires
        v@.len() == 5,
    ensures
        r@ == v@,
{
    let mut w = v;
    let e4 = w.pop().unwrap();
    let e3 = w.pop().unwrap();
    let e2 = w.pop().unwrap();
    let e1 = w.pop().unwrap();
    let e0 = w.pop().unwrap();
    let r = [e0, e1, e2, e3, e4];
    proof {
        assert(r@ =~= v@);
    }
    r
}

/// When a quality-indexed text field decodes: an array of exactly five strings,
/// one per quality tier.
pub open spec fn five_ok(v: Option<Json>) -> bool {
    v matches Some(j) && j is Arr && j->Arr_0@.len() == 5 && strings_ok(j->Arr_0@)
}

/// What a decoded quality-indexed text field holds.
pub open spec fn five_matches(v: Option<Json>, out: Seq<String>) -> bool {
    v matches Some(j) && j is Arr && strings_match(j->Arr_0@, out)
}

/// Decodes a quality-indexed text field.
fn decode_five(v: Option<Json>) -> (r: Result<[String; 5], DecodeError>)
    ensures
        r is Ok <==> five_ok(v),
        r matches Ok(out) ==> five_matches(v, out@),
{
    match v {
        Some(Json::Arr(items)) => {
            if items.len() != 5 {
                return Err(DecodeError::WrongType);
            }
            match decode_strings(items) {
                Ok(ss) => Ok(five_strings(ss)),
                Err(e) => Err(e),
            }
        },
        Some(_) => Err(DecodeError::WrongType),
        None => Err(DecodeError::Missing),
    }
}

/// Every element decodes as an effect.
pub open spec fn effects_ok(items: Seq<Json>) -> bool {
    forall|k: int| 0 <= k < items.len() ==> #[trigger] crate::effects::effect_of(items[k]) is Ok
}

/// The decoded effects, element for element and in order.
pub open spec fn effects_match(items: Seq<Json>, out: Seq<crate::models::ConsumeEffect>) -> bool {
    &&& out.len() == items.len()
    &&& forall|k: int| 0 <= k < items.len() ==> #[trigger] crate::effects::effect_of(items[k])
        == Ok::<crate::models::ConsumeEffect, DecodeError>(out[k])
}

/// When an optional effect-list field decodes.
pub open spec fn opt_effects_ok(v: Option<Json>) -> bool {
    match v {
        None => true,
        Some(Json::Null) => true,
        Some(Json::Arr(a)) => effects_ok(a@),
        Some(_) => false,
    }
}

/// What a decoded optional effect-list field holds.
pub open spec fn opt_effects_matches(
    v: Option<Json>,
    out: Option<Vec<crate::models::ConsumeEffect>>,
) -> bool {
    match v {
        None => out is None,
        Some(Json::Null) => out is None,
        Some(Json::Arr(a)) => out matches Some(es) && effects_match(a@, es@),
        Some(_) => false,
    }
}

/// When an optional field holding opaque values decodes: absent, null, or any
/// array, kept as it came.
pub open spec fn opt_raw_list_ok(v: Option<Json>) -> bool {
    match v {
        None => true,
        Some(Json::Null) => true,
        Some(Json::Arr(_)) => true,
        Some(_) => false,
    }
}

/// What a decoded optional opaque list holds.
pub open spec fn opt_raw_list_matches(v: Option<Json>, out: Option<Vec<Json>>) -> bool {
    match v {
        None => out is None,
        Some(Json::Null) => out is None,
        Some(Json::Arr(a)) => out == Some(a),
        Some(_) => false,
    }
}

/// When a catalog item decodes.
pub open spec fn item_ok(j: Json) -> bool {
    &&& j is Obj
    &&& five_ok(obj_get(j->Obj_0@, "qualityAdjectives"@))
    &&& usize_of(obj_get(j->Obj_0@, "level"@)) is Ok
    &&& string_of(obj_get(j->Obj_0@, "imageUrl"@)) is Ok
    &&& usize_of(obj_get(j->Obj_0@, "type"@)) is Ok
    &&& string_of(obj_get(j->Obj_0@, "name"@)) is Ok
    &&& usize_of(obj_get(j->Obj_0@, "worthMultiplier"@)) is Ok
    &&& opt_effects_ok(obj_get(j->Obj_0@, "consumeEffects"@))
    &&& opt_raw_list_ok(obj_get(j->Obj_0@, "skillEffects"@))
    &&& five_ok(obj_get(j->Obj_0@, "qualityDescriptions"@))
}

/// What a decoded catalog item holds.
pub open spec fn item_matches(j: Json, it: Item) -> bool {
    &&& j is Obj
    &&& five_matches(obj_get(j->Obj_0@, "qualityAdjectives"@), it.quality_adjectives@)
    &&& usize_of(obj_get(j->Obj_0@, "level"@)) == Ok::<usize, DecodeError>(it.level)
    &&& string_of(obj_get(j->Obj_0@, "imageUrl"@)) == Ok::<String, DecodeError>(it.image_url)
    &&& usize_of(obj_get(j->Obj_0@, "type"@)) == Ok::<usize, DecodeError>(it.item_type)
    &&& string_of(obj_get(j->Obj_0@, "name"@)) == Ok::<String, DecodeError>(it.name)
    &&& usize_of(obj_get(j->Obj_0@, "worthMultiplier"@)) == Ok::<usize, DecodeError>(
        it.worth_multiplier,
    )
    &&& opt_effects_matches(obj_get(j->Obj_0@, "consumeEffects"@), it.consume_effects)
    &&& opt_raw_list_matches(obj_get(j->Obj_0@, "skillEffects"@), it.skill_effects)
    &&& five_matches(obj_get(j->Obj_0@, "qualityDescriptions"@), it.quality_descriptions@)
}

/// Decodes one catalog item.
pub fn decode_item(j: Json) -> (r: Result<Item, DecodeError>)
    ensures
        r is Ok <==> item_ok(j),
        r matches Ok(it) ==> item_matches(j, it),
{
    let fs = match j {
        Json::Obj(fs) => fs,
        _ => {
            return Err(DecodeError::NotAnObject);
        },
    };
    proof {
        reveal_strlit("qualityAdjectives");
        reveal_strlit("level");
        reveal_strlit("imageUrl");
        reveal_strlit("type");
        reveal_strlit("name");
        reveal_strlit("worthMultiplier");
        reveal_strlit("consumeEffects");
        reveal_strlit("skillEffects");
        reveal_strlit("qualityDescriptions");
        assert("qualityAdjectives"@.len() == 17);
        assert("level"@.len() == 5);
        assert("imageUrl"@.len() == 8);
        assert("type"@.len() == 4);
        assert("name"@.len() == 4);
        assert("worthMultiplier"@.len() == 15);
        assert("consumeEffects"@.len() == 14);
        assert("skillEffects"@.len() == 12);
        assert("qualityDescriptions"@.len() == 19);
        assert("type"@[0] != "name"@[0]);
    }
    let ghost fs0 = fs@;
    let (av, fs1) = take_field(fs, "qualityAdjectives");
    proof {
        assert(obj_get(fs1@, "level"@) == obj_get(fs0, "level"@));
        assert(obj_get(fs1@, "imageUrl"@) == obj_get(fs0, "imageUrl"@));
        assert(obj_get(fs1@, "type"@) == obj_get(fs0, "type"@));
        assert(obj_get(fs1@, "name"@) == obj_get(fs0, "name"@));
        assert(obj_get(fs1@, "worthMultiplier"@) == obj_get(fs0, "worthMultiplier"@));
        assert(obj_get(fs1@, "consumeEffects"@) == obj_get(fs0, "consumeEffects"@));
        assert(obj_get(fs1@, "skillEffects"@) == obj_get(fs0, "skillEffects"@));
        assert(obj_get(fs1@, "qualityDescriptions"@) == obj_get(fs0, "qualityDescriptions"@));
    }
    let quality_adjectives = match decode_five(av) {
        Ok(v) => v,
        Err(e) => {
            return Err(e);
        },
    };
    let (lv, fs2) = take_field(fs1, "level");
    proof {
        assert(obj_get(fs2@, "imageUrl"@) == obj_get(fs0, "imageUrl"@));
        assert(obj_get(fs2@, "type"@) == obj_get(fs0, "type"@));
        assert(obj_get(fs2@, "name"@) == obj_get(fs0, "name"@));
        assert(obj_get(fs2@, "worthMultiplier"@) == obj_get(fs0, "worthMultiplier"@));
        assert(obj_get(fs2@, "consumeEffects"@) == obj_get(fs0, "consumeEffects"@));
        assert(obj_get(fs2@, "skillEffects"@) == obj_get(fs0, "skillEffects"@));
        assert(obj_get(fs2@, "qualityDescriptions"@) == obj_get(fs0, "qualityDescriptions"@));
    }
    let level = match crate::effects::usize_field(lv) {
        Ok(v) => v,
        Err(e) => {
            return Err(e);
        },
    };
    let (uv, fs3) = take_field(fs2, "imageUrl");
    proof {
        assert(obj_get(fs3@, "type"@) == obj_get(fs0, "type"@));
        assert(obj_get(fs3@, "name"@) == obj_get(fs0, "name"@));
        assert(obj_get(fs3@, "worthMultiplier"@) == obj_get(fs0, "worthMultiplier"@));
        assert(obj_get(fs3@, "consumeEffects"@) == obj_get(fs0, "consumeEffects"@));
        assert(obj_get(fs3@, "skillEffects"@) == obj_get(fs0, "skillEffects"@));
        assert(obj_get(fs3@, "qualityDescriptions"@) == obj_get(fs0, "qualityDescriptions"@));
    }
    let image_url = match crate::effects::string_field(uv) {
        Ok(v) => v,
        Err(e) => {
            return Err(e);
        },
    };
    let (tv, fs4) = take_field(fs3, "type");
    proof {
        assert(obj_get(fs4@, "name"@) == obj_get(fs0, "name"@));
        assert(obj_get(fs4@, "worthMultiplier"@) == obj_get(fs0, "worthMultiplier"@));
        assert(obj_get(fs4@, "consumeEffects"@) == obj_get(fs0, "consumeEffects"@));
        assert(obj_get(fs4@, "skillEffects"@) == obj_get(fs0, "skillEffects"@));
        assert(obj_get(fs4@, "qualityDescriptions"@) == obj_get(fs0, "qualityDescriptions"@));
    }
    let item_type = match crate::effects::usize_field(tv) {
        Ok(v) => v,
        Err(e) => {
            return Err(e);
        },
    };
    let (nv, fs5) = take_field(fs4, "name");
    proof {
        assert(obj_get(fs5@, "worthMultiplier"@) == obj_get(fs0, "worthMultiplier"@));
        assert(obj_get(fs5@, "consumeEffects"@) == obj_get(fs0, "consumeEffects"@));
        assert(obj_get(fs5@, "skillEffects"@) == obj_get(fs0, "skillEffects"@));
        assert(obj_get(fs5@, "qualityDescriptions"@) == obj_get(fs0, "qualityDescriptions"@));
    }
    let name = match crate::effects::string_field(nv) {
        Ok(v) => v,
        Err(e) => {
            return Err(e);
        },
    };
    let (wv, fs6) = take_field(fs5, "worthMultiplier");
    proof {
        assert(obj_get(fs6@, "consumeEffects"@) == obj_get(fs0, "consumeEffects"@));
        assert(obj_get(fs6@, "skillEffects"@) == obj_get(fs0, "skillEffects"@));
        assert(obj_get(fs6@, "qualityDescriptions"@) == obj_get(fs0, "qualityDescriptions"@));
    }
    let worth_multiplier = match crate::effects::usize_field(wv) {
        Ok(v) => v,
        Err(e) => {
            return Err(e);
        },
    };
    let (cv, fs7) = take_field(fs6, "consumeEffects");
    proof {
        assert(obj_get(fs7@, "skillEffects"@) == obj_get(fs0, "skillEffects"@));
        assert(obj_get(fs7@, "qualityDescriptions"@) == obj_get(fs0, "qualityDescriptions"@));
    }
    let consume_effects = match cv {
        None => None,
        Some(Json::Null) => None,
        Some(Json::Arr(a)) => match crate::effects::decode_effects(a) {
            Ok(v) => Some(v),
            Err(e) => {
                return Err(e);
            },
        },
        Some(_) => {
            return Err(DecodeError::WrongType);
        },
    };
    let (sv, fs8) = take_field(fs7, "skillEffects");
    proof {
        assert(obj_get(fs8@, "qualityDescriptions"@) == obj_get(fs0, "qualityDescriptions"@));
    }
    let skill_effects = match sv {
        None => None,
        Some(Json::Null) => None,
        Some(Json::Arr(a)) => Some(a),
        Some(_) => {
            return Err(DecodeError::WrongType);
        },
    };
    let (dv, _) = take_field(fs8, "qualityDescriptions");
    let quality_descriptions = match decode_five(dv) {
        Ok(v) => v,
        Err(e) => {
            return Err(e);
        },
    };
    Ok(Item {
        quality_adjectives,
        level,
        image_url,
        item_type,
        name,
        worth_multiplier,
        consume_effects,
        skill_effects,
        quality_descriptions,
    })
}

/// Every element decodes as a catalog item.
pub open spec fn items_ok(items: Seq<Json>) -> bool {
    forall|k: int| 0 <= k < items.len() ==> #[trigger] item_ok(items[k])
}

/// The decoded catalog, element for element and in order.
pub open spec fn items_match(items: Seq<Json>, out: Seq<Item>) -> bool {
    &&& out.len() == items.len()
    &&& forall|k: int| 0 <= k < items.len() ==> #[trigger] item_matches(items[k], out[k])
}

/// Decodes the item catalog: a JSON array of items.
#[verifier::loop_isolation(false)]
pub fn decode_items(j: Json) -> (r: Result<Vec<Item>, DecodeError>)
    ensures
        r is Ok <==> j is Arr && items_ok(j->Arr_0@),
        r matches Ok(v) ==> j is Arr && items_match(j->Arr_0@, v@),
{
    let items = match j {
        Json::Arr(items) => items,
        _ => {
            return Err(DecodeError::NotAnArray);
        },
    };
    let ghost orig = items@;
    let mut items = items;
    let mut out: Vec<Item> = Vec::new();
    while items.len() > 0
        invariant
            out@.len() + items@.len() == orig.len(),
            items@ == orig.subrange(out@.len() as int, orig.len() as int),
            forall|k: int| 0 <= k < out@.len() ==> #[trigger] item_ok(orig[k]),
            forall|k: int| 0 <= k < out@.len() ==> #[trigger] item_matches(orig[k], out@[k]),
        decreases items@.len(),
    {
        let ghost i = out@.len() as int;
        let x = items.remove(0);
        proof {
            assert(x == orig[i]);
            assert(orig.subrange(i, orig.len() as int).remove(0) =~= orig.subrange(
                i + 1,
                orig.len() as int,
            ));
        }
        match decode_item(x) {
            Ok(v) => out.push(v),
            Err(e) => {
                proof {
                    assert(!items_ok(orig)) by {
                        assert(!item_ok(orig[i]));
                    }
                }
                return Err(e);
            },
        }
    }
    proof {
        assert(out@.len() == orig.len());
    }
    Ok(out)
}

} // verus!
