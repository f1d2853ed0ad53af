//! Query-string encoding: a delimiter-joined token writer and the encoder that
//! turns a set of leaderboard section flags into the query fragment the server
//! expects.

use vstd::prelude::*;
use crate::flags::LeaderboardsFlags;

verus! {

/// The pieces of `ts` joined with the delimiter `d` between neighbours: no
/// leading or trailing delimiter, and no delimiter at all for zero or one
/// pieces.
pub open spec fn join(ts: Seq<Seq<char>>, d: Seq<char>) -> Seq<char>
    decreases ts.len(),
{
    if ts.len() == 0 {
        Seq::empty()
    } else if ts.len() == 1 {
        ts[0]
    } else {
        join(ts.drop_last(), d) + d + ts.last()
    }
}

/// Every piece is nonempty.
pub open spec fn all_nonempty(ts: Seq<Seq<char>>) -> bool {
    forall|i: int| 0 <= i < ts.len() ==> ts[i].len() > 0
}

/// A join of at least one nonempty piece is itself nonempty.
pub proof fn lemma_join_nonempty(ts: Seq<Seq<char>>, d: Seq<char>)
    requires
        ts.len() >= 1,
        all_nonempty(ts),
    ensures
        join(ts, d).len() > 0,
{
    assert(ts[ts.len() - 1].len() > 0);
    if ts.len() == 1 {
        assert(join(ts, d) == ts[0]);
    } else {
        assert(join(ts, d) == join(ts.drop_last(), d) + d + ts.last());
    }
}

/// Appending one more piece extends the join by one delimiter and the piece,
/// except on the first piece, which stands alone.
pub proof fn lemma_join_push(ts: Seq<Seq<char>>, d: Seq<char>, t: Seq<char>)
    ensures
        ts.len() == 0 ==> join(ts.push(t), d) == t,
        ts.len() >= 1 ==> join(ts.push(t), d) == join(ts, d) + d + t,
{
    let p = ts.push(t);
    assert(p.last() == t);
    assert(p.drop_last() =~= ts);
    if ts.len() == 0 {
        assert(join(p, d) == p[0]);
    }
}

/// Builds a string from pieces, placing a fixed delimiter between neighbours.
pub struct DelimiterStringWriter<'a> {
    string: String,
    delimiter: &'a str,
}

impl<'a> DelimiterStringWriter<'a> {
    /// What has been written so far.
    pub closed spec fn content(&self) -> Seq<char> {
        self.string@
    }

    /// The delimiter placed between pieces.
    pub closed spec fn delim(&self) -> Seq<char> {
        self.delimiter@
    }

    /// A fresh writer with the given delimiter and nothing written.
    pub fn new(delimiter: &'a str) -> (r: Self)
        ensures
            r.content() == Seq::<char>::empty(),
            r.delim() == delimiter@,
    {
        Self { string: String::new(), delimiter }
    }

    /// Appends one piece: after anything already written, the delimiter comes
    /// first; the first piece stands alone.
    pub fn add(&mut self, element: &str)
        ensures
            old(self).content().len() == 0 ==> final(self).content() == element@,
            old(self).content().len() > 0 ==> final(self).content() == old(self).content()
                + old(self).delim() + element@,
            final(self).delim() == old(self).delim(),
    {
        if !self.string.as_str().is_empty() {
            self.string.append(self.delimiter);
            self.string.append(element);
        } else {
            self.string.append(element);
        }
    }

    /// Hands the built string out.
    pub fn get(self) -> (r: String)
        ensures
            r@ == self.content(),
    {
        self.string
    }
}

/// The section tokens selected by `flags`, in the declared section order.
pub open spec fn leaderboard_tokens(flags: LeaderboardsFlags) -> Seq<Seq<char>> {
    let ts = Seq::<Seq<char>>::empty();
    let ts = if flags.credits { ts.push("credits"@) } else { ts };
    let ts = if flags.highest_levels { ts.push("highestLevels"@) } else { ts };
    let ts = if flags.combats_won { ts.push("combatsWon"@) } else { ts };
    let ts = if flags.items_crafted { ts.push("itemsCrafted"@) } else { ts };
    let ts = if flags.jobs_performed { ts.push("jobsPerformed"@) } else { ts };
    let ts = if flags.overdoses { ts.push("overdoses"@) } else { ts };
    let ts = if flags.missions_completed { ts.push("missionsCompleted"@) } else { ts };
    ts
}

/// The query fragment for `flags`: the selected section tokens in declared
/// order, joined with `&`.
pub open spec fn leaderboard_query_spec(flags: LeaderboardsFlags) -> Seq<char> {
    join(leaderboard_tokens(flags), "&"@)
}

/// Makes the names of the seven section tokens available to the solver.
pub proof fn reveal_leaderboard_tokens()
    ensures
        "credits"@.len() == 7,
        "highestLevels"@.len() == 13,
        "combatsWon"@.len() == 10,
        "itemsCrafted"@.len() == 12,
        "jobsPerformed"@.len() == 13,
        "overdoses"@.len() == 9,
        "missionsCompleted"@.len() == 17,
        !"credits"@.contains('&'),
        !"highestLevels"@.contains('&'),
        !"combatsWon"@.contains('&'),
        !"itemsCrafted"@.contains('&'),
        !"jobsPerformed"@.contains('&'),
        !"overdoses"@.contains('&'),
        !"missionsCompleted"@.contains('&'),
{
    reveal_strlit("credits");
    reveal_strlit("highestLevels");
    reveal_strlit("combatsWon");
    reveal_strlit("itemsCrafted");
    reveal_strlit("jobsPerformed");
    reveal_strlit("overdoses");
    reveal_strlit("missionsCompleted");
}

/// Encodes leaderboard section flags as the delimiter-joined token list of the
/// query string: exactly the selected section names, in declared order.
pub fn leaderboard_flags_to_query(flags: LeaderboardsFlags) -> (r: String)
    ensures
        r@ == leaderboard_query_spec(flags),
{
    let mut writer = DelimiterStringWriter::new("&");
    let ghost mut toks: Seq<Seq<char>> = Seq::empty();
    proof {
        reveal_leaderboard_tokens();
    }
    if flags.credits {
        proof {
            lemma_step(toks, writer.content(), "credits"@);
            toks = toks.push("credits"@);
        }
        writer.add("credits");
    }
    if flags.highest_levels {
        proof {
            lemma_step(toks, writer.content(), "highestLevels"@);
            toks = toks.push("highestLevels"@);
        }
        writer.add("highestLevels");
    }
    if flags.combats_won {
        proof {
            lemma_step(toks, writer.content(), "combatsWon"@);
            toks = toks.push("combatsWon"@);
        }
        writer.add("combatsWon");
    }
    if flags.items_crafted {
        proof {
            lemma_step(toks, writer.content(), "itemsCrafted"@);
            toks = toks.push("itemsCrafted"@);
        }
        writer.add("itemsCrafted");
    }
    if flags.jobs_performed {
        proof {
            lemma_step(toks, writer.content(), "jobsPerformed"@);
            toks = toks.push("jobsPerformed"@);
        }
        writer.add("jobsPerformed");
    }
    if flags.overdoses {
        proof {
            lemma_step(toks, writer.content(), "overdoses"@);
            toks = toks.push("overdoses"@);
        }
        writer.add("overdoses");
    }
    if flags.missions_completed {
        proof {
            lemma_step(toks, writer.content(), "missionsCompleted"@);
            toks = toks.push("missionsCompleted"@);
        }
        writer.add("missionsCompleted");
    }
    proof {
        assert(toks =~= leaderboard_tokens(flags));
    }
    writer.get()
}

/// One encoder step: with the writer's content equal to the join of the tokens
/// written so far, all of them nonempty, appending a nonempty token keeps both.
proof fn lemma_step(toks: Seq<Seq<char>>, content: Seq<char>, t: Seq<char>)
    requires
        content == join(toks, "&"@),
        all_nonempty(toks),
        t.len() > 0,
    ensures
        toks.len() == 0 ==> content.len() == 0,
        toks.len() >= 1 ==> content.len() > 0,
        all_nonempty(toks.push(t)),
        content.len() == 0 ==> join(toks.push(t), "&"@) == t,
        content.len() > 0 ==> join(toks.push(t), "&"@) == content + "&"@ + t,
{
    if toks.len() >= 1 {
        lemma_join_nonempty(toks, "&"@);
    }
    lemma_join_push(toks, "&"@, t);
    assert forall|i: int| 0 <= i < toks.push(t).len() implies toks.push(t)[i].len() > 0 by {
        if i < toks.len() {
            assert(toks[i].len() > 0);
        }
    }
}

/// Law: with zero sections selected the encoder output is empty, and with one
/// section selected it is that section's bare token — in neither case does a
/// delimiter appear.
pub proof fn lemma_encoder_no_lone_delimiter(flags: LeaderboardsFlags)
    ensures
        leaderboard_tokens(flags).len() == 0 ==> leaderboard_query_spec(flags)
            == Seq::<char>::empty(),
        leaderboard_tokens(flags).len() == 1 ==> leaderboard_query_spec(flags)
            == leaderboard_tokens(flags)[0],
        leaderboard_tokens(flags).len() <= 1 ==> !leaderboard_query_spec(flags).contains('&'),
{
    reveal_leaderboard_tokens();
    let ts = leaderboard_tokens(flags);
    if ts.len() == 1 {
        assert(leaderboard_query_spec(flags) == ts[0]);
        assert(!ts[0].contains('&'));
    }
}

} // verus!
