//! The count resolver: from a fetched message's reaction summaries and the
//! two bounded reactor probes, compute the corrected reaction count that is
//! compared against the threshold.
//!
//! The correction is a heuristic the platform makes cheap: instead of listing
//! every reactor, the caller fetches at most one reactor from the front of the
//! list and at most one positioned after the author, and the two probes are
//! compared. The heuristic is kept as designed, approximation and all; the
//! lemmas at the bottom say exactly when it detects a self-reaction.

use vstd::prelude::*;

use crate::is_tracked_emoji;
use crate::model::ReactionSummary;
use crate::spec_skull;

verus! {

/// The correction `me` derived from the two reactor probes: 1 when the probes
/// disagree (the second probe found nobody, or found a different user than
/// the first), meaning the author is taken to be among the reactors and must
/// be excluded from the displayed count; 0 otherwise.
pub open spec fn spec_correction(first: Option<u64>, after: Option<u64>) -> u64 {
    match first {
        Option::None => 0u64,
        Option::Some(f) => match after {
            Option::None => 1u64,
            Option::Some(a) => if a != f {
                1u64
            } else {
                0u64
            },
        },
    }
}

/// Compare the two reactor probes. `first` is the reactor at the front of the
/// list, if any; `after` is the first reactor positioned after the author.
pub fn self_correction(first: Option<u64>, after: Option<u64>) -> (me: u64)
    ensures
        me == spec_correction(first, after),
        me <= 1,
{
    match first {
        None => 0u64,
        Some(f) => match after {
            None => 1u64,
            Some(a) => if a != f {
                1u64
            } else {
                0u64
            },
        },
    }
}

/// Does this reaction summary qualify: is it the tracked glyph, with a
/// corrected count at or above the threshold (the tie at the threshold
/// qualifies)?
pub open spec fn spec_qualifies(r: ReactionSummary, me: u64, threshold: u64) -> bool {
    r.emoji@ == spec_skull() && r.count - me >= threshold
}

/// The corrected count of the first qualifying reaction summary, or `None`
/// when no summary qualifies (in particular when the tracked glyph is absent
/// from the message altogether).
pub open spec fn spec_resolve(rs: Seq<ReactionSummary>, me: u64, threshold: u64) -> Option<u64>
    decreases rs.len(),
{
    if rs.len() == 0 {
        Option::None
    } else if spec_qualifies(rs[0], me, threshold) {
        Option::Some((rs[0].count - me) as u64)
    } else {
        spec_resolve(rs.drop_first(), me, threshold)
    }
}

/// Walk the reaction summaries for the first qualifying one and hand back its
/// corrected count.
pub fn resolve_count(reactions: &Vec<ReactionSummary>, me: u64, threshold: u64) -> (r: Option<
    u64,
>)
    ensures
        r == spec_resolve(reactions@, me, threshold),
{
    let n = reactions.len();
    let mut i: usize = 0;
    proof {
        assert(reactions@.skip(0) =~= reactions@);
    }
    while i < n
        invariant
            i <= n,
            n == reactions@.len(),
            spec_resolve(reactions@, me, threshold) == spec_resolve(
                reactions@.skip(i as int),
                me,
                threshold,
            ),
        decreases n - i,
    {
        let s = &reactions[i];
        proof {
            assert(reactions@.skip(i as int)[0] == reactions@[i as int]);
        }
        if is_tracked_emoji(s.emoji.as_str()) && s.count >= me && s.count - me >= threshold {
            return Some(s.count - me);
        }
        proof {
            assert(!spec_qualifies(reactions@[i as int], me, threshold));
            assert(reactions@.skip(i as int).drop_first() =~= reactions@.skip(i as int + 1));
        }
        i = i + 1;
    }
    proof {
        assert(reactions@.skip(n as int).len() == 0);
    }
    None
}

/// A message never reacted to with the tracked glyph never qualifies: when no
/// summary carries the tracked glyph, resolution yields nothing, whatever the
/// correction and threshold.
pub proof fn lemma_no_tracked_reaction_never_qualifies(
    rs: Seq<ReactionSummary>,
    me: u64,
    threshold: u64,
)
    requires
        forall|i: int| 0 <= i < rs.len() ==> #[trigger] rs[i].emoji@ != spec_skull(),
    ensures
        spec_resolve(rs, me, threshold) is None,
    decreases rs.len(),
{
    if rs.len() > 0 {
        lemma_no_tracked_reaction_never_qualifies(rs.drop_first(), me, threshold);
    }
}

/// Model of the platform's reactor listing for one emoji: reactor user
/// identifiers come back in increasing order, so the front probe sees the
/// smallest identifier.
pub open spec fn spec_sorted_ids(reactors: Seq<u64>) -> bool {
    forall|i: int, j: int| 0 <= i < j < reactors.len() ==> reactors[i] < reactors[j]
}

/// What the front probe of such a listing yields: the first reactor, if any.
pub open spec fn spec_probe_first(reactors: Seq<u64>) -> Option<u64> {
    if reactors.len() == 0 {
        Option::None
    } else {
        Option::Some(reactors[0])
    }
}

/// What the positioned probe yields: the first reactor whose identifier
/// exceeds the author's.
pub open spec fn spec_probe_after(reactors: Seq<u64>, author: u64) -> Option<u64>
    decreases reactors.len(),
{
    if reactors.len() == 0 {
        Option::None
    } else if reactors[0] > author {
        Option::Some(reactors[0])
    } else {
        spec_probe_after(reactors.drop_first(), author)
    }
}

proof fn lemma_probe_after_exceeds_author(reactors: Seq<u64>, author: u64)
    ensures
        spec_probe_after(reactors, author) matches Some(a) ==> a > author,
    decreases reactors.len(),
{
    if reactors.len() > 0 && !(reactors[0] > author) {
        lemma_probe_after_exceeds_author(reactors.drop_first(), author);
    }
}

/// Self-reaction correction, detecting half: whenever the author is among the
/// reactors, the probes disagree and the correction is 1, so the displayed
/// count is the raw reactor count minus one.
pub proof fn lemma_author_among_reactors_excluded(reactors: Seq<u64>, author: u64)
    requires
        spec_sorted_ids(reactors),
        reactors.contains(author),
    ensures
        spec_correction(spec_probe_first(reactors), spec_probe_after(reactors, author)) == 1,
{
    let k = choose|k: int| 0 <= k < reactors.len() && reactors[k] == author;
    lemma_probe_after_exceeds_author(reactors, author);
    match spec_probe_after(reactors, author) {
        Option::Some(a) => {
            assert(reactors[0] <= reactors[k]);
            assert(a != reactors[0]);
        },
        Option::None => {},
    }
}

/// Self-reaction correction, counting half: when every reactor identifier
/// exceeds the author's (so the author is certainly not among the reactors),
/// both probes see the same front reactor, the correction is 0, and the
/// displayed count equals the raw reactor count. For an absent author with a
/// reactor on each side of their identifier the probes can still disagree;
/// that approximation is part of the design and is deliberately not
/// strengthened here.
pub proof fn lemma_author_below_reactors_counted_fully(reactors: Seq<u64>, author: u64)
    requires
        spec_sorted_ids(reactors),
        forall|i: int| 0 <= i < reactors.len() ==> author < #[trigger] reactors[i],
    ensures
        spec_correction(spec_probe_first(reactors), spec_probe_after(reactors, author)) == 0,
{
}

} // verus!
