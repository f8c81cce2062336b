//! The board reconciler: given the corrected count resolved for a message and
//! the current configuration, decide among doing nothing, posting a fresh
//! board message, editing the existing one in place, or deleting it — and
//! keep the board state store in step with that decision.
//!
//! The surrounding binary executes each decision against the platform and,
//! for a successful fresh post, reports the new handle back through
//! [`crate::board::BoardState::record`]. The transition function at the
//! bottom describes that whole round trip, and the lemmas after it state the
//! laws the board obeys.

use vstd::prelude::*;

use crate::board::BoardState;
use crate::count::spec_resolve;
use crate::model::BoardHandle;
use crate::model::MessageData;
use crate::model::ReactionSummary;
use crate::render::compose_embed;
use crate::render::render_board_content;
use crate::render::spec_board_content;
use crate::render::spec_embed_matches;
use crate::render::EmbedSpec;
use crate::spec_skull;

verus! {

/// What the reconciler asks the surrounding binary to do externally.
pub enum Decision {
    /// Nothing to perform.
    Ignore,
    /// Delete this board post; its entry has already been dropped from the
    /// store (and stays dropped even if the deletion fails, so later events
    /// do not retry a futile deletion).
    Remove { handle: BoardHandle },
    /// Edit this existing board post in place with the fresh rendering; the
    /// entry is kept as it is (a failed edit is retried by the next
    /// qualifying event).
    Refresh { handle: BoardHandle, content: String, embed: EmbedSpec },
    /// Post the rendering as a fresh message in the board channel, then react
    /// to it with the marker glyph (best effort); on success the caller
    /// records the new handle under the source message's identifier.
    Post { channel_id: u64, content: String, embed: EmbedSpec },
}

/// Decide what a reaction event means for the board, and update the store
/// accordingly. `resolved` is the corrected count from the count resolver,
/// `None` when the message does not qualify.
pub fn reconcile(
    board: &mut BoardState,
    board_channel: u64,
    msg: &MessageData,
    resolved: Option<u64>,
) -> (d: Decision)
    ensures
        match resolved {
            Option::None => {
                &&& final(board)@ == old(board)@.remove(msg.id)
                &&& (old(board)@.contains_key(msg.id) ==> (d matches Decision::Remove { handle }
                    && handle == old(board)@[msg.id]))
                &&& (!old(board)@.contains_key(msg.id) ==> d is Ignore)
            },
            Option::Some(c) => {
                &&& final(board)@ == old(board)@
                &&& (old(board)@.contains_key(msg.id) ==> (d matches Decision::Refresh {
                    handle,
                    content,
                    embed,
                } && handle == old(board)@[msg.id] && content@ == spec_board_content(
                    c,
                    msg.channel_id,
                ) && spec_embed_matches(embed, *msg)))
                &&& (!old(board)@.contains_key(msg.id) ==> (d matches Decision::Post {
                    channel_id,
                    content,
                    embed,
                } && channel_id == board_channel && content@ == spec_board_content(
                    c,
                    msg.channel_id,
                ) && spec_embed_matches(embed, *msg)))
            },
        },
{
    match resolved {
        None => {
            match board.withdraw(msg.id) {
                Some(handle) => Decision::Remove { handle },
                None => Decision::Ignore,
            }
        },
        Some(c) => {
            let content = render_board_content(c, msg.channel_id);
            let embed = compose_embed(msg);
            match board.lookup(msg.id) {
                Some(handle) => Decision::Refresh { handle, content, embed },
                None => Decision::Post { channel_id: board_channel, content, embed },
            }
        },
    }
}

/// One reaction event's effect on the board store, seen end to end: discarded
/// outright when the glyph is not the tracked one, when no board channel is
/// configured, or when the triggering reaction came from the message's own
/// author; otherwise a non-qualifying message loses its entry, a qualifying
/// tracked message keeps its entry unchanged, and a qualifying untracked
/// message gains the handle of the fresh post — if the post succeeded.
pub open spec fn spec_event_transition(
    store: Map<u64, BoardHandle>,
    channel: Option<u64>,
    glyph_matches: bool,
    by_author: bool,
    resolved: Option<u64>,
    msg_id: u64,
    post_ok: bool,
    fresh: BoardHandle,
) -> Map<u64, BoardHandle> {
    if !glyph_matches || channel is None || by_author {
        store
    } else {
        match resolved {
            Option::None => store.remove(msg_id),
            Option::Some(_) => if store.contains_key(msg_id) {
                store
            } else if post_ok {
                store.insert(msg_id, fresh)
            } else {
                store
            },
        }
    }
}

/// A whole reaction event, reduced to what decides its effect on the store:
/// the configuration seen, the normalizer's two filters, the resolver's
/// outcome, the affected message, and — for a fresh post — whether the post
/// succeeded and under which handle.
pub struct EventRecord {
    pub channel: Option<u64>,
    pub glyph_matches: bool,
    pub by_author: bool,
    pub resolved: Option<u64>,
    pub msg_id: u64,
    pub post_ok: bool,
    pub fresh: BoardHandle,
}

/// The store after a run of reaction events, each applied in turn.
pub open spec fn spec_run(store: Map<u64, BoardHandle>, events: Seq<EventRecord>) -> Map<
    u64,
    BoardHandle,
>
    decreases events.len(),
{
    if events.len() == 0 {
        store
    } else {
        spec_run(
            spec_event_transition(
                store,
                events[0].channel,
                events[0].glyph_matches,
                events[0].by_author,
                events[0].resolved,
                events[0].msg_id,
                events[0].post_ok,
                events[0].fresh,
            ),
            events.drop_first(),
        )
    }
}

/// No board entry is ever created for a message that never qualifies: across
/// any run of events, as long as every event for this message resolved to
/// "does not qualify" (as every event does for a message never reacted to
/// with the tracked glyph), the message stays off the board.
pub proof fn lemma_never_qualifying_never_on_board(
    store: Map<u64, BoardHandle>,
    events: Seq<EventRecord>,
    id: u64,
)
    requires
        !store.contains_key(id),
        forall|i: int|
            0 <= i < events.len() ==> ((#[trigger] events[i]).msg_id == id ==> events[i].resolved
                is None),
    ensures
        !spec_run(store, events).contains_key(id),
    decreases events.len(),
{
    if events.len() > 0 {
        let e = events[0];
        let next = spec_event_transition(
            store,
            e.channel,
            e.glyph_matches,
            e.by_author,
            e.resolved,
            e.msg_id,
            e.post_ok,
            e.fresh,
        );
        assert(!next.contains_key(id));
        assert forall|i: int|
            0 <= i < events.drop_first().len() implies ((#[trigger] events.drop_first()[i]).msg_id
            == id ==> events.drop_first()[i].resolved is None) by {
            assert(events.drop_first()[i] == events[i + 1]);
        }
        lemma_never_qualifying_never_on_board(next, events.drop_first(), id);
    }
}

/// One event's worth of the law above, tied back to the count resolver:
/// whatever the event, if the affected message's reaction summaries all carry
/// other glyphs, resolution yields nothing and a message without an entry is
/// still without one afterwards.
pub proof fn lemma_no_tracked_reaction_no_entry(
    store: Map<u64, BoardHandle>,
    channel: Option<u64>,
    glyph_matches: bool,
    by_author: bool,
    reactions: Seq<ReactionSummary>,
    me: u64,
    threshold: u64,
    msg_id: u64,
    post_ok: bool,
    fresh: BoardHandle,
    id: u64,
)
    requires
        !store.contains_key(id),
        forall|i: int| 0 <= i < reactions.len() ==> #[trigger] reactions[i].emoji@ != spec_skull(),
    ensures
        !spec_event_transition(
            store,
            channel,
            glyph_matches,
            by_author,
            spec_resolve(reactions, me, threshold),
            msg_id,
            post_ok,
            fresh,
        ).contains_key(id),
{
    crate::count::lemma_no_tracked_reaction_never_qualifies(reactions, me, threshold);
}

/// Boundary inclusivity: with a single tracked summary, a corrected count of
/// exactly the threshold creates a board entry, while a corrected count one
/// below creates none.
pub proof fn lemma_boundary_inclusive(
    store: Map<u64, BoardHandle>,
    r: ReactionSummary,
    me: u64,
    threshold: u64,
    msg_id: u64,
    channel: u64,
    fresh: BoardHandle,
)
    requires
        r.emoji@ == spec_skull(),
        !store.contains_key(msg_id),
    ensures
        r.count - me == threshold ==> spec_event_transition(
            store,
            Option::Some(channel),
            true,
            false,
            spec_resolve(seq![r], me, threshold),
            msg_id,
            true,
            fresh,
        ).contains_key(msg_id),
        r.count - me == threshold - 1 ==> !spec_event_transition(
            store,
            Option::Some(channel),
            true,
            false,
            spec_resolve(seq![r], me, threshold),
            msg_id,
            true,
            fresh,
        ).contains_key(msg_id),
{
    reveal_with_fuel(spec_resolve, 2);
    assert(seq![r][0] == r);
    assert(seq![r].drop_first() =~= Seq::<ReactionSummary>::empty());
    if r.count - me == threshold - 1 {
        assert(!crate::count::spec_qualifies(seq![r][0], me, threshold));
        assert(spec_resolve(seq![r], me, threshold) is None);
        assert(!store.remove(msg_id).contains_key(msg_id));
    }
}

/// A tracked message whose corrected count drops below the threshold loses
/// its board entry, and nothing else changes in the store.
pub proof fn lemma_below_threshold_entry_removed(
    store: Map<u64, BoardHandle>,
    channel: u64,
    msg_id: u64,
    post_ok: bool,
    fresh: BoardHandle,
)
    requires
        store.contains_key(msg_id),
    ensures
        ({
            let out = spec_event_transition(
                store,
                Option::Some(channel),
                true,
                false,
                Option::None,
                msg_id,
                post_ok,
                fresh,
            );
            out == store.remove(msg_id) && !out.contains_key(msg_id)
        }),
{
}

/// A tracked message whose corrected count changes but stays qualifying
/// keeps its entry, under the same board handle as before: the existing board
/// post is edited in place, never re-created.
pub proof fn lemma_qualifying_entry_stable(
    store: Map<u64, BoardHandle>,
    channel: u64,
    resolved_count: u64,
    msg_id: u64,
    post_ok: bool,
    fresh: BoardHandle,
)
    requires
        store.contains_key(msg_id),
    ensures
        ({
            let out = spec_event_transition(
                store,
                Option::Some(channel),
                true,
                false,
                Option::Some(resolved_count),
                msg_id,
                post_ok,
                fresh,
            );
            out == store && out[msg_id] == store[msg_id]
        }),
{
}

/// Idempotence: replaying one event twice in a row, with no intervening
/// state change and the same external outcome, leaves the store exactly as
/// one replay does — even though a repeated fresh post would have come back
/// under a different handle.
pub proof fn lemma_replay_idempotent(
    store: Map<u64, BoardHandle>,
    channel: Option<u64>,
    glyph_matches: bool,
    by_author: bool,
    resolved: Option<u64>,
    msg_id: u64,
    post_ok: bool,
    h1: BoardHandle,
    h2: BoardHandle,
)
    ensures
        ({
            let once = spec_event_transition(
                store,
                channel,
                glyph_matches,
                by_author,
                resolved,
                msg_id,
                post_ok,
                h1,
            );
            let twice = spec_event_transition(
                once,
                channel,
                glyph_matches,
                by_author,
                resolved,
                msg_id,
                post_ok,
                h2,
            );
            twice == once
        }),
{
    assert(store.remove(msg_id).remove(msg_id) =~= store.remove(msg_id));
}

} // verus!
