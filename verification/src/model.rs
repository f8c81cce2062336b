//! Plain data carried between the surrounding binary and the verified logic:
//! the fields of a fetched message that the board logic reads, and the handle
//! kept for each mirrored board post.

use vstd::prelude::*;

verus! {

/// One per-emoji reaction summary of a fetched message: the glyph and the
/// total number of reactions the platform reports for it.
pub struct ReactionSummary {
    pub emoji: String,
    pub count: u64,
}

/// One attachment of a fetched message. Only image-shaped attachments (those
/// with a reported height) are mirrored onto the board embed.
pub struct Attachment {
    pub url: String,
    pub height: Option<u64>,
}

/// The fields of a fetched message that the board logic reads.
pub struct MessageData {
    pub id: u64,
    pub channel_id: u64,
    pub guild_id: Option<u64>,
    pub author_id: u64,
    pub author_name: String,
    pub author_avatar: Option<String>,
    pub content: String,
    pub attachments: Vec<Attachment>,
    pub reactions: Vec<ReactionSummary>,
}

/// Handle to a posted board message: enough to edit or delete it later.
#[derive(Clone, Copy, PartialEq, Eq, Structural, Debug)]
pub struct BoardHandle {
    pub channel_id: u64,
    pub message_id: u64,
}

} // verus!
