//! Skullboard core: reaction counting and board reconciliation.
//!
//! The library decides, from a reaction-change event and the fetched state of
//! the affected message, whether that message belongs on the board channel,
//! what the mirrored board post should look like, and how the in-memory map of
//! board entries must change. All network traffic is left to the surrounding
//! binary; every decision made here is verified.

pub mod board;
pub mod command;
pub mod config;
pub mod count;
pub mod model;
pub mod numfmt;
pub mod reconcile;
pub mod render;

use vstd::prelude::*;
use vstd::string::StringExecFns;

verus! {

/// The one reaction glyph that board eligibility is decided on.
pub open spec fn spec_skull() -> Seq<char> {
    "\u{1F480}"@
}

/// The distinct glyph the system itself posts onto each fresh board message
/// as a visual marker; never counted toward eligibility.
pub open spec fn spec_marker() -> Seq<char> {
    "\u{2620}\u{FE0F}"@
}

/// Executable access to the tracked glyph.
pub fn skull_glyph() -> (s: &'static str)
    ensures
        s@ == spec_skull(),
{
    "\u{1F480}"
}

/// Executable access to the marker glyph.
pub fn marker_glyph() -> (s: &'static str)
    ensures
        s@ == spec_marker(),
{
    "\u{2620}\u{FE0F}"
}

/// Was the triggering reaction the message author's own? Such an event is
/// discarded without re-evaluating the board; only the short-circuit is
/// decided here, the count correction is the count resolver's business.
pub fn triggered_by_author(user_id: Option<u64>, author_id: u64) -> (b: bool)
    ensures
        b == (user_id matches Some(u) && u == author_id),
{
    match user_id {
        Some(u) => u == author_id,
        None => false,
    }
}

/// Does a reaction-change notification concern the tracked glyph? Events on
/// any other emoji are discarded with no side effect.
pub fn is_tracked_emoji(emoji: &str) -> (b: bool)
    ensures
        b == (emoji@ == spec_skull()),
{
    let e: String = emoji.to_owned();
    let skull: String = String::from_str("\u{1F480}");
    e == skull
}

} // verus!
