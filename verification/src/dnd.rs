//! The tab strip's drag-and-drop vocabulary: the payload type, the strip geometry, and
//! the record of a torn tab, kept so that a cancelled drag can put it back in place.

use vstd::prelude::*;

verus! {

/// The single type offered and accepted: what a real text drag carries.
pub const MIME: &'static str = "text/plain;charset=utf-8";

/// Width of one tab.
pub const TAB_W: i32 = 74;
/// Height of the tab strip.
pub const TAB_H: i32 = 18;
/// Top of the strip, below the window's title text.
pub const TAB_Y: i32 = 40;
/// Left edge of the first tab.
pub const TAB_X0: i32 = 6;

/// Which window a tab came from or went to.
#[derive(Clone, Copy, Debug, PartialEq, Eq, Structural)]
pub enum Origin {
    Main,
    /// An extra window, by its stable id.
    Win(u32),
}

/// A tab lifted out of a strip, remembered so a cancelled drag can put it back.
#[derive(Clone, Debug)]
pub struct TornTab {
    pub label: String,
    pub origin: Origin,
    /// The position it occupied, so a restore does not reorder the strip.
    pub index: usize,
}

} // verus!
