//! What the terminal surface is told when an input-method context changes
//! its preedit.

use vstd::prelude::*;

use crate::text::{is_c_compatible, text_is_c_compatible};

verus! {

/// How the surface's preedit display changes.
#[derive(Clone, Copy, Debug, PartialEq, Eq, Structural)]
pub enum PreeditUpdate {
    /// The preedit is empty: clear the surface's preedit.
    Clear,
    /// Show the preedit text with the cursor at this character offset.
    Show { cursor: usize },
    /// The text cannot be passed as a C string: leave the surface as it is.
    Skip,
}

/// An empty preedit clears the display; any other is shown with the cursor
/// clamped at zero, unless it holds a NUL and cannot be passed at all.
pub open spec fn spec_preedit_update(preedit: Seq<char>, cursor_pos: i32) -> PreeditUpdate {
    if preedit.len() == 0 {
        PreeditUpdate::Clear
    } else if is_c_compatible(preedit) {
        PreeditUpdate::Show { cursor: if cursor_pos < 0 { 0 } else { cursor_pos as usize } }
    } else {
        PreeditUpdate::Skip
    }
}

/// Decide how to update the surface's preedit from a context's preedit
/// string and cursor position.
pub fn plan_preedit_update(preedit: &str, cursor_pos: i32) -> (r: PreeditUpdate)
    ensures
        r == spec_preedit_update(preedit@, cursor_pos),
        (r == PreeditUpdate::Clear) == (preedit@.len() == 0),
        (r == PreeditUpdate::Skip) == (preedit@.len() > 0 && preedit@.contains('\0')),
        (r is Show) == (preedit@.len() > 0 && !preedit@.contains('\0')),
        r matches PreeditUpdate::Show { cursor } ==> cursor as int == (if cursor_pos < 0 {
            0
        } else {
            cursor_pos as int
        }),
{
    if preedit.is_empty() {
        PreeditUpdate::Clear
    } else if text_is_c_compatible(preedit) {
        let cursor: usize = if cursor_pos < 0 {
            0
        } else {
            cursor_pos as usize
        };
        PreeditUpdate::Show { cursor }
    } else {
        PreeditUpdate::Skip
    }
}

/// Only an empty preedit clears the display; a non-empty one is skipped
/// exactly when it holds a NUL, and is shown otherwise, whatever its length
/// or characters, with the cursor at `cursor_pos` clamped at zero.
pub proof fn lemma_preedit_update_cases(preedit: Seq<char>, cursor_pos: i32)
    ensures
        (spec_preedit_update(preedit, cursor_pos) == PreeditUpdate::Clear) == (preedit.len()
            == 0),
        (spec_preedit_update(preedit, cursor_pos) == PreeditUpdate::Skip) == (preedit.len() > 0
            && preedit.contains('\0')),
        (preedit.len() > 0 && !preedit.contains('\0')) ==> (spec_preedit_update(
            preedit,
            cursor_pos,
        ) matches PreeditUpdate::Show { cursor } && cursor as int == (if cursor_pos < 0 {
            0
        } else {
            cursor_pos as int
        })),
{
}

} // verus!
