//! Routing decisions for the per-pane input method.
//!
//! For every keypress one of the two contexts has to see the event first.
//! Dead keys and the Compose key (and the keystrokes that follow them while
//! a compose sequence is in flight) go to the simple-compose fallback first,
//! so that a compositor-side input method cannot claim them and silently
//! drop the compose; every other key goes to the primary context first.

use vstd::prelude::*;

verus! {

/// X11 keysym of the Compose key (`Multi_key`).
pub const MULTI_KEY_KEYSYM: u32 = 0xFF20;

/// First X11 dead-key keysym (`dead_grave`).
pub const DEAD_KEY_FIRST: u32 = 0xFE50;

/// Last keysym of the X11 dead-key block.
pub const DEAD_KEY_LAST: u32 = 0xFEFF;

/// A keysym opens a compose sequence: an X11 dead key (0xFE50–0xFEFF) or
/// the Compose key (0xFF20).
pub open spec fn spec_is_compose_initiator(keysym: u32) -> bool {
    (DEAD_KEY_FIRST <= keysym && keysym <= DEAD_KEY_LAST) || keysym == MULTI_KEY_KEYSYM
}

/// Returns true for keysyms that initiate a compose sequence: X11 dead keys
/// (`XK_dead_*`, 0xFE50–0xFEFF) and the Compose key (`XK_Multi_key`, 0xFF20).
pub fn is_compose_initiator(keysym: u32) -> (r: bool)
    ensures
        r == spec_is_compose_initiator(keysym),
        r == ((0xFE50 <= keysym && keysym <= 0xFEFF) || keysym == 0xFF20),
{
    (DEAD_KEY_FIRST <= keysym && keysym <= DEAD_KEY_LAST) || keysym == MULTI_KEY_KEYSYM
}

/// Exactly the X11 dead keys `XK_dead_grave` (0xFE50) through 0xFEFF and
/// `XK_Multi_key` (0xFF20) open a compose sequence; every other keysym is a
/// plain key.
pub proof fn lemma_compose_initiators_are_dead_keys_and_multi_key()
    ensures
        forall|k: u32|
            #[trigger] spec_is_compose_initiator(k) == ((0xFE50 <= k && k <= 0xFEFF) || k
                == 0xFF20),
{
}

/// Which input-method context should see a keypress first.
#[derive(Clone, Copy, Debug, PartialEq, Eq, Structural)]
pub enum ComposeRouting {
    /// Run the simple-compose fallback before the primary context. Used
    /// when the keysym opens a compose sequence or one is already in flight.
    FallbackFirst,
    /// Run the primary context first; the fallback only sees the event if
    /// the primary context does not claim it.
    PrimaryFirst,
}

/// The routing rule: the fallback goes first exactly when a compose is
/// pending or the key opens one.
pub open spec fn spec_decide_routing(fallback_composing: bool, is_initiator: bool) -> ComposeRouting {
    if fallback_composing || is_initiator {
        ComposeRouting::FallbackFirst
    } else {
        ComposeRouting::PrimaryFirst
    }
}

/// Decide which context sees a keypress first, given the compose latch and
/// whether the incoming keysym opens a compose sequence.
pub fn decide_routing(fallback_composing: bool, is_initiator: bool) -> (r: ComposeRouting)
    ensures
        r == spec_decide_routing(fallback_composing, is_initiator),
        r == ComposeRouting::FallbackFirst <==> (fallback_composing || is_initiator),
{
    if fallback_composing || is_initiator {
        ComposeRouting::FallbackFirst
    } else {
        ComposeRouting::PrimaryFirst
    }
}

/// The latch update after the fallback filtered a key that was routed to it
/// first: arm it when an initiator was consumed, disarm it when the fallback
/// declined, and leave it alone when a follow-up key was consumed (the
/// fallback's commit / preedit-end signal clears it then).
pub open spec fn spec_latch_after_fallback_first(is_initiator: bool, fallback_handled: bool) -> Option<bool> {
    if !fallback_handled {
        Some(false)
    } else if is_initiator {
        Some(true)
    } else {
        None
    }
}

/// What to do with the `fallback_composing` latch after the fallback context
/// has filtered a keypress that was routed to it first.
///
/// * `Some(true)`  — the fallback just consumed a compose initiator, so the
///   next keypress must also be routed through it.
/// * `Some(false)` — the fallback declined the event; the compose (if any)
///   is abandoned and routing returns to the primary context.
/// * `None`        — the fallback consumed a non-initiator; the outcome is
///   reported through the fallback's commit signal, which clears the latch.
pub fn update_latch_after_fallback_first(is_initiator: bool, fallback_handled: bool) -> (r: Option<bool>)
    ensures
        r == spec_latch_after_fallback_first(is_initiator, fallback_handled),
        (is_initiator && fallback_handled) ==> r == Some(true),
        !fallback_handled ==> r == Some(false),
        (!is_initiator && fallback_handled) ==> r is None,
{
    match (is_initiator, fallback_handled) {
        (true, true) => Some(true),
        (_, false) => Some(false),
        (false, true) => None,
    }
}

/// The "compose in flight" latch of a pane: set while the simple-compose
/// fallback holds a partial compose sequence, so that keypresses keep going
/// to the fallback first until the sequence ends.
#[derive(Clone, Copy, Debug, PartialEq, Eq, Structural)]
pub struct ComposeLatch {
    composing: bool,
}

impl View for ComposeLatch {
    type V = bool;

    closed spec fn view(&self) -> bool {
        self.composing
    }
}

impl ComposeLatch {
    /// A fresh pane has no compose in flight.
    pub fn new() -> (l: ComposeLatch)
        ensures
            !l@,
    {
        ComposeLatch { composing: false }
    }

    /// Whether a compose sequence is in flight in the fallback.
    pub fn is_composing(&self) -> (r: bool)
        ensures
            r == self@,
    {
        self.composing
    }

    /// Apply the update due after the fallback answered a key routed to it
    /// first (see [`update_latch_after_fallback_first`]): `Some(b)` sets the
    /// latch to `b`, `None` leaves it as it is.
    pub fn apply_fallback_answer(&mut self, update: Option<bool>)
        ensures
            final(self)@ == (match update {
                Some(b) => b,
                None => old(self)@,
            }),
    {
        if let Some(b) = update {
            self.composing = b;
        }
    }

    /// The fallback committed text: its compose sequence is over.
    pub fn fallback_committed(&mut self)
        ensures
            !final(self)@,
    {
        self.composing = false;
    }

    /// The fallback ended its preedit without a commit: the compose sequence
    /// is over.
    pub fn fallback_preedit_ended(&mut self)
        ensures
            !final(self)@,
    {
        self.composing = false;
    }

    /// Both contexts were reset: no compose is in flight any more.
    pub fn reset(&mut self)
        ensures
            !final(self)@,
    {
        self.composing = false;
    }
}

/// Once the fallback's compose sequence ended (by a commit, an ended
/// preedit or a reset), the next plain key goes to the primary context
/// first, and only a compose initiator goes to the fallback first.
pub proof fn lemma_ended_compose_returns_plain_keys_to_primary(latch: bool, is_initiator: bool)
    requires
        !latch,
    ensures
        spec_decide_routing(latch, is_initiator) == (if is_initiator {
            ComposeRouting::FallbackFirst
        } else {
            ComposeRouting::PrimaryFirst
        }),
{
}

/// While the latch is set every key, whatever it is, goes to the fallback
/// first; the latch is armed when the fallback consumes an initiator routed
/// to it first, and disarmed when the fallback declines a key.
pub proof fn lemma_armed_latch_keeps_keys_on_fallback(is_initiator: bool, fallback_handled: bool)
    ensures
        spec_decide_routing(true, is_initiator) == ComposeRouting::FallbackFirst,
        spec_latch_after_fallback_first(true, true) == Some(true),
        spec_latch_after_fallback_first(is_initiator, false) == Some(false),
{
}

} // verus!
