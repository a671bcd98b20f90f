//! Input-method routing and per-key-event state for a terminal pane that
//! runs two input-method contexts side by side: a primary context (which
//! hands keys to full IMEs) and a simple-compose fallback (which drives
//! dead keys and the Compose key through in-process compose tables).
//!
//! * [`routing`]    — which context sees a keypress first, and how the
//!   "compose in flight" latch moves afterwards.
//! * [`key_filter`] — one keypress run through both contexts, as a step
//!   machine that the embedding application drives.
//! * [`state`]      — the per-pane state machine that serialises preedit
//!   and commit signals into one stream for the terminal surface.
//! * [`surface`]    — how the terminal surface's preedit display changes.
//! * [`text`]       — text checks needed before text is handed to a C API.

pub mod key_filter;
pub mod routing;
pub mod state;
pub mod surface;
pub mod text;

pub use state::ImeFilterOutcome;


