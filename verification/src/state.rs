//! Per-pane input-method state machine.
//!
//! Models the lifetime of a single key event from press through filter,
//! commit and forward, so that the keypress handler can serialise signals
//! coming from either input-method context into one consistent stream for
//! the terminal surface.
//!
//! The phase (`Idle`, `NotComposing`, `Composing`) says where we are inside
//! a single keypress, not the input method's compose state. `composing`
//! tracks the latter: preedit start / change set it, preedit end clears it.

use vstd::prelude::*;

use crate::text::{is_c_compatible, text_is_c_compatible};

verus! {

/// Where the pane is inside the handling of one key event.
#[derive(Clone, Copy, Debug, Default, PartialEq, Eq, Structural)]
pub enum ImeKeyEventPhase {
    /// No key event is being handled.
    #[default]
    Idle,
    /// A key event is being handled and no preedit was active when it began.
    NotComposing,
    /// A key event is being handled while a preedit was active.
    Composing,
}

/// The per-pane input-method state.
#[derive(Clone, Debug, PartialEq, Eq)]
pub struct TerminalImeState {
    /// A preedit is active in one of the input-method contexts.
    pub composing: bool,
    /// Where we are inside the current key event.
    pub key_event_phase: ImeKeyEventPhase,
    /// Text committed during the current key event, held back so that it
    /// travels with the key event instead of being sent on its own.
    pub pending_key_text: Option<String>,
}

/// What the commit handler must do with committed text.
#[derive(Clone, Debug, PartialEq, Eq)]
pub enum ImeCommitOutcome {
    /// The text was buffered; it travels with the key event being handled.
    BufferForKeyEvent,
    /// Send this text to the terminal directly.
    CommitDirectly(String),
}

/// What the keypress handler does with a key event after filtering.
#[derive(Clone, Copy, Debug, PartialEq, Eq, Structural)]
pub enum ImeFilterOutcome {
    /// Hand the key event on to the terminal.
    ForwardToGhostty,
    /// The input method owns the key event; the terminal does not see it.
    ConsumeForIme,
}

/// The mathematical value of a [`TerminalImeState`]: its text as a sequence
/// of characters.
pub struct ImeStateModel {
    pub composing: bool,
    pub phase: ImeKeyEventPhase,
    pub pending: Option<Seq<char>>,
}

/// The mathematical value of an [`ImeCommitOutcome`].
pub enum CommitOutcomeModel {
    BufferForKeyEvent,
    CommitDirectly(Seq<char>),
}

pub open spec fn opt_text_model(t: Option<String>) -> Option<Seq<char>> {
    match t {
        Some(s) => Some(s@),
        None => None,
    }
}

impl View for TerminalImeState {
    type V = ImeStateModel;

    open spec fn view(&self) -> ImeStateModel {
        ImeStateModel {
            composing: self.composing,
            phase: self.key_event_phase,
            pending: opt_text_model(self.pending_key_text),
        }
    }
}

impl View for ImeCommitOutcome {
    type V = CommitOutcomeModel;

    open spec fn view(&self) -> CommitOutcomeModel {
        match self {
            ImeCommitOutcome::BufferForKeyEvent => CommitOutcomeModel::BufferForKeyEvent,
            ImeCommitOutcome::CommitDirectly(t) => CommitOutcomeModel::CommitDirectly(t@),
        }
    }
}

impl ImeStateModel {
    /// The invariant every operation keeps: text is only ever held back
    /// while a key event that began outside a preedit is being handled.
    pub open spec fn wf(self) -> bool {
        self.pending is Some ==> self.phase == ImeKeyEventPhase::NotComposing
    }

    /// The state a fresh pane starts in.
    pub open spec fn initial() -> ImeStateModel {
        ImeStateModel { composing: false, phase: ImeKeyEventPhase::Idle, pending: None }
    }

    /// A key event begins: its phase records whether a preedit is active,
    /// and nothing is held back yet.
    pub open spec fn begin(self) -> ImeStateModel {
        ImeStateModel {
            composing: self.composing,
            phase: if self.composing {
                ImeKeyEventPhase::Composing
            } else {
                ImeKeyEventPhase::NotComposing
            },
            pending: None,
        }
    }

    /// The key event ends: back to idle, with nothing held back.
    pub open spec fn finish(self) -> ImeStateModel {
        ImeStateModel { composing: self.composing, phase: ImeKeyEventPhase::Idle, pending: None }
    }

    /// The preedit flag is set to `composing`; nothing else changes.
    pub open spec fn set_composing(self, composing: bool) -> ImeStateModel {
        ImeStateModel { composing, phase: self.phase, pending: self.pending }
    }

    /// The state after text is committed.
    pub open spec fn commit(self, text: Seq<char>) -> ImeStateModel {
        match self.phase {
            ImeKeyEventPhase::NotComposing => ImeStateModel {
                composing: self.composing,
                phase: self.phase,
                pending: Some(text),
            },
            _ => ImeStateModel { composing: false, phase: self.phase, pending: self.pending },
        }
    }

    /// What the commit handler is told to do with committed text: buffer it
    /// while a key event that began outside a preedit is being handled, and
    /// send it directly otherwise.
    pub open spec fn commit_outcome(self, text: Seq<char>) -> CommitOutcomeModel {
        match self.phase {
            ImeKeyEventPhase::NotComposing => CommitOutcomeModel::BufferForKeyEvent,
            _ => CommitOutcomeModel::CommitDirectly(text),
        }
    }

    /// A key event the input method did not claim goes to the terminal. One
    /// it claimed goes to the terminal only when it produced held-back text
    /// and no preedit is in play; otherwise the input method keeps it.
    pub open spec fn filter_outcome(self, im_handled: bool) -> ImeFilterOutcome {
        if !im_handled {
            ImeFilterOutcome::ForwardToGhostty
        } else if self.composing || self.phase == ImeKeyEventPhase::Composing
            || self.pending is None {
            ImeFilterOutcome::ConsumeForIme
        } else {
            ImeFilterOutcome::ForwardToGhostty
        }
    }

    /// The text the key event carries: the held-back text when there is
    /// some (none at all when it cannot become a C string), else `fallback`.
    pub open spec fn event_text(self, fallback: Option<Seq<char>>) -> Option<Seq<char>> {
        match self.pending {
            Some(t) => if is_c_compatible(t) {
                Some(t)
            } else {
                None
            },
            None => fallback,
        }
    }

    /// The state after the held-back text was taken.
    pub open spec fn take_text(self) -> ImeStateModel {
        ImeStateModel { composing: self.composing, phase: self.phase, pending: None }
    }
}

impl Default for TerminalImeState {
    /// A fresh pane: no preedit, no key event, nothing held back.
    fn default() -> (s: TerminalImeState)
        ensures
            s@ == ImeStateModel::initial(),
            s@.wf(),
    {
        TerminalImeState {
            composing: false,
            key_event_phase: ImeKeyEventPhase::Idle,
            pending_key_text: None,
        }
    }
}

impl TerminalImeState {
    /// Start handling a key event.
    pub fn begin_key_event(&mut self)
        ensures
            final(self)@ == old(self)@.begin(),
            final(self).composing == old(self).composing,
            final(self).key_event_phase == (if old(self).composing {
                ImeKeyEventPhase::Composing
            } else {
                ImeKeyEventPhase::NotComposing
            }),
            final(self).pending_key_text is None,
            final(self)@.wf(),
    {
        self.key_event_phase = if self.composing {
            ImeKeyEventPhase::Composing
        } else {
            ImeKeyEventPhase::NotComposing
        };
        self.pending_key_text = None;
    }

    /// Finish handling a key event.
    pub fn finish_key_event(&mut self)
        ensures
            final(self)@ == old(self)@.finish(),
            final(self).composing == old(self).composing,
            final(self).key_event_phase == ImeKeyEventPhase::Idle,
            final(self).pending_key_text is None,
            final(self)@.wf(),
    {
        self.key_event_phase = ImeKeyEventPhase::Idle;
        self.pending_key_text = None;
    }

    /// A context started a preedit.
    pub fn preedit_started(&mut self)
        ensures
            final(self)@ == old(self)@.set_composing(true),
            final(self).composing,
            old(self)@.wf() ==> final(self)@.wf(),
    {
        self.composing = true;
    }

    /// A context changed its preedit; that too means a preedit is active.
    pub fn preedit_changed(&mut self)
        ensures
            final(self)@ == old(self)@.set_composing(true),
            final(self).composing,
            old(self)@.wf() ==> final(self)@.wf(),
    {
        self.composing = true;
    }

    /// A context ended its preedit.
    pub fn preedit_ended(&mut self)
        ensures
            final(self)@ == old(self)@.set_composing(false),
            !final(self).composing,
            old(self)@.wf() ==> final(self)@.wf(),
    {
        self.composing = false;
    }

    /// A context committed `text`. During a key event that began outside a
    /// preedit the text is held back for that event; otherwise it is to be
    /// sent directly and the preedit is over.
    pub fn commit_text(&mut self, text: &str) -> (r: ImeCommitOutcome)
        ensures
            final(self)@ == old(self)@.commit(text@),
            r@ == old(self)@.commit_outcome(text@),
            old(self).key_event_phase == ImeKeyEventPhase::NotComposing ==> {
                &&& r == ImeCommitOutcome::BufferForKeyEvent
                &&& final(self).pending_key_text matches Some(t) && t@ == text@
                &&& final(self).composing == old(self).composing
            },
            old(self).key_event_phase != ImeKeyEventPhase::NotComposing ==> {
                &&& r matches ImeCommitOutcome::CommitDirectly(t) && t@ == text@
                &&& !final(self).composing
                &&& final(self).pending_key_text == old(self).pending_key_text
            },
            final(self).key_event_phase == old(self).key_event_phase,
            old(self)@.wf() ==> final(self)@.wf(),
    {
        match self.key_event_phase {
            ImeKeyEventPhase::Idle | ImeKeyEventPhase::Composing => {
                self.composing = false;
                ImeCommitOutcome::CommitDirectly(text.to_owned())
            },
            ImeKeyEventPhase::NotComposing => {
                self.pending_key_text = Some(text.to_owned());
                ImeCommitOutcome::BufferForKeyEvent
            },
        }
    }

    /// Decide what happens to the key event, given whether an input-method
    /// context claimed it.
    pub fn filter_outcome(&self, im_handled: bool) -> (r: ImeFilterOutcome)
        ensures
            r == self@.filter_outcome(im_handled),
            !im_handled ==> r == ImeFilterOutcome::ForwardToGhostty,
            r == ImeFilterOutcome::ForwardToGhostty <==> (!im_handled || (!self.composing
                && self.key_event_phase != ImeKeyEventPhase::Composing
                && self.pending_key_text is Some)),
    {
        if !im_handled {
            return ImeFilterOutcome::ForwardToGhostty;
        }
        let phase_composing = match self.key_event_phase {
            ImeKeyEventPhase::Composing => true,
            _ => false,
        };
        if self.composing || phase_composing || self.pending_key_text.is_none() {
            ImeFilterOutcome::ConsumeForIme
        } else {
            ImeFilterOutcome::ForwardToGhostty
        }
    }

    /// Take the text the key event carries: the held-back text if any was
    /// committed during the event (or nothing at all when it holds a NUL and
    /// so cannot become a C string), otherwise the key's own `fallback` text.
    /// Nothing is held back afterwards.
    pub fn take_event_text(&mut self, fallback: Option<String>) -> (r: Option<String>)
        ensures
            final(self)@ == old(self)@.take_text(),
            opt_text_model(r) == old(self)@.event_text(opt_text_model(fallback)),
            old(self).pending_key_text is None ==> r == fallback,
            old(self).pending_key_text matches Some(t) ==> (if t@.contains('\0') {
                r is None
            } else {
                r matches Some(x) && x@ == t@
            }),
            final(self).pending_key_text is None,
            old(self)@.wf() ==> final(self)@.wf(),
    {
        match self.pending_key_text.take() {
            Some(text) => {
                if text_is_c_compatible(text.as_str()) {
                    Some(text)
                } else {
                    None
                }
            },
            None => fallback,
        }
    }
}

/// Every operation keeps the invariant: a fresh pane satisfies it, and so
/// does the state after beginning or finishing a key event, a preedit
/// change, a commit, or taking the event text.
pub proof fn lemma_operations_keep_wf(s: ImeStateModel, text: Seq<char>, composing: bool)
    requires
        s.wf(),
    ensures
        ImeStateModel::initial().wf(),
        s.begin().wf(),
        s.finish().wf(),
        s.set_composing(composing).wf(),
        s.commit(text).wf(),
        s.take_text().wf(),
{
}

/// A key event that an input-method context claims without committing any
/// text is consumed, whatever the state it began in: a dead key's bare glyph
/// never reaches the terminal.
pub proof fn lemma_claimed_key_without_commit_is_consumed(s: ImeStateModel)
    ensures
        s.begin().filter_outcome(true) == ImeFilterOutcome::ConsumeForIme,
{
}

/// Text committed during a key event that began outside a preedit is held
/// back for that event, the claimed event is then forwarded to the terminal,
/// and the held-back text is what the event carries (none at all when the
/// text holds a NUL); after it was taken the event carries its own text.
pub proof fn lemma_buffered_commit_travels_with_key_event(
    s: ImeStateModel,
    text: Seq<char>,
    fallback: Option<Seq<char>>,
)
    requires
        !s.composing,
    ensures
        s.begin().commit_outcome(text) == CommitOutcomeModel::BufferForKeyEvent,
        s.begin().commit(text).filter_outcome(true) == ImeFilterOutcome::ForwardToGhostty,
        s.begin().commit(text).event_text(fallback) == (if text.contains('\0') {
            None
        } else {
            Some(text)
        }),
        s.begin().commit(text).take_text().event_text(fallback) == fallback,
{
}

/// The text a key event carries depends only on what was held back and the
/// key's own text: held-back text is carried whenever it holds no NUL (and
/// no text at all when it does), whatever the preedit flag or phase; the
/// key's own text is carried only when nothing was held back.
pub proof fn lemma_event_text_is_held_back_text(
    s: ImeStateModel,
    composing: bool,
    phase: ImeKeyEventPhase,
    fallback: Option<Seq<char>>,
)
    ensures
        s.pending matches Some(t) ==> s.event_text(fallback) == (if t.contains('\0') {
            None
        } else {
            Some(t)
        }),
        s.pending is None ==> s.event_text(fallback) == fallback,
        (ImeStateModel { composing, phase, pending: s.pending }).event_text(fallback)
            == s.event_text(fallback),
{
}

/// Text committed outside a key event, or during a key event that began in
/// a preedit, goes to the terminal directly and ends the preedit.
pub proof fn lemma_direct_commit_ends_preedit(s: ImeStateModel, text: Seq<char>)
    requires
        s.phase != ImeKeyEventPhase::NotComposing,
    ensures
        s.commit_outcome(text) == CommitOutcomeModel::CommitDirectly(text),
        !s.commit(text).composing,
        s.commit(text).pending == s.pending,
{
}

/// A key event that begins during a preedit belongs to the input method: it
/// is consumed whenever a context claims it, and text committed during it is
/// sent directly.
pub proof fn lemma_key_event_during_preedit_is_consumed(s: ImeStateModel, text: Seq<char>)
    requires
        s.composing,
    ensures
        s.begin().phase == ImeKeyEventPhase::Composing,
        s.begin().filter_outcome(true) == ImeFilterOutcome::ConsumeForIme,
        s.begin().commit_outcome(text) == CommitOutcomeModel::CommitDirectly(text),
{
}

/// A key event the input method did not claim always reaches the terminal.
pub proof fn lemma_unclaimed_key_is_forwarded(s: ImeStateModel)
    ensures
        s.filter_outcome(false) == ImeFilterOutcome::ForwardToGhostty,
{
}

/// Finishing a key event returns to idle with nothing held back, and keeps
/// the preedit flag, whatever happened during the event.
pub proof fn lemma_finish_returns_to_idle(s: ImeStateModel, text: Seq<char>)
    ensures
        s.begin().commit(text).finish().phase == ImeKeyEventPhase::Idle,
        s.begin().commit(text).finish().pending is None,
        s.begin().finish() == s.finish(),
        s.finish().composing == s.composing,
{
}

} // verus!
