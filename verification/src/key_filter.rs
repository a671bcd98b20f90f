//! One keypress run through the two input-method contexts.
//!
//! The embedding application owns the contexts and asks them to filter the
//! key; this module decides, step by step, which context is asked next, what
//! happens to the compose latch after an answer, and whether the input
//! method as a whole claimed the key:
//!
//! ```text
//! let mut run = KeyFilterRun::new(latch, is_compose_initiator(keysym));
//! while let Some(context) = run.next_context() {
//!     let handled = /* ask `context` to filter the key */;
//!     if let Some(latch_value) = run.record_answer(handled) { latch = latch_value; }
//! }
//! let im_handled = run.im_handled();
//! ```

use vstd::prelude::*;

use crate::routing::{
    decide_routing, spec_decide_routing, spec_latch_after_fallback_first,
    update_latch_after_fallback_first, ComposeRouting,
};

verus! {

/// One of the two input-method contexts of a pane.
#[derive(Clone, Copy, Debug, PartialEq, Eq, Structural)]
pub enum ImContextKind {
    /// The multi-context that hands keys to full input methods.
    Primary,
    /// The simple-compose fallback.
    Fallback,
}

/// The context asked first under a routing decision.
pub open spec fn first_context(routing: ComposeRouting) -> ImContextKind {
    match routing {
        ComposeRouting::FallbackFirst => ImContextKind::Fallback,
        ComposeRouting::PrimaryFirst => ImContextKind::Primary,
    }
}

/// The context asked second (if the first declines) under a routing decision.
pub open spec fn second_context(routing: ComposeRouting) -> ImContextKind {
    match routing {
        ComposeRouting::FallbackFirst => ImContextKind::Primary,
        ComposeRouting::PrimaryFirst => ImContextKind::Fallback,
    }
}

/// The mathematical value of a [`KeyFilterRun`]: the routing decision, whether
/// the key opens a compose sequence, and the answers received so far, in the
/// order the contexts were asked.
pub struct KeyFilterModel {
    pub routing: ComposeRouting,
    pub is_initiator: bool,
    pub answers: Seq<bool>,
}

impl KeyFilterModel {
    /// The run a keypress starts with.
    pub open spec fn start(fallback_composing: bool, is_initiator: bool) -> KeyFilterModel {
        KeyFilterModel {
            routing: spec_decide_routing(fallback_composing, is_initiator),
            is_initiator,
            answers: Seq::empty(),
        }
    }

    /// A run that the operations can reach: at most two answers, and a
    /// second one only after the first context declined.
    pub open spec fn wf(self) -> bool {
        &&& self.answers.len() <= 2
        &&& self.answers.len() == 2 ==> !self.answers[0]
    }

    /// The contexts asked so far, in order.
    pub open spec fn asked(self) -> Seq<ImContextKind> {
        seq![first_context(self.routing), second_context(self.routing)].take(
            self.answers.len() as int,
        )
    }

    /// Ask the first context; ask the second only if the first declined;
    /// then stop.
    pub open spec fn next_context(self) -> Option<ImContextKind> {
        if self.answers.len() == 0 {
            Some(first_context(self.routing))
        } else if self.answers.len() == 1 && !self.answers[0] {
            Some(second_context(self.routing))
        } else {
            None
        }
    }

    /// The run after the context asked next answered `handled`.
    pub open spec fn record(self, handled: bool) -> KeyFilterModel {
        KeyFilterModel {
            routing: self.routing,
            is_initiator: self.is_initiator,
            answers: self.answers.push(handled),
        }
    }

    /// The latch update due after the answer `handled` of the context asked
    /// next: only the fallback's answer when it was asked first moves it.
    pub open spec fn latch_update(self, handled: bool) -> Option<bool> {
        if self.answers.len() == 0 && self.routing == ComposeRouting::FallbackFirst {
            spec_latch_after_fallback_first(self.is_initiator, handled)
        } else {
            None
        }
    }

    /// The input method claimed the key when some context claimed it.
    pub open spec fn im_handled(self) -> bool {
        self.answers.contains(true)
    }

    /// The run after the context asked next answered as the given per-context
    /// answers say; a finished run stays as it is.
    pub open spec fn step(self, primary_answer: bool, fallback_answer: bool) -> KeyFilterModel {
        match self.next_context() {
            Some(ImContextKind::Primary) => self.record(primary_answer),
            Some(ImContextKind::Fallback) => self.record(fallback_answer),
            None => self,
        }
    }

    /// A whole run for a keypress, against contexts that would answer
    /// `primary_answer` and `fallback_answer`.
    pub open spec fn completed(
        fallback_composing: bool,
        is_initiator: bool,
        primary_answer: bool,
        fallback_answer: bool,
    ) -> KeyFilterModel {
        KeyFilterModel::start(fallback_composing, is_initiator).step(
            primary_answer,
            fallback_answer,
        ).step(primary_answer, fallback_answer)
    }
}

/// The decisions for one keypress filtered through the two contexts.
pub struct KeyFilterRun {
    routing: ComposeRouting,
    is_initiator: bool,
    first_answer: Option<bool>,
    second_answer: Option<bool>,
}

impl View for KeyFilterRun {
    type V = KeyFilterModel;

    closed spec fn view(&self) -> KeyFilterModel {
        KeyFilterModel {
            routing: self.routing,
            is_initiator: self.is_initiator,
            answers: match (self.first_answer, self.second_answer) {
                (None, _) => Seq::empty(),
                (Some(a), None) => seq![a],
                (Some(a), Some(b)) => seq![a, b],
            },
        }
    }
}

impl KeyFilterRun {
    /// Start the run for a keypress, given the compose latch and whether the
    /// key opens a compose sequence.
    pub fn new(fallback_composing: bool, is_initiator: bool) -> (r: KeyFilterRun)
        ensures
            r@ == KeyFilterModel::start(fallback_composing, is_initiator),
            r@.wf(),
    {
        KeyFilterRun {
            routing: decide_routing(fallback_composing, is_initiator),
            is_initiator,
            first_answer: None,
            second_answer: None,
        }
    }

    /// The routing decision of this run.
    pub fn routing(&self) -> (r: ComposeRouting)
        ensures
            r == self@.routing,
    {
        self.routing
    }

    /// The context to ask next, or `None` when the run is over.
    pub fn next_context(&self) -> (r: Option<ImContextKind>)
        ensures
            r == self@.next_context(),
    {
        let (first, second) = match self.routing {
            ComposeRouting::FallbackFirst => (ImContextKind::Fallback, ImContextKind::Primary),
            ComposeRouting::PrimaryFirst => (ImContextKind::Primary, ImContextKind::Fallback),
        };
        match (self.first_answer, self.second_answer) {
            (None, _) => Some(first),
            (Some(false), None) => Some(second),
            _ => None,
        }
    }

    /// Record the answer of the context that was asked next, and return the
    /// update due to the compose latch, if any.
    pub fn record_answer(&mut self, handled: bool) -> (latch: Option<bool>)
        requires
            old(self)@.next_context() is Some,
        ensures
            final(self)@ == old(self)@.record(handled),
            latch == old(self)@.latch_update(handled),
            old(self)@.wf() ==> final(self)@.wf(),
    {
        match self.first_answer {
            None => {
                self.first_answer = Some(handled);
                self.second_answer = None;
                proof {
                    assert(final(self)@.answers =~= old(self)@.answers.push(handled));
                }
                match self.routing {
                    ComposeRouting::FallbackFirst => {
                        update_latch_after_fallback_first(self.is_initiator, handled)
                    },
                    ComposeRouting::PrimaryFirst => None,
                }
            },
            Some(_) => {
                self.second_answer = Some(handled);
                proof {
                    assert(final(self)@.answers =~= old(self)@.answers.push(handled));
                }
                None
            },
        }
    }

    /// Whether some context claimed the key.
    pub fn im_handled(&self) -> (r: bool)
        ensures
            r == self@.im_handled(),
    {
        let r = match (self.first_answer, self.second_answer) {
            (Some(true), _) => true,
            (Some(false), Some(true)) => true,
            _ => false,
        };
        proof {
            if r {
                if self.first_answer == Some(true) {
                    assert(self@.answers[0]);
                } else {
                    assert(self@.answers[1]);
                }
            } else {
                assert forall|i: int| 0 <= i < self@.answers.len() implies !self@.answers[i] by {}
            }
        }
        r
    }
}

/// A run starts well formed and every recorded answer keeps it so.
pub proof fn lemma_runs_stay_well_formed(
    fallback_composing: bool,
    is_initiator: bool,
    m: KeyFilterModel,
    handled: bool,
)
    requires
        m.wf(),
        m.next_context() is Some,
    ensures
        KeyFilterModel::start(fallback_composing, is_initiator).wf(),
        m.record(handled).wf(),
{
}

/// No context is asked twice for one key, a run asks at most two contexts,
/// and once a context claimed the key no other is asked.
pub proof fn lemma_each_context_asked_at_most_once(m: KeyFilterModel)
    requires
        m.wf(),
    ensures
        m.asked().len() <= 2,
        m.asked().no_duplicates(),
        m.next_context() matches Some(c) ==> !m.asked().contains(c),
        m.im_handled() ==> m.next_context() is None,
        m.answers.len() == 2 ==> m.next_context() is None,
{
}

/// A whole keypress run against contexts that would answer `primary_answer`
/// and `fallback_answer`: it ends after at most two questions; the key is
/// claimed exactly when one of the contexts claims it; the routing decision
/// picks the context asked first; and the other context is asked only when
/// the first one declined.
pub proof fn lemma_completed_run(
    fallback_composing: bool,
    is_initiator: bool,
    primary_answer: bool,
    fallback_answer: bool,
)
    ensures
        ({
            let m = KeyFilterModel::completed(
                fallback_composing,
                is_initiator,
                primary_answer,
                fallback_answer,
            );
            let routing = spec_decide_routing(fallback_composing, is_initiator);
            &&& m.wf()
            &&& m.next_context() is None
            &&& m.im_handled() == (primary_answer || fallback_answer)
            &&& m.asked()[0] == first_context(routing)
            &&& m.asked().contains(ImContextKind::Fallback) == (routing
                == ComposeRouting::FallbackFirst || !primary_answer)
            &&& m.asked().contains(ImContextKind::Primary) == (routing
                == ComposeRouting::PrimaryFirst || !fallback_answer)
        }),
{
    let m = KeyFilterModel::completed(
        fallback_composing,
        is_initiator,
        primary_answer,
        fallback_answer,
    );
    if m.answers.len() == 2 {
        assert(m.answers =~= seq![m.answers[0], m.answers[1]]);
        assert(m.asked() =~= seq![first_context(m.routing), second_context(m.routing)]);
    } else {
        assert(m.answers =~= seq![m.answers[0]]);
        assert(m.asked() =~= seq![first_context(m.routing)]);
    }
    lemma_each_context_asked_at_most_once(m);
}

/// Only the fallback's answer moves the compose latch, and only when the
/// fallback was asked first.
pub proof fn lemma_only_fallback_first_moves_latch(m: KeyFilterModel, handled: bool)
    ensures
        m.latch_update(handled) is Some ==> {
            &&& m.routing == ComposeRouting::FallbackFirst
            &&& m.next_context() == Some(ImContextKind::Fallback)
        },
{
}

/// When the fallback consumes a compose initiator, the latch is armed and the
/// next keypress, whatever key it is, goes to the fallback first; when the
/// fallback declines a key routed to it, the latch is disarmed and the next
/// plain key goes to the primary context first.
pub proof fn lemma_latch_carries_compose_to_next_key(
    fallback_composing: bool,
    next_is_initiator: bool,
)
    ensures
        KeyFilterModel::start(fallback_composing, true).latch_update(true) == Some(true),
        KeyFilterModel::start(true, next_is_initiator).routing == ComposeRouting::FallbackFirst,
        ({
            let m = KeyFilterModel::start(fallback_composing, next_is_initiator);
            m.routing == ComposeRouting::FallbackFirst ==> m.latch_update(false) == Some(false)
        }),
        KeyFilterModel::start(false, false).routing == ComposeRouting::PrimaryFirst,
{
}

} // verus!
