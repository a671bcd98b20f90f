use limux_ime::key_filter::{ImContextKind, KeyFilterRun};
use limux_ime::routing::ComposeRouting;

/// Drive a run against contexts that answer as given; returns the contexts
/// asked in order, the latch updates, and whether the key was claimed.
fn drive(
    latch: bool,
    is_initiator: bool,
    primary: bool,
    fallback: bool,
) -> (Vec<ImContextKind>, Vec<bool>, bool) {
    let mut run = KeyFilterRun::new(latch, is_initiator);
    let mut asked = Vec::new();
    let mut latch_updates = Vec::new();
    while let Some(context) = run.next_context() {
        asked.push(context);
        let handled = match context {
            ImContextKind::Primary => primary,
            ImContextKind::Fallback => fallback,
        };
        if let Some(l) = run.record_answer(handled) {
            latch_updates.push(l);
        }
    }
    (asked, latch_updates, run.im_handled())
}

#[test]
fn key_filter_plain_key_claimed_by_primary_skips_fallback() {
    let (asked, latch, handled) = drive(false, false, true, true);
    assert_eq!(asked, vec![ImContextKind::Primary]);
    assert!(latch.is_empty());
    assert!(handled);
}

#[test]
fn key_filter_plain_key_declined_by_primary_reaches_fallback() {
    let (asked, latch, handled) = drive(false, false, false, true);
    assert_eq!(asked, vec![ImContextKind::Primary, ImContextKind::Fallback]);
    assert!(latch.is_empty());
    assert!(handled);
    let (_, _, handled) = drive(false, false, false, false);
    assert!(!handled);
}

#[test]
fn key_filter_dead_key_consumed_by_fallback_arms_latch() {
    let (asked, latch, handled) = drive(false, true, true, true);
    assert_eq!(asked, vec![ImContextKind::Fallback]);
    assert_eq!(latch, vec![true]);
    assert!(handled);
}

#[test]
fn key_filter_dead_key_declined_by_fallback_disarms_latch_and_asks_primary() {
    let (asked, latch, handled) = drive(false, true, true, false);
    assert_eq!(asked, vec![ImContextKind::Fallback, ImContextKind::Primary]);
    assert_eq!(latch, vec![false]);
    assert!(handled);
}

#[test]
fn key_filter_follow_up_consumed_leaves_latch_alone() {
    let (asked, latch, handled) = drive(true, false, false, true);
    assert_eq!(asked, vec![ImContextKind::Fallback]);
    assert!(latch.is_empty());
    assert!(handled);
}

#[test]
fn key_filter_routing_follows_latch_and_initiator() {
    assert_eq!(KeyFilterRun::new(true, false).routing(), ComposeRouting::FallbackFirst);
    assert_eq!(KeyFilterRun::new(false, true).routing(), ComposeRouting::FallbackFirst);
    assert_eq!(KeyFilterRun::new(false, false).routing(), ComposeRouting::PrimaryFirst);
}

#[test]
fn key_filter_claimed_iff_some_context_claims() {
    for latch in [false, true] {
        for initiator in [false, true] {
            for primary in [false, true] {
                for fallback in [false, true] {
                    let (asked, _, handled) = drive(latch, initiator, primary, fallback);
                    assert_eq!(handled, primary || fallback);
                    assert!(asked.len() >= 1 && asked.len() <= 2);
                    if asked.len() == 2 {
                        assert_ne!(asked[0], asked[1]);
                    }
                }
            }
        }
    }
}

#[test]
fn key_filter_run_stops_after_second_answer() {
    let mut run = KeyFilterRun::new(false, false);
    assert_eq!(run.next_context(), Some(ImContextKind::Primary));
    assert_eq!(run.record_answer(false), None);
    assert_eq!(run.next_context(), Some(ImContextKind::Fallback));
    assert_eq!(run.record_answer(false), None);
    assert_eq!(run.next_context(), None);
    assert!(!run.im_handled());
}
