use grin_bridge::reconcile::{entry_step, Action, EntryStep, Event, Phase, Reconciler, TxEntry};

fn entry(id: u32) -> TxEntry {
    TxEntry {
        id,
        amount_debited: 1_000_000,
        amount_credited: 0,
        confirmed: false,
        cancelled: false,
        confirmation_ts: None,
        has_kernel_excess: false,
        kernel_lookup_min_height: None,
        ttl_cutoff_height: None,
    }
}

fn start(tip: u64, entries: Vec<TxEntry>) -> (Reconciler, Action) {
    let (mut rec, first) = Reconciler::new();
    assert!(matches!(first, Action::FetchTip));
    let a = rec.step(Event::Tip(Some(tip)));
    assert!(matches!(a, Action::RefreshOutputs { tip: t } if t == tip));
    let a = rec.step(Event::Refreshed(true));
    assert!(matches!(a, Action::LoadEntries));
    let a = rec.step(Event::Entries(entries));
    (rec, a)
}

#[test]
fn ttl_expiry_cancels_at_cutoff() {
    let tip = 100;
    let mut e = entry(7);
    e.ttl_cutoff_height = Some(tip + 5);
    e.has_kernel_excess = true;
    // Before the cutoff the kernel is looked up.
    assert_eq!(
        entry_step(&e, tip + 4),
        EntryStep::LookupKernel { min_height: None, max_height: tip + 4 }
    );
    let (mut rec, a) = start(tip + 5, vec![e]);
    assert!(matches!(a, Action::Cancel { index: 0, id: 7 }));
    let a = rec.step(Event::Cancelled);
    assert!(matches!(a, Action::Finish(Ok(true))));
    assert!(rec.entries[0].cancelled);
    assert!(!rec.entries[0].confirmed);
    assert_eq!(rec.phase, Phase::Finished);
}

#[test]
fn ttl_does_not_cancel_confirmed_entry() {
    let mut e = entry(1);
    e.ttl_cutoff_height = Some(10);
    e.confirmed = true;
    assert_eq!(entry_step(&e, 20), EntryStep::Skip);
    let (_, a) = start(20, vec![e]);
    assert!(matches!(a, Action::Finish(Ok(true))));
}

#[test]
fn kernel_found_confirms_once() {
    let mut e = entry(3);
    e.has_kernel_excess = true;
    e.kernel_lookup_min_height = Some(50);
    let (mut rec, a) = start(80, vec![e]);
    assert!(matches!(
        a,
        Action::LookupKernel { index: 0, min_height: Some(50), max_height: 80 }
    ));
    let a = rec.step(Event::KernelFound(1_600_000_000));
    match a {
        Action::SaveEntry { index, entry } => {
            assert_eq!(index, 0);
            assert!(entry.confirmed);
            assert_eq!(entry.confirmation_ts, Some(1_600_000_000));
        }
        other => panic!("unexpected action {:?}", other),
    }
    let a = rec.step(Event::Saved);
    assert!(matches!(a, Action::Finish(Ok(true))));
    let after = rec.entries.clone();
    assert!(after[0].confirmed);

    // A second pass at the same tip changes nothing.
    let (rec2, a) = start(80, after.clone());
    assert!(matches!(a, Action::Finish(Ok(true))));
    assert_eq!(rec2.entries, after);
}

#[test]
fn second_pass_same_tip_same_outcome() {
    let mut a1 = entry(1);
    a1.ttl_cutoff_height = Some(10);
    let mut a2 = entry(2);
    a2.has_kernel_excess = true;
    let mut a3 = entry(3);
    a3.has_kernel_excess = true;
    let (mut rec, a) = start(10, vec![a1, a2, a3]);
    assert!(matches!(a, Action::Cancel { index: 0, id: 1 }));
    let a = rec.step(Event::Cancelled);
    assert!(matches!(a, Action::LookupKernel { index: 1, .. }));
    let a = rec.step(Event::KernelFound(5));
    assert!(matches!(a, Action::SaveEntry { index: 1, .. }));
    let a = rec.step(Event::Saved);
    assert!(matches!(a, Action::LookupKernel { index: 2, .. }));
    let a = rec.step(Event::KernelAbsent);
    assert!(matches!(a, Action::Finish(Ok(true))));
    let once = rec.entries.clone();

    let (mut rec2, a) = start(10, once.clone());
    // Only the entry whose kernel is still unknown is looked at again.
    assert!(matches!(a, Action::LookupKernel { index: 2, .. }));
    let a = rec2.step(Event::KernelAbsent);
    assert!(matches!(a, Action::Finish(Ok(true))));
    assert_eq!(rec2.entries, once);
}

#[test]
fn unreachable_tip_aborts() {
    let (mut rec, _) = Reconciler::new();
    let a = rec.step(Event::Tip(None));
    assert!(matches!(a, Action::Finish(Ok(false))));
    assert_eq!(rec.phase, Phase::Finished);
}

#[test]
fn failed_refresh_aborts() {
    let (mut rec, _) = Reconciler::new();
    rec.step(Event::Tip(Some(3)));
    let a = rec.step(Event::Refreshed(false));
    assert!(matches!(a, Action::Finish(Ok(false))));
}

#[test]
fn failed_kernel_lookup_aborts_without_confirming() {
    let mut e = entry(9);
    e.has_kernel_excess = true;
    let (mut rec, _) = start(40, vec![e, e]);
    let a = rec.step(Event::KernelLookupFailed);
    assert!(matches!(a, Action::Finish(Ok(false))));
    assert!(!rec.entries[0].confirmed);
    assert!(!rec.entries[1].confirmed);
}

#[test]
fn self_transfer_is_not_looked_up() {
    let mut e = entry(4);
    e.amount_credited = 10;
    e.has_kernel_excess = true;
    assert_eq!(entry_step(&e, 5), EntryStep::Skip);
}

#[test]
fn entry_without_excess_is_skipped() {
    assert_eq!(entry_step(&entry(4), 5), EntryStep::Skip);
}

#[test]
fn cancelled_entry_is_left_alone() {
    let mut e = entry(4);
    e.cancelled = true;
    e.ttl_cutoff_height = Some(1);
    assert_eq!(entry_step(&e, 5), EntryStep::Skip);
}

#[test]
fn store_failure_is_reported() {
    let mut e = entry(5);
    e.ttl_cutoff_height = Some(1);
    let (mut rec, _) = start(5, vec![e]);
    let a = rec.step(Event::StoreFailed("disk full".to_string()));
    match a {
        Action::Finish(Err(err)) => assert_eq!(err.message(), "LibWallet Error: disk full"),
        other => panic!("unexpected action {:?}", other),
    }
}

#[test]
fn unexpected_event_ends_pass() {
    let (mut rec, _) = Reconciler::new();
    let a = rec.step(Event::Saved);
    assert!(matches!(a, Action::Finish(Err(_))));
    assert_eq!(rec.phase, Phase::Finished);
}
