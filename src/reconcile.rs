use vstd::prelude::*;
use crate::error::{Error, ErrorKind};

verus! {

/// What reconciliation reads and changes of one transaction log entry.
#[derive(Clone, Copy, Debug, PartialEq, Eq, Structural)]
pub struct TxEntry {
    pub id: u32,
    pub amount_debited: u64,
    pub amount_credited: u64,
    pub confirmed: bool,
    pub cancelled: bool,
    /// When the kernel was seen on chain, in seconds since the epoch.
    pub confirmation_ts: Option<i64>,
    pub has_kernel_excess: bool,
    pub kernel_lookup_min_height: Option<u64>,
    pub ttl_cutoff_height: Option<u64>,
}

/// What reconciliation does with one entry at a given chain tip.
#[derive(Clone, Copy, Debug, PartialEq, Eq, Structural)]
pub enum EntryStep {
    /// The entry outlived its time to live: cancel it and free its outputs.
    Cancel,
    /// Nothing to do for this entry.
    Skip,
    /// Ask the node for the entry's kernel between these heights.
    LookupKernel { min_height: Option<u64>, max_height: u64 },
}

/// The entry carries a cutoff height that the tip has reached.
pub open spec fn ttl_expired(e: TxEntry, tip: u64) -> bool {
    match e.ttl_cutoff_height {
        Some(h) => tip >= h,
        None => false,
    }
}

/// The entry both sends and receives funds.
pub open spec fn is_self_transfer(e: TxEntry) -> bool {
    e.amount_debited != 0 && e.amount_credited != 0
}

/// The step that reconciliation takes for an entry: settled entries are left
/// alone, an expired time to live cancels before any kernel lookup, self
/// transfers are not confirmed by kernel, and entries with a kernel excess
/// are looked up up to the tip.
pub open spec fn entry_step_spec(e: TxEntry, tip: u64) -> EntryStep {
    if e.cancelled || e.confirmed {
        EntryStep::Skip
    } else if ttl_expired(e, tip) {
        EntryStep::Cancel
    } else if is_self_transfer(e) {
        EntryStep::Skip
    } else if e.has_kernel_excess {
        EntryStep::LookupKernel { min_height: e.kernel_lookup_min_height, max_height: tip }
    } else {
        EntryStep::Skip
    }
}

/// The entry after one reconciliation at `tip`, where `answer` is the time at
/// which the node reported the kernel found, or `None` where it did not.
pub open spec fn entry_after(e: TxEntry, tip: u64, answer: Option<i64>) -> TxEntry {
    match entry_step_spec(e, tip) {
        EntryStep::Cancel => TxEntry { cancelled: true, ..e },
        EntryStep::Skip => e,
        EntryStep::LookupKernel { .. } => match answer {
            Some(ts) => TxEntry { confirmed: true, confirmation_ts: Some(ts), ..e },
            None => e,
        },
    }
}

/// All entries after one reconciliation at `tip` with the node's answers.
pub open spec fn reconciled(es: Seq<TxEntry>, tip: u64, answers: Seq<Option<i64>>) -> Seq<TxEntry> {
    Seq::new(es.len(), |i: int| entry_after(es[i], tip, answers[i]))
}

/// Decides what reconciliation does with one entry at the given tip.
pub fn entry_step(e: &TxEntry, tip: u64) -> (r: EntryStep)
    ensures
        r == entry_step_spec(*e, tip),
{
    if e.cancelled || e.confirmed {
        return EntryStep::Skip;
    }
    if let Some(h) = e.ttl_cutoff_height {
        if tip >= h {
            return EntryStep::Cancel;
        }
    }
    if e.amount_debited != 0 && e.amount_credited != 0 {
        EntryStep::Skip
    } else if e.has_kernel_excess {
        EntryStep::LookupKernel { min_height: e.kernel_lookup_min_height, max_height: tip }
    } else {
        EntryStep::Skip
    }
}

/// Reconciling an entry a second time at the same tip, with the same answer
/// from the node, changes nothing: a cancelled or confirmed entry is left alone.
pub proof fn lemma_entry_after_idempotent(e: TxEntry, tip: u64, answer: Option<i64>)
    ensures
        entry_after(entry_after(e, tip, answer), tip, answer) == entry_after(e, tip, answer),
        entry_after(e, tip, answer) != e ==> entry_step_spec(entry_after(e, tip, answer), tip)
            == EntryStep::Skip,
{
}

/// Two reconciliations in a row at one tip, with the node giving the same
/// answers, leave the same entries as one: no entry is cancelled or confirmed
/// twice.
pub proof fn lemma_reconcile_idempotent(es: Seq<TxEntry>, tip: u64, answers: Seq<Option<i64>>)
    requires
        answers.len() == es.len(),
    ensures
        reconciled(reconciled(es, tip, answers), tip, answers) == reconciled(es, tip, answers),
{
    let once = reconciled(es, tip, answers);
    assert forall|i: int| 0 <= i < es.len() implies #[trigger] reconciled(once, tip, answers)[i]
        == once[i] by {
        lemma_entry_after_idempotent(es[i], tip, answers[i]);
    }
    assert(reconciled(once, tip, answers) =~= once);
}

/// An unconfirmed, uncancelled entry whose time to live has run out at the
/// tip is cancelled by reconciliation, whatever the node answers, and is
/// never looked up.
pub proof fn lemma_ttl_cancels(e: TxEntry, h: u64, tip: u64, answer: Option<i64>)
    requires
        e.ttl_cutoff_height == Some(h),
        tip >= h,
        !e.confirmed,
        !e.cancelled,
    ensures
        entry_step_spec(e, tip) == EntryStep::Cancel,
        entry_after(e, tip, answer).cancelled,
        !entry_after(e, tip, answer).confirmed,
{
}

/// A confirmed entry is never changed by reconciliation.
pub proof fn lemma_confirmed_untouched(e: TxEntry, tip: u64, answer: Option<i64>)
    requires
        e.confirmed,
    ensures
        entry_after(e, tip, answer) == e,
{
}

} // verus!

verus! {

/// Where a reconciliation pass stands.
#[derive(Clone, Copy, Debug, PartialEq, Eq, Structural)]
pub enum Phase {
    AwaitTip,
    AwaitRefresh,
    AwaitEntries,
    AwaitCancel,
    AwaitKernel,
    AwaitSave,
    Finished,
}

/// What the caller reports after performing the last action.
#[derive(Clone, Debug)]
pub enum Event {
    /// The chain tip height, or `None` where the node could not be reached.
    Tip(Option<u64>),
    /// Whether refreshing the outputs against the tip reached the node.
    Refreshed(bool),
    /// The outstanding transaction log entries of the account.
    Entries(Vec<TxEntry>),
    /// The entry was cancelled and its outputs released.
    Cancelled,
    /// The node holds the kernel; the time at which that was seen.
    KernelFound(i64),
    /// The node does not hold the kernel in the range.
    KernelAbsent,
    /// The kernel lookup did not reach the node.
    KernelLookupFailed,
    /// The entry was saved.
    Saved,
    /// Writing to the wallet store failed, with its message.
    StoreFailed(String),
}

/// What the caller performs next.
#[derive(Debug)]
pub enum Action {
    FetchTip,
    RefreshOutputs { tip: u64 },
    LoadEntries,
    /// Cancel the entry with this id, releasing its locked outputs.
    Cancel { index: usize, id: u32 },
    LookupKernel { index: usize, min_height: Option<u64>, max_height: u64 },
    /// Persist this entry, now confirmed, in one batch.
    SaveEntry { index: usize, entry: TxEntry },
    /// The pass is over: `Ok(true)` where every entry was visited, `Ok(false)`
    /// where the node could not be reached.
    Finish(Result<bool, Error>),
}

/// The first index at or after `from` whose entry needs work at `tip`, or the
/// length where there is none.
pub open spec fn next_pending(es: Seq<TxEntry>, tip: u64, from: int) -> int
    decreases es.len() - from,
{
    if from >= es.len() {
        es.len() as int
    } else if entry_step_spec(es[from], tip) != EntryStep::Skip {
        from
    } else {
        next_pending(es, tip, from + 1)
    }
}

/// The action for the entry at `i`, or the end of the pass past the last one.
pub open spec fn action_at(es: Seq<TxEntry>, tip: u64, i: int) -> Action {
    if i >= es.len() {
        Action::Finish(Ok(true))
    } else {
        match entry_step_spec(es[i], tip) {
            EntryStep::LookupKernel { min_height, max_height } => Action::LookupKernel {
                index: i as usize,
                min_height,
                max_height,
            },
            _ => Action::Cancel { index: i as usize, id: es[i].id },
        }
    }
}

/// The phase that waits on the action at `i`.
pub open spec fn phase_at(es: Seq<TxEntry>, tip: u64, i: int) -> Phase {
    if i >= es.len() {
        Phase::Finished
    } else {
        match entry_step_spec(es[i], tip) {
            EntryStep::LookupKernel { .. } => Phase::AwaitKernel,
            _ => Phase::AwaitCancel,
        }
    }
}

proof fn lemma_next_pending_bounds(es: Seq<TxEntry>, tip: u64, from: int)
    requires
        0 <= from <= es.len(),
    ensures
        from <= next_pending(es, tip, from) <= es.len(),
        next_pending(es, tip, from) < es.len() ==> entry_step_spec(
            es[next_pending(es, tip, from)],
            tip,
        ) != EntryStep::Skip,
        forall|j: int|
            from <= j < next_pending(es, tip, from) ==> entry_step_spec(#[trigger] es[j], tip)
                == EntryStep::Skip,
    decreases es.len() - from,
{
    if from < es.len() && entry_step_spec(es[from], tip) == EntryStep::Skip {
        lemma_next_pending_bounds(es, tip, from + 1);
    }
}

/// One reconciliation pass of the wallet's transaction log against the chain.
///
/// The pass fetches the tip, has the outputs refreshed, loads the outstanding
/// entries and then visits them in order, cancelling expired ones and
/// confirming those whose kernel the node holds. It stops with `Ok(false)` as
/// soon as the node cannot be reached, before anything is marked confirmed on
/// partial information.
pub struct Reconciler {
    pub phase: Phase,
    pub tip: u64,
    pub entries: Vec<TxEntry>,
    /// Entries before this index are settled for this pass.
    pub done: usize,
    /// The entries as they were loaded.
    pub loaded: Ghost<Seq<TxEntry>>,
    /// The node's answer for each entry whose kernel was found.
    pub answers: Ghost<Seq<Option<i64>>>,
}

impl Reconciler {
    /// The entries before `done` hold their reconciled value, the others their
    /// loaded one, and the phase waits on the entry at `done`.
    pub open spec fn wf(&self) -> bool {
        let es = self.entries@;
        let n = es.len();
        &&& self.loaded@.len() == n
        &&& self.answers@.len() == n
        &&& self.done <= n
        &&& forall|j: int|
            0 <= j < self.done ==> #[trigger] es[j] == entry_after(
                self.loaded@[j],
                self.tip,
                self.answers@[j],
            )
        &&& forall|j: int| self.done <= j < n ==> #[trigger] es[j] == self.loaded@[j]
        &&& forall|j: int| self.done <= j < n ==> #[trigger] self.answers@[j] == None::<i64>
        &&& (self.phase == Phase::AwaitCancel ==> self.done < n && entry_step_spec(
            es[self.done as int],
            self.tip,
        ) == EntryStep::Cancel)
        &&& (self.phase == Phase::AwaitKernel ==> self.done < n && entry_step_spec(
            es[self.done as int],
            self.tip,
        ) is LookupKernel)
        &&& (self.phase == Phase::AwaitSave ==> self.done > 0)
        &&& ((self.phase == Phase::AwaitTip || self.phase == Phase::AwaitRefresh || self.phase
            == Phase::AwaitEntries) ==> n == 0 && self.done == 0)
    }

    /// The whole pass is reconciled: every entry holds its value after the pass.
    pub open spec fn complete(&self) -> bool {
        self.done == self.entries@.len() && self.entries@ == reconciled(
            self.loaded@,
            self.tip,
            self.answers@,
        )
    }

    /// A new pass, and its first action: fetch the chain tip.
    pub fn new() -> (r: (Reconciler, Action))
        ensures
            r.0.wf(),
            r.0.phase == Phase::AwaitTip,
            r.1 == Action::FetchTip,
    {
        let rec = Reconciler {
            phase: Phase::AwaitTip,
            tip: 0,
            entries: Vec::new(),
            done: 0,
            loaded: Ghost(Seq::empty()),
            answers: Ghost(Seq::empty()),
        };
        (rec, Action::FetchTip)
    }

    /// Moves `done` to the next entry that needs work and returns its action.
    fn advance(&mut self, from: usize) -> (r: Action)
        requires
            from <= old(self).entries@.len(),
            old(self).loaded@.len() == old(self).entries@.len(),
            old(self).answers@.len() == old(self).entries@.len(),
            forall|j: int|
                0 <= j < from ==> #[trigger] old(self).entries@[j] == entry_after(
                    old(self).loaded@[j],
                    old(self).tip,
                    old(self).answers@[j],
                ),
            forall|j: int|
                from <= j < old(self).entries@.len() ==> #[trigger] old(self).entries@[j]
                    == old(self).loaded@[j],
            forall|j: int|
                from <= j < old(self).entries@.len() ==> #[trigger] old(self).answers@[j]
                    == None::<i64>,
        ensures
            final(self).wf(),
            final(self).entries == old(self).entries,
            final(self).tip == old(self).tip,
            final(self).loaded == old(self).loaded,
            final(self).answers == old(self).answers,
            final(self).done == next_pending(old(self).entries@, old(self).tip, from as int),
            final(self).phase == phase_at(old(self).entries@, old(self).tip, final(self).done as int),
            r == action_at(old(self).entries@, old(self).tip, final(self).done as int),
            final(self).phase == Phase::Finished ==> final(self).complete(),
    {
        let ghost es = self.entries@;
        proof {
            lemma_next_pending_bounds(es, self.tip, from as int);
        }
        let n = self.entries.len();
        let mut i = from;
        let mut stop = false;
        while i < n && !stop
            invariant
                n == es.len(),
                self.entries@ == es,
                from <= i <= n,
                next_pending(es, self.tip, from as int) == next_pending(es, self.tip, i as int),
                stop ==> i < n && entry_step_spec(es[i as int], self.tip) != EntryStep::Skip,
            decreases (n - i) as int + (if stop { 0int } else { 1int }),
        {
            match entry_step(&self.entries[i], self.tip) {
                EntryStep::Skip => {
                    i = i + 1;
                },
                _ => {
                    stop = true;
                },
            }
        }
        proof {
            lemma_next_pending_bounds(es, self.tip, i as int);
        }
        self.done = i;
        assert forall|j: int| from <= j < i implies #[trigger] es[j] == entry_after(
            self.loaded@[j],
            self.tip,
            self.answers@[j],
        ) by {
            assert(entry_step_spec(es[j], self.tip) == EntryStep::Skip);
        }
        if i == n {
            self.phase = Phase::Finished;
            assert(self.entries@ =~= reconciled(self.loaded@, self.tip, self.answers@));
            Action::Finish(Ok(true))
        } else {
            match entry_step(&self.entries[i], self.tip) {
                EntryStep::LookupKernel { min_height, max_height } => {
                    self.phase = Phase::AwaitKernel;
                    Action::LookupKernel { index: i, min_height, max_height }
                },
                _ => {
                    self.phase = Phase::AwaitCancel;
                    Action::Cancel { index: i, id: self.entries[i].id }
                },
            }
        }
    }

    /// Ends the pass with the given outcome.
    fn finish(&mut self, outcome: Result<bool, Error>) -> (r: Action)
        requires
            old(self).wf(),
        ensures
            final(self).wf(),
            final(self).phase == Phase::Finished,
            final(self).entries == old(self).entries,
            final(self).done == old(self).done,
            final(self).tip == old(self).tip,
            final(self).loaded == old(self).loaded,
            final(self).answers == old(self).answers,
            r == Action::Finish(outcome),
    {
        self.phase = Phase::Finished;
        Action::Finish(outcome)
    }
}


/// The entry confirmed at `ts`.
pub open spec fn confirmed_at(e: TxEntry, ts: i64) -> TxEntry {
    TxEntry { confirmed: true, confirmation_ts: Some(ts), ..e }
}

/// The entry cancelled.
pub open spec fn cancelled(e: TxEntry) -> TxEntry {
    TxEntry { cancelled: true, ..e }
}

/// How one step of a pass moves from `pre` to `post` and what it asks for.
pub open spec fn step_spec(pre: Reconciler, event: Event, post: Reconciler, r: Action) -> bool {
    let d = pre.done as int;
    let es = pre.entries@;
    let moves_on = |es2: Seq<TxEntry>, from: int|
        post.entries@ == es2 && post.done == next_pending(es2, pre.tip, from) && post.phase
            == phase_at(es2, pre.tip, post.done as int) && r == action_at(
            es2,
            pre.tip,
            post.done as int,
        );
    let stops = |outcome: Result<bool, Error>|
        post.phase == Phase::Finished && post.entries == pre.entries && r == Action::Finish(
            outcome,
        );
    match event {
        Event::Tip(Some(h)) if pre.phase == Phase::AwaitTip => post.phase == Phase::AwaitRefresh
            && post.tip == h && r == (Action::RefreshOutputs { tip: h }),
        Event::Tip(None) if pre.phase == Phase::AwaitTip => stops(Ok(false)),
        Event::Refreshed(true) if pre.phase == Phase::AwaitRefresh => post.phase
            == Phase::AwaitEntries && post.tip == pre.tip && r == Action::LoadEntries,
        Event::Refreshed(false) if pre.phase == Phase::AwaitRefresh => stops(Ok(false)),
        Event::Entries(v) if pre.phase == Phase::AwaitEntries => post.tip == pre.tip
            && post.loaded@ == v@ && moves_on(v@, 0),
        Event::Cancelled if pre.phase == Phase::AwaitCancel => post.tip == pre.tip && moves_on(
            es.update(d, cancelled(es[d])),
            d + 1,
        ),
        Event::KernelFound(ts) if pre.phase == Phase::AwaitKernel => post.tip == pre.tip
            && post.phase == Phase::AwaitSave && post.entries@ == es.update(
            d,
            confirmed_at(es[d], ts),
        ) && post.done == pre.done + 1 && r == (Action::SaveEntry {
            index: pre.done,
            entry: confirmed_at(es[d], ts),
        }),
        Event::KernelAbsent if pre.phase == Phase::AwaitKernel => post.tip == pre.tip && moves_on(
            es,
            d + 1,
        ),
        Event::KernelLookupFailed if pre.phase == Phase::AwaitKernel => stops(Ok(false)),
        Event::Saved if pre.phase == Phase::AwaitSave => post.tip == pre.tip && moves_on(es, d),
        Event::StoreFailed(m) if pre.phase == Phase::AwaitCancel || pre.phase
            == Phase::AwaitSave => stops(Err(Error { inner: ErrorKind::LibWallet(m) })),
        _ => post.phase == Phase::Finished && post.entries == pre.entries && (match r {
            Action::Finish(Err(e)) => e.inner is GenericError,
            _ => false,
        }),
    }
}

impl Reconciler {
    /// Takes the outcome of the last action and returns the next one.
    ///
    /// An event that the current phase does not wait for ends the pass with a
    /// generic error.
    pub fn step(&mut self, event: Event) -> (r: Action)
        requires
            old(self).wf(),
        ensures
            final(self).wf(),
            step_spec(*old(self), event, *final(self), r),
            final(self).phase == Phase::Finished && r == Action::Finish(Ok(true))
                ==> final(self).complete(),
    {
        let d = self.done;
        match event {
            Event::Tip(Some(h)) if self.phase == Phase::AwaitTip => {
                self.tip = h;
                self.phase = Phase::AwaitRefresh;
                Action::RefreshOutputs { tip: h }
            },
            Event::Tip(None) if self.phase == Phase::AwaitTip => self.finish(Ok(false)),
            Event::Refreshed(true) if self.phase == Phase::AwaitRefresh => {
                self.phase = Phase::AwaitEntries;
                Action::LoadEntries
            },
            Event::Refreshed(false) if self.phase == Phase::AwaitRefresh => self.finish(Ok(false)),
            Event::Entries(v) if self.phase == Phase::AwaitEntries => {
                self.loaded = Ghost(v@);
                self.answers = Ghost(Seq::new(v@.len(), |i: int| None::<i64>));
                self.entries = v;
                self.advance(0)
            },
            Event::Cancelled if self.phase == Phase::AwaitCancel => {
                assert(d < self.entries.len());
                let mut e = self.entries[d];
                e.cancelled = true;
                self.entries.set(d, e);
                self.advance(d + 1)
            },
            Event::KernelFound(ts) if self.phase == Phase::AwaitKernel => {
                assert(d < self.entries.len());
                let mut e = self.entries[d];
                e.confirmed = true;
                e.confirmation_ts = Some(ts);
                self.entries.set(d, e);
                self.answers = Ghost(self.answers@.update(d as int, Some(ts)));
                self.done = d + 1;
                self.phase = Phase::AwaitSave;
                Action::SaveEntry { index: d, entry: e }
            },
            Event::KernelAbsent if self.phase == Phase::AwaitKernel => {
                assert(d < self.entries.len());
                self.advance(d + 1)
            },
            Event::KernelLookupFailed if self.phase == Phase::AwaitKernel => self.finish(Ok(false)),
            Event::Saved if self.phase == Phase::AwaitSave => self.advance(d),
            Event::StoreFailed(m) if self.phase == Phase::AwaitCancel || self.phase
                == Phase::AwaitSave => self.finish(Err(Error { inner: ErrorKind::LibWallet(m) })),
            _ => {
                let m = String::from_str("unexpected event in reconciliation");
                self.finish(Err(Error { inner: ErrorKind::GenericError(m) }))
            },
        }
    }
}

/// What a whole pass that ended with `Ok(true)` leaves: every entry whose
/// time to live ran out at the tip and that was neither confirmed nor
/// cancelled is cancelled and still unconfirmed; confirmed and cancelled
/// entries are unchanged; an entry whose kernel the node reported is
/// confirmed at the reported time; and a second pass at the same tip with the
/// same answers leaves every entry as it is.
pub proof fn lemma_complete_pass(rec: Reconciler)
    requires
        rec.wf(),
        rec.complete(),
    ensures
        forall|i: int|
            0 <= i < rec.loaded@.len() && ttl_expired(#[trigger] rec.loaded@[i], rec.tip)
                && !rec.loaded@[i].confirmed && !rec.loaded@[i].cancelled ==> rec.entries@[i].cancelled
                && !rec.entries@[i].confirmed,
        forall|i: int|
            0 <= i < rec.loaded@.len() && (#[trigger] rec.loaded@[i].confirmed
                || rec.loaded@[i].cancelled) ==> rec.entries@[i] == rec.loaded@[i],
        forall|i: int|
            0 <= i < rec.loaded@.len() && #[trigger] entry_step_spec(rec.loaded@[i], rec.tip)
                is LookupKernel && rec.answers@[i].is_some() ==> rec.entries@[i] == confirmed_at(
                rec.loaded@[i],
                rec.answers@[i].unwrap(),
            ),
        reconciled(rec.entries@, rec.tip, rec.answers@) == rec.entries@,
{
    lemma_reconcile_idempotent(rec.loaded@, rec.tip, rec.answers@);
}

} // verus!
