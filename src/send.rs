use vstd::prelude::*;
use crate::error::{Error, ErrorKind};
use crate::selection::{CHANGE_OUTPUTS, MAX_OUTPUTS};
use crate::slate_id::SlateId;

verus! {

/// Where the building of an outgoing slate stands.
#[derive(Clone, Copy, Debug, PartialEq, Eq, Structural)]
pub enum SendPhase {
    AwaitSlate,
    AwaitTip,
    AwaitLock,
    AwaitCompact,
    AwaitDelivery,
    AwaitFinalize,
    AwaitCancel,
    Finished,
}

/// What the caller reports after performing the last action.
#[derive(Clone, Debug)]
pub enum SendEvent {
    /// A new slate was allocated with this id.
    SlateCreated(SlateId),
    /// The chain tip height.
    Tip(u64),
    /// The last action succeeded.
    Done,
    /// The last action failed with this error.
    Failed(Error),
}

/// What the caller performs next, each under one acquisition of the wallet lock.
#[derive(Debug)]
pub enum SendAction {
    /// Allocate a slate for this amount.
    NewSlate { amount: u64 },
    FetchTip,
    /// As one unit: select coins with these settings, add them and the change
    /// output to the slate, persist the slate's private context and mark the
    /// selected outputs locked. Where any part fails, nothing of it stays
    /// committed.
    LockInputs {
        slate: SlateId,
        height: u64,
        minimum_confirmations: u64,
        max_outputs: usize,
        change_outputs: usize,
        use_all: bool,
    },
    /// Strip the slate of what the counterparty does not need.
    Compact { slate: SlateId },
    /// Hand the slate to the transport for the counterparty at the address.
    Deliver { slate: SlateId },
    /// Finalize the slate that the counterparty returned.
    Finalize { slate: SlateId },
    /// Cancel the transaction, releasing its locked outputs.
    Cancel { slate: SlateId },
    /// The flow is over, with the id of the locked slate or an error.
    Finish(Result<SlateId, Error>),
}

/// Builds, locks and optionally delivers an outgoing slate.
///
/// The private context and the output locks are committed together or not at
/// all, so that no output is ever locked without the context that recovers
/// it. Any failure once the outputs are locked cancels the transaction, so
/// that they do not stay locked.
pub struct SendFlow {
    pub phase: SendPhase,
    pub amount: u64,
    pub minimum_confirmations: u64,
    pub use_all: bool,
    /// Whether the locked slate is delivered to a counterparty.
    pub deliver: bool,
    pub slate: SlateId,
    pub height: u64,
    pub context_saved: bool,
    pub outputs_locked: bool,
    pub cancelled: bool,
    /// The error to report once the cancellation is done.
    pub pending: Option<Error>,
}

/// How one step moves the flow from `pre` to `post` and what it asks for.
///
/// The caller's settings never change; the slate id changes only when the
/// slate is created and the height only when the tip comes in.
pub open spec fn send_step_spec(pre: SendFlow, event: SendEvent, post: SendFlow, r: SendAction) -> bool {
    let commits_kept = post.context_saved == pre.context_saved && post.outputs_locked
        == pre.outputs_locked && post.cancelled == pre.cancelled;
    let unexpected = post.phase == SendPhase::Finished && commits_kept && (match r {
        SendAction::Finish(Err(e)) => e.inner is GenericError,
        _ => false,
    });
    &&& post.amount == pre.amount
    &&& post.minimum_confirmations == pre.minimum_confirmations
    &&& post.use_all == pre.use_all
    &&& post.deliver == pre.deliver
    &&& (!(pre.phase == SendPhase::AwaitSlate && event is SlateCreated) ==> post.slate == pre.slate)
    &&& (!(pre.phase == SendPhase::AwaitTip && event is Tip) ==> post.height == pre.height)
    &&& match (pre.phase, event) {
        (SendPhase::AwaitSlate, SendEvent::SlateCreated(id)) => post.phase == SendPhase::AwaitTip
            && post.slate == id && commits_kept && r == SendAction::FetchTip,
        (SendPhase::AwaitSlate, SendEvent::Failed(e)) => post.phase == SendPhase::Finished
            && commits_kept && r == SendAction::Finish(Err(e)),
        (SendPhase::AwaitSlate, _) => unexpected,
        (SendPhase::AwaitTip, SendEvent::Tip(h)) => post.phase == SendPhase::AwaitLock
            && post.height == h && commits_kept && r == (SendAction::LockInputs {
            slate: pre.slate,
            height: h,
            minimum_confirmations: pre.minimum_confirmations,
            max_outputs: MAX_OUTPUTS,
            change_outputs: CHANGE_OUTPUTS,
            use_all: pre.use_all,
        }),
        (SendPhase::AwaitTip, SendEvent::Failed(e)) => post.phase == SendPhase::Finished
            && commits_kept && r == SendAction::Finish(Err(e)),
        (SendPhase::AwaitTip, _) => unexpected,
        (SendPhase::AwaitLock, SendEvent::Done) => post.phase == SendPhase::AwaitCompact
            && post.context_saved && post.outputs_locked && !post.cancelled && r == (
        SendAction::Compact { slate: pre.slate }),
        (SendPhase::AwaitLock, SendEvent::Failed(e)) => post.phase == SendPhase::Finished
            && !post.context_saved && !post.outputs_locked && !post.cancelled && r
            == SendAction::Finish(Err(e)),
        (SendPhase::AwaitLock, _) => unexpected,
        (SendPhase::AwaitCompact, SendEvent::Done) => commits_kept && if pre.deliver {
            post.phase == SendPhase::AwaitDelivery && r == (SendAction::Deliver {
                slate: pre.slate,
            })
        } else {
            post.phase == SendPhase::Finished && r == SendAction::Finish(Ok(pre.slate))
        },
        (SendPhase::AwaitDelivery, SendEvent::Done) => post.phase == SendPhase::AwaitFinalize
            && commits_kept && r == (SendAction::Finalize { slate: pre.slate }),
        (SendPhase::AwaitFinalize, SendEvent::Done) => post.phase == SendPhase::Finished
            && commits_kept && r == SendAction::Finish(Ok(pre.slate)),
        (SendPhase::AwaitCompact, SendEvent::Failed(e))
        | (SendPhase::AwaitDelivery, SendEvent::Failed(e))
        | (SendPhase::AwaitFinalize, SendEvent::Failed(e)) => post.phase == SendPhase::AwaitCancel
            && commits_kept && post.pending == Some(e) && r == (SendAction::Cancel {
            slate: pre.slate,
        }),
        (SendPhase::AwaitCancel, SendEvent::Done) => post.phase == SendPhase::Finished
            && post.cancelled && post.context_saved && !post.outputs_locked && pre.pending.is_some()
            && r == SendAction::Finish(Err(pre.pending.unwrap())),
        (SendPhase::AwaitCancel, SendEvent::Failed(e)) => post.phase == SendPhase::Finished
            && commits_kept && r == SendAction::Finish(Err(e)),
        _ => unexpected,
    }
}

impl SendFlow {
    /// No output is locked without its private context, the two are
    /// committed together until a cancellation releases the outputs, and each
    /// phase holds what its steps have committed.
    pub open spec fn wf(&self) -> bool {
        &&& (self.outputs_locked ==> self.context_saved)
        &&& (!self.cancelled ==> self.context_saved == self.outputs_locked)
        &&& ((self.phase == SendPhase::AwaitSlate || self.phase == SendPhase::AwaitTip
            || self.phase == SendPhase::AwaitLock) ==> !self.context_saved && !self.cancelled)
        &&& ((self.phase == SendPhase::AwaitCompact || self.phase == SendPhase::AwaitDelivery
            || self.phase == SendPhase::AwaitFinalize || self.phase == SendPhase::AwaitCancel)
            ==> self.outputs_locked && !self.cancelled)
        &&& ((self.phase == SendPhase::AwaitDelivery || self.phase == SendPhase::AwaitFinalize)
            ==> self.deliver)
        &&& (self.phase == SendPhase::AwaitCancel ==> self.pending.is_some())
    }

    /// A flow for sending `amount`, and its first action.
    pub fn new(amount: u64, minimum_confirmations: u64, use_all: bool, deliver: bool) -> (r: (
        SendFlow,
        SendAction,
    ))
        ensures
            r.0.wf(),
            r.0.phase == SendPhase::AwaitSlate,
            r.0.amount == amount,
            r.0.minimum_confirmations == minimum_confirmations,
            r.0.use_all == use_all,
            r.0.deliver == deliver,
            !r.0.context_saved && !r.0.outputs_locked && !r.0.cancelled,
            r.0.pending.is_none(),
            r.1 == (SendAction::NewSlate { amount }),
    {
        let flow = SendFlow {
            phase: SendPhase::AwaitSlate,
            amount,
            minimum_confirmations,
            use_all,
            deliver,
            slate: SlateId { value: 0 },
            height: 0,
            context_saved: false,
            outputs_locked: false,
            cancelled: false,
            pending: None,
        };
        (flow, SendAction::NewSlate { amount })
    }

    fn unexpected(&mut self) -> (r: SendAction)
        ensures
            final(self).phase == SendPhase::Finished,
            final(self).amount == old(self).amount,
            final(self).minimum_confirmations == old(self).minimum_confirmations,
            final(self).use_all == old(self).use_all,
            final(self).deliver == old(self).deliver,
            final(self).slate == old(self).slate,
            final(self).height == old(self).height,
            final(self).context_saved == old(self).context_saved,
            final(self).outputs_locked == old(self).outputs_locked,
            final(self).cancelled == old(self).cancelled,
            final(self).pending == old(self).pending,
            match r {
                SendAction::Finish(Err(e)) => e.inner is GenericError,
                _ => false,
            },
    {
        self.phase = SendPhase::Finished;
        let m = String::from_str("unexpected event while sending");
        SendAction::Finish(Err(Error::new(ErrorKind::GenericError(m))))
    }

    /// Takes the outcome of the last action and returns the next one.
    pub fn step(&mut self, event: SendEvent) -> (r: SendAction)
        requires
            old(self).wf(),
        ensures
            final(self).wf(),
            send_step_spec(*old(self), event, *final(self), r),
    {
        match (self.phase, event) {
            (SendPhase::AwaitSlate, SendEvent::SlateCreated(id)) => {
                self.slate = id;
                self.phase = SendPhase::AwaitTip;
                SendAction::FetchTip
            },
            (SendPhase::AwaitSlate, SendEvent::Failed(e)) | (SendPhase::AwaitTip, SendEvent::Failed(e)) => {
                self.phase = SendPhase::Finished;
                SendAction::Finish(Err(e))
            },
            (SendPhase::AwaitTip, SendEvent::Tip(h)) => {
                self.height = h;
                self.phase = SendPhase::AwaitLock;
                SendAction::LockInputs {
                    slate: self.slate,
                    height: h,
                    minimum_confirmations: self.minimum_confirmations,
                    max_outputs: MAX_OUTPUTS,
                    change_outputs: CHANGE_OUTPUTS,
                    use_all: self.use_all,
                }
            },
            (SendPhase::AwaitLock, SendEvent::Done) => {
                self.context_saved = true;
                self.outputs_locked = true;
                self.phase = SendPhase::AwaitCompact;
                SendAction::Compact { slate: self.slate }
            },
            (SendPhase::AwaitLock, SendEvent::Failed(e)) => {
                self.phase = SendPhase::Finished;
                SendAction::Finish(Err(e))
            },
            (SendPhase::AwaitCompact, SendEvent::Done) => {
                if self.deliver {
                    self.phase = SendPhase::AwaitDelivery;
                    SendAction::Deliver { slate: self.slate }
                } else {
                    self.phase = SendPhase::Finished;
                    SendAction::Finish(Ok(self.slate))
                }
            },
            (SendPhase::AwaitDelivery, SendEvent::Done) => {
                self.phase = SendPhase::AwaitFinalize;
                SendAction::Finalize { slate: self.slate }
            },
            (SendPhase::AwaitFinalize, SendEvent::Done) => {
                self.phase = SendPhase::Finished;
                SendAction::Finish(Ok(self.slate))
            },
            (SendPhase::AwaitCompact, SendEvent::Failed(e))
            | (SendPhase::AwaitDelivery, SendEvent::Failed(e))
            | (SendPhase::AwaitFinalize, SendEvent::Failed(e)) => {
                self.pending = Some(e);
                self.phase = SendPhase::AwaitCancel;
                SendAction::Cancel { slate: self.slate }
            },
            (SendPhase::AwaitCancel, SendEvent::Done) => {
                self.cancelled = true;
                self.outputs_locked = false;
                self.phase = SendPhase::Finished;
                match self.pending.take() {
                    Some(e) => SendAction::Finish(Err(e)),
                    None => SendAction::Finish(Ok(self.slate)),
                }
            },
            (SendPhase::AwaitCancel, SendEvent::Failed(e)) => {
                self.phase = SendPhase::Finished;
                SendAction::Finish(Err(e))
            },
            _ => self.unexpected(),
        }
    }
}

/// In every state of a sending flow the private context and the output locks
/// are both committed or both absent, until a cancellation releases the
/// outputs; no output is ever locked without its context.
pub proof fn lemma_lock_all_or_nothing(flow: SendFlow)
    requires
        flow.wf(),
    ensures
        flow.outputs_locked ==> flow.context_saved,
        !flow.cancelled ==> (flow.context_saved <==> flow.outputs_locked),
{
}

/// A failed lock leaves nothing committed, and ends the flow with its error.
pub proof fn lemma_failed_lock_commits_nothing(pre: SendFlow, e: Error, post: SendFlow, r: SendAction)
    requires
        pre.wf(),
        pre.phase == SendPhase::AwaitLock,
        send_step_spec(pre, SendEvent::Failed(e), post, r),
    ensures
        !post.context_saved,
        !post.outputs_locked,
        post.phase == SendPhase::Finished,
        r == SendAction::Finish(Err(e)),
{
}

/// A flow made to deliver, once its outputs are locked and the slate
/// compacted, hands that slate to the transport; a failed delivery then
/// cancels the transaction and releases the outputs before the error is
/// reported.
pub proof fn lemma_failed_delivery_cancels(
    pre: SendFlow,
    s1: SendFlow,
    r1: SendAction,
    e: Error,
    s2: SendFlow,
    r2: SendAction,
    s3: SendFlow,
    r3: SendAction,
)
    requires
        pre.wf(),
        pre.deliver,
        pre.phase == SendPhase::AwaitCompact,
        send_step_spec(pre, SendEvent::Done, s1, r1),
        s1.wf(),
        send_step_spec(s1, SendEvent::Failed(e), s2, r2),
        s2.wf(),
        send_step_spec(s2, SendEvent::Done, s3, r3),
    ensures
        r1 == (SendAction::Deliver { slate: pre.slate }),
        r2 == (SendAction::Cancel { slate: pre.slate }),
        s3.cancelled,
        !s3.outputs_locked,
        r3 == SendAction::Finish(Err(e)),
{
}

} // verus!
