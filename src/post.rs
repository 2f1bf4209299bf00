use vstd::prelude::*;
use crate::error::{Error, ErrorKind};
use crate::slate_id::{uuid_value_of, SlateId};

verus! {

/// Where the posting of a finalized transaction stands.
#[derive(Clone, Copy, Debug, PartialEq, Eq, Structural)]
pub enum PostPhase {
    AwaitEntry,
    AwaitStoredTx,
    AwaitPost,
    AwaitCancel,
    Finished,
}

/// What the caller reports after performing the last action.
#[derive(Clone, Debug)]
pub enum PostEvent {
    /// Whether the log entry of the slate is confirmed; `None` where there is
    /// no entry with that slate id.
    Entry(Option<bool>),
    /// Whether the finalized transaction is stored.
    StoredTx(bool),
    /// The last action succeeded.
    Done,
    /// The last action failed with this error.
    Failed(Error),
}

/// What the caller performs next.
#[derive(Debug)]
pub enum PostAction {
    /// Read the log entry of the slate, refreshed from the node.
    RetrieveEntry { slate: SlateId },
    /// Read the stored transaction of the slate.
    GetStoredTx { slate: SlateId },
    /// Submit the stored transaction to the node.
    Post { slate: SlateId },
    /// Cancel the transaction whose submission failed.
    Cancel { slate: SlateId },
    Finish(Result<(), Error>),
}

/// Posts the finalized transaction of a slate, once.
///
/// A transaction that is already confirmed is refused before anything is sent
/// to the node, and one whose submission fails is cancelled so that its
/// outputs are released.
pub struct PostFlow {
    pub phase: PostPhase,
    pub slate: SlateId,
    /// The slate id as the caller wrote it.
    pub slate_text: String,
    /// Whether the transaction was handed to the node.
    pub submitted: bool,
    pub cancelled: bool,
    pub pending: Option<Error>,
}

/// The error for a slate id text that names no transaction.
pub open spec fn invalid_id(text: Seq<char>, e: Error) -> bool {
    match e.inner {
        ErrorKind::InvalidSlateId(m) => m@ == text,
        _ => false,
    }
}

/// The error for a transaction that is already confirmed.
pub open spec fn already_confirmed(text: Seq<char>, e: Error) -> bool {
    match e.inner {
        ErrorKind::AlreadyConfirmed(m) => m@ == text,
        _ => false,
    }
}

/// The text that refuses a post for want of transaction data.
pub open spec fn no_data_message(text: Seq<char>) -> Seq<char> {
    "Transaction with id "@ + text + " does not have transaction data. Not posting."@
}

/// How one step moves the flow from `pre` to `post` and what it asks for.
pub open spec fn post_step_spec(pre: PostFlow, event: PostEvent, post: PostFlow, r: PostAction) -> bool {
    let keeps = post.slate == pre.slate && post.slate_text@ == pre.slate_text@;
    let ends = post.phase == PostPhase::Finished && keeps && post.submitted == pre.submitted
        && post.cancelled == pre.cancelled;
    match (pre.phase, event) {
        (PostPhase::AwaitEntry, PostEvent::Entry(None)) => ends && (match r {
            PostAction::Finish(Err(e)) => invalid_id(pre.slate_text@, e),
            _ => false,
        }),
        (PostPhase::AwaitEntry, PostEvent::Entry(Some(true))) => ends && (match r {
            PostAction::Finish(Err(e)) => already_confirmed(pre.slate_text@, e),
            _ => false,
        }),
        (PostPhase::AwaitEntry, PostEvent::Entry(Some(false))) => post.phase
            == PostPhase::AwaitStoredTx && keeps && !post.submitted && r == (
        PostAction::GetStoredTx { slate: pre.slate }),
        (PostPhase::AwaitStoredTx, PostEvent::StoredTx(false)) => ends && (match r {
            PostAction::Finish(Err(e)) => match e.inner {
                ErrorKind::GenericError(m) => m@ == no_data_message(pre.slate_text@),
                _ => false,
            },
            _ => false,
        }),
        (PostPhase::AwaitStoredTx, PostEvent::StoredTx(true)) => post.phase == PostPhase::AwaitPost
            && keeps && post.submitted && r == (PostAction::Post { slate: pre.slate }),
        (PostPhase::AwaitPost, PostEvent::Done) => ends && r == PostAction::Finish(Ok(())),
        (PostPhase::AwaitPost, PostEvent::Failed(e)) => post.phase == PostPhase::AwaitCancel
            && keeps && post.pending == Some(e) && r == (PostAction::Cancel { slate: pre.slate }),
        (PostPhase::AwaitCancel, PostEvent::Done) => post.phase == PostPhase::Finished && keeps
            && post.cancelled && pre.pending.is_some() && r == PostAction::Finish(
            Err(pre.pending.unwrap()),
        ),
        (_, PostEvent::Failed(e)) => ends && r == PostAction::Finish(Err(e)),
        _ => ends && (match r {
            PostAction::Finish(Err(e)) => e.inner is GenericError,
            _ => false,
        }),
    }
}

impl PostFlow {
    pub open spec fn wf(&self) -> bool {
        &&& (self.phase == PostPhase::AwaitCancel ==> self.pending.is_some() && self.submitted)
        &&& (self.phase == PostPhase::AwaitPost ==> self.submitted)
        &&& ((self.phase == PostPhase::AwaitEntry || self.phase == PostPhase::AwaitStoredTx)
            ==> !self.submitted)
    }

    /// Starts posting the transaction of the slate whose id is `slate_text`.
    ///
    /// A text that is not a slate id ends the flow at once.
    pub fn start(slate_text: &str) -> (r: (PostFlow, PostAction))
        ensures
            r.0.wf(),
            !r.0.submitted,
            !r.0.cancelled,
            r.0.pending.is_none(),
            match uuid_value_of(slate_text@) {
                Some(v) => r.0.phase == PostPhase::AwaitEntry && r.0.slate == SlateId { value: v }
                    && r.0.slate_text@ == slate_text@ && r.1 == (PostAction::RetrieveEntry {
                    slate: SlateId { value: v },
                }),
                None => r.0.phase == PostPhase::Finished && match r.1 {
                    PostAction::Finish(Err(e)) => invalid_id(slate_text@, e),
                    _ => false,
                },
            },
    {
        let text = String::from_str(slate_text);
        match SlateId::parse(slate_text) {
            Some(id) => {
                let flow = PostFlow {
                    phase: PostPhase::AwaitEntry,
                    slate: id,
                    slate_text: text,
                    submitted: false,
                    cancelled: false,
                    pending: None,
                };
                (flow, PostAction::RetrieveEntry { slate: id })
            },
            None => {
                let flow = PostFlow {
                    phase: PostPhase::Finished,
                    slate: SlateId { value: 0 },
                    slate_text: String::from_str(slate_text),
                    submitted: false,
                    cancelled: false,
                    pending: None,
                };
                let e = Error::new(ErrorKind::InvalidSlateId(text));
                (flow, PostAction::Finish(Err(e)))
            },
        }
    }

    /// Takes the outcome of the last action and returns the next one.
    pub fn step(&mut self, event: PostEvent) -> (r: PostAction)
        requires
            old(self).wf(),
        ensures
            final(self).wf(),
            post_step_spec(*old(self), event, *final(self), r),
    {
        match (self.phase, event) {
            (PostPhase::AwaitEntry, PostEvent::Entry(None)) => {
                self.phase = PostPhase::Finished;
                let m = self.slate_text.clone();
                PostAction::Finish(Err(Error::new(ErrorKind::InvalidSlateId(m))))
            },
            (PostPhase::AwaitEntry, PostEvent::Entry(Some(true))) => {
                self.phase = PostPhase::Finished;
                let m = self.slate_text.clone();
                PostAction::Finish(Err(Error::new(ErrorKind::AlreadyConfirmed(m))))
            },
            (PostPhase::AwaitEntry, PostEvent::Entry(Some(false))) => {
                self.phase = PostPhase::AwaitStoredTx;
                PostAction::GetStoredTx { slate: self.slate }
            },
            (PostPhase::AwaitStoredTx, PostEvent::StoredTx(false)) => {
                self.phase = PostPhase::Finished;
                let m = String::from_str("Transaction with id ");
                let m = m.concat(self.slate_text.as_str());
                let m = m.concat(" does not have transaction data. Not posting.");
                PostAction::Finish(Err(Error::new(ErrorKind::GenericError(m))))
            },
            (PostPhase::AwaitStoredTx, PostEvent::StoredTx(true)) => {
                self.submitted = true;
                self.phase = PostPhase::AwaitPost;
                PostAction::Post { slate: self.slate }
            },
            (PostPhase::AwaitPost, PostEvent::Done) => {
                self.phase = PostPhase::Finished;
                PostAction::Finish(Ok(()))
            },
            (PostPhase::AwaitPost, PostEvent::Failed(e)) => {
                self.pending = Some(e);
                self.phase = PostPhase::AwaitCancel;
                PostAction::Cancel { slate: self.slate }
            },
            (PostPhase::AwaitCancel, PostEvent::Done) => {
                self.cancelled = true;
                self.phase = PostPhase::Finished;
                match self.pending.take() {
                    Some(e) => PostAction::Finish(Err(e)),
                    None => PostAction::Finish(Ok(())),
                }
            },
            (_, PostEvent::Failed(e)) => {
                self.phase = PostPhase::Finished;
                PostAction::Finish(Err(e))
            },
            _ => {
                self.phase = PostPhase::Finished;
                let m = String::from_str("unexpected event while posting");
                PostAction::Finish(Err(Error::new(ErrorKind::GenericError(m))))
            },
        }
    }
}

/// Posting a transaction whose entry is already confirmed fails with
/// `AlreadyConfirmed` and hands nothing to the node.
pub proof fn lemma_confirmed_not_posted(pre: PostFlow, post: PostFlow, r: PostAction)
    requires
        pre.wf(),
        pre.phase == PostPhase::AwaitEntry,
        post_step_spec(pre, PostEvent::Entry(Some(true)), post, r),
    ensures
        !post.submitted,
        post.phase == PostPhase::Finished,
        match r {
            PostAction::Finish(Err(e)) => e.inner is AlreadyConfirmed,
            _ => false,
        },
{
}

} // verus!
