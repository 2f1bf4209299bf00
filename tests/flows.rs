use grin_bridge::error::{Error, ErrorKind};
use grin_bridge::post::{PostAction, PostEvent, PostFlow, PostPhase};
use grin_bridge::selection::{CHANGE_OUTPUTS, MAX_OUTPUTS};
use grin_bridge::send::{SendAction, SendEvent, SendFlow, SendPhase};
use grin_bridge::slate_id::SlateId;

const ID_TEXT: &str = "a1a2a3a4-b1b2-c1c2-d1d2-d3d4d5d6d7d8";
const ID: u128 = 0xa1a2a3a4b1b2c1c2d1d2d3d4d5d6d7d8;

fn locked_flow(deliver: bool) -> SendFlow {
    let (mut f, a) = SendFlow::new(1_000_000, 1, false, deliver);
    assert!(matches!(a, SendAction::NewSlate { amount: 1_000_000 }));
    let a = f.step(SendEvent::SlateCreated(SlateId { value: ID }));
    assert!(matches!(a, SendAction::FetchTip));
    let a = f.step(SendEvent::Tip(120));
    match a {
        SendAction::LockInputs { slate, height, minimum_confirmations, max_outputs, change_outputs, use_all } => {
            assert_eq!(slate.value, ID);
            assert_eq!(height, 120);
            assert_eq!(minimum_confirmations, 1);
            assert_eq!(max_outputs, MAX_OUTPUTS);
            assert_eq!(change_outputs, CHANGE_OUTPUTS);
            assert!(!use_all);
        }
        other => panic!("unexpected action {:?}", other),
    }
    assert!(!f.context_saved && !f.outputs_locked);
    let a = f.step(SendEvent::Done);
    assert!(matches!(a, SendAction::Compact { slate } if slate.value == ID));
    assert!(f.context_saved && f.outputs_locked);
    f
}

#[test]
fn create_locks_with_context() {
    let mut f = locked_flow(false);
    let a = f.step(SendEvent::Done);
    assert!(matches!(a, SendAction::Finish(Ok(id)) if id.value == ID));
    assert_eq!(f.phase, SendPhase::Finished);
    assert!(f.context_saved && f.outputs_locked && !f.cancelled);
}

#[test]
fn failed_lock_commits_nothing() {
    let (mut f, _) = SendFlow::new(5, 1, true, false);
    f.step(SendEvent::SlateCreated(SlateId { value: 1 }));
    let a = f.step(SendEvent::Tip(3));
    assert!(matches!(a, SendAction::LockInputs { use_all: true, .. }));
    let a = f.step(SendEvent::Failed(Error::new(ErrorKind::IO)));
    assert!(matches!(a, SendAction::Finish(Err(Error { inner: ErrorKind::IO }))));
    assert!(!f.context_saved && !f.outputs_locked);
}

#[test]
fn insufficient_funds_ends_before_anything_is_saved() {
    let (mut f, _) = SendFlow::new(5, 1, true, true);
    f.step(SendEvent::SlateCreated(SlateId { value: 1 }));
    f.step(SendEvent::Tip(3));
    let a = f.step(SendEvent::Failed(Error::new(ErrorKind::InsufficientFunds)));
    assert!(matches!(a, SendAction::Finish(Err(Error { inner: ErrorKind::InsufficientFunds }))));
    assert!(!f.context_saved && !f.outputs_locked);
}

#[test]
fn delivered_slate_is_finalized() {
    let mut f = locked_flow(true);
    let a = f.step(SendEvent::Done);
    assert!(matches!(a, SendAction::Deliver { slate } if slate.value == ID));
    let a = f.step(SendEvent::Done);
    assert!(matches!(a, SendAction::Finalize { slate } if slate.value == ID));
    let a = f.step(SendEvent::Done);
    assert!(matches!(a, SendAction::Finish(Ok(id)) if id.value == ID));
}

#[test]
fn failed_delivery_cancels() {
    let mut f = locked_flow(true);
    f.step(SendEvent::Done);
    let e = Error::new(ErrorKind::NetworkUnreachable("timeout".to_string()));
    let a = f.step(SendEvent::Failed(e));
    assert!(matches!(a, SendAction::Cancel { slate } if slate.value == ID));
    let a = f.step(SendEvent::Done);
    assert!(matches!(a, SendAction::Finish(Err(Error { inner: ErrorKind::NetworkUnreachable(_) }))));
    assert!(f.cancelled);
    assert!(!f.outputs_locked);
}

#[test]
fn failed_compaction_cancels() {
    let mut f = locked_flow(false);
    let a = f.step(SendEvent::Failed(Error::new(ErrorKind::Format)));
    assert!(matches!(a, SendAction::Cancel { .. }));
    let a = f.step(SendEvent::Done);
    assert!(matches!(a, SendAction::Finish(Err(Error { inner: ErrorKind::Format }))));
    assert!(f.cancelled && !f.outputs_locked);
}

#[test]
fn send_unexpected_event() {
    let (mut f, _) = SendFlow::new(5, 1, true, true);
    let a = f.step(SendEvent::Done);
    assert!(matches!(a, SendAction::Finish(Err(Error { inner: ErrorKind::GenericError(_) }))));
}

#[test]
fn post_confirmed_is_refused() {
    let (mut f, a) = PostFlow::start(ID_TEXT);
    assert!(matches!(a, PostAction::RetrieveEntry { slate } if slate.value == ID));
    let a = f.step(PostEvent::Entry(Some(true)));
    match a {
        PostAction::Finish(Err(e)) => {
            assert!(matches!(e.inner, ErrorKind::AlreadyConfirmed(_)));
            assert_eq!(
                e.message(),
                format!("Transaction with id {} is already confirmed. Not posting.", ID_TEXT)
            );
        }
        other => panic!("unexpected action {:?}", other),
    }
    assert!(!f.submitted);
    assert_eq!(f.phase, PostPhase::Finished);
}

#[test]
fn post_submits_stored_transaction() {
    let (mut f, _) = PostFlow::start(ID_TEXT);
    let a = f.step(PostEvent::Entry(Some(false)));
    assert!(matches!(a, PostAction::GetStoredTx { .. }));
    let a = f.step(PostEvent::StoredTx(true));
    assert!(matches!(a, PostAction::Post { slate } if slate.value == ID));
    assert!(f.submitted);
    let a = f.step(PostEvent::Done);
    assert!(matches!(a, PostAction::Finish(Ok(()))));
}

#[test]
fn post_without_data_is_refused() {
    let (mut f, _) = PostFlow::start(ID_TEXT);
    f.step(PostEvent::Entry(Some(false)));
    let a = f.step(PostEvent::StoredTx(false));
    match a {
        PostAction::Finish(Err(e)) => assert_eq!(
            e.message(),
            format!(
                "Generic error: Transaction with id {} does not have transaction data. Not posting.",
                ID_TEXT
            )
        ),
        other => panic!("unexpected action {:?}", other),
    }
    assert!(!f.submitted);
}

#[test]
fn failed_post_cancels() {
    let (mut f, _) = PostFlow::start(ID_TEXT);
    f.step(PostEvent::Entry(Some(false)));
    f.step(PostEvent::StoredTx(true));
    let a = f.step(PostEvent::Failed(Error::new(ErrorKind::NetworkUnreachable("node".to_string()))));
    assert!(matches!(a, PostAction::Cancel { .. }));
    let a = f.step(PostEvent::Done);
    assert!(matches!(a, PostAction::Finish(Err(Error { inner: ErrorKind::NetworkUnreachable(_) }))));
    assert!(f.cancelled);
}

#[test]
fn post_invalid_id() {
    let (f, a) = PostFlow::start("not-an-id");
    assert!(matches!(a, PostAction::Finish(Err(Error { inner: ErrorKind::InvalidSlateId(_) }))));
    assert_eq!(f.phase, PostPhase::Finished);
}

#[test]
fn post_unknown_entry() {
    let (mut f, _) = PostFlow::start(ID_TEXT);
    let a = f.step(PostEvent::Entry(None));
    assert!(matches!(a, PostAction::Finish(Err(Error { inner: ErrorKind::InvalidSlateId(_) }))));
    assert!(!f.submitted);
}
