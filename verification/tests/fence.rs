use sync_fence::context::{CommandContext, DeviceOp, Extensions, GlVersion, PollResult};
use sync_fence::sync::{
    cleanup_service, classify_wait, wait_service, SyncFence, SyncFencePrototype, WaitError,
    WAIT_DEADLINE_NANOSECONDS,
};

fn supported_context() -> CommandContext {
    CommandContext::new(GlVersion { major: 3, minor: 2 }, Extensions { gl_arb_sync: false })
}

fn unsupported_context() -> CommandContext {
    CommandContext::new(GlVersion { major: 3, minor: 1 }, Extensions { gl_arb_sync: false })
}

#[test]
fn unsupported_backend_creates_nothing() {
    let mut ctxt = unsupported_context();
    assert!(!ctxt.fence_supported());
    let fence = SyncFence::new_if_supported(&mut ctxt);
    assert!(fence.is_none());
    assert!(ctxt.trace.is_empty());
    assert!(ctxt.live.is_empty());
    assert_eq!(ctxt.next_id, 0);
}

#[test]
fn old_version_with_extension_is_supported() {
    let mut ctxt =
        CommandContext::new(GlVersion { major: 2, minor: 0 }, Extensions { gl_arb_sync: true });
    assert!(ctxt.fence_supported());
    let fence = SyncFence::new_if_supported(&mut ctxt);
    assert!(fence.is_some());
    assert_eq!(ctxt.trace, vec![DeviceOp::Insert(0)]);
}

#[test]
fn newer_major_version_is_supported() {
    let ctxt =
        CommandContext::new(GlVersion { major: 4, minor: 0 }, Extensions { gl_arb_sync: false });
    assert!(ctxt.fence_supported());
}

#[test]
fn supported_backend_creates_exactly_one_marker() {
    let mut ctxt = supported_context();
    let fence = SyncFence::new_if_supported(&mut ctxt).unwrap();
    assert_eq!(fence.id, Some(0));
    assert_eq!(ctxt.trace, vec![DeviceOp::Insert(0)]);
    assert_eq!(ctxt.live, vec![0]);
    assert_eq!(ctxt.next_id, 1);
}

#[test]
fn prototype_promotes_to_fence_with_same_identifier() {
    let mut ctxt = supported_context();
    let proto = SyncFencePrototype::new_if_supported(&mut ctxt).unwrap();
    assert_eq!(proto.id, Some(0));
    let fence = proto.into_sync_fence();
    assert_eq!(fence.id, Some(0));
    assert_eq!(ctxt.trace, vec![DeviceOp::Insert(0)]);
}

#[test]
fn unconditional_constructor_creates_one_marker() {
    let mut ctxt = supported_context();
    let fence = SyncFence::new(&mut ctxt);
    assert_eq!(fence.id, Some(0));
    assert_eq!(ctxt.trace, vec![DeviceOp::Insert(0)]);
}

#[test]
fn wait_polls_then_destroys_with_unbounded_deadline() {
    let mut ctxt = supported_context();
    let fence = SyncFence::new_if_supported(&mut ctxt).unwrap();
    let res = fence.wait(&mut ctxt);
    assert_eq!(res, Ok(()));
    assert_eq!(
        ctxt.trace,
        vec![
            DeviceOp::Insert(0),
            DeviceOp::Poll {
                id: 0,
                flush: true,
                deadline_nanoseconds: WAIT_DEADLINE_NANOSECONDS,
            },
            DeviceOp::Destroy(0),
        ],
    );
    assert!(ctxt.live.is_empty());
}

#[test]
fn deadline_is_one_year_of_nanoseconds() {
    assert_eq!(WAIT_DEADLINE_NANOSECONDS, 31_536_000_000_000_000);
}

#[test]
fn wait_on_already_signaled_marker_succeeds() {
    let mut ctxt = supported_context();
    let fence = SyncFence::new_if_supported(&mut ctxt).unwrap();
    ctxt.complete_pending();
    let res = fence.wait(&mut ctxt);
    assert_eq!(res, Ok(()));
    assert!(ctxt.live.is_empty());
}

#[test]
fn timed_out_poll_surfaces_as_failure_but_still_destroys() {
    let mut ctxt = supported_context();
    let fence = SyncFence::new_if_supported(&mut ctxt).unwrap();
    ctxt.force_poll_result(PollResult::TimedOut);
    let res = fence.wait(&mut ctxt);
    assert_eq!(res, Err(WaitError::TimedOut));
    assert_eq!(ctxt.trace.last(), Some(&DeviceOp::Destroy(0)));
    assert!(ctxt.live.is_empty());
}

#[test]
fn failed_poll_surfaces_as_failure_but_still_destroys() {
    let mut ctxt = supported_context();
    let fence = SyncFence::new_if_supported(&mut ctxt).unwrap();
    ctxt.force_poll_result(PollResult::WaitFailed);
    let res = fence.wait(&mut ctxt);
    assert_eq!(res, Err(WaitError::WaitFailed));
    assert_eq!(ctxt.trace.last(), Some(&DeviceOp::Destroy(0)));
    assert!(ctxt.live.is_empty());
}

#[test]
fn classification_maps_each_outcome() {
    assert_eq!(classify_wait(PollResult::AlreadySignaled), Ok(()));
    assert_eq!(classify_wait(PollResult::ConditionSatisfied), Ok(()));
    assert_eq!(classify_wait(PollResult::TimedOut), Err(WaitError::TimedOut));
    assert_eq!(classify_wait(PollResult::WaitFailed), Err(WaitError::WaitFailed));
}

#[test]
fn wait_service_reports_outcome_and_destroys() {
    let mut ctxt = supported_context();
    let fence = SyncFence::new_if_supported(&mut ctxt).unwrap();
    let id = fence.id.unwrap();
    let outcome = wait_service(&mut ctxt, id);
    assert_eq!(outcome, PollResult::ConditionSatisfied);
    assert_eq!(
        ctxt.trace,
        vec![
            DeviceOp::Insert(0),
            DeviceOp::Poll {
                id: 0,
                flush: true,
                deadline_nanoseconds: WAIT_DEADLINE_NANOSECONDS,
            },
            DeviceOp::Destroy(0),
        ],
    );
}

#[test]
fn prototype_wait_and_drop_polls_then_destroys() {
    let mut ctxt = supported_context();
    let proto = SyncFencePrototype::new_if_supported(&mut ctxt).unwrap();
    proto.wait_and_drop(&mut ctxt);
    assert_eq!(
        ctxt.trace,
        vec![
            DeviceOp::Insert(0),
            DeviceOp::Poll {
                id: 0,
                flush: true,
                deadline_nanoseconds: WAIT_DEADLINE_NANOSECONDS,
            },
            DeviceOp::Destroy(0),
        ],
    );
    assert!(ctxt.live.is_empty());
}

#[test]
fn unwaited_fence_gives_its_identifier_up_exactly_once() {
    let mut ctxt = supported_context();
    let mut fence = SyncFence::new_if_supported(&mut ctxt).unwrap();
    let first = fence.take_for_cleanup();
    assert_eq!(first, Some(0));
    let second = fence.take_for_cleanup();
    assert_eq!(second, None);
    cleanup_service(&mut ctxt, first.unwrap());
    assert_eq!(ctxt.trace, vec![DeviceOp::Insert(0), DeviceOp::Destroy(0)]);
    assert!(ctxt.live.is_empty());
}

#[test]
fn cleanup_only_destroys_its_own_marker() {
    let mut ctxt = supported_context();
    let mut first = SyncFence::new_if_supported(&mut ctxt).unwrap();
    let second = SyncFence::new_if_supported(&mut ctxt).unwrap();
    let id = first.take_for_cleanup().unwrap();
    cleanup_service(&mut ctxt, id);
    assert!(!ctxt.live.contains(&0));
    assert!(ctxt.live.contains(&1));
    let res = second.wait(&mut ctxt);
    assert_eq!(res, Ok(()));
    assert!(ctxt.live.is_empty());
}

#[test]
fn forced_outcome_decides_only_the_next_poll() {
    let mut ctxt = supported_context();
    let first = SyncFence::new_if_supported(&mut ctxt).unwrap();
    let second = SyncFence::new_if_supported(&mut ctxt).unwrap();
    ctxt.force_poll_result(PollResult::TimedOut);
    assert_eq!(first.wait(&mut ctxt), Err(WaitError::TimedOut));
    assert_eq!(second.wait(&mut ctxt), Ok(()));
}

#[test]
fn higher_minor_version_is_supported() {
    let ctxt =
        CommandContext::new(GlVersion { major: 3, minor: 3 }, Extensions { gl_arb_sync: false });
    assert!(ctxt.fence_supported());
}

#[test]
fn handle_created_by_one_party_can_be_waited_on_by_another() {
    // The creation step and the wait step are two distinct stages, as when
    // one thread creates the handle and hands it to another; both requests
    // are served, in order, by the one context, and the wait completes with
    // success once the poll reports a success code.
    let mut ctxt = supported_context();
    let created: Option<SyncFence> = SyncFence::new_if_supported(&mut ctxt);
    let handed_over = created.expect("a supported backend yields a handle");
    let res = handed_over.wait(&mut ctxt);
    assert_eq!(res, Ok(()));
    assert_eq!(ctxt.trace.len(), 3);
}
