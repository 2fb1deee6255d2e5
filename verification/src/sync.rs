//! The fence protocol: prototype creation and gating, hand-off to a portable
//! handle, the blocking wait, and cleanup of unwaited handles.
//!
//! A [`SyncFencePrototype`] is a marker freshly injected on the executor
//! thread; it must be consumed, either promoted into a [`SyncFence`] or
//! waited on and destroyed in place.  A [`SyncFence`] is the portable handle
//! applications hold: `wait` takes it by value, so a second wait is
//! impossible at the type level, and an unwaited handle gives its identifier
//! up exactly once for asynchronous cleanup.

use vstd::prelude::*;
use crate::context::{CommandContext, DeviceOp, PollResult};

verus! {

/// Deadline handed to every blocking poll: one year, in nanoseconds.
///
/// The deadline is effectively unbounded on purpose: a short one falsely
/// times out while a debugger holds the device at a breakpoint, and a waiter
/// already intends to block until the work is done.
pub const WAIT_DEADLINE_NANOSECONDS: u64 = 365 * 24 * 3600 * 1000 * 1000 * 1000;

/// How a wait ended when the poll did not report success.
#[derive(Clone, Copy, PartialEq, Eq, Structural, Debug)]
pub enum WaitError {
    /// The poll's deadline elapsed.
    TimedOut,
    /// The backend failed to wait.
    WaitFailed,
}

/// The two poll outcomes that mean the marker was reached.
pub open spec fn is_success(r: PollResult) -> bool {
    r == PollResult::AlreadySignaled || r == PollResult::ConditionSatisfied
}

/// How a wait classifies each poll outcome: the two success codes return
/// normally, everything else surfaces as an explicit error.
pub open spec fn classify_spec(r: PollResult) -> Result<(), WaitError> {
    match r {
        PollResult::AlreadySignaled => Ok(()),
        PollResult::ConditionSatisfied => Ok(()),
        PollResult::TimedOut => Err(WaitError::TimedOut),
        PollResult::WaitFailed => Err(WaitError::WaitFailed),
    }
}

/// Classify a poll outcome, on the waiting thread, once the executor has
/// reported it back.
pub fn classify_wait(r: PollResult) -> (res: Result<(), WaitError>)
    ensures
        res == classify_spec(r),
        res is Ok <==> is_success(r),
{
    match r {
        PollResult::AlreadySignaled => Ok(()),
        PollResult::ConditionSatisfied => Ok(()),
        PollResult::TimedOut => Err(WaitError::TimedOut),
        PollResult::WaitFailed => Err(WaitError::WaitFailed),
    }
}

/// Prototype for a `SyncFence`: a marker just created, still conceptually
/// tied to the executor-thread call that created it.
///
/// The prototype must be consumed with either `into_sync_fence` or
/// `wait_and_drop`; letting one go with its identifier still present is a
/// protocol violation, not a recoverable condition.
#[must_use]
pub struct SyncFencePrototype {
    pub id: Option<u64>,
}

impl SyncFencePrototype {
    /// Build a prototype unconditionally, for a context statically known to
    /// support fences.  Calling it where support is absent is an environment
    /// contract violation, which the precondition rules out.  Runs on the
    /// executor thread; issues exactly one device creation call.
    pub fn new(ctxt: &mut CommandContext) -> (proto: SyncFencePrototype)
        requires
            old(ctxt).wf(),
            old(ctxt).supported(),
            old(ctxt).can_insert(),
        ensures
            final(ctxt).wf(),
            proto.id == Some(old(ctxt).next_id),
            final(ctxt).trace@ == old(ctxt).trace@.push(DeviceOp::Insert(old(ctxt).next_id)),
            final(ctxt).live@ == old(ctxt).live@.push(old(ctxt).next_id),
            final(ctxt).next_id == old(ctxt).next_id + 1,
            final(ctxt).reached == old(ctxt).reached,
            final(ctxt).pending_fault == old(ctxt).pending_fault,
            final(ctxt).version == old(ctxt).version,
            final(ctxt).extensions == old(ctxt).extensions,
    {
        let id = ctxt.insert_completion_marker();
        SyncFencePrototype { id: Some(id) }
    }

    /// Build a prototype if the backend supports fences.  Runs on the
    /// executor thread, where version and extension state are authoritative.
    ///
    /// On an unsupported backend this returns `None` and performs no device
    /// call: the context is left exactly as it was.  Otherwise it issues
    /// exactly one device creation call and returns a live prototype holding
    /// the fresh marker.
    pub fn new_if_supported(ctxt: &mut CommandContext) -> (r: Option<SyncFencePrototype>)
        requires
            old(ctxt).wf(),
            old(ctxt).can_insert(),
        ensures
            final(ctxt).wf(),
            !old(ctxt).supported() ==> r is None && *final(ctxt) == *old(ctxt),
            old(ctxt).supported() ==> {
                &&& r matches Some(proto) && proto.id == Some(old(ctxt).next_id)
                &&& final(ctxt).trace@ == old(ctxt).trace@.push(
                    DeviceOp::Insert(old(ctxt).next_id),
                )
                &&& final(ctxt).live@ == old(ctxt).live@.push(old(ctxt).next_id)
                &&& final(ctxt).next_id == old(ctxt).next_id + 1
                &&& final(ctxt).reached == old(ctxt).reached
                &&& final(ctxt).pending_fault == old(ctxt).pending_fault
                &&& final(ctxt).version == old(ctxt).version
                &&& final(ctxt).extensions == old(ctxt).extensions
            },
    {
        if !ctxt.fence_supported() {
            return None;
        }
        let id = ctxt.insert_completion_marker();
        Some(SyncFencePrototype { id: Some(id) })
    }

    /// Promote the prototype into a portable fence handle, consuming it.
    /// The handle takes over the identifier unchanged.
    pub fn into_sync_fence(self) -> (fence: SyncFence)
        ensures
            fence.id == self.id,
    {
        SyncFence { id: self.id }
    }

    /// Wait for this fence and destroy it, from within the command context.
    /// Consumes the prototype; issues exactly one poll (with the unbounded
    /// deadline, flushing first) and then exactly one destroy, in that order.
    /// The poll's outcome is not classified here: the marker is destroyed
    /// whatever it was.
    pub fn wait_and_drop(self, ctxt: &mut CommandContext)
        requires
            old(ctxt).wf(),
            self.id is Some,
            old(ctxt).is_live(self.id->0),
        ensures
            final(ctxt).wf(),
            final(ctxt).trace@ == old(ctxt).trace@
                .push(DeviceOp::Poll {
                    id: self.id->0,
                    flush: true,
                    deadline_nanoseconds: WAIT_DEADLINE_NANOSECONDS,
                })
                .push(DeviceOp::Destroy(self.id->0)),
            final(ctxt).live@.len() == old(ctxt).live@.len() - 1,
            forall|x: u64|
                #[trigger] final(ctxt).is_live(x)
                    <==> (old(ctxt).is_live(x) && x != self.id->0),
            final(ctxt).next_id == old(ctxt).next_id,
            final(ctxt).pending_fault is None,
            final(ctxt).reached == if old(ctxt).pending_fault is None && old(ctxt).reached
                <= self.id->0 { (self.id->0 + 1) as u64 } else { old(ctxt).reached },
            final(ctxt).version == old(ctxt).version,
            final(ctxt).extensions == old(ctxt).extensions,
    {
        let id = self.id.unwrap();
        ctxt.poll(id, true, WAIT_DEADLINE_NANOSECONDS);
        ctxt.destroy_marker(id);
    }
}

/// A portable fence handle: the object applications hold, clone-free and
/// safe to move across threads, ready to be waited on from anywhere.
pub struct SyncFence {
    pub id: Option<u64>,
}

impl SyncFence {
    /// The handle has given its identifier up (waited on, or stripped for
    /// cleanup).
    pub open spec fn consumed(self) -> bool {
        self.id is None
    }

    /// Build a fence handle unconditionally, for a context statically known
    /// to support fences; see [`SyncFencePrototype::new`].
    pub fn new(ctxt: &mut CommandContext) -> (fence: SyncFence)
        requires
            old(ctxt).wf(),
            old(ctxt).supported(),
            old(ctxt).can_insert(),
        ensures
            final(ctxt).wf(),
            fence.id == Some(old(ctxt).next_id),
            final(ctxt).trace@ == old(ctxt).trace@.push(DeviceOp::Insert(old(ctxt).next_id)),
            final(ctxt).live@ == old(ctxt).live@.push(old(ctxt).next_id),
            final(ctxt).next_id == old(ctxt).next_id + 1,
            final(ctxt).reached == old(ctxt).reached,
            final(ctxt).pending_fault == old(ctxt).pending_fault,
            final(ctxt).version == old(ctxt).version,
            final(ctxt).extensions == old(ctxt).extensions,
    {
        SyncFencePrototype::new(ctxt).into_sync_fence()
    }

    /// Build a fence handle if the backend supports fences, else `None`
    /// with no device call performed; see
    /// [`SyncFencePrototype::new_if_supported`].
    pub fn new_if_supported(ctxt: &mut CommandContext) -> (r: Option<SyncFence>)
        requires
            old(ctxt).wf(),
            old(ctxt).can_insert(),
        ensures
            final(ctxt).wf(),
            !old(ctxt).supported() ==> r is None && *final(ctxt) == *old(ctxt),
            old(ctxt).supported() ==> {
                &&& r matches Some(fence) && fence.id == Some(old(ctxt).next_id)
                &&& final(ctxt).trace@ == old(ctxt).trace@.push(
                    DeviceOp::Insert(old(ctxt).next_id),
                )
                &&& final(ctxt).live@ == old(ctxt).live@.push(old(ctxt).next_id)
                &&& final(ctxt).next_id == old(ctxt).next_id + 1
                &&& final(ctxt).reached == old(ctxt).reached
                &&& final(ctxt).pending_fault == old(ctxt).pending_fault
                &&& final(ctxt).version == old(ctxt).version
                &&& final(ctxt).extensions == old(ctxt).extensions
            },
    {
        match SyncFencePrototype::new_if_supported(ctxt) {
            Some(proto) => Some(proto.into_sync_fence()),
            None => None,
        }
    }

    /// Block until the marker behind this handle has been reached, consuming
    /// the handle: a second wait is impossible at the type level.
    ///
    /// Issues exactly one poll (with the unbounded deadline, flushing first)
    /// and then exactly one destroy, in that order, on the command context —
    /// the marker is destroyed whatever the poll reported.  The outcome is
    /// then classified: the two success codes return `Ok`, a timeout or
    /// backend fault surfaces as the matching [`WaitError`], never as
    /// success.
    pub fn wait(self, ctxt: &mut CommandContext) -> (res: Result<(), WaitError>)
        requires
            old(ctxt).wf(),
            self.id is Some,
            old(ctxt).is_live(self.id->0),
        ensures
            final(ctxt).wf(),
            res == classify_spec(old(ctxt).poll_outcome(self.id->0)),
            res is Ok <==> is_success(old(ctxt).poll_outcome(self.id->0)),
            final(ctxt).trace@ == old(ctxt).trace@
                .push(DeviceOp::Poll {
                    id: self.id->0,
                    flush: true,
                    deadline_nanoseconds: WAIT_DEADLINE_NANOSECONDS,
                })
                .push(DeviceOp::Destroy(self.id->0)),
            final(ctxt).live@.len() == old(ctxt).live@.len() - 1,
            forall|x: u64|
                #[trigger] final(ctxt).is_live(x)
                    <==> (old(ctxt).is_live(x) && x != self.id->0),
            final(ctxt).next_id == old(ctxt).next_id,
            final(ctxt).pending_fault is None,
            final(ctxt).reached == if old(ctxt).pending_fault is None && old(ctxt).reached
                <= self.id->0 { (self.id->0 + 1) as u64 } else { old(ctxt).reached },
            final(ctxt).version == old(ctxt).version,
            final(ctxt).extensions == old(ctxt).extensions,
    {
        let id = self.id.unwrap();
        let outcome = wait_service(ctxt, id);
        classify_wait(outcome)
    }

    /// Strip the identifier out of a handle that is going away unwaited, so
    /// that a fire-and-forget cleanup can destroy the marker.  The identifier
    /// leaves the handle exactly once: afterwards the handle is consumed and
    /// a later strip returns `None`.
    pub fn take_for_cleanup(&mut self) -> (r: Option<u64>)
        ensures
            final(self).consumed(),
            r == old(self).id,
    {
        self.id.take()
    }
}

/// The executor-side body of a wait: poll the marker with the unbounded
/// deadline (flushing queued commands first), then destroy it
/// unconditionally, and hand the poll's outcome back for classification on
/// the waiting thread.
pub fn wait_service(ctxt: &mut CommandContext, id: u64) -> (r: PollResult)
    requires
        old(ctxt).wf(),
        old(ctxt).is_live(id),
    ensures
        final(ctxt).wf(),
        r == old(ctxt).poll_outcome(id),
        final(ctxt).trace@ == old(ctxt).trace@
            .push(DeviceOp::Poll {
                id,
                flush: true,
                deadline_nanoseconds: WAIT_DEADLINE_NANOSECONDS,
            })
            .push(DeviceOp::Destroy(id)),
        final(ctxt).live@.len() == old(ctxt).live@.len() - 1,
        forall|x: u64| #[trigger] final(ctxt).is_live(x) <==> (old(ctxt).is_live(x) && x != id),
        final(ctxt).next_id == old(ctxt).next_id,
        final(ctxt).pending_fault is None,
        final(ctxt).reached == if old(ctxt).pending_fault is None && old(ctxt).reached <= id {
            (id + 1) as u64
        } else {
            old(ctxt).reached
        },
        final(ctxt).version == old(ctxt).version,
        final(ctxt).extensions == old(ctxt).extensions,
{
    let r = ctxt.poll(id, true, WAIT_DEADLINE_NANOSECONDS);
    ctxt.destroy_marker(id);
    r
}

/// The executor-side body of a dropped handle's cleanup: destroy the marker,
/// and nothing else — exactly one destroy, no poll.
pub fn cleanup_service(ctxt: &mut CommandContext, id: u64)
    requires
        old(ctxt).wf(),
        old(ctxt).is_live(id),
    ensures
        final(ctxt).wf(),
        final(ctxt).trace@ == old(ctxt).trace@.push(DeviceOp::Destroy(id)),
        final(ctxt).live@.len() == old(ctxt).live@.len() - 1,
        forall|x: u64| #[trigger] final(ctxt).is_live(x) <==> (old(ctxt).is_live(x) && x != id),
        final(ctxt).next_id == old(ctxt).next_id,
        final(ctxt).reached == old(ctxt).reached,
        final(ctxt).pending_fault == old(ctxt).pending_fault,
        final(ctxt).version == old(ctxt).version,
        final(ctxt).extensions == old(ctxt).extensions,
{
    ctxt.destroy_marker(id);
}

} // verus!
