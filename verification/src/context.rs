//! Model of the backend command context.
//!
//! Only one thread (the executor) may talk to the device, so the context is
//! handed to the fence operations as an exclusive `&mut` borrow.  The model
//! keeps what the fence logic reads of the real device: the reported version
//! and extension list, the set of live completion markers, how far the command
//! stream has progressed, and a trace of every device entry point performed.
//! The trace is what the contracts use to state "exactly one creation call",
//! "poll, then destroy" and the like.

use vstd::prelude::*;

verus! {

/// Version reported by the backend, compared lexicographically.
#[derive(Clone, Copy, PartialEq, Eq, Structural)]
pub struct GlVersion {
    pub major: u32,
    pub minor: u32,
}

/// The extensions the backend advertises, restricted to the one the fence
/// logic reads.
#[derive(Clone, Copy, PartialEq, Eq, Structural)]
pub struct Extensions {
    pub gl_arb_sync: bool,
}

/// Outcome of polling a completion marker.
#[derive(Clone, Copy, PartialEq, Eq, Structural, Debug)]
pub enum PollResult {
    /// The marker was already signaled when the poll began.
    AlreadySignaled,
    /// The marker became signaled while the poll was blocking.
    ConditionSatisfied,
    /// The deadline elapsed before the marker was signaled.
    TimedOut,
    /// The backend failed to wait at all.
    WaitFailed,
}

/// One device entry point call, as recorded in the context's trace.
#[derive(Clone, Copy, PartialEq, Eq, Structural, Debug)]
pub enum DeviceOp {
    /// A completion marker was injected into the command stream.
    Insert(u64),
    /// A marker was polled, blocking up to the given deadline.
    Poll { id: u64, flush: bool, deadline_nanoseconds: u64 },
    /// A marker's device-side object was destroyed.
    Destroy(u64),
}

/// Fences need the backend at version 3.2, or the sync extension.
pub const MINIMUM_MAJOR: u32 = 3;

/// Minor part of the minimum version.
pub const MINIMUM_MINOR: u32 = 2;

/// Whether `v` is at least `major`.`minor`, lexicographically.
pub open spec fn version_at_least(v: GlVersion, major: u32, minor: u32) -> bool {
    v.major > major || (v.major == major && v.minor >= minor)
}

/// Whether a backend with this version and extension list supports fences.
pub open spec fn fence_supported_spec(version: GlVersion, extensions: Extensions) -> bool {
    version_at_least(version, MINIMUM_MAJOR, MINIMUM_MINOR) || extensions.gl_arb_sync
}

/// Number of `Insert(id)` entries in a trace.
pub open spec fn insert_count(trace: Seq<DeviceOp>, id: u64) -> nat
    decreases trace.len(),
{
    if trace.len() == 0 {
        0
    } else {
        insert_count(trace.drop_last(), id) + if trace.last() == DeviceOp::Insert(id) {
            1nat
        } else {
            0nat
        }
    }
}

/// Number of `Destroy(id)` entries in a trace.
pub open spec fn destroy_count(trace: Seq<DeviceOp>, id: u64) -> nat
    decreases trace.len(),
{
    if trace.len() == 0 {
        0
    } else {
        destroy_count(trace.drop_last(), id) + if trace.last() == DeviceOp::Destroy(id) {
            1nat
        } else {
            0nat
        }
    }
}

/// Appending one operation raises `insert_count` by one exactly for the
/// identifier it inserts.
pub proof fn lemma_insert_count_push(trace: Seq<DeviceOp>, op: DeviceOp, id: u64)
    ensures
        insert_count(trace.push(op), id) == insert_count(trace, id) + if op
            == DeviceOp::Insert(id) {
            1nat
        } else {
            0nat
        },
{
    assert(trace.push(op).drop_last() =~= trace);
    assert(trace.push(op).last() == op);
}

/// Appending one operation raises `destroy_count` by one exactly for the
/// identifier it destroys.
pub proof fn lemma_destroy_count_push(trace: Seq<DeviceOp>, op: DeviceOp, id: u64)
    ensures
        destroy_count(trace.push(op), id) == destroy_count(trace, id) + if op
            == DeviceOp::Destroy(id) {
            1nat
        } else {
            0nat
        },
{
    assert(trace.push(op).drop_last() =~= trace);
    assert(trace.push(op).last() == op);
}

/// Pushing onto a sequence makes exactly the pushed value newly contained.
proof fn lemma_contains_push(s: Seq<u64>, v: u64, x: u64)
    ensures
        s.push(v).contains(x) <==> (s.contains(x) || x == v),
{
    if s.contains(x) {
        let w = choose|w: int| 0 <= w < s.len() && s[w] == x;
        assert(s.push(v)[w] == x);
    }
    if x == v {
        assert(s.push(v)[s.len() as int] == x);
    }
    if s.push(v).contains(x) {
        let w = choose|w: int| 0 <= w < s.push(v).len() && s.push(v)[w] == x;
        if w < s.len() {
            assert(s[w] == x);
        }
    }
}

/// The executor-owned command context.
///
/// Markers are identified by the order of their insertion: `next_id` counts
/// insertions, `live` holds the identifiers inserted and not yet destroyed (in
/// insertion order, so strictly increasing), and `reached` is the command
/// stream's progress: every marker below it is signaled.  `pending_fault`,
/// when set, makes the next poll report that outcome instead of the modelled
/// state, standing for a device-side fault.  `trace` records every entry point
/// performed, oldest first.
pub struct CommandContext {
    pub version: GlVersion,
    pub extensions: Extensions,
    pub next_id: u64,
    pub live: Vec<u64>,
    pub reached: u64,
    pub pending_fault: Option<PollResult>,
    pub trace: Vec<DeviceOp>,
}

impl CommandContext {
    /// Well-formedness: live identifiers are strictly increasing, all below
    /// `next_id`, the stream cannot have progressed past what was issued, and
    /// the trace agrees with the state — every identifier ever numbered was
    /// inserted exactly once, and destroyed exactly once if and only if it is
    /// no longer live.
    pub open spec fn wf(self) -> bool {
        &&& forall|i: int, j: int|
            0 <= i < j < self.live@.len() ==> #[trigger] self.live@[i] < #[trigger] self.live@[j]
        &&& forall|i: int| 0 <= i < self.live@.len() ==> #[trigger] self.live@[i] < self.next_id
        &&& self.reached <= self.next_id
        &&& forall|id: u64|
            #[trigger] insert_count(self.trace@, id) == if id < self.next_id {
                1nat
            } else {
                0nat
            }
        &&& forall|id: u64|
            #[trigger] destroy_count(self.trace@, id) == if id < self.next_id
                && !self.live@.contains(id) {
                1nat
            } else {
                0nat
            }
    }

    /// Whether this backend supports fences.
    pub open spec fn supported(self) -> bool {
        fence_supported_spec(self.version, self.extensions)
    }

    /// A further marker can still be numbered.
    pub open spec fn can_insert(self) -> bool {
        self.next_id < u64::MAX
    }

    /// The marker `id` has been inserted and not yet destroyed.
    pub open spec fn is_live(self, id: u64) -> bool {
        self.live@.contains(id)
    }

    /// What polling `id` in this state reports.
    pub open spec fn poll_outcome(self, id: u64) -> PollResult {
        match self.pending_fault {
            Some(fault) => fault,
            None => if id < self.reached {
                PollResult::AlreadySignaled
            } else {
                PollResult::ConditionSatisfied
            },
        }
    }

    /// A fresh context for a backend with the given capabilities: no marker
    /// inserted yet, no fault pending, nothing traced.
    pub fn new(version: GlVersion, extensions: Extensions) -> (ctxt: CommandContext)
        ensures
            ctxt.wf(),
            ctxt.version == version,
            ctxt.extensions == extensions,
            ctxt.next_id == 0,
            ctxt.live@ == Seq::<u64>::empty(),
            ctxt.reached == 0,
            ctxt.pending_fault is None,
            ctxt.trace@ == Seq::<DeviceOp>::empty(),
    {
        CommandContext {
            version,
            extensions,
            next_id: 0,
            live: Vec::new(),
            reached: 0,
            pending_fault: None,
            trace: Vec::new(),
        }
    }

    /// Capability query: version at least the minimum, or the extension
    /// present.
    pub fn fence_supported(&self) -> (r: bool)
        ensures
            r == self.supported(),
    {
        self.version.major > MINIMUM_MAJOR
            || (self.version.major == MINIMUM_MAJOR && self.version.minor >= MINIMUM_MINOR)
            || self.extensions.gl_arb_sync
    }

    /// Device entry point: inject a completion marker into the command stream.
    /// Exactly one `Insert` is traced and the fresh identifier becomes live.
    pub fn insert_completion_marker(&mut self) -> (id: u64)
        requires
            old(self).wf(),
            old(self).can_insert(),
        ensures
            final(self).wf(),
            id == old(self).next_id,
            final(self).next_id == old(self).next_id + 1,
            final(self).live@ == old(self).live@.push(id),
            final(self).trace@ == old(self).trace@.push(DeviceOp::Insert(id)),
            final(self).version == old(self).version,
            final(self).extensions == old(self).extensions,
            final(self).reached == old(self).reached,
            final(self).pending_fault == old(self).pending_fault,
    {
        let ghost pre = *self;
        let id = self.next_id;
        self.next_id = self.next_id + 1;
        self.live.push(id);
        self.trace.push(DeviceOp::Insert(id));
        proof {
            assert forall|x: u64| #[trigger] insert_count(self.trace@, x) == if x < self.next_id {
                1nat
            } else {
                0nat
            } by {
                lemma_insert_count_push(pre.trace@, DeviceOp::Insert(id), x);
            }
            assert forall|x: u64| #[trigger] destroy_count(self.trace@, x) == if x < self.next_id
                && !self.live@.contains(x) {
                1nat
            } else {
                0nat
            } by {
                lemma_destroy_count_push(pre.trace@, DeviceOp::Insert(id), x);
                lemma_contains_push(pre.live@, id, x);
            }
        }
        id
    }

    /// Device entry point: block on the marker `id` up to the deadline,
    /// optionally flushing queued commands first.
    ///
    /// A pending fault, if any, decides the outcome and is consumed.
    /// Otherwise the marker reports `AlreadySignaled` when the stream had
    /// passed it before the poll, and `ConditionSatisfied` once the blocking
    /// poll has seen the stream reach it.  Exactly one `Poll` is traced; the
    /// marker stays live.
    pub fn poll(&mut self, id: u64, flush: bool, deadline_nanoseconds: u64) -> (r: PollResult)
        requires
            old(self).wf(),
            old(self).is_live(id),
        ensures
            final(self).wf(),
            r == old(self).poll_outcome(id),
            final(self).trace@ == old(self).trace@.push(
                DeviceOp::Poll { id, flush, deadline_nanoseconds },
            ),
            final(self).pending_fault is None,
            final(self).reached == if old(self).pending_fault is None
                && old(self).reached <= id { (id + 1) as u64 } else { old(self).reached },
            final(self).live@ == old(self).live@,
            final(self).next_id == old(self).next_id,
            final(self).version == old(self).version,
            final(self).extensions == old(self).extensions,
    {
        proof {
            // A live identifier was issued, so it lies below `next_id`.
            let i = choose|i: int| 0 <= i < self.live@.len() && self.live@[i] == id;
            assert(self.live@[i] < self.next_id);
        }
        let ghost pre = *self;
        self.trace.push(DeviceOp::Poll { id, flush, deadline_nanoseconds });
        proof {
            assert forall|x: u64| #[trigger] insert_count(self.trace@, x)
                == insert_count(pre.trace@, x) by {
                lemma_insert_count_push(pre.trace@, DeviceOp::Poll { id, flush, deadline_nanoseconds }, x);
            }
            assert forall|x: u64| #[trigger] destroy_count(self.trace@, x)
                == destroy_count(pre.trace@, x) by {
                lemma_destroy_count_push(pre.trace@, DeviceOp::Poll { id, flush, deadline_nanoseconds }, x);
            }
        }
        let r = match self.pending_fault.take() {
            Some(fault) => fault,
            None => {
                if id < self.reached {
                    PollResult::AlreadySignaled
                } else {
                    self.reached = id + 1;
                    PollResult::ConditionSatisfied
                }
            },
        };
        r
    }

    /// Device entry point: destroy the device-side object behind the live
    /// marker `id`.  Exactly one `Destroy` is traced; `id` stops being live
    /// and every other marker's liveness is unchanged.  Requiring liveness is
    /// what makes a second destruction of the same marker impossible.
    pub fn destroy_marker(&mut self, id: u64)
        requires
            old(self).wf(),
            old(self).is_live(id),
        ensures
            final(self).wf(),
            final(self).live@.len() == old(self).live@.len() - 1,
            forall|x: u64|
                #[trigger] final(self).live@.contains(x)
                    <==> (old(self).live@.contains(x) && x != id),
            final(self).trace@ == old(self).trace@.push(DeviceOp::Destroy(id)),
            final(self).next_id == old(self).next_id,
            final(self).reached == old(self).reached,
            final(self).pending_fault == old(self).pending_fault,
            final(self).version == old(self).version,
            final(self).extensions == old(self).extensions,
    {
        let ghost old_live = self.live@;
        let n = self.live.len();
        let mut i: usize = 0;
        while i < n && self.live[i] != id
            invariant
                n == self.live@.len(),
                i <= n,
                self.live@ == old_live,
                forall|j: int| 0 <= j < i ==> self.live@[j] != id,
                self.live@.contains(id),
            decreases n - i,
        {
            i = i + 1;
        }
        proof {
            if i == n {
                let w = choose|w: int| 0 <= w < self.live@.len() && self.live@[w] == id;
                assert(self.live@[w] != id);
            }
        }
        self.live.remove(i);
        self.trace.push(DeviceOp::Destroy(id));
        proof {
            assert forall|x: u64| #[trigger] self.live@.contains(x)
                implies (old_live.contains(x) && x != id) by {
                let w = choose|w: int| 0 <= w < self.live@.len() && self.live@[w] == x;
                if w < i {
                    assert(old_live[w] == x);
                } else {
                    assert(old_live[w + 1] == x);
                }
                assert(old_live[i as int] == id);
            }
            assert forall|x: u64| old_live.contains(x) && x != id
                implies #[trigger] self.live@.contains(x) by {
                let w = choose|w: int| 0 <= w < old_live.len() && old_live[w] == x;
                if w < i {
                    assert(self.live@[w] == x);
                } else {
                    assert(w != i);
                    assert(self.live@[w - 1] == x);
                }
            }
            assert forall|x: u64| #[trigger] insert_count(self.trace@, x)
                == insert_count(old(self).trace@, x) by {
                lemma_insert_count_push(old(self).trace@, DeviceOp::Destroy(id), x);
            }
            assert forall|x: u64| #[trigger] destroy_count(self.trace@, x) == if x < self.next_id
                && !self.live@.contains(x) {
                1nat
            } else {
                0nat
            } by {
                lemma_destroy_count_push(old(self).trace@, DeviceOp::Destroy(id), x);
            }
        }
    }

    /// Make the next poll report `outcome` instead of the modelled stream
    /// state, standing for a device-side fault (or, with a success code, a
    /// device that answers regardless of progress).
    pub fn force_poll_result(&mut self, outcome: PollResult)
        requires
            old(self).wf(),
        ensures
            final(self).wf(),
            final(self).pending_fault == Some(outcome),
            final(self).version == old(self).version,
            final(self).extensions == old(self).extensions,
            final(self).next_id == old(self).next_id,
            final(self).live@ == old(self).live@,
            final(self).reached == old(self).reached,
            final(self).trace@ == old(self).trace@,
    {
        self.pending_fault = Some(outcome);
    }

    /// The device finishes every command issued so far: all current markers
    /// become signaled.
    pub fn complete_pending(&mut self)
        requires
            old(self).wf(),
        ensures
            final(self).wf(),
            final(self).reached == old(self).next_id,
            final(self).version == old(self).version,
            final(self).extensions == old(self).extensions,
            final(self).next_id == old(self).next_id,
            final(self).live@ == old(self).live@,
            final(self).pending_fault == old(self).pending_fault,
            final(self).trace@ == old(self).trace@,
    {
        self.reached = self.next_id;
    }
}

/// Law: at most one destruction per underlying object.  In every
/// well-formed context state, an identifier has been inserted at most once
/// and destroyed no more often than it was inserted — so a marker is never
/// destroyed twice, and never destroyed without having been created.
pub proof fn lemma_single_destruction(ctxt: CommandContext, id: u64)
    requires
        ctxt.wf(),
    ensures
        insert_count(ctxt.trace@, id) <= 1,
        destroy_count(ctxt.trace@, id) <= insert_count(ctxt.trace@, id),
{
}

} // verus!
