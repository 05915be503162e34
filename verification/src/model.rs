//! The kernel's side of the interface, as the library takes it to be.
//!
//! Nothing here runs. The model states what the requests of the library
//! mean: which counter a handle names, what a signal does to it, when a wait
//! is satisfied, what travels with an exported descriptor. The theorems
//! below say what the library's requests achieve against a kernel that
//! behaves so; the kernel itself is not verified.

use vstd::prelude::*;
use crate::async_wait::{AsyncAction, AsyncEvent, AsyncWaitView};
use crate::batch::TimelinePoint;
use crate::bindings::{
    DrmSyncobjEventFd, DrmSyncobjFdToHandle, DrmSyncobjHandleToFd, RawDrmSyncobjHandle,
};
use crate::error::{OsError, ETIME};
use crate::flags::{has_bits, SyncobjWaitFlags};
use crate::render_node::DrmRenderNode;
use crate::timeline_syncobj::{
    timeout_nsec, wait_outcome, SetupRequest, TimelineSyncObjView, WaitOutcome,
};

verus! {

/// The sync objects of a kernel.
pub struct Kernel {
    /// The counter of every sync object, by the object's identity.
    pub counters: Map<int, u64>,
    /// The object that each handle names, by the open device and the handle.
    pub handles: Map<(u64, RawDrmSyncobjHandle), int>,
    /// The object that each exported descriptor stands for.
    pub descriptors: Map<i32, int>,
}

impl Kernel {
    /// Whether `handle` names an object on `node`.
    pub open spec fn names(self, node: DrmRenderNode, handle: RawDrmSyncobjHandle) -> bool {
        self.handles.dom().contains((node.identity(), handle))
    }

    /// The object that `handle` names on `node`.
    pub open spec fn object(self, node: DrmRenderNode, handle: RawDrmSyncobjHandle) -> int {
        self.handles[(node.identity(), handle)]
    }

    /// The counter of the object that `handle` names on `node`.
    pub open spec fn counter(self, node: DrmRenderNode, handle: RawDrmSyncobjHandle) -> u64 {
        self.counters[self.object(node, handle)]
    }

    /// Whether the object of `entry` has reached the point of `entry`.
    pub open spec fn reached(self, node: DrmRenderNode, entry: TimelinePoint) -> bool {
        self.names(node, entry.handle) && self.counter(node, entry.handle) >= entry.point
    }

    /// The kernel after the signal of one entry: the counter of the entry's
    /// object is at least the entry's point, and no lower than it was.
    pub open spec fn raised(self, node: DrmRenderNode, entry: TimelinePoint) -> Kernel {
        if self.names(node, entry.handle) && self.counter(node, entry.handle) < entry.point {
            Kernel {
                counters: self.counters.insert(self.object(node, entry.handle), entry.point),
                ..self
            }
        } else {
            self
        }
    }

    /// The kernel after a timeline signal: each entry of the batch is
    /// signaled, in order.
    pub open spec fn timeline_signal(self, node: DrmRenderNode, batch: Seq<TimelinePoint>) -> Kernel
        decreases batch.len(),
    {
        if batch.len() == 0 {
            self
        } else {
            self.timeline_signal(node, batch.drop_last()).raised(node, batch.last())
        }
    }

    /// Whether a timeline wait is satisfied: with the flag `ALL`, when every
    /// entry of the batch is reached; without it, when one is.
    pub open spec fn timeline_ready(
        self,
        node: DrmRenderNode,
        batch: Seq<TimelinePoint>,
        flags: SyncobjWaitFlags,
    ) -> bool {
        if has_bits(flags.bits, SyncobjWaitFlags::ALL) {
            forall|i: int| 0 <= i < batch.len() ==> self.reached(node, #[trigger] batch[i])
        } else {
            exists|i: int| 0 <= i < batch.len() && self.reached(node, #[trigger] batch[i])
        }
    }

    /// The answer to a timeline wait during which nothing is signaled:
    /// success if the wait is satisfied, the timeout error if not.
    pub open spec fn timeline_wait(
        self,
        node: DrmRenderNode,
        batch: Seq<TimelinePoint>,
        flags: SyncobjWaitFlags,
    ) -> Result<(), OsError> {
        if self.timeline_ready(node, batch, flags) {
            Ok(())
        } else {
            Err(OsError { code: ETIME })
        }
    }

    /// The kernel after the export of an object under the descriptor `fd`.
    pub open spec fn handle_to_fd(
        self,
        node: DrmRenderNode,
        request: DrmSyncobjHandleToFd,
        fd: i32,
    ) -> Kernel {
        Kernel {
            descriptors: self.descriptors.insert(fd, self.object(node, request.handle)),
            ..self
        }
    }

    /// The kernel after the import of the object behind the request's
    /// descriptor under the new handle `handle` of `node`.
    pub open spec fn fd_to_handle(
        self,
        node: DrmRenderNode,
        request: DrmSyncobjFdToHandle,
        handle: RawDrmSyncobjHandle,
    ) -> Kernel {
        Kernel {
            handles: self.handles.insert(
                (node.identity(), handle),
                self.descriptors[request.fd],
            ),
            ..self
        }
    }

    /// Whether the event descriptor of a registration is readable: once the
    /// object has reached the point that it was registered for.
    pub open spec fn readable(self, node: DrmRenderNode, registration: DrmSyncobjEventFd) -> bool {
        self.reached(
            node,
            TimelinePoint { handle: registration.handle, point: registration.point },
        )
    }
}

/// A signal reaches its own point and every point below it, and takes
/// nothing back: what was reached stays reached.
pub proof fn lemma_signal_is_monotonic(
    kernel: Kernel,
    node: DrmRenderNode,
    signaled: TimelinePoint,
    waited: TimelinePoint,
)
    requires
        kernel.names(node, signaled.handle),
    ensures
        kernel.raised(node, signaled).reached(node, signaled),
        waited.handle == signaled.handle && waited.point <= signaled.point ==> kernel.raised(
            node,
            signaled,
        ).reached(node, waited),
        kernel.reached(node, waited) ==> kernel.raised(node, signaled).reached(node, waited),
        kernel.raised(node, signaled).handles == kernel.handles,
{
}

/// After the signal of an object at `signaled`, the wait for any point up
/// to `signaled` is satisfied at once: the kernel answers the wait request
/// with success whatever its timeout, also a timeout of zero, and the
/// library reports the point as reached.
pub proof fn lemma_wait_after_signal(
    kernel: Kernel,
    object: TimelineSyncObjView,
    signaled: u64,
    waited: u64,
    flags: SyncobjWaitFlags,
)
    requires
        object.is_live(),
        kernel.names(object.render_node, object.handle),
        waited <= signaled,
    ensures
        ({
            let after = kernel.timeline_signal(object.render_node, object.batch(signaled));
            &&& after.timeline_ready(object.render_node, object.batch(waited), flags)
            &&& wait_outcome(after.timeline_wait(object.render_node, object.batch(waited), flags))
                == WaitOutcome::Signaled
        }),
        timeout_nsec(Some(0u128)) == 0,
{
    let node = object.render_node;
    let entry = TimelinePoint { handle: object.handle, point: signaled };
    let batch = object.batch(signaled);
    assert(batch.drop_last() =~= Seq::<TimelinePoint>::empty());
    assert(batch.last() == entry);
    assert(kernel.timeline_signal(node, batch.drop_last()) == kernel);
    let after = kernel.timeline_signal(node, batch);
    assert(after == kernel.raised(node, entry));
    let wanted = TimelinePoint { handle: object.handle, point: waited };
    lemma_signal_is_monotonic(kernel, node, entry, wanted);
    assert(object.batch(waited)[0] == wanted);
    assert(after.reached(node, object.batch(waited)[0]));
}

/// A wait for a point that the object has not reached, and does not reach
/// while the wait lasts, ends with the timeout: the library never reports
/// it as reached. A timeout that the request can hold goes to the kernel as
/// it is, so the wait lasts no longer than asked.
pub proof fn lemma_wait_times_out(
    kernel: Kernel,
    object: TimelineSyncObjView,
    point: u64,
    timeout: u128,
    flags: SyncobjWaitFlags,
)
    requires
        object.is_live(),
        !kernel.reached(object.render_node, TimelinePoint { handle: object.handle, point }),
        timeout <= i64::MAX,
    ensures
        wait_outcome(kernel.timeline_wait(object.render_node, object.batch(point), flags))
            == WaitOutcome::TimedOut,
        timeout_nsec(Some(timeout)) == timeout,
{
    let node = object.render_node;
    let batch = object.batch(point);
    assert(batch[0] == TimelinePoint { handle: object.handle, point });
    assert(!kernel.timeline_ready(node, batch, flags));
}

/// The library reports a wait as reached exactly when the kernel answered
/// it with success, and as timed out exactly when the kernel answered with
/// the timeout error.
pub proof fn lemma_wait_outcomes_are_distinct(reply: Result<(), OsError>)
    ensures
        wait_outcome(reply) is Signaled <==> reply is Ok,
        wait_outcome(reply) is TimedOut <==> reply == Err::<(), OsError>(OsError { code: ETIME }),
        wait_outcome(reply) is Failed <==> reply is Err && reply != Err::<(), OsError>(
            OsError { code: ETIME },
        ),
{
}

/// An object that is exported and then imported, on the same or on another
/// open device, is the same kernel object under a second handle: the two
/// have one counter. So a point is reached for the one exactly when it is
/// reached for the other, whatever is signaled later, and a signal of the
/// first handle satisfies the wait of the second for every point up to it.
pub proof fn lemma_import_shares_the_counter(
    kernel: Kernel,
    source: TimelineSyncObjView,
    node: DrmRenderNode,
    fd: i32,
    handle: RawDrmSyncobjHandle,
    signaled: u64,
    waited: u64,
    flags: SyncobjWaitFlags,
)
    requires
        source.is_live(),
        kernel.names(source.render_node, source.handle),
        !kernel.names(node, handle),
        waited <= signaled,
    ensures
        ({
            let export = source.export().unwrap();
            let exported = kernel.handle_to_fd(source.render_node, export, fd);
            let pending = TimelineSyncObjView::imported(node, fd);
            let import = pending.setup_request().unwrap()->Import_0;
            let shared = exported.fd_to_handle(node, import, handle);
            let answer = DrmSyncobjFdToHandle { handle, ..import };
            let copy = pending.setup_reply(Ok(SetupRequest::Import(answer))).0;
            let after = shared.timeline_signal(source.render_node, source.batch(signaled));
            &&& pending.setup_request() is Some
            &&& pending.setup_request().unwrap() is Import
            &&& import.fd == fd
            &&& copy.is_live()
            &&& copy.handle == handle
            &&& copy.render_node == node
            &&& shared.names(copy.render_node, copy.handle)
            &&& shared.object(copy.render_node, copy.handle) == shared.object(
                source.render_node,
                source.handle,
            )
            &&& after.timeline_ready(copy.render_node, copy.batch(waited), flags)
            &&& forall|later: Kernel, point: u64|
                later.handles == shared.handles ==> (#[trigger] later.reached(
                    copy.render_node,
                    TimelinePoint { handle: copy.handle, point },
                ) <==> later.reached(
                    source.render_node,
                    TimelinePoint { handle: source.handle, point },
                ))
        }),
{
    let export = source.export().unwrap();
    let exported = kernel.handle_to_fd(source.render_node, export, fd);
    let pending = TimelineSyncObjView::imported(node, fd);
    let import = pending.setup_request().unwrap()->Import_0;
    let shared = exported.fd_to_handle(node, import, handle);
    let answer = DrmSyncobjFdToHandle { handle, ..import };
    let copy = pending.setup_reply(Ok(SetupRequest::Import(answer))).0;
    assert(exported.descriptors[fd] == kernel.object(source.render_node, source.handle));
    assert((node.identity(), handle) != (source.render_node.identity(), source.handle));
    assert(shared.names(source.render_node, source.handle));
    assert(shared.object(node, handle) == shared.object(source.render_node, source.handle));
    let entry = TimelinePoint { handle: source.handle, point: signaled };
    let batch = source.batch(signaled);
    assert(batch.drop_last() =~= Seq::<TimelinePoint>::empty());
    assert(shared.timeline_signal(source.render_node, batch.drop_last()) == shared);
    let after = shared.timeline_signal(source.render_node, batch);
    assert(after == shared.raised(source.render_node, entry));
    lemma_signal_is_monotonic(shared, source.render_node, entry, entry);
    assert(after.reached(copy.render_node, copy.batch(waited)[0]));
}

/// The events of an asynchronous wait, taken one after another.
pub open spec fn after_events(wait: AsyncWaitView, events: Seq<AsyncEvent>) -> AsyncWaitView
    decreases events.len(),
{
    if events.len() == 0 {
        wait
    } else {
        after_events(wait, events.drop_last()).step(events.last())
    }
}

/// Whether the driver reports the events of a wait truthfully against
/// `kernel`: it reports the descriptor as readable only when the kernel
/// makes it readable for the wait's registration.
pub open spec fn reports_readiness_of(
    kernel: Kernel,
    node: DrmRenderNode,
    wait: AsyncWaitView,
    events: Seq<AsyncEvent>,
) -> bool {
    forall|i: int|
        0 <= i < events.len() && (#[trigger] events[i] matches AsyncEvent::Readable(Ok(_)))
            ==> kernel.reached(node, TimelinePoint { handle: wait.handle, point: wait.point })
}

/// An asynchronous wait resolves only if its point was reached: whatever
/// the events, a wait that ends resolved was told that its descriptor is
/// readable, which the kernel makes it only once the object has reached the
/// point. It keeps its handle and its point on the way, so the registration
/// that it submits is for the point that it was made for.
pub proof fn lemma_async_wait_resolves_only_when_reached(
    kernel: Kernel,
    node: DrmRenderNode,
    wait: AsyncWaitView,
    events: Seq<AsyncEvent>,
)
    requires
        wait.stage is Open,
        reports_readiness_of(kernel, node, wait, events),
    ensures
        ({
            let end = after_events(wait, events);
            &&& end.handle == wait.handle
            &&& end.point == wait.point
            &&& (end.stage is Resolved || end.stage is Drain) ==> kernel.reached(
                node,
                TimelinePoint { handle: wait.handle, point: wait.point },
            )
            &&& end.action() is Register ==> kernel.readable(node, end.action()->Register_0)
                == kernel.reached(node, TimelinePoint { handle: wait.handle, point: wait.point })
        }),
    decreases events.len(),
{
    if events.len() > 0 {
        let earlier = events.drop_last();
        assert forall|i: int| 0 <= i < earlier.len() implies earlier[i] == events[i] by {}
        lemma_async_wait_resolves_only_when_reached(kernel, node, wait, earlier);
        assert(events.last() == events[events.len() - 1]);
    }
}

/// Once the point is reached, a suspended wait resolves: the report that
/// the descriptor is readable and the report of the read bring it to its
/// end, and what is left to do is to close the descriptor.
pub proof fn lemma_async_wait_resolves_when_reached(wait: AsyncWaitView, read: usize)
    requires
        wait.stage is Suspend,
        wait.well_formed(),
    ensures
        ({
            let end = wait.step(AsyncEvent::Readable(Ok(()))).step(AsyncEvent::Drained(Ok(read)));
            &&& end.stage is Resolved
            &&& end.action() == (AsyncAction::Close { fd: wait.descriptor.unwrap() })
            &&& end.step(AsyncEvent::Closed).action() == AsyncAction::Nothing
        }),
{
}

/// A wait that was given up sends nothing to the kernel and keeps no
/// descriptor: whatever is reported to it afterwards, it asks only for its
/// descriptor to be closed, and for nothing once that is done.
pub proof fn lemma_cancelled_wait_releases(wait: AsyncWaitView, events: Seq<AsyncEvent>)
    requires
        wait.well_formed(),
    ensures
        ({
            let end = after_events(wait.cancel(), events);
            &&& end.stage.is_over()
            &&& end.stage == wait.cancel().stage
            &&& end.well_formed()
            &&& end.action() == match end.descriptor {
                Some(fd) => AsyncAction::Close { fd },
                None => AsyncAction::Nothing,
            }
            &&& end.descriptor is Some ==> end.descriptor == wait.descriptor
            &&& end.step(AsyncEvent::Closed).descriptor is None
            &&& end.step(AsyncEvent::Closed).action() == AsyncAction::Nothing
        }),
    decreases events.len(),
{
    if events.len() > 0 {
        lemma_cancelled_wait_releases(wait, events.drop_last());
    }
}

} // verus!
