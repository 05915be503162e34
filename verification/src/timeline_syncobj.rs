//! The timeline sync object.
//!
//! A timeline sync object is a kernel object with a 64-bit counter that only
//! grows. Signaling a point raises the counter to at least that point; a
//! wait for a point ends once the counter has reached it.
//!
//! The library never calls the kernel. A `TimelineSyncObj` says which
//! request to submit for each operation and takes the kernel's answer back;
//! whoever drives it submits the request on the object's render node.

use vstd::prelude::*;
use crate::batch::{TimelineBatch, TimelinePoint, TimelineSignalRequest, TimelineWaitRequest};
use crate::bindings::{
    DrmCap, DrmGetCap, DrmSyncobjCreate, DrmSyncobjDestroy, DrmSyncobjFdToHandle,
    DrmSyncobjHandleToFd, RawDrmSyncobjHandle, DRM_CAP_SYNCOBJ, DRM_CAP_SYNCOBJ_TIMELINE,
};
use crate::error::{OsError, ETIME};
use crate::flags::{
    SyncobjCreateFlags, SyncobjFdToHandleFlags, SyncobjHandleToFdFlags,
    SyncobjTimelineSignalFlags, SyncobjWaitFlags,
};
use crate::render_node::DrmRenderNode;

verus! {

/// What an object that has no handle yet is waiting for.
#[derive(Clone, Copy, Debug, PartialEq, Eq, Structural)]
pub enum Setup {
    /// The answer to the query for sync-object support.
    SyncobjCapability,
    /// The answer to the query for timeline support.
    TimelineCapability,
    /// The answer to the create request.
    Allocation,
    /// The answer to the import of the descriptor `fd`.
    Import { fd: i32 },
}

/// Where an object stands in its life.
#[derive(Clone, Copy, Debug, PartialEq, Eq, Structural)]
pub enum Lifecycle {
    /// No handle yet: the requests that lead to one are under way.
    Uncreated(Setup),
    /// The handle names a kernel object that this object owns.
    Live,
    /// The end: the object owns nothing, and nothing can be asked of it.
    Destroyed,
}

/// A request on the way to a handle, and, after the call, its answer.
#[derive(Clone, Copy, Debug, PartialEq, Eq)]
pub enum SetupRequest {
    Capability(DrmGetCap),
    Create(DrmSyncobjCreate),
    Import(DrmSyncobjFdToHandle),
}

/// Why an object did not come to life.
#[derive(Clone, Copy, Debug, PartialEq, Eq)]
pub enum SetupError {
    /// The driver lacks a capability that timelines need.
    MissingCapability(DrmCap),
    /// The kernel refused a request.
    Os(OsError),
}

/// How a blocking wait ended.
#[derive(Clone, Copy, Debug, PartialEq, Eq)]
pub enum WaitOutcome {
    /// The point was reached.
    Signaled,
    /// The timeout ran out first.
    TimedOut,
    /// The kernel refused the wait.
    Failed(OsError),
}

/// A timeline sync object as contracts see it.
pub struct TimelineSyncObjView {
    pub handle: RawDrmSyncobjHandle,
    pub render_node: DrmRenderNode,
    pub state: Lifecycle,
}

/// A timeline sync object: a kernel handle and the render node in whose
/// namespace the handle lives.
///
/// There is no way to copy one: two objects with one handle would destroy
/// the kernel object twice.
#[derive(Debug)]
pub struct TimelineSyncObj {
    handle: RawDrmSyncobjHandle,
    render_node: DrmRenderNode,
    state: Lifecycle,
}

impl View for TimelineSyncObj {
    type V = TimelineSyncObjView;

    closed spec fn view(&self) -> TimelineSyncObjView {
        TimelineSyncObjView {
            handle: self.handle,
            render_node: self.render_node,
            state: self.state,
        }
    }
}

impl TimelineSyncObjView {
    /// The object that `create` starts with: on its way to a handle, before
    /// the first answer.
    pub open spec fn created(render_node: DrmRenderNode) -> TimelineSyncObjView {
        TimelineSyncObjView {
            handle: RawDrmSyncobjHandle(0),
            render_node,
            state: Lifecycle::Uncreated(Setup::SyncobjCapability),
        }
    }

    /// The object that `import` starts with: waiting for the handle that
    /// the descriptor `fd` resolves to.
    pub open spec fn imported(render_node: DrmRenderNode, fd: i32) -> TimelineSyncObjView {
        TimelineSyncObjView {
            handle: RawDrmSyncobjHandle(0),
            render_node,
            state: Lifecycle::Uncreated(Setup::Import { fd }),
        }
    }

    /// Whether the object owns a kernel object.
    pub open spec fn is_live(self) -> bool {
        self.state == Lifecycle::Live
    }

    /// Only a live object has a handle; any other holds the null handle.
    pub open spec fn well_formed(self) -> bool {
        !self.is_live() ==> self.handle == RawDrmSyncobjHandle(0)
    }

    /// The object after it has reached the end of its life.
    pub open spec fn destroyed(self) -> TimelineSyncObjView {
        TimelineSyncObjView {
            handle: RawDrmSyncobjHandle(0),
            render_node: self.render_node,
            state: Lifecycle::Destroyed,
        }
    }

    /// The object after the kernel has given it `handle`.
    pub open spec fn alive(self, handle: RawDrmSyncobjHandle) -> TimelineSyncObjView {
        TimelineSyncObjView { handle, render_node: self.render_node, state: Lifecycle::Live }
    }

    /// The object waiting for the next answer on its way to a handle.
    pub open spec fn awaiting(self, setup: Setup) -> TimelineSyncObjView {
        TimelineSyncObjView {
            handle: RawDrmSyncobjHandle(0),
            render_node: self.render_node,
            state: Lifecycle::Uncreated(setup),
        }
    }

    /// The request that an object must submit next on its way to a handle:
    /// the two capability queries, then the create request without flags;
    /// for an import, the descriptor with timeline semantics. The handle
    /// field of the create and import requests holds the null handle, which
    /// the kernel overwrites.
    pub open spec fn setup_request(self) -> Option<SetupRequest> {
        match self.state {
            Lifecycle::Uncreated(Setup::SyncobjCapability) => Some(
                SetupRequest::Capability(DrmGetCap { cap: DrmCap(DRM_CAP_SYNCOBJ), value: 0 }),
            ),
            Lifecycle::Uncreated(Setup::TimelineCapability) => Some(
                SetupRequest::Capability(
                    DrmGetCap { cap: DrmCap(DRM_CAP_SYNCOBJ_TIMELINE), value: 0 },
                ),
            ),
            Lifecycle::Uncreated(Setup::Allocation) => Some(
                SetupRequest::Create(
                    DrmSyncobjCreate { handle: 0, flags: SyncobjCreateFlags { bits: 0 } },
                ),
            ),
            Lifecycle::Uncreated(Setup::Import { fd }) => Some(
                SetupRequest::Import(
                    DrmSyncobjFdToHandle {
                        handle: RawDrmSyncobjHandle(0),
                        flags: SyncobjFdToHandleFlags { bits: SyncobjFdToHandleFlags::TIMELINE },
                        fd,
                        _padding: 0,
                        point: 0,
                    },
                ),
            ),
            _ => None,
        }
    }

    /// What an answer does to an object: the object afterwards, and the
    /// error if the answer ended it.
    ///
    /// An error from the kernel ends the object. A capability that the
    /// kernel reports as zero ends it too, before anything is allocated.
    /// The second capability is asked for only once the first is there, the
    /// create request only once both are. The answer to the create request
    /// or to the import brings the handle and makes the object live. An
    /// answer to another request than the one the object waits for changes
    /// nothing, and neither does any answer given to an object that waits
    /// for none.
    pub open spec fn setup_reply(self, reply: Result<SetupRequest, OsError>) -> (
        TimelineSyncObjView,
        Result<(), SetupError>,
    ) {
        match self.state {
            Lifecycle::Uncreated(setup) => match reply {
                Err(error) => (self.destroyed(), Err(SetupError::Os(error))),
                Ok(SetupRequest::Capability(answer)) => if setup == Setup::SyncobjCapability
                    && answer.cap == DrmCap(DRM_CAP_SYNCOBJ) {
                    if answer.value != 0 {
                        (self.awaiting(Setup::TimelineCapability), Ok(()))
                    } else {
                        (
                            self.destroyed(),
                            Err(SetupError::MissingCapability(answer.cap)),
                        )
                    }
                } else if setup == Setup::TimelineCapability && answer.cap == DrmCap(
                    DRM_CAP_SYNCOBJ_TIMELINE,
                ) {
                    if answer.value != 0 {
                        (self.awaiting(Setup::Allocation), Ok(()))
                    } else {
                        (
                            self.destroyed(),
                            Err(SetupError::MissingCapability(answer.cap)),
                        )
                    }
                } else {
                    (self, Ok(()))
                },
                Ok(SetupRequest::Create(answer)) => if setup == Setup::Allocation {
                    (self.alive(RawDrmSyncobjHandle(answer.handle)), Ok(()))
                } else {
                    (self, Ok(()))
                },
                Ok(SetupRequest::Import(answer)) => if setup is Import {
                    (self.alive(answer.handle), Ok(()))
                } else {
                    (self, Ok(()))
                },
            },
            _ => (self, Ok(())),
        }
    }

    /// The end of an object's life: the object afterwards, and the destroy
    /// request that is due. Only a live object owes one.
    pub open spec fn destroy(self) -> (TimelineSyncObjView, Option<DrmSyncobjDestroy>) {
        if self.is_live() {
            (self.destroyed(), Some(DrmSyncobjDestroy { handle: self.handle, _padding: 0 }))
        } else {
            (self.destroyed(), None)
        }
    }

    /// The request that exports the object as a descriptor which another
    /// process can import.
    pub open spec fn export(self) -> Option<DrmSyncobjHandleToFd> {
        if self.is_live() {
            Some(
                DrmSyncobjHandleToFd {
                    handle: self.handle,
                    flags: SyncobjHandleToFdFlags { bits: SyncobjHandleToFdFlags::TIMELINE },
                    fd: 0,
                    _padding: 0,
                    point: 0,
                },
            )
        } else {
            None
        }
    }

    /// The request that exports the fence of `point` as a binary fence
    /// descriptor.
    pub open spec fn export_sync_file_point(self, point: u64) -> Option<DrmSyncobjHandleToFd> {
        if self.is_live() {
            Some(
                DrmSyncobjHandleToFd {
                    handle: self.handle,
                    flags: SyncobjHandleToFdFlags {
                        bits: SyncobjHandleToFdFlags::EXPORT_SYNC_FILE,
                    },
                    fd: 0,
                    _padding: 0,
                    point,
                },
            )
        } else {
            None
        }
    }

    /// The request that attaches the binary fence behind `sync_file` to the
    /// object at `point`.
    pub open spec fn import_sync_file_point(self, sync_file: i32, point: u64) -> Option<
        DrmSyncobjFdToHandle,
    > {
        if self.is_live() {
            Some(
                DrmSyncobjFdToHandle {
                    handle: self.handle,
                    flags: SyncobjFdToHandleFlags {
                        bits: SyncobjFdToHandleFlags::IMPORT_SYNC_FILE,
                    },
                    fd: sync_file,
                    _padding: 0,
                    point,
                },
            )
        } else {
            None
        }
    }

    /// The batch of a request about this object alone: its handle with
    /// `point`.
    pub open spec fn batch(self, point: u64) -> Seq<TimelinePoint> {
        seq![(TimelinePoint { handle: self.handle, point })]
    }
}

/// The timeout field of a wait, in nanoseconds. Without a timeout, and with
/// one that the field cannot hold, the wait gets the largest value there is,
/// which the kernel takes for "no limit".
pub open spec fn timeout_nsec(timeout: Option<u128>) -> i64 {
    match timeout {
        Some(nanos) => if nanos <= i64::MAX {
            nanos as i64
        } else {
            i64::MAX
        },
        None => i64::MAX,
    }
}

/// How a blocking wait ended, by the kernel's answer: reached when the call
/// succeeded, timed out when it failed with `ETIME`, failed otherwise.
pub open spec fn wait_outcome(reply: Result<(), OsError>) -> WaitOutcome {
    match reply {
        Ok(_) => WaitOutcome::Signaled,
        Err(error) => if error.code == ETIME {
            WaitOutcome::TimedOut
        } else {
            WaitOutcome::Failed(error)
        },
    }
}

impl TimelineSyncObj {
    #[verifier::type_invariant]
    spec fn inv(&self) -> bool {
        self@.well_formed()
    }

    /// An object on `render_node` that is about to be created. It waits for
    /// the answer to its first request, the query for sync-object support.
    pub fn create(render_node: &DrmRenderNode) -> (object: TimelineSyncObj)
        ensures
            object@ == TimelineSyncObjView::created(*render_node),
    {
        TimelineSyncObj {
            handle: RawDrmSyncobjHandle::null(),
            render_node: *render_node,
            state: Lifecycle::Uncreated(Setup::SyncobjCapability),
        }
    }

    /// An object on `render_node` that is about to be imported from the
    /// descriptor `fd`. It waits for the answer to the import request.
    pub fn import(render_node: &DrmRenderNode, fd: i32) -> (object: TimelineSyncObj)
        ensures
            object@ == TimelineSyncObjView::imported(*render_node, fd),
    {
        TimelineSyncObj {
            handle: RawDrmSyncobjHandle::null(),
            render_node: *render_node,
            state: Lifecycle::Uncreated(Setup::Import { fd }),
        }
    }

    /// The request to submit next on the way to a handle, if the object is
    /// on that way.
    pub fn setup_request(&self) -> (request: Option<SetupRequest>)
        ensures
            request == self@.setup_request(),
    {
        match self.state {
            Lifecycle::Uncreated(Setup::SyncobjCapability) => Some(
                SetupRequest::Capability(DrmGetCap::query(DrmCap::syncobj())),
            ),
            Lifecycle::Uncreated(Setup::TimelineCapability) => Some(
                SetupRequest::Capability(DrmGetCap::query(DrmCap::syncobj_timeline())),
            ),
            Lifecycle::Uncreated(Setup::Allocation) => Some(
                SetupRequest::Create(
                    DrmSyncobjCreate { handle: 0, flags: SyncobjCreateFlags::empty() },
                ),
            ),
            Lifecycle::Uncreated(Setup::Import { fd }) => Some(
                SetupRequest::Import(
                    DrmSyncobjFdToHandle {
                        handle: RawDrmSyncobjHandle::null(),
                        flags: SyncobjFdToHandleFlags::timeline(),
                        fd,
                        _padding: 0,
                        point: 0,
                    },
                ),
            ),
            _ => None,
        }
    }

    /// Takes the kernel's answer to the request that `setup_request` gave:
    /// the record as it stands after the call, or the error.
    pub fn setup_reply(&mut self, reply: Result<SetupRequest, OsError>) -> (outcome: Result<
        (),
        SetupError,
    >)
        ensures
            (final(self)@, outcome) == old(self)@.setup_reply(reply),
    {
        proof {
            use_type_invariant(&*self);
        }
        let setup = match self.state {
            Lifecycle::Uncreated(setup) => setup,
            _ => {
                return Ok(());
            },
        };
        match reply {
            Err(error) => {
                self.end();
                Err(SetupError::Os(error))
            },
            Ok(SetupRequest::Capability(answer)) => {
                let next = if setup == Setup::SyncobjCapability && answer.cap == DrmCap::syncobj() {
                    Setup::TimelineCapability
                } else if setup == Setup::TimelineCapability && answer.cap
                    == DrmCap::syncobj_timeline() {
                    Setup::Allocation
                } else {
                    return Ok(());
                };
                if answer.supported() {
                    self.state = Lifecycle::Uncreated(next);
                    Ok(())
                } else {
                    self.end();
                    Err(SetupError::MissingCapability(answer.cap))
                }
            },
            Ok(SetupRequest::Create(answer)) => {
                if setup == Setup::Allocation {
                    self.state = Lifecycle::Live;
                    self.handle = answer.output();
                    Ok(())
                } else {
                    Ok(())
                }
            },
            Ok(SetupRequest::Import(answer)) => {
                match setup {
                    Setup::Import { .. } => {
                        self.state = Lifecycle::Live;
                        self.handle = answer.output();
                        Ok(())
                    },
                    _ => Ok(()),
                }
            },
        }
    }

    fn end(&mut self)
        ensures
            final(self)@ == old(self)@.destroyed(),
    {
        self.handle = RawDrmSyncobjHandle::null();
        self.state = Lifecycle::Destroyed;
    }

    /// Whether the object owns a kernel object.
    pub fn is_live(&self) -> (live: bool)
        ensures
            live == self@.is_live(),
    {
        self.state == Lifecycle::Live
    }

    /// Where the object stands in its life.
    pub fn state(&self) -> (state: Lifecycle)
        ensures
            state == self@.state,
    {
        self.state
    }

    /// Ends the object's life. The first call on a live object gives the
    /// destroy request for its handle, which is to be submitted and whose
    /// outcome is of no interest; every other call gives nothing.
    pub fn destroy(&mut self) -> (request: Option<DrmSyncobjDestroy>)
        ensures
            (final(self)@, request) == old(self)@.destroy(),
    {
        let request = if self.is_live() {
            Some(DrmSyncobjDestroy { handle: self.handle, _padding: 0 })
        } else {
            None
        };
        self.end();
        request
    }

    /// The request that exports the object as a descriptor for another
    /// process to import; nothing for an object that is not live. The
    /// descriptor is the output of the record after the call.
    pub fn export(&self) -> (request: Option<DrmSyncobjHandleToFd>)
        ensures
            request == self@.export(),
    {
        if self.is_live() {
            Some(
                DrmSyncobjHandleToFd {
                    handle: self.handle,
                    flags: SyncobjHandleToFdFlags::timeline(),
                    fd: 0,
                    _padding: 0,
                    point: 0,
                },
            )
        } else {
            None
        }
    }

    /// The request that exports the fence of `point` as a binary fence
    /// descriptor; nothing for an object that is not live.
    pub fn export_sync_file_point(&self, point: u64) -> (request: Option<DrmSyncobjHandleToFd>)
        ensures
            request == self@.export_sync_file_point(point),
    {
        if self.is_live() {
            Some(
                DrmSyncobjHandleToFd {
                    handle: self.handle,
                    flags: SyncobjHandleToFdFlags::export_sync_file(),
                    fd: 0,
                    _padding: 0,
                    point,
                },
            )
        } else {
            None
        }
    }

    /// The request that attaches the binary fence behind the descriptor
    /// `sync_file` to the object at `point`; nothing for an object that is
    /// not live.
    pub fn import_sync_file_point(&self, sync_file: i32, point: u64) -> (request: Option<
        DrmSyncobjFdToHandle,
    >)
        ensures
            request == self@.import_sync_file_point(sync_file, point),
    {
        if self.is_live() {
            Some(
                DrmSyncobjFdToHandle {
                    handle: self.handle,
                    flags: SyncobjFdToHandleFlags::import_sync_file(),
                    fd: sync_file,
                    _padding: 0,
                    point,
                },
            )
        } else {
            None
        }
    }

    /// The request that raises the object's counter to at least `point`;
    /// nothing for an object that is not live.
    ///
    /// Where `point` stands for work of the device, that work must be
    /// finished and visible to the processor before the request is
    /// submitted: every waiter takes the signal for the work's end.
    pub fn signal(&self, point: u64) -> (request: Option<TimelineSignalRequest>)
        ensures
            request is Some <==> self@.is_live(),
            request is Some ==> request.unwrap().batch@ == self@.batch(point)
                && request.unwrap().flags.bits == 0,
    {
        if self.is_live() {
            Some(
                TimelineSignalRequest {
                    batch: TimelineBatch::single(self.handle, point),
                    flags: SyncobjTimelineSignalFlags::empty(),
                },
            )
        } else {
            None
        }
    }

    /// The request that blocks until the object has reached `point` or
    /// until `timeout`, in nanoseconds, has run out; nothing for an object
    /// that is not live. Without a timeout the wait has no limit.
    pub fn blocking_wait(&self, point: u64, timeout: Option<u128>) -> (request: Option<
        TimelineWaitRequest,
    >)
        ensures
            request is Some <==> self@.is_live(),
            request is Some ==> {
                let wait = request.unwrap();
                &&& wait.batch@ == self@.batch(point)
                &&& wait.timeout_nsec == timeout_nsec(timeout)
                &&& wait.flags.bits == SyncobjWaitFlags::AVAILABLE
                &&& wait.deadline_nsec == 0
            },
    {
        if self.is_live() {
            let nanos = match timeout {
                Some(nanos) => if nanos <= i64::MAX as u128 {
                    nanos as i64
                } else {
                    i64::MAX
                },
                None => i64::MAX,
            };
            Some(
                TimelineWaitRequest {
                    batch: TimelineBatch::single(self.handle, point),
                    timeout_nsec: nanos,
                    flags: SyncobjWaitFlags::available(),
                    deadline_nsec: 0,
                },
            )
        } else {
            None
        }
    }

    /// How a blocking wait ended, by the kernel's answer to its request.
    pub fn wait_outcome(reply: Result<(), OsError>) -> (outcome: WaitOutcome)
        ensures
            outcome == wait_outcome(reply),
    {
        match reply {
            Ok(_) => WaitOutcome::Signaled,
            Err(error) => if error.is_timeout() {
                WaitOutcome::TimedOut
            } else {
                WaitOutcome::Failed(error)
            },
        }
    }

    /// The object's handle; the null handle if the object is not live.
    ///
    /// The handle is the object's own: do not destroy it.
    pub fn get_raw_handle(&self) -> (handle: RawDrmSyncobjHandle)
        ensures
            handle == self@.handle,
            self@.well_formed(),
    {
        proof {
            use_type_invariant(self);
        }
        self.handle
    }

    /// The render node in whose namespace the handle lives.
    pub fn get_render_node(&self) -> (render_node: &DrmRenderNode)
        ensures
            *render_node == self@.render_node,
    {
        &self.render_node
    }
}

/// The object after it has taken `replies` one after another.
pub open spec fn after_replies(
    object: TimelineSyncObjView,
    replies: Seq<Result<SetupRequest, OsError>>,
) -> TimelineSyncObjView
    decreases replies.len(),
{
    if replies.len() == 0 {
        object
    } else {
        after_replies(object, replies.drop_last()).setup_reply(replies.last()).0
    }
}

/// Whether `replies` come from a device that lacks `cap`: every answer to a
/// query for `cap` among them reports zero.
pub open spec fn reports_absent(replies: Seq<Result<SetupRequest, OsError>>, cap: DrmCap) -> bool {
    forall|i: int|
        0 <= i < replies.len() ==> (#[trigger] replies[i] matches Ok(
            SetupRequest::Capability(answer),
        ) ==> answer.cap == cap ==> answer.value == 0)
}

/// The destroy requests that `calls` calls of `destroy` in a row give.
pub open spec fn destroy_requests(object: TimelineSyncObjView, calls: nat) -> Seq<
    DrmSyncobjDestroy,
>
    decreases calls,
{
    if calls == 0 {
        Seq::empty()
    } else {
        let (after, request) = object.destroy();
        let rest = destroy_requests(after, (calls - 1) as nat);
        match request {
            Some(request) => seq![request] + rest,
            None => rest,
        }
    }
}

/// The answer that reports a required capability as absent ends the
/// creation at once, with the error that names the capability.
pub proof fn lemma_missing_capability_fails_at_once(
    object: TimelineSyncObjView,
    answer: DrmGetCap,
)
    requires
        answer.value == 0,
        object.state == Lifecycle::Uncreated(Setup::SyncobjCapability) && answer.cap == DrmCap(
            DRM_CAP_SYNCOBJ,
        ) || object.state == Lifecycle::Uncreated(Setup::TimelineCapability) && answer.cap
            == DrmCap(DRM_CAP_SYNCOBJ_TIMELINE),
    ensures
        object.setup_reply(Ok(SetupRequest::Capability(answer))) == (
            object.destroyed(),
            Err::<(), SetupError>(SetupError::MissingCapability(answer.cap)),
        ),
        object.destroyed().setup_request() is None,
        object.destroyed().destroy().1 is None,
{
}

/// On a device that lacks one of the two capabilities, creation allocates
/// nothing: whatever answers arrive and however many, the object never
/// asks for the create request, never becomes live, never holds a handle,
/// and owes no destroy request.
pub proof fn lemma_no_allocation_without_capabilities(
    render_node: DrmRenderNode,
    replies: Seq<Result<SetupRequest, OsError>>,
)
    requires
        reports_absent(replies, DrmCap(DRM_CAP_SYNCOBJ)) || reports_absent(
            replies,
            DrmCap(DRM_CAP_SYNCOBJ_TIMELINE),
        ),
    ensures
        ({
            let object = after_replies(TimelineSyncObjView::created(render_node), replies);
            &&& !(object.setup_request() matches Some(SetupRequest::Create(_)))
            &&& !object.is_live()
            &&& object.handle == RawDrmSyncobjHandle(0)
            &&& object.destroy().1 is None
        }),
{
    let start = TimelineSyncObjView::created(render_node);
    lemma_stays_before_allocation(start, replies);
}

/// Creation on a device that lacks a capability stays in the stages before
/// the create request: at the first query, at the second if sync objects
/// are there, or at the end.
proof fn lemma_stays_before_allocation(
    start: TimelineSyncObjView,
    replies: Seq<Result<SetupRequest, OsError>>,
)
    requires
        start.state == Lifecycle::Uncreated(Setup::SyncobjCapability),
        start.handle == RawDrmSyncobjHandle(0),
        reports_absent(replies, DrmCap(DRM_CAP_SYNCOBJ)) || reports_absent(
            replies,
            DrmCap(DRM_CAP_SYNCOBJ_TIMELINE),
        ),
    ensures
        ({
            let object = after_replies(start, replies);
            &&& object.handle == RawDrmSyncobjHandle(0)
            &&& object.render_node == start.render_node
            &&& object.state == Lifecycle::Uncreated(Setup::SyncobjCapability)
                || object.state == Lifecycle::Destroyed || (object.state == Lifecycle::Uncreated(
                Setup::TimelineCapability,
            ) && !reports_absent(replies, DrmCap(DRM_CAP_SYNCOBJ)))
        }),
    decreases replies.len(),
{
    if replies.len() > 0 {
        let earlier = replies.drop_last();
        assert forall|i: int| 0 <= i < earlier.len() implies earlier[i] == replies[i] by {}
        lemma_stays_before_allocation(start, earlier);
        let last = replies.last();
        assert(last == replies[replies.len() - 1]);
        if !reports_absent(earlier, DrmCap(DRM_CAP_SYNCOBJ)) {
            let i = choose|i: int|
                0 <= i < earlier.len() && !(#[trigger] earlier[i] matches Ok(
                    SetupRequest::Capability(answer),
                ) ==> answer.cap == DrmCap(DRM_CAP_SYNCOBJ) ==> answer.value == 0);
            assert(earlier[i] == replies[i]);
        }
    }
}

/// However often an object is destroyed, at most one destroy request is
/// issued: the one for the handle of a live object, at the first call.
pub proof fn lemma_destroy_is_requested_once(object: TimelineSyncObjView, calls: nat)
    ensures
        destroy_requests(object, calls) == if object.is_live() && calls > 0 {
            seq![(DrmSyncobjDestroy { handle: object.handle, _padding: 0 })]
        } else {
            Seq::<DrmSyncobjDestroy>::empty()
        },
        object.destroy().0.destroy() == (object.destroy().0, None::<DrmSyncobjDestroy>),
    decreases calls,
{
    if calls > 0 {
        let after = object.destroy().0;
        lemma_destroy_is_requested_once(after, (calls - 1) as nat);
        if object.is_live() {
            assert(destroy_requests(object, calls) =~= seq![
                (DrmSyncobjDestroy { handle: object.handle, _padding: 0 }),
            ]);
        }
    }
}

/// A destroyed object asks for nothing and takes nothing: it has no setup
/// request, no export, no fence exchange and no destroy request, and no
/// answer changes it.
pub proof fn lemma_destroyed_is_final(
    object: TimelineSyncObjView,
    reply: Result<SetupRequest, OsError>,
    point: u64,
    fd: i32,
)
    requires
        object.state == Lifecycle::Destroyed,
    ensures
        object.setup_request() is None,
        object.setup_reply(reply) == (object, Ok::<(), SetupError>(())),
        object.export() is None,
        object.export_sync_file_point(point) is None,
        object.import_sync_file_point(fd, point) is None,
        object.destroy().1 is None,
        object.destroy().0.state == Lifecycle::Destroyed,
{
}

} // verus!
