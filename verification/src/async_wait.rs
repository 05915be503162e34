//! Waiting for a point without blocking a thread.
//!
//! The kernel can make an event descriptor readable once a sync object has
//! reached a point. An asynchronous wait opens such a descriptor, registers
//! it with the kernel for the point and with the scheduler's reactor for
//! readability, suspends the task until the descriptor is readable, and
//! drains it. `AsyncWait` decides each of these steps; whoever drives it
//! performs them and reports how they went.
//!
//! A wait resolves once. It can be cancelled at any time: nothing is sent to
//! the kernel for that, the descriptor is closed and with it the
//! registration lapses.

use vstd::prelude::*;
use crate::bindings::{DrmSyncobjEventFd, RawDrmSyncobjHandle};
use crate::error::{OsError, EAGAIN};
use crate::flags::SyncobjEventFdFlags;
use crate::timeline_syncobj::TimelineSyncObj;

verus! {

/// The number of bytes that draining an event descriptor reads: its 64-bit
/// counter.
pub const EVENT_COUNTER_SIZE: usize = 8;

/// How far an asynchronous wait has come.
#[derive(Clone, Copy, Debug, PartialEq, Eq, Structural)]
pub enum AsyncStage {
    /// The event descriptor is to be opened.
    Open,
    /// The descriptor is to be registered with the kernel for the point.
    Register,
    /// The descriptor is to be registered with the reactor.
    Watch,
    /// The task is to be suspended until the descriptor is readable.
    Suspend,
    /// The descriptor is to be drained.
    Drain,
    /// The point was reached.
    Resolved,
    /// A step failed.
    Failed(OsError),
    /// The wait was given up.
    Cancelled,
}

/// What the driver of an asynchronous wait has to do next.
#[derive(Clone, Copy, Debug, PartialEq, Eq)]
pub enum AsyncAction {
    /// Open an event descriptor with the counter `initial_value`.
    OpenEventFd { initial_value: u32, nonblocking: bool, close_on_exec: bool },
    /// Submit the registration on the object's render node.
    Register(DrmSyncobjEventFd),
    /// Register the descriptor with the reactor.
    Watch { fd: i32 },
    /// Suspend the task until the reactor reports the descriptor readable.
    AwaitReadable { fd: i32 },
    /// Read `len` bytes from the descriptor.
    Drain { fd: i32, len: usize },
    /// Close the descriptor.
    Close { fd: i32 },
    /// Nothing: the wait is over and holds no descriptor.
    Nothing,
}

/// How a step of an asynchronous wait went.
#[derive(Clone, Copy, Debug, PartialEq, Eq)]
pub enum AsyncEvent {
    /// The event descriptor was opened, under this number, or could not be.
    Opened(Result<i32, OsError>),
    /// The kernel answered the registration.
    Registered(Result<(), OsError>),
    /// The reactor took the descriptor, or refused it.
    Watched(Result<(), OsError>),
    /// The reactor reported the descriptor readable, or failed.
    Readable(Result<(), OsError>),
    /// The read gave this many bytes, or failed.
    Drained(Result<usize, OsError>),
    /// The descriptor was closed.
    Closed,
}

/// An asynchronous wait as contracts see it.
pub struct AsyncWaitView {
    pub handle: RawDrmSyncobjHandle,
    pub point: u64,
    pub stage: AsyncStage,
    pub descriptor: Option<i32>,
}

/// An asynchronous wait for one point of one sync object.
#[derive(Debug)]
pub struct AsyncWait {
    handle: RawDrmSyncobjHandle,
    point: u64,
    stage: AsyncStage,
    descriptor: Option<i32>,
}

impl View for AsyncWait {
    type V = AsyncWaitView;

    closed spec fn view(&self) -> AsyncWaitView {
        AsyncWaitView {
            handle: self.handle,
            point: self.point,
            stage: self.stage,
            descriptor: self.descriptor,
        }
    }
}

impl AsyncStage {
    /// Whether the wait is over: resolved, failed or cancelled.
    pub open spec fn is_over(self) -> bool {
        self is Resolved || self is Failed || self is Cancelled
    }

    /// Whether the stage works on the event descriptor.
    pub open spec fn needs_descriptor(self) -> bool {
        self is Register || self is Watch || self is Suspend || self is Drain
    }
}

impl AsyncWaitView {
    /// A wait holds a descriptor while it works on it, and none before it
    /// has opened one.
    pub open spec fn well_formed(self) -> bool {
        &&& self.stage.needs_descriptor() ==> self.descriptor is Some
        &&& self.stage is Open ==> self.descriptor is None
    }

    /// The wait at another stage.
    pub open spec fn at(self, stage: AsyncStage) -> AsyncWaitView {
        AsyncWaitView { stage, ..self }
    }

    /// The registration of the wait's descriptor for its point.
    pub open spec fn registration(self) -> DrmSyncobjEventFd {
        DrmSyncobjEventFd {
            handle: self.handle,
            flags: SyncobjEventFdFlags { bits: 0 },
            point: self.point,
            fd: self.descriptor.unwrap(),
            _padding: 0,
        }
    }

    /// What the driver has to do next. While the wait is under way, that is
    /// the step of its stage; the descriptor is opened non-blocking and
    /// close-on-exec with a counter of zero. Once the wait is over, the
    /// descriptor is to be closed if there still is one.
    pub open spec fn action(self) -> AsyncAction {
        match self.stage {
            AsyncStage::Open => AsyncAction::OpenEventFd {
                initial_value: 0,
                nonblocking: true,
                close_on_exec: true,
            },
            AsyncStage::Register => AsyncAction::Register(self.registration()),
            AsyncStage::Watch => AsyncAction::Watch { fd: self.descriptor.unwrap() },
            AsyncStage::Suspend => AsyncAction::AwaitReadable { fd: self.descriptor.unwrap() },
            AsyncStage::Drain => AsyncAction::Drain {
                fd: self.descriptor.unwrap(),
                len: EVENT_COUNTER_SIZE,
            },
            _ => match self.descriptor {
                Some(fd) => AsyncAction::Close { fd },
                None => AsyncAction::Nothing,
            },
        }
    }

    /// The wait after an event.
    ///
    /// Each stage takes the event that reports its own step and moves on to
    /// the next stage if the step went well, to `Failed` if it did not. A
    /// read that would have blocked found nothing to drain: the wait goes
    /// back to being suspended. A successful read resolves the wait. The
    /// closing of the descriptor is taken once the wait is over. Any other
    /// event changes nothing.
    pub open spec fn step(self, event: AsyncEvent) -> AsyncWaitView {
        match (self.stage, event) {
            (AsyncStage::Open, AsyncEvent::Opened(Ok(fd))) => AsyncWaitView {
                stage: AsyncStage::Register,
                descriptor: Some(fd),
                ..self
            },
            (AsyncStage::Open, AsyncEvent::Opened(Err(error))) => self.at(
                AsyncStage::Failed(error),
            ),
            (AsyncStage::Register, AsyncEvent::Registered(Ok(_))) => self.at(AsyncStage::Watch),
            (AsyncStage::Register, AsyncEvent::Registered(Err(error))) => self.at(
                AsyncStage::Failed(error),
            ),
            (AsyncStage::Watch, AsyncEvent::Watched(Ok(_))) => self.at(AsyncStage::Suspend),
            (AsyncStage::Watch, AsyncEvent::Watched(Err(error))) => self.at(
                AsyncStage::Failed(error),
            ),
            (AsyncStage::Suspend, AsyncEvent::Readable(Ok(_))) => self.at(AsyncStage::Drain),
            (AsyncStage::Suspend, AsyncEvent::Readable(Err(error))) => self.at(
                AsyncStage::Failed(error),
            ),
            (AsyncStage::Drain, AsyncEvent::Drained(Ok(_))) => self.at(AsyncStage::Resolved),
            (AsyncStage::Drain, AsyncEvent::Drained(Err(error))) => if error.code == EAGAIN {
                self.at(AsyncStage::Suspend)
            } else {
                self.at(AsyncStage::Failed(error))
            },
            (_, AsyncEvent::Closed) => if self.stage.is_over() {
                AsyncWaitView { descriptor: None, ..self }
            } else {
                self
            },
            _ => self,
        }
    }

    /// The wait after it was given up: cancelled if it was under way, as it
    /// was if it was over.
    pub open spec fn cancel(self) -> AsyncWaitView {
        if self.stage.is_over() {
            self
        } else {
            self.at(AsyncStage::Cancelled)
        }
    }
}

impl TimelineSyncObj {
    /// An asynchronous wait for `point` of this object, at its first stage;
    /// nothing for an object that is not live.
    pub fn wait_async(&self, point: u64) -> (wait: Option<AsyncWait>)
        ensures
            wait is Some <==> self@.is_live(),
            wait is Some ==> wait.unwrap()@ == (AsyncWaitView {
                handle: self@.handle,
                point,
                stage: AsyncStage::Open,
                descriptor: None,
            }),
    {
        if self.is_live() {
            Some(
                AsyncWait {
                    handle: self.get_raw_handle(),
                    point,
                    stage: AsyncStage::Open,
                    descriptor: None,
                },
            )
        } else {
            None
        }
    }
}

impl AsyncWait {
    #[verifier::type_invariant]
    spec fn inv(&self) -> bool {
        self@.well_formed()
    }

    /// How far the wait has come.
    pub fn stage(&self) -> (stage: AsyncStage)
        ensures
            stage == self@.stage,
    {
        self.stage
    }

    /// The event descriptor that the wait holds, if any.
    pub fn descriptor(&self) -> (descriptor: Option<i32>)
        ensures
            descriptor == self@.descriptor,
            self@.well_formed(),
    {
        proof {
            use_type_invariant(self);
        }
        self.descriptor
    }

    /// Whether the point was reached.
    pub fn is_resolved(&self) -> (resolved: bool)
        ensures
            resolved == (self@.stage is Resolved),
    {
        match self.stage {
            AsyncStage::Resolved => true,
            _ => false,
        }
    }

    /// What the driver has to do next.
    pub fn action(&self) -> (action: AsyncAction)
        ensures
            action == self@.action(),
    {
        proof {
            use_type_invariant(self);
        }
        match self.stage {
            AsyncStage::Open => AsyncAction::OpenEventFd {
                initial_value: 0,
                nonblocking: true,
                close_on_exec: true,
            },
            AsyncStage::Register => match self.descriptor {
                Some(fd) => AsyncAction::Register(
                    DrmSyncobjEventFd {
                        handle: self.handle,
                        flags: SyncobjEventFdFlags::empty(),
                        point: self.point,
                        fd,
                        _padding: 0,
                    },
                ),
                None => AsyncAction::Nothing,
            },
            AsyncStage::Watch => match self.descriptor {
                Some(fd) => AsyncAction::Watch { fd },
                None => AsyncAction::Nothing,
            },
            AsyncStage::Suspend => match self.descriptor {
                Some(fd) => AsyncAction::AwaitReadable { fd },
                None => AsyncAction::Nothing,
            },
            AsyncStage::Drain => match self.descriptor {
                Some(fd) => AsyncAction::Drain { fd, len: EVENT_COUNTER_SIZE },
                None => AsyncAction::Nothing,
            },
            _ => match self.descriptor {
                Some(fd) => AsyncAction::Close { fd },
                None => AsyncAction::Nothing,
            },
        }
    }

    /// Takes the report of a step.
    pub fn advance(&mut self, event: AsyncEvent)
        ensures
            final(self)@ == old(self)@.step(event),
    {
        proof {
            use_type_invariant(&*self);
        }
        match (self.stage, event) {
            (AsyncStage::Open, AsyncEvent::Opened(Ok(fd))) => {
                *self = AsyncWait {
                    handle: self.handle,
                    point: self.point,
                    stage: AsyncStage::Register,
                    descriptor: Some(fd),
                };
            },
            (AsyncStage::Open, AsyncEvent::Opened(Err(error))) => {
                self.stage = AsyncStage::Failed(error);
            },
            (AsyncStage::Register, AsyncEvent::Registered(Ok(_))) => {
                self.stage = AsyncStage::Watch;
            },
            (AsyncStage::Register, AsyncEvent::Registered(Err(error))) => {
                self.stage = AsyncStage::Failed(error);
            },
            (AsyncStage::Watch, AsyncEvent::Watched(Ok(_))) => {
                self.stage = AsyncStage::Suspend;
            },
            (AsyncStage::Watch, AsyncEvent::Watched(Err(error))) => {
                self.stage = AsyncStage::Failed(error);
            },
            (AsyncStage::Suspend, AsyncEvent::Readable(Ok(_))) => {
                self.stage = AsyncStage::Drain;
            },
            (AsyncStage::Suspend, AsyncEvent::Readable(Err(error))) => {
                self.stage = AsyncStage::Failed(error);
            },
            (AsyncStage::Drain, AsyncEvent::Drained(Ok(_))) => {
                self.stage = AsyncStage::Resolved;
            },
            (AsyncStage::Drain, AsyncEvent::Drained(Err(error))) => {
                if error.is_would_block() {
                    self.stage = AsyncStage::Suspend;
                } else {
                    self.stage = AsyncStage::Failed(error);
                }
            },
            (stage, AsyncEvent::Closed) => {
                match stage {
                    AsyncStage::Resolved | AsyncStage::Failed(_) | AsyncStage::Cancelled => {
                        self.descriptor = None;
                    },
                    _ => {},
                }
            },
            _ => {},
        }
    }

    /// Gives the wait up. A wait that is under way becomes cancelled; one
    /// that is over stays as it is. What is left to do is to close the
    /// descriptor, if the wait holds one.
    pub fn cancel(&mut self)
        ensures
            final(self)@ == old(self)@.cancel(),
    {
        proof {
            use_type_invariant(&*self);
        }
        match self.stage {
            AsyncStage::Resolved | AsyncStage::Failed(_) | AsyncStage::Cancelled => {},
            _ => {
                self.stage = AsyncStage::Cancelled;
            },
        }
    }
}

} // verus!
