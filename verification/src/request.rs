//! Requests: the life of a request from its allocation to its completion,
//! and what each control call on it leads to.

use crate::error::failure_of;
use crate::error::control_failure;
use crate::error::lemma_classified;
use crate::error::Error;
use crate::error::Operation;
use crate::error::EBUSY;
use crate::error::MEDIA_IOC_REQUEST_ALLOC;
use crate::error::MEDIA_REQUEST_IOC_QUEUE;
use crate::error::MEDIA_REQUEST_IOC_REINIT;
use vstd::prelude::*;

verus! {

/// Where a request stands in its life.
#[derive(Debug, Copy, Clone, PartialEq, Eq, Structural)]
pub enum RequestState {
    /// Allocated or made ready again, and not queued.
    Allocated,
    /// Queued, and not known to have completed.
    Queued,
    /// Completed after having been queued.
    Completed,
}

/// A control call to make: the file descriptor to make it on, and the number
/// of the call.
#[derive(Debug, Copy, Clone, PartialEq, Eq, Structural)]
pub struct ControlCall {
    pub fd: i32,
    pub api: u64,
}

/// A request allocated on a media device. It holds the file descriptor of
/// the device and that of the request as plain numbers: it opens and closes
/// neither.
#[derive(Debug, PartialEq, Eq)]
pub struct Request {
    media_fd: i32,
    request_fd: i32,
    state: RequestState,
}

/// What a request holds.
pub struct RequestView {
    /// The file descriptor of the media device that the request was
    /// allocated on.
    pub media_fd: i32,
    /// The file descriptor of the request.
    pub request_fd: i32,
    pub state: RequestState,
}

impl View for Request {
    type V = RequestView;

    closed spec fn view(&self) -> RequestView {
        RequestView { media_fd: self.media_fd, request_fd: self.request_fd, state: self.state }
    }
}

impl RequestView {
    /// The error of making ready again a request that is still queued.
    pub open spec fn busy(self) -> Error {
        Error::DeviceIsBusy { fd: self.request_fd, code: EBUSY, api: MEDIA_REQUEST_IOC_REINIT }
    }

    /// The error of queueing a request that is still queued.
    pub open spec fn already_queued(self) -> Error {
        Error::RequestIsAlreadyQueued {
            fd: self.request_fd,
            code: EBUSY,
            api: MEDIA_REQUEST_IOC_QUEUE,
        }
    }

    /// The state after the kernel answered `reply` to the call that makes
    /// the request ready again: ready on success, unless it was still queued
    /// and the call not due; else as before.
    pub open spec fn after_init(self, reply: Result<(), i32>) -> RequestView {
        if self.state != RequestState::Queued && reply is Ok {
            RequestView { state: RequestState::Allocated, ..self }
        } else {
            self
        }
    }

    /// What making ready again gives on the answer `reply`: from a request
    /// still queued, `DeviceIsBusy`, whatever the answer; else success on
    /// success, and `DeviceIsBusy` with the error number on failure.
    pub open spec fn init_outcome(self, reply: Result<(), i32>) -> Result<(), Error> {
        if self.state == RequestState::Queued {
            Err(self.busy())
        } else {
            match reply {
                Ok(_) => Ok(()),
                Err(code) => Err(
                    Error::DeviceIsBusy {
                        fd: self.request_fd,
                        code,
                        api: MEDIA_REQUEST_IOC_REINIT,
                    },
                ),
            }
        }
    }

    /// The state after the kernel answered `reply` to the call that queues
    /// the request: queued on success; on failure as before.
    pub open spec fn after_queue(self, reply: Result<(), i32>) -> RequestView {
        if self.state != RequestState::Queued && reply is Ok {
            RequestView { state: RequestState::Queued, ..self }
        } else {
            self
        }
    }

    /// What queueing gives on the answer `reply`: from a request still
    /// queued, `RequestIsAlreadyQueued`, whatever the answer; else success
    /// on success, and on failure the error that the error number stands
    /// for after this call.
    pub open spec fn queue_outcome(self, reply: Result<(), i32>) -> Result<(), Error> {
        if self.state == RequestState::Queued {
            Err(self.already_queued())
        } else {
            match reply {
                Ok(_) => Ok(()),
                Err(code) => Err(
                    control_failure(
                        failure_of(Operation::RequestQueue, code),
                        self.request_fd,
                        code,
                        MEDIA_REQUEST_IOC_QUEUE,
                    ),
                ),
            }
        }
    }
}

impl Request {
    /// The control call that allocates a request on the media device with
    /// the file descriptor `media_fd`.
    pub fn alloc_call(media_fd: i32) -> (call: ControlCall)
        ensures
            call == (ControlCall { fd: media_fd, api: MEDIA_IOC_REQUEST_ALLOC }),
    {
        ControlCall { fd: media_fd, api: MEDIA_IOC_REQUEST_ALLOC }
    }

    /// Takes the answer of the kernel to the allocation of a request on the
    /// media device `media_fd`: the file descriptor of the new request, or
    /// the error number. A failure is reported as `Ioctl`, whatever the
    /// error number.
    pub fn new(media_fd: i32, reply: Result<i32, i32>) -> (r: Result<Self, Error>)
        ensures
            match reply {
                Ok(request_fd) => r is Ok && r.unwrap()@ == (RequestView {
                    media_fd,
                    request_fd,
                    state: RequestState::Allocated,
                }),
                Err(code) => r == Err::<Self, Error>(
                    Error::Ioctl { fd: media_fd, code, api: MEDIA_IOC_REQUEST_ALLOC },
                ),
            },
    {
        match reply {
            Ok(request_fd) => Ok(Self { media_fd, request_fd, state: RequestState::Allocated }),
            Err(code) => {
                proof {
                    lemma_classified(Operation::RequestAlloc, code);
                }
                Err(Error::ioctl_error(media_fd, code, MEDIA_IOC_REQUEST_ALLOC))
            },
        }
    }

    /// Takes the answer of the kernel to the allocation of one more request
    /// on the same media device.
    pub fn new_request(&self, reply: Result<i32, i32>) -> (r: Result<Self, Error>)
        ensures
            match reply {
                Ok(request_fd) => r is Ok && r.unwrap()@ == (RequestView {
                    media_fd: self@.media_fd,
                    request_fd,
                    state: RequestState::Allocated,
                }),
                Err(code) => r == Err::<Self, Error>(
                    Error::Ioctl { fd: self@.media_fd, code, api: MEDIA_IOC_REQUEST_ALLOC },
                ),
            },
    {
        Self::new(self.media_fd, reply)
    }

    /// The file descriptor of the media device.
    pub fn media_fd(&self) -> (fd: i32)
        ensures
            fd == self@.media_fd,
    {
        self.media_fd
    }

    /// The file descriptor of the request.
    pub fn request_fd(&self) -> (fd: i32)
        ensures
            fd == self@.request_fd,
    {
        self.request_fd
    }

    /// Where the request stands in its life.
    pub fn state(&self) -> (state: RequestState)
        ensures
            state == self@.state,
    {
        self.state
    }

    /// Records that the request, which was queued, has completed. Nothing
    /// changes for a request that is not queued. Says whether it was.
    pub fn complete(&mut self) -> (was_queued: bool)
        ensures
            was_queued == (old(self)@.state == RequestState::Queued),
            was_queued ==> final(self)@ == (RequestView {
                state: RequestState::Completed,
                ..old(self)@
            }),
            !was_queued ==> final(self)@ == old(self)@,
    {
        match self.state {
            RequestState::Queued => {
                self.state = RequestState::Completed;
                true
            },
            _ => false,
        }
    }

    /// The control call that makes the request ready for use again without
    /// allocating it anew. A request that is still queued cannot be made
    /// ready: the call is not to be made, and the error is `DeviceIsBusy`.
    pub fn init_call(&self) -> (r: Result<ControlCall, Error>)
        ensures
            self@.state == RequestState::Queued ==> r == Err::<ControlCall, Error>(self@.busy()),
            self@.state != RequestState::Queued ==> r == Ok::<ControlCall, Error>(
                ControlCall { fd: self@.request_fd, api: MEDIA_REQUEST_IOC_REINIT },
            ),
    {
        match self.state {
            RequestState::Queued => Err(
                Error::DeviceIsBusy {
                    fd: self.request_fd,
                    code: EBUSY,
                    api: MEDIA_REQUEST_IOC_REINIT,
                },
            ),
            _ => Ok(ControlCall { fd: self.request_fd, api: MEDIA_REQUEST_IOC_REINIT }),
        }
    }

    /// Takes the answer of the kernel to the call of `init_call`. After a
    /// success the request is ready to be queued again. The one error is
    /// `DeviceIsBusy`.
    pub fn init(&mut self, reply: Result<(), i32>) -> (r: Result<(), Error>)
        ensures
            final(self)@ == old(self)@.after_init(reply),
            r == old(self)@.init_outcome(reply),
    {
        match self.state {
            RequestState::Queued => Err(
                Error::DeviceIsBusy {
                    fd: self.request_fd,
                    code: EBUSY,
                    api: MEDIA_REQUEST_IOC_REINIT,
                },
            ),
            _ => match reply {
                Ok(_) => {
                    self.state = RequestState::Allocated;
                    Ok(())
                },
                Err(code) => {
                    proof {
                        lemma_classified(Operation::RequestReinit, code);
                    }
                    Err(Error::ioctl_error(self.request_fd, code, MEDIA_REQUEST_IOC_REINIT))
                },
            },
        }
    }

    /// The control call that queues the request. A request that is still
    /// queued cannot be queued again: the call is not to be made, and the
    /// error is `RequestIsAlreadyQueued`.
    pub fn queue_call(&self) -> (r: Result<ControlCall, Error>)
        ensures
            self@.state == RequestState::Queued ==> r == Err::<ControlCall, Error>(
                self@.already_queued(),
            ),
            self@.state != RequestState::Queued ==> r == Ok::<ControlCall, Error>(
                ControlCall { fd: self@.request_fd, api: MEDIA_REQUEST_IOC_QUEUE },
            ),
    {
        match self.state {
            RequestState::Queued => Err(
                Error::RequestIsAlreadyQueued {
                    fd: self.request_fd,
                    code: EBUSY,
                    api: MEDIA_REQUEST_IOC_QUEUE,
                },
            ),
            _ => Ok(ControlCall { fd: self.request_fd, api: MEDIA_REQUEST_IOC_QUEUE }),
        }
    }

    /// Takes the answer of the kernel to the call of `queue_call`. After a
    /// success the request is queued; after a failure it is where it was.
    pub fn queue(&mut self, reply: Result<(), i32>) -> (r: Result<(), Error>)
        ensures
            final(self)@ == old(self)@.after_queue(reply),
            r == old(self)@.queue_outcome(reply),
    {
        match self.state {
            RequestState::Queued => Err(
                Error::RequestIsAlreadyQueued {
                    fd: self.request_fd,
                    code: EBUSY,
                    api: MEDIA_REQUEST_IOC_QUEUE,
                },
            ),
            _ => match reply {
                Ok(_) => {
                    self.state = RequestState::Queued;
                    Ok(())
                },
                Err(code) => {
                    proof {
                        lemma_classified(Operation::RequestQueue, code);
                    }
                    Err(Error::ioctl_error(self.request_fd, code, MEDIA_REQUEST_IOC_QUEUE))
                },
            },
        }
    }
}

/// Making a request ready again fails with `DeviceIsBusy` and nothing else,
/// and does so from every request that is still queued.
pub proof fn lemma_init_fails_busy(request: RequestView, reply: Result<(), i32>)
    ensures
        request.init_outcome(reply) is Err ==> request.init_outcome(reply)->Err_0 is DeviceIsBusy,
        request.state == RequestState::Queued ==> request.init_outcome(reply) is Err,
        request.init_outcome(reply) is Err ==> request.after_init(reply) == request,
{
}

/// A failed queueing leaves the request where it was, and a successful one
/// leaves it queued.
pub proof fn lemma_queue_moves(request: RequestView, reply: Result<(), i32>)
    ensures
        request.queue_outcome(reply) is Err ==> request.after_queue(reply) == request,
        request.queue_outcome(reply) is Ok ==> request.after_queue(reply).state
            == RequestState::Queued,
        request.queue_outcome(reply) is Ok <==> request.state != RequestState::Queued && reply
            is Ok,
{
}

} // verus!
