//! Reading one kernel object by its id: open a handle, fetch the descriptor
//! through it, close the handle.
//!
//! The kernel calls are the caller's. A [`Probe`] says which call comes next
//! and takes the answer; it never holds a handle past the call that closes
//! it, and it asks for that call whatever the fetch gave.

use vstd::prelude::*;

verus! {

/// The call that the caller makes next.
#[derive(Clone, Copy, Debug, PartialEq, Eq, Structural)]
pub enum Request {
    /// Ask for the first id after `after`.
    NextId { after: u32 },
    /// Open a handle to the object `id`.
    Open { id: u32 },
    /// Fetch the descriptor through the handle `fd`.
    Fetch { fd: i32 },
    /// Close the handle `fd`.
    Close { fd: i32 },
    /// Nothing: the work is over.
    Done,
}

/// What a call gave.
#[derive(Debug)]
pub enum Reply<R> {
    /// To `NextId`: the call's status, zero for success, and the id it found.
    NextId { status: i32, id: u32 },
    /// To `Open`: the handle, or a negative number where the object is gone.
    Opened { fd: i32 },
    /// To `Fetch`: the call's status, zero for success, and the buffer that it
    /// had to fill.
    Fetched { status: i32, record: R },
    /// To `Close`.
    Closed,
}

/// No live object has the id.
#[derive(Clone, Copy, Debug, PartialEq, Eq, Structural)]
pub struct NotFound;

/// Tells a handle from the failure to open one: the kernel hands out handles
/// from zero upwards and reports failure by a negative number.
pub fn resolve(fd: i32) -> (handle: Result<i32, NotFound>)
    ensures
        handle == if fd >= 0 {
            Ok::<i32, NotFound>(fd)
        } else {
            Err::<i32, NotFound>(NotFound)
        },
{
    if fd >= 0 {
        Ok(fd)
    } else {
        Err(NotFound)
    }
}

/// The reading of one object, by the call that it waits for.
#[derive(Debug)]
pub enum Probe<R> {
    /// Waits for the handle to the object `id`.
    Opening { id: u32 },
    /// Holds `fd` and waits for the descriptor.
    Fetching { fd: i32 },
    /// Holds `fd` and waits for its close; `record` is what the fetch gave.
    Closing { fd: i32, record: Option<R> },
    /// Holds nothing; `record` is the descriptor, if it was read.
    Done { record: Option<R> },
}

impl<R> Probe<R> {
    /// The call that the probe waits for.
    pub open spec fn pending(self) -> Request {
        match self {
            Probe::Opening { id } => Request::Open { id },
            Probe::Fetching { fd } => Request::Fetch { fd },
            Probe::Closing { fd, .. } => Request::Close { fd },
            Probe::Done { .. } => Request::Done,
        }
    }

    /// The handle that the probe holds.
    pub open spec fn held(self) -> Option<i32> {
        match self {
            Probe::Fetching { fd } => Some(fd),
            Probe::Closing { fd, .. } => Some(fd),
            _ => None,
        }
    }

    /// `reply` is an answer to the call that the probe waits for.
    pub open spec fn answers(self, reply: Reply<R>) -> bool {
        match (self, reply) {
            (Probe::Opening { .. }, Reply::Opened { .. }) => true,
            (Probe::Fetching { .. }, Reply::Fetched { .. }) => true,
            (Probe::Closing { .. }, Reply::Closed) => true,
            _ => false,
        }
    }

    /// The probe after `reply`. A failure to open ends it with no record and
    /// no handle to close. A fetch is followed by the close, and its record is
    /// kept where its status is zero. A reply that answers another call
    /// changes nothing.
    pub open spec fn next(self, reply: Reply<R>) -> Probe<R> {
        match (self, reply) {
            (Probe::Opening { .. }, Reply::Opened { fd }) => if fd >= 0 {
                Probe::Fetching { fd }
            } else {
                Probe::Done { record: None }
            },
            (Probe::Fetching { fd }, Reply::Fetched { status, record }) => Probe::Closing {
                fd,
                record: if status == 0 {
                    Some(record)
                } else {
                    None
                },
            },
            (Probe::Closing { record, .. }, Reply::Closed) => Probe::Done { record },
            _ => self,
        }
    }

    /// The calls that the probe still has to make, at most.
    pub open spec fn calls_left(self) -> nat {
        match self {
            Probe::Opening { .. } => 3,
            Probe::Fetching { .. } => 2,
            Probe::Closing { .. } => 1,
            Probe::Done { .. } => 0,
        }
    }

    /// The descriptor that the probe read; `None` while it is at work, and
    /// where the object was gone or the fetch failed.
    pub open spec fn outcome(self) -> Option<R> {
        match self {
            Probe::Done { record } => record,
            _ => None,
        }
    }

    /// A probe of the object `id`.
    pub fn start(id: u32) -> (probe: Probe<R>)
        ensures
            probe == (Probe::<R>::Opening { id }),
    {
        Probe::Opening { id }
    }

    /// The call to make next.
    pub fn request(&self) -> (request: Request)
        ensures
            request == self.pending(),
    {
        match self {
            Probe::Opening { id } => Request::Open { id: *id },
            Probe::Fetching { fd } => Request::Fetch { fd: *fd },
            Probe::Closing { fd, .. } => Request::Close { fd: *fd },
            Probe::Done { .. } => Request::Done,
        }
    }

    /// Takes the answer to the last request.
    pub fn advance(self, reply: Reply<R>) -> (probe: Probe<R>)
        ensures
            probe == self.next(reply),
    {
        match self {
            Probe::Opening { id } => match reply {
                Reply::Opened { fd } => match resolve(fd) {
                    Ok(fd) => Probe::Fetching { fd },
                    Err(NotFound) => Probe::Done { record: None },
                },
                _ => Probe::Opening { id },
            },
            Probe::Fetching { fd } => match reply {
                Reply::Fetched { status, record } => Probe::Closing {
                    fd,
                    record: if status == 0 {
                        Some(record)
                    } else {
                        None
                    },
                },
                _ => Probe::Fetching { fd },
            },
            Probe::Closing { fd, record } => match reply {
                Reply::Closed => Probe::Done { record },
                _ => Probe::Closing { fd, record },
            },
            Probe::Done { record } => Probe::Done { record },
        }
    }

    /// The descriptor that the probe read.
    pub fn finish(self) -> (record: Option<R>)
        ensures
            record == self.outcome(),
    {
        match self {
            Probe::Done { record } => record,
            _ => None,
        }
    }
}

/// A probe holds a handle exactly while it waits for a fetch or a close, so
/// never when it is done; and it gets one only from an open that gave one.
pub proof fn law_probe_handle_comes_from_open<R>(probe: Probe<R>, reply: Reply<R>)
    ensures
        probe.held() is Some <==> probe.pending() is Fetch || probe.pending() is Close,
        probe.held() is None && probe.next(reply).held() is Some ==> probe.pending() is Open && (
        reply matches Reply::Opened { fd } && fd >= 0 && probe.next(reply).held() == Some(fd)),
{
}

/// A handle that a probe holds leaves it only by the answer to the request to
/// close that handle, and that request follows the fetch whatever the fetch
/// gave.
pub proof fn law_probe_closes_its_handle<R>(probe: Probe<R>, reply: Reply<R>)
    requires
        probe.held() is Some,
    ensures
        ({
            let close = Request::Close { fd: probe.held().unwrap() };
            let after = probe.next(reply);
            &&& after.held() == probe.held() || after.held() is None
            &&& after.held() is None ==> probe.pending() == close && reply is Closed
            &&& probe.pending() is Fetch && probe.answers(reply) ==> after.pending() == close
        }),
{
}

/// Every answer brings a probe nearer to its end: it makes three calls at
/// most.
pub proof fn law_probe_ends<R>(probe: Probe<R>, reply: Reply<R>)
    requires
        probe.answers(reply),
    ensures
        probe.next(reply).calls_left() < probe.calls_left() <= 3,
        probe.calls_left() == 0 <==> probe.pending() is Done,
{
}

} // verus!
