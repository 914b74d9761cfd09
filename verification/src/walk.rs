//! The walk over the ids of all live objects of one kind.
//!
//! It starts before the first id and asks the kernel, again and again, for
//! the next id after the one it stands on. Each id that comes back is read by
//! a [`Probe`]; an object that has gone in the meantime is passed over. The
//! cursor moves on with every id, read or not. The walk is over when the
//! kernel has no next id.
//!
//! The kernel calls are the caller's: the walk says which call comes next and
//! takes the answer.

use crate::probe::{Probe, Reply, Request};
use vstd::prelude::*;

verus! {

/// What a walk is doing.
#[derive(Debug)]
pub enum Stage<R> {
    /// Waits for the next id after the cursor.
    Seeking,
    /// Reads the object at the cursor.
    Probing(Probe<R>),
    /// Over: the kernel had no next id.
    Finished,
}

/// A walk as plain values: the id it stands on, what it is doing, and the
/// descriptors it has read, in the order in which the kernel gave their ids.
pub struct WalkView<R> {
    pub cursor: u32,
    pub stage: Stage<R>,
    pub found: Seq<R>,
}

impl<R> WalkView<R> {
    /// A probe leaves a walk when it is done.
    pub open spec fn wf(self) -> bool {
        self.stage matches Stage::Probing(probe) ==> !(probe is Done)
    }

    /// The walk before its first call.
    pub open spec fn initial() -> WalkView<R> {
        WalkView { cursor: 0, stage: Stage::Seeking, found: Seq::empty() }
    }

    /// The call that the walk waits for.
    pub open spec fn pending(self) -> Request {
        match self.stage {
            Stage::Seeking => Request::NextId { after: self.cursor },
            Stage::Probing(probe) => probe.pending(),
            Stage::Finished => Request::Done,
        }
    }

    /// The handle that the walk holds.
    pub open spec fn held(self) -> Option<i32> {
        match self.stage {
            Stage::Probing(probe) => probe.held(),
            _ => None,
        }
    }

    /// `reply` is an answer to the call that the walk waits for.
    pub open spec fn answers(self, reply: Reply<R>) -> bool {
        match self.stage {
            Stage::Seeking => reply is NextId,
            Stage::Probing(probe) => probe.answers(reply),
            Stage::Finished => false,
        }
    }

    /// `reply` keeps the kernel's word on ids: the next id after the cursor
    /// is greater than the cursor.
    pub open spec fn ascends(self, reply: Reply<R>) -> bool {
        reply matches Reply::NextId { status, id } ==> status == 0 ==> id > self.cursor
    }

    /// The walk after `reply`. A status other than zero for the next id ends
    /// it. An id moves the cursor there and starts a probe of it. A probe
    /// that is done hands over its record, if it read one, and the walk seeks
    /// again. A reply that answers another call changes nothing.
    pub open spec fn next(self, reply: Reply<R>) -> WalkView<R> {
        match self.stage {
            Stage::Seeking => match reply {
                Reply::NextId { status, id } => if status != 0 {
                    WalkView { stage: Stage::Finished, ..self }
                } else {
                    WalkView { cursor: id, stage: Stage::Probing(Probe::Opening { id }), ..self }
                },
                _ => self,
            },
            Stage::Probing(probe) => match probe.next(reply) {
                Probe::Done { record: Some(record) } => WalkView {
                    stage: Stage::Seeking,
                    found: self.found.push(record),
                    ..self
                },
                Probe::Done { record: None } => WalkView { stage: Stage::Seeking, ..self },
                probe => WalkView { stage: Stage::Probing(probe), ..self },
            },
            Stage::Finished => self,
        }
    }

    /// The calls that the walk still has to make, at most: four for every id
    /// after the cursor, and those of the probe at work.
    pub open spec fn calls_left(self) -> nat {
        let ahead = 4 * (u32::MAX - self.cursor) + 1;
        match self.stage {
            Stage::Seeking => ahead as nat,
            Stage::Probing(probe) => (ahead + probe.calls_left()) as nat,
            Stage::Finished => 0,
        }
    }

    /// The walk after the replies of `replies`, one after the other.
    pub open spec fn replay(self, replies: Seq<Reply<R>>) -> WalkView<R>
        decreases replies.len(),
    {
        if replies.len() == 0 {
            self
        } else {
            self.replay(replies.drop_last()).next(replies.last())
        }
    }

    /// Each reply of `replies` answers the call that the walk waited for when
    /// it came, and the ids among them ascend.
    pub open spec fn lawful(self, replies: Seq<Reply<R>>) -> bool {
        forall|i: int|
            0 <= i < replies.len() ==> {
                let at = #[trigger] self.replay(replies.take(i));
                at.answers(replies[i]) && at.ascends(replies[i])
            }
    }
}

/// The walk over the objects of one kind.
#[derive(Debug)]
pub struct Walk<R> {
    cursor: u32,
    stage: Stage<R>,
    found: Vec<R>,
}

impl<R> View for Walk<R> {
    type V = WalkView<R>;

    closed spec fn view(&self) -> WalkView<R> {
        WalkView { cursor: self.cursor, stage: self.stage, found: self.found@ }
    }
}

impl<R> Walk<R> {
    #[verifier::type_invariant]
    spec fn inv(self) -> bool {
        self@.wf()
    }

    /// A walk that has made no call yet.
    pub fn start() -> (walk: Walk<R>)
        ensures
            walk@ == WalkView::<R>::initial(),
    {
        Walk { cursor: 0, stage: Stage::Seeking, found: Vec::new() }
    }

    /// The call to make next.
    pub fn request(&self) -> (request: Request)
        ensures
            request == self@.pending(),
            self@.wf(),
    {
        proof {
            use_type_invariant(self);
        }
        match &self.stage {
            Stage::Seeking => Request::NextId { after: self.cursor },
            Stage::Probing(probe) => probe.request(),
            Stage::Finished => Request::Done,
        }
    }

    /// Takes the answer to the last request.
    pub fn advance(self, reply: Reply<R>) -> (walk: Walk<R>)
        ensures
            walk@ == self@.next(reply),
            walk@.wf(),
    {
        let Walk { cursor, stage, found } = self;
        match stage {
            Stage::Seeking => match reply {
                Reply::NextId { status, id } => if status != 0 {
                    Walk { cursor, stage: Stage::Finished, found }
                } else {
                    Walk { cursor: id, stage: Stage::Probing(Probe::start(id)), found }
                },
                _ => Walk { cursor, stage: Stage::Seeking, found },
            },
            Stage::Probing(probe) => match probe.advance(reply) {
                Probe::Done { record } => {
                    let mut found = found;
                    match record {
                        Some(record) => found.push(record),
                        None => {},
                    }
                    Walk { cursor, stage: Stage::Seeking, found }
                },
                probe => Walk { cursor, stage: Stage::Probing(probe), found },
            },
            Stage::Finished => Walk { cursor, stage: Stage::Finished, found },
        }
    }

    /// The kernel had no next id: the walk is over.
    pub fn is_finished(&self) -> (over: bool)
        ensures
            over == (self@.stage is Finished),
            over == (self@.pending() is Done),
    {
        proof {
            use_type_invariant(self);
        }
        match &self.stage {
            Stage::Finished => true,
            _ => false,
        }
    }

    /// The descriptors read so far, in the order of the walk.
    pub fn into_records(self) -> (records: Vec<R>)
        ensures
            records@ == self@.found,
    {
        self.found
    }
}

/// Every answer brings a walk nearer to its end, whether the object it stood
/// on was read, had gone, or could not be fetched.
pub proof fn law_walk_step_spends<R>(walk: WalkView<R>, reply: Reply<R>)
    requires
        walk.wf(),
        walk.answers(reply),
        walk.ascends(reply),
    ensures
        walk.next(reply).wf(),
        walk.next(reply).calls_left() < walk.calls_left(),
{
}

/// A walk ends: the replies that it can take before it is over are no more
/// than the calls it had left, four for every id of the id space and one.
pub proof fn law_walk_ends<R>(walk: WalkView<R>, replies: Seq<Reply<R>>)
    requires
        walk.wf(),
        walk.lawful(replies),
    ensures
        walk.replay(replies).wf(),
        replies.len() + walk.replay(replies).calls_left() <= walk.calls_left(),
        walk.calls_left() <= 4 * u32::MAX + 4,
    decreases replies.len(),
{
    if replies.len() > 0 {
        let before = replies.drop_last();
        assert forall|i: int| 0 <= i < before.len() implies {
            let at = #[trigger] walk.replay(before.take(i));
            at.answers(before[i]) && at.ascends(before[i])
        } by {
            assert(before.take(i) =~= replies.take(i));
        }
        law_walk_ends(walk, before);
        assert(replies.take(replies.len() - 1) =~= before);
        law_walk_step_spends(walk.replay(before), replies.last());
    }
}

/// `reply` hands over no handle: it is no answer to an open, or the object
/// had gone.
pub open spec fn gives_no_handle<R>(reply: Reply<R>) -> bool {
    reply matches Reply::Opened { fd } ==> fd < 0
}

/// A walk to which no open gives a handle reads nothing: where every object
/// has gone, the list stays as it was.
pub proof fn law_walk_without_handles_finds_nothing<R>(walk: WalkView<R>, replies: Seq<Reply<R>>)
    requires
        walk.wf(),
        walk.held() is None,
        forall|i: int| 0 <= i < replies.len() ==> gives_no_handle(#[trigger] replies[i]),
    ensures
        walk.replay(replies).wf(),
        walk.replay(replies).held() is None,
        walk.replay(replies).found == walk.found,
    decreases replies.len(),
{
    if replies.len() > 0 {
        let before = replies.drop_last();
        assert forall|i: int| 0 <= i < before.len() implies gives_no_handle(
            #[trigger] before[i],
        ) by {
            assert(before[i] == replies[i]);
        }
        law_walk_without_handles_finds_nothing(walk, before);
        assert(gives_no_handle(replies[replies.len() - 1]));
    }
}

/// What a walk has read stays, in its place: later replies only add behind
/// it.
pub proof fn law_walk_keeps_order<R>(walk: WalkView<R>, replies: Seq<Reply<R>>)
    ensures
        walk.found.is_prefix_of(walk.replay(replies).found),
    decreases replies.len(),
{
    if replies.len() > 0 {
        law_walk_keeps_order(walk, replies.drop_last());
    }
}

/// A walk holds a handle exactly while it waits for a fetch or a close: never
/// while it asks for the next id, and never when it is over. A handle leaves
/// it only by the answer to the request to close that handle.
pub proof fn law_walk_closes_its_handle<R>(walk: WalkView<R>, reply: Reply<R>)
    requires
        walk.wf(),
    ensures
        walk.held() is Some <==> walk.pending() is Fetch || walk.pending() is Close,
        walk.held() is Some ==> walk.next(reply).held() == walk.held() || (walk.next(
            reply,
        ).held() is None && walk.pending() == (Request::Close { fd: walk.held().unwrap() })
            && reply is Closed),
        walk.held() is None && walk.next(reply).held() is Some ==> walk.pending() is Open && (
        reply matches Reply::Opened { fd } && fd >= 0 && walk.next(reply).held() == Some(fd)),
{
}

} // verus!
