//! Operations that take several system calls: those that open a socket.
use crate::address::{sockaddr_un, SockAddr, SocketAddr};
use crate::error::{cvt, Error, ErrorKind};
use crate::platform::Platform;
use crate::reply::Reply;
use crate::request::{Call, CallSpec};
use vstd::prelude::*;
use vstd::slice::slice_to_vec;

verus! {

/// How many connections may wait to be accepted.
pub const BACKLOG: i32 = 128;

/// What is to become of a socket that is being opened.
#[derive(Debug, Clone, Copy, PartialEq, Eq, Structural)]
pub enum Purpose {
    /// It is left without an address.
    Unbound,
    /// It is connected to the address.
    Connect,
    /// It is bound to the address.
    Bind,
    /// It is bound to the address and listens there.
    Listen,
}

/// The call whose return value is awaited.
#[derive(Debug, Clone, Copy, PartialEq, Eq, Structural)]
pub enum Stage {
    /// The socket is being created.
    Creating,
    /// The socket with this descriptor is being connected or bound.
    Attaching { fd: i32 },
    /// The socket with this descriptor is being made to listen.
    Listening { fd: i32 },
    /// The socket is being closed because of an error.
    Abandoning { error: Error },
}

/// A socket that is being opened, with the path of its address as a `P`.
#[verifier::ext_equal]
#[derive(Debug)]
pub struct Opening<P> {
    /// What is to become of it.
    pub purpose: Purpose,
    /// The path of the address.
    pub path: P,
    /// How far it has come.
    pub stage: Stage,
}

impl<P: View> View for Opening<P> {
    type V = Opening<P::V>;

    open spec fn view(&self) -> Opening<P::V> {
        Opening { purpose: self.purpose, path: self.path@, stage: self.stage }
    }
}

/// What to do next.
#[verifier::ext_equal]
#[derive(Debug)]
pub enum Step<P, A, B> {
    /// Make this call, and go on with what it returns.
    Next { call: Call<A, B>, then: Opening<P> },
    /// Nothing more. Here is the descriptor of the open socket, or the reason why there is none.
    Done(Result<i32, Error>),
}

impl<P: View, A: View, B: View> View for Step<P, A, B> {
    type V = Step<P::V, A::V, B::V>;

    open spec fn view(&self) -> Step<P::V, A::V, B::V> {
        match *self {
            Step::Next { call, then } => Step::Next { call: call@, then: then@ },
            Step::Done(result) => Step::Done(result),
        }
    }
}

/// A step of opening a socket.
pub type OpeningStep = Step<Vec<u8>, SocketAddr, &'static [u8]>;

/// A step as a mathematical value.
pub type StepSpec = Step<Seq<u8>, SockAddr, Seq<u8>>;

/// Closes a socket because of an error.
pub open spec fn abandon_spec(opening: Opening<Seq<u8>>, fd: i32, error: Error) -> StepSpec {
    Step::Next {
        call: Call::Close { fd },
        then: Opening { stage: Stage::Abandoning { error }, ..opening },
    }
}

/// How opening a socket goes on, once the awaited call has returned.
pub open spec fn resume_spec(
    platform: Platform,
    opening: Opening<Seq<u8>>,
    reply: Reply,
) -> StepSpec {
    match opening.stage {
        Stage::Abandoning { error } => Step::Done(Err(error)),
        Stage::Creating => if reply.ret < 0 {
            Step::Done(Err(Error::Os(reply.errno)))
        } else if opening.purpose is Unbound {
            Step::Done(Ok(reply.ret))
        } else if !crate::address::fits(platform.layout, opening.path) {
            abandon_spec(opening, reply.ret, crate::address::misfit(opening.path))
        } else {
            let fd = reply.ret;
            let addr = crate::address::encode(platform.layout, opening.path);
            Step::Next {
                call: if opening.purpose is Connect {
                    Call::Connect { fd, addr }
                } else {
                    Call::Bind { fd, addr }
                },
                then: Opening { stage: Stage::Attaching { fd }, ..opening },
            }
        },
        Stage::Attaching { fd } => if reply.ret < 0 {
            abandon_spec(opening, fd, Error::Os(reply.errno))
        } else if opening.purpose is Listen {
            Step::Next {
                call: Call::Listen { fd, backlog: BACKLOG },
                then: Opening { stage: Stage::Listening { fd }, ..opening },
            }
        } else {
            Step::Done(Ok(fd))
        },
        Stage::Listening { fd } => if reply.ret < 0 {
            abandon_spec(opening, fd, Error::Os(reply.errno))
        } else {
            Step::Done(Ok(fd))
        },
    }
}

/// The first step of opening a socket of type `ty`.
pub open spec fn start_spec(
    platform: Platform,
    ty: i32,
    purpose: Purpose,
    path: Seq<u8>,
) -> StepSpec {
    Step::Next {
        call: Call::Socket { domain: platform.layout.af_unix as i32, ty, protocol: 0 },
        then: Opening { purpose, path, stage: Stage::Creating },
    }
}

impl Opening<Vec<u8>> {
    /// Begins to open a socket of type `ty`. The path is not looked at before there is a socket.
    pub fn start(platform: &Platform, ty: i32, purpose: Purpose, path: &[u8]) -> (step: OpeningStep)
        ensures
            step@ == start_spec(*platform, ty, purpose, path@),
    {
        Step::Next {
            call: Call::Socket { domain: platform.layout.af_unix as i32, ty, protocol: 0 },
            then: Opening { purpose, path: slice_to_vec(path), stage: Stage::Creating },
        }
    }

    /// Closes the socket because of an error.
    fn abandon(self, fd: i32, error: Error) -> (step: OpeningStep)
        ensures
            step@ == abandon_spec(self@, fd, error),
    {
        Step::Next {
            call: Call::Close { fd },
            then: Opening {
                purpose: self.purpose,
                path: self.path,
                stage: Stage::Abandoning { error },
            },
        }
    }

    /// Goes on, once the awaited call has returned.
    ///
    /// A socket that cannot be used as it was meant to be is closed before the error is reported.
    pub fn resume(self, platform: &Platform, reply: Reply) -> (step: OpeningStep)
        requires
            platform.layout.wf(),
        ensures
            step@ == resume_spec(*platform, self@, reply),
    {
        let purpose = self.purpose;
        match self.stage {
            Stage::Abandoning { error } => Step::Done(Err(error)),
            Stage::Creating => match cvt(reply.ret, reply.errno) {
                Err(e) => Step::Done(Err(e)),
                Ok(fd) => {
                    if matches!(purpose, Purpose::Unbound) {
                        return Step::Done(Ok(fd));
                    }
                    match sockaddr_un(&platform.layout, self.path.as_slice()) {
                        Err(e) => self.abandon(fd, e),
                        Ok(addr) => Step::Next {
                            call: if matches!(purpose, Purpose::Connect) {
                                Call::Connect { fd, addr }
                            } else {
                                Call::Bind { fd, addr }
                            },
                            then: Opening {
                                purpose,
                                path: self.path,
                                stage: Stage::Attaching { fd },
                            },
                        },
                    }
                },
            },
            Stage::Attaching { fd } => match cvt(reply.ret, reply.errno) {
                Err(e) => self.abandon(fd, e),
                Ok(_) => {
                    if matches!(purpose, Purpose::Listen) {
                        Step::Next {
                            call: Call::Listen { fd, backlog: BACKLOG },
                            then: Opening {
                                purpose,
                                path: self.path,
                                stage: Stage::Listening { fd },
                            },
                        }
                    } else {
                        Step::Done(Ok(fd))
                    }
                },
            },
            Stage::Listening { fd } => match cvt(reply.ret, reply.errno) {
                Err(e) => self.abandon(fd, e),
                Ok(_) => Step::Done(Ok(fd)),
            },
        }
    }
}

/// The calls that were made to open a socket, and what came of them.
#[verifier::ext_equal]
pub struct Run {
    /// The calls, in order. Where nothing has come of them yet, the last one has not returned.
    pub calls: Seq<CallSpec>,
    /// The descriptor of the open socket or the reason why there is none, once there is either.
    pub result: Option<Result<i32, Error>>,
}

/// What comes of a step, where the calls return `replies` one after another.
pub open spec fn run(platform: Platform, step: StepSpec, replies: Seq<Reply>) -> Run
    decreases replies.len(),
{
    match step {
        Step::Done(result) => Run { calls: seq![], result: Some(result) },
        Step::Next { call, then } => if replies.len() == 0 {
            Run { calls: seq![call], result: None }
        } else {
            let rest = run(
                platform,
                resume_spec(platform, then, replies[0]),
                replies.drop_first(),
            );
            Run { calls: seq![call] + rest.calls, result: rest.result }
        },
    }
}

/// The calls on the socket with descriptor `fd` that make of it what it is meant for.
pub open spec fn script(platform: Platform, purpose: Purpose, path: Seq<u8>, fd: i32) -> Seq<
    CallSpec,
> {
    let addr = crate::address::encode(platform.layout, path);
    match purpose {
        Purpose::Unbound => seq![],
        Purpose::Connect => seq![Call::Connect { fd, addr }],
        Purpose::Bind => seq![Call::Bind { fd, addr }],
        Purpose::Listen => seq![
            Call::Bind { fd, addr },
            Call::Listen { fd, backlog: BACKLOG },
        ],
    }
}

/// A path is needed and has no address.
pub open spec fn has_misfit(platform: Platform, purpose: Purpose, path: Seq<u8>) -> bool {
    !(purpose is Unbound) && !crate::address::fits(platform.layout, path)
}

/// The call that creates a socket.
pub open spec fn socket_call(platform: Platform, ty: i32) -> CallSpec {
    Call::Socket { domain: platform.layout.af_unix as i32, ty, protocol: 0 }
}

/// Opening a socket that cannot be created makes no other call, and reports why it failed.
pub proof fn law_opening_without_socket(
    platform: Platform,
    ty: i32,
    purpose: Purpose,
    path: Seq<u8>,
    replies: Seq<Reply>,
)
    requires
        replies.len() > 0,
        replies[0].ret < 0,
    ensures
        run(platform, start_spec(platform, ty, purpose, path), replies) == (Run {
            calls: seq![socket_call(platform, ty)],
            result: Some(Err(Error::Os(replies[0].errno))),
        }),
{
    reveal_with_fuel(run, 2);
}

/// A path that has no address is reported after the socket that was created has been closed, and
/// whatever closing it returned.
pub proof fn law_opening_with_misfit(
    platform: Platform,
    ty: i32,
    purpose: Purpose,
    path: Seq<u8>,
    replies: Seq<Reply>,
)
    requires
        replies.len() > 1,
        replies[0].ret >= 0,
        has_misfit(platform, purpose, path),
    ensures
        run(platform, start_spec(platform, ty, purpose, path), replies) == (Run {
            calls: seq![socket_call(platform, ty), Call::Close { fd: replies[0].ret }],
            result: Some(Err(crate::address::misfit(path))),
        }),
        crate::address::misfit(path).spec_kind() == ErrorKind::InvalidInput,
{
    reveal_with_fuel(run, 3);
}

/// Where every call of the script works, the calls are the creation of the socket and the script,
/// and the result is the descriptor of that socket, which is left open.
pub proof fn law_opening_succeeds(
    platform: Platform,
    ty: i32,
    purpose: Purpose,
    path: Seq<u8>,
    replies: Seq<Reply>,
)
    requires
        replies.len() > script(platform, purpose, path, replies[0].ret).len(),
        forall|i: int|
            0 <= i <= script(platform, purpose, path, replies[0].ret).len() ==> replies[i].ret
                >= 0,
        !has_misfit(platform, purpose, path),
    ensures
        run(platform, start_spec(platform, ty, purpose, path), replies) == (Run {
            calls: seq![socket_call(platform, ty)] + script(
                platform,
                purpose,
                path,
                replies[0].ret,
            ),
            result: Some(Ok(replies[0].ret)),
        }),
{
    reveal_with_fuel(run, 4);
    assert(replies[0].ret >= 0);
    if !(purpose is Unbound) {
        assert(replies[1].ret >= 0);
        assert(replies.drop_first()[0] == replies[1]);
        if purpose is Listen {
            assert(replies[2].ret >= 0);
            assert(replies.drop_first().drop_first()[0] == replies[2]);
        }
    }
}

/// Where call `k` of the script is the first that fails, no later one is made. The socket is closed,
/// and the error is the one that the failed call left, whatever closing it returned.
pub proof fn law_opening_fails(
    platform: Platform,
    ty: i32,
    purpose: Purpose,
    path: Seq<u8>,
    replies: Seq<Reply>,
    k: int,
)
    requires
        1 <= k <= script(platform, purpose, path, replies[0].ret).len(),
        replies.len() > k + 1,
        forall|i: int| 0 <= i < k ==> replies[i].ret >= 0,
        replies[k].ret < 0,
        !has_misfit(platform, purpose, path),
    ensures
        run(platform, start_spec(platform, ty, purpose, path), replies) == (Run {
            calls: seq![socket_call(platform, ty)] + script(
                platform,
                purpose,
                path,
                replies[0].ret,
            ).take(k) + seq![Call::Close { fd: replies[0].ret }],
            result: Some(Err(Error::Os(replies[k].errno))),
        }),
{
    reveal_with_fuel(run, 5);
    assert(replies[0].ret >= 0);
    assert(replies.drop_first()[0] == replies[1]);
    if k == 2 {
        assert(replies[1].ret >= 0);
        assert(replies.drop_first().drop_first()[0] == replies[2]);
    }
}

/// Opening a socket ends after at most four calls.
pub proof fn law_opening_ends(
    platform: Platform,
    ty: i32,
    purpose: Purpose,
    path: Seq<u8>,
    replies: Seq<Reply>,
)
    requires
        replies.len() >= 4,
    ensures
        run(platform, start_spec(platform, ty, purpose, path), replies).result is Some,
        run(platform, start_spec(platform, ty, purpose, path), replies).calls.len() <= 4,
{
    reveal_with_fuel(run, 5);
}

/// A socket that was created is never lost: where opening it ends in an error, the last call closes
/// it, and where it ends well, the result is its descriptor and no call has closed it.
pub proof fn law_no_socket_is_lost(
    platform: Platform,
    ty: i32,
    purpose: Purpose,
    path: Seq<u8>,
    replies: Seq<Reply>,
)
    requires
        replies.len() > 0,
        replies[0].ret >= 0,
    ensures
        ({
            let r = run(platform, start_spec(platform, ty, purpose, path), replies);
            let close: CallSpec = Call::Close { fd: replies[0].ret };
            &&& r.result is Some && r.result->0 is Err ==> r.calls.last() == close
                && !r.calls.drop_last().contains(close)
            &&& r.result is Some && r.result->0 is Ok ==> r.result->0->Ok_0 == replies[0].ret
                && !r.calls.contains(close)
        }),
{
    reveal_with_fuel(run, 5);
}

/// A step stands for the call that it asks for and for how far opening has come.
pub proof fn law_step_is_what_it_holds(step: OpeningStep)
    ensures
        match step {
            Step::Next { call, then } => {
                &&& step@ is Next
                &&& step@->Next_call == call@
                &&& step@->Next_then.purpose == then.purpose
                &&& step@->Next_then.path == then.path@
                &&& step@->Next_then.stage == then.stage
            },
            Step::Done(result) => step@ == StepSpec::Done(result),
        },
{
}

/// A socket that is being opened stands for what it is for, all of its path, and how far it has come.
pub proof fn law_opening_is_what_it_holds(opening: Opening<Vec<u8>>)
    ensures
        opening@.purpose == opening.purpose,
        opening@.path == opening.path@,
        opening@.stage == opening.stage,
{
}

/// Opening begins with a Unix socket of the type that was asked for, and remembers the path and what
/// it is for.
pub proof fn law_opening_begins(platform: Platform, ty: i32, purpose: Purpose, path: Seq<u8>)
    ensures
        start_spec(platform, ty, purpose, path) is Next,
        start_spec(platform, ty, purpose, path)->Next_call == (CallSpec::Socket {
            domain: platform.layout.af_unix as i32,
            ty,
            protocol: 0,
        }),
        start_spec(platform, ty, purpose, path)->Next_then.purpose == purpose,
        start_spec(platform, ty, purpose, path)->Next_then.path == path,
        start_spec(platform, ty, purpose, path)->Next_then.stage is Creating,
{
}

/// A call that failed while a socket was being opened leads to the error that it left. Where there is
/// a socket already, it is closed first, and what closing it returns does not matter.
pub proof fn law_failure_is_reported(platform: Platform, opening: Opening<Seq<u8>>, reply: Reply)
    ensures
        ({
            let step = resume_spec(platform, opening, reply);
            &&& opening.stage is Creating && reply.ret < 0 ==> step == StepSpec::Done(
                Err(Error::Os(reply.errno)),
            )
            &&& opening.stage is Attaching && reply.ret < 0 ==> step is Next && step->Next_call
                == (CallSpec::Close { fd: opening.stage->Attaching_fd })
                && step->Next_then.stage == (Stage::Abandoning { error: Error::Os(reply.errno) })
            &&& opening.stage is Listening && reply.ret < 0 ==> step is Next && step->Next_call
                == (CallSpec::Close { fd: opening.stage->Listening_fd })
                && step->Next_then.stage == (Stage::Abandoning { error: Error::Os(reply.errno) })
            &&& opening.stage is Abandoning ==> step == StepSpec::Done(
                Err(opening.stage->Abandoning_error),
            )
        }),
{
}

/// A socket that was created is done with where it needs no address. Else it is connected or bound to
/// the address for the path, as it is meant to be, and a path that is too long for one is reported
/// once the socket is closed.
pub proof fn law_created_socket_is_attached(
    platform: Platform,
    opening: Opening<Seq<u8>>,
    reply: Reply,
)
    requires
        opening.stage is Creating,
        reply.ret >= 0,
    ensures
        ({
            let step = resume_spec(platform, opening, reply);
            let n = opening.path.len();
            let room = platform.layout.path_len;
            let addr = crate::address::encode(platform.layout, opening.path);
            &&& opening.purpose is Unbound ==> step == StepSpec::Done(Ok(reply.ret))
            &&& !(opening.purpose is Unbound) ==> step is Next && step->Next_then.purpose
                == opening.purpose && step->Next_then.path == opening.path
            &&& !(opening.purpose is Unbound) && (n > room || n == room && opening.path[0] != 0)
                ==> step->Next_call == (CallSpec::Close { fd: reply.ret })
                && step->Next_then.stage == (Stage::Abandoning {
                error: if opening.path[0] == 0 {
                    Error::AbstractPathTooLong
                } else {
                    Error::PathTooLong
                },
            })
            &&& !(opening.purpose is Unbound) && (n < room || n == room && opening.path[0] == 0)
                ==> step->Next_then.stage == (Stage::Attaching { fd: reply.ret })
                && step->Next_call == if opening.purpose is Connect {
                CallSpec::Connect { fd: reply.ret, addr }
            } else {
                CallSpec::Bind { fd: reply.ret, addr }
            }
        }),
{
}

/// A socket that was connected or bound is done with, unless it is to listen: then it is made to, with
/// room for as many connections as may wait, and is done with once it does.
pub proof fn law_attached_socket_is_done(
    platform: Platform,
    opening: Opening<Seq<u8>>,
    reply: Reply,
)
    requires
        reply.ret >= 0,
    ensures
        ({
            let step = resume_spec(platform, opening, reply);
            &&& opening.stage is Attaching && !(opening.purpose is Listen) ==> step
                == StepSpec::Done(Ok(opening.stage->Attaching_fd))
            &&& opening.stage is Attaching && opening.purpose is Listen ==> step is Next
                && step->Next_call == (CallSpec::Listen {
                fd: opening.stage->Attaching_fd,
                backlog: 128,
            }) && step->Next_then.stage == (Stage::Listening { fd: opening.stage->Attaching_fd })
                && step->Next_then.purpose == opening.purpose && step->Next_then.path
                == opening.path
            &&& opening.stage is Listening ==> step == StepSpec::Done(
                Ok(opening.stage->Listening_fd),
            )
        }),
{
}

} // verus!
