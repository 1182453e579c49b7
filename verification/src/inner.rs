//! What sockets of every type have in common: a descriptor, and the calls on it.
use crate::error::{cvt, Error};
use crate::platform::Platform;
use crate::reply::Reply;
use crate::request::{calc_len, Call, CallSpec, Request};
use crate::timeout::{to_timeval, Duration, Timeval};
use vstd::prelude::*;

verus! {

/// The halves of a connection that can be shut down.
#[derive(Debug, Clone, Copy, PartialEq, Eq, Structural)]
pub enum Shutdown {
    /// The reading half.
    Read,
    /// The writing half.
    Write,
    /// Both halves.
    Both,
}

impl Shutdown {
    /// The argument of the system call for these halves.
    pub open spec fn argument(self, platform: Platform) -> i32 {
        match self {
            Shutdown::Read => platform.shut_rd,
            Shutdown::Write => platform.shut_wr,
            Shutdown::Both => platform.shut_rdwr,
        }
    }
}

/// The call for the timeout that the option `kind` of a socket holds.
pub open spec fn get_timeout_call(platform: Platform, fd: i32, kind: i32) -> CallSpec {
    Call::GetTimeout { fd, level: platform.sol_socket, name: kind }
}

/// The call that sets the timeout that the option `kind` of a socket holds.
pub open spec fn set_timeout_call(
    platform: Platform,
    fd: i32,
    kind: i32,
    timeout: Timeval,
) -> CallSpec {
    Call::SetTimeout { fd, level: platform.sol_socket, name: kind, timeout }
}

/// What asking to set a timeout comes to: a call, or the error where the timeout has no duration.
pub open spec fn set_timeout_spec(
    platform: Platform,
    fd: i32,
    kind: i32,
    dur: Option<Duration>,
) -> Result<CallSpec, Error> {
    match crate::timeout::timeval_spec(platform.time_max, dur) {
        Ok(timeout) => Ok(set_timeout_call(platform, fd, kind, timeout)),
        Err(e) => Err(e),
    }
}

/// The call that asks to receive credentials with each message, or not to.
pub open spec fn passcred_call(platform: Platform, fd: i32, receive_creds: bool) -> CallSpec {
    Call::SetFlag {
        fd,
        level: platform.sol_socket,
        name: platform.so_passcred,
        flag: if receive_creds {
            1
        } else {
            0
        },
    }
}

/// The descriptor of a socket.
#[derive(Debug)]
pub(crate) struct Inner {
    pub(crate) fd: i32,
}

impl Inner {
    /// Asks for two sockets that are connected to each other.
    pub(crate) fn new_pair(platform: &Platform, ty: i32) -> (call: Request<'static>)
        ensures
            call@ == (CallSpec::SocketPair {
                domain: platform.layout.af_unix as i32,
                ty,
                protocol: 0,
            }),
    {
        Call::SocketPair { domain: platform.layout.af_unix as i32, ty, protocol: 0 }
    }

    /// Reads the reply to a call for two sockets that wrote the descriptors `fds`.
    pub(crate) fn pair_from(reply: Reply, fds: (i32, i32)) -> (r: Result<(Inner, Inner), Error>)
        ensures
            reply.ret < 0 ==> r == Err::<(Inner, Inner), Error>(Error::Os(reply.errno)),
            reply.ret >= 0 ==> r == Ok::<(Inner, Inner), Error>(
                (Inner { fd: fds.0 }, Inner { fd: fds.1 }),
            ),
    {
        match cvt(reply.ret, reply.errno) {
            Ok(_) => Ok((Inner { fd: fds.0 }, Inner { fd: fds.1 })),
            Err(e) => Err(e),
        }
    }

    /// Reads the reply to a call that returns a descriptor.
    pub(crate) fn from_reply(reply: Reply) -> (r: Result<Inner, Error>)
        ensures
            r is Ok <==> crate::reply::descriptor_spec(reply) is Ok,
            r is Ok ==> r->Ok_0.fd == crate::reply::descriptor_spec(reply)->Ok_0,
            r is Err ==> r->Err_0 == crate::reply::descriptor_spec(reply)->Err_0,
    {
        match cvt(reply.ret, reply.errno) {
            Ok(fd) => Ok(Inner { fd }),
            Err(e) => Err(e),
        }
    }

    /// Asks for another descriptor of the same socket.
    pub(crate) fn try_clone(&self) -> (call: Request<'static>)
        ensures
            call@ == (CallSpec::Dup { fd: self.fd }),
    {
        Call::Dup { fd: self.fd }
    }

    /// Asks to close the descriptor.
    pub(crate) fn close(&self) -> (call: Request<'static>)
        ensures
            call@ == (CallSpec::Close { fd: self.fd }),
    {
        Call::Close { fd: self.fd }
    }

    /// Asks to shut down halves of the connection.
    pub(crate) fn shutdown(&self, platform: &Platform, how: Shutdown) -> (call: Request<'static>)
        ensures
            call@ == (CallSpec::Shutdown { fd: self.fd, how: how.argument(*platform) }),
    {
        let how: i32 = match how {
            Shutdown::Read => platform.shut_rd,
            Shutdown::Write => platform.shut_wr,
            Shutdown::Both => platform.shut_rdwr,
        };
        Call::Shutdown { fd: self.fd, how }
    }

    /// Asks for the timeout that the option `kind` holds.
    pub(crate) fn timeout(&self, platform: &Platform, kind: i32) -> (call: Request<'static>)
        ensures
            call@ == get_timeout_call(*platform, self.fd, kind),
    {
        Call::GetTimeout { fd: self.fd, level: platform.sol_socket, name: kind }
    }

    /// Asks to set the timeout that the option `kind` holds.
    pub(crate) fn set_timeout(&self, platform: &Platform, dur: Option<Duration>, kind: i32) -> (r:
        Result<Request<'static>, Error>)
        requires
            0 < platform.time_max,
        ensures
            r is Ok <==> set_timeout_spec(*platform, self.fd, kind, dur) is Ok,
            r is Ok ==> r->Ok_0@ == set_timeout_spec(*platform, self.fd, kind, dur)->Ok_0,
            r is Err ==> r->Err_0 == set_timeout_spec(*platform, self.fd, kind, dur)->Err_0,
    {
        match to_timeval(platform.time_max, dur) {
            Ok(timeout) => Ok(
                Call::SetTimeout { fd: self.fd, level: platform.sol_socket, name: kind, timeout },
            ),
            Err(e) => Err(e),
        }
    }

    /// Asks to receive credentials with each message, or not to.
    pub(crate) fn set_passcred(&self, platform: &Platform, receive_creds: bool) -> (call: Request<
        'static,
    >)
        ensures
            call@ == passcred_call(*platform, self.fd, receive_creds),
    {
        let flag: i32 = if receive_creds {
            1
        } else {
            0
        };
        Call::SetFlag {
            fd: self.fd,
            level: platform.sol_socket,
            name: platform.so_passcred,
            flag,
        }
    }

    /// Asks to receive data into a buffer.
    pub(crate) fn recv(&self, buf: &[u8]) -> (call: Request<'static>)
        ensures
            call@ == (CallSpec::Recv { fd: self.fd, len: buf@.len() as usize, flags: 0 }),
    {
        Call::Recv { fd: self.fd, len: calc_len(buf), flags: 0 }
    }

    /// Asks to send data.
    pub(crate) fn send<'a>(&self, buf: &'a [u8]) -> (call: Request<'a>)
        ensures
            call@ == (CallSpec::Send {
                fd: self.fd,
                buf: buf@,
                len: buf@.len() as usize,
                flags: 0,
            }),
    {
        Call::Send { fd: self.fd, buf, len: calc_len(buf), flags: 0 }
    }
}

/// Different halves of a connection are shut down by different calls.
pub proof fn law_halves_differ(platform: Platform, a: Shutdown, b: Shutdown)
    requires
        platform.wf(),
        a.argument(platform) == b.argument(platform),
    ensures
        a == b,
{
}

/// The halves are shut down by the argument that the system has for them.
pub proof fn law_halves_are_named(platform: Platform)
    ensures
        Shutdown::Read.argument(platform) == platform.shut_rd,
        Shutdown::Write.argument(platform) == platform.shut_wr,
        Shutdown::Both.argument(platform) == platform.shut_rdwr,
{
}

/// A timeout is set and asked for on the descriptor, at the level of sockets and under the option
/// that holds it. What is set are the seconds, as far as there is room for them, and the whole
/// microseconds, at least one in all; nought of both where there is to be no timeout. No duration at
/// all is refused, and nothing else is.
pub proof fn law_timeout_calls(platform: Platform, fd: i32, kind: i32, dur: Option<Duration>)
    requires
        0 < platform.time_max,
    ensures
        get_timeout_call(platform, fd, kind) == (CallSpec::GetTimeout {
            fd,
            level: platform.sol_socket,
            name: kind,
        }),
        dur is None ==> set_timeout_spec(platform, fd, kind, dur) == Ok::<CallSpec, Error>(
            CallSpec::SetTimeout {
                fd,
                level: platform.sol_socket,
                name: kind,
                timeout: Timeval { sec: 0, usec: 0 },
            },
        ),
        dur is Some && dur->0.secs == 0 && dur->0.nanos == 0 ==> set_timeout_spec(
            platform,
            fd,
            kind,
            dur,
        ) == Err::<CallSpec, Error>(Error::ZeroTimeout),
        dur is Some && (dur->0.secs != 0 || dur->0.nanos != 0) ==> set_timeout_spec(
            platform,
            fd,
            kind,
            dur,
        ) == Ok::<CallSpec, Error>(
            CallSpec::SetTimeout {
                fd,
                level: platform.sol_socket,
                name: kind,
                timeout: Timeval {
                    sec: if dur->0.secs > platform.time_max {
                        platform.time_max
                    } else {
                        dur->0.secs as i64
                    },
                    usec: if dur->0.secs == 0 && dur->0.nanos < 1_000 {
                        1
                    } else {
                        (dur->0.nanos / 1_000) as i64
                    },
                },
            },
        ),
{
}

/// Credentials are asked for by a flag of one and no longer by a flag of nought, on the descriptor, at
/// the level of sockets and under the option for them.
pub proof fn law_passcred_call(platform: Platform, fd: i32)
    ensures
        passcred_call(platform, fd, true) == (CallSpec::SetFlag {
            fd,
            level: platform.sol_socket,
            name: platform.so_passcred,
            flag: 1,
        }),
        passcred_call(platform, fd, false) == (CallSpec::SetFlag {
            fd,
            level: platform.sol_socket,
            name: platform.so_passcred,
            flag: 0,
        }),
{
}

} // verus!
