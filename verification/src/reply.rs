//! What the return values of system calls stand for.
use crate::error::{cvt, cvt_s, Error};
use crate::timeout::{from_timeval, Duration, Timeval};
use vstd::prelude::*;

verus! {

/// What a system call returned, and what it left in `errno`.
#[derive(Debug, Clone, Copy, PartialEq, Eq, Structural)]
pub struct Reply {
    /// The return value, negative where the call failed.
    pub ret: i32,
    /// The number of the error, where the call failed.
    pub errno: i32,
}

/// Reads the reply to a call that is made for its effect alone.
pub fn completed(reply: Reply) -> (r: Result<(), Error>)
    ensures
        reply.ret < 0 ==> r == Err::<(), Error>(Error::Os(reply.errno)),
        reply.ret >= 0 ==> r == Ok::<(), Error>(()),
{
    match cvt(reply.ret, reply.errno) {
        Ok(_) => Ok(()),
        Err(e) => Err(e),
    }
}

/// The descriptor that a call which returns one stands for.
pub open spec fn descriptor_spec(reply: Reply) -> Result<i32, Error> {
    if reply.ret < 0 {
        Err(Error::Os(reply.errno))
    } else {
        Ok(reply.ret)
    }
}

/// How many bytes a call that returned `count` and left `errno` has moved.
pub open spec fn transfer_spec(count: isize, errno: i32) -> Result<usize, Error> {
    if count < 0 {
        Err(Error::Os(errno))
    } else {
        Ok(count as usize)
    }
}

/// Reads the reply to a call that sends or receives data: how many bytes it has moved.
pub fn transferred(count: isize, errno: i32) -> (r: Result<usize, Error>)
    ensures
        r == transfer_spec(count, errno),
        count >= 0 ==> r is Ok && r->Ok_0 as int == count as int,
        count < 0 ==> r is Err && r->Err_0 == Error::Os(errno),
{
    match cvt_s(count, errno) {
        Ok(n) => Ok(n as usize),
        Err(e) => Err(e),
    }
}

/// Reads the reply to a call that asks for a timeout and that wrote `timeval`.
pub fn timeout_read(reply: Reply, timeval: Timeval) -> (r: Result<Option<Duration>, Error>)
    requires
        reply.ret >= 0 ==> timeval.readable(),
    ensures
        reply.ret < 0 ==> r == Err::<Option<Duration>, Error>(Error::Os(reply.errno)),
        reply.ret >= 0 ==> r == Ok::<Option<Duration>, Error>(
            crate::timeout::duration_spec(timeval),
        ),
        r is Ok ==> (r->Ok_0 is None <==> timeval.sec == 0 && timeval.usec == 0),
        r is Ok && r->Ok_0 is Some ==> {
            let d = r->Ok_0->0;
            &&& d.nanos < 1_000_000_000
            &&& d.secs * 1_000_000_000 + d.nanos == (timeval.sec as u64) * 1_000_000_000 + (
            timeval.usec as u32) * 1_000
        },
{
    match cvt(reply.ret, reply.errno) {
        Ok(_) => Ok(from_timeval(timeval)),
        Err(e) => Err(e),
    }
}

/// A call that moved bytes reports as many as it returned, whatever their number, and one that
/// failed reports what it left in `errno`.
pub proof fn law_count_is_reported(count: isize, errno: i32)
    ensures
        count >= 0 ==> transfer_spec(count, errno) is Ok,
        count >= 0 ==> transfer_spec(count, errno)->Ok_0 as int == count as int,
        count < 0 ==> transfer_spec(count, errno) is Err,
        count < 0 ==> transfer_spec(count, errno)->Err_0 == Error::Os(errno),
{
}

/// A call that returned a descriptor stands for that descriptor, whatever its number, and one that
/// failed for what it left in `errno`.
pub proof fn law_descriptor_is_reported(reply: Reply)
    ensures
        reply.ret >= 0 ==> descriptor_spec(reply) is Ok,
        reply.ret >= 0 ==> descriptor_spec(reply)->Ok_0 == reply.ret,
        reply.ret < 0 ==> descriptor_spec(reply) is Err,
        reply.ret < 0 ==> descriptor_spec(reply)->Err_0 == Error::Os(reply.errno),
{
}

} // verus!
