//! Laws on descriptors that refer to the same socket.
use crate::error::Error;
use crate::platform::Platform;
use crate::reply::Reply;
use crate::request::{Call, CallSpec};
use crate::system::System;
use crate::timeout::Duration;
use vstd::prelude::*;

verus! {

/// The call that makes another handle.
pub open spec fn clone_call(fd: i32) -> CallSpec {
    Call::Dup { fd }
}

/// The call that reads up to `len` bytes.
pub open spec fn read_call(fd: i32, len: usize) -> CallSpec {
    Call::Recv { fd, len, flags: 0 }
}

/// The call that writes `buf`.
pub open spec fn write_call(fd: i32, buf: Seq<u8>) -> CallSpec {
    Call::Send { fd, buf, len: buf.len() as usize, flags: 0 }
}

/// The descriptor is that of a handle or of its clone.
pub open spec fn is_either(fd: i32, handle: i32, clone: i32) -> bool {
    fd == handle || fd == clone
}

/// A timeout that was set on a socket is what the same socket is then asked for, through whatever
/// descriptor: the duration that was set, in whole microseconds and as far as there is room for it.
pub proof fn law_set_timeout_is_read(
    platform: Platform,
    system: System,
    fd: i32,
    other: i32,
    kind: i32,
    d: Duration,
)
    requires
        platform.wf(),
        d.wf(),
        !d.is_zero(),
        system.wf(),
        system.same_socket(fd, other),
    ensures
        ({
            let set = crate::inner::set_timeout_spec(platform, fd, kind, Some(d));
            let get = crate::inner::get_timeout_call(platform, other, kind);
            let read = system.after(set->Ok_0, 0).timeout_asked_for(get);
            &&& set is Ok
            &&& read.readable()
            &&& crate::timeout::duration_spec(read) == Some(
                crate::timeout::effective(platform.time_max, d),
            )
        }),
{
    crate::timeout::law_timeout_reads_back(platform.time_max, d);
}

/// A timeout that was taken away from a socket is gone when the same socket is then asked for it,
/// through whatever descriptor.
pub proof fn law_removed_timeout_is_gone(
    platform: Platform,
    system: System,
    fd: i32,
    other: i32,
    kind: i32,
)
    requires
        system.wf(),
        system.same_socket(fd, other),
    ensures
        ({
            let set = crate::inner::set_timeout_spec(platform, fd, kind, None);
            let get = crate::inner::get_timeout_call(platform, other, kind);
            let read = system.after(set->Ok_0, 0).timeout_asked_for(get);
            &&& set is Ok
            &&& read.readable()
            &&& crate::timeout::duration_spec(read) is None
        }),
{
    crate::timeout::law_no_timeout_reads_back(platform.time_max);
}

/// The timeout of reads and the timeout of writes do not touch each other, nor do those of
/// different sockets.
pub proof fn law_timeouts_are_separate(
    platform: Platform,
    system: System,
    fd: i32,
    kind: i32,
    dur: Option<Duration>,
    other: i32,
    other_kind: i32,
)
    requires
        platform.wf(),
        crate::inner::set_timeout_spec(platform, fd, kind, dur) is Ok,
        system.wf(),
        system.is_open(fd),
        system.is_open(other),
        !system.same_socket(fd, other) || kind == platform.so_rcvtimeo && other_kind
            == platform.so_sndtimeo || kind == platform.so_sndtimeo && other_kind
            == platform.so_rcvtimeo,
    ensures
        ({
            let set = crate::inner::set_timeout_spec(platform, fd, kind, dur)->Ok_0;
            let get = crate::inner::get_timeout_call(platform, other, other_kind);
            system.after(set, 0).timeout_asked_for(get) == system.timeout_asked_for(get)
        }),
{
}

/// A handle that was cloned has a clone with a descriptor of its own, which refers to the same
/// socket. The handle itself, every other descriptor and all that the sockets hold are as before.
/// Where a handle could not be cloned, the error is that of the call and everything is as before.
pub proof fn law_clone_is_same_socket(system: System, fd: i32, reply: Reply)
    requires
        system.allows(clone_call(fd), reply.ret as int),
    ensures
        ({
            let t = system.after(clone_call(fd), reply.ret as int);
            match crate::reply::descriptor_spec(reply) {
                Ok(clone) => {
                    &&& clone != fd
                    &&& t.same_socket(fd, clone)
                    &&& t.descriptors.remove(clone) == system.descriptors
                    &&& t == System { descriptors: t.descriptors, ..system }
                },
                Err(e) => e == Error::Os(reply.errno) && t == system,
            }
        }),
{
}

/// Two handles to a socket stay handles to the same socket, whatever calls are made, until one of
/// the two is closed.
pub proof fn law_handles_stay_together(system: System, a: i32, b: i32, call: CallSpec, ret: int)
    requires
        system.same_socket(a, b),
        crate::system::is_followed(call),
        system.allows(call, ret),
        ret >= 0 ==> call != (CallSpec::Close { fd: a }) && call != (CallSpec::Close { fd: b }),
    ensures
        system.after(call, ret).same_socket(a, b),
        system.after(call, ret).descriptors[a] == system.descriptors[a],
{
}

/// To close a handle closes that handle alone. Another one to the same socket stays open, and the
/// socket keeps all that it holds.
pub proof fn law_close_leaves_other_handle(system: System, fd: i32, other: i32)
    requires
        system.same_socket(fd, other),
        fd != other,
    ensures
        ({
            let t = system.after(CallSpec::Close { fd }, 0);
            &&& !t.is_open(fd)
            &&& t.is_open(other)
            &&& t.descriptors[other] == system.descriptors[other]
            &&& t == System { descriptors: system.descriptors.remove(fd), ..system }
        }),
{
}

/// A timeout that is set on a handle or on its clone is what either of them is then asked for.
pub proof fn law_clones_share_timeouts(
    platform: Platform,
    system: System,
    fd: i32,
    ret: i32,
    setter: i32,
    getter: i32,
    kind: i32,
    d: Duration,
)
    requires
        platform.wf(),
        d.wf(),
        !d.is_zero(),
        system.wf(),
        ret >= 0,
        system.allows(clone_call(fd), ret as int),
        is_either(setter, fd, ret),
        is_either(getter, fd, ret),
    ensures
        ({
            let cloned = system.after(clone_call(fd), ret as int);
            let set = crate::inner::set_timeout_spec(platform, setter, kind, Some(d));
            let get = crate::inner::get_timeout_call(platform, getter, kind);
            let read = cloned.after(set->Ok_0, 0).timeout_asked_for(get);
            &&& set is Ok
            &&& read.readable()
            &&& crate::timeout::duration_spec(read) == Some(
                crate::timeout::effective(platform.time_max, d),
            )
        }),
{
    let cloned = system.after(clone_call(fd), ret as int);
    crate::system::law_calls_keep_references(system, clone_call(fd), ret as int);
    law_set_timeout_is_read(platform, cloned, setter, getter, kind, d);
}

/// A handle and its clone read the same stream: what is read through the first and then the second
/// is what had arrived, without a gap and with nothing read twice.
pub proof fn law_clones_read_one_stream(
    system: System,
    fd: i32,
    ret: i32,
    first: i32,
    len1: usize,
    ret1: int,
    second: i32,
    len2: usize,
    ret2: int,
)
    requires
        system.wf(),
        ret >= 0,
        system.allows(clone_call(fd), ret as int),
        system.is_stream(system.at(fd)),
        is_either(first, fd, ret),
        is_either(second, fd, ret),
        ret1 >= 0,
        ret2 >= 0,
        system.after(clone_call(fd), ret as int).allows(read_call(first, len1), ret1),
        system.after(clone_call(fd), ret as int).after(read_call(first, len1), ret1).allows(
            read_call(second, len2),
            ret2,
        ),
    ensures
        ({
            let cloned = system.after(clone_call(fd), ret as int);
            let between = cloned.after(read_call(first, len1), ret1);
            let end = between.after(read_call(second, len2), ret2);
            let read = cloned.bytes_read(read_call(first, len1), ret1) + between.bytes_read(
                read_call(second, len2),
                ret2,
            );
            &&& read == system.at(fd).arrived.take(ret1 + ret2)
            &&& end.at(fd).arrived == system.at(fd).arrived.skip(ret1 + ret2)
        }),
{
    let all = system.at(fd).arrived;
    assert(all.skip(ret1).skip(ret2) =~= all.skip(ret1 + ret2));
    assert(all.take(ret1) + all.skip(ret1).take(ret2) =~= all.take(ret1 + ret2));
}

/// A handle and its clone write the same stream: what is written through the first and then the
/// second arrives at the other end in that order, behind what had arrived there before.
pub proof fn law_clones_write_one_stream(
    system: System,
    fd: i32,
    ret: i32,
    first: i32,
    buf1: Seq<u8>,
    ret1: int,
    second: i32,
    buf2: Seq<u8>,
    ret2: int,
)
    requires
        system.wf(),
        ret >= 0,
        system.allows(clone_call(fd), ret as int),
        system.is_stream(system.at(fd)),
        is_either(first, fd, ret),
        is_either(second, fd, ret),
        ret1 >= 0,
        ret2 >= 0,
        system.after(clone_call(fd), ret as int).allows(write_call(first, buf1), ret1),
        system.after(clone_call(fd), ret as int).after(write_call(first, buf1), ret1).allows(
            write_call(second, buf2),
            ret2,
        ),
    ensures
        ({
            let peer = system.at(fd).peer->0;
            let end = system.after(clone_call(fd), ret as int).after(
                write_call(first, buf1),
                ret1,
            ).after(write_call(second, buf2), ret2);
            &&& system.at(fd).peer is Some
            &&& end.sockets[peer].arrived == system.sockets[peer].arrived + buf1.take(ret1)
                + buf2.take(ret2)
        }),
{
}

/// A handle and its clone accept connections from the same queue: the first two that wait go to the
/// first and the second of two calls, through whichever handle each is made.
pub proof fn law_clones_accept_from_one_queue(
    system: System,
    fd: i32,
    ret: i32,
    first: i32,
    ret1: i32,
    second: i32,
    ret2: i32,
)
    requires
        system.wf(),
        ret >= 0,
        system.allows(clone_call(fd), ret as int),
        is_either(first, fd, ret),
        is_either(second, fd, ret),
        ret1 >= 0,
        ret2 >= 0,
        system.after(clone_call(fd), ret as int).allows(
            CallSpec::Accept { fd: first },
            ret1 as int,
        ),
        system.after(clone_call(fd), ret as int).after(
            CallSpec::Accept { fd: first },
            ret1 as int,
        ).allows(CallSpec::Accept { fd: second }, ret2 as int),
    ensures
        ({
            let waiting = system.at(fd).waiting->0;
            let end = system.after(clone_call(fd), ret as int).after(
                CallSpec::Accept { fd: first },
                ret1 as int,
            ).after(CallSpec::Accept { fd: second }, ret2 as int);
            &&& ret1 != ret2
            &&& end.descriptors[ret1] == waiting[0]
            &&& end.descriptors[ret2] == waiting[1]
            &&& end.at(fd).waiting == Some(waiting.skip(2))
        }),
{
    let waiting = system.at(fd).waiting->0;
    assert(waiting.drop_first().drop_first() =~= waiting.skip(2));
}

} // verus!
