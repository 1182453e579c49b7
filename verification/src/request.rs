//! The system calls that the library asks for.
//!
//! The library makes no system call itself. Its operations say which call to make and with which
//! arguments; whoever makes the call hands back what it returned.
use crate::address::{SockAddr, SocketAddr};
use crate::timeout::Timeval;
use vstd::prelude::*;

verus! {

/// A system call and its arguments, with addresses of type `A` and data of type `B`.
#[verifier::ext_equal]
#[derive(Debug)]
pub enum Call<A, B> {
    /// `socket(domain, ty, protocol)`.
    Socket { domain: i32, ty: i32, protocol: i32 },
    /// `socketpair(domain, ty, protocol, fds)`, with room for two descriptors.
    SocketPair { domain: i32, ty: i32, protocol: i32 },
    /// `close(fd)`. Nobody asks what it returned.
    Close { fd: i32 },
    /// `dup(fd)`.
    Dup { fd: i32 },
    /// `connect(fd, addr, len)`, with the length that `addr` has.
    Connect { fd: i32, addr: A },
    /// `bind(fd, addr, len)`, with the length that `addr` has.
    Bind { fd: i32, addr: A },
    /// `listen(fd, backlog)`.
    Listen { fd: i32, backlog: i32 },
    /// `accept(fd, NULL, NULL)`.
    Accept { fd: i32 },
    /// `getsockname(fd, addr, len)`, where `addr` and `len` say that there is room for an address of
    /// `capacity` bytes, all of them null: [`crate::address::RawAddr::blank`].
    GetSockName { fd: i32, capacity: u32 },
    /// `getpeername(fd, addr, len)`, where `addr` and `len` say that there is room for an address of
    /// `capacity` bytes, all of them null: [`crate::address::RawAddr::blank`].
    GetPeerName { fd: i32, capacity: u32 },
    /// `shutdown(fd, how)`.
    Shutdown { fd: i32, how: i32 },
    /// `getsockopt(fd, level, name, value, len)`, with room for one timeout.
    GetTimeout { fd: i32, level: i32, name: i32 },
    /// `setsockopt(fd, level, name, value, len)` with a timeout.
    SetTimeout { fd: i32, level: i32, name: i32, timeout: Timeval },
    /// `setsockopt(fd, level, name, value, len)` with an `int`.
    SetFlag { fd: i32, level: i32, name: i32, flag: i32 },
    /// `recv(fd, buf, len, flags)`, into the caller's buffer.
    Recv { fd: i32, len: usize, flags: i32 },
    /// `recvfrom(fd, buf, len, flags, addr, addr_len)`, into the caller's buffer, where `addr`
    /// and `addr_len` say that there is room for an address of `capacity` bytes, all of them null:
    /// [`crate::address::RawAddr::blank`].
    RecvFrom { fd: i32, len: usize, flags: i32, capacity: u32 },
    /// `send(fd, buf, len, flags)`.
    Send { fd: i32, buf: B, len: usize, flags: i32 },
    /// `sendto(fd, buf, len, flags, addr, addr_len)`, with the length that `addr` has.
    SendTo { fd: i32, buf: B, len: usize, flags: i32, addr: A },
}

/// A system call to make.
pub type Request<'a> = Call<SocketAddr, &'a [u8]>;

/// A system call as a mathematical value.
pub type CallSpec = Call<SockAddr, Seq<u8>>;

impl<A: View, B: View> View for Call<A, B> {
    type V = Call<A::V, B::V>;

    open spec fn view(&self) -> Call<A::V, B::V> {
        match *self {
            Call::Socket { domain, ty, protocol } => Call::Socket { domain, ty, protocol },
            Call::SocketPair { domain, ty, protocol } => Call::SocketPair { domain, ty, protocol },
            Call::Close { fd } => Call::Close { fd },
            Call::Dup { fd } => Call::Dup { fd },
            Call::Connect { fd, addr } => Call::Connect { fd, addr: addr@ },
            Call::Bind { fd, addr } => Call::Bind { fd, addr: addr@ },
            Call::Listen { fd, backlog } => Call::Listen { fd, backlog },
            Call::Accept { fd } => Call::Accept { fd },
            Call::GetSockName { fd, capacity } => Call::GetSockName { fd, capacity },
            Call::GetPeerName { fd, capacity } => Call::GetPeerName { fd, capacity },
            Call::Shutdown { fd, how } => Call::Shutdown { fd, how },
            Call::GetTimeout { fd, level, name } => Call::GetTimeout { fd, level, name },
            Call::SetTimeout { fd, level, name, timeout } => Call::SetTimeout {
                fd,
                level,
                name,
                timeout,
            },
            Call::SetFlag { fd, level, name, flag } => Call::SetFlag { fd, level, name, flag },
            Call::Recv { fd, len, flags } => Call::Recv { fd, len, flags },
            Call::RecvFrom { fd, len, flags, capacity } => Call::RecvFrom { fd, len, flags, capacity },
            Call::Send { fd, buf, len, flags } => Call::Send { fd, buf: buf@, len, flags },
            Call::SendTo { fd, buf, len, flags, addr } => Call::SendTo {
                fd,
                buf: buf@,
                len,
                flags,
                addr: addr@,
            },
        }
    }
}

/// Returns how many bytes of a buffer a call may fill or send: all of them.
pub fn calc_len(buf: &[u8]) -> (len: usize)
    ensures
        len == buf@.len(),
{
    buf.len()
}

/// A call stands for itself: the same call with the same arguments, and with the addresses and the
/// data that these hold.
pub proof fn law_call_is_itself<'a>(call: Request<'a>)
    ensures
        match call {
            Call::Socket { domain, ty, protocol } => call@ == (CallSpec::Socket {
                domain,
                ty,
                protocol,
            }),
            Call::SocketPair { domain, ty, protocol } => call@ == (CallSpec::SocketPair {
                domain,
                ty,
                protocol,
            }),
            Call::Close { fd } => call@ == (CallSpec::Close { fd }),
            Call::Dup { fd } => call@ == (CallSpec::Dup { fd }),
            Call::Connect { fd, addr } => call@ == (CallSpec::Connect { fd, addr: addr@ }),
            Call::Bind { fd, addr } => call@ == (CallSpec::Bind { fd, addr: addr@ }),
            Call::Listen { fd, backlog } => call@ == (CallSpec::Listen { fd, backlog }),
            Call::Accept { fd } => call@ == (CallSpec::Accept { fd }),
            Call::GetSockName { fd, capacity } => call@ == (CallSpec::GetSockName {
                fd,
                capacity,
            }),
            Call::GetPeerName { fd, capacity } => call@ == (CallSpec::GetPeerName {
                fd,
                capacity,
            }),
            Call::Shutdown { fd, how } => call@ == (CallSpec::Shutdown { fd, how }),
            Call::GetTimeout { fd, level, name } => call@ == (CallSpec::GetTimeout {
                fd,
                level,
                name,
            }),
            Call::SetTimeout { fd, level, name, timeout } => call@ == (CallSpec::SetTimeout {
                fd,
                level,
                name,
                timeout,
            }),
            Call::SetFlag { fd, level, name, flag } => call@ == (CallSpec::SetFlag {
                fd,
                level,
                name,
                flag,
            }),
            Call::Recv { fd, len, flags } => call@ == (CallSpec::Recv { fd, len, flags }),
            Call::RecvFrom { fd, len, flags, capacity } => call@ == (CallSpec::RecvFrom {
                fd,
                len,
                flags,
                capacity,
            }),
            Call::Send { fd, buf, len, flags } => call@ == (CallSpec::Send {
                fd,
                buf: buf@,
                len,
                flags,
            }),
            Call::SendTo { fd, buf, len, flags, addr } => call@ == (CallSpec::SendTo {
                fd,
                buf: buf@,
                len,
                flags,
                addr: addr@,
            }),
        },
{
}

} // verus!
