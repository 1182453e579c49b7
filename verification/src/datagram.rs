//! Datagram sockets.
use crate::address::{sockaddr_un, RawAddr, SocketAddr};
use crate::control::{Control, ControlMsg};
use crate::error::Error;
use crate::inner::{Inner, Shutdown};
use crate::opening::{Opening, OpeningStep, Purpose};
use crate::platform::{Layout, Platform};
use crate::reply::Reply;
use crate::request::{calc_len, Call, CallSpec, Request};
use crate::timeout::Duration;
use vstd::prelude::*;

verus! {

/// How many bytes of control messages can be received with a message.
pub const CMSG_BUFFER_SIZE: usize = 4096;

/// A Unix datagram socket. Its view is its descriptor.
#[derive(Debug)]
pub struct UnixDatagram {
    inner: Inner,
}

impl View for UnixDatagram {
    type V = i32;

    closed spec fn view(&self) -> i32 {
        self.inner.fd
    }
}

/// A message to send, with flags of type `F`.
#[derive(Debug)]
pub struct SendMsg<'a, F> {
    /// The descriptor to send on.
    pub fd: i32,
    /// Where to send to, if not to the peer of the socket.
    pub dst: Option<SocketAddr>,
    /// The data, one buffer after another.
    pub buffers: &'a [&'a [u8]],
    /// The control messages.
    pub ctrl_msgs: &'a [ControlMsg],
    /// The flags.
    pub flags: F,
}

/// A message to send as a mathematical value.
#[verifier::ext_equal]
pub struct OutMessage<F> {
    /// The descriptor to send on.
    pub fd: i32,
    /// Where to send to, if not to the peer of the socket.
    pub dst: Option<crate::address::SockAddr>,
    /// The data, one buffer after another.
    pub buffers: Seq<Seq<u8>>,
    /// The control messages.
    pub control: Seq<Control>,
    /// The flags.
    pub flags: F,
}

impl<F> OutMessage<F> {
    /// The data of the message: its buffers, joined in order.
    pub open spec fn data(self) -> Seq<u8> {
        self.buffers.flatten()
    }
}

/// What buffers hold.
pub open spec fn contents_of(buffers: Seq<&[u8]>) -> Seq<Seq<u8>> {
    Seq::new(buffers.len(), |i: int| buffers[i]@)
}

impl<'a, F> View for SendMsg<'a, F> {
    type V = OutMessage<F>;

    open spec fn view(&self) -> OutMessage<F> {
        OutMessage {
            fd: self.fd,
            dst: match self.dst {
                Some(addr) => Some(addr@),
                None => None,
            },
            buffers: contents_of(self.buffers@),
            control: crate::control::controls(self.ctrl_msgs@),
            flags: self.flags,
        }
    }
}

/// A message to receive, with flags of type `F`.
#[derive(Debug)]
pub struct RecvMsg<'a, 'b, F> {
    /// The descriptor to receive on.
    pub fd: i32,
    /// Where to put the data, one buffer after another.
    pub buffers: &'a [&'b mut [u8]],
    /// How many bytes there is room for in the address of the sender, all of them null.
    pub capacity: u32,
    /// How many bytes of control messages there is room for.
    pub control_len: usize,
    /// The flags.
    pub flags: F,
}

impl<'a, 'b, F> RecvMsg<'a, 'b, F> {
    /// What the buffers hold before a message is received.
    pub open spec fn contents(self) -> Seq<Seq<u8>> {
        Seq::new(self.buffers@.len(), |i: int| self.buffers@[i]@)
    }
}

/// A message that was received, with flags of type `F`.
#[derive(Debug)]
pub struct Message<F> {
    /// Number of bytes received.
    pub data_bytes: usize,
    /// The control messages.
    pub control_msgs: Vec<ControlMsg>,
    /// The flags that were returned.
    pub flags: F,
}

/// The return value from a call to recvmsg
#[derive(Debug)]
pub struct RecvMsgResult<F> {
    /// Number of bytes received
    pub data_bytes: usize,
    /// Address of the sender
    pub sender: SocketAddr,
    /// List of all control messages received during this call
    pub control_msgs: Vec<ControlMsg>,
    /// Flags returned by recvmsg
    pub flags: F,
}

/// The status of a call that received `count` bytes: negative where it failed.
pub open spec fn count_status(count: isize) -> i32 {
    if count > 0 {
        1
    } else if count == 0 {
        0
    } else {
        (-1) as i32
    }
}

/// The status of an attempt to receive a message: nought, or the negated number of its error.
pub open spec fn message_status<F>(outcome: Result<Message<F>, Error>) -> i32 {
    match outcome {
        Err(Error::Os(errno)) => (-errno) as i32,
        _ => 0,
    }
}

/// An attempt to receive a message that did not fail, or failed with an error of the operating
/// system whose number can be negated.
pub open spec fn is_system_outcome<F>(outcome: Result<Message<F>, Error>) -> bool {
    outcome is Err ==> outcome->Err_0 is Os && outcome->Err_0->Os_0 > i32::MIN
}

impl UnixDatagram {
    /// Creates a Unix datagram socket bound to the given path: the first step. Where the steps end
    /// well, the descriptor they end with becomes a socket by [`UnixDatagram::from_descriptor`].
    ///
    /// Linux provides, as a nonportable extension, a separate "abstract" address namespace as
    /// opposed to filesystem-based addressing. If `path` begins with a null byte, it will be
    /// interpreted as an "abstract" address. Otherwise, it will be interpreted as a "pathname"
    /// address, corresponding to a path on the filesystem.
    pub fn bind(platform: &Platform, path: &[u8]) -> (step: OpeningStep)
        ensures
            step@ == crate::opening::start_spec(
                *platform,
                platform.sock_dgram,
                Purpose::Bind,
                path@,
            ),
    {
        Opening::start(platform, platform.sock_dgram, Purpose::Bind, path)
    }

    /// Creates a Unix Datagram socket which is not bound to any address: the first step.
    pub fn unbound(platform: &Platform) -> (step: OpeningStep)
        ensures
            step@ == crate::opening::start_spec(
                *platform,
                platform.sock_dgram,
                Purpose::Unbound,
                Seq::<u8>::empty(),
            ),
    {
        let none: Vec<u8> = Vec::new();
        Opening::start(platform, platform.sock_dgram, Purpose::Unbound, none.as_slice())
    }

    /// Asks for an unnamed pair of connected sockets.
    pub fn pair(platform: &Platform) -> (call: Request<'static>)
        ensures
            call@ == (CallSpec::SocketPair {
                domain: platform.layout.af_unix as i32,
                ty: platform.sock_dgram,
                protocol: 0,
            }),
    {
        Inner::new_pair(platform, platform.sock_dgram)
    }

    /// Takes the two sockets that [`UnixDatagram::pair`] asked for, which are connected to each
    /// other.
    pub fn paired(reply: Reply, fds: (i32, i32)) -> (r: Result<(UnixDatagram, UnixDatagram), Error>)
        ensures
            r is Ok <==> reply.ret >= 0,
            r is Ok ==> (r->Ok_0.0@, r->Ok_0.1@) == fds,
            r is Err ==> r->Err_0 == Error::Os(reply.errno),
    {
        match Inner::pair_from(reply, fds) {
            Ok((i1, i2)) => Ok((UnixDatagram { inner: i1 }, UnixDatagram { inner: i2 })),
            Err(e) => Err(e),
        }
    }

    /// Asks to connect the socket to the specified address.
    ///
    /// The `send` method may be used to send data to the specified address. `recv` and `recv_from`
    /// will only receive data from that address.
    pub fn connect(&self, platform: &Platform, path: &[u8]) -> (r: Result<
        Request<'static>,
        Error,
    >)
        requires
            platform.layout.wf(),
        ensures
            r is Ok <==> crate::address::fits(platform.layout, path@),
            r is Ok ==> r->Ok_0@ == (CallSpec::Connect {
                fd: self@,
                addr: crate::address::encode(platform.layout, path@),
            }),
            r is Err ==> r->Err_0 == crate::address::misfit(path@),
    {
        match sockaddr_un(&platform.layout, path) {
            Ok(addr) => Ok(Call::Connect { fd: self.inner.fd, addr }),
            Err(e) => Err(e),
        }
    }

    /// Asks for the address of this socket, which `SocketAddr::new` takes.
    pub fn local_addr(&self, layout: &Layout) -> (call: Request<'static>)
        requires
            layout.wf(),
        ensures
            call@ == (CallSpec::GetSockName { fd: self@, capacity: layout.size() as u32 }),
            call@->GetSockName_capacity == layout.path_offset + layout.path_len,
    {
        Call::GetSockName { fd: self.inner.fd, capacity: layout.address_size() }
    }

    /// Asks for the address of this socket's peer, which `SocketAddr::new` takes.
    ///
    /// The `connect` method will connect the socket to a peer.
    pub fn peer_addr(&self, layout: &Layout) -> (call: Request<'static>)
        requires
            layout.wf(),
        ensures
            call@ == (CallSpec::GetPeerName { fd: self@, capacity: layout.size() as u32 }),
            call@->GetPeerName_capacity == layout.path_offset + layout.path_len,
    {
        Call::GetPeerName { fd: self.inner.fd, capacity: layout.address_size() }
    }

    /// Asks to receive data from the socket, and the address that it comes from.
    pub fn recv_from(&self, layout: &Layout, buf: &[u8]) -> (call: Request<'static>)
        requires
            layout.wf(),
        ensures
            call@ == (CallSpec::RecvFrom {
                fd: self@,
                len: buf@.len() as usize,
                flags: 0,
                capacity: layout.size() as u32,
            }),
    {
        Call::RecvFrom {
            fd: self.inner.fd,
            len: calc_len(buf),
            flags: 0,
            capacity: layout.address_size(),
        }
    }

    /// Takes what [`UnixDatagram::recv_from`] asked for, where the call returned `count`, left
    /// `errno` and wrote the address `raw`.
    ///
    /// On success, returns the number of bytes read and the address from whence the data came.
    pub fn received_from(layout: &Layout, count: isize, errno: i32, raw: RawAddr) -> (r: Result<
        (usize, SocketAddr),
        Error,
    >)
        ensures
            ({
                let addr = crate::address::received(
                    *layout,
                    count_status(count),
                    errno,
                    raw.verbatim(*layout),
                );
                &&& r is Ok <==> addr is Ok
                &&& r is Ok ==> r->Ok_0.0 == count && r->Ok_0.1@ == addr->Ok_0
                &&& r is Err ==> r->Err_0 == addr->Err_0
            }),
            count < 0 ==> r is Err && r->Err_0 == Error::Os(errno),
            count >= 0 && raw.len != 0 && raw.family != layout.af_unix ==> r is Err
                && r->Err_0 is NotUnixSocket,
            count >= 0 && (raw.len == 0 || raw.family == layout.af_unix) ==> r is Ok,
            r is Ok ==> {
                let addr = r->Ok_0.1@;
                &&& r->Ok_0.0 as int == count as int
                &&& addr.layout == *layout
                &&& addr.family == raw.family
                &&& addr.path == raw.path@
                &&& addr.len == if raw.len == 0 {
                    layout.path_offset
                } else {
                    raw.len
                }
            },
    {
        let status: i32 = if count > 0 {
            1
        } else if count == 0 {
            0
        } else {
            -1
        };
        match SocketAddr::new(layout, status, errno, raw) {
            Ok(addr) => Ok((count as usize, addr)),
            Err(e) => Err(e),
        }
    }

    /// Asks to receive data from the socket.
    pub fn recv(&self, buf: &[u8]) -> (call: Request<'static>)
        ensures
            call@ == (CallSpec::Recv { fd: self@, len: buf@.len() as usize, flags: 0 }),
    {
        self.inner.recv(buf)
    }

    /// Asks to receive a message on the socket.
    ///
    /// This interface allows receiving data into multiple buffers. This acts as if the buffers had
    /// been concatenated in the order they were given.
    pub fn recvmsg<'a, 'b, F>(
        &self,
        layout: &Layout,
        buffers: &'a [&'b mut [u8]],
        flags: F,
    ) -> (msg: RecvMsg<'a, 'b, F>)
        requires
            layout.wf(),
        ensures
            msg == (RecvMsg {
                fd: self@,
                buffers,
                capacity: layout.size() as u32,
                control_len: CMSG_BUFFER_SIZE,
                flags,
            }),
            msg.capacity == layout.path_offset + layout.path_len,
            msg.control_len == 4096,
    {
        RecvMsg {
            fd: self.inner.fd,
            buffers,
            capacity: layout.address_size(),
            control_len: CMSG_BUFFER_SIZE,
            flags,
        }
    }

    /// Takes what [`UnixDatagram::recvmsg`] asked for, where the attempt ended in `outcome`, left
    /// `errno` and wrote the address `raw`.
    ///
    /// An attempt that failed with an error number above nought is reported by what it left in
    /// `errno`. An error with another number is reported by that number, unless the address is not
    /// acceptable.
    pub fn message_received<F>(
        layout: &Layout,
        outcome: Result<Message<F>, Error>,
        errno: i32,
        raw: RawAddr,
    ) -> (r: Result<RecvMsgResult<F>, Error>)
        requires
            is_system_outcome(outcome),
        ensures
            ({
                let addr = crate::address::received(
                    *layout,
                    message_status(outcome),
                    errno,
                    raw.verbatim(*layout),
                );
                &&& r is Ok <==> addr is Ok && outcome is Ok
                &&& r is Ok ==> r->Ok_0.data_bytes == outcome->Ok_0.data_bytes
                    && r->Ok_0.sender@ == addr->Ok_0 && r->Ok_0.control_msgs
                    == outcome->Ok_0.control_msgs && r->Ok_0.flags == outcome->Ok_0.flags
                &&& r is Err ==> r->Err_0 == if addr is Err {
                    addr->Err_0
                } else {
                    outcome->Err_0
                }
            }),
            outcome is Ok && raw.len != 0 && raw.family != layout.af_unix ==> r is Err
                && r->Err_0 is NotUnixSocket,
            outcome is Ok && (raw.len == 0 || raw.family == layout.af_unix) ==> r is Ok,
            r is Ok ==> {
                let addr = r->Ok_0.sender@;
                &&& outcome is Ok
                &&& r->Ok_0.data_bytes == outcome->Ok_0.data_bytes
                &&& r->Ok_0.control_msgs == outcome->Ok_0.control_msgs
                &&& r->Ok_0.flags == outcome->Ok_0.flags
                &&& addr.layout == *layout
                &&& addr.family == raw.family
                &&& addr.path == raw.path@
                &&& addr.len == if raw.len == 0 {
                    layout.path_offset
                } else {
                    raw.len
                }
            },
            outcome is Err ==> r is Err,
            outcome is Err && outcome->Err_0->Os_0 > 0 ==> r->Err_0 == Error::Os(errno),
            outcome is Err && outcome->Err_0->Os_0 <= 0 && raw.len != 0 && raw.family
                != layout.af_unix ==> r->Err_0 is NotUnixSocket,
            outcome is Err && outcome->Err_0->Os_0 <= 0 && (raw.len == 0 || raw.family
                == layout.af_unix) ==> r->Err_0 == outcome->Err_0,
    {
        let status: i32 = match &outcome {
            Err(e) => match e.raw_os_error() {
                Some(code) => -code,
                None => 0,
            },
            Ok(_) => 0,
        };
        match SocketAddr::new(layout, status, errno, raw) {
            Err(e) => Err(e),
            Ok(sender) => match outcome {
                Err(e) => Err(e),
                Ok(message) => Ok(
                    RecvMsgResult {
                        data_bytes: message.data_bytes,
                        sender,
                        control_msgs: message.control_msgs,
                        flags: message.flags,
                    },
                ),
            },
        }
    }

    /// Asks to send data on the socket to the specified address.
    pub fn send_to<'a>(&self, platform: &Platform, buf: &'a [u8], path: &[u8]) -> (r: Result<
        Request<'a>,
        Error,
    >)
        requires
            platform.layout.wf(),
        ensures
            r is Ok <==> crate::address::fits(platform.layout, path@),
            r is Ok ==> r->Ok_0@ == (CallSpec::SendTo {
                fd: self@,
                buf: buf@,
                len: buf@.len() as usize,
                flags: 0,
                addr: crate::address::encode(platform.layout, path@),
            }),
            r is Err ==> r->Err_0 == crate::address::misfit(path@),
    {
        match sockaddr_un(&platform.layout, path) {
            Ok(addr) => Ok(
                Call::SendTo { fd: self.inner.fd, buf, len: calc_len(buf), flags: 0, addr },
            ),
            Err(e) => Err(e),
        }
    }

    /// Asks to send data on the socket to the socket's peer.
    ///
    /// The peer address may be set by the `connect` method, and the call will fail if the socket
    /// has not already been connected.
    pub fn send<'a>(&self, buf: &'a [u8]) -> (call: Request<'a>)
        ensures
            call@ == (CallSpec::Send { fd: self@, buf: buf@, len: buf@.len() as usize, flags: 0 }),
    {
        self.inner.send(buf)
    }

    /// Asks to send data on the socket to the specified address.
    ///
    /// If path is None, the peer address set by the `connect` method will be used. If it has not
    /// been set, then the call will fail.
    ///
    /// This interface allows sending data from multiple buffers. This acts as if the buffers had
    /// been concatenated in the order they were given.
    ///
    /// ctrl_msgs are special ancillary data that can be sent, such as file descriptors and Unix
    /// credentials
    pub fn sendmsg<'a, F>(
        &self,
        platform: &Platform,
        path: Option<&[u8]>,
        buffers: &'a [&'a [u8]],
        ctrl_msgs: &'a [ControlMsg],
        flags: F,
    ) -> (r: Result<SendMsg<'a, F>, Error>)
        requires
            platform.layout.wf(),
        ensures
            r is Ok <==> (path is Some ==> crate::address::fits(platform.layout, path->0@)),
            r is Ok ==> {
                let msg = r->Ok_0;
                &&& msg.fd == self@
                &&& msg.dst is Some <==> path is Some
                &&& path is Some ==> msg.dst->0@ == crate::address::encode(
                    platform.layout,
                    path->0@,
                )
                &&& msg.buffers == buffers
                &&& msg.ctrl_msgs == ctrl_msgs
                &&& msg.flags == flags
                &&& msg@.data() == contents_of(buffers@).flatten()
            },
            r is Err ==> r->Err_0 == crate::address::misfit(path->0@),
    {
        let dst = match path {
            None => None,
            Some(p) => match sockaddr_un(&platform.layout, p) {
                Ok(addr) => Some(addr),
                Err(e) => {
                    return Err(e);
                },
            },
        };
        Ok(SendMsg { fd: self.inner.fd, dst, buffers, ctrl_msgs, flags })
    }

    /// Asks to set the read timeout for the socket.
    ///
    /// If the provided value is `None`, then `recv` and `recv_from` calls will block indefinitely.
    /// It is an error to pass the zero `Duration` to this method.
    pub fn set_read_timeout(&self, platform: &Platform, timeout: Option<Duration>) -> (r: Result<
        Request<'static>,
        Error,
    >)
        requires
            0 < platform.time_max,
        ensures
            r is Err <==> timeout is Some && timeout->0.is_zero(),
            r is Err ==> r->Err_0 == Error::ZeroTimeout,
            r is Ok ==> r->Ok_0@ == crate::inner::set_timeout_spec(
                *platform,
                self@,
                platform.so_rcvtimeo,
                timeout,
            )->Ok_0,
    {
        self.inner.set_timeout(platform, timeout, platform.so_rcvtimeo)
    }

    /// Asks to set the write timeout for the socket.
    ///
    /// If the provided value is `None`, then `send` and `send_to` calls will block indefinitely. It
    /// is an error to pass the zero `Duration` to this method.
    pub fn set_write_timeout(&self, platform: &Platform, timeout: Option<Duration>) -> (r: Result<
        Request<'static>,
        Error,
    >)
        requires
            0 < platform.time_max,
        ensures
            r is Err <==> timeout is Some && timeout->0.is_zero(),
            r is Err ==> r->Err_0 == Error::ZeroTimeout,
            r is Ok ==> r->Ok_0@ == crate::inner::set_timeout_spec(
                *platform,
                self@,
                platform.so_sndtimeo,
                timeout,
            )->Ok_0,
    {
        self.inner.set_timeout(platform, timeout, platform.so_sndtimeo)
    }

    /// Asks for the read timeout of this socket, which `timeout_read` takes.
    pub fn read_timeout(&self, platform: &Platform) -> (call: Request<'static>)
        ensures
            call@ == crate::inner::get_timeout_call(*platform, self@, platform.so_rcvtimeo),
    {
        self.inner.timeout(platform, platform.so_rcvtimeo)
    }

    /// Asks for the write timeout of this socket, which `timeout_read` takes.
    pub fn write_timeout(&self, platform: &Platform) -> (call: Request<'static>)
        ensures
            call@ == crate::inner::get_timeout_call(*platform, self@, platform.so_sndtimeo),
    {
        self.inner.timeout(platform, platform.so_sndtimeo)
    }

    /// Asks to shut down the read, write, or both halves of this connection.
    ///
    /// This will cause all pending and future I/O calls on the specified portions to immediately
    /// return with an appropriate value.
    pub fn shutdown(&self, platform: &Platform, how: Shutdown) -> (call: Request<'static>)
        ensures
            call@ == (CallSpec::Shutdown { fd: self@, how: how.argument(*platform) }),
    {
        self.inner.shutdown(platform, how)
    }

    /// Asks to enable or disable receiving credentials with messages.
    pub fn set_passcred(&self, platform: &Platform, receive_creds: bool) -> (call: Request<'static>)
        ensures
            call@ == crate::inner::passcred_call(*platform, self@, receive_creds),
    {
        self.inner.set_passcred(platform, receive_creds)
    }

    /// Returns the descriptor of the socket.
    pub fn as_raw_fd(&self) -> (fd: i32)
        ensures
            fd == self@,
    {
        self.inner.fd
    }

    /// Takes a descriptor as a datagram socket.
    pub fn from_descriptor(fd: i32) -> (socket: UnixDatagram)
        ensures
            socket@ == fd,
    {
        UnixDatagram { inner: Inner { fd } }
    }

    /// Asks to close the socket, which is due when it goes out of scope.
    pub fn close(&self) -> (call: Request<'static>)
        ensures
            call@ == (CallSpec::Close { fd: self@ }),
    {
        self.inner.close()
    }
}

/// An attempt to receive a message that failed with an error of the operating system is reported by
/// that error, whatever was written as the address.
pub proof fn law_failed_message_is_reported<F>(
    layout: Layout,
    outcome: Result<Message<F>, Error>,
    errno: i32,
    raw: crate::address::SockAddr,
)
    requires
        errno > 0,
        outcome == Err::<Message<F>, Error>(Error::Os(errno)),
    ensures
        is_system_outcome(outcome),
        crate::address::received(layout, message_status(outcome), errno, raw) == Err::<
            crate::address::SockAddr,
            Error,
        >(Error::Os(errno)),
{
}

/// A call that received data has worked whatever the number of bytes, and has failed where that is
/// negative.
pub proof fn law_count_decides(count: isize)
    ensures
        count_status(count) < 0 <==> count < 0,
{
}

/// An attempt to receive a message that did not fail counts as one, whatever was received with it,
/// and one that failed has the negated number of its error as its status. Attempts count that did not
/// fail, and those that failed with an error of the operating system whose number can be negated.
pub proof fn law_received_message_has_worked<F>(outcome: Result<Message<F>, Error>)
    ensures
        outcome is Ok ==> message_status(outcome) == 0,
        outcome is Ok ==> is_system_outcome(outcome),
        outcome is Err ==> (is_system_outcome(outcome) <==> outcome->Err_0 is Os
            && outcome->Err_0->Os_0 != i32::MIN),
        outcome is Err && is_system_outcome(outcome) ==> message_status(outcome)
            == -outcome->Err_0->Os_0,
{
}

/// A message that was received is handed on, whatever it is, where the address of its sender has no
/// length or is that of a Unix socket: what is made of it is that address.
pub proof fn law_received_message_is_handed_on<F>(
    layout: Layout,
    outcome: Result<Message<F>, Error>,
    errno: i32,
    raw: crate::address::SockAddr,
)
    requires
        outcome is Ok,
        raw.len == 0 || raw.family == layout.af_unix,
    ensures
        ({
            let addr = crate::address::received(layout, message_status(outcome), errno, raw);
            &&& addr is Ok
            &&& addr->Ok_0.family == raw.family
            &&& addr->Ok_0.path == raw.path
            &&& addr->Ok_0.len == if raw.len == 0 {
                layout.path_offset
            } else {
                raw.len
            }
        }),
{
}

/// A message to send stands for what it holds: the buffers in order, each with its bytes, and the
/// control messages in order.
pub proof fn law_message_is_what_it_holds<'a, F>(msg: SendMsg<'a, F>)
    ensures
        msg@.fd == msg.fd,
        msg@.dst is Some <==> msg.dst is Some,
        msg.dst is Some ==> msg@.dst->0 == msg.dst->0@,
        msg@.buffers.len() == msg.buffers@.len(),
        forall|i: int| 0 <= i < msg.buffers@.len() ==> msg@.buffers[i] == msg.buffers@[i]@,
        msg@.control.len() == msg.ctrl_msgs@.len(),
        forall|i: int| 0 <= i < msg.ctrl_msgs@.len() ==> msg@.control[i] == msg.ctrl_msgs@[i]@,
        msg@.flags == msg.flags,
{
}

/// The data of a message grows by every buffer that is put behind the others.
pub proof fn law_data_grows_by_buffer<F>(msg: OutMessage<F>, buffer: Seq<u8>)
    ensures
        (OutMessage { buffers: msg.buffers.push(buffer), ..msg }).data() == msg.data() + buffer,
        (OutMessage { buffers: Seq::<Seq<u8>>::empty(), ..msg }).data().len() == 0,
{
    msg.buffers.lemma_flatten_push(buffer);
}

} // verus!
