//! Stream sockets.
use crate::error::Error;
use crate::inner::{Inner, Shutdown};
use crate::opening::{Opening, OpeningStep, Purpose};
use crate::platform::{Layout, Platform};
use crate::reply::Reply;
use crate::request::{Call, CallSpec, Request};
use crate::timeout::Duration;
use vstd::prelude::*;

verus! {

/// A Unix stream socket. Its view is its descriptor.
#[derive(Debug)]
pub struct UnixStream {
    inner: Inner,
}

impl View for UnixStream {
    type V = i32;

    closed spec fn view(&self) -> i32 {
        self.inner.fd
    }
}

impl UnixStream {
    /// Connects to the socket named by `path`: the first step. Where the steps end well, the
    /// descriptor they end with becomes a stream by [`UnixStream::from_descriptor`].
    ///
    /// Linux provides, as a nonportable extension, a separate "abstract" address namespace as
    /// opposed to filesystem-based addressing. If `path` begins with a null byte, it will be
    /// interpreted as an "abstract" address. Otherwise, it will be interpreted as a "pathname"
    /// address, corresponding to a path on the filesystem.
    pub fn connect(platform: &Platform, path: &[u8]) -> (step: OpeningStep)
        ensures
            step@ == crate::opening::start_spec(
                *platform,
                platform.sock_stream,
                Purpose::Connect,
                path@,
            ),
    {
        Opening::start(platform, platform.sock_stream, Purpose::Connect, path)
    }

    /// Asks for an unnamed pair of connected sockets.
    pub fn pair(platform: &Platform) -> (call: Request<'static>)
        ensures
            call@ == (CallSpec::SocketPair {
                domain: platform.layout.af_unix as i32,
                ty: platform.sock_stream,
                protocol: 0,
            }),
    {
        Inner::new_pair(platform, platform.sock_stream)
    }

    /// Takes the two streams that [`UnixStream::pair`] asked for, which are connected to each
    /// other.
    pub fn paired(reply: Reply, fds: (i32, i32)) -> (r: Result<(UnixStream, UnixStream), Error>)
        ensures
            r is Ok <==> reply.ret >= 0,
            r is Ok ==> (r->Ok_0.0@, r->Ok_0.1@) == fds,
            r is Err ==> r->Err_0 == Error::Os(reply.errno),
    {
        match Inner::pair_from(reply, fds) {
            Ok((i1, i2)) => Ok((UnixStream { inner: i1 }, UnixStream { inner: i2 })),
            Err(e) => Err(e),
        }
    }

    /// # Deprecated
    ///
    /// Use `UnixStream::pair` instead.
    pub fn unnamed(platform: &Platform) -> (call: Request<'static>)
        ensures
            call@ == (CallSpec::SocketPair {
                domain: platform.layout.af_unix as i32,
                ty: platform.sock_stream,
                protocol: 0,
            }),
    {
        UnixStream::pair(platform)
    }

    /// Asks for a new independently owned handle to the underlying socket.
    ///
    /// The new `UnixStream` is a reference to the same stream that this object references. Both
    /// handles will read and write the same stream of data, and options set on one stream will be
    /// propagated to the other stream.
    pub fn try_clone(&self) -> (call: Request<'static>)
        ensures
            call@ == (CallSpec::Dup { fd: self@ }),
    {
        self.inner.try_clone()
    }

    /// Takes the stream that [`UnixStream::try_clone`] asked for.
    pub fn cloned(reply: Reply) -> (r: Result<UnixStream, Error>)
        ensures
            r is Ok <==> crate::reply::descriptor_spec(reply) is Ok,
            r is Ok ==> r->Ok_0@ == crate::reply::descriptor_spec(reply)->Ok_0,
            r is Err ==> r->Err_0 == crate::reply::descriptor_spec(reply)->Err_0,
            reply.ret >= 0 ==> r is Ok && r->Ok_0@ == reply.ret,
            reply.ret < 0 ==> r is Err && r->Err_0 == Error::Os(reply.errno),
    {
        match Inner::from_reply(reply) {
            Ok(inner) => Ok(UnixStream { inner }),
            Err(e) => Err(e),
        }
    }

    /// Asks for the socket address of the local half of this connection, which
    /// `SocketAddr::new` takes.
    pub fn local_addr(&self, layout: &Layout) -> (call: Request<'static>)
        requires
            layout.wf(),
        ensures
            call@ == (CallSpec::GetSockName { fd: self@, capacity: layout.size() as u32 }),
            call@->GetSockName_capacity == layout.path_offset + layout.path_len,
    {
        Call::GetSockName { fd: self.inner.fd, capacity: layout.address_size() }
    }

    /// Asks for the socket address of the remote half of this connection, which
    /// `SocketAddr::new` takes.
    pub fn peer_addr(&self, layout: &Layout) -> (call: Request<'static>)
        requires
            layout.wf(),
        ensures
            call@ == (CallSpec::GetPeerName { fd: self@, capacity: layout.size() as u32 }),
            call@->GetPeerName_capacity == layout.path_offset + layout.path_len,
    {
        Call::GetPeerName { fd: self.inner.fd, capacity: layout.address_size() }
    }

    /// Asks to set the read timeout for the socket.
    ///
    /// If the provided value is `None`, then `read` calls will block indefinitely. It is an error
    /// to pass the zero `Duration` to this method.
    pub fn set_read_timeout(&self, platform: &Platform, timeout: Option<Duration>) -> (r: Result<
        Request<'static>,
        Error,
    >)
        requires
            0 < platform.time_max,
        ensures
            r is Err <==> timeout is Some && timeout->0.is_zero(),
            r is Err ==> r->Err_0 == Error::ZeroTimeout,
            r is Ok ==> r->Ok_0@ == crate::inner::set_timeout_spec(
                *platform,
                self@,
                platform.so_rcvtimeo,
                timeout,
            )->Ok_0,
    {
        self.inner.set_timeout(platform, timeout, platform.so_rcvtimeo)
    }

    /// Asks to set the write timeout for the socket.
    ///
    /// If the provided value is `None`, then `write` calls will block indefinitely. It is an error
    /// to pass the zero `Duration` to this method.
    pub fn set_write_timeout(&self, platform: &Platform, timeout: Option<Duration>) -> (r: Result<
        Request<'static>,
        Error,
    >)
        requires
            0 < platform.time_max,
        ensures
            r is Err <==> timeout is Some && timeout->0.is_zero(),
            r is Err ==> r->Err_0 == Error::ZeroTimeout,
            r is Ok ==> r->Ok_0@ == crate::inner::set_timeout_spec(
                *platform,
                self@,
                platform.so_sndtimeo,
                timeout,
            )->Ok_0,
    {
        self.inner.set_timeout(platform, timeout, platform.so_sndtimeo)
    }

    /// Asks for the read timeout of this socket, which `timeout_read` takes.
    pub fn read_timeout(&self, platform: &Platform) -> (call: Request<'static>)
        ensures
            call@ == crate::inner::get_timeout_call(*platform, self@, platform.so_rcvtimeo),
    {
        self.inner.timeout(platform, platform.so_rcvtimeo)
    }

    /// Asks for the write timeout of this socket, which `timeout_read` takes.
    pub fn write_timeout(&self, platform: &Platform) -> (call: Request<'static>)
        ensures
            call@ == crate::inner::get_timeout_call(*platform, self@, platform.so_sndtimeo),
    {
        self.inner.timeout(platform, platform.so_sndtimeo)
    }

    /// Asks to shut down the read, write, or both halves of this connection.
    ///
    /// This will cause all pending and future I/O calls on the specified portions to immediately
    /// return with an appropriate value.
    pub fn shutdown(&self, platform: &Platform, how: Shutdown) -> (call: Request<'static>)
        ensures
            call@ == (CallSpec::Shutdown { fd: self@, how: how.argument(*platform) }),
    {
        self.inner.shutdown(platform, how)
    }

    /// Asks to read into a buffer.
    pub fn read(&self, buf: &[u8]) -> (call: Request<'static>)
        ensures
            call@ == (CallSpec::Recv { fd: self@, len: buf@.len() as usize, flags: 0 }),
    {
        self.inner.recv(buf)
    }

    /// Asks to write what a buffer holds.
    pub fn write<'a>(&self, buf: &'a [u8]) -> (call: Request<'a>)
        ensures
            call@ == (CallSpec::Send { fd: self@, buf: buf@, len: buf@.len() as usize, flags: 0 }),
    {
        self.inner.send(buf)
    }

    /// Does nothing: what was written is on its way.
    pub fn flush(&self) -> (r: Result<(), Error>)
        ensures
            r == Ok::<(), Error>(()),
    {
        Ok(())
    }

    /// Returns the descriptor of the socket.
    pub fn as_raw_fd(&self) -> (fd: i32)
        ensures
            fd == self@,
    {
        self.inner.fd
    }

    /// Takes a descriptor as a stream.
    pub fn from_descriptor(fd: i32) -> (stream: UnixStream)
        ensures
            stream@ == fd,
    {
        UnixStream { inner: Inner { fd } }
    }

    /// Asks to close the socket, which is due when the stream goes out of scope.
    pub fn close(&self) -> (call: Request<'static>)
        ensures
            call@ == (CallSpec::Close { fd: self@ }),
    {
        self.inner.close()
    }
}

} // verus!
