//! Servers of stream sockets.
use crate::error::Error;
use crate::inner::Inner;
use crate::opening::{Opening, OpeningStep, Purpose};
use crate::platform::{Layout, Platform};
use crate::reply::Reply;
use crate::request::{Call, CallSpec, Request};
use crate::stream::UnixStream;
use vstd::prelude::*;

verus! {

/// A structure representing a Unix domain socket server. Its view is its descriptor.
#[derive(Debug)]
pub struct UnixListener {
    inner: Inner,
}

impl View for UnixListener {
    type V = i32;

    closed spec fn view(&self) -> i32 {
        self.inner.fd
    }
}

impl UnixListener {
    /// Creates a new `UnixListener` which will be bound to the specified socket: the first step.
    /// Where the steps end well, the descriptor they end with becomes a listener by
    /// [`UnixListener::from_descriptor`].
    ///
    /// Linux provides, as a nonportable extension, a separate "abstract" address namespace as
    /// opposed to filesystem-based addressing. If `path` begins with a null byte, it will be
    /// interpreted as an "abstract" address. Otherwise, it will be interpreted as a "pathname"
    /// address, corresponding to a path on the filesystem.
    pub fn bind(platform: &Platform, path: &[u8]) -> (step: OpeningStep)
        ensures
            step@ == crate::opening::start_spec(
                *platform,
                platform.sock_stream,
                Purpose::Listen,
                path@,
            ),
    {
        Opening::start(platform, platform.sock_stream, Purpose::Listen, path)
    }

    /// Asks for a new incoming connection to this listener.
    pub fn accept(&self) -> (call: Request<'static>)
        ensures
            call@ == (CallSpec::Accept { fd: self@ }),
    {
        Call::Accept { fd: self.inner.fd }
    }

    /// Takes the connection that [`UnixListener::accept`] asked for.
    pub fn accepted(reply: Reply) -> (r: Result<UnixStream, Error>)
        ensures
            r is Ok <==> crate::reply::descriptor_spec(reply) is Ok,
            r is Ok ==> r->Ok_0@ == crate::reply::descriptor_spec(reply)->Ok_0,
            r is Err ==> r->Err_0 == crate::reply::descriptor_spec(reply)->Err_0,
            reply.ret >= 0 ==> r is Ok && r->Ok_0@ == reply.ret,
            reply.ret < 0 ==> r is Err && r->Err_0 == Error::Os(reply.errno),
    {
        match Inner::from_reply(reply) {
            Ok(inner) => Ok(UnixStream::from_descriptor(inner.fd)),
            Err(e) => Err(e),
        }
    }

    /// Asks for a new independently owned handle to the underlying socket.
    ///
    /// The new `UnixListener` is a reference to the same socket that this object references. Both
    /// handles can be used to accept incoming connections and options set on one listener will
    /// affect the other.
    pub fn try_clone(&self) -> (call: Request<'static>)
        ensures
            call@ == (CallSpec::Dup { fd: self@ }),
    {
        self.inner.try_clone()
    }

    /// Takes the listener that [`UnixListener::try_clone`] asked for.
    pub fn cloned(reply: Reply) -> (r: Result<UnixListener, Error>)
        ensures
            r is Ok <==> crate::reply::descriptor_spec(reply) is Ok,
            r is Ok ==> r->Ok_0@ == crate::reply::descriptor_spec(reply)->Ok_0,
            r is Err ==> r->Err_0 == crate::reply::descriptor_spec(reply)->Err_0,
            reply.ret >= 0 ==> r is Ok && r->Ok_0@ == reply.ret,
            reply.ret < 0 ==> r is Err && r->Err_0 == Error::Os(reply.errno),
    {
        match Inner::from_reply(reply) {
            Ok(inner) => Ok(UnixListener { inner }),
            Err(e) => Err(e),
        }
    }

    /// Asks for the socket address of the local half of this connection, which
    /// `SocketAddr::new` takes.
    pub fn local_addr(&self, layout: &Layout) -> (call: Request<'static>)
        requires
            layout.wf(),
        ensures
            call@ == (CallSpec::GetSockName { fd: self@, capacity: layout.size() as u32 }),
            call@->GetSockName_capacity == layout.path_offset + layout.path_len,
    {
        Call::GetSockName { fd: self.inner.fd, capacity: layout.address_size() }
    }

    /// Returns an iterator over incoming connections.
    ///
    /// The iterator will never return `None`.
    pub fn incoming<'a>(&'a self) -> (incoming: Incoming<'a>)
        ensures
            incoming@ == self@,
    {
        Incoming { listener: self }
    }

    /// Returns the descriptor of the socket.
    pub fn as_raw_fd(&self) -> (fd: i32)
        ensures
            fd == self@,
    {
        self.inner.fd
    }

    /// Takes a descriptor as a listener.
    pub fn from_descriptor(fd: i32) -> (listener: UnixListener)
        ensures
            listener@ == fd,
    {
        UnixListener { inner: Inner { fd } }
    }

    /// Asks to close the socket, which is due when the listener goes out of scope.
    pub fn close(&self) -> (call: Request<'static>)
        ensures
            call@ == (CallSpec::Close { fd: self@ }),
    {
        self.inner.close()
    }
}

/// An iterator over incoming connections to a `UnixListener`. Its view is the descriptor of the
/// listener.
///
/// It will never return `None`.
#[derive(Debug)]
pub struct Incoming<'a> {
    listener: &'a UnixListener,
}

impl<'a> View for Incoming<'a> {
    type V = i32;

    closed spec fn view(&self) -> i32 {
        self.listener@
    }
}

impl<'a> Incoming<'a> {
    /// Asks for the next connection, which `UnixListener::accepted` takes. There is always one to
    /// wait for.
    pub fn next(&mut self) -> (next: Option<Request<'static>>)
        ensures
            final(self)@ == old(self)@,
            next is Some,
            next->0@ == (CallSpec::Accept { fd: old(self)@ }),
    {
        Some(self.listener.accept())
    }

    /// Returns bounds for the number of connections: at least the largest number there is, and no
    /// upper bound.
    pub fn size_hint(&self) -> (hint: (usize, Option<usize>))
        ensures
            hint == (usize::MAX, None::<usize>),
    {
        (usize::MAX, None)
    }
}

} // verus!
