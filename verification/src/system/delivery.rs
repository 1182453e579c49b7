//! Laws on connections, and on where data arrives and what address it comes from.
use crate::address::{Kind, SockAddr};
use crate::inner::Shutdown;
use crate::platform::Layout;
use crate::request::{Call, CallSpec};
use crate::system::{Datagram, Socket, System};
use vstd::prelude::*;

verus! {

/// One end of a pair of sockets and the other.
pub open spec fn are_ends(fds: (i32, i32), here: i32, there: i32) -> bool {
    (here, there) == fds || (there, here) == fds
}

/// The call that connects to the socket named by `path`.
pub open spec fn connect_call(layout: Layout, fd: i32, path: Seq<u8>) -> CallSpec {
    Call::Connect { fd, addr: crate::address::encode(layout, path) }
}

/// The two sockets of a pair are new, have nothing to read, and are connected to each other. All
/// other sockets and descriptors are as before.
pub proof fn law_pair_is_connected(system: System, ty: i32, ret: int, fds: (i32, i32))
    requires
        system.wf(),
        system.allows_pair(ret, fds),
        ret >= 0,
    ensures
        ({
            let t = system.after_pair(ty, ret, fds);
            let (s1, s2) = (t.descriptors[fds.0], t.descriptors[fds.1]);
            &&& t.wf()
            &&& t.is_open(fds.0) && t.is_open(fds.1)
            &&& s1 != s2
            &&& !system.is_socket(s1) && !system.is_socket(s2)
            &&& t.sockets[s1] == Socket { peer: Some(s2), ..crate::system::new_socket(ty) }
            &&& t.sockets[s2] == Socket { peer: Some(s1), ..crate::system::new_socket(ty) }
            &&& t.sockets.take(system.sockets.len() as int) == system.sockets
            &&& t.descriptors.remove(fds.0).remove(fds.1) == system.descriptors
            &&& t.names == system.names
        }),
{
    let t = system.after_pair(ty, ret, fds);
    let n = system.sockets.len() as int;
    let fresh = crate::system::new_socket(ty);
    let one = System { sockets: system.sockets.push(fresh), ..system };
    crate::system::lemma_added_socket(system, fresh);
    let two = System { sockets: one.sockets.push(fresh), ..one };
    crate::system::lemma_added_socket(one, fresh);
    crate::system::lemma_replaced_socket(two, n, Socket { peer: Some(n + 1), ..fresh });
    let three = two.with(n, Socket { peer: Some(n + 1), ..fresh });
    crate::system::lemma_replaced_socket(three, n + 1, Socket { peer: Some(n), ..fresh });
    let four = three.with(n + 1, Socket { peer: Some(n), ..fresh });
    crate::system::lemma_added_descriptor(four, fds.0, n);
    let five = System { descriptors: four.descriptors.insert(fds.0, n), ..four };
    crate::system::lemma_added_descriptor(five, fds.1, n + 1);
    assert(t.sockets =~= four.sockets);
    assert(t.sockets.take(n) =~= system.sockets);
    assert(t.descriptors.remove(fds.0).remove(fds.1) =~= system.descriptors);
}

/// What is written at one end of a pair of streams is what is then read at the other end, and
/// nothing comes back.
pub proof fn law_pair_carries_stream(
    system: System,
    ret: int,
    fds: (i32, i32),
    here: i32,
    there: i32,
    buf: Seq<u8>,
    sent: int,
    len: usize,
    received: int,
)
    requires
        system.wf(),
        system.allows_pair(ret, fds),
        ret >= 0,
        are_ends(fds, here, there),
        sent >= 0,
        received >= 0,
        ({
            let paired = system.after_pair(system.platform.sock_stream, ret, fds);
            let write = crate::system::handles::write_call(here, buf);
            &&& paired.allows(write, sent)
            &&& paired.after(write, sent).allows(
                crate::system::handles::read_call(there, len),
                received,
            )
        }),
    ensures
        ({
            let paired = system.after_pair(system.platform.sock_stream, ret, fds);
            let written = paired.after(crate::system::handles::write_call(here, buf), sent);
            &&& written.at(there).arrived == buf.take(sent)
            &&& written.at(here).arrived.len() == 0
            &&& received <= sent
            &&& written.bytes_read(crate::system::handles::read_call(there, len), received)
                == buf.take(received)
        }),
{
    law_pair_is_connected(system, system.platform.sock_stream, ret, fds);
    let paired = system.after_pair(system.platform.sock_stream, ret, fds);
    let written = paired.after(crate::system::handles::write_call(here, buf), sent);
    assert(written.at(there).arrived =~= buf.take(sent));
    assert(buf.take(sent).take(received) =~= buf.take(received));
}

/// A message that is sent at one end of a pair of datagram sockets is the one message that is then
/// received at the other end: all of it, from an unnamed socket.
pub proof fn law_pair_carries_messages(
    system: System,
    ret: int,
    fds: (i32, i32),
    here: i32,
    there: i32,
    buf: Seq<u8>,
    sent: int,
)
    requires
        system.wf(),
        system.allows_pair(ret, fds),
        ret >= 0,
        are_ends(fds, here, there),
        sent >= 0,
        system.after_pair(system.platform.sock_dgram, ret, fds).allows(
            crate::system::handles::write_call(here, buf),
            sent,
        ),
    ensures
        ({
            let paired = system.after_pair(system.platform.sock_dgram, ret, fds);
            let t = paired.after(crate::system::handles::write_call(here, buf), sent);
            &&& sent == buf.len()
            &&& t.at(there).messages == seq![
                Datagram {
                    data: buf,
                    from: t.descriptors[here],
                    sender: None,
                    credentials: None,
                    files: seq![],
                },
            ]
            &&& t.at(here).messages.len() == 0
        }),
{
    law_pair_is_connected(system, system.platform.sock_dgram, ret, fds);
}

/// Data that is sent on a datagram socket goes to the peer that was set last, and to no other
/// socket, though another peer was set before.
pub proof fn law_send_goes_to_last_peer(
    system: System,
    layout: Layout,
    fd: i32,
    path1: Seq<u8>,
    ret1: int,
    path2: Seq<u8>,
    ret2: int,
    buf: Seq<u8>,
    sent: int,
)
    requires
        system.wf(),
        system.is_open(fd),
        !system.is_stream(system.at(fd)),
        ret2 >= 0,
        sent >= 0,
        ({
            let first = system.after(connect_call(layout, fd, path1), ret1);
            let second = first.after(connect_call(layout, fd, path2), ret2);
            &&& system.allows(connect_call(layout, fd, path1), ret1)
            &&& first.allows(connect_call(layout, fd, path2), ret2)
            &&& second.allows(crate::system::handles::write_call(fd, buf), sent)
        }),
    ensures
        ({
            let first = system.after(connect_call(layout, fd, path1), ret1);
            let second = first.after(connect_call(layout, fd, path2), ret2);
            let end = second.after(crate::system::handles::write_call(fd, buf), sent);
            let target = system.names[crate::address::encode(layout, path2)];
            &&& sent == buf.len()
            &&& system.is_socket(target)
            &&& end.sockets[target].messages == system.sockets[target].messages.push(
                Datagram {
                    data: buf,
                    from: system.descriptors[fd],
                    sender: system.at(fd).address,
                    credentials: None,
                    files: seq![],
                },
            )
            &&& forall|other: int|
                system.is_socket(other) && other != target ==> (
                #[trigger] end.sockets[other]).messages == system.sockets[other].messages
        }),
{
    let addr = crate::address::encode(layout, path2);
    assert(system.names.dom().contains(addr));
    assert(system.is_socket(system.descriptors[fd]));
}

/// The socket is a datagram socket that is connected, and every message that waits at it is from
/// its peer.
pub open spec fn hears_only_peer(system: System, socket: int) -> bool {
    let s = system.sockets[socket];
    &&& system.is_socket(socket)
    &&& !system.is_stream(s)
    &&& s.peer is Some
    &&& forall|i: int| 0 <= i < s.messages.len() ==> (#[trigger] s.messages[i]).from == s.peer->0
}

/// Once a datagram socket at which nothing waits was connected, its peer is the only one whose
/// messages wait at it.
pub proof fn law_connected_socket_hears_peer(
    system: System,
    layout: Layout,
    fd: i32,
    path: Seq<u8>,
    ret: int,
)
    requires
        system.wf(),
        system.is_open(fd),
        !system.is_stream(system.at(fd)),
        system.at(fd).messages.len() == 0,
        ret >= 0,
        system.allows(connect_call(layout, fd, path), ret),
    ensures
        ({
            let t = system.after(connect_call(layout, fd, path), ret);
            &&& hears_only_peer(t, system.descriptors[fd])
            &&& t.at(fd).peer == Some(system.names[crate::address::encode(layout, path)])
        }),
{
}

/// It stays so, whatever calls are made on whatever sockets, until the socket itself is connected
/// to another: data from that peer alone is received.
pub proof fn law_peer_stays_only_sender(system: System, socket: int, call: CallSpec, ret: int)
    requires
        system.wf(),
        hears_only_peer(system, socket),
        crate::system::is_followed(call),
        system.allows(call, ret),
        call is Connect ==> system.descriptors[call->Connect_fd] != socket,
    ensures
        hears_only_peer(system.after(call, ret), socket),
        system.after(call, ret).sockets[socket].peer == system.sockets[socket].peer,
{
}

/// A stream that was connected to a listener at which nothing else waits, and the stream that is then
/// accepted there, are connected to each other.
pub proof fn law_accepted_stream_is_connected(
    system: System,
    layout: Layout,
    fd: i32,
    path: Seq<u8>,
    ret: int,
    listener: i32,
    accepted: i32,
)
    requires
        system.wf(),
        system.is_open(fd),
        system.is_open(listener),
        system.is_stream(system.at(fd)),
        !system.same_socket(fd, listener),
        system.names.dom().contains(crate::address::encode(layout, path)),
        system.names[crate::address::encode(layout, path)] == system.descriptors[listener],
        system.at(listener).waiting == Some(Seq::<int>::empty()),
        ret >= 0,
        accepted >= 0,
        system.allows(connect_call(layout, fd, path), ret),
        system.after(connect_call(layout, fd, path), ret).allows(
            CallSpec::Accept { fd: listener },
            accepted as int,
        ),
    ensures
        ({
            let t = system.after(connect_call(layout, fd, path), ret).after(
                CallSpec::Accept { fd: listener },
                accepted as int,
            );
            &&& t.descriptors[accepted] != t.descriptors[fd]
            &&& t.at(fd).peer == Some(t.descriptors[accepted])
            &&& t.at(accepted).peer == Some(t.descriptors[fd])
            &&& t.at(accepted).address == system.at(listener).address
            &&& t.at(accepted).arrived.len() == 0
            &&& t.at(listener).waiting == Some(Seq::<int>::empty())
        }),
{
    let connected = system.after(connect_call(layout, fd, path), ret);
    assert(system.is_socket(system.descriptors[fd]));
    assert(system.is_socket(system.descriptors[listener]));
    assert(connected.at(listener).waiting == Some(
        Seq::<int>::empty().push(system.sockets.len() as int),
    ));
    assert(Seq::<int>::empty().push(system.sockets.len() as int).drop_first() =~= Seq::<
        int,
    >::empty());
}

/// Once the writing half of a socket was shut down, or both halves, every call fails that sends data
/// through any descriptor of that socket. To shut down the reading half does not stop one.
pub proof fn law_nothing_is_sent_after_shutdown(
    system: System,
    fd: i32,
    how: Shutdown,
    other: i32,
    buf: Seq<u8>,
    ret: int,
)
    requires
        system.wf(),
        system.same_socket(fd, other),
    ensures
        ({
            let shutdown = CallSpec::Shutdown { fd, how: how.argument(system.platform) };
            let send = crate::system::handles::write_call(other, buf);
            let t = system.after(shutdown, 0);
            &&& how == Shutdown::Read ==> t.allows(send, ret) == system.allows(send, ret)
            &&& how != Shutdown::Read && t.allows(send, ret) ==> ret < 0
        }),
{
    let shutdown = CallSpec::Shutdown { fd, how: how.argument(system.platform) };
    if how == Shutdown::Read {
        assert(system.is_open(fd));
        assert(system.after(shutdown, 0).sockets =~= system.sockets);
    }
}

/// What the system writes over null bytes where a call asks for an address: as many bytes of the
/// address as it has. For a socket that has none it writes no length, or an address without a name.
/// Systems that know no abstract addresses may give such an address a longer length.
pub open spec fn writes(layout: Layout, address: Option<SockAddr>, raw: SockAddr) -> bool {
    let blank = crate::address::blank_path(layout);
    &&& raw.layout == layout
    &&& match address {
        Some(addr) => {
            &&& raw.family == addr.family
            &&& raw.len == addr.len
            &&& raw.path == addr.path.take(addr.name_len()) + blank.skip(addr.name_len())
        },
        None => {
            &&& raw.path == blank
            &&& raw.len == 0 || raw.family == layout.af_unix && (raw.len == layout.path_offset
                || !layout.abstract_names && layout.path_offset <= raw.len <= layout.size())
        },
    }
}

/// What the system writes for an address that was made for a path is that address.
proof fn lemma_written_address(layout: Layout, path: Seq<u8>, raw: SockAddr)
    requires
        layout.wf(),
        crate::address::fits(layout, path),
        writes(layout, Some(crate::address::encode(layout, path)), raw),
    ensures
        raw == crate::address::encode(layout, path),
{
    assert(raw.path =~= crate::address::encode(layout, path).path);
}

/// A socket that was bound to a path is asked for its address and has that path.
pub proof fn law_bound_socket_has_path(
    system: System,
    layout: Layout,
    fd: i32,
    path: Seq<u8>,
    capacity: u32,
    ret: i32,
    errno: i32,
    raw: SockAddr,
)
    requires
        system.wf(),
        system.is_open(fd),
        layout.wf(),
        crate::address::fits(layout, path),
        ret >= 0,
        ({
            let bind = CallSpec::Bind { fd, addr: crate::address::encode(layout, path) };
            let get = CallSpec::GetSockName { fd, capacity };
            writes(layout, system.after(bind, 0).address_asked_for(get), raw)
        }),
    ensures
        ({
            let addr = crate::address::received(layout, ret, errno, raw);
            &&& addr is Ok
            &&& addr->Ok_0.readable()
            &&& addr->Ok_0.kind() == crate::address::named_by(layout, path)
        }),
{
    lemma_written_address(layout, path, raw);
    crate::address::law_address_comes_back(layout, path, ret, errno);
}

/// The sender of a message is seen as what its socket was bound to: unnamed where it was bound to
/// nothing, and else the path.
pub proof fn law_sender_is_seen(
    layout: Layout,
    message: Datagram,
    path: Option<Seq<u8>>,
    ret: i32,
    errno: i32,
    raw: SockAddr,
)
    requires
        layout.wf(),
        path is Some ==> crate::address::fits(layout, path->0),
        message.sender == (match path {
            Some(p) => Some(crate::address::encode(layout, p)),
            None => None,
        }),
        writes(layout, message.sender, raw),
        ret >= 0,
    ensures
        ({
            let addr = crate::address::received(layout, ret, errno, raw);
            &&& addr is Ok
            &&& addr->Ok_0.readable()
            &&& addr->Ok_0.kind() == (match path {
                Some(p) => crate::address::named_by(layout, p),
                None => Kind::Unnamed,
            })
        }),
{
    match path {
        Some(p) => {
            lemma_written_address(layout, p, raw);
            crate::address::law_address_comes_back(layout, p, ret, errno);
        },
        None => {},
    }
}

} // verus!
