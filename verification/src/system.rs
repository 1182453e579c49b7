//! What the calls that the library asks for come to, on a system whose descriptors are handles to
//! sockets.
//!
//! Options, peers, data that has arrived and connections that wait belong to a socket. A descriptor
//! only refers to a socket, and `dup` makes another descriptor that refers to the same one.
use crate::address::SockAddr;
use crate::control::{Control, UCred};
use crate::datagram::OutMessage;
use crate::platform::Platform;
use crate::request::{Call, CallSpec};
use crate::timeout::Timeval;
use vstd::prelude::*;

pub mod delivery;
pub mod handles;
pub mod messages;

verus! {

/// A message that waits at a datagram socket.
#[verifier::ext_equal]
pub struct Datagram {
    /// The data.
    pub data: Seq<u8>,
    /// The socket that sent it.
    pub from: int,
    /// The address that socket had, if it was bound to one.
    pub sender: Option<SockAddr>,
    /// The credentials that were sent with it.
    pub credentials: Option<UCred>,
    /// The sockets whose descriptors were sent with it.
    pub files: Seq<int>,
}

/// A socket.
#[verifier::ext_equal]
pub struct Socket {
    /// Its type.
    pub ty: i32,
    /// The address that it is bound to.
    pub address: Option<SockAddr>,
    /// The socket that it is connected to.
    pub peer: Option<int>,
    /// Whether its writing half was shut down.
    pub write_shut: bool,
    /// The sockets that wait to be accepted, where it listens.
    pub waiting: Option<Seq<int>>,
    /// The bytes of a stream that have arrived and were not read yet.
    pub arrived: Seq<u8>,
    /// The messages that have arrived and were not received yet.
    pub messages: Seq<Datagram>,
    /// The timeouts, by level and option.
    pub timeouts: Map<(i32, i32), Timeval>,
    /// The flags, by level and option.
    pub flags: Map<(i32, i32), i32>,
}

/// The sockets of a system, by number, and the descriptors and addresses that refer to them.
#[verifier::ext_equal]
pub struct System {
    /// The constants of the system.
    pub platform: Platform,
    /// The sockets that were made.
    pub sockets: Seq<Socket>,
    /// The socket that each open descriptor refers to.
    pub descriptors: Map<i32, int>,
    /// The socket that was last bound to each address.
    pub names: Map<SockAddr, int>,
}

/// What came of an attempt to receive a message.
#[verifier::ext_equal]
pub struct Receipt {
    /// How many bytes of data were received, or a negative number where the attempt failed.
    pub count: int,
    /// The credentials that came with it.
    pub credentials: Option<UCred>,
    /// The descriptors that came with it.
    pub fds: Seq<i32>,
    /// The control messages that hold those.
    pub control: Seq<Control>,
    /// Whether control messages were lost for want of room.
    pub control_lost: bool,
}

impl Receipt {
    /// The control message for the credentials, if there are any.
    pub open spec fn credentials_part(self) -> Seq<Control> {
        match self.credentials {
            Some(ucred) => seq![Control::Credentials(ucred)],
            None => seq![],
        }
    }

    /// The control message for the descriptors, if there are any.
    pub open spec fn rights_part(self) -> Seq<Control> {
        if self.fds.len() > 0 {
            seq![Control::Rights(self.fds)]
        } else {
            seq![]
        }
    }
}

/// A new socket.
pub open spec fn new_socket(ty: i32) -> Socket {
    Socket {
        ty,
        address: None,
        peer: None,
        write_shut: false,
        waiting: None,
        arrived: seq![],
        messages: seq![],
        timeouts: Map::empty(),
        flags: Map::empty(),
    }
}

/// The lesser of two numbers.
pub open spec fn least(a: int, b: int) -> int {
    if a < b {
        a
    } else {
        b
    }
}

/// Descriptors once each of `fds` refers to the socket at its place in `files`.
pub open spec fn installed(descriptors: Map<i32, int>, fds: Seq<i32>, files: Seq<int>) -> Map<
    i32,
    int,
>
    decreases fds.len(),
{
    if fds.len() == 0 {
        descriptors
    } else {
        installed(descriptors, fds.drop_last(), files).insert(fds.last(), files[fds.len() - 1])
    }
}

/// A call whose effect on the system [`System::after`] gives: one without flags, except for
/// `socketpair`, which hands out two descriptors and is left to [`System::after_pair`].
pub open spec fn is_followed(call: CallSpec) -> bool {
    match call {
        Call::SocketPair { .. } => false,
        Call::Recv { flags, .. } => flags == 0,
        Call::RecvFrom { flags, .. } => flags == 0,
        Call::Send { flags, .. } => flags == 0,
        Call::SendTo { flags, .. } => flags == 0,
        _ => true,
    }
}

impl System {
    /// The number is that of a socket.
    pub open spec fn is_socket(self, socket: int) -> bool {
        0 <= socket < self.sockets.len()
    }

    /// Descriptors, addresses, peers, waiting connections and messages refer to sockets.
    pub open spec fn wf(self) -> bool {
        &&& self.platform.wf()
        &&& forall|fd: i32| #[trigger]
            self.is_open(fd) ==> self.is_socket(self.descriptors[fd])
        &&& forall|addr: SockAddr| #[trigger]
            self.names.dom().contains(addr) ==> self.is_socket(self.names[addr])
        &&& forall|s: int| self.is_socket(s) ==> self.refers_to_sockets(#[trigger] self.sockets[s])
    }

    /// What a socket refers to are sockets.
    pub open spec fn refers_to_sockets(self, socket: Socket) -> bool {
        &&& socket.peer is Some ==> self.is_socket(socket.peer->0)
        &&& socket.waiting is Some ==> forall|i: int|
            0 <= i < socket.waiting->0.len() ==> self.is_socket(#[trigger] socket.waiting->0[i])
        &&& forall|i: int, j: int|
            0 <= i < socket.messages.len() && 0 <= j < socket.messages[i].files.len()
                ==> self.is_socket(#[trigger] socket.messages[i].files[j])
    }

    /// The descriptor is open.
    pub open spec fn is_open(self, fd: i32) -> bool {
        self.descriptors.dom().contains(fd)
    }

    /// The socket that a descriptor refers to.
    pub open spec fn at(self, fd: i32) -> Socket {
        self.sockets[self.descriptors[fd]]
    }

    /// Both descriptors are open and refer to the same socket.
    pub open spec fn same_socket(self, a: i32, b: i32) -> bool {
        &&& self.is_open(a)
        &&& self.is_open(b)
        &&& self.descriptors[a] == self.descriptors[b]
    }

    /// A call can return `ret` as a descriptor: it was not open before.
    pub open spec fn is_free(self, ret: int) -> bool {
        0 <= ret <= i32::MAX && !self.is_open(ret as i32)
    }

    /// The socket carries a stream.
    pub open spec fn is_stream(self, socket: Socket) -> bool {
        socket.ty == self.platform.sock_stream
    }

    /// A message from the socket `from` can arrive at the socket `to`: both have the same type, and
    /// a socket that is connected takes messages from its peer alone.
    pub open spec fn admits(self, to: int, from: int) -> bool {
        &&& self.sockets[to].ty == self.sockets[from].ty
        &&& self.sockets[to].peer is Some ==> self.sockets[to].peer->0 == from
    }

    /// Whether whoever receives a message on the socket gets credentials with it.
    pub open spec fn passes_credentials(self, socket: Socket) -> bool {
        let option = (self.platform.sol_socket, self.platform.so_passcred);
        socket.flags.dom().contains(option) && socket.flags[option] != 0
    }

    /// Whether a followed call can return `ret`. One that fails returns a negative number. One that
    /// works is made on an open descriptor, and a descriptor that it returns was not open before.
    /// It reaches the socket that is bound to an address, accepts what waits, moves no more bytes
    /// of a stream than there are, and moves a message as a whole or as far as there is room. It sends
    /// nothing once the writing half was shut down.
    pub open spec fn allows(self, call: CallSpec, ret: int) -> bool {
        ret >= 0 ==> match call {
            Call::Socket { .. } => self.is_free(ret),
            Call::SocketPair { .. } => true,
            Call::Close { fd } => self.is_open(fd),
            Call::Dup { fd } => self.is_open(fd) && self.is_free(ret),
            Call::Connect { fd, addr } => {
                &&& self.is_open(fd)
                &&& self.names.dom().contains(addr)
                &&& self.sockets[self.names[addr]].ty == self.at(fd).ty
                &&& self.is_stream(self.at(fd)) ==> self.at(fd).peer is None
                    && self.sockets[self.names[addr]].waiting is Some
            },
            Call::Bind { fd, .. } => self.is_open(fd),
            Call::Listen { fd, .. } => self.is_open(fd),
            Call::Accept { fd } => {
                &&& self.is_open(fd)
                &&& self.is_free(ret)
                &&& self.at(fd).waiting is Some
                &&& self.at(fd).waiting->0.len() > 0
            },
            Call::GetSockName { fd, .. } => self.is_open(fd),
            Call::GetPeerName { fd, .. } => self.is_open(fd),
            Call::Shutdown { fd, .. } => self.is_open(fd),
            Call::GetTimeout { fd, .. } => self.is_open(fd),
            Call::SetTimeout { fd, .. } => self.is_open(fd),
            Call::SetFlag { fd, .. } => self.is_open(fd),
            Call::Recv { fd, len, .. } => {
                &&& self.is_open(fd)
                &&& if self.is_stream(self.at(fd)) {
                    ret <= len && ret <= self.at(fd).arrived.len()
                } else {
                    self.can_receive(fd, len as int, ret)
                }
            },
            Call::RecvFrom { fd, len, .. } => {
                &&& self.is_open(fd)
                &&& !self.is_stream(self.at(fd))
                &&& self.can_receive(fd, len as int, ret)
            },
            Call::Send { fd, buf, len, .. } => {
                &&& self.is_open(fd)
                &&& !self.at(fd).write_shut
                &&& self.at(fd).peer is Some
                &&& if self.is_stream(self.at(fd)) {
                    ret <= len && ret <= buf.len()
                } else {
                    ret == buf.len() && self.admits(self.at(fd).peer->0, self.descriptors[fd])
                }
            },
            Call::SendTo { fd, buf, addr, .. } => {
                &&& self.is_open(fd)
                &&& !self.at(fd).write_shut
                &&& !self.is_stream(self.at(fd))
                &&& self.names.dom().contains(addr)
                &&& ret == buf.len()
                &&& self.admits(self.names[addr], self.descriptors[fd])
            },
        }
    }

    /// A message waits, and `count` bytes of it go into `room` bytes: all of them, or as many as
    /// there is room for.
    pub open spec fn can_receive(self, fd: i32, room: int, count: int) -> bool {
        &&& self.at(fd).messages.len() > 0
        &&& count == least(room, self.at(fd).messages[0].data.len() as int)
    }

    /// The system with another socket in place of one.
    pub open spec fn with(self, number: int, socket: Socket) -> System {
        System { sockets: self.sockets.update(number, socket), ..self }
    }

    /// The system once a message has arrived at a socket.
    pub open spec fn delivered(self, to: int, message: Datagram) -> System {
        let socket = self.sockets[to];
        self.with(to, Socket { messages: socket.messages.push(message), ..socket })
    }

    /// The message that is made of data sent on a descriptor.
    pub open spec fn plain_message(self, fd: i32, data: Seq<u8>) -> Datagram {
        Datagram {
            data,
            from: self.descriptors[fd],
            sender: self.at(fd).address,
            credentials: None,
            files: seq![],
        }
    }

    /// The system once the first message that waits at a descriptor was received.
    pub open spec fn without_first_message(self, fd: i32) -> System {
        let socket = self.at(fd);
        self.with(
            self.descriptors[fd],
            Socket { messages: socket.messages.drop_first(), ..socket },
        )
    }

    /// The system once a followed call has been made and has returned `ret`. A call that failed
    /// changes nothing.
    pub open spec fn after(self, call: CallSpec, ret: int) -> System {
        if ret < 0 {
            self
        } else {
            match call {
                Call::Socket { ty, .. } => System {
                    sockets: self.sockets.push(new_socket(ty)),
                    descriptors: self.descriptors.insert(ret as i32, self.sockets.len() as int),
                    ..self
                },
                Call::Close { fd } => System { descriptors: self.descriptors.remove(fd), ..self },
                Call::Dup { fd } => System {
                    descriptors: self.descriptors.insert(ret as i32, self.descriptors[fd]),
                    ..self
                },
                Call::Connect { fd, addr } => if self.is_stream(self.at(fd)) {
                    self.after_stream_connect(self.descriptors[fd], self.names[addr])
                } else {
                    self.with(
                        self.descriptors[fd],
                        Socket { peer: Some(self.names[addr]), ..self.at(fd) },
                    )
                },
                Call::Bind { fd, addr } => System {
                    names: self.names.insert(addr, self.descriptors[fd]),
                    ..self.with(
                        self.descriptors[fd],
                        Socket { address: Some(addr), ..self.at(fd) },
                    )
                },
                Call::Listen { fd, .. } => if self.at(fd).waiting is Some {
                    self
                } else {
                    self.with(
                        self.descriptors[fd],
                        Socket { waiting: Some(seq![]), ..self.at(fd) },
                    )
                },
                Call::Accept { fd } => {
                    let waiting = self.at(fd).waiting->0;
                    System {
                        descriptors: self.descriptors.insert(ret as i32, waiting.first()),
                        ..self.with(
                            self.descriptors[fd],
                            Socket { waiting: Some(waiting.drop_first()), ..self.at(fd) },
                        )
                    }
                },
                Call::Shutdown { fd, how } => self.with(
                    self.descriptors[fd],
                    Socket {
                        write_shut: self.at(fd).write_shut || how == self.platform.shut_wr || how
                            == self.platform.shut_rdwr,
                        ..self.at(fd)
                    },
                ),
                Call::SetTimeout { fd, level, name, timeout } => self.with(
                    self.descriptors[fd],
                    Socket {
                        timeouts: self.at(fd).timeouts.insert((level, name), timeout),
                        ..self.at(fd)
                    },
                ),
                Call::SetFlag { fd, level, name, flag } => self.with(
                    self.descriptors[fd],
                    Socket { flags: self.at(fd).flags.insert((level, name), flag), ..self.at(fd) },
                ),
                Call::Recv { fd, .. } => if self.is_stream(self.at(fd)) {
                    self.with(
                        self.descriptors[fd],
                        Socket { arrived: self.at(fd).arrived.skip(ret), ..self.at(fd) },
                    )
                } else {
                    self.without_first_message(fd)
                },
                Call::RecvFrom { fd, .. } => self.without_first_message(fd),
                Call::Send { fd, buf, .. } => {
                    let peer = self.at(fd).peer->0;
                    if self.is_stream(self.at(fd)) {
                        self.with(
                            peer,
                            Socket {
                                arrived: self.sockets[peer].arrived + buf.take(ret),
                                ..self.sockets[peer]
                            },
                        )
                    } else {
                        self.delivered(peer, self.plain_message(fd, buf))
                    }
                },
                Call::SendTo { fd, buf, addr, .. } => self.delivered(
                    self.names[addr],
                    self.plain_message(fd, buf),
                ),
                _ => self,
            }
        }
    }

    /// The system once a stream socket was connected to a listening one: a new socket, connected to
    /// it, waits there to be accepted.
    pub open spec fn after_stream_connect(self, here: int, listener: int) -> System {
        let there = self.sockets.len() as int;
        let with_peer = self.with(here, Socket { peer: Some(there), ..self.sockets[here] });
        let target = with_peer.sockets[listener];
        let with_waiting = with_peer.with(
            listener,
            Socket { waiting: Some(target.waiting->0.push(there)), ..target },
        );
        System {
            sockets: with_waiting.sockets.push(
                Socket {
                    address: target.address,
                    peer: Some(here),
                    ..new_socket(self.sockets[here].ty)
                },
            ),
            ..with_waiting
        }
    }

    /// Whether a call for a pair of sockets can return `ret` and these descriptors: a negative number,
    /// or two different descriptors that were not open before.
    pub open spec fn allows_pair(self, ret: int, fds: (i32, i32)) -> bool {
        ret >= 0 ==> {
            &&& self.is_free(fds.0 as int)
            &&& self.is_free(fds.1 as int)
            &&& fds.0 != fds.1
        }
    }

    /// The system once a call for a pair of sockets has returned `ret` and these descriptors: two new
    /// sockets of a type that are connected to each other.
    pub open spec fn after_pair(self, ty: i32, ret: int, fds: (i32, i32)) -> System {
        let n = self.sockets.len() as int;
        if ret < 0 {
            self
        } else {
            System {
                sockets: self.sockets.push(Socket { peer: Some(n + 1), ..new_socket(ty) }).push(
                    Socket { peer: Some(n), ..new_socket(ty) },
                ),
                descriptors: self.descriptors.insert(fds.0, n).insert(fds.1, n + 1),
                ..self
            }
        }
    }

    /// The socket that a message goes to, if there is one: the one bound to the address it is sent
    /// to, or the peer.
    pub open spec fn destination<F>(self, msg: OutMessage<F>) -> Option<int> {
        match msg.dst {
            Some(addr) => self.names.index_opt(addr),
            None => self.at(msg.fd).peer,
        }
    }

    /// Whether an attempt to send a message can return `ret`: a negative number where it fails, and
    /// else the length of the data.
    pub open spec fn allows_sendmsg<F>(self, msg: OutMessage<F>, ret: int) -> bool {
        ret >= 0 ==> {
            let fds = crate::control::rights(msg.control);
            &&& self.is_open(msg.fd)
            &&& !self.at(msg.fd).write_shut
            &&& !self.is_stream(self.at(msg.fd))
            &&& self.destination(msg) is Some
            &&& self.admits(self.destination(msg)->0, self.descriptors[msg.fd])
            &&& ret == msg.data().len()
            &&& forall|i: int| 0 <= i < fds.len() ==> self.is_open(#[trigger] fds[i])
        }
    }

    /// The message that arrives where a message is sent.
    pub open spec fn message_of<F>(self, msg: OutMessage<F>) -> Datagram {
        let fds = crate::control::rights(msg.control);
        Datagram {
            credentials: crate::control::credentials(msg.control),
            files: Seq::new(fds.len(), |i: int| self.descriptors[fds[i]]),
            ..self.plain_message(msg.fd, msg.data())
        }
    }

    /// The system once an attempt to send a message has returned `ret`. Flags do not change where a
    /// message goes, nor what it holds.
    pub open spec fn after_sendmsg<F>(self, msg: OutMessage<F>, ret: int) -> System {
        if ret < 0 {
            self
        } else {
            self.delivered(self.destination(msg)->0, self.message_of(msg))
        }
    }

    /// Whether an attempt to receive a message into `room` bytes, without flags, can end like this.
    ///
    /// Credentials come with a message if and only if the socket has the flag for them, and are those
    /// that were sent with it if any were. Descriptors that were sent with it come as new ones.
    /// Control messages are lost at most where there are descriptors among them: there is room for
    /// credentials alone.
    pub open spec fn allows_recvmsg(self, fd: i32, room: int, receipt: Receipt) -> bool {
        receipt.count >= 0 ==> {
            let message = self.at(fd).messages[0];
            &&& self.is_open(fd)
            &&& !self.is_stream(self.at(fd))
            &&& self.can_receive(fd, room, receipt.count)
            &&& receipt.control == receipt.credentials_part() + receipt.rights_part()
                || receipt.control == receipt.rights_part() + receipt.credentials_part()
            &&& receipt.credentials is Some ==> self.passes_credentials(self.at(fd)) && (
            message.credentials is Some ==> receipt.credentials == message.credentials)
            &&& receipt.fds.len() <= message.files.len()
            &&& receipt.fds.no_duplicates()
            &&& forall|i: int|
                0 <= i < receipt.fds.len() ==> self.is_free(#[trigger] receipt.fds[i] as int)
            &&& if receipt.control_lost {
                message.files.len() > 0
            } else {
                &&& self.passes_credentials(self.at(fd)) ==> receipt.credentials is Some
                &&& receipt.fds.len() == message.files.len()
            }
        }
    }

    /// The system once an attempt to receive a message has ended.
    pub open spec fn after_recvmsg(self, fd: i32, receipt: Receipt) -> System {
        if receipt.count < 0 {
            self
        } else {
            System {
                descriptors: installed(
                    self.descriptors,
                    receipt.fds,
                    self.at(fd).messages[0].files,
                ),
                ..self.without_first_message(fd)
            }
        }
    }

    /// The timeout that a call reads.
    pub open spec fn timeout_asked_for(self, call: CallSpec) -> Timeval {
        match call {
            Call::GetTimeout { fd, level, name } => self.at(fd).timeouts[(level, name)],
            _ => arbitrary(),
        }
    }

    /// The bytes that a call which returned `ret` reads.
    pub open spec fn bytes_read(self, call: CallSpec, ret: int) -> Seq<u8> {
        match call {
            Call::Recv { fd, .. } => if self.is_stream(self.at(fd)) {
                self.at(fd).arrived.take(ret)
            } else {
                self.at(fd).messages[0].data.take(ret)
            },
            Call::RecvFrom { fd, .. } => self.at(fd).messages[0].data.take(ret),
            _ => seq![],
        }
    }

    /// The address that a call which reads one asks for, if there is one: that of the socket, of its
    /// peer, or of the sender of a message.
    pub open spec fn address_asked_for(self, call: CallSpec) -> Option<SockAddr> {
        match call {
            Call::GetSockName { fd, .. } => self.at(fd).address,
            Call::GetPeerName { fd, .. } => self.sockets[self.at(fd).peer->0].address,
            Call::RecvFrom { fd, .. } => self.at(fd).messages[0].sender,
            _ => None,
        }
    }
}

/// A system in which one socket is replaced by one that refers to sockets.
proof fn lemma_replaced_socket(system: System, number: int, socket: Socket)
    requires
        system.wf(),
        system.is_socket(number),
        system.refers_to_sockets(socket),
    ensures
        system.with(number, socket).wf(),
{
    let t = system.with(number, socket);
    assert forall|fd: i32| #[trigger] t.is_open(fd) implies t.is_socket(t.descriptors[fd]) by {
        assert(system.is_open(fd));
    }
    assert forall|s: int| t.is_socket(s) implies t.refers_to_sockets(#[trigger] t.sockets[s]) by {
        assert(system.refers_to_sockets(system.sockets[s]));
        lemma_references(system, t, if s == number {
            socket
        } else {
            system.sockets[s]
        });
    }
}

/// A socket that refers to sockets of one system refers to those of a system that has no fewer.
proof fn lemma_references(system: System, t: System, socket: Socket)
    requires
        system.refers_to_sockets(socket),
        system.sockets.len() <= t.sockets.len(),
    ensures
        t.refers_to_sockets(socket),
{
    if socket.waiting is Some {
        assert forall|i: int| 0 <= i < socket.waiting->0.len() implies t.is_socket(
            #[trigger] socket.waiting->0[i],
        ) by {
            assert(system.is_socket(socket.waiting->0[i]));
        }
    }
    assert forall|i: int, j: int|
        0 <= i < socket.messages.len() && 0 <= j < socket.messages[i].files.len() implies t.is_socket(
        #[trigger] socket.messages[i].files[j],
    ) by {
        assert(system.is_socket(socket.messages[i].files[j]));
    }
}

/// A system to which one more socket is added that refers to sockets.
proof fn lemma_added_socket(system: System, socket: Socket)
    requires
        system.wf(),
        (System { sockets: system.sockets.push(socket), ..system }).refers_to_sockets(socket),
    ensures
        (System { sockets: system.sockets.push(socket), ..system }).wf(),
{
    let t = System { sockets: system.sockets.push(socket), ..system };
    assert forall|fd: i32| #[trigger] t.is_open(fd) implies t.is_socket(t.descriptors[fd]) by {
        assert(system.is_open(fd));
    }
    assert forall|addr: SockAddr| #[trigger] t.names.dom().contains(addr) implies t.is_socket(
        t.names[addr],
    ) by {
        assert(system.is_socket(system.names[addr]));
    }
    assert forall|s: int| t.is_socket(s) implies t.refers_to_sockets(#[trigger] t.sockets[s]) by {
        if s < system.sockets.len() {
            assert(system.refers_to_sockets(system.sockets[s]));
            lemma_references(system, t, system.sockets[s]);
        }
    }
}

/// A system in which a descriptor refers to a socket.
proof fn lemma_added_descriptor(system: System, fd: i32, number: int)
    requires
        system.wf(),
        system.is_socket(number),
    ensures
        (System { descriptors: system.descriptors.insert(fd, number), ..system }).wf(),
{
    let t = System { descriptors: system.descriptors.insert(fd, number), ..system };
    assert forall|other: i32| #[trigger] t.is_open(other) implies t.is_socket(
        t.descriptors[other],
    ) by {
        if other != fd {
            assert(system.is_open(other));
        }
    }
    assert forall|s: int| t.is_socket(s) implies t.refers_to_sockets(#[trigger] t.sockets[s]) by {
        assert(system.refers_to_sockets(system.sockets[s]));
        lemma_references(system, t, system.sockets[s]);
    }
}

/// A socket at which one more message waits, which holds sockets of the system.
proof fn lemma_delivered(system: System, to: int, message: Datagram)
    requires
        system.wf(),
        system.is_socket(to),
        forall|j: int|
            0 <= j < message.files.len() ==> system.is_socket(#[trigger] message.files[j]),
    ensures
        system.delivered(to, message).wf(),
{
    let socket = system.sockets[to];
    let longer = Socket { messages: socket.messages.push(message), ..socket };
    assert(system.refers_to_sockets(socket));
    assert forall|i: int, j: int|
        0 <= i < longer.messages.len() && 0 <= j < longer.messages[i].files.len() implies system.is_socket(
        #[trigger] longer.messages[i].files[j],
    ) by {
        if i < socket.messages.len() {
            assert(longer.messages[i] == socket.messages[i]);
        }
    }
    lemma_replaced_socket(system, to, longer);
}

/// A socket whose first message was received.
proof fn lemma_received(system: System, fd: i32)
    requires
        system.wf(),
        system.is_open(fd),
        system.at(fd).messages.len() > 0,
    ensures
        system.without_first_message(fd).wf(),
{
    let socket = system.at(fd);
    let shorter = Socket { messages: socket.messages.drop_first(), ..socket };
    assert(system.refers_to_sockets(socket));
    assert forall|i: int, j: int|
        0 <= i < shorter.messages.len() && 0 <= j < shorter.messages[i].files.len() implies system.is_socket(
        #[trigger] shorter.messages[i].files[j],
    ) by {
        assert(shorter.messages[i] == socket.messages[i + 1]);
        assert(system.is_socket(socket.messages[i + 1].files[j]));
    }
    lemma_replaced_socket(system, system.descriptors[fd], shorter);
}

/// A stream socket that was connected to a listening one.
proof fn lemma_connected_stream(system: System, here: int, listener: int)
    requires
        system.wf(),
        system.is_socket(here),
        system.is_socket(listener),
        system.sockets[listener].waiting is Some,
    ensures
        system.after_stream_connect(here, listener).wf(),
{
    let there = system.sockets.len() as int;
    let ty = system.sockets[here].ty;
    let fresh = System { sockets: system.sockets.push(new_socket(ty)), ..system };
    lemma_added_socket(system, new_socket(ty));
    let a = Socket { peer: Some(there), ..fresh.sockets[here] };
    assert(fresh.refers_to_sockets(fresh.sockets[here]));
    assert(fresh.refers_to_sockets(a));
    lemma_replaced_socket(fresh, here, a);
    let with_peer = fresh.with(here, a);
    let target = with_peer.sockets[listener];
    let waiting = target.waiting->0.push(there);
    let b = Socket { waiting: Some(waiting), ..target };
    assert(with_peer.refers_to_sockets(target));
    assert forall|i: int| 0 <= i < waiting.len() implies with_peer.is_socket(
        #[trigger] waiting[i],
    ) by {
        if i < there && i < target.waiting->0.len() {
            assert(with_peer.is_socket(target.waiting->0[i]));
        }
    }
    assert(with_peer.refers_to_sockets(b));
    lemma_replaced_socket(with_peer, listener, b);
    let with_waiting = with_peer.with(listener, b);
    let c = Socket { address: target.address, peer: Some(here), ..new_socket(ty) };
    assert(with_waiting.refers_to_sockets(c));
    lemma_replaced_socket(with_waiting, there, c);
    assert(with_waiting.with(there, c) =~= system.after_stream_connect(here, listener));
}

/// Whatever call is made, descriptors, addresses, peers, waiting connections and messages go on
/// referring to sockets.
pub proof fn law_calls_keep_references(system: System, call: CallSpec, ret: int)
    requires
        system.wf(),
        is_followed(call),
        system.allows(call, ret),
    ensures
        system.after(call, ret).wf(),
{
    if ret >= 0 {
        match call {
            Call::Socket { ty, .. } => {
                lemma_added_socket(system, new_socket(ty));
                let grown = System { sockets: system.sockets.push(new_socket(ty)), ..system };
                lemma_added_descriptor(grown, ret as i32, system.sockets.len() as int);
            },
            Call::Close { fd } => {
                let t = system.after(call, ret);
                assert forall|other: i32| #[trigger] t.is_open(other) implies t.is_socket(
                    t.descriptors[other],
                ) by {
                    assert(system.is_open(other));
                }
                assert forall|s: int| t.is_socket(s) implies t.refers_to_sockets(
                    #[trigger] t.sockets[s],
                ) by {
                    assert(system.refers_to_sockets(system.sockets[s]));
                    lemma_references(system, t, system.sockets[s]);
                }
            },
            Call::Dup { fd } => {
                lemma_added_descriptor(system, ret as i32, system.descriptors[fd]);
            },
            Call::Connect { fd, addr } => {
                assert(system.refers_to_sockets(system.at(fd)));
                if system.is_stream(system.at(fd)) {
                    lemma_connected_stream(system, system.descriptors[fd], system.names[addr]);
                } else {
                    lemma_replaced_socket(
                        system,
                        system.descriptors[fd],
                        Socket { peer: Some(system.names[addr]), ..system.at(fd) },
                    );
                }
            },
            Call::Bind { fd, addr } => {
                let s = Socket { address: Some(addr), ..system.at(fd) };
                assert(system.refers_to_sockets(system.at(fd)));
                lemma_replaced_socket(system, system.descriptors[fd], s);
                let bound = system.with(system.descriptors[fd], s);
                let t = system.after(call, ret);
                assert forall|other: i32| #[trigger] t.is_open(other) implies t.is_socket(
                    t.descriptors[other],
                ) by {
                    assert(bound.is_open(other));
                }
                assert forall|s: int| t.is_socket(s) implies t.refers_to_sockets(
                    #[trigger] t.sockets[s],
                ) by {
                    assert(bound.refers_to_sockets(bound.sockets[s]));
                    lemma_references(bound, t, bound.sockets[s]);
                }
            },
            Call::Accept { fd } => {
                let waiting = system.at(fd).waiting->0;
                let s = Socket { waiting: Some(waiting.drop_first()), ..system.at(fd) };
                assert(system.refers_to_sockets(system.at(fd)));
                assert(system.is_socket(waiting[0]));
                assert forall|i: int| 0 <= i < waiting.drop_first().len() implies system.is_socket(
                    #[trigger] waiting.drop_first()[i],
                ) by {
                    assert(system.is_socket(waiting[i + 1]));
                }
                lemma_replaced_socket(system, system.descriptors[fd], s);
                let shorter = system.with(system.descriptors[fd], s);
                lemma_added_descriptor(shorter, ret as i32, waiting.first());
            },
            Call::Send { fd, buf, .. } => {
                let peer = system.at(fd).peer->0;
                assert(system.refers_to_sockets(system.at(fd)));
                assert(system.refers_to_sockets(system.sockets[peer]));
                if system.is_stream(system.at(fd)) {
                    lemma_replaced_socket(
                        system,
                        peer,
                        Socket {
                            arrived: system.sockets[peer].arrived + buf.take(ret),
                            ..system.sockets[peer]
                        },
                    );
                } else {
                    lemma_delivered(system, peer, system.plain_message(fd, buf));
                }
            },
            Call::SendTo { fd, buf, addr, .. } => {
                lemma_delivered(system, system.names[addr], system.plain_message(fd, buf));
            },
            Call::RecvFrom { fd, .. } => {
                lemma_received(system, fd);
            },
            Call::Recv { fd, .. } => {
                assert(system.refers_to_sockets(system.at(fd)));
                if system.is_stream(system.at(fd)) {
                    lemma_replaced_socket(
                        system,
                        system.descriptors[fd],
                        Socket { arrived: system.at(fd).arrived.skip(ret), ..system.at(fd) },
                    );
                } else {
                    lemma_received(system, fd);
                }
            },
            Call::Listen { fd, .. } => {
                assert(system.refers_to_sockets(system.at(fd)));
                lemma_replaced_socket(
                    system,
                    system.descriptors[fd],
                    Socket { waiting: Some(seq![]), ..system.at(fd) },
                );
            },
            Call::Shutdown { fd, .. } => {
                assert(system.refers_to_sockets(system.at(fd)));
                lemma_replaced_socket(
                    system,
                    system.descriptors[fd],
                    system.after(call, ret).at(fd),
                );
            },
            Call::SetTimeout { fd, level, name, timeout } => {
                assert(system.refers_to_sockets(system.at(fd)));
                lemma_replaced_socket(
                    system,
                    system.descriptors[fd],
                    Socket {
                        timeouts: system.at(fd).timeouts.insert((level, name), timeout),
                        ..system.at(fd)
                    },
                );
            },
            Call::SetFlag { fd, level, name, flag } => {
                assert(system.refers_to_sockets(system.at(fd)));
                lemma_replaced_socket(
                    system,
                    system.descriptors[fd],
                    Socket {
                        flags: system.at(fd).flags.insert((level, name), flag),
                        ..system.at(fd)
                    },
                );
            },
            _ => {},
        }
    }
}

} // verus!
