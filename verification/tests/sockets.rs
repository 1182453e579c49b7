//! Whole exchanges between sockets, on an operating system that is kept in memory.
use std::collections::{HashMap, VecDeque};
use unix_socket::{
    completed, timeout_read, transferred, AddressKind, Call, ControlMsg, Duration, Error, ErrorKind, Message,
    OpeningStep, Platform, RawAddr, RecvMsg, RecvMsgResult, Reply, Request, SendMsg, SocketAddr,
    Step, Timeval, UCred, UnixDatagram, UnixListener, UnixStream,
};

/// Where a socket is bound.
type Name = Option<(Vec<u8>, u32)>;

/// Data that has arrived at a socket.
struct Packet {
    data: Vec<u8>,
    sender: Name,
    credentials: Option<UCred>,
    files: Vec<usize>,
}

/// One socket of the system.
struct Socket {
    stream: bool,
    addr: Name,
    peer: Option<i32>,
    waiting: VecDeque<i32>,
    listening: bool,
    queue: VecDeque<Packet>,
    timeouts: HashMap<i32, Timeval>,
    flags: HashMap<i32, i32>,
    closed: bool,
}

/// An operating system that knows Unix sockets and nothing else.
struct System {
    platform: Platform,
    sockets: Vec<Socket>,
    descriptors: HashMap<i32, usize>,
    next_fd: i32,
    clock_millis: u64,
}

fn fine(ret: i32) -> Reply {
    Reply { ret, errno: 0 }
}

fn fault(errno: i32) -> Reply {
    Reply { ret: -1, errno }
}

impl System {
    fn new() -> System {
        System {
            platform: Platform::host(true),
            sockets: Vec::new(),
            descriptors: HashMap::new(),
            next_fd: 3,
            clock_millis: 0,
        }
    }

    fn add(&mut self, stream: bool) -> i32 {
        self.sockets.push(Socket {
            stream,
            addr: None,
            peer: None,
            waiting: VecDeque::new(),
            listening: false,
            queue: VecDeque::new(),
            timeouts: HashMap::new(),
            flags: HashMap::new(),
            closed: false,
        });
        let index = self.sockets.len() - 1;
        self.name(index)
    }

    fn name(&mut self, index: usize) -> i32 {
        let fd = self.next_fd;
        self.next_fd += 1;
        self.descriptors.insert(fd, index);
        fd
    }

    fn socket(&mut self, fd: i32) -> &mut Socket {
        let index = self.descriptors[&fd];
        &mut self.sockets[index]
    }

    fn find(&self, addr: &SocketAddr) -> Option<usize> {
        let key = (addr.sun_path().to_vec(), addr.len());
        self.sockets.iter().position(|s| s.addr.as_ref() == Some(&key) && !s.closed)
    }

    fn raw(&self, addr: &Name, unnamed_len: u32) -> RawAddr {
        let layout = self.platform.layout;
        match addr {
            Some((path, len)) => {
                RawAddr { family: layout.af_unix, path: path.clone(), len: *len }
            }
            None => RawAddr {
                family: if unnamed_len == 0 { 0 } else { layout.af_unix },
                len: unnamed_len,
                ..RawAddr::blank(&layout)
            },
        }
    }

    /// Makes a call that moves no data.
    fn call(&mut self, call: &Request) -> Reply {
        let platform = self.platform;
        match call {
            Call::Socket { domain, ty, protocol } => {
                assert_eq!((*domain, *protocol), (libc::AF_UNIX, 0));
                let fd = self.add(*ty == platform.sock_stream);
                fine(fd)
            }
            Call::Close { fd } => {
                let index = self.descriptors.remove(fd).expect("closed twice");
                if !self.descriptors.values().any(|i| *i == index) {
                    self.sockets[index].closed = true;
                }
                fine(0)
            }
            Call::Dup { fd } => {
                let index = self.descriptors[fd];
                fine(self.name(index))
            }
            Call::Bind { fd, addr } => {
                assert_eq!(addr.family(), platform.layout.af_unix);
                if self.find(addr).is_some() {
                    return fault(libc::EADDRINUSE);
                }
                self.socket(*fd).addr = Some((addr.sun_path().to_vec(), addr.len()));
                fine(0)
            }
            Call::Listen { fd, backlog } => {
                assert_eq!(*backlog, 128);
                self.socket(*fd).listening = true;
                fine(0)
            }
            Call::Connect { fd, addr } => match self.find(addr) {
                None => fault(libc::ENOENT),
                Some(target) if self.socket(*fd).stream => {
                    if !self.sockets[target].listening {
                        return fault(libc::ECONNREFUSED);
                    }
                    let other = self.add(true);
                    let here = self.descriptors[fd];
                    let there = self.descriptors[&other];
                    self.sockets[here].peer = Some(there as i32);
                    self.sockets[there].peer = Some(here as i32);
                    self.sockets[there].addr = self.sockets[target].addr.clone();
                    self.sockets[target].waiting.push_back(other);
                    fine(0)
                }
                Some(target) => {
                    self.socket(*fd).peer = Some(target as i32);
                    fine(0)
                }
            },
            Call::Accept { fd } => match self.socket(*fd).waiting.pop_front() {
                Some(fd) => fine(fd),
                None => fault(libc::EAGAIN),
            },
            Call::SetTimeout { fd, level, name, timeout } => {
                assert_eq!(*level, libc::SOL_SOCKET);
                self.socket(*fd).timeouts.insert(*name, *timeout);
                fine(0)
            }
            Call::SetFlag { fd, level, name, flag } => {
                assert_eq!(*level, libc::SOL_SOCKET);
                self.socket(*fd).flags.insert(*name, *flag);
                fine(0)
            }
            other => panic!("unexpected call {:?}", other),
        }
    }

    fn call_pair(&mut self, call: &Request) -> (Reply, (i32, i32)) {
        match call {
            Call::SocketPair { domain, ty, protocol } => {
                assert_eq!((*domain, *protocol), (libc::AF_UNIX, 0));
                let stream = *ty == self.platform.sock_stream;
                let (a, b) = (self.add(stream), self.add(stream));
                let (i, j) = (self.descriptors[&a], self.descriptors[&b]);
                self.sockets[i].peer = Some(j as i32);
                self.sockets[j].peer = Some(i as i32);
                (fine(0), (a, b))
            }
            other => panic!("unexpected call {:?}", other),
        }
    }

    fn call_timeout(&mut self, call: &Request) -> (Reply, Timeval) {
        match call {
            Call::GetTimeout { fd, level, name } => {
                assert_eq!(*level, libc::SOL_SOCKET);
                let none = Timeval { sec: 0, usec: 0 };
                (fine(0), *self.socket(*fd).timeouts.get(name).unwrap_or(&none))
            }
            other => panic!("unexpected call {:?}", other),
        }
    }

    fn call_addr(&mut self, call: &Request) -> (Reply, RawAddr) {
        let (addr, capacity) = match call {
            Call::GetSockName { fd, capacity } => (self.socket(*fd).addr.clone(), *capacity),
            Call::GetPeerName { fd, capacity } => {
                let peer = match self.socket(*fd).peer {
                    Some(peer) => peer,
                    None => return (fault(libc::ENOTCONN), self.raw(&None, 0)),
                };
                (self.sockets[peer as usize].addr.clone(), *capacity)
            }
            other => panic!("unexpected call {:?}", other),
        };
        assert_eq!(capacity as usize, std::mem::size_of::<libc::sockaddr_un>());
        (fine(0), self.raw(&addr, 2))
    }

    fn deliver(&mut self, from: i32, to: usize, data: &[u8], control: &[ControlMsg]) -> (isize, i32) {
        let here = self.descriptors[&from] as i32;
        if self.sockets[to].peer.map_or(false, |peer| peer != here) {
            return (-1, libc::EPERM);
        }
        let sender = self.socket(from).addr.clone();
        let mut packet = Packet { data: data.to_vec(), sender, credentials: None, files: Vec::new() };
        for msg in control {
            match msg {
                ControlMsg::Credentials(ucred) => packet.credentials = Some(*ucred),
                ControlMsg::Rights(fds) => {
                    packet.files.extend(fds.iter().map(|fd| self.descriptors[fd]));
                }
            }
        }
        self.sockets[to].queue.push_back(packet);
        (data.len() as isize, 0)
    }

    fn call_send(&mut self, call: &Request) -> (isize, i32) {
        match call {
            Call::Send { fd, buf, len, flags } => {
                assert_eq!((*len, *flags), (buf.len(), 0));
                match self.socket(*fd).peer {
                    Some(peer) => self.deliver(*fd, peer as usize, buf, &[]),
                    None => (-1, libc::ENOTCONN),
                }
            }
            Call::SendTo { fd, buf, len, flags, addr } => {
                assert_eq!((*len, *flags), (buf.len(), 0));
                match self.find(addr) {
                    Some(target) => self.deliver(*fd, target, buf, &[]),
                    None => (-1, libc::ENOENT),
                }
            }
            other => panic!("unexpected call {:?}", other),
        }
    }

    /// Takes data off the queue of a socket, and says what came with it.
    fn take(&mut self, fd: i32, buf: &mut [u8]) -> (isize, i32, Option<Packet>) {
        let rcvtimeo = self.platform.so_rcvtimeo;
        let stream = self.socket(fd).stream;
        let mut count = 0;
        let mut last = None;
        loop {
            match self.socket(fd).queue.pop_front() {
                Some(mut packet) => {
                    let n = packet.data.len().min(buf.len() - count);
                    buf[count..count + n].copy_from_slice(&packet.data[..n]);
                    count += n;
                    if stream && n < packet.data.len() {
                        packet.data.drain(..n);
                        self.socket(fd).queue.push_front(packet);
                    } else {
                        last = Some(packet);
                    }
                    if !stream || count == buf.len() {
                        return (count as isize, 0, last);
                    }
                }
                None if count > 0 => return (count as isize, 0, last),
                None => {
                    let peer = self.socket(fd).peer;
                    if stream && peer.map_or(true, |p| self.sockets[p as usize].closed) {
                        return (0, 0, None);
                    }
                    let wait = self.socket(fd).timeouts.get(&rcvtimeo).copied();
                    let wait = wait.expect("would wait for ever");
                    self.clock_millis += (wait.sec * 1000 + wait.usec / 1000) as u64;
                    return (-1, libc::EAGAIN, None);
                }
            }
        }
    }

    /// The control messages for what came with data.
    fn control(&mut self, fd: i32, packet: &Packet) -> Vec<ControlMsg> {
        let passcred = self.platform.so_passcred;
        let mut control = Vec::new();
        if self.socket(fd).flags.get(&passcred).copied().unwrap_or(0) != 0 {
            let nobody = UCred { pid: 0, uid: 65534, gid: 65534 };
            control.push(ControlMsg::Credentials(packet.credentials.unwrap_or(nobody)));
        }
        if !packet.files.is_empty() {
            let fds = packet.files.iter().map(|file| self.name(*file)).collect();
            control.push(ControlMsg::Rights(fds));
        }
        control
    }

    fn call_recv(&mut self, call: &Request, buf: &mut [u8]) -> (isize, i32) {
        match call {
            Call::Recv { fd, len, flags } => {
                assert_eq!((*len, *flags), (buf.len(), 0));
                let (count, errno, _) = self.take(*fd, buf);
                (count, errno)
            }
            other => panic!("unexpected call {:?}", other),
        }
    }

    fn call_recv_from(&mut self, call: &Request, buf: &mut [u8]) -> (isize, i32, RawAddr) {
        match call {
            Call::RecvFrom { fd, len, flags, capacity } => {
                assert_eq!((*len, *flags), (buf.len(), 0));
                assert_eq!(*capacity as usize, std::mem::size_of::<libc::sockaddr_un>());
                let (count, errno, packet) = self.take(*fd, buf);
                (count, errno, self.raw(&packet.and_then(|p| p.sender), 0))
            }
            other => panic!("unexpected call {:?}", other),
        }
    }

    fn open(&mut self, mut step: OpeningStep) -> Result<i32, Error> {
        loop {
            match step {
                Step::Done(result) => return result,
                Step::Next { call, then } => {
                    let reply = self.call(&call);
                    step = then.resume(&self.platform, reply);
                }
            }
        }
    }

    // The operations, from the first call to the result.

    fn connect(&mut self, path: &[u8]) -> Result<UnixStream, Error> {
        let step = UnixStream::connect(&self.platform, path);
        self.open(step).map(UnixStream::from_descriptor)
    }

    fn listen(&mut self, path: &[u8]) -> Result<UnixListener, Error> {
        let step = UnixListener::bind(&self.platform, path);
        self.open(step).map(UnixListener::from_descriptor)
    }

    fn bind(&mut self, path: &[u8]) -> Result<UnixDatagram, Error> {
        let step = UnixDatagram::bind(&self.platform, path);
        self.open(step).map(UnixDatagram::from_descriptor)
    }

    fn unbound(&mut self) -> Result<UnixDatagram, Error> {
        let step = UnixDatagram::unbound(&self.platform);
        self.open(step).map(UnixDatagram::from_descriptor)
    }

    fn accept(&mut self, listener: &UnixListener) -> Result<UnixStream, Error> {
        let reply = self.call(&listener.accept());
        UnixListener::accepted(reply)
    }

    fn read(&mut self, stream: &UnixStream, buf: &mut [u8]) -> Result<usize, Error> {
        let (count, errno) = self.call_recv(&stream.read(buf), buf);
        transferred(count, errno)
    }

    fn read_to_end(&mut self, stream: &UnixStream) -> Result<Vec<u8>, Error> {
        let mut all = Vec::new();
        loop {
            let mut buf = [0; 4];
            match self.read(stream, &mut buf)? {
                0 => return Ok(all),
                n => all.extend_from_slice(&buf[..n]),
            }
        }
    }

    fn write(&mut self, stream: &UnixStream, buf: &[u8]) -> Result<usize, Error> {
        let (count, errno) = self.call_send(&stream.write(buf));
        transferred(count, errno)
    }

    fn close(&mut self, call: Request) {
        self.call(&call);
    }

    fn send(&mut self, socket: &UnixDatagram, buf: &[u8]) -> Result<usize, Error> {
        let (count, errno) = self.call_send(&socket.send(buf));
        transferred(count, errno)
    }

    fn send_to(&mut self, socket: &UnixDatagram, buf: &[u8], path: &[u8]) -> Result<usize, Error> {
        let call = socket.send_to(&self.platform, buf, path)?;
        let (count, errno) = self.call_send(&call);
        transferred(count, errno)
    }

    fn recv(&mut self, socket: &UnixDatagram, buf: &mut [u8]) -> Result<usize, Error> {
        let (count, errno) = self.call_recv(&socket.recv(buf), buf);
        transferred(count, errno)
    }

    fn recv_from(
        &mut self,
        socket: &UnixDatagram,
        buf: &mut [u8],
    ) -> Result<(usize, SocketAddr), Error> {
        let layout = self.platform.layout;
        let (count, errno, raw) = self.call_recv_from(&socket.recv_from(&layout, buf), buf);
        UnixDatagram::received_from(&layout, count, errno, raw)
    }

    fn datagram_connect(&mut self, socket: &UnixDatagram, path: &[u8]) -> Result<(), Error> {
        let call = socket.connect(&self.platform, path)?;
        completed(self.call(&call))
    }

    fn set_read_timeout(&mut self, s: &UnixStream, t: Option<Duration>) -> Result<(), Error> {
        let call = s.set_read_timeout(&self.platform, t)?;
        completed(self.call(&call))
    }

    fn set_write_timeout(&mut self, s: &UnixStream, t: Option<Duration>) -> Result<(), Error> {
        let call = s.set_write_timeout(&self.platform, t)?;
        completed(self.call(&call))
    }

    fn read_timeout(&mut self, s: &UnixStream) -> Result<Option<Duration>, Error> {
        let (reply, timeval) = self.call_timeout(&s.read_timeout(&self.platform));
        assert!(timeval.is_readable());
        timeout_read(reply, timeval)
    }

    fn write_timeout(&mut self, s: &UnixStream) -> Result<Option<Duration>, Error> {
        let (reply, timeval) = self.call_timeout(&s.write_timeout(&self.platform));
        assert!(timeval.is_readable());
        timeout_read(reply, timeval)
    }

    fn sendmsg(&mut self, msg: SendMsg<'_, u32>) -> Result<usize, Error> {
        let data = msg.buffers.concat();
        let target = match &msg.dst {
            Some(addr) => self.find(addr),
            None => self.socket(msg.fd).peer.map(|p| p as usize),
        };
        match target {
            Some(target) => {
                let (count, errno) = self.deliver(msg.fd, target, &data, msg.ctrl_msgs);
                transferred(count, errno)
            }
            None => Err(Error::Os(libc::ENOTCONN)),
        }
    }

    fn recvmsg(
        &mut self,
        socket: &UnixDatagram,
        buffers: &mut [&mut [u8]],
        flags: u32,
    ) -> Result<RecvMsgResult<u32>, Error> {
        let layout = self.platform.layout;
        let msg: RecvMsg<'_, '_, u32> = socket.recvmsg(&layout, buffers, flags);
        assert_eq!(msg.control_len, 4096);
        assert_eq!(msg.capacity as usize, std::mem::size_of::<libc::sockaddr_un>());
        let lens: Vec<usize> = msg.buffers.iter().map(|b| b.len()).collect();
        let mut data = vec![0; lens.iter().sum()];
        let fd = msg.fd;
        let (count, errno, packet) = self.take(fd, &mut data);
        let mut at = 0;
        for buffer in buffers.iter_mut() {
            buffer.copy_from_slice(&data[at..at + buffer.len()]);
            at += buffer.len();
        }
        let outcome = if count < 0 {
            Err(Error::Os(errno))
        } else {
            let control_msgs = self.control(fd, packet.as_ref().unwrap());
            Ok(Message { data_bytes: count as usize, control_msgs, flags: 64 })
        };
        let raw = self.raw(&packet.and_then(|p| p.sender), 0);
        UnixDatagram::message_received(&layout, outcome, errno, raw)
    }
}

#[test]
fn basic() {
    let mut system = System::new();
    let socket_path = b"/tmp/unix_socket/sock";
    let msg1 = b"hello";
    let msg2 = b"world!";

    let listener = system.listen(socket_path).unwrap();
    let client = system.connect(socket_path).unwrap();
    assert_eq!(system.write(&client, msg1).unwrap(), 5);

    let stream = system.accept(&listener).unwrap();
    let mut buf = [0; 5];
    system.read(&stream, &mut buf).unwrap();
    assert_eq!(&msg1[..], &buf[..]);
    system.write(&stream, msg2).unwrap();
    system.close(stream.close());

    let buf = system.read_to_end(&client).unwrap();
    assert_eq!(&msg2[..], &buf[..]);
}

#[test]
fn pair() {
    let mut system = System::new();
    let msg1 = b"hello";
    let msg2 = b"world!";

    let (reply, fds) = system.call_pair(&UnixStream::pair(&Platform::host(true)));
    let (s1, s2) = UnixStream::paired(reply, fds).unwrap();
    system.write(&s2, msg1).unwrap();
    let mut buf = [0; 5];
    system.read(&s1, &mut buf).unwrap();
    assert_eq!(&msg1[..], &buf[..]);
    system.write(&s1, msg2).unwrap();
    system.close(s1.close());

    let buf = system.read_to_end(&s2).unwrap();
    assert_eq!(&msg2[..], &buf[..]);
}

#[test]
fn abstract_address() {
    let mut system = System::new();
    let socket_path = "\0the path";
    let msg1 = b"hello";
    let msg2 = b"world!";

    let listener = system.listen(socket_path.as_bytes()).unwrap();
    let client = system.connect(socket_path.as_bytes()).unwrap();
    system.write(&client, msg1).unwrap();

    let stream = system.accept(&listener).unwrap();
    let mut buf = [0; 5];
    system.read(&stream, &mut buf).unwrap();
    assert_eq!(&msg1[..], &buf[..]);
    system.write(&stream, msg2).unwrap();
    system.close(stream.close());

    let buf = system.read_to_end(&client).unwrap();
    assert_eq!(&msg2[..], &buf[..]);

    let layout = system.platform.layout;
    let (reply, raw) = system.call_addr(&client.peer_addr(&layout));
    let peer = SocketAddr::new(&layout, reply.ret, reply.errno, raw).unwrap();
    assert_eq!(peer.address(), AddressKind::Abstract(b"the path"));
}

#[test]
fn try_clone() {
    let mut system = System::new();
    let socket_path = b"/tmp/unix_socket/sock";
    let msg1 = b"hello";
    let msg2 = b"world";

    let listener = system.listen(socket_path).unwrap();
    let stream = system.connect(socket_path).unwrap();
    let other = system.accept(&listener).unwrap();
    system.write(&other, msg1).unwrap();
    system.write(&other, msg2).unwrap();

    let reply = system.call(&stream.try_clone());
    let stream2 = UnixStream::cloned(reply).unwrap();
    assert!(stream2.as_raw_fd() != stream.as_raw_fd());

    let mut buf = [0; 5];
    system.read(&stream, &mut buf).unwrap();
    assert_eq!(&msg1[..], &buf[..]);
    system.read(&stream2, &mut buf).unwrap();
    assert_eq!(&msg2[..], &buf[..]);
}

#[test]
fn iter() {
    let mut system = System::new();
    let socket_path = b"/tmp/unix_socket/sock";

    let listener = system.listen(socket_path).unwrap();
    for _ in 0..2 {
        let stream = system.connect(socket_path).unwrap();
        system.write(&stream, &[0]).unwrap();
    }

    let mut incoming = listener.incoming();
    for _ in 0..2 {
        let call = incoming.next().unwrap();
        let reply = system.call(&call);
        let stream = UnixListener::accepted(reply).unwrap();
        let mut buf = [1];
        assert_eq!(system.read(&stream, &mut buf).unwrap(), 1);
        assert_eq!(buf, [0]);
    }
    assert!(incoming.next().is_some());
    assert_eq!(incoming.size_hint(), (usize::MAX, None));
}

#[test]
fn long_path() {
    let mut system = System::new();
    let socket_path: &[u8] = b"/tmp/unix_socket/asdfasdfasdfasdfasdfasdfasdfasdfasdfasdfasdfasdfasdfasd\
        fasdfasasdfasdfasdasdfasdfasdfadfasdfasdfasdfasdfasdf";
    match system.connect(socket_path) {
        Err(ref e) if e.kind() == ErrorKind::InvalidInput => {}
        Err(e) => panic!("unexpected error {:?}", e),
        Ok(_) => panic!("unexpected success"),
    }

    match system.listen(socket_path) {
        Err(ref e) if e.kind() == ErrorKind::InvalidInput => {}
        Err(e) => panic!("unexpected error {:?}", e),
        Ok(_) => panic!("unexpected success"),
    }

    match system.bind(socket_path) {
        Err(ref e) if e.kind() == ErrorKind::InvalidInput => {}
        Err(e) => panic!("unexpected error {:?}", e),
        Ok(_) => panic!("unexpected success"),
    }

    // Each socket was created and closed again.
    assert_eq!(system.sockets.len(), 3);
    assert!(system.descriptors.is_empty());
}

#[test]
fn timeouts() {
    let mut system = System::new();
    let socket_path = b"/tmp/unix_socket/sock";

    let _listener = system.listen(socket_path).unwrap();

    let stream = system.connect(socket_path).unwrap();
    let dur = Duration::new(15410, 0);

    assert_eq!(None, system.read_timeout(&stream).unwrap());

    system.set_read_timeout(&stream, Some(dur)).unwrap();
    assert_eq!(Some(dur), system.read_timeout(&stream).unwrap());

    assert_eq!(None, system.write_timeout(&stream).unwrap());

    system.set_write_timeout(&stream, Some(dur)).unwrap();
    assert_eq!(Some(dur), system.write_timeout(&stream).unwrap());

    system.set_read_timeout(&stream, None).unwrap();
    assert_eq!(None, system.read_timeout(&stream).unwrap());

    system.set_write_timeout(&stream, None).unwrap();
    assert_eq!(None, system.write_timeout(&stream).unwrap());
}

#[test]
fn test_read_timeout() {
    let mut system = System::new();
    let socket_path = b"/tmp/unix_socket/sock";

    let _listener = system.listen(socket_path).unwrap();

    let stream = system.connect(socket_path).unwrap();
    system.set_read_timeout(&stream, Some(Duration::new(0, 1000 * 1_000_000))).unwrap();

    let mut buf = [0; 10];
    let start = system.clock_millis;
    let error = system.read(&stream, &mut buf).err().expect("expected error");
    assert_eq!(error.raw_os_error(), Some(libc::EAGAIN));
    let wait = system.clock_millis - start;
    assert!(wait > 400);
    assert!(wait < 1600);
}

#[test]
fn test_read_with_timeout() {
    let mut system = System::new();
    let socket_path = b"/tmp/unix_socket/sock";

    let listener = system.listen(socket_path).unwrap();

    let stream = system.connect(socket_path).unwrap();
    system.set_read_timeout(&stream, Some(Duration::new(0, 1000 * 1_000_000))).unwrap();

    let other_end = system.accept(&listener).unwrap();
    system.write(&other_end, b"hello world").unwrap();

    let mut buf = [0; 11];
    system.read(&stream, &mut buf).unwrap();
    assert_eq!(b"hello world", &buf);

    let start = system.clock_millis;
    let error = system.read(&stream, &mut buf).err().expect("expected error");
    assert_eq!(error.raw_os_error(), Some(libc::EAGAIN));
    let wait = system.clock_millis - start;
    assert!(wait > 400);
    assert!(wait < 1600);
}

#[test]
fn test_unix_datagram() {
    let mut system = System::new();
    let path1 = b"/tmp/unix_socket/sock1";
    let path2 = b"/tmp/unix_socket/sock2";

    let sock1 = system.bind(path1).unwrap();
    let sock2 = system.bind(path2).unwrap();

    let msg = b"hello world";
    system.send_to(&sock1, msg, path2).unwrap();
    let mut buf = [0; 11];
    system.recv_from(&sock2, &mut buf).unwrap();
    assert_eq!(msg, &buf);
}

#[test]
fn test_unnamed_unix_datagram() {
    let mut system = System::new();
    let path1 = b"/tmp/unix_socket/sock1";

    let sock1 = system.bind(path1).unwrap();
    let sock2 = system.unbound().unwrap();

    let msg = b"hello world";
    system.send_to(&sock2, msg, path1).unwrap();
    let mut buf = [0; 11];
    let (usize, addr) = system.recv_from(&sock1, &mut buf).unwrap();
    assert_eq!(usize, 11);
    assert_eq!(addr.address(), AddressKind::Unnamed);
    assert_eq!(msg, &buf);
}

#[test]
fn test_connect_unix_datagram() {
    let mut system = System::new();
    let path1 = b"/tmp/unix_socket/sock1";
    let path2 = b"/tmp/unix_socket/sock2";

    let bsock1 = system.bind(path1).unwrap();
    let bsock2 = system.bind(path2).unwrap();
    let sock = system.unbound().unwrap();
    system.datagram_connect(&sock, path1).unwrap();

    // Check send()
    let msg = b"hello there";
    system.send(&sock, msg).unwrap();
    let mut buf = [0; 11];
    let (usize, addr) = system.recv_from(&bsock1, &mut buf).unwrap();
    assert_eq!(usize, 11);
    assert_eq!(addr.address(), AddressKind::Unnamed);
    assert_eq!(msg, &buf);

    // Changing default socket works too
    system.datagram_connect(&sock, path2).unwrap();
    system.send(&sock, msg).unwrap();
    system.recv_from(&bsock2, &mut buf).unwrap();
}

#[test]
fn test_unix_datagram_recv() {
    let mut system = System::new();
    let path1 = b"/tmp/unix_socket/sock1";

    let sock1 = system.bind(path1).unwrap();
    let sock2 = system.unbound().unwrap();
    system.datagram_connect(&sock2, path1).unwrap();

    let msg = b"hello world";
    system.send(&sock2, msg).unwrap();
    let mut buf = [0; 11];
    let size = system.recv(&sock1, &mut buf).unwrap();
    assert_eq!(size, 11);
    assert_eq!(msg, &buf);
}

#[test]
fn datagram_pair() {
    let mut system = System::new();
    let msg1 = b"hello";
    let msg2 = b"world!";

    let (reply, fds) = system.call_pair(&UnixDatagram::pair(&Platform::host(true)));
    let (s1, s2) = UnixDatagram::paired(reply, fds).unwrap();
    system.send(&s2, msg1).unwrap();
    let mut buf = [0; 5];
    system.recv(&s1, &mut buf).unwrap();
    assert_eq!(&msg1[..], &buf[..]);
    system.send(&s1, msg2).unwrap();

    let mut buf = [0; 6];
    system.recv(&s2, &mut buf).unwrap();
    assert_eq!(&msg2[..], &buf[..]);
}

#[test]
fn test_sendmsg_to() {
    let mut system = System::new();
    let platform = Platform::host(true);
    let path1 = b"/tmp/unix_socket/sock1";

    let sock1 = system.bind(path1).unwrap();
    let sock2 = system.unbound().unwrap();

    let msg = b"he";
    let msg2 = b"llo";
    let buffers: [&[u8]; 2] = [msg, msg2];
    let request = sock2.sendmsg(&platform, Some(&path1[..]), &buffers, &[], 0u32).unwrap();
    let sent_bytes = system.sendmsg(request).unwrap();
    assert_eq!(sent_bytes, 5);

    let mut buf = [0; 6];
    let size = system.recv(&sock1, &mut buf).unwrap();
    assert_eq!(size, 5);
    assert_eq!(&buf[..5], b"hello");
}

#[test]
fn test_recvmsg_sender() {
    let mut system = System::new();
    let path1 = b"/tmp/unix_socket/sock1";
    let path2 = b"/tmp/unix_socket/sock2";

    let sock1 = system.bind(path1).unwrap();
    let sock2 = system.bind(path2).unwrap();

    assert_eq!(system.send_to(&sock1, b"hello", path2).unwrap(), 5);
    let mut buf = [0; 3];
    let mut buf2 = [0; 3];
    let result = system.recvmsg(&sock2, &mut [&mut buf[..], &mut buf2[..]], 0).unwrap();
    assert_eq!(result.data_bytes, 5);
    assert_eq!(&buf[..], b"hel");
    assert_eq!(&buf2[..2], b"lo");
    assert_eq!(result.control_msgs, vec![]);
    assert_eq!(result.flags, 64);
    match result.sender.address() {
        AddressKind::Pathname(p) => assert_eq!(p, path1),
        _ => unreachable!(),
    }
}

#[test]
fn sendmsg_to_peer_needs_no_path() {
    let mut system = System::new();
    let platform = Platform::host(true);
    let path1 = b"/tmp/unix_socket/sock1";
    let sock1 = system.bind(path1).unwrap();
    let sock2 = system.unbound().unwrap();

    let buffers: [&[u8]; 2] = [b"he", b"llo"];
    let ctrl_msgs = [ControlMsg::Credentials(UCred { pid: 1, uid: 2, gid: 3 })];
    let request = sock2.sendmsg(&platform, None, &buffers, &ctrl_msgs, 8u32).unwrap();
    assert!(request.dst.is_none());
    assert_eq!((request.fd, request.ctrl_msgs, request.flags), (sock2.as_raw_fd(), &ctrl_msgs[..], 8));
    assert_eq!(system.sendmsg(request), Err(Error::Os(libc::ENOTCONN)));

    system.datagram_connect(&sock2, path1).unwrap();
    let request = sock2.sendmsg(&platform, None, &buffers, &ctrl_msgs, 8u32).unwrap();
    assert_eq!(system.sendmsg(request), Ok(5));
    let mut buf = [0; 5];
    assert_eq!(system.recv(&sock1, &mut buf), Ok(5));
    assert_eq!(&buf, b"hello");

    let long = [b'a'; 108];
    let request = sock2.sendmsg(&platform, Some(&long[..]), &buffers, &ctrl_msgs, 8u32);
    assert_eq!(request.err(), Some(Error::PathTooLong));
}

#[test]
fn failed_connection_leaves_no_descriptor() {
    let mut system = System::new();
    assert_eq!(system.connect(b"/nowhere").err(), Some(Error::Os(libc::ENOENT)));
    let _listener = system.listen(b"/somewhere").unwrap();
    assert_eq!(system.listen(b"/somewhere").err(), Some(Error::Os(libc::EADDRINUSE)));
    assert_eq!(system.descriptors.len(), 1);
}

#[test]
fn addresses_of_sockets() {
    let mut system = System::new();
    let layout = system.platform.layout;
    let sock = system.bind(b"/tmp/here").unwrap();
    let (reply, raw) = system.call_addr(&sock.local_addr(&layout));
    let local = SocketAddr::new(&layout, reply.ret, reply.errno, raw);
    let (reply, raw) = system.call_addr(&sock.peer_addr(&layout));
    let peer = SocketAddr::new(&layout, reply.ret, reply.errno, raw);
    assert_eq!(local.as_ref().unwrap().address(), AddressKind::Pathname(b"/tmp/here"));
    assert_eq!(peer.as_ref().err(), Some(&Error::Os(libc::ENOTCONN)));

    let names: Vec<&str> = sock.debug_fields(&local, &peer).iter().map(|f| f.name()).collect();
    assert_eq!(names, ["fd", "local"]);
}

fn stream_and_clone(system: &mut System) -> (UnixStream, UnixStream, UnixStream) {
    let (reply, fds) = system.call_pair(&UnixStream::pair(&Platform::host(true)));
    let (stream, peer) = UnixStream::paired(reply, fds).unwrap();
    let reply = system.call(&stream.try_clone());
    let clone = UnixStream::cloned(reply).unwrap();
    assert_eq!(clone.as_raw_fd(), reply.ret);
    assert_ne!(clone.as_raw_fd(), stream.as_raw_fd());
    (stream, clone, peer)
}

#[test]
fn clones_share_timeouts() {
    let mut system = System::new();
    let (stream, clone, peer) = stream_and_clone(&mut system);
    let (five, six) = (Duration::new(5, 0), Duration::new(6, 0));

    system.set_read_timeout(&stream, Some(five)).unwrap();
    assert_eq!(system.read_timeout(&clone), Ok(Some(five)));
    system.set_write_timeout(&clone, Some(six)).unwrap();
    assert_eq!(system.write_timeout(&stream), Ok(Some(six)));
    assert_eq!(system.read_timeout(&stream), Ok(Some(five)));
    system.set_read_timeout(&clone, None).unwrap();
    assert_eq!(system.read_timeout(&stream), Ok(None));
    assert_eq!(system.write_timeout(&peer), Ok(None));
}

#[test]
fn clones_write_one_stream() {
    let mut system = System::new();
    let (stream, clone, peer) = stream_and_clone(&mut system);
    system.write(&stream, b"hello").unwrap();
    system.write(&clone, b"world").unwrap();
    let mut buf = [0; 10];
    assert_eq!(system.read(&peer, &mut buf), Ok(10));
    assert_eq!(&buf, b"helloworld");
}

#[test]
fn closed_handle_leaves_its_clone() {
    let mut system = System::new();
    let (stream, clone, peer) = stream_and_clone(&mut system);
    system.set_read_timeout(&stream, Some(Duration::new(5, 0))).unwrap();
    system.write(&peer, b"hello").unwrap();
    system.close(stream.close());

    let mut buf = [0; 5];
    assert_eq!(system.read(&clone, &mut buf), Ok(5));
    assert_eq!(&buf, b"hello");
    assert_eq!(system.read_timeout(&clone), Ok(Some(Duration::new(5, 0))));
    system.write(&clone, b"world").unwrap();
    assert_eq!(system.read(&peer, &mut buf), Ok(5));
    assert_eq!(&buf, b"world");
}

#[test]
fn cloned_listeners_accept_from_one_queue() {
    let mut system = System::new();
    let path = b"/tmp/unix_socket/sock";
    let listener = system.listen(path).unwrap();
    let reply = system.call(&listener.try_clone());
    let clone = UnixListener::cloned(reply).unwrap();
    assert_ne!(clone.as_raw_fd(), listener.as_raw_fd());

    let first = system.connect(path).unwrap();
    let second = system.connect(path).unwrap();
    system.write(&first, b"1").unwrap();
    system.write(&second, b"2").unwrap();
    let accepted = [system.accept(&clone).unwrap(), system.accept(&listener).unwrap()];
    let mut buf = [0];
    system.read(&accepted[0], &mut buf).unwrap();
    assert_eq!(&buf, b"1");
    system.read(&accepted[1], &mut buf).unwrap();
    assert_eq!(&buf, b"2");
}

#[test]
fn failed_clone() {
    let failed = Reply { ret: -1, errno: libc::EMFILE };
    assert_eq!(UnixStream::cloned(failed).err(), Some(Error::Os(libc::EMFILE)));
    assert_eq!(UnixListener::cloned(failed).err(), Some(Error::Os(libc::EMFILE)));
}

#[test]
fn abstract_names_that_fill_the_field() {
    let mut system = System::new();
    let mut path = [b'a'; 108];
    path[0] = 0;
    let listener = system.listen(&path).unwrap();
    let stream = system.connect(&path).unwrap();
    system.write(&stream, b"hello").unwrap();
    let mut buf = [0; 5];
    let accepted = system.accept(&listener).unwrap();
    assert_eq!(system.read(&accepted, &mut buf), Ok(5));

    let layout = system.platform.layout;
    let (reply, raw) = system.call_addr(&listener.local_addr(&layout));
    let addr = SocketAddr::new(&layout, reply.ret, reply.errno, raw).unwrap();
    assert_eq!(addr.address(), AddressKind::Abstract(&[b'a'; 107]));

    path[1] = b'b';
    let receiver = system.bind(&path).unwrap();
    let sender = system.unbound().unwrap();
    assert_eq!(system.send_to(&sender, b"world", &path), Ok(5));
    assert_eq!(system.recv(&receiver, &mut buf), Ok(5));
    assert_eq!(&buf, b"world");
}

fn datagram_ends(system: &mut System) -> (UnixDatagram, UnixDatagram) {
    let (reply, fds) = system.call_pair(&UnixDatagram::pair(&Platform::host(true)));
    UnixDatagram::paired(reply, fds).unwrap()
}

/// Sends "hello" on the data channel and the given messages on the control channel
fn sendmsg_helper(system: &mut System, s: &UnixDatagram, cmsgs: &[ControlMsg]) {
    let buffers: [&[u8]; 2] = [b"he", b"llo"];
    let request = s.sendmsg(&Platform::host(true), None, &buffers, cmsgs, 0u32).unwrap();
    assert_eq!(system.sendmsg(request), Ok(5));
}

/// Expects to receive "hello" on the data channel
fn recvmsg_helper(system: &mut System, s: &UnixDatagram) -> RecvMsgResult<u32> {
    let mut buf = [0; 3];
    let mut buf2 = [0; 3];
    let result = system.recvmsg(s, &mut [&mut buf[..], &mut buf2[..]], 0).unwrap();
    assert_eq!(result.data_bytes, 5);
    assert_eq!(&buf[..], b"hel");
    assert_eq!(&buf2[..2], b"lo");
    assert_eq!(result.flags as i32 & libc::MSG_CTRUNC, 0);
    result
}

#[test]
fn test_send_credentials_without_passcred() {
    // Without passcred, the ucred should be dropped
    let mut system = System::new();
    let (s1, s2) = datagram_ends(&mut system);
    let cmsg = ControlMsg::Credentials(UCred { pid: 17, uid: 1000, gid: 100 });
    sendmsg_helper(&mut system, &s2, &[cmsg.clone()]);
    assert_eq!(recvmsg_helper(&mut system, &s1).control_msgs.len(), 0);

    let reply = system.call(&s1.set_passcred(&Platform::host(true), true));
    assert_eq!(completed(reply), Ok(()));
    let reply = system.call(&s1.set_passcred(&Platform::host(true), false));
    assert_eq!(completed(reply), Ok(()));
    sendmsg_helper(&mut system, &s2, &[cmsg]);
    assert_eq!(recvmsg_helper(&mut system, &s1).control_msgs.len(), 0);
}

#[test]
fn test_send_credentials_with_passcred() {
    // With passcred, the ucred should be sent.
    let mut system = System::new();
    let (s1, s2) = datagram_ends(&mut system);
    let reply = system.call(&s1.set_passcred(&Platform::host(true), true));
    assert_eq!(completed(reply), Ok(()));
    let cmsg = ControlMsg::Credentials(UCred { pid: 17, uid: 1000, gid: 100 });
    sendmsg_helper(&mut system, &s2, &[cmsg]);

    let result = recvmsg_helper(&mut system, &s1);
    assert_eq!(result.control_msgs.len(), 1);
    for cmsg in result.control_msgs {
        match cmsg {
            ControlMsg::Credentials(ucred) => {
                assert_eq!((ucred.pid, ucred.uid, ucred.gid), (17, 1000, 100));
            }
            _ => panic!("Unexpected control message"),
        }
    }

    sendmsg_helper(&mut system, &s2, &[]);
    let result = recvmsg_helper(&mut system, &s1);
    assert_eq!(result.control_msgs.len(), 1);
    assert!(matches!(result.control_msgs[0], ControlMsg::Credentials(_)));
}

#[test]
fn test_send_fds() {
    let mut system = System::new();
    let (s1, s2) = datagram_ends(&mut system);
    let (my, theirs) = datagram_ends(&mut system);
    let cmsg = ControlMsg::Rights(vec![theirs.as_raw_fd()]);
    sendmsg_helper(&mut system, &s2, &[cmsg]);
    system.close(s2.close());
    assert_eq!(system.send(&my, b"Test"), Ok(4));

    let result = recvmsg_helper(&mut system, &s1);
    assert_eq!(result.control_msgs.len(), 1);
    system.close(theirs.close());
    for cmsg in result.control_msgs {
        match cmsg {
            ControlMsg::Rights(fds) => {
                assert_eq!(fds.len(), 1);
                assert_ne!(fds[0], theirs.as_raw_fd());
                let new_s = UnixDatagram::from_descriptor(fds[0]);
                let mut buf = [0; 4];
                assert_eq!(system.recv(&new_s, &mut buf[..]), Ok(4));
                assert_eq!(&buf[..], b"Test");
            }
            _ => panic!("Unexpected control message"),
        }
    }
}

#[test]
fn buffers_act_as_if_concatenated() {
    let platform = Platform::host(true);
    let splits: [&[&[u8]]; 4] =
        [&[b"hello world"], &[b"hello", b" ", b"world"], &[b"", b"hello wor", b"ld"], &[b"h", b"ello world", b""]];
    for buffers in splits {
        for lens in [[11, 0, 0], [1, 2, 3], [4, 0, 7], [5, 10, 5]] {
            let mut system = System::new();
            let (s1, s2) = datagram_ends(&mut system);
            let request = s2.sendmsg(&platform, None, buffers, &[], 0u32).unwrap();
            assert_eq!(system.sendmsg(request), Ok(11));
            let (mut a, mut b, mut c) = (vec![0; lens[0]], vec![0; lens[1]], vec![0; lens[2]]);
            let result = system.recvmsg(&s1, &mut [&mut a, &mut b, &mut c], 0).unwrap();
            let count = 11.min(lens.iter().sum());
            assert_eq!(result.data_bytes, count);
            assert_eq!([a, b, c].concat()[..count], b"hello world"[..count]);
        }
    }
}

#[test]
fn data_goes_to_the_peer_that_was_set_last() {
    let mut system = System::new();
    let (path1, path2) = (b"/tmp/unix_socket/sock1", b"/tmp/unix_socket/sock2");
    let first = system.bind(path1).unwrap();
    let second = system.bind(path2).unwrap();
    let sock = system.unbound().unwrap();
    system.datagram_connect(&sock, path1).unwrap();
    system.datagram_connect(&sock, path2).unwrap();
    assert_eq!(system.send(&sock, b"hello there"), Ok(11));
    assert!(system.socket(first.as_raw_fd()).queue.is_empty());
    let mut buf = [0; 11];
    let (count, addr) = system.recv_from(&second, &mut buf).unwrap();
    assert_eq!((count, addr.address()), (11, AddressKind::Unnamed));
    assert_eq!(&buf, b"hello there");
}

#[test]
fn connected_socket_hears_its_peer_alone() {
    let mut system = System::new();
    let (path1, path2) = (b"/tmp/unix_socket/sock1", b"/tmp/unix_socket/sock2");
    let sock1 = system.bind(path1).unwrap();
    let sock2 = system.bind(path2).unwrap();
    let other = system.unbound().unwrap();
    system.datagram_connect(&sock1, path2).unwrap();
    assert_eq!(system.send_to(&other, b"no", path1), Err(Error::Os(libc::EPERM)));
    assert_eq!(system.send_to(&sock2, b"yes", path1), Ok(3));
    let mut buf = [0; 3];
    let (count, addr) = system.recv_from(&sock1, &mut buf).unwrap();
    assert_eq!((count, &buf), (3, b"yes"));
    assert_eq!(addr.address(), AddressKind::Pathname(path2));
}
