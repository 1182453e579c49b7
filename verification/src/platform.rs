//! The constants of the operating system that the library's calls are made of.
use vstd::prelude::*;

verus! {

/// How the operating system lays out the address of a Unix socket.
#[derive(Debug, Clone, Copy, PartialEq, Eq, Structural)]
pub struct Layout {
    /// The address family of Unix sockets.
    pub af_unix: u16,
    /// Where the path begins in an address, in bytes.
    pub path_offset: u32,
    /// How many bytes an address has for the path.
    pub path_len: usize,
    /// Whether an address whose path begins with a null byte has a name of its own. Where this
    /// is false, such an address is an unnamed one.
    pub abstract_names: bool,
}

impl Layout {
    /// There is room for a path, and every length of an address fits its type.
    pub open spec fn wf(self) -> bool {
        &&& 0 < self.path_len
        &&& self.path_offset + self.path_len + 1 <= u32::MAX
        &&& self.path_offset + self.path_len + 1 <= usize::MAX
    }

    /// Tells whether there is room for a path and every length of an address fits its type.
    pub fn is_wf(&self) -> (r: bool)
        ensures
            r == self.wf(),
            r == (0 < self.path_len && self.path_offset + self.path_len < u32::MAX
                && self.path_offset + self.path_len < usize::MAX),
    {
        0 < self.path_len && self.path_len < u32::MAX as usize && self.path_offset < u32::MAX
            - self.path_len as u32
    }

    /// The size of a whole address in bytes.
    pub open spec fn size(self) -> int {
        self.path_offset + self.path_len
    }

    /// Returns the size of a whole address in bytes.
    pub fn address_size(&self) -> (size: u32)
        requires
            self.wf(),
        ensures
            size == self.size(),
            size == self.path_offset + self.path_len,
    {
        self.path_offset + self.path_len as u32
    }
}

/// The constants that stand in the arguments of system calls.
#[derive(Debug, Clone, Copy, PartialEq, Eq, Structural)]
pub struct Platform {
    /// The layout of addresses.
    pub layout: Layout,
    /// The type of a stream socket.
    pub sock_stream: i32,
    /// The type of a datagram socket.
    pub sock_dgram: i32,
    /// Shuts down the reading half.
    pub shut_rd: i32,
    /// Shuts down the writing half.
    pub shut_wr: i32,
    /// Shuts down both halves.
    pub shut_rdwr: i32,
    /// The level of the options of a socket.
    pub sol_socket: i32,
    /// The option that holds the timeout of reads.
    pub so_rcvtimeo: i32,
    /// The option that holds the timeout of writes.
    pub so_sndtimeo: i32,
    /// The option that asks for credentials with each message.
    pub so_passcred: i32,
    /// The largest number of seconds that a timeout can hold.
    pub time_max: i64,
}

impl Platform {
    /// The layout is well formed, and constants that tell things apart differ.
    pub open spec fn wf(self) -> bool {
        &&& self.layout.wf()
        &&& self.sock_stream != self.sock_dgram
        &&& self.shut_rd != self.shut_wr
        &&& self.shut_rd != self.shut_rdwr
        &&& self.shut_wr != self.shut_rdwr
        &&& self.so_rcvtimeo != self.so_sndtimeo
        &&& 0 < self.time_max
    }

    /// The options of sockets have the numbers that one of these has: most processors, PowerPC, MIPS
    /// and SPARC on Linux, or Cygwin. The second pair of numbers for timeouts is for timeouts that
    /// are wider than a machine word.
    pub open spec fn has_known_options(self) -> bool {
        let options = (self.sol_socket, self.so_passcred);
        let timeouts = (self.so_rcvtimeo, self.so_sndtimeo);
        ||| options == (1i32, 16i32) && (timeouts == (20i32, 21i32) || timeouts == (66i32, 67i32))
        ||| options == (1i32, 20i32) && (timeouts == (18i32, 19i32) || timeouts == (66i32, 67i32))
        ||| options == (0xffffi32, 17i32) && (timeouts == (0x1006i32, 0x1005i32) || timeouts == (
            66i32,
            67i32,
        ))
        ||| options == (0xffffi32, 2i32) && (timeouts == (0x2000i32, 0x4000i32) || timeouts == (
            68i32,
            69i32,
        ))
        ||| options == (0xffffi32, 0x400i32) && timeouts == (0x1006i32, 0x1005i32)
    }
}

/// Returns the size of `libc::sockaddr_un`.
///
/// Not proved, but read off its declaration: 110 bytes. So it is on Linux, and on every other system
/// for which `libc` has `SO_PASSCRED` and an address that begins with a family of two bytes, with a
/// path of 108 bytes behind it and nothing else.
#[verifier::external_body]
fn sockaddr_un_size() -> (size: usize)
    ensures
        size == 110,
{
    std::mem::size_of::<libc::sockaddr_un>()
}

/// Returns the length of the path in `libc::sockaddr_un`.
///
/// Not proved, but read off its declaration: the field `sun_path`, which ends the address, has 108
/// bytes, on the same systems.
#[verifier::external_body]
fn sun_path_len() -> (len: usize)
    ensures
        len == 108,
{
    libc::sockaddr_un { sun_family: 0, sun_path: [0; _] }.sun_path.len()
}

/// Reads the constants of `libc` that system calls on sockets take, into a platform with the given
/// layout of addresses.
///
/// Not proved, but read off the declarations of `AF_UNIX`, `SOCK_STREAM`, `SOCK_DGRAM`, `SHUT_RD`,
/// `SHUT_WR`, `SHUT_RDWR`, `SOL_SOCKET`, `SO_PASSCRED`, `SO_RCVTIMEO`, `SO_SNDTIMEO` and `time_t` in
/// `libc`, on the same systems: what the clauses say. The two types of sockets are exchanged on some
/// MIPS targets, the options differ from one processor to the next, and times have 32 or 64 bits; which
/// of these holds is left to the machine.
#[verifier::external_body]
fn socket_constants(path_offset: u32, path_len: usize, abstract_names: bool) -> (p: Platform)
    ensures
        p.layout == (Layout { af_unix: 1, path_offset, path_len, abstract_names }),
        p.sock_stream == 1 && p.sock_dgram == 2 || p.sock_stream == 2 && p.sock_dgram == 1,
        p.shut_rd == 0,
        p.shut_wr == 1,
        p.shut_rdwr == 2,
        p.has_known_options(),
        p.time_max == i32::MAX || p.time_max == i64::MAX,
{
    Platform {
        layout: Layout { af_unix: libc::AF_UNIX as u16, path_offset, path_len, abstract_names },
        sock_stream: libc::SOCK_STREAM,
        sock_dgram: libc::SOCK_DGRAM,
        shut_rd: libc::SHUT_RD,
        shut_wr: libc::SHUT_WR,
        shut_rdwr: libc::SHUT_RDWR,
        sol_socket: libc::SOL_SOCKET,
        so_rcvtimeo: libc::SO_RCVTIMEO,
        so_sndtimeo: libc::SO_SNDTIMEO,
        so_passcred: libc::SO_PASSCRED,
        time_max: libc::time_t::MAX as i64,
    }
}

/// Returns where the path begins in an address of the system that the library is built for: it ends
/// the address.
pub fn sun_path_offset() -> (offset: usize)
    ensures
        offset == 2,
{
    sockaddr_un_size() - sun_path_len()
}

/// The constants are those that `libc` declares for the system that the library is built for, each
/// in its own place.
pub closed spec fn are_host_constants(abstract_names: bool, p: Platform) -> bool {
    call_ensures(socket_constants, (2u32, 108usize, abstract_names), p)
}

/// Whatever is said of abstract names, the constants are the ones that are read for that.
proof fn law_host_constants_are_read(abstract_names: bool, p: Platform)
    ensures
        are_host_constants(abstract_names, p) <==> call_ensures(
            socket_constants,
            (2u32, 108usize, abstract_names),
            p,
        ),
{
}

impl Platform {
    /// Returns the constants of the system that the library is built for. `abstract_names` says
    /// whether that system has abstract addresses, which Linux alone has.
    pub fn host(abstract_names: bool) -> (p: Platform)
        ensures
            p.wf(),
            are_host_constants(abstract_names, p),
            p.layout == (Layout { af_unix: 1, path_offset: 2, path_len: 108, abstract_names }),
            p.sock_stream == 1 && p.sock_dgram == 2 || p.sock_stream == 2 && p.sock_dgram == 1,
            p.shut_rd == 0,
            p.shut_wr == 1,
            p.shut_rdwr == 2,
            p.has_known_options(),
            p.time_max == i32::MAX || p.time_max == i64::MAX,
    {
        socket_constants(sun_path_offset() as u32, sun_path_len(), abstract_names)
    }
}

/// Every layout can be used that has room for a path and whose lengths fit their types, whatever its
/// other values are, and an address is as long as what stands before the path and the path.
pub proof fn law_layout_needs_room_alone(layout: Layout)
    ensures
        layout.wf() <==> 0 < layout.path_len && layout.path_offset + layout.path_len < u32::MAX
            && layout.path_offset + layout.path_len < usize::MAX,
        layout.size() == layout.path_offset + layout.path_len,
{
}

/// Every platform can be used that has such a layout, tells apart what is to be told apart, and has
/// room for a second.
pub proof fn law_platform_tells_apart(platform: Platform)
    ensures
        platform.wf() <==> {
            &&& 0 < platform.layout.path_len
            &&& platform.layout.path_offset + platform.layout.path_len < u32::MAX
            &&& platform.layout.path_offset + platform.layout.path_len < usize::MAX
            &&& platform.sock_stream != platform.sock_dgram
            &&& platform.shut_rd != platform.shut_wr
            &&& platform.shut_rd != platform.shut_rdwr
            &&& platform.shut_wr != platform.shut_rdwr
            &&& platform.so_rcvtimeo != platform.so_sndtimeo
            &&& 0 < platform.time_max
        },
{
}

} // verus!
