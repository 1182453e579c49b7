//! Addresses of Unix sockets: how a path becomes an address, and what an address names.
use crate::error::{cvt, Error};
use crate::escape::ascii_escaped;
use crate::path::{same_bytes, same_path};
use crate::platform::Layout;
use vstd::prelude::*;
use vstd::slice::slice_subrange;

verus! {

/// The kind of an address associated with a Unix socket.
///
/// Two kinds are equal where they name the same: paths on the filesystem are compared as paths, and
/// abstract names byte by byte.
#[derive(Debug, Clone, Copy, Eq)]
pub enum AddressKind<'a> {
    /// An unnamed address.
    Unnamed,
    /// An address corresponding to a path on the filesystem, given by its bytes.
    Pathname(&'a [u8]),
    /// An address in an abstract namespace unrelated to the filesystem.
    ///
    /// Abstract addresses are a nonportable Linux extension.
    Abstract(&'a [u8]),
}

/// The kind of an address as a mathematical value.
#[verifier::ext_equal]
pub enum Kind {
    /// An unnamed address.
    Unnamed,
    /// An address on the filesystem.
    Pathname(Seq<u8>),
    /// An address in the abstract namespace.
    Abstract(Seq<u8>),
}

impl<'a> View for AddressKind<'a> {
    type V = Kind;

    open spec fn view(&self) -> Kind {
        match *self {
            AddressKind::Unnamed => Kind::Unnamed,
            AddressKind::Pathname(path) => Kind::Pathname(path@),
            AddressKind::Abstract(name) => Kind::Abstract(name@),
        }
    }
}

impl Kind {
    /// Both name the same.
    pub open spec fn is_same(self, other: Kind) -> bool {
        match (self, other) {
            (Kind::Unnamed, Kind::Unnamed) => true,
            (Kind::Pathname(a), Kind::Pathname(b)) => crate::path::is_same_path(a, b),
            (Kind::Abstract(a), Kind::Abstract(b)) => a == b,
            _ => false,
        }
    }
}

impl<'a> PartialEq for AddressKind<'a> {
    fn eq(&self, other: &AddressKind<'a>) -> (r: bool)
        ensures
            r == ({
                ||| *self is Unnamed && *other is Unnamed
                ||| *self is Pathname && *other is Pathname && crate::path::is_same_path(
                    self->Pathname_0@,
                    other->Pathname_0@,
                )
                ||| *self is Abstract && *other is Abstract && self->Abstract_0@
                    == other->Abstract_0@
            }),
    {
        match (*self, *other) {
            (AddressKind::Unnamed, AddressKind::Unnamed) => true,
            (AddressKind::Pathname(a), AddressKind::Pathname(b)) => same_path(a, b),
            (AddressKind::Abstract(a), AddressKind::Abstract(b)) => {
                proof {
                    assert(a@.subrange(0, a@.len() as int) =~= a@);
                    assert(b@.subrange(0, b@.len() as int) =~= b@);
                }
                same_bytes(a, 0, a.len(), b, 0, b.len())
            },
            _ => false,
        }
    }
}

impl<'a> vstd::std_specs::cmp::PartialEqSpecImpl for AddressKind<'a> {
    open spec fn obeys_eq_spec() -> bool {
        true
    }

    open spec fn eq_spec(&self, other: &AddressKind<'a>) -> bool {
        self@.is_same(other@)
    }
}

/// An address of a Unix socket as a mathematical value.
#[verifier::ext_equal]
pub struct SockAddr {
    /// The layout that the address has.
    pub layout: Layout,
    /// The address family.
    pub family: u16,
    /// All bytes of the path field.
    pub path: Seq<u8>,
    /// How many bytes of the address count, from its beginning.
    pub len: u32,
}

impl SockAddr {
    /// The path field has the length that the layout gives it.
    pub open spec fn wf(self) -> bool {
        &&& self.layout.wf()
        &&& self.path.len() == self.layout.path_len
    }

    /// How many bytes of the path field count.
    pub open spec fn name_len(self) -> int {
        self.len - self.layout.path_offset
    }

    /// The address names nothing.
    pub open spec fn is_unnamed(self) -> bool {
        self.name_len() == 0 || !self.layout.abstract_names && self.path[0] == 0
    }

    /// The part of the path field that the address names lies within the field.
    pub open spec fn readable(self) -> bool {
        &&& self.wf()
        &&& 0 <= self.name_len()
        &&& self.is_unnamed() || (if self.path[0] == 0 {
            self.name_len() <= self.layout.path_len
        } else {
            self.name_len() - 1 <= self.layout.path_len
        })
    }

    /// What the address names: for an abstract address all counted bytes but the null byte in
    /// front, for one on the filesystem all counted bytes but the null byte behind.
    pub open spec fn kind(self) -> Kind {
        if self.is_unnamed() {
            Kind::Unnamed
        } else if self.path[0] == 0 {
            Kind::Abstract(self.path.subrange(1, self.name_len()))
        } else {
            Kind::Pathname(self.path.subrange(0, self.name_len() - 1))
        }
    }
}

/// The path stands for an address on the filesystem, which has a null byte behind it.
pub open spec fn is_pathname(path: Seq<u8>) -> bool {
    path.len() > 0 && path[0] != 0
}

/// The address for `path`: the path, followed by null bytes.
pub open spec fn encode(layout: Layout, path: Seq<u8>) -> SockAddr {
    SockAddr {
        layout,
        family: layout.af_unix,
        path: path + Seq::new((layout.path_len - path.len()) as nat, |i: int| 0u8),
        len: (layout.path_offset + path.len() + if is_pathname(path) {
            1int
        } else {
            0int
        }) as u32,
    }
}

/// Whether there is an address for `path`: a path that begins with a null byte may fill the path
/// field, any other leaves room for the null byte behind it.
pub open spec fn fits(layout: Layout, path: Seq<u8>) -> bool {
    path.len() < layout.path_len || path.len() == layout.path_len && path[0] == 0
}

/// Why there is no address for `path`, where there is none.
pub open spec fn misfit(path: Seq<u8>) -> Error {
    if path[0] == 0 {
        Error::AbstractPathTooLong
    } else {
        Error::PathTooLong
    }
}

/// What a path names on a system with the given layout.
pub open spec fn named_by(layout: Layout, path: Seq<u8>) -> Kind {
    if is_pathname(path) {
        Kind::Pathname(path)
    } else if path.len() > 0 && layout.abstract_names {
        Kind::Abstract(path.drop_first())
    } else {
        Kind::Unnamed
    }
}

/// An address associated with a Unix socket.
#[derive(Debug)]
pub struct SocketAddr {
    layout: Layout,
    family: u16,
    path: Vec<u8>,
    len: u32,
}

impl View for SocketAddr {
    type V = SockAddr;

    closed spec fn view(&self) -> SockAddr {
        SockAddr { layout: self.layout, family: self.family, path: self.path@, len: self.len }
    }
}

/// What the operating system writes where a system call asks it for an address.
#[derive(Debug)]
pub struct RawAddr {
    /// The address family.
    pub family: u16,
    /// All bytes of the path field.
    pub path: Vec<u8>,
    /// How many bytes the address has.
    pub len: u32,
}

/// A path field of null bytes.
pub open spec fn blank_path(layout: Layout) -> Seq<u8> {
    Seq::new(layout.path_len as nat, |i: int| 0u8)
}

impl RawAddr {
    /// Makes what stands where a system call is asked for an address, before the call: null bytes,
    /// and room for a whole address.
    pub fn blank(layout: &Layout) -> (raw: RawAddr)
        requires
            layout.wf(),
        ensures
            raw.family == 0,
            raw.path@ == blank_path(*layout),
            raw.path@.len() == layout.path_len,
            forall|i: int| 0 <= i < raw.path@.len() ==> raw.path@[i] == 0,
            raw.len == layout.size(),
            raw.len == layout.path_offset + layout.path_len,
    {
        let mut path: Vec<u8> = Vec::new();
        while path.len() < layout.path_len
            invariant
                path@.len() <= layout.path_len,
                forall|i: int| 0 <= i < path@.len() ==> path@[i] == 0,
            decreases layout.path_len - path@.len(),
        {
            path.push(0);
        }
        proof {
            assert(path@ =~= blank_path(*layout));
        }
        RawAddr { family: 0, path, len: layout.address_size() }
    }

    /// The address that was written, taken as it stands.
    pub open spec fn verbatim(self, layout: Layout) -> SockAddr {
        SockAddr { layout, family: self.family, path: self.path@, len: self.len }
    }
}

/// The address that a call which returned `ret` and left `errno` asked for, where the operating
/// system wrote `raw`.
pub open spec fn received(layout: Layout, ret: i32, errno: i32, raw: SockAddr) -> Result<
    SockAddr,
    Error,
> {
    if ret < 0 {
        Err(Error::Os(errno))
    } else if raw.len == 0 {
        Ok(SockAddr { len: layout.path_offset, ..raw })
    } else if raw.family != layout.af_unix {
        Err(Error::NotUnixSocket)
    } else {
        Ok(raw)
    }
}

/// Makes the address for a path.
///
/// A path that begins with a null byte stands for an abstract address, any other for one on the
/// filesystem. A path on the filesystem is followed by a null byte, which counts; an abstract one
/// needs none.
pub fn sockaddr_un(layout: &Layout, path: &[u8]) -> (r: Result<SocketAddr, Error>)
    requires
        layout.wf(),
    ensures
        r is Ok <==> fits(*layout, path@),
        r is Ok ==> r->Ok_0@ == encode(*layout, path@),
        r is Err ==> r->Err_0 == misfit(path@),
        path@.len() < layout.path_len ==> r is Ok,
        path@.len() == layout.path_len ==> (r is Ok <==> path@[0] == 0),
        path@.len() > layout.path_len ==> r is Err,
        r is Ok ==> {
            let addr = r->Ok_0@;
            &&& addr.layout == *layout
            &&& addr.family == layout.af_unix
            &&& addr.path.len() == layout.path_len
            &&& forall|i: int| 0 <= i < path@.len() ==> addr.path[i] == path@[i]
            &&& forall|i: int| path@.len() <= i < layout.path_len ==> addr.path[i] == 0
            &&& path@.len() == 0 || path@[0] == 0 ==> addr.len == layout.path_offset + path@.len()
            &&& path@.len() > 0 && path@[0] != 0 ==> addr.len == layout.path_offset + path@.len()
                + 1
        },
        r is Err && path@[0] == 0 ==> r->Err_0 is AbstractPathTooLong,
        r is Err && path@[0] != 0 ==> r->Err_0 is PathTooLong,
{
    let n: usize = path.len();
    let leading_null: bool = n > 0 && path[0] == 0;
    if leading_null && n > layout.path_len {
        return Err(Error::AbstractPathTooLong);
    }
    if !leading_null && n >= layout.path_len {
        return Err(Error::PathTooLong);
    }
    let mut field: Vec<u8> = Vec::new();
    let mut i: usize = 0;
    while i < layout.path_len
        invariant
            n == path@.len(),
            n <= layout.path_len,
            i <= layout.path_len,
            field@.len() == i,
            forall|j: int|
                0 <= j < i ==> field@[j] == if j < n {
                    path@[j]
                } else {
                    0u8
                },
        decreases layout.path_len - i,
    {
        if i < n {
            field.push(path[i]);
        } else {
            field.push(0);
        }
        i = i + 1;
    }
    let mut len: usize = layout.path_offset as usize + n;
    if n > 0 && !leading_null {
        len = len + 1;
    }
    proof {
        assert(field@ =~= encode(*layout, path@).path);
    }
    Ok(SocketAddr { layout: *layout, family: layout.af_unix, path: field, len: len as u32 })
}

impl SocketAddr {
    /// Takes the address that a system call was asked for.
    ///
    /// `ret` and `errno` are what the call returned and left, and `raw` is what it wrote. An
    /// address of no length is that of an unnamed socket.
    pub fn new(layout: &Layout, ret: i32, errno: i32, raw: RawAddr) -> (r: Result<
        SocketAddr,
        Error,
    >)
        ensures
            r is Ok <==> received(*layout, ret, errno, raw.verbatim(*layout)) is Ok,
            r is Ok ==> r->Ok_0@ == received(*layout, ret, errno, raw.verbatim(*layout))->Ok_0,
            r is Err ==> r->Err_0 == received(
                *layout,
                ret,
                errno,
                raw.verbatim(*layout),
            )->Err_0,
            ret < 0 ==> r is Err && r->Err_0 == Error::Os(errno),
            ret >= 0 && raw.len != 0 && raw.family != layout.af_unix ==> r is Err
                && r->Err_0 is NotUnixSocket,
            ret >= 0 && (raw.len == 0 || raw.family == layout.af_unix) ==> r is Ok,
            r is Ok ==> {
                let addr = r->Ok_0@;
                &&& addr.layout == *layout
                &&& addr.family == raw.family
                &&& addr.path == raw.path@
                &&& addr.len == if raw.len == 0 {
                    layout.path_offset
                } else {
                    raw.len
                }
            },
    {
        match cvt(ret, errno) {
            Err(e) => Err(e),
            Ok(_) => {
                let mut len: u32 = raw.len;
                if len == 0 {
                    len = layout.path_offset;
                } else if raw.family != layout.af_unix {
                    return Err(Error::NotUnixSocket);
                }
                Ok(SocketAddr { layout: *layout, family: raw.family, path: raw.path, len })
            },
        }
    }

    /// Returns the address family.
    pub fn family(&self) -> (family: u16)
        ensures
            family == self@.family,
    {
        self.family
    }

    /// Returns all bytes of the path field.
    pub fn sun_path(&self) -> (path: &[u8])
        ensures
            path@ == self@.path,
    {
        self.path.as_slice()
    }

    /// Returns how many bytes of the address count, from its beginning.
    pub fn len(&self) -> (len: u32)
        ensures
            len == self@.len,
    {
        self.len
    }

    /// Tells whether what the address names lies within the address.
    pub fn is_readable(&self) -> (r: bool)
        ensures
            r == self@.readable(),
    {
        if !self.layout.is_wf() {
            return false;
        }
        if self.path.len() != self.layout.path_len || self.len < self.layout.path_offset {
            return false;
        }
        let n: usize = (self.len - self.layout.path_offset) as usize;
        if n == 0 || !self.layout.abstract_names && self.path[0] == 0 {
            true
        } else if self.path[0] == 0 {
            n <= self.layout.path_len
        } else {
            n - 1 <= self.layout.path_len
        }
    }

    /// Returns the value of the address.
    pub fn address<'a>(&'a self) -> (kind: AddressKind<'a>)
        requires
            self@.readable(),
        ensures
            kind@ == self@.kind(),
            ({
                let addr = self@;
                let n = addr.len - addr.layout.path_offset;
                &&& n == 0 || !addr.layout.abstract_names && addr.path[0] == 0 ==> kind is Unnamed
                &&& n != 0 && addr.layout.abstract_names && addr.path[0] == 0 ==> kind is Abstract
                    && kind->Abstract_0@ == addr.path.subrange(1, n)
                &&& n != 0 && addr.path[0] != 0 ==> kind is Pathname && kind->Pathname_0@
                    == addr.path.subrange(0, n - 1)
            }),
    {
        let len: usize = (self.len - self.layout.path_offset) as usize;
        let path: &'a [u8] = self.path.as_slice();

        if len == 0 || !self.layout.abstract_names && path[0] == 0 {
            AddressKind::Unnamed
        } else if path[0] == 0 {
            AddressKind::Abstract(slice_subrange(path, 1, len))
        } else {
            AddressKind::Pathname(slice_subrange(path, 0, len - 1))
        }
    }

    /// Returns the address as text for people who debug. `shown_path` is how the path of an
    /// address on the filesystem is to be shown, and is not looked at for other addresses.
    pub fn debug_text(&self, shown_path: &str) -> (text: String)
        requires
            self@.readable(),
        ensures
            text@ == kind_text(self@.kind(), shown_path@),
            self@.kind() is Unnamed ==> text@ == "(unnamed)"@,
            self@.kind() is Pathname ==> text@ == shown_path@ + " (pathname)"@,
            self@.kind() is Abstract ==> text@ == seq!['"'] + crate::escape::escape_bytes(
                self@.kind()->Abstract_0,
            ) + seq!['"'] + " (abstract)"@,
    {
        let mut text: String;
        match self.address() {
            AddressKind::Unnamed => {
                text = String::from_str("(unnamed)");
            },
            AddressKind::Abstract(name) => {
                text = ascii_escaped(name);
                text.append(" (abstract)");
            },
            AddressKind::Pathname(_) => {
                text = String::from_str(shown_path);
                text.append(" (pathname)");
            },
        }
        text
    }
}

impl Clone for SocketAddr {
    fn clone(&self) -> (r: SocketAddr)
        ensures
            r@ == self@,
    {
        let path = self.path.clone();
        proof {
            assert(path@ =~= self.path@);
        }
        SocketAddr { layout: self.layout, family: self.family, path, len: self.len }
    }
}

/// The text for an address of the given kind, where a path is shown as `shown_path`.
pub open spec fn kind_text(kind: Kind, shown_path: Seq<char>) -> Seq<char> {
    match kind {
        Kind::Unnamed => "(unnamed)"@,
        Kind::Abstract(name) => seq!['"'] + crate::escape::escape_bytes(name) + seq!['"'] + " (abstract)"@,
        Kind::Pathname(_) => shown_path + " (pathname)"@,
    }
}

/// The address that is made for a path names that path: a path on the filesystem is given back as
/// it was, and an abstract one without the null byte in front.
pub proof fn law_address_gives_path_back(layout: Layout, path: Seq<u8>)
    requires
        layout.wf(),
        fits(layout, path),
    ensures
        encode(layout, path).readable(),
        encode(layout, path).kind() == named_by(layout, path),
{
    let addr = encode(layout, path);
    if is_pathname(path) {
        assert(addr.path.subrange(0, addr.name_len() - 1) =~= path);
    } else if path.len() > 0 {
        assert(addr.path.subrange(1, addr.name_len()) =~= path.drop_first());
    }
}

/// Different paths have different addresses.
pub proof fn law_addresses_differ(layout: Layout, a: Seq<u8>, b: Seq<u8>)
    requires
        layout.wf(),
        fits(layout, a),
        fits(layout, b),
        encode(layout, a).path == encode(layout, b).path,
        encode(layout, a).len == encode(layout, b).len,
    ensures
        a == b,
{
    let x = encode(layout, a);
    let y = encode(layout, b);
    assert(x.path[0] == y.path[0]);
    assert(a.len() == b.len());
    assert(a =~= x.path.subrange(0, a.len() as int));
    assert(b =~= y.path.subrange(0, b.len() as int));
}

/// An address that was made for a path and that the operating system hands back as it got it is
/// taken as that address, and names that path.
pub proof fn law_address_comes_back(layout: Layout, path: Seq<u8>, ret: i32, errno: i32)
    requires
        layout.wf(),
        fits(layout, path),
        ret >= 0,
    ensures
        received(layout, ret, errno, encode(layout, path)) == Ok::<SockAddr, Error>(
            encode(layout, path),
        ),
        encode(layout, path).readable(),
        encode(layout, path).kind() == named_by(layout, path),
{
    law_address_gives_path_back(layout, path);
}

/// An address of no length is that of an unnamed socket.
pub proof fn law_no_length_is_unnamed(layout: Layout, ret: i32, errno: i32, raw: SockAddr)
    requires
        raw.wf(),
        raw.layout == layout,
        raw.len == 0,
        ret >= 0,
    ensures
        received(layout, ret, errno, raw) is Ok,
        received(layout, ret, errno, raw)->Ok_0.readable(),
        received(layout, ret, errno, raw)->Ok_0.kind() == Kind::Unnamed,
{
}

/// Different abstract addresses are shown differently.
pub proof fn law_abstract_texts_differ(a: Seq<u8>, b: Seq<u8>, shown_path: Seq<char>)
    requires
        kind_text(Kind::Abstract(a), shown_path) == kind_text(Kind::Abstract(b), shown_path),
    ensures
        a == b,
{
    let x = kind_text(Kind::Abstract(a), shown_path);
    let y = kind_text(Kind::Abstract(b), shown_path);
    let ea = crate::escape::escape_bytes(a);
    let eb = crate::escape::escape_bytes(b);
    assert(x.len() == 2 + ea.len() + " (abstract)"@.len());
    assert(y.len() == 2 + eb.len() + " (abstract)"@.len());
    assert(ea =~= x.subrange(1, 1 + ea.len() as int));
    assert(eb =~= y.subrange(1, 1 + eb.len() as int));
    crate::escape::law_escape_is_injective(a, b);
}

/// Whether a path has an address is a matter of its length alone, whatever bytes it holds. Only where
/// it is exactly as long as the path field does its first byte decide.
pub proof fn law_length_decides(layout: Layout, path: Seq<u8>)
    ensures
        path.len() < layout.path_len ==> fits(layout, path),
        path.len() == layout.path_len ==> (fits(layout, path) <==> path[0] == 0),
        path.len() > layout.path_len ==> !fits(layout, path),
{
}

/// A path that has no address is reported as an abstract one where it begins with a null byte, and
/// else as one on the filesystem.
pub proof fn law_first_byte_decides_error(path: Seq<u8>)
    ensures
        path[0] == 0 ==> misfit(path) is AbstractPathTooLong,
        path[0] != 0 ==> misfit(path) is PathTooLong,
{
}

/// The path field of an address holds the path and null bytes behind it, and the family is that of
/// Unix sockets. What stands before the path counts and all bytes of the path do, and behind a path
/// on the filesystem, but behind no other, one null byte more.
pub proof fn law_address_holds_path(layout: Layout, path: Seq<u8>)
    requires
        path.len() <= layout.path_len,
        layout.path_offset + layout.path_len < u32::MAX,
    ensures
        encode(layout, path).layout == layout,
        encode(layout, path).family == layout.af_unix,
        encode(layout, path).path.len() == layout.path_len,
        forall|i: int| 0 <= i < path.len() ==> encode(layout, path).path[i] == path[i],
        forall|i: int|
            path.len() <= i < layout.path_len ==> encode(layout, path).path[i] == 0,
        path.len() == 0 || path[0] == 0 ==> encode(layout, path).len == layout.path_offset
            + path.len(),
        path.len() > 0 && path[0] != 0 ==> encode(layout, path).len == layout.path_offset
            + path.len() + 1,
{
}

/// What an address names, whoever made it, lies in its path field: behind a null byte in front all
/// other bytes that count, and else all bytes that count but the last. Nothing is named where no byte
/// of the path counts, nor behind a null byte where there are no abstract names.
pub proof fn law_address_names_what_counts(addr: SockAddr)
    ensures
        ({
            let n = addr.len - addr.layout.path_offset;
            &&& n == 0 ==> addr.kind() is Unnamed
            &&& n != 0 && addr.path[0] == 0 && !addr.layout.abstract_names
                ==> addr.kind() is Unnamed
            &&& n != 0 && addr.path[0] == 0 && addr.layout.abstract_names
                ==> addr.kind() is Abstract && addr.kind()->Abstract_0 == addr.path.subrange(1, n)
            &&& n != 0 && addr.path[0] != 0 ==> addr.kind() is Pathname
                && addr.kind()->Pathname_0 == addr.path.subrange(0, n - 1)
        }),
{
}

/// Every address can be read whose path field has the length that its layout says and holds what the
/// address names: no more bytes count than there are, but for the null byte behind a path on the
/// filesystem.
pub proof fn law_whole_addresses_are_readable(addr: SockAddr)
    ensures
        ({
            let n = addr.len - addr.layout.path_offset;
            let whole = 0 < addr.layout.path_len && addr.layout.path_offset + addr.layout.path_len
                < u32::MAX && addr.layout.path_offset + addr.layout.path_len < usize::MAX
                && addr.path.len() == addr.layout.path_len;
            addr.readable() <==> whole && {
                ||| n == 0
                ||| n > 0 && addr.path[0] == 0 && !addr.layout.abstract_names
                ||| n > 0 && addr.path[0] == 0 && n <= addr.layout.path_len
                ||| n > 0 && addr.path[0] != 0 && n <= addr.layout.path_len + 1
            }
        }),
{
}

/// An address that a call was asked for is refused where the call failed, and where it has a length
/// and is of another family. Else it is taken as it was written, but that one of no length is taken
/// as one without a path.
pub proof fn law_address_is_taken_as_written(layout: Layout, ret: i32, errno: i32, raw: SockAddr)
    ensures
        ret < 0 ==> received(layout, ret, errno, raw) == Err::<SockAddr, Error>(Error::Os(errno)),
        ret >= 0 && raw.len != 0 && raw.family != layout.af_unix ==> received(
            layout,
            ret,
            errno,
            raw,
        ) == Err::<SockAddr, Error>(Error::NotUnixSocket),
        ret >= 0 && raw.len != 0 && raw.family == layout.af_unix ==> received(
            layout,
            ret,
            errno,
            raw,
        ) == Ok::<SockAddr, Error>(raw),
        ret >= 0 && raw.len == 0 ==> {
            let addr = received(layout, ret, errno, raw);
            &&& addr is Ok
            &&& addr->Ok_0.len == layout.path_offset
            &&& addr->Ok_0.layout == raw.layout
            &&& addr->Ok_0.family == raw.family
            &&& addr->Ok_0.path == raw.path
        },
{
}

/// What was written is taken with the layout that it was asked for with, and a blank path field holds
/// null bytes.
pub proof fn law_written_address_is_itself(layout: Layout, raw: RawAddr)
    ensures
        raw.verbatim(layout).layout == layout,
        raw.verbatim(layout).family == raw.family,
        raw.verbatim(layout).path == raw.path@,
        raw.verbatim(layout).len == raw.len,
        blank_path(layout).len() == layout.path_len,
        forall|i: int| 0 <= i < layout.path_len ==> blank_path(layout)[i] == 0,
{
}

/// An address is shown as unnamed, or as its path or its escaped name between quotation marks,
/// followed by which of the two it is.
pub proof fn law_kind_is_shown(kind: Kind, shown_path: Seq<char>)
    ensures
        kind is Unnamed ==> kind_text(kind, shown_path) == "(unnamed)"@,
        kind is Pathname ==> kind_text(kind, shown_path) == shown_path + " (pathname)"@,
        kind is Abstract ==> kind_text(kind, shown_path) == seq!['"'] + crate::escape::escape_bytes(
            kind->Abstract_0,
        ) + seq!['"'] + " (abstract)"@,
{
}

/// Kinds are the same where both are unnamed, where both are the same path, and where both are
/// abstract names of the same bytes, and never otherwise.
pub proof fn law_same_kinds(a: Kind, b: Kind)
    ensures
        a.is_same(b) <==> {
            ||| a is Unnamed && b is Unnamed
            ||| a is Pathname && b is Pathname && crate::path::is_same_path(
                a->Pathname_0,
                b->Pathname_0,
            )
            ||| a is Abstract && b is Abstract && a->Abstract_0 == b->Abstract_0
        },
{
}

/// A kind stands for what it holds.
pub proof fn law_kind_is_what_it_holds<'a>(kind: AddressKind<'a>)
    ensures
        kind is Unnamed <==> kind@ is Unnamed,
        kind is Pathname <==> kind@ is Pathname,
        kind is Abstract <==> kind@ is Abstract,
        kind is Pathname ==> kind@->Pathname_0 == kind->Pathname_0@,
        kind is Abstract ==> kind@->Abstract_0 == kind->Abstract_0@,
{
}

} // verus!
