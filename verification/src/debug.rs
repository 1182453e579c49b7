//! What is shown of a socket to people who debug.
use crate::address::{SockAddr, SocketAddr};
use crate::datagram::UnixDatagram;
use crate::error::Error;
use crate::listener::UnixListener;
use crate::stream::UnixStream;
use vstd::prelude::*;

verus! {

/// One thing that is shown of a socket, with addresses of type `A`.
#[verifier::ext_equal]
#[derive(Debug)]
pub enum Field<A> {
    /// The descriptor.
    Fd(i32),
    /// The address of the local half.
    Local(A),
    /// The address of the remote half.
    Peer(A),
}

impl<A: View> View for Field<A> {
    type V = Field<A::V>;

    open spec fn view(&self) -> Field<A::V> {
        match *self {
            Field::Fd(fd) => Field::Fd(fd),
            Field::Local(addr) => Field::Local(addr@),
            Field::Peer(addr) => Field::Peer(addr@),
        }
    }
}

/// A field as a mathematical value.
pub type FieldSpec = Field<SockAddr>;

impl<A> Field<A> {
    /// The name that a field is shown under.
    pub open spec fn spec_name(self) -> Seq<char> {
        match self {
            Field::Fd(_) => "fd"@,
            Field::Local(_) => "local"@,
            Field::Peer(_) => "peer"@,
        }
    }

    /// Returns the name that the field is shown under.
    pub fn name(&self) -> (name: &'static str)
        ensures
            name@ == self.spec_name(),
            *self is Fd ==> name@ == "fd"@,
            *self is Local ==> name@ == "local"@,
            *self is Peer ==> name@ == "peer"@,
    {
        match self {
            Field::Fd(_) => "fd",
            Field::Local(_) => "local",
            Field::Peer(_) => "peer",
        }
    }
}

/// The fields that are shown of a socket: its descriptor, then each address that could be had.
pub open spec fn fields_spec(
    fd: i32,
    local: Result<SocketAddr, Error>,
    peer: Result<SocketAddr, Error>,
) -> Seq<FieldSpec> {
    local_fields_spec(fd, local) + (if peer is Ok {
        seq![Field::Peer(peer->Ok_0@)]
    } else {
        seq![]
    })
}

/// The fields that are shown of a socket without a remote half.
pub open spec fn local_fields_spec(fd: i32, local: Result<SocketAddr, Error>) -> Seq<FieldSpec> {
    seq![Field::Fd(fd)] + (if local is Ok {
        seq![Field::Local(local->Ok_0@)]
    } else {
        seq![]
    })
}

/// Returns the descriptor, and the local address if it could be had.
fn local_fields<'a>(fd: i32, local: &'a Result<SocketAddr, Error>) -> (fields: Vec<
    Field<&'a SocketAddr>,
>)
    ensures
        fields@.map_values(|f: Field<&'a SocketAddr>| f@) == local_fields_spec(fd, *local),
{
    let mut fields: Vec<Field<&'a SocketAddr>> = Vec::new();
    fields.push(Field::Fd(fd));
    if let Ok(addr) = local {
        fields.push(Field::Local(addr));
    }
    proof {
        assert(fields@.map_values(|f: Field<&'a SocketAddr>| f@) =~= local_fields_spec(
            fd,
            *local,
        ));
    }
    fields
}

/// Returns the descriptor, and each address that could be had.
fn all_fields<'a>(
    fd: i32,
    local: &'a Result<SocketAddr, Error>,
    peer: &'a Result<SocketAddr, Error>,
) -> (fields: Vec<Field<&'a SocketAddr>>)
    ensures
        fields@.map_values(|f: Field<&'a SocketAddr>| f@) == fields_spec(fd, *local, *peer),
{
    let mut fields: Vec<Field<&'a SocketAddr>> = local_fields(fd, local);
    let ghost before = fields@;
    if let Ok(addr) = peer {
        fields.push(Field::Peer(addr));
    }
    proof {
        assert(before.map_values(|f: Field<&'a SocketAddr>| f@) == local_fields_spec(fd, *local));
        assert(fields@.map_values(|f: Field<&'a SocketAddr>| f@) =~= fields_spec(
            fd,
            *local,
            *peer,
        )) by {
            assert forall|i: int| 0 <= i < before.len() implies before[i]@ == local_fields_spec(
                fd,
                *local,
            )[i] by {
                assert(before.map_values(|f: Field<&'a SocketAddr>| f@)[i] == before[i]@);
            }
        }
    }
    fields
}

impl UnixStream {
    /// Returns what is shown of the stream, given what came of asking for its addresses.
    pub fn debug_fields<'a>(
        &self,
        local: &'a Result<SocketAddr, Error>,
        peer: &'a Result<SocketAddr, Error>,
    ) -> (fields: Vec<Field<&'a SocketAddr>>)
        ensures
            fields@.map_values(|f: Field<&'a SocketAddr>| f@) == fields_spec(self@, *local, *peer),
    {
        all_fields(self.as_raw_fd(), local, peer)
    }
}

impl UnixListener {
    /// Returns what is shown of the listener, given what came of asking for its address.
    pub fn debug_fields<'a>(&self, local: &'a Result<SocketAddr, Error>) -> (fields: Vec<
        Field<&'a SocketAddr>,
    >)
        ensures
            fields@.map_values(|f: Field<&'a SocketAddr>| f@) == local_fields_spec(self@, *local),
    {
        local_fields(self.as_raw_fd(), local)
    }
}

impl UnixDatagram {
    /// Returns what is shown of the socket, given what came of asking for its addresses.
    pub fn debug_fields<'a>(
        &self,
        local: &'a Result<SocketAddr, Error>,
        peer: &'a Result<SocketAddr, Error>,
    ) -> (fields: Vec<Field<&'a SocketAddr>>)
        ensures
            fields@.map_values(|f: Field<&'a SocketAddr>| f@) == fields_spec(self@, *local, *peer),
    {
        all_fields(self.as_raw_fd(), local, peer)
    }
}

/// A field is shown under the name of what it is, and stands for what it holds.
pub proof fn law_field_is_what_it_holds<'a>(field: Field<&'a SocketAddr>)
    ensures
        field is Fd ==> field.spec_name() == "fd"@ && field@ == FieldSpec::Fd(field->Fd_0),
        field is Local ==> field.spec_name() == "local"@ && field@ == FieldSpec::Local(
            field->Local_0@,
        ),
        field is Peer ==> field.spec_name() == "peer"@ && field@ == FieldSpec::Peer(
            field->Peer_0@,
        ),
{
}

/// The descriptor comes first, then the local address, then that of the peer. Each address is there
/// if and only if it could be had, and nothing else is.
pub proof fn law_fields_that_are_shown(
    fd: i32,
    local: Result<SocketAddr, Error>,
    peer: Result<SocketAddr, Error>,
)
    ensures
        fields_spec(fd, local, peer)[0] == FieldSpec::Fd(fd),
        local is Ok && peer is Ok ==> fields_spec(fd, local, peer).len() == 3,
        local is Ok && peer is Err ==> fields_spec(fd, local, peer).len() == 2,
        local is Err && peer is Ok ==> fields_spec(fd, local, peer).len() == 2,
        local is Err && peer is Err ==> fields_spec(fd, local, peer).len() == 1,
        local is Ok ==> fields_spec(fd, local, peer)[1] == FieldSpec::Local(local->Ok_0@),
        peer is Ok ==> fields_spec(fd, local, peer).last() == FieldSpec::Peer(peer->Ok_0@),
        local_fields_spec(fd, local)[0] == FieldSpec::Fd(fd),
        local is Ok ==> local_fields_spec(fd, local).len() == 2,
        local is Ok ==> local_fields_spec(fd, local)[1] == FieldSpec::Local(local->Ok_0@),
        local is Err ==> local_fields_spec(fd, local).len() == 1,
{
}

} // verus!
