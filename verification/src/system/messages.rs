//! Laws on messages that are sent from and received into several buffers, with control messages.
use crate::control::{Control, UCred};
use crate::datagram::OutMessage;
use crate::system::{Datagram, Receipt, System};
use vstd::prelude::*;

verus! {

/// How many bytes buffers hold, all together.
pub open spec fn total_len(buffers: Seq<Seq<u8>>) -> int
    decreases buffers.len(),
{
    if buffers.len() == 0 {
        0
    } else {
        buffers.first().len() + total_len(buffers.drop_first())
    }
}

/// What buffers hold once data was written to them, each from its beginning on and as far as it
/// goes, and what is left to the next.
pub open spec fn filled(buffers: Seq<Seq<u8>>, data: Seq<u8>) -> Seq<Seq<u8>>
    decreases buffers.len(),
{
    if buffers.len() == 0 {
        seq![]
    } else {
        let n = crate::system::least(buffers.first().len() as int, data.len() as int);
        seq![data.take(n) + buffers.first().skip(n)] + filled(buffers.drop_first(), data.skip(n))
    }
}

/// The length of buffers joined in order.
proof fn lemma_joined_len(buffers: Seq<Seq<u8>>)
    ensures
        buffers.flatten().len() == total_len(buffers),
    decreases buffers.len(),
{
    if buffers.len() > 0 {
        lemma_joined_len(buffers.drop_first());
    }
}

/// Two messages with the same data, however it is spread over buffers, are the same message: the
/// same attempts to send them can be made, with the same effect.
pub proof fn law_sending_joins_buffers<F>(
    system: System,
    a: OutMessage<F>,
    b: OutMessage<F>,
    ret: int,
)
    requires
        a.fd == b.fd,
        a.dst == b.dst,
        a.control == b.control,
        a.data() == b.data(),
    ensures
        system.allows_sendmsg(a, ret) == system.allows_sendmsg(b, ret),
        system.message_of(a) == system.message_of(b),
        system.after_sendmsg(a, ret) == system.after_sendmsg(b, ret),
{
}

/// To send a message from several buffers acts as if they had been concatenated in the order they
/// were given: where it works, it returns the length of all of them, and one message with their
/// contents in order arrives where it was sent to.
pub proof fn law_sending_acts_as_concatenated<F>(system: System, msg: OutMessage<F>, ret: int)
    requires
        system.wf(),
        system.allows_sendmsg(msg, ret),
        ret >= 0,
    ensures
        ({
            let joined = msg.buffers.flatten();
            let single = OutMessage { buffers: seq![joined], ..msg };
            let to = system.destination(msg)->0;
            let t = system.after_sendmsg(msg, ret);
            &&& system.allows_sendmsg(single, ret)
            &&& t == system.after_sendmsg(single, ret)
            &&& ret == total_len(msg.buffers)
            &&& system.is_socket(to)
            &&& t.sockets[to].messages == system.sockets[to].messages.push(system.message_of(msg))
            &&& system.message_of(msg).data == joined
            &&& t.wf()
        }),
{
    let single = OutMessage { buffers: seq![msg.buffers.flatten()], ..msg };
    single.buffers.lemma_flatten_one_element();
    law_sending_joins_buffers(system, msg, single, ret);
    lemma_joined_len(msg.buffers);
    let to = system.destination(msg)->0;
    assert(system.is_open(msg.fd));
    assert(system.refers_to_sockets(system.at(msg.fd)));
    let message = system.message_of(msg);
    let fds = crate::control::rights(msg.control);
    assert forall|j: int| 0 <= j < message.files.len() implies system.is_socket(
        #[trigger] message.files[j],
    ) by {
        assert(system.is_open(fds[j]));
    }
    crate::system::lemma_delivered(system, to, message);
}

/// A socket that hears its peer alone goes on to do so, whatever messages are sent.
pub proof fn law_peer_stays_only_sender_of_messages<F>(
    system: System,
    socket: int,
    msg: OutMessage<F>,
    ret: int,
)
    requires
        system.wf(),
        crate::system::delivery::hears_only_peer(system, socket),
        system.allows_sendmsg(msg, ret),
    ensures
        crate::system::delivery::hears_only_peer(system.after_sendmsg(msg, ret), socket),
        system.after_sendmsg(msg, ret).sockets[socket].peer == system.sockets[socket].peer,
{
}

/// Buffers that data was written to hold, joined in order, the data and behind it what they held
/// before. Each is as long as before.
pub proof fn law_filled_buffers_hold_data(buffers: Seq<Seq<u8>>, data: Seq<u8>)
    requires
        data.len() <= total_len(buffers),
    ensures
        filled(buffers, data).flatten() == data + buffers.flatten().skip(data.len() as int),
        filled(buffers, data).len() == buffers.len(),
        forall|i: int|
            0 <= i < buffers.len() ==> (#[trigger] filled(buffers, data)[i]).len()
                == buffers[i].len(),
    decreases buffers.len(),
{
    lemma_joined_len(buffers);
    if buffers.len() > 0 {
        let first = buffers.first();
        let rest = buffers.drop_first();
        let n = crate::system::least(first.len() as int, data.len() as int);
        let left = data.skip(n);
        law_filled_buffers_hold_data(rest, left);
        lemma_joined_len(rest);
        let head = data.take(n) + first.skip(n);
        let t = filled(buffers, data);
        assert(t == seq![head] + filled(rest, left));
        assert(t.drop_first() =~= filled(rest, left));
        assert(t.flatten() == head + filled(rest, left).flatten());
        assert(buffers.flatten() == first + rest.flatten());
        assert(t.flatten() =~= data + buffers.flatten().skip(data.len() as int));
        assert forall|i: int| 0 <= i < buffers.len() implies (#[trigger] t[i]).len()
            == buffers[i].len() by {
            if i > 0 {
                assert(t[i] == filled(rest, left)[i - 1]);
                assert(rest[i - 1] == buffers[i]);
            }
        }
    } else {
        assert(data =~= seq![]);
        assert(filled(buffers, data).flatten() =~= data + buffers.flatten().skip(0));
    }
}

/// To receive a message into several buffers acts as if they had been concatenated in the order they
/// were given: the same attempts can be made, they report the same count, and the buffers, joined in
/// order, hold the same bytes. The first of these are those of the message.
pub proof fn law_receiving_acts_as_concatenated(
    system: System,
    fd: i32,
    buffers: Seq<Seq<u8>>,
    receipt: Receipt,
)
    requires
        system.allows_recvmsg(fd, total_len(buffers), receipt),
        receipt.count >= 0,
    ensures
        ({
            let single = seq![buffers.flatten()];
            let message = system.at(fd).messages[0];
            let data = message.data.take(receipt.count);
            &&& system.allows_recvmsg(fd, total_len(single), receipt)
            &&& receipt.count == crate::system::least(
                total_len(buffers),
                message.data.len() as int,
            )
            &&& filled(buffers, data).flatten() == filled(single, data)[0]
            &&& filled(buffers, data).flatten().take(receipt.count) == data
            &&& filled(buffers, data).flatten().skip(receipt.count) == buffers.flatten().skip(
                receipt.count,
            )
        }),
{
    let single = seq![buffers.flatten()];
    let data = system.at(fd).messages[0].data.take(receipt.count);
    lemma_joined_len(buffers);
    lemma_joined_len(single);
    single.lemma_flatten_one_element();
    law_filled_buffers_hold_data(buffers, data);
    law_filled_buffers_hold_data(single, data);
    filled(single, data).lemma_flatten_one_element();
    let all = data + buffers.flatten().skip(receipt.count);
    assert(all.take(receipt.count) =~= data);
    assert(all.skip(receipt.count) =~= buffers.flatten().skip(receipt.count));
}

/// The message was sent with these credentials, or without any, and with no descriptors.
pub open spec fn holds_only_credentials(message: Datagram, ucred: Option<UCred>) -> bool {
    message.credentials == ucred && message.files.len() == 0
}

/// Credentials come with a message if and only if they were asked for last. Where they were not, they
/// are dropped without an error and nothing comes in their place. Where they were, they are the one
/// control message that comes, and are those that were sent if any were. Nothing is lost.
pub proof fn law_credentials_come_when_asked_for(
    system: System,
    fd: i32,
    receive_creds: bool,
    room: int,
    receipt: Receipt,
    ucred: Option<UCred>,
)
    requires
        system.wf(),
        system.is_open(fd),
        system.at(fd).messages.len() > 0,
        holds_only_credentials(system.at(fd).messages[0], ucred),
        receipt.count >= 0,
        system.after(
            crate::inner::passcred_call(system.platform, fd, receive_creds),
            0,
        ).allows_recvmsg(fd, room, receipt),
    ensures
        !receipt.control_lost,
        receipt.control.len() == if receive_creds {
            1int
        } else {
            0int
        },
        receive_creds ==> receipt.control[0] is Credentials,
        receive_creds && ucred is Some ==> receipt.control[0] == Control::Credentials(ucred->0),
{
    assert(receipt.fds =~= seq![]);
}

/// Credentials do not come with a message where nobody ever asked for them.
pub proof fn law_credentials_do_not_come_unasked(
    system: System,
    fd: i32,
    room: int,
    receipt: Receipt,
    ucred: Option<UCred>,
)
    requires
        system.wf(),
        system.is_open(fd),
        !system.at(fd).flags.dom().contains(
            (system.platform.sol_socket, system.platform.so_passcred),
        ),
        system.at(fd).messages.len() > 0,
        holds_only_credentials(system.at(fd).messages[0], ucred),
        receipt.count >= 0,
        system.allows_recvmsg(fd, room, receipt),
    ensures
        !receipt.control_lost,
        receipt.control.len() == 0,
{
    assert(receipt.fds =~= seq![]);
}

/// A message that is sent with credentials, or without, through a pair of datagram sockets comes out
/// at the other end: its data in full where there is room, and its credentials if and only if they
/// were asked for there.
pub proof fn law_pair_carries_credentials<F>(
    system: System,
    ret: int,
    fds: (i32, i32),
    receive_creds: Option<bool>,
    msg: OutMessage<F>,
    sent: int,
    room: int,
    receipt: Receipt,
)
    requires
        system.wf(),
        system.allows_pair(ret, fds),
        ret >= 0,
        msg.fd == fds.1,
        msg.dst is None,
        crate::control::rights(msg.control).len() == 0,
        sent >= 0,
        receipt.count >= 0,
        msg.data().len() <= room,
        ({
            let paired = system.after_pair(system.platform.sock_dgram, ret, fds);
            let asked = match receive_creds {
                Some(on) => paired.after(
                    crate::inner::passcred_call(system.platform, fds.0, on),
                    0,
                ),
                None => paired,
            };
            &&& asked.allows_sendmsg(msg, sent)
            &&& asked.after_sendmsg(msg, sent).allows_recvmsg(fds.0, room, receipt)
        }),
    ensures
        sent == msg.data().len(),
        receipt.count == sent,
        !receipt.control_lost,
        receipt.control.len() == if receive_creds == Some(true) {
            1int
        } else {
            0int
        },
        receive_creds == Some(true) ==> receipt.control[0] is Credentials,
        receive_creds == Some(true) && crate::control::credentials(msg.control) is Some
            ==> receipt.control[0] == Control::Credentials(
            crate::control::credentials(msg.control)->0,
        ),
{
    let paired = system.after_pair(system.platform.sock_dgram, ret, fds);
    crate::system::delivery::law_pair_is_connected(system, system.platform.sock_dgram, ret, fds);
    let asked = match receive_creds {
        Some(on) => paired.after(crate::inner::passcred_call(system.platform, fds.0, on), 0),
        None => paired,
    };
    let t = asked.after_sendmsg(msg, sent);
    assert(t.at(fds.0).messages[0] == asked.message_of(msg));
    assert(receipt.fds =~= seq![]);
}

/// Descriptors once others were installed: each new one refers to its socket, and the others are as
/// before.
proof fn lemma_installed(descriptors: Map<i32, int>, fds: Seq<i32>, files: Seq<int>)
    requires
        fds.no_duplicates(),
        fds.len() <= files.len(),
    ensures
        ({
            let t = crate::system::installed(descriptors, fds, files);
            &&& forall|i: int|
                0 <= i < fds.len() ==> t.dom().contains(#[trigger] fds[i]) && t[fds[i]] == files[i]
            &&& forall|fd: i32| !fds.contains(fd) ==> #[trigger] t.dom().contains(fd)
                == descriptors.dom().contains(fd)
            &&& forall|fd: i32| !fds.contains(fd) ==> #[trigger] t[fd] == descriptors[fd]
        }),
    decreases fds.len(),
{
    if fds.len() > 0 {
        let rest = fds.drop_last();
        lemma_installed(descriptors, rest, files);
        let before = crate::system::installed(descriptors, rest, files);
        let t = crate::system::installed(descriptors, fds, files);
        assert forall|i: int| 0 <= i < fds.len() implies t.dom().contains(#[trigger] fds[i])
            && t[fds[i]] == files[i] by {
            if i < rest.len() {
                assert(rest[i] == fds[i]);
                assert(fds[i] != fds[fds.len() - 1]);
            }
        }
        assert forall|fd: i32| !fds.contains(fd) implies !rest.contains(fd) && fd != fds.last() by {
            if rest.contains(fd) {
                let i = choose|i: int| 0 <= i < rest.len() && rest[i] == fd;
                assert(fds[i] == fd);
            }
        }
    }
}

/// Descriptors that are sent with a message come out as new descriptors, in the same order, for the
/// same sockets. Every descriptor that was open stays what it was, and the message is gone from where
/// it waited.
pub proof fn law_descriptors_come_with_message(
    system: System,
    fd: i32,
    room: int,
    receipt: Receipt,
)
    requires
        system.wf(),
        system.allows_recvmsg(fd, room, receipt),
        receipt.count >= 0,
        !receipt.control_lost,
    ensures
        ({
            let t = system.after_recvmsg(fd, receipt);
            let files = system.at(fd).messages[0].files;
            &&& receipt.fds.len() == files.len()
            &&& forall|i: int|
                0 <= i < files.len() ==> !system.is_open(#[trigger] receipt.fds[i]) && t.is_open(
                    receipt.fds[i],
                ) && t.descriptors[receipt.fds[i]] == files[i]
            &&& forall|other: i32| #[trigger]
                system.is_open(other) ==> t.is_open(other) && t.descriptors[other]
                    == system.descriptors[other]
            &&& files.len() > 0 ==> receipt.control.contains(Control::Rights(receipt.fds))
            &&& t.at(fd).messages == system.at(fd).messages.drop_first()
            &&& t.wf()
        }),
{
    let t = system.after_recvmsg(fd, receipt);
    let files = system.at(fd).messages[0].files;
    lemma_installed(system.descriptors, receipt.fds, files);
    assert forall|i: int| 0 <= i < files.len() implies !system.is_open(#[trigger] receipt.fds[i]) by {
        assert(system.is_free(receipt.fds[i] as int));
    }
    assert forall|other: i32| #[trigger] system.is_open(other) implies !receipt.fds.contains(
        other,
    ) by {
        if receipt.fds.contains(other) {
            let i = choose|i: int| 0 <= i < receipt.fds.len() && receipt.fds[i] == other;
            assert(!system.is_open(receipt.fds[i]));
        }
    }
    if files.len() > 0 {
        let rights = Control::Rights(receipt.fds);
        assert(receipt.rights_part()[0] == rights);
        let k = if receipt.control[0] == rights {
            0int
        } else {
            1int
        };
        assert(receipt.control[k] == rights);
    }
    let shorter = system.without_first_message(fd);
    crate::system::lemma_received(system, fd);
    assert(system.refers_to_sockets(system.at(fd)));
    assert forall|other: i32| #[trigger] t.is_open(other) implies t.is_socket(
        t.descriptors[other],
    ) by {
        if receipt.fds.contains(other) {
            let i = choose|i: int| 0 <= i < receipt.fds.len() && receipt.fds[i] == other;
            assert(t.descriptors[receipt.fds[i]] == files[i]);
            assert(system.is_socket(system.at(fd).messages[0].files[i]));
        } else {
            assert(system.is_open(other));
        }
    }
    assert forall|s: int| t.is_socket(s) implies t.refers_to_sockets(#[trigger] t.sockets[s]) by {
        assert(shorter.refers_to_sockets(shorter.sockets[s]));
        crate::system::lemma_references(shorter, t, shorter.sockets[s]);
    }
}

} // verus!
