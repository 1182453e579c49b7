//! Control messages, which go with the data of a message.
use vstd::prelude::*;

verus! {

/// The credentials of a process.
#[derive(Debug, Clone, Copy, PartialEq, Eq, Structural)]
pub struct UCred {
    /// The process.
    pub pid: i32,
    /// Its user.
    pub uid: u32,
    /// Its group.
    pub gid: u32,
}

/// Ancillary data that goes with a message.
#[derive(Debug, PartialEq, Eq)]
pub enum ControlMsg {
    /// Open file descriptors.
    Rights(Vec<i32>),
    /// The credentials of the sender.
    Credentials(UCred),
}

/// A control message as a mathematical value.
#[verifier::ext_equal]
pub enum Control {
    /// Open file descriptors.
    Rights(Seq<i32>),
    /// The credentials of the sender.
    Credentials(UCred),
}

impl View for ControlMsg {
    type V = Control;

    open spec fn view(&self) -> Control {
        match *self {
            ControlMsg::Rights(fds) => Control::Rights(fds@),
            ControlMsg::Credentials(ucred) => Control::Credentials(ucred),
        }
    }
}

impl Clone for ControlMsg {
    fn clone(&self) -> (r: ControlMsg)
        ensures
            r@ == self@,
    {
        match self {
            ControlMsg::Rights(fds) => {
                let copied = fds.clone();
                proof {
                    assert(copied@ =~= fds@);
                }
                ControlMsg::Rights(copied)
            },
            ControlMsg::Credentials(ucred) => ControlMsg::Credentials(*ucred),
        }
    }
}

/// Control messages as mathematical values.
pub open spec fn controls(msgs: Seq<ControlMsg>) -> Seq<Control> {
    msgs.map_values(|msg: ControlMsg| msg@)
}

/// All descriptors that control messages hold, in order.
pub open spec fn rights(control: Seq<Control>) -> Seq<i32>
    decreases control.len(),
{
    if control.len() == 0 {
        seq![]
    } else {
        (match control.first() {
            Control::Rights(fds) => fds,
            Control::Credentials(_) => seq![],
        }) + rights(control.drop_first())
    }
}

/// The credentials that control messages hold: the last ones, if there are any.
pub open spec fn credentials(control: Seq<Control>) -> Option<UCred>
    decreases control.len(),
{
    if control.len() == 0 {
        None
    } else {
        match control.last() {
            Control::Rights(_) => credentials(control.drop_last()),
            Control::Credentials(ucred) => Some(ucred),
        }
    }
}

/// A control message stands for what it holds.
pub proof fn law_control_is_what_it_holds(msg: ControlMsg)
    ensures
        msg is Rights ==> msg@ == Control::Rights(msg->Rights_0@),
        msg is Credentials ==> msg@ == Control::Credentials(msg->Credentials_0),
{
}

/// Control messages are taken one by one, in order.
pub proof fn law_controls_in_order(msgs: Seq<ControlMsg>)
    ensures
        controls(msgs).len() == msgs.len(),
        forall|i: int| 0 <= i < msgs.len() ==> controls(msgs)[i] == msgs[i]@,
{
}

/// Descriptors come together in order, and the credentials that stand last are the ones that count.
pub proof fn law_control_adds_up(control: Seq<Control>, ucred: UCred, fds: Seq<i32>)
    ensures
        rights(Seq::<Control>::empty()).len() == 0,
        rights(seq![Control::Rights(fds)] + control) == fds + rights(control),
        rights(seq![Control::Credentials(ucred)] + control) == rights(control),
        credentials(Seq::<Control>::empty()) is None,
        credentials(control.push(Control::Credentials(ucred))) == Some(ucred),
        credentials(control.push(Control::Rights(fds))) == credentials(control),
{
    let r = seq![Control::Rights(fds)] + control;
    let c = seq![Control::Credentials(ucred)] + control;
    assert(r.drop_first() =~= control);
    assert(c.drop_first() =~= control);
    assert(rights(c) =~= rights(control));
    assert(control.push(Control::Rights(fds)).drop_last() =~= control);
}

} // verus!
