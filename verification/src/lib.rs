//! Clients and servers on Unix domain sockets, without the system calls.
//!
//! Every operation says which system call to make and with which arguments, as a [`Request`], and
//! what the reply to it stands for. Operations that take several calls are [`Opening`]s, which go
//! from one call to the next. Whoever makes the calls decides nothing.
pub mod address;
pub mod control;
pub mod datagram;
pub mod debug;
pub mod error;
pub mod escape;
pub mod inner;
pub mod listener;
pub mod opening;
pub mod path;
pub mod platform;
pub mod reply;
pub mod request;
pub mod stream;
pub mod system;
pub mod timeout;

pub use crate::address::{sockaddr_un, AddressKind, RawAddr, SocketAddr};
pub use crate::control::{ControlMsg, UCred};
pub use crate::datagram::{
    Message, RecvMsg, RecvMsgResult, SendMsg, UnixDatagram, CMSG_BUFFER_SIZE,
};
pub use crate::debug::Field;
pub use crate::error::{cvt, cvt_s, Error, ErrorKind};
pub use crate::escape::ascii_escaped;
pub use crate::inner::Shutdown;
pub use crate::listener::{Incoming, UnixListener};
pub use crate::opening::{Opening, OpeningStep, Purpose, Stage, Step, BACKLOG};
pub use crate::path::same_path;
pub use crate::platform::{sun_path_offset, Layout, Platform};
pub use crate::reply::{completed, timeout_read, transferred, Reply};
pub use crate::request::{calc_len, Call, Request};
pub use crate::stream::UnixStream;
pub use crate::timeout::{from_timeval, to_timeval, Duration, Timeval};
