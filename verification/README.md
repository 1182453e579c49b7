# unix_socket

Support for Unix domain socket clients and servers, in two layers.

`src/` is verified with Verus. It makes no system call. It says for every operation on a stream, a
listener or a datagram socket which system call to make and with which arguments, and what is to be
made of what the call returned:

- `platform`: the constants of the operating system, and the layout of addresses
- `address`: how a path becomes an address, and what an address names
- `path`: when two paths are the same path
- `timeout`: durations, and the form in which the operating system holds timeouts
- `escape`: bytes as printable text
- `request`, `reply`, `error`: system calls, what they return, and how they fail
- `opening`: sockets that take several calls to open, and that are closed again when a call fails
- `inner`, `stream`, `listener`, `datagram`: the sockets
- `control`: control messages, which go with data
- `debug`: what is shown of a socket
- `system`: what the calls come to on a system whose descriptors are handles to sockets

The functions whose names begin with `law_` state what holds across operations: an address gives
back the path it was made for, a timeout reads back as it was set, a handle and its clone share one
socket, data goes to the peer that was set last, several buffers act as if they were one, no socket
is lost while it is being opened.

`app/` is ordinary Rust. It makes the calls through `libc`, closes sockets that go out of scope, and
gives them the traits of the standard library.

`tests/` runs the verified layer, in part on an operating system that is kept in memory.
