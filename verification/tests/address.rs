//! Addresses: how they are made, taken, read and shown.
use unix_socket::{
    ascii_escaped, same_path, sockaddr_un, sun_path_offset, AddressKind, Error, Layout, Platform, RawAddr,
    SocketAddr, UnixDatagram,
};

fn linux() -> Layout {
    Platform::host(true).layout
}

fn elsewhere() -> Layout {
    Layout { af_unix: 1, path_offset: 2, path_len: 104, abstract_names: false }
}

fn taken(layout: &Layout, family: u16, path: &[u8], len: u32) -> Result<SocketAddr, Error> {
    let mut field = path.to_vec();
    field.resize(layout.path_len, 0);
    SocketAddr::new(layout, 0, 0, RawAddr { family, path: field, len })
}

#[test]
fn constants_are_those_of_libc() {
    let p = Platform::host(true);
    assert_eq!(p.layout.af_unix as i32, libc::AF_UNIX);
    assert_eq!((p.sock_stream, p.sock_dgram), (libc::SOCK_STREAM, libc::SOCK_DGRAM));
    assert_eq!((p.shut_rd, p.shut_wr, p.shut_rdwr), (libc::SHUT_RD, libc::SHUT_WR, libc::SHUT_RDWR));
    assert_eq!(p.sol_socket, libc::SOL_SOCKET);
    assert_eq!((p.so_rcvtimeo, p.so_sndtimeo), (libc::SO_RCVTIMEO, libc::SO_SNDTIMEO));
    assert_eq!(p.so_passcred, libc::SO_PASSCRED);
    assert_eq!(p.time_max, libc::time_t::MAX as i64);
    assert!(p.layout.abstract_names);
    assert!(!Platform::host(false).layout.abstract_names);
}

#[test]
fn layout_is_that_of_libc() {
    let layout = linux();
    let addr = libc::sockaddr_un { sun_family: 0, sun_path: [0; 108] };
    let base = std::ptr::from_ref(&addr).addr();
    assert_eq!(std::ptr::from_ref(&addr.sun_path).addr() - base, sun_path_offset());
    assert_eq!(layout.path_offset as usize, sun_path_offset());
    assert_eq!(layout.path_len, 108);
    assert_eq!(layout.address_size() as usize, std::mem::size_of::<libc::sockaddr_un>());
}

#[test]
fn pathname_is_followed_by_a_null_byte() {
    let addr = sockaddr_un(&linux(), b"/tmp/sock").unwrap();
    assert_eq!(addr.family(), 1);
    assert_eq!(addr.len(), 2 + 9 + 1);
    assert_eq!(addr.sun_path().len(), 108);
    assert_eq!(&addr.sun_path()[..10], b"/tmp/sock\0");
    assert!(addr.sun_path()[9..].iter().all(|b| *b == 0));
    assert!(addr.is_readable());
    assert_eq!(addr.address(), AddressKind::Pathname(b"/tmp/sock"));
}

#[test]
fn abstract_name_is_not_followed_by_a_null_byte() {
    let addr = sockaddr_un(&linux(), b"\0the path").unwrap();
    assert_eq!(addr.len(), 2 + 9);
    assert_eq!(&addr.sun_path()[..10], b"\0the path\0");
    assert_eq!(addr.address(), AddressKind::Abstract(b"the path"));
    let addr = sockaddr_un(&linux(), b"\0").unwrap();
    assert_eq!(addr.len(), 3);
    assert_eq!(addr.address(), AddressKind::Abstract(b""));
    let addr = sockaddr_un(&linux(), b"\0a\0b").unwrap();
    assert_eq!(addr.address(), AddressKind::Abstract(b"a\0b"));
}

#[test]
fn empty_path_is_unnamed() {
    let addr = sockaddr_un(&linux(), b"").unwrap();
    assert_eq!(addr.len(), 2);
    assert_eq!(addr.address(), AddressKind::Unnamed);
}

#[test]
fn without_abstract_names_a_null_byte_means_unnamed() {
    let addr = sockaddr_un(&elsewhere(), b"\0the path").unwrap();
    assert_eq!(addr.len(), 2 + 9);
    assert_eq!(addr.address(), AddressKind::Unnamed);
    let addr = taken(&elsewhere(), 1, b"", 16).unwrap();
    assert_eq!(addr.address(), AddressKind::Unnamed);
    let addr = sockaddr_un(&elsewhere(), &[b'a'; 103]).unwrap();
    assert_eq!(addr.address(), AddressKind::Pathname(&[b'a'; 103]));
    assert_eq!(sockaddr_un(&elsewhere(), &[b'a'; 104]).err(), Some(Error::PathTooLong));
}

#[test]
fn longest_paths() {
    let layout = linux();
    let addr = sockaddr_un(&layout, &[b'a'; 107]).unwrap();
    assert_eq!(addr.len(), 2 + 108);
    assert_eq!(addr.address(), AddressKind::Pathname(&[b'a'; 107]));
    let mut name = [b'a'; 107];
    name[0] = 0;
    let addr = sockaddr_un(&layout, &name).unwrap();
    assert_eq!(addr.len(), 2 + 107);
    assert_eq!(addr.address(), AddressKind::Abstract(&[b'a'; 106]));
}

#[test]
fn paths_that_are_too_long() {
    let layout = linux();
    assert_eq!(sockaddr_un(&layout, &[b'a'; 108]).err(), Some(Error::PathTooLong));
    assert_eq!(sockaddr_un(&layout, &[b'a'; 109]).err(), Some(Error::PathTooLong));
    assert_eq!(sockaddr_un(&layout, &[0; 109]).err(), Some(Error::AbstractPathTooLong));
}

#[test]
fn abstract_path_may_fill_the_field() {
    let layout = linux();
    let mut path = vec![b'a'; 108];
    path[0] = 0;
    let addr = sockaddr_un(&layout, &path).unwrap();
    assert_eq!(addr.sun_path(), &path[..]);
    assert_eq!(addr.len(), 110);
    assert!(addr.is_readable());
    assert_eq!(addr.address(), AddressKind::Abstract(&[b'a'; 107]));

    let addr = sockaddr_un(&layout, &[0; 108]).unwrap();
    assert_eq!(addr.address(), AddressKind::Abstract(&[0; 107]));

    path.push(b'a');
    assert_eq!(sockaddr_un(&layout, &path).err(), Some(Error::AbstractPathTooLong));
}

#[test]
fn every_path_is_given_back() {
    let layout = linux();
    for n in 0..=108 {
        for first in [0u8, 1, b'/', 255] {
            if n == 108 && first != 0 {
                continue;
            }
            let mut path: Vec<u8> = (0..n).map(|i| (i * 7 % 251) as u8).collect();
            if n > 0 {
                path[0] = first;
            }
            let addr = sockaddr_un(&layout, &path).unwrap();
            let kind = match path.first() {
                None => AddressKind::Unnamed,
                Some(0) => AddressKind::Abstract(&path[1..]),
                Some(_) => AddressKind::Pathname(&path),
            };
            assert_eq!(addr.address(), kind);
            if let AddressKind::Pathname(given) = addr.address() {
                assert_eq!(given, &path[..]);
            }
            let back = taken(&layout, addr.family(), addr.sun_path(), addr.len()).unwrap();
            assert_eq!(back.address(), kind);
        }
    }
}

#[test]
fn different_paths_have_different_addresses() {
    let layout = linux();
    let paths: [&[u8]; 6] = [b"", b"\0", b"\0\0", b"a", b"a\0", b"\0a"];
    for (i, a) in paths.iter().enumerate() {
        for (j, b) in paths.iter().enumerate() {
            let (x, y) = (sockaddr_un(&layout, a).unwrap(), sockaddr_un(&layout, b).unwrap());
            let same = x.sun_path() == y.sun_path() && x.len() == y.len();
            assert_eq!(same, i == j);
        }
    }
}

#[test]
fn taking_an_address() {
    let layout = linux();
    assert_eq!(taken(&layout, 1, b"", 2).unwrap().address(), AddressKind::Unnamed);
    assert_eq!(taken(&layout, 0, b"", 0).unwrap().address(), AddressKind::Unnamed);
    assert_eq!(taken(&layout, 0, b"", 0).unwrap().len(), 2);
    assert_eq!(taken(&layout, 2, b"", 16).err(), Some(Error::NotUnixSocket));
    let raw = RawAddr { family: 1, path: vec![0; 108], len: 2 };
    assert_eq!(SocketAddr::new(&layout, -1, 9, raw).err(), Some(Error::Os(9)));
}

#[test]
fn addresses_that_cannot_be_read() {
    let layout = linux();
    assert!(!taken(&layout, 1, b"a", 1).unwrap().is_readable());
    assert!(taken(&layout, 1, &[b'a'; 108], 111).unwrap().is_readable());
    assert!(!taken(&layout, 1, &[b'a'; 108], 112).unwrap().is_readable());
    assert!(taken(&layout, 1, b"\0a", 110).unwrap().is_readable());
    assert!(!taken(&layout, 1, b"\0a", 111).unwrap().is_readable());
    let full = taken(&layout, 1, &[b'a'; 108], 111).unwrap();
    assert_eq!(full.address(), AddressKind::Pathname(&[b'a'; 108]));
    let raw = RawAddr { family: 1, path: vec![0; 5], len: 2 };
    assert!(!SocketAddr::new(&layout, 0, 0, raw).unwrap().is_readable());
}

#[test]
fn clone_is_the_same_address() {
    let addr = sockaddr_un(&linux(), b"\0name").unwrap();
    let clone = addr.clone();
    assert_eq!(clone.address(), addr.address());
    assert_eq!((clone.family(), clone.len()), (addr.family(), addr.len()));
    assert_eq!(clone.sun_path(), addr.sun_path());
}

#[test]
fn senders_of_datagrams() {
    let layout = linux();
    let raw = || {
        let addr = sockaddr_un(&linux(), b"/s").unwrap();
        RawAddr { family: addr.family(), path: addr.sun_path().to_vec(), len: addr.len() }
    };
    let (count, addr) = UnixDatagram::received_from(&layout, 11, 0, raw()).unwrap();
    assert_eq!((count, addr.address()), (11, AddressKind::Pathname(b"/s")));
    let (count, _) = UnixDatagram::received_from(&layout, 0, 0, raw()).unwrap();
    assert_eq!(count, 0);
    let failed = UnixDatagram::received_from(&layout, -1, 4, raw());
    assert_eq!(failed.err(), Some(Error::Os(4)));
    let other = RawAddr { family: 2, ..raw() };
    let failed = UnixDatagram::received_from(&layout, 11, 0, other);
    assert_eq!(failed.err(), Some(Error::NotUnixSocket));
}

#[test]
fn text_of_addresses() {
    let layout = linux();
    let text = |path: &[u8], shown: &str| sockaddr_un(&layout, path).unwrap().debug_text(shown);
    assert_eq!(text(b"", "?"), "(unnamed)");
    assert_eq!(text(b"\0the path", "?"), "\"the path\" (abstract)");
    assert_eq!(text(b"\0\"\x01\xff", "?"), "\"\\\"\\x01\\xff\" (abstract)");
    assert_eq!(text(b"/tmp/sock", "\"/tmp/sock\""), "\"/tmp/sock\" (pathname)");
}

#[test]
fn different_abstract_names_have_different_texts() {
    let layout = linux();
    let text = |path: &[u8]| sockaddr_un(&layout, path).unwrap().debug_text("");
    assert!(text(b"\0\n") != text(b"\0\\n"));
    assert!(text(b"\0\x01") != text(b"\0\\x01"));
}

#[test]
fn escapes_are_those_of_std() {
    let all: Vec<u8> = (0..=255).collect();
    let mut expected = String::from("\"");
    for b in all.iter().flat_map(|b| std::ascii::escape_default(*b)) {
        expected.push(b as char);
    }
    expected.push('"');
    assert_eq!(ascii_escaped(&all), expected);
    assert_eq!(ascii_escaped(b""), "\"\"");
    assert_eq!(ascii_escaped(b"\t\r\n'\"\\ ~\x7f"), "\"\\t\\r\\n\\'\\\"\\\\ ~\\x7f\"");
    assert!(ascii_escaped(&all).bytes().all(|b| (0x20..0x7f).contains(&b)));
}

#[test]
fn paths_are_compared_as_paths() {
    let same: [&[u8]; 7] = [b"a/b", b"a//b", b"a/./b", b"a/b/", b"a/b/.", b"a/././/b", b"a/b//./"];
    for a in same {
        for b in same {
            assert!(same_path(a, b));
            assert_eq!(AddressKind::Pathname(a), AddressKind::Pathname(b));
        }
    }
    let groups: [&[&[u8]]; 9] = [
        &[b"a/b", b"a/b/"],
        &[b"/a/b", b"//a/b", b"/./a/b"],
        &[b"./a/b", b"././a//b"],
        &[b"a/../b"],
        &[b"b/a"],
        &[b"ab"],
        &[b".", b"./", b"./."],
        &[b"/", b"//", b"/."],
        &[b""],
    ];
    for (i, group) in groups.iter().enumerate() {
        for (j, other) in groups.iter().enumerate() {
            for a in *group {
                for b in *other {
                    assert_eq!(same_path(a, b), i == j);
                    assert_eq!(AddressKind::Pathname(a) == AddressKind::Pathname(b), i == j);
                    let (p, q) = (std::str::from_utf8(a).unwrap(), std::str::from_utf8(b).unwrap());
                    assert_eq!(std::path::Path::new(p) == std::path::Path::new(q), i == j);
                }
            }
        }
    }
}

#[test]
fn kinds_are_compared() {
    assert_eq!(AddressKind::Abstract(b"a"), AddressKind::Abstract(b"a"));
    assert_ne!(AddressKind::Abstract(b"a//b"), AddressKind::Abstract(b"a/b"));
    assert_ne!(AddressKind::Abstract(b"a"), AddressKind::Pathname(b"a"));
    assert_ne!(AddressKind::Unnamed, AddressKind::Abstract(b""));
    assert_ne!(AddressKind::Pathname(b""), AddressKind::Unnamed);
    assert_eq!(AddressKind::Unnamed, AddressKind::Unnamed);
}

#[test]
fn blank_address() {
    let blank = RawAddr::blank(&linux());
    assert_eq!((blank.family, blank.path, blank.len), (0, vec![0; 108], 110));
    let blank = RawAddr::blank(&elsewhere());
    assert_eq!((blank.family, blank.path, blank.len), (0, vec![0; 104], 106));
}
