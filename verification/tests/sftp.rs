use stellar_daemon::bytes::{contains, ends_with, starts_with};
use stellar_daemon::path::{normalize, normalize_components, within, SafePath};
use stellar_daemon::sftp::handler::{
    denial_reply, escape_reply, failure_reply, failure_status, file_error_reply, invalid_handle_reply, ok_reply,
    read_reply, readlink_reply, realpath, realpath_reply, attrs_reply, Denial, IoFailure, IoOp, OpenOptions, Permissions, Plan,
    SftpFileHandler,
};
use stellar_daemon::sftp::handles::{decimal_digits, make_token, OpenFlags};
use stellar_daemon::sftp::request::{decode_packet, Decoded, HandleOp, PathOp, Request};
use stellar_daemon::sftp::wire::{
    build_attrs, build_data, build_handle, build_name, build_response, build_status, read_bytes, read_string, read_u32,
    read_u64, FileAttributes, NameEntry,
};

fn string_field(s: &[u8]) -> Vec<u8> {
    let mut v = (s.len() as u32).to_be_bytes().to_vec();
    v.extend_from_slice(s);
    v
}

fn frame(body: &[u8]) -> Vec<u8> {
    let mut v = (body.len() as u32).to_be_bytes().to_vec();
    v.extend_from_slice(body);
    v
}

fn status_bytes(id: u32, code: u32, msg: &str) -> Vec<u8> {
    let mut payload = id.to_be_bytes().to_vec();
    payload.extend_from_slice(&code.to_be_bytes());
    payload.extend_from_slice(&string_field(msg.as_bytes()));
    payload.extend_from_slice(&0u32.to_be_bytes());
    let mut body = vec![101u8];
    body.extend_from_slice(&payload);
    frame(&body)
}

fn all_permissions() -> Permissions {
    Permissions { read: true, write: true, delete: true, create_dir: true }
}

#[test]
fn realpath_collapses_dots() {
    assert_eq!(realpath(b"/mods/../././config"), b"/config".to_vec());
    assert_eq!(realpath(b""), b"/".to_vec());
    assert_eq!(realpath(b"."), b"/".to_vec());
    assert_eq!(realpath(b"/"), b"/".to_vec());
    assert_eq!(realpath(b"../../etc/passwd"), b"/etc/passwd".to_vec());
    assert_eq!(realpath(b"a//b/"), b"/a/b".to_vec());
    assert_eq!(realpath(b"/a/b/../../.."), b"/".to_vec());
    assert_eq!(realpath(b"...//x"), b"/.../x".to_vec());
}

#[test]
fn realpath_reply_names_the_normalised_path() {
    let reply = realpath_reply(7, b"/mods/../././config", FileAttributes::default());
    let mut payload = 7u32.to_be_bytes().to_vec();
    payload.extend_from_slice(&1u32.to_be_bytes());
    payload.extend_from_slice(&string_field(b"/config"));
    payload.extend_from_slice(&string_field(b"/config"));
    payload.extend_from_slice(&0u32.to_be_bytes());
    let mut body = vec![104u8];
    body.extend_from_slice(&payload);
    assert_eq!(reply, frame(&body));
    assert_eq!(readlink_reply(7, b"/config".to_vec()), frame(&body));
}

#[test]
fn readers_advance_the_offset() {
    let data = [0u8, 0, 1, 2, 0, 0, 0, 3, b'a', b'b', b'c', 0xff];
    let mut offset = 0usize;
    assert_eq!(read_u32(&data, &mut offset), Some(258));
    assert_eq!(offset, 4);
    assert_eq!(read_string(&data, &mut offset), Some(&b"abc"[..]));
    assert_eq!(offset, 11);
    assert_eq!(read_u32(&data, &mut offset), None);
    assert_eq!(offset, 11);
    let mut offset = 4usize;
    assert_eq!(read_bytes(&data, &mut offset), Some(&b"abc"[..]));
    let mut offset = 0usize;
    assert_eq!(read_u64(&data, &mut offset), Some((258u64 << 32) + 3));
    assert_eq!(offset, 8);
    let mut offset = 5usize;
    assert_eq!(read_u64(&data, &mut offset), None);
    assert_eq!(offset, 5);
    let mut offset = usize::MAX;
    assert_eq!(read_u32(&data, &mut offset), None);
}

#[test]
fn read_string_rejects_short_and_malformed_text() {
    let short = [0u8, 0, 0, 5, b'a'];
    let mut offset = 0usize;
    assert_eq!(read_string(&short, &mut offset), None);
    assert_eq!(offset, 4);
    let bad = [0u8, 0, 0, 2, 0xc3, 0x28];
    let mut offset = 0usize;
    assert_eq!(read_string(&bad, &mut offset), None);
    assert_eq!(offset, 4);
    let mut offset = 0usize;
    assert_eq!(read_bytes(&bad, &mut offset), Some(&[0xc3u8, 0x28][..]));
    assert_eq!(offset, 6);
}

#[test]
fn responses_are_framed() {
    assert_eq!(build_response(2, &[0, 0, 0, 3]), vec![0, 0, 0, 5, 2, 0, 0, 0, 3]);
    assert_eq!(build_status(1, 0, b"OK"), status_bytes(1, 0, "OK"));
    assert_eq!(build_handle(9, b"h1"), vec![0, 0, 0, 11, 102, 0, 0, 0, 9, 0, 0, 0, 2, b'h', b'1']);
    assert_eq!(build_data(9, b"xy"), vec![0, 0, 0, 11, 103, 0, 0, 0, 9, 0, 0, 0, 2, b'x', b'y']);
    assert_eq!(SftpFileHandler::version_reply(), vec![0, 0, 0, 5, 2, 0, 0, 0, 3]);
}

#[test]
fn attributes_are_written_in_flag_order() {
    let attrs = FileAttributes {
        size: Some(0x0102),
        uid: Some(1000),
        gid: Some(1001),
        permissions: Some(0o644),
        atime: Some(5),
        mtime: Some(6),
    };
    let mut expected = vec![0, 0, 0, 37, 105, 0, 0, 0, 1, 0, 0, 0, 15];
    expected.extend_from_slice(&0x0102u64.to_be_bytes());
    expected.extend_from_slice(&1000u32.to_be_bytes());
    expected.extend_from_slice(&1001u32.to_be_bytes());
    expected.extend_from_slice(&0o644u32.to_be_bytes());
    expected.extend_from_slice(&5u32.to_be_bytes());
    expected.extend_from_slice(&6u32.to_be_bytes());
    assert_eq!(build_attrs(1, &attrs), expected);
    assert_eq!(attrs_reply(1, &attrs), expected);

    // uid without gid and atime without mtime are left out
    let partial = FileAttributes { size: None, uid: Some(1), gid: None, permissions: Some(7), atime: Some(1), mtime: None };
    assert_eq!(build_attrs(2, &partial), vec![0, 0, 0, 13, 105, 0, 0, 0, 2, 0, 0, 0, 4, 0, 0, 0, 7]);
    assert_eq!(build_attrs(3, &FileAttributes::default()), vec![0, 0, 0, 9, 105, 0, 0, 0, 3, 0, 0, 0, 0]);
}

#[test]
fn name_response_lists_entries_in_order() {
    let entries = vec![
        NameEntry { name: b".".to_vec(), attrs: FileAttributes::default() },
        NameEntry { name: b"ab".to_vec(), attrs: FileAttributes::default() },
    ];
    let mut payload = 4u32.to_be_bytes().to_vec();
    payload.extend_from_slice(&2u32.to_be_bytes());
    for name in [&b"."[..], &b"ab"[..]] {
        payload.extend_from_slice(&string_field(name));
        payload.extend_from_slice(&string_field(name));
        payload.extend_from_slice(&0u32.to_be_bytes());
    }
    let mut body = vec![104u8];
    body.extend_from_slice(&payload);
    assert_eq!(build_name(4, &entries), frame(&body));
}

#[test]
fn packets_decode_to_requests() {
    assert!(matches!(decode_packet(&[]), Decoded::Ignored));
    assert!(matches!(decode_packet(&[2, 0, 0, 0, 3]), Decoded::Ignored));
    assert!(matches!(decode_packet(&[200]), Decoded::Ignored));
    assert!(matches!(decode_packet(&[1]), Decoded::Request(Request::Init)));
    assert!(matches!(decode_packet(&[3, 0, 0]), Decoded::Invalid));

    let mut open = vec![3u8, 0, 0, 0, 5];
    open.extend_from_slice(&string_field(b"/a.txt"));
    open.extend_from_slice(&26u32.to_be_bytes());
    match decode_packet(&open) {
        Decoded::Request(Request::Open { id, path, pflags }) => {
            assert_eq!((id, path, pflags), (5, b"/a.txt".to_vec(), 26));
        }
        other => panic!("unexpected {:?}", other),
    }

    let mut read = vec![5u8, 0, 0, 0, 6];
    read.extend_from_slice(&string_field(b"h1"));
    read.extend_from_slice(&4096u64.to_be_bytes());
    read.extend_from_slice(&100_000u32.to_be_bytes());
    match decode_packet(&read) {
        Decoded::Request(Request::Read { id, handle, offset, len }) => {
            assert_eq!((id, handle, offset, len), (6, b"h1".to_vec(), 4096, 100_000));
        }
        other => panic!("unexpected {:?}", other),
    }

    let mut write = vec![6u8, 0, 0, 0, 7];
    write.extend_from_slice(&string_field(b"h1"));
    write.extend_from_slice(&1u64.to_be_bytes());
    write.extend_from_slice(&string_field(&[0xff, 0x00]));
    match decode_packet(&write) {
        Decoded::Request(Request::Write { id, handle, offset, data }) => {
            assert_eq!((id, handle, offset, data), (7, b"h1".to_vec(), 1, vec![0xff, 0x00]));
        }
        other => panic!("unexpected {:?}", other),
    }

    let mut rename = vec![18u8, 0, 0, 0, 8];
    rename.extend_from_slice(&string_field(b"a"));
    rename.extend_from_slice(&string_field(b"b"));
    match decode_packet(&rename) {
        Decoded::Request(Request::Rename { id, from, to }) => {
            assert_eq!((id, from, to), (8, b"a".to_vec(), b"b".to_vec()));
        }
        other => panic!("unexpected {:?}", other),
    }

    let types: [(u8, PathOp); 9] = [
        (7, PathOp::Lstat),
        (9, PathOp::Setstat),
        (11, PathOp::Opendir),
        (13, PathOp::Remove),
        (14, PathOp::Mkdir),
        (15, PathOp::Rmdir),
        (16, PathOp::Realpath),
        (17, PathOp::Stat),
        (19, PathOp::Readlink),
    ];
    for (t, expected) in types {
        let mut p = vec![t, 0, 0, 0, 1];
        p.extend_from_slice(&string_field(b"/x"));
        match decode_packet(&p) {
            Decoded::Request(Request::Path { op, id, path }) => {
                assert_eq!((op, id, path), (expected, 1, b"/x".to_vec()));
            }
            other => panic!("unexpected {:?}", other),
        }
    }
    let handle_types: [(u8, HandleOp); 4] =
        [(4, HandleOp::Close), (8, HandleOp::Fstat), (10, HandleOp::Fsetstat), (12, HandleOp::Readdir)];
    for (t, expected) in handle_types {
        let mut p = vec![t, 0, 0, 0, 1];
        p.extend_from_slice(&string_field(b"h3"));
        match decode_packet(&p) {
            Decoded::Request(Request::Handle { op, id, handle }) => {
                assert_eq!((op, id, handle), (expected, 1, b"h3".to_vec()));
            }
            other => panic!("unexpected {:?}", other),
        }
    }
    assert!(matches!(decode_packet(&[20, 0, 0, 0, 9]), Decoded::Request(Request::Symlink { id: 9 })));
    assert!(matches!(decode_packet(&[20, 0, 0]), Decoded::Invalid));
    // a path that is not UTF-8
    assert!(matches!(decode_packet(&[17, 0, 0, 0, 1, 0, 0, 0, 1, 0xff]), Decoded::Invalid));
}

#[test]
fn framer_drains_complete_packets_only() {
    let mut handler = SftpFileHandler::new(all_permissions(), false);
    assert!(handler.next_packet().is_none());
    handler.feed(&[0, 0, 0, 5, 1, 0, 0]);
    assert!(handler.next_packet().is_none());
    handler.feed(&[0, 3]);
    handler.feed(&[0, 0, 0, 1, 1, 0, 0, 0]);
    assert!(matches!(handler.next_packet(), Some(Decoded::Request(Request::Init))));
    assert!(matches!(handler.next_packet(), Some(Decoded::Request(Request::Init))));
    assert!(handler.next_packet().is_none());
    handler.feed(&[0, 200]);
    assert!(matches!(handler.next_packet(), Some(Decoded::Ignored)));
    assert!(handler.next_packet().is_none());
}

#[test]
fn open_is_planned_from_flags_and_permissions() {
    let open = |pflags: u32| Request::Open { id: 1, path: b"/f".to_vec(), pflags };
    let handler = SftpFileHandler::new(all_permissions(), false);
    assert_eq!(
        handler.plan(&open(1)),
        Plan::Open(OpenOptions { read: true, write: false, create: false, truncate: false, append: false })
    );
    assert_eq!(
        handler.plan(&open(2 | 4 | 8 | 16)),
        Plan::Open(OpenOptions { read: false, write: true, create: true, truncate: true, append: true })
    );
    let read_only = SftpFileHandler::new(all_permissions(), true);
    assert_eq!(read_only.plan(&open(8)), Plan::Deny(Denial::ReadOnlyMode));
    assert_eq!(read_only.plan(&open(16)), Plan::Deny(Denial::ReadOnlyMode));
    assert!(matches!(read_only.plan(&open(1)), Plan::Open(_)));
    // append alone is not a write open
    assert!(matches!(read_only.plan(&open(4)), Plan::Open(_)));
    let reader = SftpFileHandler::new(Permissions { read: true, write: false, delete: false, create_dir: false }, false);
    assert_eq!(reader.plan(&open(2)), Plan::Deny(Denial::CannotWrite));
    let writer = SftpFileHandler::new(Permissions { read: false, write: true, delete: false, create_dir: false }, false);
    assert_eq!(writer.plan(&open(1)), Plan::Deny(Denial::CannotRead));
    assert!(matches!(writer.plan(&open(3)), Plan::Open(_)));
}

#[test]
fn requests_are_planned_by_permission() {
    let path = |op: PathOp| Request::Path { op, id: 1, path: b"/f".to_vec() };
    let all = SftpFileHandler::new(all_permissions(), false);
    assert_eq!(all.plan(&Request::Init), Plan::Version);
    assert_eq!(all.plan(&path(PathOp::Lstat)), Plan::Stat { follow_links: false });
    assert_eq!(all.plan(&path(PathOp::Stat)), Plan::Stat { follow_links: true });
    assert_eq!(all.plan(&path(PathOp::Setstat)), Plan::Acknowledge);
    assert_eq!(all.plan(&path(PathOp::Opendir)), Plan::Opendir);
    assert_eq!(all.plan(&path(PathOp::Remove)), Plan::Remove);
    assert_eq!(all.plan(&path(PathOp::Mkdir)), Plan::Mkdir);
    assert_eq!(all.plan(&path(PathOp::Rmdir)), Plan::Rmdir);
    assert_eq!(all.plan(&path(PathOp::Realpath)), Plan::Realpath);
    assert_eq!(all.plan(&path(PathOp::Readlink)), Plan::Readlink);
    assert_eq!(all.plan(&Request::Symlink { id: 1 }), Plan::Deny(Denial::SymlinksDisabled));
    assert_eq!(all.plan(&Request::Rename { id: 1, from: vec![], to: vec![] }), Plan::Rename);
    assert_eq!(all.plan(&Request::Write { id: 1, handle: vec![], offset: 0, data: vec![] }), Plan::Write);
    assert_eq!(all.plan(&Request::Read { id: 1, handle: vec![], offset: 0, len: 10 }), Plan::Read { len: 10 });
    assert_eq!(all.plan(&Request::Read { id: 1, handle: vec![], offset: 0, len: 65537 }), Plan::Read { len: 65536 });
    let handle = |op: HandleOp| Request::Handle { op, id: 1, handle: b"h1".to_vec() };
    assert_eq!(all.plan(&handle(HandleOp::Fstat)), Plan::Fstat);
    assert_eq!(all.plan(&handle(HandleOp::Fsetstat)), Plan::Acknowledge);
    assert_eq!(all.plan(&handle(HandleOp::Close)), Plan::Table(HandleOp::Close));
    assert_eq!(all.plan(&handle(HandleOp::Readdir)), Plan::Table(HandleOp::Readdir));

    let read_only = SftpFileHandler::new(all_permissions(), true);
    for op in [PathOp::Remove, PathOp::Mkdir, PathOp::Rmdir] {
        assert_eq!(read_only.plan(&path(op)), Plan::Deny(Denial::PermissionDenied));
    }
    assert_eq!(read_only.plan(&Request::Rename { id: 1, from: vec![], to: vec![] }), Plan::Deny(Denial::PermissionDenied));
    assert_eq!(
        read_only.plan(&Request::Write { id: 1, handle: vec![], offset: 0, data: vec![] }),
        Plan::Deny(Denial::PermissionDenied)
    );
    assert_eq!(read_only.plan(&path(PathOp::Opendir)), Plan::Opendir);

    let none = SftpFileHandler::new(Permissions { read: false, write: false, delete: false, create_dir: false }, false);
    for op in [PathOp::Opendir, PathOp::Remove, PathOp::Mkdir, PathOp::Rmdir] {
        assert_eq!(none.plan(&path(op)), Plan::Deny(Denial::PermissionDenied));
    }
    assert_eq!(none.plan(&path(PathOp::Stat)), Plan::Stat { follow_links: true });
}

#[test]
fn replies_carry_the_mapped_status() {
    assert_eq!(denial_reply(3, Denial::ReadOnlyMode), status_bytes(3, 3, "Server is in read-only mode"));
    assert_eq!(denial_reply(3, Denial::CannotWrite), status_bytes(3, 3, "Permission denied: cannot write"));
    assert_eq!(denial_reply(3, Denial::CannotRead), status_bytes(3, 3, "Permission denied: cannot read"));
    assert_eq!(denial_reply(3, Denial::PermissionDenied), status_bytes(3, 3, "Permission denied"));
    assert_eq!(denial_reply(3, Denial::SymlinksDisabled), status_bytes(3, 3, "Symlinks are disabled"));
    assert_eq!(escape_reply(4), status_bytes(4, 3, "Permission denied"));
    assert_eq!(ok_reply(4), status_bytes(4, 0, "OK"));
    assert_eq!(invalid_handle_reply(4), status_bytes(4, 4, "Invalid handle"));
    assert_eq!(file_error_reply(4, "Seek failed: x"), status_bytes(4, 4, "Seek failed: x"));
    assert_eq!(read_reply(4, &[]), status_bytes(4, 1, "EOF"));
    assert_eq!(read_reply(4, b"xy"), build_data(4, b"xy"));

    assert_eq!(failure_status(IoFailure::NotFound), 2);
    assert_eq!(failure_status(IoFailure::PermissionDenied), 3);
    assert_eq!(failure_status(IoFailure::AlreadyExists), 4);
    assert_eq!(failure_status(IoFailure::InvalidInput), 4);
    assert_eq!(failure_status(IoFailure::Other), 4);
    assert_eq!(failure_reply(1, IoOp::Open, IoFailure::NotFound), status_bytes(1, 2, "No such file"));
    assert_eq!(failure_reply(1, IoOp::Opendir, IoFailure::NotFound), status_bytes(1, 2, "No such directory"));
    assert_eq!(failure_reply(1, IoOp::Rmdir, IoFailure::NotFound), status_bytes(1, 2, "No such directory"));
    assert_eq!(failure_reply(1, IoOp::Mkdir, IoFailure::NotFound), status_bytes(1, 2, "Parent directory not found"));
    assert_eq!(failure_reply(1, IoOp::Mkdir, IoFailure::AlreadyExists), status_bytes(1, 4, "Directory already exists"));
    assert_eq!(failure_reply(1, IoOp::Remove, IoFailure::PermissionDenied), status_bytes(1, 3, "Permission denied"));
    assert_eq!(failure_reply(1, IoOp::Readlink, IoFailure::InvalidInput), status_bytes(1, 4, "Not a symlink"));
    assert_eq!(failure_reply(1, IoOp::Readlink, IoFailure::PermissionDenied), status_bytes(1, 3, "Permission denied"));
    assert_eq!(failure_reply(1, IoOp::Rename, IoFailure::Other), status_bytes(1, 4, "Failure"));
    assert_eq!(failure_reply(1, IoOp::Stat, IoFailure::InvalidInput), status_bytes(1, 4, "Failure"));
}

#[test]
fn handles_are_issued_in_order_and_closed_once() {
    let mut handler = SftpFileHandler::new(all_permissions(), false);
    let (t1, r1) = handler.open_file(1, 1);
    let (t2, _) = handler.open_directory(2, vec![]);
    assert_eq!(t1, b"h1".to_vec());
    assert_eq!(t2, b"h2".to_vec());
    assert_eq!(r1, build_handle(1, b"h1"));
    assert!(handler.is_file_handle(b"h1"));
    assert!(!handler.is_file_handle(b"h2"));
    assert!(!handler.is_file_handle(b"h3"));
    assert_eq!(handler.close(5, b"h1"), status_bytes(5, 0, "OK"));
    assert_eq!(handler.close(6, b"h1"), status_bytes(6, 4, "Invalid handle"));
    assert!(!handler.is_file_handle(b"h1"));
    let (t3, _) = handler.open_file(3, OpenFlags::from_bits_truncate(2).bits());
    assert_eq!(t3, b"h3".to_vec());
    assert_eq!(make_token(120), b"h120".to_vec());
    assert_eq!(decimal_digits(0), b"0".to_vec());
    assert_eq!(decimal_digits(u64::MAX), b"18446744073709551615".to_vec());
}

#[test]
fn readdir_returns_batches_of_a_hundred() {
    let mut handler = SftpFileHandler::new(all_permissions(), false);
    let entries: Vec<NameEntry> =
        (0..250u32).map(|i| NameEntry { name: format!("f{}", i).into_bytes(), attrs: FileAttributes::default() }).collect();
    let (token, _) = handler.open_directory(1, entries.clone());
    let (file, _) = handler.open_file(2, 1);
    assert_eq!(handler.readdir(3, &token), build_name(3, &entries[0..100].to_vec()));
    assert_eq!(handler.readdir(4, &token), build_name(4, &entries[100..200].to_vec()));
    assert_eq!(handler.readdir(5, &token), build_name(5, &entries[200..250].to_vec()));
    assert_eq!(handler.readdir(6, &token), status_bytes(6, 1, "EOF"));
    assert_eq!(handler.readdir(7, &token), status_bytes(7, 1, "EOF"));
    assert_eq!(handler.readdir(8, &file), status_bytes(8, 4, "Invalid handle"));
    assert_eq!(handler.readdir(9, b"h9"), status_bytes(9, 4, "Invalid handle"));
    let (empty, _) = handler.open_directory(10, vec![]);
    assert_eq!(handler.readdir(11, &empty), status_bytes(11, 1, "EOF"));
}

#[test]
fn safe_path_accepts_only_paths_within_the_root() {
    assert!(SafePath::confirm(b"/srv/data".to_vec(), b"/srv/data/world/level.dat".to_vec()).is_ok());
    assert!(SafePath::confirm(b"/srv/data".to_vec(), b"/srv/data".to_vec()).is_ok());
    assert!(SafePath::confirm(b"/srv/data".to_vec(), b"/srv/database".to_vec()).is_err());
    assert!(SafePath::confirm(b"/srv/data".to_vec(), b"/etc/passwd".to_vec()).is_err());
    assert!(SafePath::confirm(b"/srv/data".to_vec(), b"/srv".to_vec()).is_err());
    assert!(SafePath::confirm(b"/".to_vec(), b"/etc".to_vec()).is_ok());
    assert!(SafePath::confirm(Vec::new(), b"/etc".to_vec()).is_err());
    let safe = SafePath::confirm(b"/srv/data".to_vec(), b"/srv/data/a".to_vec()).unwrap();
    assert_eq!(safe.root(), &b"/srv/data".to_vec());
    assert_eq!(safe.resolved(), &b"/srv/data/a".to_vec());
    assert!(within(safe.root(), safe.resolved()));
}

#[test]
fn lexical_path_stays_below_the_root() {
    assert_eq!(SafePath::lexical(b"/srv/data", b"/mods/../config"), b"/srv/data/config".to_vec());
    assert_eq!(SafePath::lexical(b"/srv/data", b"../../etc/passwd"), b"/srv/data/etc/passwd".to_vec());
    assert_eq!(SafePath::lexical(b"/srv/data", b"/"), b"/srv/data".to_vec());
    assert_eq!(SafePath::lexical(b"/srv/data", b"a/./b//c/.."), b"/srv/data/a/b".to_vec());
    assert_eq!(normalize_components(b"a/../../b"), vec![b"b".to_vec()]);
    assert_eq!(normalize(b"x/.."), b"/".to_vec());
}

#[test]
fn byte_search() {
    assert!(contains(b"hello world", b"o w"));
    assert!(contains(b"hello", b""));
    assert!(contains(b"hello", b"hello"));
    assert!(!contains(b"hello", b"hello!"));
    assert!(!contains(b"hello", b"lol"));
    assert!(starts_with(b"https://x", b"https://"));
    assert!(!starts_with(b"http://x", b"https://"));
    assert!(ends_with(b"a.tar.gz", b".gz"));
    assert!(!ends_with(b"gz", b".gz"));
}
