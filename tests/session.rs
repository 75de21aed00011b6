use fuse::memory::{self, MemoryFS};
use fuse::reply::{encode_directory, Reply};
use fuse::request::{Operation, Request};
use fuse::session::{answer, classify_error, Control, Outcome, Session};
use fuse::types::{DirEntry, FileType, SetAttrArgs, EAGAIN, EINTR, ENODEV, ENOENT, ENOSYS, ENOTEMPTY};

fn request(opcode: u32, unique: u64, nodeid: u64, payload: &[u8]) -> Vec<u8> {
    let len = (40 + payload.len()) as u32;
    let mut b = Vec::new();
    b.extend_from_slice(&len.to_le_bytes());
    b.extend_from_slice(&opcode.to_le_bytes());
    b.extend_from_slice(&unique.to_le_bytes());
    b.extend_from_slice(&nodeid.to_le_bytes());
    b.extend_from_slice(&[0u8; 16]);
    b.extend_from_slice(payload);
    b
}

fn init_request(unique: u64, major: u32, minor: u32) -> Vec<u8> {
    let mut p = Vec::new();
    p.extend_from_slice(&major.to_le_bytes());
    p.extend_from_slice(&minor.to_le_bytes());
    p.extend_from_slice(&65536u32.to_le_bytes());
    p.extend_from_slice(&0u32.to_le_bytes());
    request(26, unique, 0, &p)
}

fn name_payload(prefix: &[u8], name: &str) -> Vec<u8> {
    let mut p = prefix.to_vec();
    p.extend_from_slice(name.as_bytes());
    p.push(0);
    p
}

fn write_payload(offset: u64, data: &[u8]) -> Vec<u8> {
    let mut p = Vec::new();
    p.extend_from_slice(&0u64.to_le_bytes());
    p.extend_from_slice(&offset.to_le_bytes());
    p.extend_from_slice(&(data.len() as u32).to_le_bytes());
    p.extend_from_slice(&[0u8; 20]);
    p.extend_from_slice(data);
    p
}

fn read_payload(offset: u64, size: u32) -> Vec<u8> {
    let mut p = Vec::new();
    p.extend_from_slice(&0u64.to_le_bytes());
    p.extend_from_slice(&offset.to_le_bytes());
    p.extend_from_slice(&size.to_le_bytes());
    p.extend_from_slice(&[0u8; 20]);
    p
}

fn u32_at(b: &[u8], off: usize) -> u32 {
    u32::from_le_bytes([b[off], b[off + 1], b[off + 2], b[off + 3]])
}

fn u64_at(b: &[u8], off: usize) -> u64 {
    let mut a = [0u8; 8];
    a.copy_from_slice(&b[off..off + 8]);
    u64::from_le_bytes(a)
}

fn error_of(reply: &[u8]) -> i32 {
    u32_at(reply, 4) as i32
}

fn mounted() -> Session<MemoryFS> {
    let mut s = Session::new(memory::new(4 << 30), "/mnt/memory".to_string());
    let a = s.handle(&init_request(1, 7, 31));
    assert_eq!(a.control, Control::Continue);
    s
}

#[test]
fn init_then_getattr_root() {
    let mut s = Session::new(memory::new(4 << 30), "/mnt/memory".to_string());
    assert!(!s.initialized);
    let a = s.handle(&init_request(1, 1, 0));
    assert_eq!(a.control, Control::Continue);
    let r = a.reply.unwrap();
    assert_eq!(u32_at(&r, 0) as usize, r.len());
    assert_eq!(error_of(&r), 0);
    assert_eq!(u64_at(&r, 8), 1);
    assert_eq!(u32_at(&r, 16), 7);
    assert_eq!(u32_at(&r, 20), 12);
    assert!(s.initialized);
    assert_eq!((s.proto_major, s.proto_minor), (1, 0));

    let a = s.handle(&request(3, 2, 1, &[0u8; 16]));
    assert_eq!(a.control, Control::Continue);
    let r = a.reply.unwrap();
    assert_eq!(r.len(), 16 + 104);
    assert_eq!(error_of(&r), 0);
    assert_eq!(u64_at(&r, 8), 2);
    // attribute record starts after the 16-byte validity prefix
    assert_eq!(u64_at(&r, 32), 1);
    let mode = u32_at(&r, 32 + 60);
    assert_eq!(mode & 0o170000, 0o040000);
    let (_, attr) = s.filesystem.getattr(1).unwrap();
    assert_eq!(attr.kind, FileType::Directory);
    assert_eq!(mode & 0o7777, attr.perm as u32);
}

#[test]
fn create_write_read_round_trip() {
    let mut fs = MemoryFS::new(1 << 20);
    fs.init().unwrap();
    let e = fs.create(1, b"a.txt").unwrap();
    let n = e.attr.ino;
    assert_eq!(e.attr.size, 0);
    assert_eq!(e.attr.kind, FileType::RegularFile);
    assert_eq!(fs.write(n, 0, b"hello"), Ok(5));
    assert_eq!(fs.read(n, 0, 5).unwrap(), b"hello".to_vec());
    assert_eq!(fs.getattr(n).unwrap().1.size, 5);
}

#[test]
fn create_write_read_through_session() {
    let mut s = mounted();
    let mut p = vec![0u8; 16];
    p.truncate(16);
    let a = s.handle(&request(35, 10, 1, &name_payload(&p, "a.txt")));
    let r = a.reply.unwrap();
    assert_eq!(error_of(&r), 0);
    assert_eq!(r.len(), 16 + 144);
    let ino = u64_at(&r, 16);
    // size field of the attribute record inside the entry
    assert_eq!(u64_at(&r, 16 + 40 + 8), 0);

    let a = s.handle(&request(16, 11, ino, &write_payload(0, b"hello")));
    let r = a.reply.unwrap();
    assert_eq!(error_of(&r), 0);
    assert_eq!(u32_at(&r, 16), 5);

    let a = s.handle(&request(15, 12, ino, &read_payload(0, 5)));
    let r = a.reply.unwrap();
    assert_eq!(u64_at(&r, 8), 12);
    assert_eq!(&r[16..], b"hello");
}

#[test]
fn write_past_end_zero_fills() {
    let mut fs = memory::new(1 << 20);
    fs.init().unwrap();
    let ino = fs.create(1, b"b").unwrap().attr.ino;
    assert_eq!(fs.write(ino, 10, b"xyz"), Ok(3));
    let d = fs.read(ino, 0, 100).unwrap();
    assert_eq!(d.len(), 13);
    assert!(d[..10].iter().all(|b| *b == 0));
    assert_eq!(&d[10..], b"xyz");
    assert_eq!(fs.getattr(ino).unwrap().1.size, 13);
}

#[test]
fn lookup_missing_name_is_not_found() {
    let mut s = mounted();
    let a = s.handle(&request(1, 5, 1, &name_payload(&[], "nope")));
    assert_eq!(a.control, Control::Continue);
    let r = a.reply.unwrap();
    assert_eq!(r.len(), 16);
    assert_eq!(error_of(&r), -ENOENT);
    assert_eq!(u64_at(&r, 8), 5);
}

#[test]
fn garbled_buffer_ends_loop_without_reply() {
    let mut s = mounted();
    let a = s.handle(&[1, 2, 3]);
    assert!(a.reply.is_none());
    assert_eq!(a.control, Control::Exit);
    let mut bad = request(3, 9, 1, &[]);
    bad[0] = 99;
    let a = s.handle(&bad);
    assert!(a.reply.is_none());
    assert_eq!(a.control, Control::Exit);
    let a = s.handle(&request(9999, 9, 1, &[]));
    assert!(a.reply.is_none());
    assert_eq!(a.control, Control::Exit);
}

#[test]
fn request_before_init_ends_loop() {
    let mut s = Session::new(memory::new(4096), "/m".to_string());
    let a = s.handle(&request(3, 1, 1, &[]));
    assert!(a.reply.is_none());
    assert_eq!(a.control, Control::Exit);
    assert!(!s.initialized);
}

#[test]
fn transient_errors_are_retried() {
    assert_eq!(classify_error(EINTR), Control::Continue);
    assert_eq!(classify_error(EAGAIN), Control::Continue);
    assert_eq!(classify_error(ENOENT), Control::Continue);
    assert_eq!(classify_error(ENODEV), Control::Exit);
    assert_eq!(classify_error(13), Control::Fail(13));
}

#[test]
fn replies_follow_request_order() {
    let mut s = mounted();
    let mut ids = Vec::new();
    for u in [40u64, 41, 42, 43] {
        let a = s.handle(&request(3, u, 1, &[]));
        ids.push(u64_at(&a.reply.unwrap(), 8));
    }
    assert_eq!(ids, vec![40, 41, 42, 43]);
}

#[test]
fn destroy_ends_session() {
    let mut s = mounted();
    let a = s.handle(&request(38, 7, 0, &[]));
    assert_eq!(a.control, Control::Exit);
    assert_eq!(a.reply.unwrap().len(), 16);
    assert!(s.destroyed);
    let a = s.handle(&request(3, 8, 1, &[]));
    assert!(a.reply.is_none());
    assert_eq!(a.control, Control::Exit);
}

#[test]
fn second_init_is_an_error_reply() {
    let mut s = mounted();
    let a = s.handle(&init_request(3, 7, 31));
    assert_eq!(a.control, Control::Continue);
    assert_eq!(error_of(&a.reply.unwrap()), -5);
}

#[test]
fn unimplemented_operation_answers_enosys() {
    struct Bare;
    impl fuse::filesystem::Filesystem for Bare {}
    let mut s = Session::new(Bare, "/b".to_string());
    s.handle(&init_request(1, 7, 31));
    let a = s.handle(&request(3, 2, 1, &[]));
    assert_eq!(error_of(&a.reply.unwrap()), -ENOSYS);
}

#[test]
fn readdir_resumes_at_offset() {
    let mut fs = memory::new(1 << 20);
    fs.init().unwrap();
    let a = fs.create(1, b"a").unwrap().attr.ino;
    let b = fs.mkdir(1, b"b").unwrap().attr.ino;
    let all = fs.readdir(1, 0).unwrap();
    assert_eq!(all.len(), 2);
    assert_eq!((all[0].ino, all[0].offset, all[0].name.clone()), (a, 1, b"a".to_vec()));
    assert_eq!((all[1].ino, all[1].offset, all[1].kind), (b, 2, FileType::Directory));
    let rest = fs.readdir(1, 1).unwrap();
    assert_eq!(rest.len(), 1);
    assert_eq!(rest[0].ino, b);
    assert!(fs.readdir(1, 2).unwrap().is_empty());
    assert!(fs.readdir(77, 0).unwrap().is_empty());
}

#[test]
fn readdir_through_session_is_framed() {
    let mut s = mounted();
    s.filesystem.create(1, b"abc").unwrap();
    let a = s.handle(&request(28, 6, 1, &read_payload(0, 4096)));
    let r = a.reply.unwrap();
    assert_eq!(r.len(), 16 + 32);
    assert_eq!(u64_at(&r, 16 + 8), 1);
    assert_eq!(u32_at(&r, 16 + 16), 3);
    assert_eq!(&r[16 + 24..16 + 27], b"abc");
}

#[test]
fn directory_encoding_stops_at_size() {
    let es = vec![
        DirEntry { ino: 3, offset: 1, kind: FileType::RegularFile, name: b"one".to_vec() },
        DirEntry { ino: 4, offset: 2, kind: FileType::RegularFile, name: b"twelve_bytes".to_vec() },
    ];
    assert_eq!(encode_directory(&es, 4096).len(), 32 + 40);
    assert_eq!(encode_directory(&es, 40).len(), 32);
    assert!(encode_directory(&es, 10).is_empty());
}

#[test]
fn unlink_and_rmdir() {
    let mut fs = memory::new(1 << 20);
    fs.init().unwrap();
    let d = fs.mkdir(1, b"d").unwrap().attr.ino;
    let f = fs.create(d, b"f").unwrap().attr.ino;
    assert_eq!(fs.rmdir(1, b"d"), Err(ENOTEMPTY));
    assert_eq!(fs.unlink(d, b"f"), Ok(()));
    assert_eq!(fs.getattr(f), Err(ENOENT));
    assert_eq!(fs.unlink(d, b"f"), Err(ENOENT));
    assert_eq!(fs.rmdir(1, b"d"), Ok(()));
    assert_eq!(fs.lookup(1, b"d"), Err(ENOENT));
    assert_eq!(fs.create(d, b"g"), Err(ENOENT));
    assert_eq!(fs.mkdir(42, b"x"), Err(ENOENT));
}

#[test]
fn setattr_changes_only_given_fields() {
    let mut fs = memory::new(1 << 20);
    fs.init().unwrap();
    let ino = fs.create(1, b"f").unwrap().attr.ino;
    let args = SetAttrArgs { mode: Some(0o600), uid: Some(1000), gid: None, size: None, atime: None, mtime: None, fh: None };
    let (_, a) = fs.setattr(ino, args).unwrap();
    assert_eq!(a.perm, 0o600);
    assert_eq!(a.uid, 1000);
    assert_eq!(a.gid, 0);
    assert_eq!(fs.getattr(ino).unwrap().1, a);
    assert_eq!(fs.setattr(999, args), Err(ENOENT));
}

#[test]
fn statfs_figures() {
    let mut fs = MemoryFS::new(4 << 30);
    fs.init().unwrap();
    let s = fs.statfs();
    assert_eq!(s.blocks, (4u64 << 30) / 4096);
    assert_eq!(s.bfree, s.blocks);
    assert_eq!(s.files, 2);
    assert_eq!(s.namelen, 255);
}

#[test]
fn read_past_end_is_empty() {
    let mut fs = memory::new(1 << 20);
    fs.init().unwrap();
    let ino = fs.create(1, b"f").unwrap().attr.ino;
    fs.write(ino, 0, b"abc").unwrap();
    assert!(fs.read(ino, 10, 5).unwrap().is_empty());
    assert_eq!(fs.read(ino, 1, 1).unwrap(), b"b".to_vec());
    assert_eq!(fs.read(999, 0, 1), Err(ENOENT));
}

#[test]
fn write_beyond_capacity_is_rejected() {
    let mut fs = memory::new(8);
    fs.init().unwrap();
    let ino = fs.create(1, b"f").unwrap().attr.ino;
    assert_eq!(fs.write(ino, 6, b"abc"), Err(fuse::types::EFBIG));
    assert_eq!(fs.write(999, 0, b"a"), Err(ENOENT));
}

#[test]
fn node_by_name() {
    let mut fs = memory::new(1 << 20);
    fs.init().unwrap();
    let ino = fs.create(1, b"a.txt").unwrap().attr.ino;
    assert_eq!(fs.get_node_by_name(1, "a.txt"), Some(ino));
    assert_eq!(fs.get_node_by_name(1, "b.txt"), None);
    assert_eq!(fs.get_node_by_name(5, "a.txt"), None);
}

#[test]
fn mountpoint_is_kept() {
    let s = Session::new(memory::new(1), "/mnt/x".to_string());
    assert_eq!(s.mountpoint(), "/mnt/x");
}

#[test]
fn decoder_reads_fields() {
    let b = request(16, 77, 5, &write_payload(3, b"zz"));
    let r = Request::parse(&b).unwrap();
    assert_eq!((r.unique, r.nodeid), (77, 5));
    match r.op {
        Operation::Write { offset, data, .. } => {
            assert_eq!(offset, 3);
            assert_eq!(data, b"zz".to_vec());
        }
        _ => panic!("wrong operation"),
    }
    let mut short = request(16, 77, 5, &write_payload(3, b"zz"));
    short.truncate(short.len() - 1);
    let n = short.len() as u32;
    short[0..4].copy_from_slice(&n.to_le_bytes());
    assert!(Request::parse(&short).is_none());
}

#[test]
fn error_reply_frame() {
    let r = Reply::Error(ENOENT).frame(9);
    assert_eq!(r, vec![16, 0, 0, 0, 0xfe, 0xff, 0xff, 0xff, 9, 0, 0, 0, 0, 0, 0, 0]);
}

#[test]
fn answer_carries_filesystem_error() {
    let r = answer(5, Outcome::Entry(Err(ENOENT)));
    assert_eq!(r.len(), 16);
    assert_eq!(error_of(&r), -ENOENT);
    assert_eq!(u64_at(&r, 8), 5);
}

#[test]
fn answer_carries_filesystem_data() {
    let r = answer(6, Outcome::Data(Ok(b"hi".to_vec())));
    assert_eq!(r.len(), 18);
    assert_eq!(error_of(&r), 0);
    assert_eq!(&r[16..], b"hi");
    let r = answer(7, Outcome::Written(Ok(3)));
    assert_eq!(u32_at(&r, 16), 3);
}

#[test]
fn answer_encodes_listing_within_budget() {
    let es = vec![
        DirEntry { ino: 3, offset: 1, kind: FileType::RegularFile, name: b"one".to_vec() },
        DirEntry { ino: 4, offset: 2, kind: FileType::Directory, name: b"two".to_vec() },
    ];
    let r = answer(8, Outcome::Listing(Ok(es), 40));
    assert_eq!(r.len(), 16 + 32);
    assert_eq!(u64_at(&r, 16), 3);
    assert_eq!(u64_at(&r, 24), 1);
}

#[test]
fn unlink_refuses_directory_with_children() {
    let mut fs = memory::new(1 << 20);
    fs.init().unwrap();
    let d = fs.mkdir(1, b"d").unwrap().attr.ino;
    fs.create(d, b"f").unwrap();
    assert_eq!(fs.unlink(1, b"d"), Err(ENOTEMPTY));
    assert!(fs.getattr(d).is_ok());
}
