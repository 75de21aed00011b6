//! Replies to the kernel: the typed outcome of one request and its framed bytes.

use vstd::prelude::*;

use crate::types::{spec_type_bits, type_bits, DirEntry, FileAttr, Opened, StatFs, Timestamp};
use crate::wire::{
    bytes_u32, bytes_u64, group_bytes_len, le_u32, le_u64, lemma_u32_round_trip, lemma_u64_round_trip,
    push_u32, push_u64,
};

verus! {

broadcast use group_bytes_len;

/// Size of the fixed reply header: length, error, unique id.
pub const OUT_HEADER_LEN: usize = 16;

/// Largest payload a framed reply can carry, so that its length fits the header field.
pub const MAX_PAYLOAD: usize = 0xffff_ffef;

/// Protocol version this driver speaks.
pub const KERNEL_VERSION: u32 = 7;
pub const KERNEL_MINOR_VERSION: u32 = 12;

/// The largest write the kernel may send in one request.
pub const MAX_WRITE_SIZE: u32 = 16777216;

/// What the reply to an init request carries.
#[derive(Clone, Copy, Debug, PartialEq, Eq, Structural)]
pub struct InitOut {
    pub major: u32,
    pub minor: u32,
    pub max_readahead: u32,
    pub flags: u32,
    pub max_write: u32,
}

/// The outcome of one request, as it is sent back.
#[derive(Clone, Debug)]
pub enum Reply {
    Error(i32),
    Empty,
    Init(InitOut),
    Attr { ttl: Timestamp, attr: FileAttr },
    Entry { ttl: Timestamp, attr: FileAttr, generation: u64 },
    Open(Opened),
    Write(u32),
    Statfs(StatFs),
    Data(Vec<u8>),
    Create { ttl: Timestamp, attr: FileAttr, generation: u64, opened: Opened },
    Directory(Vec<u8>),
}

/// The header's error word for `e`: the negated error number, in two's complement.
pub open spec fn errno_word(e: i32) -> u32 {
    if (e as u32) == 0 {
        0
    } else {
        (4294967296 - (e as u32)) as u32
    }
}

/// The mode word of `a`: file-type bits and the low twelve permission bits.
pub open spec fn spec_mode(a: FileAttr) -> u32 {
    (spec_type_bits(a.kind) + (a.perm as nat % 4096)) as u32
}

/// `pre` followed by the kernel's attribute record for `a`.
pub open spec fn append_attr(pre: Seq<u8>, a: FileAttr) -> Seq<u8> {
    pre + bytes_u64(a.ino) + bytes_u64(a.size) + bytes_u64(a.blocks) + bytes_u64(a.atime.secs)
        + bytes_u64(a.mtime.secs) + bytes_u64(a.ctime.secs) + bytes_u32(a.atime.nsecs)
        + bytes_u32(a.mtime.nsecs) + bytes_u32(a.ctime.nsecs) + bytes_u32(spec_mode(a))
        + bytes_u32(a.nlink) + bytes_u32(a.uid) + bytes_u32(a.gid) + bytes_u32(a.rdev)
        + bytes_u32(0) + bytes_u32(0)
}

/// `pre` followed by the kernel's entry record: node id, generation, validity, attributes.
pub open spec fn append_entry(pre: Seq<u8>, ttl: Timestamp, attr: FileAttr, generation: u64) -> Seq<u8> {
    append_attr(
        pre + bytes_u64(attr.ino) + bytes_u64(generation) + bytes_u64(ttl.secs) + bytes_u64(ttl.secs)
            + bytes_u32(ttl.nsecs) + bytes_u32(ttl.nsecs),
        attr,
    )
}

/// `pre` followed by the kernel's open record.
pub open spec fn append_open(pre: Seq<u8>, o: Opened) -> Seq<u8> {
    pre + bytes_u64(o.fh) + bytes_u32(o.flags) + bytes_u32(0)
}

/// `pre` followed by `n` zero words.
pub open spec fn append_zero_words(pre: Seq<u8>, n: nat) -> Seq<u8>
    decreases n,
{
    if n == 0 {
        pre
    } else {
        append_zero_words(pre, (n - 1) as nat) + bytes_u32(0)
    }
}

/// `pre` followed by the payload bytes of `r`.
pub open spec fn append_payload(pre: Seq<u8>, r: Reply) -> Seq<u8> {
    match r {
        Reply::Error(_) => pre,
        Reply::Empty => pre,
        Reply::Init(i) => pre + bytes_u32(i.major) + bytes_u32(i.minor) + bytes_u32(i.max_readahead)
            + bytes_u32(i.flags) + bytes_u32(0) + bytes_u32(i.max_write),
        Reply::Attr { ttl, attr } => append_attr(
            pre + bytes_u64(ttl.secs) + bytes_u32(ttl.nsecs) + bytes_u32(0),
            attr,
        ),
        Reply::Entry { ttl, attr, generation } => append_entry(pre, ttl, attr, generation),
        Reply::Open(o) => append_open(pre, o),
        Reply::Write(n) => pre + bytes_u32(n) + bytes_u32(0),
        Reply::Statfs(s) => append_zero_words(
            pre + bytes_u64(s.blocks) + bytes_u64(s.bfree) + bytes_u64(s.bavail) + bytes_u64(s.files)
                + bytes_u64(s.ffree) + bytes_u32(s.bsize) + bytes_u32(s.namelen) + bytes_u32(
                s.frsize,
            ),
            7,
        ),
        Reply::Data(d) => pre + d@,
        Reply::Create { ttl, attr, generation, opened } => append_open(
            append_entry(pre, ttl, attr, generation),
            opened,
        ),
        Reply::Directory(d) => pre + d@,
    }
}

/// The payload bytes of a reply.
pub open spec fn spec_payload(r: Reply) -> Seq<u8> {
    append_payload(seq![], r)
}

/// The error number a reply carries: zero for every success.
pub open spec fn spec_error(r: Reply) -> i32 {
    match r {
        Reply::Error(e) => e,
        _ => 0,
    }
}

/// A framed reply: header (total length, error word, unique id) followed by the payload.
pub open spec fn spec_frame(unique: u64, r: Reply) -> Seq<u8> {
    append_payload(
        bytes_u32((16 + spec_payload(r).len()) as u32) + bytes_u32(errno_word(spec_error(r)))
            + bytes_u64(unique),
        r,
    )
}

fn push_attr(out: &mut Vec<u8>, a: &FileAttr)
    ensures
        final(out)@ == append_attr(old(out)@, *a),
{
    push_u64(out, a.ino);
    push_u64(out, a.size);
    push_u64(out, a.blocks);
    push_u64(out, a.atime.secs);
    push_u64(out, a.mtime.secs);
    push_u64(out, a.ctime.secs);
    push_u32(out, a.atime.nsecs);
    push_u32(out, a.mtime.nsecs);
    push_u32(out, a.ctime.nsecs);
    push_u32(out, type_bits(a.kind) + (a.perm as u32 % 4096));
    push_u32(out, a.nlink);
    push_u32(out, a.uid);
    push_u32(out, a.gid);
    push_u32(out, a.rdev);
    push_u32(out, 0);
    push_u32(out, 0);
}

fn push_entry(out: &mut Vec<u8>, ttl: &Timestamp, attr: &FileAttr, generation: u64)
    ensures
        final(out)@ == append_entry(old(out)@, *ttl, *attr, generation),
{
    push_u64(out, attr.ino);
    push_u64(out, generation);
    push_u64(out, ttl.secs);
    push_u64(out, ttl.secs);
    push_u32(out, ttl.nsecs);
    push_u32(out, ttl.nsecs);
    push_attr(out, attr);
}

fn push_open(out: &mut Vec<u8>, o: &Opened)
    ensures
        final(out)@ == append_open(old(out)@, *o),
{
    push_u64(out, o.fh);
    push_u32(out, o.flags);
    push_u32(out, 0);
}

fn push_all(out: &mut Vec<u8>, d: &Vec<u8>)
    ensures
        final(out)@ == old(out)@ + d@,
{
    let ghost start = out@;
    let mut i: usize = 0;
    while i < d.len()
        invariant
            i <= d@.len(),
            out@ == start + d@.subrange(0, i as int),
        decreases d@.len() - i,
    {
        out.push(d[i]);
        i = i + 1;
        assert(out@ =~= start + d@.subrange(0, i as int));
    }
    assert(d@.subrange(0, d@.len() as int) =~= d@);
}

/// Appends the payload bytes of `r`.
fn push_payload(out: &mut Vec<u8>, r: &Reply)
    ensures
        final(out)@ == append_payload(old(out)@, *r),
{
    match r {
        Reply::Error(_) => {},
        Reply::Empty => {},
        Reply::Init(i) => {
            push_u32(out, i.major);
            push_u32(out, i.minor);
            push_u32(out, i.max_readahead);
            push_u32(out, i.flags);
            push_u32(out, 0);
            push_u32(out, i.max_write);
        },
        Reply::Attr { ttl, attr } => {
            push_u64(out, ttl.secs);
            push_u32(out, ttl.nsecs);
            push_u32(out, 0);
            push_attr(out, attr);
        },
        Reply::Entry { ttl, attr, generation } => {
            push_entry(out, ttl, attr, *generation);
        },
        Reply::Open(o) => {
            push_open(out, o);
        },
        Reply::Write(n) => {
            push_u32(out, *n);
            push_u32(out, 0);
        },
        Reply::Statfs(s) => {
            push_u64(out, s.blocks);
            push_u64(out, s.bfree);
            push_u64(out, s.bavail);
            push_u64(out, s.files);
            push_u64(out, s.ffree);
            push_u32(out, s.bsize);
            push_u32(out, s.namelen);
            push_u32(out, s.frsize);
            let ghost pre = out@;
            let mut k: usize = 0;
            while k < 7
                invariant
                    k <= 7,
                    out@ == append_zero_words(pre, k as nat),
                decreases 7 - k,
            {
                push_u32(out, 0);
                k = k + 1;
            }
        },
        Reply::Data(d) => {
            push_all(out, d);
        },
        Reply::Create { ttl, attr, generation, opened } => {
            push_entry(out, ttl, attr, *generation);
            push_open(out, opened);
        },
        Reply::Directory(d) => {
            push_all(out, d);
        },
    }
}

/// The length of the payload of `r`, computed without encoding it.
fn payload_len(r: &Reply) -> (n: usize)
    ensures
        n == spec_payload(*r).len(),
{
    match r {
        Reply::Error(_) => 0,
        Reply::Empty => 0,
        Reply::Init(_) => 24,
        Reply::Attr { .. } => 104,
        Reply::Entry { .. } => 128,
        Reply::Open(_) => 16,
        Reply::Write(_) => 8,
        Reply::Statfs(_) => {
            reveal_with_fuel(append_zero_words, 8);
            80
        },
        Reply::Data(d) => d.len(),
        Reply::Create { .. } => 144,
        Reply::Directory(d) => d.len(),
    }
}

impl Reply {
    /// Whether the reply's payload fits a frame.
    pub open spec fn fits(self) -> bool {
        spec_payload(self).len() <= MAX_PAYLOAD
    }

    /// Frames this reply for the request with id `unique`.
    pub fn frame(&self, unique: u64) -> (out: Vec<u8>)
        requires
            self.fits(),
        ensures
            out@ == spec_frame(unique, *self),
    {
        let n = payload_len(self);
        let mut out: Vec<u8> = Vec::new();
        push_u32(&mut out, (16 + n) as u32);
        let e: i32 = match self {
            Reply::Error(e) => *e,
            _ => 0,
        };
        let w: u32 = e as u32;
        let word: u32 = if w == 0 {
            0
        } else {
            (4294967295 - w) + 1
        };
        push_u32(&mut out, word);
        push_u64(&mut out, unique);
        push_payload(&mut out, self);
        out
    }

    /// Whether the payload fits a frame.
    pub fn payload_fits(&self) -> (b: bool)
        ensures
            b == self.fits(),
    {
        payload_len(self) <= MAX_PAYLOAD
    }
}

/// The unique id field of a framed reply.
pub open spec fn reply_unique(b: Seq<u8>) -> nat {
    le_u64(b, 8)
}

/// The length field of a framed reply.
pub open spec fn reply_len(b: Seq<u8>) -> nat {
    le_u32(b, 0)
}

/// What `append_zero_words` appends keeps `pre` in front and adds four bytes per word.
proof fn lemma_zero_words_extend(pre: Seq<u8>, n: nat)
    ensures
        append_zero_words(pre, n).len() == pre.len() + 4 * n,
        forall|i: int| 0 <= i < pre.len() ==> append_zero_words(pre, n)[i] == pre[i],
    decreases n,
{
    if n > 0 {
        lemma_zero_words_extend(pre, (n - 1) as nat);
    }
}

/// Appending a payload keeps `pre` in front, and adds the same number of bytes whatever `pre` is.
proof fn lemma_append_extends(pre: Seq<u8>, r: Reply)
    ensures
        append_payload(pre, r).len() == pre.len() + spec_payload(r).len(),
        forall|i: int| 0 <= i < pre.len() ==> append_payload(pre, r)[i] == pre[i],
{
    match r {
        Reply::Statfs(s) => {
            let e: Seq<u8> = seq![];
            let a = pre + bytes_u64(s.blocks) + bytes_u64(s.bfree) + bytes_u64(s.bavail)
                + bytes_u64(s.files) + bytes_u64(s.ffree) + bytes_u32(s.bsize) + bytes_u32(s.namelen)
                + bytes_u32(s.frsize);
            let b = e + bytes_u64(s.blocks) + bytes_u64(s.bfree) + bytes_u64(s.bavail)
                + bytes_u64(s.files) + bytes_u64(s.ffree) + bytes_u32(s.bsize) + bytes_u32(s.namelen)
                + bytes_u32(s.frsize);
            lemma_zero_words_extend(a, 7);
            lemma_zero_words_extend(b, 7);
            assert forall|i: int| 0 <= i < pre.len() implies a[i] == pre[i] by {}
            assert(append_payload(pre, r) == append_zero_words(a, 7));
        },
        _ => {},
    }
}

/// A framed reply starts with its own length and the unique id it was framed for.
pub proof fn lemma_frame_header(unique: u64, r: Reply)
    requires
        r.fits(),
    ensures
        reply_unique(spec_frame(unique, r)) == unique,
        reply_len(spec_frame(unique, r)) == spec_frame(unique, r).len(),
        spec_frame(unique, r).len() == OUT_HEADER_LEN + spec_payload(r).len(),
{
    let n = (16 + spec_payload(r).len()) as u32;
    let w = errno_word(spec_error(r));
    let h = bytes_u32(n) + bytes_u32(w) + bytes_u64(unique);
    let f = spec_frame(unique, r);
    lemma_append_extends(h, r);
    let e: Seq<u8> = seq![];
    lemma_u64_round_trip(bytes_u32(n) + bytes_u32(w), unique, e);
    assert(h + e =~= h);
    lemma_u32_round_trip(e, n, bytes_u32(w) + bytes_u64(unique));
    assert(e + bytes_u32(n) + (bytes_u32(w) + bytes_u64(unique)) =~= h);
    assert(le_u64(f, 8) == le_u64(h, 8));
    assert(le_u32(f, 0) == le_u32(h, 0));
}

/// Zero bytes that pad a directory record of `n` name bytes to a multiple of eight.
pub open spec fn pad_len(n: nat) -> nat {
    ((8 - n % 8) % 8) as nat
}

/// The size of the directory record for `e`.
pub open spec fn dirent_len(e: DirEntry) -> nat {
    24 + e.name@.len() + pad_len(e.name@.len())
}

/// `pre` followed by the directory record for `e`: node, resume offset, name length, type,
/// name, padding.
pub open spec fn append_dirent(pre: Seq<u8>, e: DirEntry) -> Seq<u8> {
    pre + bytes_u64(e.ino) + bytes_u64(e.offset) + bytes_u32(e.name@.len() as u32) + bytes_u32(
        (spec_type_bits(e.kind) / 4096) as u32,
    ) + e.name@ + Seq::new(pad_len(e.name@.len()), |i: int| 0u8)
}

fn push_dirent(out: &mut Vec<u8>, e: &DirEntry)
    requires
        e.name@.len() <= u32::MAX,
    ensures
        final(out)@ == append_dirent(old(out)@, *e),
{
    let n = e.name.len();
    let pad: usize = (8 - n % 8) % 8;
    let ghost pre = old(out)@ + bytes_u64(e.ino) + bytes_u64(e.offset) + bytes_u32(n as u32)
        + bytes_u32((spec_type_bits(e.kind) / 4096) as u32) + e.name@;
    push_u64(out, e.ino);
    push_u64(out, e.offset);
    push_u32(out, n as u32);
    push_u32(out, type_bits(e.kind) / 4096);
    push_all(out, &e.name);
    let mut k: usize = 0;
    while k < pad
        invariant
            k <= pad,
            pad == pad_len(n as nat),
            out@ == pre + Seq::new(k as nat, |j: int| 0u8),
        decreases pad - k,
    {
        out.push(0);
        k = k + 1;
        assert(out@ =~= pre + Seq::new(k as nat, |j: int| 0u8));
    }
}

/// `pre` followed by the records of `es`, in order, up to the first one that would take the
/// whole past `max` bytes.
pub open spec fn listing_from(pre: Seq<u8>, es: Seq<DirEntry>, max: nat) -> Seq<u8>
    decreases es.len(),
{
    if es.len() == 0 || pre.len() + dirent_len(es[0]) > max {
        pre
    } else {
        listing_from(append_dirent(pre, es[0]), es.skip(1), max)
    }
}

/// The records of the longest prefix of `es` that fits in `max` bytes.
pub open spec fn spec_listing(es: Seq<DirEntry>, max: nat) -> Seq<u8> {
    listing_from(seq![], es, max)
}

/// Encodes the longest prefix of `entries` whose records fit in `max` bytes.
pub fn encode_directory(entries: &Vec<DirEntry>, max: u32) -> (r: Vec<u8>)
    ensures
        r@ == spec_listing(entries@, max as nat),
        r@.len() <= max,
{
    let cap = max as usize;
    let mut out: Vec<u8> = Vec::new();
    let mut i: usize = 0;
    assert(entries@.skip(0) =~= entries@);
    assert(out@ =~= seq![]);
    while i < entries.len()
        invariant
            i <= entries@.len(),
            listing_from(out@, entries@.skip(i as int), max as nat) == spec_listing(
                entries@,
                max as nat,
            ),
            out@.len() <= cap == max,
        decreases entries@.len() - i,
    {
        let e = &entries[i];
        let n = e.name.len();
        let pad: usize = (8 - n % 8) % 8;
        if cap - out.len() < 24 || cap - out.len() - 24 < n || cap - out.len() - 24 - n < pad {
            assert(entries@.skip(i as int)[0] == entries@[i as int]);
            assert(out@.len() + dirent_len(entries@[i as int]) > max);
            return out;
        }
        let ghost pre = out@;
        push_dirent(&mut out, e);
        proof {
            let t = entries@.skip(i as int);
            assert(t[0] == entries@[i as int]);
            assert(t.skip(1) =~= entries@.skip(i + 1));
            assert(out@.len() == pre.len() + dirent_len(*e));
        }
        i = i + 1;
    }
    assert(entries@.skip(i as int).len() == 0);
    out
}

} // verus!
