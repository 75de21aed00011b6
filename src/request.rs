//! Decoding of one kernel request buffer into a typed request.

use vstd::prelude::*;

use crate::types::{SetAttrArgs, Timestamp};
use crate::wire::{le_u32, le_u64, read_u32, read_u64};

verus! {

/// Size of the fixed request header: length, opcode, unique id, node id, uid, gid, pid, padding.
pub const IN_HEADER_LEN: usize = 40;

pub const OP_LOOKUP: u32 = 1;
pub const OP_GETATTR: u32 = 3;
pub const OP_SETATTR: u32 = 4;
pub const OP_MKDIR: u32 = 9;
pub const OP_UNLINK: u32 = 10;
pub const OP_RMDIR: u32 = 11;
pub const OP_OPEN: u32 = 14;
pub const OP_READ: u32 = 15;
pub const OP_WRITE: u32 = 16;
pub const OP_STATFS: u32 = 17;
pub const OP_RELEASE: u32 = 18;
pub const OP_FLUSH: u32 = 25;
pub const OP_INIT: u32 = 26;
pub const OP_OPENDIR: u32 = 27;
pub const OP_READDIR: u32 = 28;
pub const OP_RELEASEDIR: u32 = 29;
pub const OP_CREATE: u32 = 35;
pub const OP_DESTROY: u32 = 38;

/// The operation a request asks for, with its arguments.
#[derive(Debug)]
pub enum Operation {
    Lookup { name: Vec<u8> },
    GetAttr,
    SetAttr { args: SetAttrArgs },
    Mkdir { mode: u32, name: Vec<u8> },
    Unlink { name: Vec<u8> },
    Rmdir { name: Vec<u8> },
    Open { flags: u32 },
    Read { fh: u64, offset: u64, size: u32 },
    Write { fh: u64, offset: u64, data: Vec<u8>, flags: u32 },
    Statfs,
    Release { fh: u64, flags: u32, lock_owner: u64, flush: bool },
    Flush { fh: u64, lock_owner: u64 },
    Init { major: u32, minor: u32, max_readahead: u32, flags: u32 },
    OpenDir { flags: u32 },
    ReadDir { fh: u64, offset: u64, size: u32 },
    ReleaseDir { fh: u64, flags: u32 },
    Create { mode: u32, flags: u32, name: Vec<u8> },
    Destroy,
}

/// One decoded kernel request.
#[derive(Debug)]
pub struct Request {
    pub unique: u64,
    pub nodeid: u64,
    pub uid: u32,
    pub gid: u32,
    pub pid: u32,
    pub op: Operation,
}

/// The opcode field of a buffer.
pub open spec fn spec_opcode(b: Seq<u8>) -> nat {
    le_u32(b, 4)
}

/// A name argument: the bytes from `start` up to a terminating zero byte that ends the buffer.
pub open spec fn has_name(b: Seq<u8>, start: int) -> bool {
    b.len() >= start + 1 && b[b.len() - 1] == 0
}

pub open spec fn name_at(b: Seq<u8>, start: int) -> Seq<u8> {
    b.subrange(start, b.len() - 1)
}

/// Whether the payload after the header is long enough for the buffer's opcode.
pub open spec fn payload_ok(b: Seq<u8>) -> bool {
    let op = spec_opcode(b);
    if op == OP_LOOKUP || op == OP_UNLINK || op == OP_RMDIR {
        has_name(b, 40)
    } else if op == OP_MKDIR {
        has_name(b, 48)
    } else if op == OP_CREATE {
        has_name(b, 56)
    } else if op == OP_GETATTR || op == OP_STATFS || op == OP_DESTROY {
        true
    } else if op == OP_SETATTR {
        b.len() >= 128
    } else if op == OP_OPEN || op == OP_OPENDIR {
        b.len() >= 48
    } else if op == OP_INIT {
        b.len() >= 56
    } else if op == OP_READ || op == OP_READDIR || op == OP_RELEASE || op == OP_RELEASEDIR
        || op == OP_FLUSH {
        b.len() >= 64
    } else if op == OP_WRITE {
        b.len() >= 80 && b.len() >= 80 + le_u32(b, 56)
    } else {
        false
    }
}

/// Whether a buffer holds one well-formed request: a full header whose length field is the
/// buffer's length, a known opcode, and a payload of the size that opcode needs.
pub open spec fn well_formed(b: Seq<u8>) -> bool {
    b.len() >= 40 && le_u32(b, 0) == b.len() && payload_ok(b)
}

/// Bit `k` of the setattr validity mask, given as `2^k`.
pub open spec fn mask_bit(valid: nat, pow: nat) -> bool {
    (valid / pow) % 2 == 1
}

pub open spec fn opt_u32(present: bool, v: nat) -> Option<u32> {
    if present { Some(v as u32) } else { None }
}

pub open spec fn opt_u64(present: bool, v: nat) -> Option<u64> {
    if present { Some(v as u64) } else { None }
}

pub open spec fn opt_time(present: bool, secs: nat, nsecs: nat) -> Option<Timestamp> {
    if present { Some(Timestamp { secs: secs as u64, nsecs: nsecs as u32 }) } else { None }
}

/// The setattr arguments held in a buffer's payload.
pub open spec fn spec_setattr_args(b: Seq<u8>) -> SetAttrArgs {
    let valid = le_u32(b, 40);
    SetAttrArgs {
        mode: opt_u32(mask_bit(valid, 1), le_u32(b, 108)),
        uid: opt_u32(mask_bit(valid, 2), le_u32(b, 116)),
        gid: opt_u32(mask_bit(valid, 4), le_u32(b, 120)),
        size: opt_u64(mask_bit(valid, 8), le_u64(b, 56)),
        atime: opt_time(mask_bit(valid, 16), le_u64(b, 72), le_u32(b, 96)),
        mtime: opt_time(mask_bit(valid, 32), le_u64(b, 80), le_u32(b, 100)),
        fh: opt_u64(mask_bit(valid, 64), le_u64(b, 48)),
    }
}

/// Whether `op` is the operation that a well-formed buffer asks for.
pub open spec fn op_decodes(b: Seq<u8>, op: Operation) -> bool {
    let code = spec_opcode(b);
    match op {
        Operation::Lookup { name } => code == OP_LOOKUP && name@ == name_at(b, 40),
        Operation::GetAttr => code == OP_GETATTR,
        Operation::SetAttr { args } => code == OP_SETATTR && args == spec_setattr_args(b),
        Operation::Mkdir { mode, name } => code == OP_MKDIR && mode == le_u32(b, 40)
            && name@ == name_at(b, 48),
        Operation::Unlink { name } => code == OP_UNLINK && name@ == name_at(b, 40),
        Operation::Rmdir { name } => code == OP_RMDIR && name@ == name_at(b, 40),
        Operation::Open { flags } => code == OP_OPEN && flags == le_u32(b, 40),
        Operation::Read { fh, offset, size } => code == OP_READ && fh == le_u64(b, 40)
            && offset == le_u64(b, 48) && size == le_u32(b, 56),
        Operation::Write { fh, offset, data, flags } => code == OP_WRITE && fh == le_u64(b, 40)
            && offset == le_u64(b, 48) && flags == le_u32(b, 72)
            && data@ == b.subrange(80, 80 + le_u32(b, 56) as int),
        Operation::Statfs => code == OP_STATFS,
        Operation::Release { fh, flags, lock_owner, flush } => code == OP_RELEASE && fh
            == le_u64(b, 40) && flags == le_u32(b, 48) && lock_owner == le_u64(b, 56) && flush
            == mask_bit(le_u32(b, 52), 1),
        Operation::Flush { fh, lock_owner } => code == OP_FLUSH && fh == le_u64(b, 40)
            && lock_owner == le_u64(b, 56),
        Operation::Init { major, minor, max_readahead, flags } => code == OP_INIT && major
            == le_u32(b, 40) && minor == le_u32(b, 44) && max_readahead == le_u32(b, 48) && flags
            == le_u32(b, 52),
        Operation::OpenDir { flags } => code == OP_OPENDIR && flags == le_u32(b, 40),
        Operation::ReadDir { fh, offset, size } => code == OP_READDIR && fh == le_u64(b, 40)
            && offset == le_u64(b, 48) && size == le_u32(b, 56),
        Operation::ReleaseDir { fh, flags } => code == OP_RELEASEDIR && fh == le_u64(b, 40)
            && flags == le_u32(b, 48),
        Operation::Create { mode, flags, name } => code == OP_CREATE && flags == le_u32(b, 40)
            && mode == le_u32(b, 44) && name@ == name_at(b, 56),
        Operation::Destroy => code == OP_DESTROY,
    }
}

/// Whether `r` is the request that a well-formed buffer holds.
pub open spec fn decodes_to(b: Seq<u8>, r: Request) -> bool {
    &&& r.unique == le_u64(b, 8)
    &&& r.nodeid == le_u64(b, 16)
    &&& r.uid == le_u32(b, 24)
    &&& r.gid == le_u32(b, 28)
    &&& r.pid == le_u32(b, 32)
    &&& op_decodes(b, r.op)
}

/// The unique id of the request in a well-formed buffer.
pub open spec fn spec_unique(b: Seq<u8>) -> u64 {
    le_u64(b, 8) as u64
}

/// Copies `b[from..to]`.
fn copy_range(b: &[u8], from: usize, to: usize) -> (r: Vec<u8>)
    requires
        from <= to <= b@.len(),
    ensures
        r@ == b@.subrange(from as int, to as int),
{
    let mut r: Vec<u8> = Vec::new();
    let mut i: usize = from;
    while i < to
        invariant
            from <= i <= to <= b@.len(),
            r@ == b@.subrange(from as int, i as int),
        decreases to - i,
    {
        r.push(b[i]);
        i = i + 1;
        assert(r@ =~= b@.subrange(from as int, i as int));
    }
    r
}

/// Reads a zero-terminated name that starts at `start` and ends the buffer.
fn read_name(b: &[u8], start: usize) -> (r: Option<Vec<u8>>)
    ensures
        r is Some <==> has_name(b@, start as int),
        r matches Some(n) ==> n@ == name_at(b@, start as int),
{
    let n = b.len();
    if n > start && b[n - 1] == 0 {
        Some(copy_range(b, start, n - 1))
    } else {
        None
    }
}

/// Decodes the payload of a buffer whose header is complete and consistent.
fn parse_operation(b: &[u8], opcode: u32) -> (r: Option<Operation>)
    requires
        b@.len() >= 40,
        opcode == spec_opcode(b@),
    ensures
        r is Some <==> payload_ok(b@),
        r matches Some(op) ==> op_decodes(b@, op),
{
    let n = b.len();
    if opcode == OP_LOOKUP {
        match read_name(b, 40) {
            Some(name) => Some(Operation::Lookup { name }),
            None => None,
        }
    } else if opcode == OP_UNLINK {
        match read_name(b, 40) {
            Some(name) => Some(Operation::Unlink { name }),
            None => None,
        }
    } else if opcode == OP_RMDIR {
        match read_name(b, 40) {
            Some(name) => Some(Operation::Rmdir { name }),
            None => None,
        }
    } else if opcode == OP_MKDIR {
        if n < 48 {
            return None;
        }
        let mode = read_u32(b, 40);
        match read_name(b, 48) {
            Some(name) => Some(Operation::Mkdir { mode, name }),
            None => None,
        }
    } else if opcode == OP_CREATE {
        if n < 56 {
            return None;
        }
        let flags = read_u32(b, 40);
        let mode = read_u32(b, 44);
        match read_name(b, 56) {
            Some(name) => Some(Operation::Create { mode, flags, name }),
            None => None,
        }
    } else if opcode == OP_GETATTR {
        Some(Operation::GetAttr)
    } else if opcode == OP_STATFS {
        Some(Operation::Statfs)
    } else if opcode == OP_DESTROY {
        Some(Operation::Destroy)
    } else if opcode == OP_SETATTR {
        if n < 128 {
            return None;
        }
        Some(Operation::SetAttr { args: parse_setattr(b) })
    } else if opcode == OP_OPEN || opcode == OP_OPENDIR {
        if n < 48 {
            return None;
        }
        let flags = read_u32(b, 40);
        if opcode == OP_OPEN {
            Some(Operation::Open { flags })
        } else {
            Some(Operation::OpenDir { flags })
        }
    } else if opcode == OP_INIT {
        if n < 56 {
            return None;
        }
        Some(
            Operation::Init {
                major: read_u32(b, 40),
                minor: read_u32(b, 44),
                max_readahead: read_u32(b, 48),
                flags: read_u32(b, 52),
            },
        )
    } else if opcode == OP_READ || opcode == OP_READDIR {
        if n < 64 {
            return None;
        }
        let fh = read_u64(b, 40);
        let offset = read_u64(b, 48);
        let size = read_u32(b, 56);
        if opcode == OP_READ {
            Some(Operation::Read { fh, offset, size })
        } else {
            Some(Operation::ReadDir { fh, offset, size })
        }
    } else if opcode == OP_RELEASE || opcode == OP_RELEASEDIR {
        if n < 64 {
            return None;
        }
        let fh = read_u64(b, 40);
        let flags = read_u32(b, 48);
        if opcode == OP_RELEASE {
            let release_flags = read_u32(b, 52);
            let lock_owner = read_u64(b, 56);
            Some(Operation::Release { fh, flags, lock_owner, flush: release_flags % 2 == 1 })
        } else {
            Some(Operation::ReleaseDir { fh, flags })
        }
    } else if opcode == OP_FLUSH {
        if n < 64 {
            return None;
        }
        Some(Operation::Flush { fh: read_u64(b, 40), lock_owner: read_u64(b, 56) })
    } else if opcode == OP_WRITE {
        if n < 80 {
            return None;
        }
        let size = read_u32(b, 56) as usize;
        if n - 80 < size {
            return None;
        }
        let fh = read_u64(b, 40);
        let offset = read_u64(b, 48);
        let flags = read_u32(b, 72);
        let data = copy_range(b, 80, 80 + size);
        Some(Operation::Write { fh, offset, data, flags })
    } else {
        None
    }
}

/// Decodes the setattr payload.
fn parse_setattr(b: &[u8]) -> (r: SetAttrArgs)
    requires
        b@.len() >= 128,
    ensures
        r == spec_setattr_args(b@),
{
    let valid = read_u32(b, 40);
    SetAttrArgs {
        mode: if (valid / 1) % 2 == 1 { Some(read_u32(b, 108)) } else { None },
        uid: if (valid / 2) % 2 == 1 { Some(read_u32(b, 116)) } else { None },
        gid: if (valid / 4) % 2 == 1 { Some(read_u32(b, 120)) } else { None },
        size: if (valid / 8) % 2 == 1 { Some(read_u64(b, 56)) } else { None },
        atime: if (valid / 16) % 2 == 1 {
            Some(Timestamp { secs: read_u64(b, 72), nsecs: read_u32(b, 96) })
        } else {
            None
        },
        mtime: if (valid / 32) % 2 == 1 {
            Some(Timestamp { secs: read_u64(b, 80), nsecs: read_u32(b, 100) })
        } else {
            None
        },
        fh: if (valid / 64) % 2 == 1 { Some(read_u64(b, 48)) } else { None },
    }
}

impl Request {
    /// Decodes one request buffer. Gives `None` exactly when the buffer is not a well-formed
    /// request (truncated, inconsistent length field, unknown opcode, short payload).
    pub fn parse(b: &[u8]) -> (r: Option<Request>)
        ensures
            r is Some <==> well_formed(b@),
            r matches Some(req) ==> decodes_to(b@, req),
    {
        let n = b.len();
        if n < IN_HEADER_LEN {
            return None;
        }
        let len = read_u32(b, 0);
        if len as usize != n {
            return None;
        }
        let opcode = read_u32(b, 4);
        match parse_operation(b, opcode) {
            Some(op) => Some(
                Request {
                    unique: read_u64(b, 8),
                    nodeid: read_u64(b, 16),
                    uid: read_u32(b, 24),
                    gid: read_u32(b, 28),
                    pid: read_u32(b, 32),
                    op,
                },
            ),
            None => None,
        }
    }
}

} // verus!
