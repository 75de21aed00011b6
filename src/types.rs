//! Values that cross the boundary between the driver and a filesystem implementation.

use vstd::prelude::*;

verus! {

/// No such file or directory (Linux error number).
pub const ENOENT: i32 = 2;
/// Input/output error (Linux error number).
pub const EIO: i32 = 5;
/// Interrupted system call (Linux error number).
pub const EINTR: i32 = 4;
/// Resource temporarily unavailable (Linux error number).
pub const EAGAIN: i32 = 11;
/// No such device: the connection was torn down (Linux error number).
pub const ENODEV: i32 = 19;
/// File too large (Linux error number).
pub const EFBIG: i32 = 27;
/// No space left on device (Linux error number).
pub const ENOSPC: i32 = 28;
/// Function not implemented (Linux error number).
pub const ENOSYS: i32 = 38;
/// Directory not empty (Linux error number).
pub const ENOTEMPTY: i32 = 39;

/// A point in time as seconds and nanoseconds since the Unix epoch.
#[derive(Clone, Copy, Debug, PartialEq, Eq, Structural)]
pub struct Timestamp {
    pub secs: u64,
    pub nsecs: u32,
}

/// The kind of a filesystem object.
#[derive(Clone, Copy, Debug, PartialEq, Eq, Structural)]
pub enum FileType {
    NamedPipe,
    CharDevice,
    BlockDevice,
    Directory,
    RegularFile,
    Symlink,
    Socket,
}

/// The file-type bits of a mode word for `kind`.
pub open spec fn spec_type_bits(kind: FileType) -> u32 {
    match kind {
        FileType::NamedPipe => 0o010000,
        FileType::CharDevice => 0o020000,
        FileType::BlockDevice => 0o060000,
        FileType::Directory => 0o040000,
        FileType::RegularFile => 0o100000,
        FileType::Symlink => 0o120000,
        FileType::Socket => 0o140000,
    }
}

/// The file-type bits of a mode word for `kind`.
pub fn type_bits(kind: FileType) -> (r: u32)
    ensures
        r == spec_type_bits(kind),
{
    match kind {
        FileType::NamedPipe => 0o010000,
        FileType::CharDevice => 0o020000,
        FileType::BlockDevice => 0o060000,
        FileType::Directory => 0o040000,
        FileType::RegularFile => 0o100000,
        FileType::Symlink => 0o120000,
        FileType::Socket => 0o140000,
    }
}

/// Attributes of one filesystem object.
#[derive(Clone, Copy, Debug, PartialEq, Eq, Structural)]
pub struct FileAttr {
    pub ino: u64,
    pub size: u64,
    pub blocks: u64,
    pub atime: Timestamp,
    pub mtime: Timestamp,
    pub ctime: Timestamp,
    pub crtime: Timestamp,
    pub kind: FileType,
    pub perm: u16,
    pub nlink: u32,
    pub uid: u32,
    pub gid: u32,
    pub rdev: u32,
    pub flags: u32,
}

/// The attributes of a fresh object: everything zero but its number and kind.
pub open spec fn spec_fresh_attr(ino: u64, kind: FileType) -> FileAttr {
    FileAttr {
        ino,
        size: 0,
        blocks: 0,
        atime: Timestamp { secs: 0, nsecs: 0 },
        mtime: Timestamp { secs: 0, nsecs: 0 },
        ctime: Timestamp { secs: 0, nsecs: 0 },
        crtime: Timestamp { secs: 0, nsecs: 0 },
        kind,
        perm: 0,
        nlink: 0,
        uid: 0,
        gid: 0,
        rdev: 0,
        flags: 0,
    }
}

impl FileAttr {
    /// The attributes of a fresh object: everything zero but its number and kind.
    pub fn new(ino: u64, kind: FileType) -> (r: FileAttr)
        ensures
            r == spec_fresh_attr(ino, kind),
    {
        let zero = Timestamp { secs: 0, nsecs: 0 };
        FileAttr {
            ino,
            size: 0,
            blocks: 0,
            atime: zero,
            mtime: zero,
            ctime: zero,
            crtime: zero,
            kind,
            perm: 0,
            nlink: 0,
            uid: 0,
            gid: 0,
            rdev: 0,
            flags: 0,
        }
    }
}

/// Capacity and usage figures of a filesystem.
#[derive(Clone, Copy, Debug, PartialEq, Eq, Structural)]
pub struct StatFs {
    pub blocks: u64,
    pub bfree: u64,
    pub bavail: u64,
    pub files: u64,
    pub ffree: u64,
    pub bsize: u32,
    pub namelen: u32,
    pub frsize: u32,
}

/// One entry of a directory listing; `offset` is where a listing resumes after it.
#[derive(Clone, Debug)]
pub struct DirEntry {
    pub ino: u64,
    pub offset: u64,
    pub kind: FileType,
    pub name: Vec<u8>,
}

/// What `open` and `opendir` hand back: a handle and open flags.
#[derive(Clone, Copy, Debug, PartialEq, Eq, Structural)]
pub struct Opened {
    pub fh: u64,
    pub flags: u32,
}

/// Optional new values for `setattr`; only the fields given change.
#[derive(Clone, Copy, Debug, PartialEq, Eq, Structural)]
pub struct SetAttrArgs {
    pub mode: Option<u32>,
    pub uid: Option<u32>,
    pub gid: Option<u32>,
    pub size: Option<u64>,
    pub atime: Option<Timestamp>,
    pub mtime: Option<Timestamp>,
    pub fh: Option<u64>,
}

} // verus!
