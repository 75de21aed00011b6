//! The operations a filesystem implementation offers to the driver.

use vstd::prelude::*;

use crate::types::{DirEntry, FileAttr, Opened, SetAttrArgs, StatFs, Timestamp, ENOSYS};

verus! {

/// A directory entry as `lookup`, `mkdir` and `create` answer it: how long the kernel may cache
/// it, the attributes, and the generation of the node number.
#[derive(Clone, Copy, Debug, PartialEq, Eq, Structural)]
pub struct Entry {
    pub ttl: Timestamp,
    pub attr: FileAttr,
    pub generation: u64,
}

/// What a filesystem implements. Each method's return value is its one reply to the kernel;
/// every method but `init` and `destroy` answers "not implemented" unless overridden.
pub trait Filesystem {
    /// The implementation's own well-formedness, kept by every operation.
    open spec fn inv(&self) -> bool {
        true
    }

    /// Called once, first; an error aborts the mount.
    fn init(&mut self) -> (r: Result<(), i32>)
        requires
            old(self).inv(),
        ensures
            final(self).inv(),
    {
        Ok(())
    }

    /// Called once, last.
    fn destroy(&mut self)
        requires
            old(self).inv(),
        ensures
            final(self).inv(),
    {
    }

    fn lookup(&mut self, parent: u64, name: &[u8]) -> (r: Result<Entry, i32>)
        requires
            old(self).inv(),
        ensures
            final(self).inv(),
    {
        Err(ENOSYS)
    }

    fn getattr(&mut self, ino: u64) -> (r: Result<(Timestamp, FileAttr), i32>)
        requires
            old(self).inv(),
        ensures
            final(self).inv(),
    {
        Err(ENOSYS)
    }

    fn setattr(&mut self, ino: u64, args: SetAttrArgs) -> (r: Result<(Timestamp, FileAttr), i32>)
        requires
            old(self).inv(),
        ensures
            final(self).inv(),
    {
        Err(ENOSYS)
    }

    fn mkdir(&mut self, parent: u64, name: &[u8], mode: u32) -> (r: Result<Entry, i32>)
        requires
            old(self).inv(),
        ensures
            final(self).inv(),
    {
        Err(ENOSYS)
    }

    fn unlink(&mut self, parent: u64, name: &[u8]) -> (r: Result<(), i32>)
        requires
            old(self).inv(),
        ensures
            final(self).inv(),
    {
        Err(ENOSYS)
    }

    fn rmdir(&mut self, parent: u64, name: &[u8]) -> (r: Result<(), i32>)
        requires
            old(self).inv(),
        ensures
            final(self).inv(),
    {
        Err(ENOSYS)
    }

    fn open(&mut self, ino: u64, flags: u32) -> (r: Result<Opened, i32>)
        requires
            old(self).inv(),
        ensures
            final(self).inv(),
    {
        Err(ENOSYS)
    }

    fn read(&mut self, ino: u64, fh: u64, offset: u64, size: u32) -> (r: Result<Vec<u8>, i32>)
        requires
            old(self).inv(),
        ensures
            final(self).inv(),
    {
        Err(ENOSYS)
    }

    fn write(&mut self, ino: u64, fh: u64, offset: u64, data: &[u8], flags: u32) -> (r: Result<
        u32,
        i32,
    >)
        requires
            old(self).inv(),
        ensures
            final(self).inv(),
    {
        Err(ENOSYS)
    }

    fn flush(&mut self, ino: u64, fh: u64, lock_owner: u64) -> (r: Result<(), i32>)
        requires
            old(self).inv(),
        ensures
            final(self).inv(),
    {
        Err(ENOSYS)
    }

    fn release(&mut self, ino: u64, fh: u64, flags: u32, lock_owner: u64, flush: bool) -> (r:
        Result<(), i32>)
        requires
            old(self).inv(),
        ensures
            final(self).inv(),
    {
        Err(ENOSYS)
    }

    fn opendir(&mut self, ino: u64, flags: u32) -> (r: Result<Opened, i32>)
        requires
            old(self).inv(),
        ensures
            final(self).inv(),
    {
        Err(ENOSYS)
    }

    /// Entries from `offset` on, in a stable order; each carries the offset to resume after it.
    fn readdir(&mut self, ino: u64, fh: u64, offset: u64) -> (r: Result<Vec<DirEntry>, i32>)
        requires
            old(self).inv(),
        ensures
            final(self).inv(),
    {
        Err(ENOSYS)
    }

    fn releasedir(&mut self, ino: u64, fh: u64, flags: u32) -> (r: Result<(), i32>)
        requires
            old(self).inv(),
        ensures
            final(self).inv(),
    {
        Err(ENOSYS)
    }

    fn statfs(&mut self, ino: u64) -> (r: Result<StatFs, i32>)
        requires
            old(self).inv(),
        ensures
            final(self).inv(),
    {
        Err(ENOSYS)
    }

    fn create(&mut self, parent: u64, name: &[u8], mode: u32, flags: u32) -> (r: Result<
        (Entry, Opened),
        i32,
    >)
        requires
            old(self).inv(),
        ensures
            final(self).inv(),
    {
        Err(ENOSYS)
    }
}

} // verus!
