//! Filesystem session
//!
//! A session runs a filesystem implementation while it is mounted at a mount point. Each
//! buffer the kernel delivers is decoded, dispatched to the filesystem, and answered with one
//! framed reply; the session decides after each buffer whether the request loop goes on.

use vstd::prelude::*;

use crate::filesystem::{Entry, Filesystem};
use crate::reply::{
    encode_directory, errno_word, lemma_frame_header, reply_len, reply_unique, spec_frame,
    spec_listing, spec_payload, MAX_PAYLOAD, InitOut, Reply, KERNEL_MINOR_VERSION, KERNEL_VERSION,
    MAX_WRITE_SIZE,
};
use crate::request::{
    op_decodes, spec_opcode, spec_unique, well_formed, Operation, Request, OP_CREATE, OP_DESTROY,
    OP_FLUSH, OP_GETATTR, OP_INIT, OP_LOOKUP, OP_MKDIR, OP_OPEN, OP_OPENDIR, OP_READ, OP_READDIR,
    OP_RELEASE, OP_RELEASEDIR, OP_RMDIR, OP_SETATTR, OP_STATFS, OP_UNLINK, OP_WRITE,
};
use crate::types::{
    DirEntry, FileAttr, Opened, StatFs, Timestamp, EAGAIN, EINTR, EIO, ENODEV, ENOENT,
};
use crate::wire::{bytes_u32, bytes_u64, group_bytes_len, le_u32};

verus! {

broadcast use group_bytes_len;

/// What the request loop does next.
#[derive(Clone, Copy, Debug, PartialEq, Eq, Structural)]
pub enum Control {
    /// Receive the next request.
    Continue,
    /// Stop cleanly.
    Exit,
    /// Stop with this OS error.
    Fail(i32),
}

/// What the session asks of the loop after one received buffer: at most one reply to write,
/// then how to go on.
#[derive(Debug)]
pub struct Action {
    pub reply: Option<Vec<u8>>,
    pub control: Control,
}

/// How the loop treats a failed receive: interrupted, try-again and no-data are retried, a gone
/// device ends the loop cleanly, anything else ends it with that error.
pub open spec fn spec_classify(code: i32) -> Control {
    if code == ENOENT || code == EINTR || code == EAGAIN {
        Control::Continue
    } else if code == ENODEV {
        Control::Exit
    } else {
        Control::Fail(code)
    }
}

/// How the loop treats a receive that failed with OS error `code`.
pub fn classify_error(code: i32) -> (r: Control)
    ensures
        r == spec_classify(code),
{
    if code == ENOENT || code == EINTR || code == EAGAIN {
        Control::Continue
    } else if code == ENODEV {
        Control::Exit
    } else {
        Control::Fail(code)
    }
}

/// Frames `rep` for the request with id `unique`.
fn frame_reply(rep: &Reply, unique: u64) -> (out: Vec<u8>)
    requires
        rep.fits(),
    ensures
        out@ == spec_frame(unique, *rep),
        reply_unique(out@) == unique,
        reply_len(out@) == out@.len(),
{
    proof {
        lemma_frame_header(unique, *rep);
    }
    rep.frame(unique)
}

/// Handling buffers one after another, each reply carries the id of the request it answers:
/// the ids of the replies are those of the requests, in the order received, none skipped or
/// repeated.
pub proof fn lemma_replies_in_request_order(
    bufs: Seq<Seq<u8>>,
    reps: Seq<Reply>,
    replies: Seq<Seq<u8>>,
)
    requires
        bufs.len() == reps.len() == replies.len(),
        forall|i: int|
            0 <= i < bufs.len() ==> (#[trigger] reps[i]).fits() && replies[i] == spec_frame(
                spec_unique(bufs[i]),
                reps[i],
            ),
    ensures
        replies.map_values(|b: Seq<u8>| reply_unique(b)) == bufs.map_values(
            |b: Seq<u8>| spec_unique(b) as nat,
        ),
{
    assert forall|i: int| 0 <= i < bufs.len() implies reply_unique(replies[i]) == spec_unique(
        bufs[i],
    ) by {
        lemma_frame_header(spec_unique(bufs[i]), reps[i]);
    }
    assert(replies.map_values(|b: Seq<u8>| reply_unique(b)) =~= bufs.map_values(
        |b: Seq<u8>| spec_unique(b) as nat,
    ));
}

/// What the filesystem answered to one request, before it is encoded. A listing carries the
/// byte budget the kernel gave for it.
#[derive(Debug)]
pub enum Outcome {
    Entry(Result<Entry, i32>),
    Attr(Result<(Timestamp, FileAttr), i32>),
    Done(Result<(), i32>),
    Opened(Result<Opened, i32>),
    Data(Result<Vec<u8>, i32>),
    Written(Result<u32, i32>),
    Statfs(Result<StatFs, i32>),
    Listing(Result<Vec<DirEntry>, i32>, u32),
    Created(Result<(Entry, Opened), i32>),
}

/// Whether `o` is the kind of answer that the operation in buffer `b` calls for.
pub open spec fn outcome_for(b: Seq<u8>, o: Outcome) -> bool {
    let code = spec_opcode(b);
    match o {
        Outcome::Entry(_) => code == OP_LOOKUP || code == OP_MKDIR,
        Outcome::Attr(_) => code == OP_GETATTR || code == OP_SETATTR,
        Outcome::Done(_) => code == OP_UNLINK || code == OP_RMDIR || code == OP_RELEASE || code
            == OP_FLUSH || code == OP_RELEASEDIR,
        Outcome::Opened(_) => code == OP_OPEN || code == OP_OPENDIR,
        Outcome::Data(_) => code == OP_READ,
        Outcome::Written(_) => code == OP_WRITE,
        Outcome::Statfs(_) => code == OP_STATFS,
        Outcome::Listing(_, size) => code == OP_READDIR && size == le_u32(b, 56),
        Outcome::Created(_) => code == OP_CREATE,
    }
}

/// The reply for an answer other than a listing: the operation's success reply for `Ok`, the
/// error for `Err`.
pub open spec fn spec_reply(o: Outcome) -> Reply {
    match o {
        Outcome::Entry(Ok(e)) => Reply::Entry { ttl: e.ttl, attr: e.attr, generation: e.generation },
        Outcome::Attr(Ok((ttl, attr))) => Reply::Attr { ttl, attr },
        Outcome::Done(Ok(())) => Reply::Empty,
        Outcome::Opened(Ok(o)) => Reply::Open(o),
        Outcome::Data(Ok(d)) => Reply::Data(d),
        Outcome::Written(Ok(n)) => Reply::Write(n),
        Outcome::Statfs(Ok(s)) => Reply::Statfs(s),
        Outcome::Created(Ok((e, o))) => Reply::Create {
            ttl: e.ttl,
            attr: e.attr,
            generation: e.generation,
            opened: o,
        },
        Outcome::Entry(Err(e)) => Reply::Error(e),
        Outcome::Attr(Err(e)) => Reply::Error(e),
        Outcome::Done(Err(e)) => Reply::Error(e),
        Outcome::Opened(Err(e)) => Reply::Error(e),
        Outcome::Data(Err(e)) => Reply::Error(e),
        Outcome::Written(Err(e)) => Reply::Error(e),
        Outcome::Statfs(Err(e)) => Reply::Error(e),
        Outcome::Created(Err(e)) => Reply::Error(e),
        Outcome::Listing(Err(e), _) => Reply::Error(e),
        Outcome::Listing(Ok(_), _) => Reply::Empty,
    }
}

/// `r`, or an input/output error when its payload is too large to frame.
pub open spec fn fit_or_eio(r: Reply) -> Reply {
    if r.fits() {
        r
    } else {
        Reply::Error(EIO)
    }
}

/// The framed bytes that answer request `unique` with `o`. A listing is encoded as the longest
/// prefix of its entries that fits its byte budget.
pub open spec fn spec_answer(unique: u64, o: Outcome) -> Seq<u8> {
    match o {
        Outcome::Listing(Ok(es), size) => {
            let l = spec_listing(es@, size as nat);
            if l.len() <= MAX_PAYLOAD {
                bytes_u32((16 + l.len()) as u32) + bytes_u32(errno_word(0)) + bytes_u64(unique) + l
            } else {
                spec_frame(unique, Reply::Error(EIO))
            }
        },
        _ => spec_frame(unique, fit_or_eio(spec_reply(o))),
    }
}

/// The reply for an answer other than a listing.
fn reply_of(o: Outcome) -> (r: Reply)
    ensures
        r == spec_reply(o),
{
    match o {
        Outcome::Entry(Ok(e)) => Reply::Entry { ttl: e.ttl, attr: e.attr, generation: e.generation },
        Outcome::Attr(Ok((ttl, attr))) => Reply::Attr { ttl, attr },
        Outcome::Done(Ok(())) => Reply::Empty,
        Outcome::Opened(Ok(o)) => Reply::Open(o),
        Outcome::Data(Ok(d)) => Reply::Data(d),
        Outcome::Written(Ok(n)) => Reply::Write(n),
        Outcome::Statfs(Ok(s)) => Reply::Statfs(s),
        Outcome::Created(Ok((e, o))) => Reply::Create {
            ttl: e.ttl,
            attr: e.attr,
            generation: e.generation,
            opened: o,
        },
        Outcome::Entry(Err(e)) => Reply::Error(e),
        Outcome::Attr(Err(e)) => Reply::Error(e),
        Outcome::Done(Err(e)) => Reply::Error(e),
        Outcome::Opened(Err(e)) => Reply::Error(e),
        Outcome::Data(Err(e)) => Reply::Error(e),
        Outcome::Written(Err(e)) => Reply::Error(e),
        Outcome::Statfs(Err(e)) => Reply::Error(e),
        Outcome::Created(Err(e)) => Reply::Error(e),
        Outcome::Listing(Err(e), _) => Reply::Error(e),
        Outcome::Listing(Ok(_), _) => Reply::Empty,
    }
}

/// Frames `rep`, or an input/output error when its payload is too large to frame.
fn frame_fitting(rep: &Reply, unique: u64) -> (out: Vec<u8>)
    ensures
        out@ == spec_frame(unique, fit_or_eio(*rep)),
        reply_unique(out@) == unique,
        reply_len(out@) == out@.len(),
{
    if rep.payload_fits() {
        frame_reply(rep, unique)
    } else {
        frame_reply(&Reply::Error(EIO), unique)
    }
}

/// Encodes the filesystem's answer `o` to request `unique` as the bytes sent to the kernel.
pub fn answer(unique: u64, o: Outcome) -> (bytes: Vec<u8>)
    ensures
        bytes@ == spec_answer(unique, o),
        reply_unique(bytes@) == unique,
        reply_len(bytes@) == bytes@.len(),
{
    match o {
        Outcome::Listing(Ok(es), size) => {
            let v = encode_directory(&es, size);
            assert(spec_payload(Reply::Directory(v)) =~= v@);
            let rep = Reply::Directory(v);
            frame_fitting(&rep, unique)
        },
        o => {
            let ghost og = o;
            let rep = reply_of(o);
            assert(spec_answer(unique, og) == spec_frame(unique, fit_or_eio(rep)));
            frame_fitting(&rep, unique)
        },
    }
}

/// The session data structure
pub struct Session<FS: Filesystem> {
    /// Filesystem operation implementations
    pub filesystem: FS,
    /// Path the filesystem is mounted at
    pub mountpoint: String,
    /// FUSE protocol major version
    pub proto_major: u32,
    /// FUSE protocol minor version
    pub proto_minor: u32,
    /// True if the filesystem is initialized (init operation done)
    pub initialized: bool,
    /// True if the filesystem was destroyed (destroy operation done)
    pub destroyed: bool,
}

/// The reply the session gives to an init request whose readahead is `max_readahead`.
pub open spec fn spec_init_reply(max_readahead: u32) -> Reply {
    Reply::Init(
        InitOut {
            major: KERNEL_VERSION,
            minor: KERNEL_MINOR_VERSION,
            max_readahead,
            flags: 0,
            max_write: MAX_WRITE_SIZE,
        },
    )
}

impl<FS: Filesystem> Session<FS> {
    pub open spec fn spec_mountpoint(&self) -> Seq<char> {
        self.mountpoint@
    }

    /// The session's fields other than the filesystem.
    pub open spec fn same_state(&self, other: &Self) -> bool {
        &&& self.spec_mountpoint() == other.spec_mountpoint()
        &&& self.proto_major == other.proto_major
        &&& self.proto_minor == other.proto_minor
        &&& self.initialized == other.initialized
        &&& self.destroyed == other.destroyed
    }

    /// A session for `filesystem` mounted at `mountpoint`, awaiting the init request.
    pub fn new(filesystem: FS, mountpoint: String) -> (r: Session<FS>)
        ensures
            r.filesystem == filesystem,
            r.spec_mountpoint() == mountpoint@,
            r.proto_major == 0,
            r.proto_minor == 0,
            !r.initialized,
            !r.destroyed,
    {
        Session {
            filesystem,
            mountpoint,
            proto_major: 0,
            proto_minor: 0,
            initialized: false,
            destroyed: false,
        }
    }

    /// Return path of the mounted filesystem
    pub fn mountpoint(&self) -> (r: &str)
        ensures
            r@ == self.spec_mountpoint(),
    {
        self.mountpoint.as_str()
    }

    /// Calls the filesystem operation that `op` names and gives back what it answered.
    fn dispatch(&mut self, nodeid: u64, op: Operation, Ghost(b): Ghost<Seq<u8>>) -> (r: Outcome)
        requires
            old(self).filesystem.inv(),
            op_decodes(b, op),
            spec_opcode(b) != OP_INIT,
            spec_opcode(b) != OP_DESTROY,
        ensures
            final(self).filesystem.inv(),
            final(self).same_state(old(self)),
            outcome_for(b, r),
    {
        let ino = nodeid;
        match op {
            Operation::Lookup { name } => Outcome::Entry(self.filesystem.lookup(ino, name.as_slice())),
            Operation::GetAttr => Outcome::Attr(self.filesystem.getattr(ino)),
            Operation::SetAttr { args } => Outcome::Attr(self.filesystem.setattr(ino, args)),
            Operation::Mkdir { mode, name } => Outcome::Entry(self.filesystem.mkdir(
                ino,
                name.as_slice(),
                mode,
            )),
            Operation::Unlink { name } => Outcome::Done(self.filesystem.unlink(ino, name.as_slice())),
            Operation::Rmdir { name } => Outcome::Done(self.filesystem.rmdir(ino, name.as_slice())),
            Operation::Open { flags } => Outcome::Opened(self.filesystem.open(ino, flags)),
            Operation::Read { fh, offset, size } => Outcome::Data(self.filesystem.read(
                ino,
                fh,
                offset,
                size,
            )),
            Operation::Write { fh, offset, data, flags } => Outcome::Written(self.filesystem.write(
                ino,
                fh,
                offset,
                data.as_slice(),
                flags,
            )),
            Operation::Statfs => Outcome::Statfs(self.filesystem.statfs(ino)),
            Operation::Release { fh, flags, lock_owner, flush } => Outcome::Done(self.filesystem.release(
                ino,
                fh,
                flags,
                lock_owner,
                flush,
            )),
            Operation::Flush { fh, lock_owner } => Outcome::Done(self.filesystem.flush(
                ino,
                fh,
                lock_owner,
            )),
            Operation::OpenDir { flags } => Outcome::Opened(self.filesystem.opendir(ino, flags)),
            Operation::ReadDir { fh, offset, size } => Outcome::Listing(self.filesystem.readdir(
                ino,
                fh,
                offset,
            ), size),
            Operation::ReleaseDir { fh, flags } => Outcome::Done(self.filesystem.releasedir(
                ino,
                fh,
                flags,
            )),
            Operation::Create { mode, flags, name } => Outcome::Created(self.filesystem.create(
                ino,
                name.as_slice(),
                mode,
                flags,
            )),
            Operation::Init { .. } => Outcome::Done(Err(EIO)),
            Operation::Destroy => Outcome::Done(Err(EIO)),
        }
    }

    /// Handles one buffer the kernel delivered.
    ///
    /// After destroy, and for a malformed buffer, the loop ends with no reply. Before init only
    /// the init request is served: any other ends the loop with no reply. Otherwise the request
    /// gets exactly one reply, framed with its unique id.
    pub fn handle(&mut self, buf: &[u8]) -> (r: Action)
        requires
            old(self).filesystem.inv(),
        ensures
            final(self).filesystem.inv(),
            r.reply matches Some(bytes) ==> well_formed(buf@) && reply_unique(bytes@) == spec_unique(
                buf@,
            ) && reply_len(bytes@) == bytes@.len(),
            old(self).destroyed || !well_formed(buf@) || (!old(self).initialized && spec_opcode(
                buf@,
            ) != OP_INIT) ==> {
                &&& r.reply is None
                &&& r.control == Control::Exit
                &&& final(self).same_state(old(self))
                &&& final(self).filesystem == old(self).filesystem
            },
            !old(self).destroyed && well_formed(buf@) && !old(self).initialized && spec_opcode(buf@)
                == OP_INIT ==> (r.reply matches Some(bytes) && {
                let unique = spec_unique(buf@);
                if r.control == Control::Continue {
                    &&& bytes@ == spec_frame(unique, spec_init_reply(le_u32(buf@, 48) as u32))
                    &&& final(self).initialized
                    &&& final(self).proto_major == le_u32(buf@, 40)
                    &&& final(self).proto_minor == le_u32(buf@, 44)
                    &&& !final(self).destroyed
                    &&& final(self).spec_mountpoint() == old(self).spec_mountpoint()
                } else {
                    &&& r.control == Control::Exit
                    &&& exists|e: i32| bytes@ == spec_frame(unique, Reply::Error(e))
                    &&& final(self).same_state(old(self))
                }
            }),
            !old(self).destroyed && well_formed(buf@) && old(self).initialized && spec_opcode(buf@)
                == OP_INIT ==> {
                &&& (r.reply matches Some(bytes) && bytes@ == spec_frame(
                    spec_unique(buf@),
                    Reply::Error(EIO),
                ))
                &&& r.control == Control::Continue
                &&& final(self).same_state(old(self))
                &&& final(self).filesystem == old(self).filesystem
            },
            !old(self).destroyed && well_formed(buf@) && old(self).initialized && spec_opcode(buf@)
                == OP_DESTROY ==> {
                &&& (r.reply matches Some(bytes) && bytes@ == spec_frame(
                    spec_unique(buf@),
                    Reply::Empty,
                ))
                &&& r.control == Control::Exit
                &&& final(self).destroyed
                &&& final(self).initialized
                &&& final(self).proto_major == old(self).proto_major
                &&& final(self).proto_minor == old(self).proto_minor
                &&& final(self).spec_mountpoint() == old(self).spec_mountpoint()
            },
            !old(self).destroyed && well_formed(buf@) && old(self).initialized && spec_opcode(buf@)
                != OP_INIT && spec_opcode(buf@) != OP_DESTROY ==> {
                &&& (r.reply matches Some(bytes) && exists|o: Outcome|
                    outcome_for(buf@, o) && bytes@ == spec_answer(spec_unique(buf@), o))
                &&& r.control == Control::Continue
                &&& final(self).same_state(old(self))
            },
    {
        if self.destroyed {
            return Action { reply: None, control: Control::Exit };
        }
        let req = match Request::parse(buf) {
            Some(req) => req,
            None => {
                return Action { reply: None, control: Control::Exit };
            },
        };
        let unique = req.unique;
        match req.op {
            Operation::Init { major, minor, max_readahead, .. } => {
                if self.initialized {
                    let rep = Reply::Error(EIO);
                    return Action { reply: Some(frame_reply(&rep, unique)), control: Control::Continue };
                }
                match self.filesystem.init() {
                    Ok(()) => {
                        self.proto_major = major;
                        self.proto_minor = minor;
                        self.initialized = true;
                        let rep = Reply::Init(
                            InitOut {
                                major: KERNEL_VERSION,
                                minor: KERNEL_MINOR_VERSION,
                                max_readahead,
                                flags: 0,
                                max_write: MAX_WRITE_SIZE,
                            },
                        );
                        Action { reply: Some(frame_reply(&rep, unique)), control: Control::Continue }
                    },
                    Err(e) => {
                        let rep = Reply::Error(e);
                        let bytes = frame_reply(&rep, unique);
                        assert(bytes@ == spec_frame(spec_unique(buf@), Reply::Error(e)));
                        Action { reply: Some(bytes), control: Control::Exit }
                    },
                }
            },
            op => {
                if !self.initialized {
                    return Action { reply: None, control: Control::Exit };
                }
                match op {
                    Operation::Destroy => {
                        self.filesystem.destroy();
                        self.destroyed = true;
                        let rep = Reply::Empty;
                        Action { reply: Some(frame_reply(&rep, unique)), control: Control::Exit }
                    },
                    op => {
                        let o = self.dispatch(req.nodeid, op, Ghost(buf@));
                        let ghost og = o;
                        let bytes = answer(unique, o);
                        assert(outcome_for(buf@, og) && bytes@ == spec_answer(spec_unique(buf@), og));
                        Action { reply: Some(bytes), control: Control::Continue }
                    },
                }
            },
        }
    }
}

} // verus!
