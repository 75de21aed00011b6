//! A filesystem held in memory: a node table, file contents, and ordered child lists.

use std::collections::HashMap;
use vstd::prelude::*;
use vstd::std_specs::hash::group_hash_axioms;
use vstd::string::StringSliceAdditionalSpecFns;

use crate::filesystem::{Entry, Filesystem};
use crate::types::{
    spec_fresh_attr, DirEntry, FileAttr, FileType, Opened, SetAttrArgs, StatFs, Timestamp, EFBIG,
    ENOENT, ENOSPC, ENOTEMPTY,
};

verus! {

broadcast use group_hash_axioms;

pub const BLOCK_SIZE: u32 = 4096;
pub const FRSIZE: u32 = 4096;

/// One node: its name within its parent and its attributes.
#[derive(Debug)]
pub struct Node {
    pub name: Vec<u8>,
    pub attr: FileAttr,
}

/// A simple in-memory filesystem.
#[derive(Debug)]
pub struct MemoryFS {
    max_size: u64,
    inodes_num: u64,
    inodes: HashMap<u64, Node>,
    data: HashMap<u64, Vec<u8>>,
    parent_children: HashMap<u64, Vec<u64>>,
}

/// The abstract state of a `MemoryFS`.
pub ghost struct FsView {
    pub max_size: u64,
    /// The highest node number handed out.
    pub last_ino: u64,
    pub attrs: Map<u64, FileAttr>,
    pub names: Map<u64, Seq<u8>>,
    pub data: Map<u64, Seq<u8>>,
    pub children: Map<u64, Seq<u64>>,
}

impl View for MemoryFS {
    type V = FsView;

    closed spec fn view(&self) -> FsView {
        FsView {
            max_size: self.max_size,
            last_ino: self.inodes_num,
            attrs: self.inodes@.map_values(|n: Node| n.attr),
            names: self.inodes@.map_values(|n: Node| n.name@),
            data: self.data@.map_values(|v: Vec<u8>| v@),
            children: self.parent_children@.map_values(|v: Vec<u64>| v@),
        }
    }
}

/// How long the kernel may cache what this filesystem answers: one second.
pub open spec fn spec_ttl() -> Timestamp {
    Timestamp { secs: 1, nsecs: 0 }
}

/// The child lists are consistent with the node table: every list belongs to a node and does
/// not list that node itself, every listed child is a node, and no node is listed twice, under
/// one parent or under two.
pub open spec fn links_ok(v: FsView) -> bool {
    &&& forall|p: u64| #[trigger] v.children.contains_key(p) ==> v.attrs.contains_key(p)
    &&& forall|p: u64, j: int|
        v.children.contains_key(p) && 0 <= j < v.children[p].len() ==> #[trigger] v.children[p][j]
            != p
    &&& forall|p: u64, j: int|
        v.children.contains_key(p) && 0 <= j < v.children[p].len() ==> v.attrs.contains_key(
            #[trigger] v.children[p][j],
        )
    &&& forall|p: u64, q: u64, i: int, j: int|
        v.children.contains_key(p) && v.children.contains_key(q) && 0 <= i < v.children[p].len()
            && 0 <= j < v.children[q].len() && #[trigger] v.children[p][i]
            == #[trigger] v.children[q][j] ==> p == q && i == j
}

/// The index of the first of `kids[i..]` whose name is `name`, or -1.
pub open spec fn find_from(names: Map<u64, Seq<u8>>, kids: Seq<u64>, name: Seq<u8>, i: int) -> int
    decreases kids.len() - i,
{
    if i < 0 || i >= kids.len() {
        -1
    } else if names.contains_key(kids[i]) && names[kids[i]] == name {
        i
    } else {
        find_from(names, kids, name, i + 1)
    }
}

/// The index within `parent`'s children of the first one named `name`, or -1.
pub open spec fn child_index(v: FsView, parent: u64, name: Seq<u8>) -> int {
    if v.children.contains_key(parent) {
        find_from(v.names, v.children[parent], name, 0)
    } else {
        -1
    }
}

/// The first child of `parent` named `name`.
pub open spec fn child_named(v: FsView, parent: u64, name: Seq<u8>) -> Option<u64> {
    let i = child_index(v, parent, name);
    if i >= 0 {
        Some(v.children[parent][i])
    } else {
        None
    }
}

proof fn lemma_find_from_range(names: Map<u64, Seq<u8>>, kids: Seq<u64>, name: Seq<u8>, i: int)
    requires
        0 <= i,
    ensures
        find_from(names, kids, name, i) == -1 || (i <= find_from(names, kids, name, i) < kids.len()
            && names.contains_key(kids[find_from(names, kids, name, i)]) && names[kids[find_from(
            names,
            kids,
            name,
            i,
        )]] == name),
    decreases kids.len() - i,
{
    if i < kids.len() {
        lemma_find_from_range(names, kids, name, i + 1);
    }
}

/// A fresh regular file or directory.
pub open spec fn spec_new_attr(ino: u64, kind: FileType) -> FileAttr {
    FileAttr { perm: 0o755, ..spec_fresh_attr(ino, kind) }
}

/// The content of a file after writing `d` at `off`: the gap past the old end reads as zeros.
pub open spec fn spec_written(prev: Seq<u8>, off: int, d: Seq<u8>) -> Seq<u8> {
    let len = if prev.len() > off + d.len() { prev.len() as int } else { off + d.len() };
    Seq::new(
        len as nat,
        |i: int|
            if off <= i < off + d.len() {
                d[i - off]
            } else if i < prev.len() {
                prev[i]
            } else {
                0u8
            },
    )
}

/// What `read` answers: the bytes from `off`, at most `size` of them; none past the end.
pub open spec fn spec_read(d: Seq<u8>, off: int, size: int) -> Seq<u8> {
    let lo = if off < d.len() { off } else { d.len() as int };
    let hi = if lo + size < d.len() { lo + size } else { d.len() as int };
    d.subrange(lo, hi)
}

/// The state after adding node `ino` of `kind`, named `name`, as the last child of `parent`.
pub open spec fn spec_add_node(v: FsView, parent: u64, name: Seq<u8>, ino: u64, kind: FileType) -> FsView {
    FsView {
        last_ino: ino,
        attrs: v.attrs.insert(ino, spec_new_attr(ino, kind)),
        names: v.names.insert(ino, name),
        data: v.data.insert(ino, Seq::empty()),
        children: if kind == FileType::Directory {
            v.children.insert(ino, Seq::empty()).insert(parent, v.children[parent].push(ino))
        } else {
            v.children.insert(parent, v.children[parent].push(ino))
        },
        ..v
    }
}

/// The state after removing child `i` of `parent`.
pub open spec fn spec_remove_child(v: FsView, parent: u64, i: int) -> FsView {
    let c = v.children[parent][i];
    FsView {
        attrs: v.attrs.remove(c),
        names: v.names.remove(c),
        data: v.data.remove(c),
        children: v.children.remove(c).insert(parent, v.children[parent].remove(i)),
        ..v
    }
}

/// The attributes after a sparse update: only the fields given change.
pub open spec fn spec_setattr(a: FileAttr, args: SetAttrArgs) -> FileAttr {
    FileAttr {
        perm: match args.mode {
            Some(m) => m as u16,
            None => a.perm,
        },
        uid: match args.uid {
            Some(u) => u,
            None => a.uid,
        },
        gid: match args.gid {
            Some(g) => g,
            None => a.gid,
        },
        size: match args.size {
            Some(n) => n,
            None => a.size,
        },
        atime: match args.atime {
            Some(t) => t,
            None => a.atime,
        },
        mtime: match args.mtime {
            Some(t) => t,
            None => a.mtime,
        },
        ..a
    }
}

/// Reading back the range just written gives the bytes written; what lay between the old
/// end and the write reads as zeros, and the length becomes the larger of the old length and
/// the write's end.
pub proof fn lemma_read_after_write(prev: Seq<u8>, off: nat, d: Seq<u8>)
    ensures
        spec_read(spec_written(prev, off as int, d), off as int, d.len() as int) == d,
        forall|i: int|
            prev.len() <= i < off ==> #[trigger] spec_written(prev, off as int, d)[i] == 0u8,
        spec_written(prev, off as int, d).len() == if prev.len() > off + d.len() {
            prev.len()
        } else {
            off + d.len()
        },
{
    let w = spec_written(prev, off as int, d);
    assert(spec_read(w, off as int, d.len() as int) =~= d);
}

/// Writing `d` at `off` into an empty file stores `off` zero bytes followed by `d`: the
/// stored length is `off + d.len()`.
pub proof fn lemma_write_into_empty(off: nat, d: Seq<u8>)
    ensures
        spec_written(Seq::empty(), off as int, d) == Seq::new(off, |i: int| 0u8) + d,
        spec_written(Seq::empty(), off as int, d).len() == off + d.len(),
{
    assert(spec_written(Seq::empty(), off as int, d) =~= Seq::new(off, |i: int| 0u8) + d);
}

/// Copies a byte slice.
fn copy_bytes(b: &[u8]) -> (r: Vec<u8>)
    ensures
        r@ == b@,
{
    let mut r: Vec<u8> = Vec::new();
    let mut i: usize = 0;
    while i < b.len()
        invariant
            i <= b@.len(),
            r@ == b@.subrange(0, i as int),
        decreases b@.len() - i,
    {
        r.push(b[i]);
        i = i + 1;
        assert(r@ =~= b@.subrange(0, i as int));
    }
    assert(b@.subrange(0, b@.len() as int) =~= b@);
    r
}

/// Whether two byte slices are equal.
fn bytes_eq(a: &[u8], b: &[u8]) -> (r: bool)
    ensures
        r == (a@ == b@),
{
    if a.len() != b.len() {
        return false;
    }
    let mut i: usize = 0;
    while i < a.len()
        invariant
            i <= a@.len() == b@.len(),
            a@.subrange(0, i as int) == b@.subrange(0, i as int),
        decreases a@.len() - i,
    {
        if a[i] != b[i] {
            assert(a@[i as int] != b@[i as int]);
            return false;
        }
        i = i + 1;
        assert(a@.subrange(0, i as int) =~= b@.subrange(0, i as int));
    }
    assert(a@ =~= a@.subrange(0, i as int));
    assert(b@ =~= b@.subrange(0, i as int));
    true
}

/// Create a new in-memory filesystem
pub fn new(max_size: u64) -> (r: MemoryFS)
    ensures
        r.wf(),
        r@ == MemoryFS::spec_empty(max_size),
{
    MemoryFS::new(max_size)
}

impl MemoryFS {
    /// An empty filesystem of capacity `max_size`.
    pub open spec fn spec_empty(max_size: u64) -> FsView {
        FsView {
            max_size,
            last_ino: 0,
            attrs: Map::empty(),
            names: Map::empty(),
            data: Map::empty(),
            children: Map::empty(),
        }
    }

    /// Every node number in use is at most the last one handed out, and each node's
    /// attributes carry its own number.
    pub closed spec fn wf(&self) -> bool {
        &&& forall|k: u64| #[trigger]
            self.inodes@.contains_key(k) ==> k <= self.inodes_num && self.inodes@[k].attr.ino == k
        &&& forall|k: u64| #[trigger] self.data@.contains_key(k) ==> k <= self.inodes_num
        &&& forall|k: u64| #[trigger] self.parent_children@.contains_key(k) ==> k <= self.inodes_num
        &&& links_ok(self@)
    }

    /// In every well-formed filesystem the child lists are consistent with the node table, and
    /// no node number in use exceeds the last one handed out, so the next is free.
    pub proof fn lemma_links_consistent(&self)
        requires
            self.wf(),
        ensures
            links_ok(self@),
            forall|k: u64| #[trigger] self@.attrs.contains_key(k) ==> k <= self@.last_ino,
            forall|k: u64| #[trigger] self@.data.contains_key(k) ==> k <= self@.last_ino,
            forall|k: u64| #[trigger] self@.children.contains_key(k) ==> k <= self@.last_ino,
    {
    }

    pub fn new(max_size: u64) -> (r: MemoryFS)
        ensures
            r.wf(),
            r@ == MemoryFS::spec_empty(max_size),
    {
        let r = MemoryFS {
            max_size,
            inodes_num: 0,
            inodes: HashMap::new(),
            data: HashMap::new(),
            parent_children: HashMap::new(),
        };
        assert(r@.attrs =~= Map::empty());
        assert(r@.names =~= Map::empty());
        assert(r@.data =~= Map::empty());
        assert(r@.children =~= Map::empty());
        r
    }

    /// The index within `parent`'s children of the first one named `name`.
    fn find_child(&self, parent: u64, name: &[u8]) -> (r: Option<usize>)
        ensures
            match r {
                Some(i) => child_index(self@, parent, name@) == i && self@.children.contains_key(
                    parent,
                ) && i < self@.children[parent].len(),
                None => child_index(self@, parent, name@) == -1,
            },
    {
        match self.parent_children.get(&parent) {
            None => None,
            Some(kids) => {
                let ghost names = self@.names;
                let mut i: usize = 0;
                while i < kids.len()
                    invariant
                        self@.children.contains_key(parent),
                        kids@ == self@.children[parent],
                        names == self@.names,
                        i <= kids@.len(),
                        find_from(names, kids@, name@, 0) == find_from(names, kids@, name@, i as int),
                    decreases kids@.len() - i,
                {
                    let k = kids[i];
                    match self.inodes.get(&k) {
                        Some(node) => {
                            if bytes_eq(node.name.as_slice(), name) {
                                return Some(i);
                            }
                        },
                        None => {},
                    }
                    i = i + 1;
                }
                None
            },
        }
    }

    /// The first child of `parent` named `name`.
    pub fn get_node_by_name(&self, parent: u64, name: &str) -> (r: Option<u64>)
        ensures
            r == child_named(self@, parent, name.spec_bytes()),
    {
        match self.find_child(parent, name.as_bytes()) {
            Some(i) => {
                let kids = self.parent_children.get(&parent).unwrap();
                Some(kids[i])
            },
            None => None,
        }
    }

    /// Sets up the root directory (node 1, named ".") and node 2, named "..".
    pub fn init(&mut self) -> (r: Result<(), i32>)
        requires
            old(self).wf(),
        ensures
            final(self).wf(),
            r is Ok,
            final(self)@ == (FsView {
                last_ino: if old(self)@.last_ino < 2 { 2 } else { old(self)@.last_ino },
                attrs: old(self)@.attrs.insert(1, spec_fresh_attr(1, FileType::Directory)).insert(
                    2,
                    spec_fresh_attr(2, FileType::Directory),
                ),
                names: old(self)@.names.insert(1, seq![46u8]).insert(2, seq![46u8, 46u8]),
                children: old(self)@.children.insert(1, Seq::empty()),
                ..old(self)@
            }),
    {
        let root = FileAttr::new(1, FileType::Directory);
        let mut dot: Vec<u8> = Vec::new();
        dot.push(46u8);
        assert(dot@ =~= seq![46u8]);
        self.inodes.insert(1, Node { name: dot, attr: root });
        let parent = FileAttr::new(2, FileType::Directory);
        let mut dotdot: Vec<u8> = Vec::new();
        dotdot.push(46u8);
        dotdot.push(46u8);
        assert(dotdot@ =~= seq![46u8, 46u8]);
        self.inodes.insert(2, Node { name: dotdot, attr: parent });
        self.parent_children.insert(1, Vec::new());
        if self.inodes_num < 2 {
            self.inodes_num = 2;
        }
        proof {
            let v = self@;
            let o = old(self)@;
            assert(v.attrs =~= o.attrs.insert(1, spec_fresh_attr(1, FileType::Directory)).insert(
                2,
                spec_fresh_attr(2, FileType::Directory),
            ));
            assert(v.names =~= o.names.insert(1, seq![46u8]).insert(2, seq![46u8, 46u8]));
            assert(v.children =~= o.children.insert(1, Seq::empty()));
            assert(v.data =~= o.data);
        }
        Ok(())
    }

    /// The attributes of `ino`.
    pub fn getattr(&self, ino: u64) -> (r: Result<(Timestamp, FileAttr), i32>)
        ensures
            r == if self@.attrs.contains_key(ino) {
                Ok::<(Timestamp, FileAttr), i32>((spec_ttl(), self@.attrs[ino]))
            } else {
                Err(ENOENT)
            },
    {
        match self.inodes.get(&ino) {
            Some(node) => Ok((Timestamp { secs: 1, nsecs: 0 }, node.attr)),
            None => Err(ENOENT),
        }
    }

    /// The entry of the child of `parent` named `name`.
    pub fn lookup(&self, parent: u64, name: &[u8]) -> (r: Result<Entry, i32>)
        ensures
            r == match child_named(self@, parent, name@) {
                Some(c) => Ok::<Entry, i32>(
                    Entry { ttl: spec_ttl(), attr: self@.attrs[c], generation: 0 },
                ),
                None => Err(ENOENT),
            },
    {
        match self.find_child(parent, name) {
            Some(i) => {
                let kids = self.parent_children.get(&parent).unwrap();
                let c = kids[i];
                proof {
                    lemma_find_from_range(self@.names, kids@, name@, 0);
                }
                let node = self.inodes.get(&c).unwrap();
                Ok(Entry { ttl: Timestamp { secs: 1, nsecs: 0 }, attr: node.attr, generation: 0 })
            },
            None => Err(ENOENT),
        }
    }

    /// Capacity figures: the whole size as free blocks, and the node count.
    pub fn statfs(&self) -> (r: StatFs)
        ensures
            r == (StatFs {
                blocks: self@.max_size / 4096,
                bfree: self@.max_size / 4096,
                bavail: self@.max_size / 4096,
                files: self@.last_ino,
                ffree: 1000,
                bsize: BLOCK_SIZE,
                namelen: 255,
                frsize: FRSIZE,
            }),
    {
        let blocks = self.max_size / FRSIZE as u64;
        StatFs {
            blocks,
            bfree: blocks,
            bavail: blocks,
            files: self.inodes_num,
            ffree: 1000,
            bsize: BLOCK_SIZE,
            namelen: 255,
            frsize: FRSIZE,
        }
    }

    /// At most `size` bytes of `ino`'s content from `offset`; none past the end.
    pub fn read(&self, ino: u64, offset: u64, size: u32) -> (r: Result<Vec<u8>, i32>)
        ensures
            match r {
                Ok(d) => self@.data.contains_key(ino) && d@ == spec_read(
                    self@.data[ino],
                    offset as int,
                    size as int,
                ),
                Err(e) => !self@.data.contains_key(ino) && e == ENOENT,
            },
    {
        match self.data.get(&ino) {
            Some(d) => {
                let n = d.len();
                let lo: usize = if (offset as u128) < (n as u128) {
                    offset as usize
                } else {
                    n
                };
                let hi: usize = if n - lo > size as usize {
                    lo + size as usize
                } else {
                    n
                };
                let mut out: Vec<u8> = Vec::new();
                let mut i: usize = lo;
                while i < hi
                    invariant
                        lo <= i <= hi <= d@.len(),
                        out@ == d@.subrange(lo as int, i as int),
                    decreases hi - i,
                {
                    out.push(d[i]);
                    i = i + 1;
                    assert(out@ =~= d@.subrange(lo as int, i as int));
                }
                Ok(out)
            },
            None => Err(ENOENT),
        }
    }

    /// The children of `ino` from position `offset` on; entry `j` resumes at `j + 1`.
    pub fn readdir(&self, ino: u64, offset: u64) -> (r: Result<Vec<DirEntry>, i32>)
        ensures
            self.wf() ==> r is Ok,
            !self@.children.contains_key(ino) ==> (r matches Ok(es) && es@.len() == 0),
            self@.children.contains_key(ino) ==> {
                let kids = self@.children[ino];
                match r {
                    Ok(es) => {
                        &&& (forall|j: int|
                            offset <= j < kids.len() ==> self@.attrs.contains_key(#[trigger] kids[j]))
                        &&& es@.len() == if offset < kids.len() { kids.len() - offset } else { 0 }
                        &&& forall|j: int|
                            0 <= j < es@.len() ==> {
                                let k = kids[offset + j];
                                &&& (#[trigger] es@[j]).ino == k
                                &&& es@[j].offset == offset + j + 1
                                &&& es@[j].kind == self@.attrs[k].kind
                                &&& es@[j].name@ == self@.names[k]
                            }
                    },
                    Err(e) => e == ENOENT && exists|j: int|
                        offset <= j < kids.len() && !self@.attrs.contains_key(#[trigger] kids[j]),
                }
            },
    {
        let mut es: Vec<DirEntry> = Vec::new();
        match self.parent_children.get(&ino) {
            None => Ok(es),
            Some(kids) => {
                if offset >= kids.len() as u64 {
                    return Ok(es);
                }
                let mut i: usize = offset as usize;
                while i < kids.len()
                    invariant
                        offset <= i <= kids@.len(),
                        self@.children.contains_key(ino),
                        kids@ == self@.children[ino],
                        es@.len() == i - offset,
                        forall|j: int| offset <= j < i ==> self@.attrs.contains_key(#[trigger] kids@[j]),
                        forall|j: int|
                            0 <= j < es@.len() ==> {
                                let k = kids@[offset + j];
                                &&& (#[trigger] es@[j]).ino == k
                                &&& es@[j].offset == offset + j + 1
                                &&& es@[j].kind == self@.attrs[k].kind
                                &&& es@[j].name@ == self@.names[k]
                            },
                    decreases kids@.len() - i,
                {
                    let k = kids[i];
                    match self.inodes.get(&k) {
                        Some(node) => {
                            es.push(
                                DirEntry {
                                    ino: k,
                                    offset: i as u64 + 1,
                                    kind: node.attr.kind,
                                    name: copy_bytes(node.name.as_slice()),
                                },
                            );
                        },
                        None => {
                            return Err(ENOENT);
                        },
                    }
                    i = i + 1;
                }
                Ok(es)
            },
        }
    }

    /// Appends `ino` to `parent`'s child list, which must exist.
    fn push_child(&mut self, parent: u64, ino: u64)
        requires
            old(self)@.children.contains_key(parent),
            ino <= old(self).inodes_num,
            old(self).wf(),
            old(self)@.attrs.contains_key(ino),
            ino != parent,
            forall|p: u64, j: int|
                old(self)@.children.contains_key(p) && 0 <= j < old(self)@.children[p].len()
                    ==> #[trigger] old(self)@.children[p][j] != ino,
        ensures
            final(self).wf(),
            final(self)@ == (FsView {
                children: old(self)@.children.insert(parent, old(self)@.children[parent].push(ino)),
                ..old(self)@
            }),
    {
        let mut kids = self.parent_children.remove(&parent).unwrap();
        kids.push(ino);
        self.parent_children.insert(parent, kids);
        assert(self@.children =~= old(self)@.children.insert(
            parent,
            old(self)@.children[parent].push(ino),
        ));
        assert(self@.attrs =~= old(self)@.attrs);
        assert(self@.names =~= old(self)@.names);
        assert(self@.data =~= old(self)@.data);
        proof {
            let o = old(self)@;
            let v = self@;
            assert forall|p: u64, q: u64, i: int, j: int|
                v.children.contains_key(p) && v.children.contains_key(q) && 0 <= i
                    < v.children[p].len() && 0 <= j < v.children[q].len() && #[trigger] v.children[p][i]
                    == #[trigger] v.children[q][j] implies p == q && i == j by {
                if p == parent && i == o.children[parent].len() {
                    if !(q == parent && j == i) {
                        assert(o.children[q][j] == ino);
                    }
                } else if q == parent && j == o.children[parent].len() {
                    assert(o.children[p][i] == ino);
                } else {
                    assert(o.children[p][i] == o.children[q][j]);
                }
            }
        }
    }

    /// Adds a node of `kind` named `name` under `parent`.
    fn add_node(&mut self, parent: u64, name: &[u8], kind: FileType) -> (r: Result<Entry, i32>)
        requires
            old(self).wf(),
        ensures
            final(self).wf(),
            !old(self)@.children.contains_key(parent) ==> r == Err::<Entry, i32>(ENOENT)
                && final(self)@ == old(self)@,
            old(self)@.children.contains_key(parent) && old(self)@.last_ino == u64::MAX ==> r
                == Err::<Entry, i32>(ENOSPC) && final(self)@ == old(self)@,
            old(self)@.children.contains_key(parent) && old(self)@.last_ino < u64::MAX ==> {
                let ino = (old(self)@.last_ino + 1) as u64;
                &&& r == Ok::<Entry, i32>(
                    Entry { ttl: spec_ttl(), attr: spec_new_attr(ino, kind), generation: 0 },
                )
                &&& final(self)@ == spec_add_node(old(self)@, parent, name@, ino, kind)
            },
    {
        if !self.parent_children.contains_key(&parent) {
            return Err(ENOENT);
        }
        if self.inodes_num == u64::MAX {
            return Err(ENOSPC);
        }
        let ino = self.inodes_num + 1;
        let mut attr = FileAttr::new(ino, kind);
        attr.perm = 0o755;
        self.inodes.insert(ino, Node { name: copy_bytes(name), attr });
        self.inodes_num = ino;
        self.data.insert(ino, Vec::new());
        match kind {
            FileType::Directory => {
                self.parent_children.insert(ino, Vec::new());
            },
            _ => {},
        }
        let ghost mid2 = self@;
        proof {
            let o = old(self)@;
            assert(mid2.children.contains_key(parent));
            assert(!o.attrs.contains_key(ino));
            assert(parent != ino);
            assert forall|p: u64| #[trigger] mid2.children.contains_key(p) implies mid2.attrs.contains_key(p) by {
                if p != ino {
                    assert(o.children.contains_key(p));
                }
            }
            assert forall|p: u64, j: int|
                mid2.children.contains_key(p) && 0 <= j < mid2.children[p].len() implies #[trigger] mid2.children[p][j] != p by {
                if p != ino {
                    assert(o.children.contains_key(p));
                    assert(o.children[p][j] != p);
                }
            }
            assert forall|p: u64, j: int|
                mid2.children.contains_key(p) && 0 <= j < mid2.children[p].len() implies mid2.attrs.contains_key(
                #[trigger] mid2.children[p][j]) && mid2.children[p][j] != ino by {
                if p != ino {
                    assert(o.children.contains_key(p));
                    assert(o.attrs.contains_key(o.children[p][j]));
                }
            }
            assert forall|p: u64, q: u64, i: int, j: int|
                mid2.children.contains_key(p) && mid2.children.contains_key(q) && 0 <= i
                    < mid2.children[p].len() && 0 <= j < mid2.children[q].len()
                    && #[trigger] mid2.children[p][i] == #[trigger] mid2.children[q][j] implies p == q
                && i == j by {
                if p != ino && q != ino {
                    assert(o.children[p][i] == o.children[q][j]);
                }
            }
        }
        self.push_child(parent, ino);
        proof {
            let o = old(self)@;
            let v = self@;
            let t = spec_add_node(o, parent, name@, ino, kind);
            assert(v.attrs =~= t.attrs);
            assert(v.names =~= t.names);
            assert(v.data =~= t.data);
            assert(v.children =~= t.children);
        }
        Ok(Entry { ttl: Timestamp { secs: 1, nsecs: 0 }, attr, generation: 0 })
    }

    /// Creates an empty regular file named `name` under `parent`.
    pub fn create(&mut self, parent: u64, name: &[u8]) -> (r: Result<Entry, i32>)
        requires
            old(self).wf(),
        ensures
            final(self).wf(),
            !old(self)@.children.contains_key(parent) ==> r == Err::<Entry, i32>(ENOENT)
                && final(self)@ == old(self)@,
            old(self)@.children.contains_key(parent) && old(self)@.last_ino == u64::MAX ==> r
                == Err::<Entry, i32>(ENOSPC) && final(self)@ == old(self)@,
            old(self)@.children.contains_key(parent) && old(self)@.last_ino < u64::MAX ==> {
                let ino = (old(self)@.last_ino + 1) as u64;
                &&& r == Ok::<Entry, i32>(
                    Entry {
                        ttl: spec_ttl(),
                        attr: spec_new_attr(ino, FileType::RegularFile),
                        generation: 0,
                    },
                )
                &&& final(self)@ == spec_add_node(
                    old(self)@,
                    parent,
                    name@,
                    ino,
                    FileType::RegularFile,
                )
            },
    {
        self.add_node(parent, name, FileType::RegularFile)
    }

    /// Creates an empty directory named `name` under `parent`.
    pub fn mkdir(&mut self, parent: u64, name: &[u8]) -> (r: Result<Entry, i32>)
        requires
            old(self).wf(),
        ensures
            final(self).wf(),
            !old(self)@.children.contains_key(parent) ==> r == Err::<Entry, i32>(ENOENT)
                && final(self)@ == old(self)@,
            old(self)@.children.contains_key(parent) && old(self)@.last_ino == u64::MAX ==> r
                == Err::<Entry, i32>(ENOSPC) && final(self)@ == old(self)@,
            old(self)@.children.contains_key(parent) && old(self)@.last_ino < u64::MAX ==> {
                let ino = (old(self)@.last_ino + 1) as u64;
                &&& r == Ok::<Entry, i32>(
                    Entry {
                        ttl: spec_ttl(),
                        attr: spec_new_attr(ino, FileType::Directory),
                        generation: 0,
                    },
                )
                &&& final(self)@ == spec_add_node(
                    old(self)@,
                    parent,
                    name@,
                    ino,
                    FileType::Directory,
                )
            },
    {
        self.add_node(parent, name, FileType::Directory)
    }

    /// Removes child `i` of `parent` from every table.
    fn remove_child(&mut self, parent: u64, i: usize)
        requires
            old(self).wf(),
            old(self)@.children.contains_key(parent),
            i < old(self)@.children[parent].len(),
        ensures
            final(self).wf(),
            final(self)@ == spec_remove_child(old(self)@, parent, i as int),
    {
        let mut kids = self.parent_children.remove(&parent).unwrap();
        let c = kids.remove(i);
        self.inodes.remove(&c);
        self.data.remove(&c);
        self.parent_children.remove(&c);
        self.parent_children.insert(parent, kids);
        proof {
            let o = old(self)@;
            let v = self@;
            let t = spec_remove_child(o, parent, i as int);
            assert(v.attrs =~= t.attrs);
            assert(v.names =~= t.names);
            assert(v.data =~= t.data);
            assert(v.children =~= t.children);
        }
    }

    /// Removes the child of `parent` named `name`, unless it lists children of its own.
    fn remove_named(&mut self, parent: u64, name: &[u8]) -> (r: Result<(), i32>)
        requires
            old(self).wf(),
        ensures
            final(self).wf(),
            ({
                let o = old(self)@;
                let i = child_index(o, parent, name@);
                let c = o.children[parent][i];
                &&& i == -1 ==> r == Err::<(), i32>(ENOENT) && final(self)@ == o
                &&& i != -1 && o.children.contains_key(c) && o.children[c].len() > 0 ==> r
                    == Err::<(), i32>(ENOTEMPTY) && final(self)@ == o
                &&& i != -1 && !(o.children.contains_key(c) && o.children[c].len() > 0) ==> r is Ok
                    && final(self)@ == spec_remove_child(o, parent, i)
            }),
    {
        match self.find_child(parent, name) {
            Some(i) => {
                let c = self.parent_children.get(&parent).unwrap()[i];
                match self.parent_children.get(&c) {
                    Some(grandkids) => {
                        if grandkids.len() > 0 {
                            return Err(ENOTEMPTY);
                        }
                    },
                    None => {},
                }
                self.remove_child(parent, i);
                Ok(())
            },
            None => Err(ENOENT),
        }
    }

    /// Removes the child of `parent` named `name`. A directory that still lists children is
    /// kept, so that no node is left that no directory lists.
    pub fn unlink(&mut self, parent: u64, name: &[u8]) -> (r: Result<(), i32>)
        requires
            old(self).wf(),
        ensures
            final(self).wf(),
            ({
                let o = old(self)@;
                let i = child_index(o, parent, name@);
                let c = o.children[parent][i];
                &&& i == -1 ==> r == Err::<(), i32>(ENOENT) && final(self)@ == o
                &&& i != -1 && o.children.contains_key(c) && o.children[c].len() > 0 ==> r
                    == Err::<(), i32>(ENOTEMPTY) && final(self)@ == o
                &&& i != -1 && !(o.children.contains_key(c) && o.children[c].len() > 0) ==> r is Ok
                    && final(self)@ == spec_remove_child(o, parent, i)
            }),
    {
        self.remove_named(parent, name)
    }

    /// Removes the empty directory under `parent` named `name`.
    pub fn rmdir(&mut self, parent: u64, name: &[u8]) -> (r: Result<(), i32>)
        requires
            old(self).wf(),
        ensures
            final(self).wf(),
            ({
                let o = old(self)@;
                let i = child_index(o, parent, name@);
                let c = o.children[parent][i];
                &&& i == -1 ==> r == Err::<(), i32>(ENOENT) && final(self)@ == o
                &&& i != -1 && o.children.contains_key(c) && o.children[c].len() > 0 ==> r
                    == Err::<(), i32>(ENOTEMPTY) && final(self)@ == o
                &&& i != -1 && !(o.children.contains_key(c) && o.children[c].len() > 0) ==> r is Ok
                    && final(self)@ == spec_remove_child(o, parent, i)
            }),
    {
        self.remove_named(parent, name)
    }

    /// Changes the attributes of `ino` that `args` gives.
    pub fn setattr(&mut self, ino: u64, args: SetAttrArgs) -> (r: Result<(Timestamp, FileAttr), i32>)
        requires
            old(self).wf(),
        ensures
            final(self).wf(),
            !old(self)@.attrs.contains_key(ino) ==> r == Err::<(Timestamp, FileAttr), i32>(ENOENT)
                && final(self)@ == old(self)@,
            old(self)@.attrs.contains_key(ino) ==> {
                let a = spec_setattr(old(self)@.attrs[ino], args);
                &&& r == Ok::<(Timestamp, FileAttr), i32>((spec_ttl(), a))
                &&& final(self)@ == (FsView { attrs: old(self)@.attrs.insert(ino, a), ..old(self)@ })
            },
    {
        if !self.inodes.contains_key(&ino) {
            return Err(ENOENT);
        }
        let node = self.inodes.remove(&ino).unwrap();
        let mut a = node.attr;
        match args.mode {
            Some(m) => {
                a.perm = m as u16;
            },
            None => {},
        }
        match args.uid {
            Some(u) => {
                a.uid = u;
            },
            None => {},
        }
        match args.gid {
            Some(g) => {
                a.gid = g;
            },
            None => {},
        }
        match args.size {
            Some(n) => {
                a.size = n;
            },
            None => {},
        }
        match args.atime {
            Some(t) => {
                a.atime = t;
            },
            None => {},
        }
        match args.mtime {
            Some(t) => {
                a.mtime = t;
            },
            None => {},
        }
        self.inodes.insert(ino, Node { name: node.name, attr: a });
        proof {
            let o = old(self)@;
            let v = self@;
            assert(v.attrs =~= o.attrs.insert(ino, a));
            assert(v.names =~= o.names);
        }
        Ok((Timestamp { secs: 1, nsecs: 0 }, a))
    }

    /// Writes `d` into `ino` at `offset`, zero-filling any gap past the old end.
    pub fn write(&mut self, ino: u64, offset: u64, d: &[u8]) -> (r: Result<u32, i32>)
        requires
            old(self).wf(),
        ensures
            final(self).wf(),
            !old(self)@.data.contains_key(ino) ==> r == Err::<u32, i32>(ENOENT) && final(self)@
                == old(self)@,
            old(self)@.data.contains_key(ino) && (offset + d@.len() > old(self)@.max_size
                || offset + d@.len() > usize::MAX || d@.len() > u32::MAX) ==> r == Err::<u32, i32>(
                EFBIG,
            ) && final(self)@ == old(self)@,
            old(self)@.data.contains_key(ino) && offset + d@.len() <= old(self)@.max_size && offset
                + d@.len() <= usize::MAX && d@.len() <= u32::MAX ==> {
                let o = old(self)@;
                let nd = spec_written(o.data[ino], offset as int, d@);
                &&& r == Ok::<u32, i32>(d@.len() as u32)
                &&& final(self)@ == (FsView {
                    data: o.data.insert(ino, nd),
                    attrs: if o.attrs.contains_key(ino) {
                        o.attrs.insert(ino, FileAttr { size: nd.len() as u64, ..o.attrs[ino] })
                    } else {
                        o.attrs
                    },
                    ..o
                })
            },
    {
        if !self.data.contains_key(&ino) {
            return Err(ENOENT);
        }
        let n = d.len();
        if n as u64 > self.max_size || offset > self.max_size - n as u64 || offset > (usize::MAX
            - n) as u64 || n > u32::MAX as usize {
            return Err(EFBIG);
        }
        let off = offset as usize;
        let mut buf = self.data.remove(&ino).unwrap();
        let ghost old_buf = buf@;
        while buf.len() < off
            invariant
                old_buf.len() <= buf@.len() <= off || buf@.len() == old_buf.len(),
                buf@.subrange(0, old_buf.len() as int) == old_buf,
                forall|i: int| old_buf.len() <= i < buf@.len() ==> buf@[i] == 0u8,
            decreases off - buf@.len(),
        {
            buf.push(0u8);
        }
        let ghost filled = buf@;
        let mut j: usize = 0;
        while j < n
            invariant
                off + n <= usize::MAX,
                n == d@.len(),
                j <= n,
                filled.subrange(0, old_buf.len() as int) == old_buf,
                forall|i: int| old_buf.len() <= i < filled.len() ==> filled[i] == 0u8,
                filled.len() == if old_buf.len() > off { old_buf.len() as int } else { off as int },
                buf@.len() == if filled.len() > off + j { filled.len() as int } else { off + j },
                forall|i: int|
                    0 <= i < buf@.len() ==> buf@[i] == if off <= i < off + j {
                        d@[i - off]
                    } else {
                        filled[i]
                    },
            decreases n - j,
        {
            if off + j < buf.len() {
                buf.set(off + j, d[j]);
            } else {
                buf.push(d[j]);
            }
            j = j + 1;
        }
        let ghost nd = spec_written(old_buf, offset as int, d@);
        assert(buf@ =~= nd) by {
            assert forall|i: int| 0 <= i < buf@.len() implies buf@[i] == nd[i] by {
                if i < old_buf.len() && !(off <= i < off + n) {
                    assert(filled.subrange(0, old_buf.len() as int)[i] == old_buf[i]);
                }
            }
        }
        let len = buf.len() as u64;
        self.data.insert(ino, buf);
        match self.inodes.remove(&ino) {
            Some(node) => {
                let mut a = node.attr;
                a.size = len;
                self.inodes.insert(ino, Node { name: node.name, attr: a });
            },
            None => {},
        }
        proof {
            let o = old(self)@;
            let v = self@;
            assert(v.data =~= o.data.insert(ino, nd));
            if o.attrs.contains_key(ino) {
                assert(v.attrs =~= o.attrs.insert(ino, FileAttr { size: nd.len() as u64, ..o.attrs[ino] }));
                assert(v.names =~= o.names);
            } else {
                assert(v.attrs =~= o.attrs);
                assert(v.names =~= o.names);
            }
        }
        Ok(n as u32)
    }
}

impl Filesystem for MemoryFS {
    open spec fn inv(&self) -> bool {
        self.wf()
    }

    fn init(&mut self) -> (r: Result<(), i32>) {
        MemoryFS::init(self)
    }

    fn lookup(&mut self, parent: u64, name: &[u8]) -> (r: Result<Entry, i32>) {
        MemoryFS::lookup(&*self, parent, name)
    }

    fn getattr(&mut self, ino: u64) -> (r: Result<(Timestamp, FileAttr), i32>) {
        MemoryFS::getattr(&*self, ino)
    }

    fn setattr(&mut self, ino: u64, args: SetAttrArgs) -> (r: Result<(Timestamp, FileAttr), i32>) {
        MemoryFS::setattr(self, ino, args)
    }

    fn mkdir(&mut self, parent: u64, name: &[u8], mode: u32) -> (r: Result<Entry, i32>) {
        MemoryFS::mkdir(self, parent, name)
    }

    fn unlink(&mut self, parent: u64, name: &[u8]) -> (r: Result<(), i32>) {
        MemoryFS::unlink(self, parent, name)
    }

    fn rmdir(&mut self, parent: u64, name: &[u8]) -> (r: Result<(), i32>) {
        MemoryFS::rmdir(self, parent, name)
    }

    fn open(&mut self, ino: u64, flags: u32) -> (r: Result<Opened, i32>) {
        Ok(Opened { fh: 0, flags: 0 })
    }

    fn read(&mut self, ino: u64, fh: u64, offset: u64, size: u32) -> (r: Result<Vec<u8>, i32>) {
        MemoryFS::read(&*self, ino, offset, size)
    }

    fn write(&mut self, ino: u64, fh: u64, offset: u64, data: &[u8], flags: u32) -> (r: Result<
        u32,
        i32,
    >) {
        MemoryFS::write(self, ino, offset, data)
    }

    fn flush(&mut self, ino: u64, fh: u64, lock_owner: u64) -> (r: Result<(), i32>) {
        Ok(())
    }

    fn release(&mut self, ino: u64, fh: u64, flags: u32, lock_owner: u64, flush: bool) -> (r:
        Result<(), i32>) {
        Ok(())
    }

    fn opendir(&mut self, ino: u64, flags: u32) -> (r: Result<Opened, i32>) {
        Ok(Opened { fh: 0, flags: 0 })
    }

    fn readdir(&mut self, ino: u64, fh: u64, offset: u64) -> (r: Result<Vec<DirEntry>, i32>) {
        MemoryFS::readdir(&*self, ino, offset)
    }

    fn releasedir(&mut self, ino: u64, fh: u64, flags: u32) -> (r: Result<(), i32>) {
        Ok(())
    }

    fn statfs(&mut self, ino: u64) -> (r: Result<StatFs, i32>) {
        Ok(MemoryFS::statfs(&*self))
    }

    fn create(&mut self, parent: u64, name: &[u8], mode: u32, flags: u32) -> (r: Result<
        (Entry, Opened),
        i32,
    >) {
        match MemoryFS::create(self, parent, name) {
            Ok(e) => Ok((e, Opened { fh: 0, flags: 0 })),
            Err(e) => Err(e),
        }
    }
}

} // verus!
