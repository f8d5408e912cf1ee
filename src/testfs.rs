use vstd::prelude::*;
use crate::attr::{FileAttr, FsError, fileattr_of, generate_fileattr, ROOT_PERMS, ROOT_SIZE};
use crate::byte_range::read_window;
use crate::files::{setattr_outcome, setattr_refused, write_outcome, FsFile};
use crate::inode::{idx_to_ino, ino_to_idx, INODE_BIAS, ROOT_INODE};

verus! {

/// Position in registration order of the file that carries inode `ino`, if any.
pub open spec fn index_of(files: Seq<FsFile>, ino: u64) -> Option<int> {
    if ino >= INODE_BIAS && ino - INODE_BIAS < files.len() {
        Some(ino - INODE_BIAS)
    } else {
        None
    }
}

/// Position of the first file named `name`, if any.
pub open spec fn find_name(files: Seq<FsFile>, name: Seq<u8>) -> Option<int>
    decreases files.len(),
{
    if files.len() == 0 {
        None
    } else {
        match find_name(files.drop_last(), name) {
            Some(i) => Some(i),
            None => if files.last().name_view() == name {
                Some(files.len() - 1)
            } else {
                None
            },
        }
    }
}

/// Attributes of the file at position `i`, under its inode number.
pub open spec fn attr_at(files: Seq<FsFile>, i: int) -> FileAttr {
    FileAttr { ino: (i + INODE_BIAS) as u64, ..files[i].spec_attr() }
}

/// What a lookup of `name` under `parent` answers.
pub open spec fn lookup_result(files: Seq<FsFile>, parent: u64, name: Seq<u8>) -> Result<
    FileAttr,
    FsError,
> {
    if parent != ROOT_INODE {
        Err(FsError::BadParent)
    } else {
        match find_name(files, name) {
            Some(i) => Ok(attr_at(files, i)),
            None => Err(FsError::NotFound),
        }
    }
}

/// Attributes of the root directory.
pub open spec fn root_attr() -> FileAttr {
    FileAttr { ino: ROOT_INODE, ..fileattr_of(ROOT_SIZE, ROOT_PERMS, true) }
}

/// What a query of the attributes of inode `ino` answers.
pub open spec fn getattr_result(files: Seq<FsFile>, ino: u64) -> Result<FileAttr, FsError> {
    if ino == ROOT_INODE {
        Ok(root_attr())
    } else {
        match index_of(files, ino) {
            Some(i) => Ok(attr_at(files, i)),
            None => Err(FsError::NotFound),
        }
    }
}

/// What a read of `size` bytes at `offset` of inode `ino` answers.
pub open spec fn read_result(files: Seq<FsFile>, ino: u64, offset: i64, size: u32) -> Result<
    Seq<u8>,
    FsError,
> {
    match index_of(files, ino) {
        Some(i) => Ok(
            read_window(
                files[i].content(),
                offset as int,
                files[i].behavior().served(size as nat),
            ),
        ),
        None => Err(FsError::NotFound),
    }
}

/// The listing of the root directory from cursor `start` on: for each file its
/// inode, the cursor of the entry after it, and its name.
pub open spec fn listing(files: Seq<FsFile>, start: int) -> Seq<(u64, i64, Seq<u8>)> {
    Seq::new(
        (files.len() - start) as nat,
        |i: int| ((start + i + INODE_BIAS) as u64, (start + i + 1) as i64, files[start + i].name_view()),
    )
}

/// One entry of a directory listing.
pub struct DirEntry {
    pub ino: u64,
    /// Cursor at which the listing goes on after this entry.
    pub offset: i64,
    pub name: Vec<u8>,
}

impl View for DirEntry {
    type V = (u64, i64, Seq<u8>);

    open spec fn view(&self) -> (u64, i64, Seq<u8>) {
        (self.ino, self.offset, self.name@)
    }
}

/// The file system: a flat root directory that holds the registered files,
/// numbered by inode in the order of registration.
pub struct TestFs {
    files: Vec<FsFile>,
}

impl TestFs {
    /// The registered files, in registration order.
    pub closed spec fn entries(&self) -> Seq<FsFile> {
        self.files@
    }

    pub open spec fn wf(&self) -> bool {
        &&& self.entries().len() + INODE_BIAS <= i64::MAX
        &&& forall|i: int| 0 <= i < self.entries().len() ==> #[trigger] self.entries()[i].wf()
    }

    pub fn new() -> (r: Self)
        ensures
            r.wf(),
            r.entries() == Seq::<FsFile>::empty(),
    {
        TestFs { files: Vec::new() }
    }

    /// Registers `file` after the others; it gets the next inode.
    pub fn add_file(&mut self, file: FsFile)
        requires
            old(self).wf(),
            file.wf(),
            old(self).entries().len() + INODE_BIAS < i64::MAX,
        ensures
            final(self).wf(),
            final(self).entries() == old(self).entries().push(file),
    {
        self.files.push(file);
    }

    /// Number of registered files.
    pub fn len(&self) -> (r: usize)
        ensures
            r == self.entries().len(),
    {
        self.files.len()
    }

    fn get_file(&self, ino: u64) -> (r: Option<&FsFile>)
        ensures
            match index_of(self.entries(), ino) {
                Some(i) => r == Some(&self.entries()[i]),
                None => r is None,
            },
    {
        if ino < INODE_BIAS || ino - INODE_BIAS >= self.files.len() as u64 {
            None
        } else {
            Some(&self.files[ino_to_idx(ino)])
        }
    }

    /// Finds the file named `name` in the root directory.
    pub fn lookup(&self, parent: u64, name: &[u8]) -> (r: Result<FileAttr, FsError>)
        requires
            self.wf(),
        ensures
            r == lookup_result(self.entries(), parent, name@),
    {
        if parent != ROOT_INODE {
            return Err(FsError::BadParent);
        }
        let mut i: usize = 0;
        while i < self.files.len()
            invariant
                self.wf(),
                parent == ROOT_INODE,
                i <= self.entries().len(),
                find_name(self.entries().take(i as int), name@) is None,
            decreases self.entries().len() - i,
        {
            let file = &self.files[i];
            assert(self.entries().take(i + 1).drop_last() =~= self.entries().take(i as int));
            if slices_equal(file.get_name(), name) {
                let mut attr = file.getattr();
                attr.ino = idx_to_ino(i);
                proof {
                    lemma_find_name_prefix(self.entries(), name@, i as int);
                }
                assert(attr == attr_at(self.entries(), i as int));
                return Ok(attr);
            }
            i = i + 1;
        }
        assert(self.entries().take(i as int) =~= self.entries());
        Err(FsError::NotFound)
    }

    /// Attributes of inode `ino`: the root directory or a registered file.
    pub fn getattr(&self, ino: u64) -> (r: Result<FileAttr, FsError>)
        requires
            self.wf(),
        ensures
            r == getattr_result(self.entries(), ino),
    {
        if ino == ROOT_INODE {
            let mut attr = generate_fileattr(ROOT_SIZE, ROOT_PERMS, true);
            attr.ino = ino;
            return Ok(attr);
        }
        match self.get_file(ino) {
            Some(file) => {
                let mut attr = file.getattr();
                attr.ino = ino;
                Ok(attr)
            },
            None => Err(FsError::NotFound),
        }
    }

    /// Reads at most `size` bytes at `offset` of inode `ino`, as its file's policy allows.
    pub fn read(&self, ino: u64, offset: i64, size: u32) -> (r: Result<&[u8], FsError>)
        requires
            self.wf(),
        ensures
            match read_result(self.entries(), ino, offset, size) {
                Ok(s) => r is Ok && r->Ok_0@ == s,
                Err(e) => r == Err::<&[u8], FsError>(e),
            },
    {
        match self.get_file(ino) {
            Some(file) => Ok(file.read(offset, size)),
            None => Err(FsError::NotFound),
        }
    }

    /// Writes to inode `ino` as its file's write-acceptance policy allows, and
    /// returns how many bytes were kept.
    pub fn write(&mut self, ino: u64, offset: i64, data: &[u8]) -> (r: Result<u32, FsError>)
        requires
            old(self).wf(),
            0 <= offset <= usize::MAX,
            data@.len() <= u32::MAX,
        ensures
            final(self).wf(),
            write_result(old(self).entries(), final(self).entries(), ino, offset, data@, r),
    {
        if ino < INODE_BIAS || ino - INODE_BIAS >= self.files.len() as u64 {
            return Err(FsError::NotFound);
        }
        let idx = ino_to_idx(ino);
        let ghost before = self.files@;
        let r = self.files[idx].write(offset, data);
        proof {
            assert forall|j: int| 0 <= j < self.entries().len() implies #[trigger] self.entries()[j].wf() by {
                if j != idx {
                    assert(self.entries()[j] == before[j]);
                } else {
                    assert(before[j].wf());
                }
            }
        }
        r
    }

    /// Changes the size of the file of inode `ino`; see `FsFile::setattr`.
    pub fn setattr(
        &mut self,
        ino: u64,
        mode: Option<u32>,
        uid: Option<u32>,
        gid: Option<u32>,
        size: Option<u64>,
        flags: Option<u32>,
    ) -> (r: Result<FileAttr, FsError>)
        requires
            old(self).wf(),
            size is Some ==> size->0 <= usize::MAX,
        ensures
            final(self).wf(),
            setattr_result(
                old(self).entries(),
                final(self).entries(),
                ino,
                mode,
                uid,
                gid,
                size,
                flags,
                r,
            ),
    {
        if ino < INODE_BIAS || ino - INODE_BIAS >= self.files.len() as u64 {
            return Err(FsError::NotFound);
        }
        let idx = ino_to_idx(ino);
        let ghost before = self.files@;
        let r = self.files[idx].setattr(mode, uid, gid, size, flags);
        proof {
            assert forall|j: int| 0 <= j < self.entries().len() implies #[trigger] self.entries()[j].wf() by {
                if j != idx {
                    assert(self.entries()[j] == before[j]);
                } else {
                    assert(before[j].wf());
                }
            }
        }
        match r {
            Ok(a) => {
                let mut attr = a;
                attr.ino = ino;
                proof {
                    assert((FileAttr { ino: 0, ..attr }) == a);
                }
                Ok(attr)
            },
            Err(e) => Err(e),
        }
    }

    /// Lists the root directory from cursor `offset` on, in registration order.
    pub fn readdir(&self, ino: u64, offset: i64) -> (r: Result<Vec<DirEntry>, FsError>)
        requires
            self.wf(),
        ensures
            readdir_result(self.entries(), ino, offset, r),
    {
        if ino != ROOT_INODE {
            return Err(FsError::NotFound);
        }
        let count = self.files.len();
        if offset < 0 || offset as u64 > count as u64 {
            return Err(FsError::InvalidArgument);
        }
        let start = offset as usize;
        let mut out: Vec<DirEntry> = Vec::new();
        let mut idx: usize = start;
        while idx < count
            invariant
                self.wf(),
                count == self.entries().len(),
                0 <= start <= idx <= count,
                start == offset,
                out@.len() == idx - start,
                forall|k: int|
                    0 <= k < out@.len() ==> (#[trigger] out@[k])@ == listing(
                        self.entries(),
                        start as int,
                    )[k],
            decreases count - idx,
        {
            let name = vstd::slice::slice_to_vec(self.files[idx].get_name());
            let entry = DirEntry { ino: idx_to_ino(idx), offset: idx as i64 + 1, name };
            out.push(entry);
            idx = idx + 1;
        }
        assert(out@.map_values(|e: DirEntry| e@) =~= listing(self.entries(), offset as int));
        Ok(out)
    }
}

/// `after` holds as many files as `before`, and all but the one at position `i`
/// are left as they were.
pub open spec fn only_changed(before: Seq<FsFile>, after: Seq<FsFile>, i: int) -> bool {
    &&& after.len() == before.len()
    &&& forall|j: int| 0 <= j < before.len() && j != i ==> #[trigger] after[j] == before[j]
}

/// How a write to inode `ino` takes the files `before` to `after` and what it answers.
pub open spec fn write_result(
    before: Seq<FsFile>,
    after: Seq<FsFile>,
    ino: u64,
    offset: i64,
    data: Seq<u8>,
    r: Result<u32, FsError>,
) -> bool {
    match index_of(before, ino) {
        Some(i) => only_changed(before, after, i) && write_outcome(
            before[i],
            after[i],
            offset as nat,
            data,
            r,
        ),
        None => r == Err::<u32, FsError>(FsError::NotFound) && after == before,
    }
}

/// `r` with the inode number cleared, as a single file reports its attributes.
pub open spec fn without_ino(r: Result<FileAttr, FsError>) -> Result<FileAttr, FsError> {
    match r {
        Ok(a) => Ok(FileAttr { ino: 0, ..a }),
        Err(e) => Err(e),
    }
}

/// How a change of attributes of inode `ino` takes the files `before` to
/// `after` and what it answers.
pub open spec fn setattr_result(
    before: Seq<FsFile>,
    after: Seq<FsFile>,
    ino: u64,
    mode: Option<u32>,
    uid: Option<u32>,
    gid: Option<u32>,
    size: Option<u64>,
    flags: Option<u32>,
    r: Result<FileAttr, FsError>,
) -> bool {
    match index_of(before, ino) {
        Some(i) => {
            &&& only_changed(before, after, i)
            &&& setattr_outcome(before[i], after[i], mode, uid, gid, size, flags, without_ino(r))
            &&& r is Ok ==> r->Ok_0.ino == ino
        },
        None => r == Err::<FileAttr, FsError>(FsError::NotFound) && after == before,
    }
}

/// What a listing of directory `ino` from cursor `offset` answers.
pub open spec fn readdir_result(
    files: Seq<FsFile>,
    ino: u64,
    offset: i64,
    r: Result<Vec<DirEntry>, FsError>,
) -> bool {
    if ino != ROOT_INODE {
        r == Err::<Vec<DirEntry>, FsError>(FsError::NotFound)
    } else if offset < 0 || offset > files.len() {
        r == Err::<Vec<DirEntry>, FsError>(FsError::InvalidArgument)
    } else {
        &&& r is Ok
        &&& r->Ok_0@.map_values(|e: DirEntry| e@) == listing(files, offset as int)
    }
}

/// Whether `a` and `b` hold the same bytes.
pub fn slices_equal(a: &[u8], b: &[u8]) -> (r: bool)
    ensures
        r == (a@ == b@),
{
    if a.len() != b.len() {
        return false;
    }
    let mut i: usize = 0;
    while i < a.len()
        invariant
            a@.len() == b@.len(),
            i <= a@.len(),
            a@.take(i as int) == b@.take(i as int),
        decreases a@.len() - i,
    {
        if a[i] != b[i] {
            assert(a@[i as int] != b@[i as int]);
            return false;
        }
        assert(a@.take(i + 1) =~= a@.take(i as int).push(a@[i as int]));
        assert(b@.take(i + 1) =~= b@.take(i as int).push(b@[i as int]));
        i = i + 1;
    }
    assert(a@.take(i as int) =~= a@);
    assert(b@.take(i as int) =~= b@);
    true
}

proof fn lemma_find_name_prefix(files: Seq<FsFile>, name: Seq<u8>, i: int)
    requires
        0 <= i < files.len(),
        find_name(files.take(i), name) is None,
        files[i].name_view() == name,
    ensures
        find_name(files, name) == Some(i),
    decreases files.len(),
{
    if i == files.len() - 1 {
        assert(files.drop_last() =~= files.take(i));
    } else {
        assert(files.drop_last().take(i) =~= files.take(i));
        lemma_find_name_prefix(files.drop_last(), name, i);
    }
}

proof fn lemma_find_name_found(files: Seq<FsFile>, name: Seq<u8>)
    ensures
        find_name(files, name) matches Some(i) ==> 0 <= i < files.len() && files[i].name_view()
            == name,
    decreases files.len(),
{
    if files.len() > 0 {
        lemma_find_name_found(files.drop_last(), name);
    }
}

/// A file found by name reports, under the inode that the lookup gave, the same
/// attributes again, and its size is the length of its current content.
pub proof fn lemma_lookup_then_getattr(files: Seq<FsFile>, name: Seq<u8>)
    requires
        files.len() + INODE_BIAS <= i64::MAX,
        forall|i: int| 0 <= i < files.len() ==> #[trigger] files[i].content().len() <= u64::MAX,
    ensures
        lookup_result(files, ROOT_INODE, name) matches Ok(a) ==> {
            &&& getattr_result(files, a.ino) == Ok::<FileAttr, FsError>(a)
            &&& index_of(files, a.ino) matches Some(i) && files[i].name_view() == name
                && a.size == files[i].content().len()
        },
{
    lemma_find_name_found(files, name);
}

/// A listing resumed at the cursor of the last entry received goes on from the
/// next file: the two parts together are the listing from the first cursor,
/// with nothing skipped or repeated.
pub proof fn lemma_listing_resumes(files: Seq<FsFile>, k: int, j: int)
    requires
        0 <= k <= j <= files.len(),
        files.len() + INODE_BIAS <= i64::MAX,
    ensures
        listing(files, k) == listing(files, k).take(j - k) + listing(files, j),
        k < j ==> listing(files, k)[j - k - 1].1 == j,
{
    assert(listing(files, k) =~= listing(files, k).take(j - k) + listing(files, j));
}

/// The listing from cursor 0 holds every file once, in registration order,
/// each under its own inode.
pub proof fn lemma_listing_whole(files: Seq<FsFile>)
    requires
        files.len() + INODE_BIAS <= i64::MAX,
    ensures
        listing(files, 0).len() == files.len(),
        forall|i: int|
            0 <= i < files.len() ==> (#[trigger] listing(files, 0)[i]).2 == files[i].name_view()
                && listing(files, 0)[i].0 == i + INODE_BIAS,
{
}

/// A write to a file that cannot be written is refused, whatever the offset
/// and the data, and leaves its content as it was.
pub proof fn lemma_read_only_refuses_write(
    before: Seq<FsFile>,
    after: Seq<FsFile>,
    ino: u64,
    offset: i64,
    data: Seq<u8>,
    r: Result<u32, FsError>,
)
    requires
        write_result(before, after, ino, offset, data, r),
        index_of(before, ino) matches Some(i) && !before[i].behavior().writable(),
    ensures
        r == Err::<u32, FsError>(FsError::Unsupported),
        after[index_of(before, ino)->0].content() == before[index_of(before, ino)->0].content(),
{
}

/// Once a file has been cut to size zero, every read of it answers with no
/// bytes, and no error.
pub proof fn lemma_truncate_then_read(
    before: Seq<FsFile>,
    after: Seq<FsFile>,
    ino: u64,
    r: Result<FileAttr, FsError>,
    offset: i64,
    size: u32,
)
    requires
        setattr_result(before, after, ino, None, None, None, Some(0u64), None, r),
        r is Ok,
    ensures
        read_result(after, ino, offset, size) == Ok::<Seq<u8>, FsError>(Seq::empty()),
{
    let i = index_of(before, ino)->0;
    assert(!setattr_refused(before[i], None, None, None, None));
    assert(after[i].content() =~= Seq::<u8>::empty());
    assert(read_result(after, ino, offset, size)->Ok_0 =~= Seq::<u8>::empty());
}

} // verus!
