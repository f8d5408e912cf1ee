use vstd::prelude::*;
use crate::attr::{FileAttr, FsError, fileattr_of, generate_fileattr, READ_ONLY_PERMS, WRITABLE_PERMS};
use crate::byte_range::{read_range, read_window, resize, resized, splice, spliced};

verus! {

/// How a file answers reads and writes: the read-size policy and the
/// write-acceptance policy of each kind of file.
#[derive(Clone, Copy, Debug, PartialEq, Eq, Structural)]
pub enum Behavior {
    /// Nothing to read, nothing can be written.
    Empty,
    /// Fixed content, served in full.
    Prepopulated,
    /// Fixed content, at most one byte per read.
    ReadOne,
    /// Fixed content, a read of `s` bytes serves `s / n` of them, at least one.
    ReadFraction(u32),
    /// Only the first byte of each write is kept.
    WriteOne,
    /// A write of `l` bytes keeps the first `l / n` of them, at least one.
    WriteFraction(u32),
}

/// `n / d`, but at least one where `n` is not zero.
pub open spec fn fraction_of(n: nat, d: nat) -> nat {
    if n == 0 {
        0
    } else if n / d == 0 {
        1
    } else {
        n / d
    }
}

/// Computes `n / d`, but at least one where `n` is not zero.
pub fn fraction(n: u32, d: u32) -> (r: u32)
    requires
        d > 0,
    ensures
        r == fraction_of(n as nat, d as nat),
        r <= n,
{
    if n == 0 {
        0
    } else {
        let q = n / d;
        if q == 0 {
            1
        } else {
            q
        }
    }
}

impl Behavior {
    /// A divisor of a fractional policy is never zero.
    pub open spec fn wf(self) -> bool {
        match self {
            Behavior::ReadFraction(d) => d > 0,
            Behavior::WriteFraction(d) => d > 0,
            _ => true,
        }
    }

    /// How many bytes a read of `size` bytes is allowed to serve.
    pub open spec fn served(self, size: nat) -> nat {
        match self {
            Behavior::ReadOne => if size == 0 {
                0
            } else {
                1
            },
            Behavior::ReadFraction(d) => fraction_of(size, d as nat),
            _ => size,
        }
    }

    /// How many leading bytes of a write of `len` bytes are kept; `None` where
    /// the file cannot be written.
    pub open spec fn accepted(self, len: nat) -> Option<nat> {
        match self {
            Behavior::WriteOne => Some(
                if len == 0 {
                    0
                } else {
                    1
                },
            ),
            Behavior::WriteFraction(d) => Some(fraction_of(len, d as nat)),
            _ => None,
        }
    }

    /// Whether a write can change the file at all.
    pub open spec fn writable(self) -> bool {
        self is WriteOne || self is WriteFraction
    }

    /// Permission bits that the file reports.
    pub open spec fn perms(self) -> u16 {
        if self.writable() {
            WRITABLE_PERMS
        } else {
            READ_ONLY_PERMS
        }
    }
}

/// A fractional read of `s > 0` bytes at an offset inside the content serves
/// `max(1, s / d)` bytes, but no more than remain after the offset; a read of
/// zero bytes serves none.
pub proof fn lemma_fraction_read_len(content: Seq<u8>, offset: int, s: nat, d: u32)
    requires
        d > 0,
        0 <= offset <= content.len(),
    ensures
        ({
            let want = if s / (d as nat) >= 1 {
                s / (d as nat)
            } else {
                1
            };
            let got = read_window(content, offset, Behavior::ReadFraction(d).served(s)).len();
            &&& s == 0 ==> got == 0
            &&& s > 0 && offset + want <= content.len() ==> got == want
            &&& s > 0 && offset + want > content.len() ==> got == content.len() - offset
        }),
{
}

/// A fractional write of `len > 0` bytes keeps `max(1, len / d)` leading
/// bytes, which are never more than were submitted.
pub proof fn lemma_fraction_write_len(len: nat, d: u32)
    requires
        d > 0,
        len > 0,
    ensures
        Behavior::WriteFraction(d).accepted(len) == Some(
            if len / (d as nat) >= 1 {
                len / (d as nat)
            } else {
                1nat
            },
        ),
        fraction_of(len, d as nat) <= len,
{
    assert(len / (d as nat) <= len) by (nonlinear_arith)
        requires
            d > 0,
    ;
}

/// The bytes of `s` as UTF-8.
pub open spec fn utf8_of(s: &String) -> Seq<u8> {
    vstd::utf8::encode_utf8(s@)
}

fn bytes_of(s: &String) -> (r: Vec<u8>)
    ensures
        r@ == utf8_of(s),
{
    vstd::slice::slice_to_vec(s.as_str().as_bytes())
}

/// A read-only file with no content.
pub struct EmptyROFile {
    pub name: Vec<u8>,
}

impl EmptyROFile {
    pub fn new(name: String) -> (r: Self)
        ensures
            r.name@ == utf8_of(&name),
    {
        EmptyROFile { name: bytes_of(&name) }
    }
}

/// A read-only file whose content is served in full.
pub struct PrepopulatedFile {
    pub name: Vec<u8>,
    pub data: Vec<u8>,
}

impl PrepopulatedFile {
    pub fn new(name: String, data: String) -> (r: Self)
        ensures
            r.name@ == utf8_of(&name),
            r.data@ == utf8_of(&data),
    {
        PrepopulatedFile { name: bytes_of(&name), data: bytes_of(&data) }
    }
}

/// A read-only file that serves at most one byte per read.
pub struct ReadOneFile {
    pub name: Vec<u8>,
    pub data: Vec<u8>,
}

impl ReadOneFile {
    pub fn new(name: String, data: String) -> (r: Self)
        ensures
            r.name@ == utf8_of(&name),
            r.data@ == utf8_of(&data),
    {
        ReadOneFile { name: bytes_of(&name), data: bytes_of(&data) }
    }
}

/// A read-only file that serves a fraction of each read: `size / divisor`
/// bytes, at least one.
pub struct ReadX {
    pub name: Vec<u8>,
    pub data: Vec<u8>,
    pub divisor: u32,
}

impl ReadX {
    pub fn new(name: String, data: String, divisor: u32) -> (r: Self)
        requires
            divisor > 0,
        ensures
            r.name@ == utf8_of(&name),
            r.data@ == utf8_of(&data),
            r.divisor == divisor,
    {
        ReadX { name: bytes_of(&name), data: bytes_of(&data), divisor }
    }
}

/// A writable file, empty at first, that keeps only the first byte of each write.
pub struct WriteOneFile {
    pub name: Vec<u8>,
    pub data: Vec<u8>,
}

impl WriteOneFile {
    pub fn new(name: String) -> (r: Self)
        ensures
            r.name@ == utf8_of(&name),
            r.data@ == Seq::<u8>::empty(),
    {
        WriteOneFile { name: bytes_of(&name), data: Vec::new() }
    }
}

/// A writable file, empty at first, that keeps a fraction of each write:
/// `len / divisor` leading bytes, at least one.
pub struct WriteX {
    pub name: Vec<u8>,
    pub data: Vec<u8>,
    pub divisor: u32,
}

impl WriteX {
    pub fn new(name: String, divisor: u32) -> (r: Self)
        requires
            divisor > 0,
        ensures
            r.name@ == utf8_of(&name),
            r.data@ == Seq::<u8>::empty(),
            r.divisor == divisor,
    {
        WriteX { name: bytes_of(&name), data: Vec::new(), divisor }
    }
}

/// How a write of `data` at `offset` takes file `before` to `after` and what it answers.
pub open spec fn write_outcome(
    before: FsFile,
    after: FsFile,
    offset: nat,
    data: Seq<u8>,
    r: Result<u32, FsError>,
) -> bool {
    &&& after.name_view() == before.name_view()
    &&& after.behavior() == before.behavior()
    &&& match before.behavior().accepted(data.len()) {
        None => r == Err::<u32, FsError>(FsError::Unsupported) && after.content()
            == before.content(),
        Some(a) => r == Ok::<u32, FsError>(a as u32) && after.content() == spliced(
            before.content(),
            offset,
            data.take(a as int),
        ),
    }
}

/// Whether a change of attributes is refused whole: any change but the size,
/// or any change of a read-only file.
pub open spec fn setattr_refused(
    before: FsFile,
    mode: Option<u32>,
    uid: Option<u32>,
    gid: Option<u32>,
    flags: Option<u32>,
) -> bool {
    !before.behavior().writable() || mode is Some || uid is Some || gid is Some || flags is Some
}

/// How a change of attributes takes file `before` to `after` and what it answers.
pub open spec fn setattr_outcome(
    before: FsFile,
    after: FsFile,
    mode: Option<u32>,
    uid: Option<u32>,
    gid: Option<u32>,
    size: Option<u64>,
    flags: Option<u32>,
    r: Result<FileAttr, FsError>,
) -> bool {
    &&& after.name_view() == before.name_view()
    &&& after.behavior() == before.behavior()
    &&& if setattr_refused(before, mode, uid, gid, flags) {
        r == Err::<FileAttr, FsError>(FsError::Unsupported) && after.content() == before.content()
    } else {
        &&& after.content() == match size {
            Some(s) => resized(before.content(), s as nat),
            None => before.content(),
        }
        &&& r == Ok::<FileAttr, FsError>(after.spec_attr())
    }
}

/// One file of the file system, of one of the kinds above.
pub enum FsFile {
    Empty(EmptyROFile),
    Prepopulated(PrepopulatedFile),
    ReadOne(ReadOneFile),
    ReadX(ReadX),
    WriteOne(WriteOneFile),
    WriteX(WriteX),
}

impl FsFile {
    /// The file's name in the root directory.
    pub open spec fn name_view(&self) -> Seq<u8> {
        match self {
            FsFile::Empty(f) => f.name@,
            FsFile::Prepopulated(f) => f.name@,
            FsFile::ReadOne(f) => f.name@,
            FsFile::ReadX(f) => f.name@,
            FsFile::WriteOne(f) => f.name@,
            FsFile::WriteX(f) => f.name@,
        }
    }

    /// The bytes the file holds now.
    pub open spec fn content(&self) -> Seq<u8> {
        match self {
            FsFile::Empty(_) => Seq::empty(),
            FsFile::Prepopulated(f) => f.data@,
            FsFile::ReadOne(f) => f.data@,
            FsFile::ReadX(f) => f.data@,
            FsFile::WriteOne(f) => f.data@,
            FsFile::WriteX(f) => f.data@,
        }
    }

    /// The file's read and write policies.
    pub open spec fn behavior(&self) -> Behavior {
        match self {
            FsFile::Empty(_) => Behavior::Empty,
            FsFile::Prepopulated(_) => Behavior::Prepopulated,
            FsFile::ReadOne(_) => Behavior::ReadOne,
            FsFile::ReadX(f) => Behavior::ReadFraction(f.divisor),
            FsFile::WriteOne(_) => Behavior::WriteOne,
            FsFile::WriteX(f) => Behavior::WriteFraction(f.divisor),
        }
    }

    pub open spec fn wf(&self) -> bool {
        self.behavior().wf()
    }

    /// Attributes as `getattr` reports them.
    pub open spec fn spec_attr(&self) -> FileAttr {
        fileattr_of(self.content().len() as u64, self.behavior().perms(), false)
    }

    pub fn get_name(&self) -> (r: &[u8])
        ensures
            r@ == self.name_view(),
    {
        match self {
            FsFile::Empty(f) => f.name.as_slice(),
            FsFile::Prepopulated(f) => f.name.as_slice(),
            FsFile::ReadOne(f) => f.name.as_slice(),
            FsFile::ReadX(f) => f.name.as_slice(),
            FsFile::WriteOne(f) => f.name.as_slice(),
            FsFile::WriteX(f) => f.name.as_slice(),
        }
    }

    pub fn get_data(&self) -> (r: &[u8])
        ensures
            r@ == self.content(),
    {
        match self {
            FsFile::Empty(_) => &[],
            FsFile::Prepopulated(f) => f.data.as_slice(),
            FsFile::ReadOne(f) => f.data.as_slice(),
            FsFile::ReadX(f) => f.data.as_slice(),
            FsFile::WriteOne(f) => f.data.as_slice(),
            FsFile::WriteX(f) => f.data.as_slice(),
        }
    }

    pub fn get_size(&self) -> (r: usize)
        ensures
            r == self.content().len(),
    {
        self.get_data().len()
    }

    pub fn get_perms(&self) -> (r: u16)
        ensures
            r == self.behavior().perms(),
    {
        match self {
            FsFile::WriteOne(_) | FsFile::WriteX(_) => WRITABLE_PERMS,
            _ => READ_ONLY_PERMS,
        }
    }

    /// Serves a read of `size` bytes at `offset` by this file's read-size policy.
    pub fn read(&self, offset: i64, size: u32) -> (r: &[u8])
        requires
            self.wf(),
        ensures
            r@ == read_window(self.content(), offset as int, self.behavior().served(size as nat)),
    {
        let served: u32 = match self {
            FsFile::ReadOne(_) => if size == 0 {
                0
            } else {
                1
            },
            FsFile::ReadX(f) => fraction(size, f.divisor),
            _ => size,
        };
        read_range(self.get_data(), offset, served)
    }

    /// Current attributes: the content's length and the kind's permission bits.
    pub fn getattr(&self) -> (r: FileAttr)
        ensures
            r == fileattr_of(self.content().len() as u64, self.behavior().perms(), false),
    {
        generate_fileattr(self.get_size() as u64, self.get_perms(), false)
    }

    /// Writes the leading bytes of `data` that this file's write-acceptance policy
    /// keeps at `offset`, and returns how many that was. A read-only file refuses.
    pub fn write(&mut self, offset: i64, data: &[u8]) -> (r: Result<u32, FsError>)
        requires
            old(self).wf(),
            0 <= offset <= usize::MAX,
            data@.len() <= u32::MAX,
        ensures
            write_outcome(*old(self), *final(self), offset as nat, data@, r),
    {
        let len = data.len() as u32;
        match self {
            FsFile::WriteOne(f) => {
                let a: u32 = if len == 0 {
                    0
                } else {
                    1
                };
                let rep = vstd::slice::slice_subrange(data, 0, a as usize);
                splice(&mut f.data, offset as usize, rep);
                Ok(a)
            },
            FsFile::WriteX(f) => {
                let a = fraction(len, f.divisor);
                let rep = vstd::slice::slice_subrange(data, 0, a as usize);
                splice(&mut f.data, offset as usize, rep);
                Ok(a)
            },
            _ => Err(FsError::Unsupported),
        }
    }

    /// Changes the size of a writable file: cuts it, or grows it with zero bytes.
    /// Any other change, or any change to a read-only file, is refused whole.
    pub fn setattr(
        &mut self,
        mode: Option<u32>,
        uid: Option<u32>,
        gid: Option<u32>,
        size: Option<u64>,
        flags: Option<u32>,
    ) -> (r: Result<FileAttr, FsError>)
        requires
            size is Some ==> size->0 <= usize::MAX,
        ensures
            setattr_outcome(*old(self), *final(self), mode, uid, gid, size, flags, r),
    {
        if mode.is_some() || uid.is_some() || gid.is_some() || flags.is_some() {
            return Err(FsError::Unsupported);
        }
        match self {
            FsFile::WriteOne(f) => {
                if let Some(s) = size {
                    resize(&mut f.data, s as usize);
                }
                Ok(generate_fileattr(f.data.len() as u64, WRITABLE_PERMS, false))
            },
            FsFile::WriteX(f) => {
                if let Some(s) = size {
                    resize(&mut f.data, s as usize);
                }
                Ok(generate_fileattr(f.data.len() as u64, WRITABLE_PERMS, false))
            },
            _ => Err(FsError::Unsupported),
        }
    }
}

} // verus!
