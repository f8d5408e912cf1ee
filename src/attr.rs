use vstd::prelude::*;

verus! {

/// What an inode is: the root directory or one of the regular files in it.
#[derive(Clone, Copy, Debug, PartialEq, Eq, Structural)]
pub enum FileKind {
    Directory,
    RegularFile,
}

/// Attributes of an inode. All timestamps are the Unix epoch, so none is held.
#[derive(Clone, Copy, Debug, PartialEq, Eq, Structural)]
pub struct FileAttr {
    pub ino: u64,
    pub size: u64,
    pub blocks: u64,
    pub kind: FileKind,
    pub perm: u16,
    pub nlink: u32,
    pub uid: u32,
    pub gid: u32,
    pub rdev: u32,
    pub blksize: u32,
    pub flags: u32,
}

/// Permission bits of a file that cannot be written.
pub const READ_ONLY_PERMS: u16 = 0o444;

/// Permission bits of a file that can be written.
pub const WRITABLE_PERMS: u16 = 0o666;

/// Permission bits of the root directory.
pub const ROOT_PERMS: u16 = 0o755;

/// Size reported for the root directory.
pub const ROOT_SIZE: u64 = 4096;

/// Attributes of an inode of `size` bytes with permission bits `perm`; the
/// inode number is left at zero for the caller to fill in.
pub open spec fn fileattr_of(size: u64, perm: u16, is_dir: bool) -> FileAttr {
    FileAttr {
        ino: 0,
        size,
        blocks: if size == 0 {
            0
        } else {
            8
        },
        kind: if is_dir {
            FileKind::Directory
        } else {
            FileKind::RegularFile
        },
        perm,
        nlink: 1,
        uid: 1000,
        gid: 1000,
        rdev: 0,
        blksize: 4096,
        flags: 0,
    }
}

/// Builds the attributes of an inode of `size` bytes with permission bits `perm`.
pub fn generate_fileattr(size: u64, perm: u16, is_dir: bool) -> (r: FileAttr)
    ensures
        r == fileattr_of(size, perm, is_dir),
{
    let blocks: u64 = if size == 0 {
        0
    } else {
        8
    };
    let kind = if is_dir {
        FileKind::Directory
    } else {
        FileKind::RegularFile
    };
    FileAttr {
        ino: 0,
        size,
        blocks,
        kind,
        perm,
        nlink: 1,
        uid: 1000,
        gid: 1000,
        rdev: 0,
        blksize: 4096,
        flags: 0,
    }
}

/// Why an operation on the file system failed.
#[derive(Clone, Copy, Debug, PartialEq, Eq, Structural)]
pub enum FsError {
    /// No file or inode of that name or number.
    NotFound,
    /// The file cannot do what was asked of it.
    Unsupported,
    /// A directory cursor outside the listing.
    InvalidArgument,
    /// A lookup under a parent other than the root directory.
    BadParent,
}

} // verus!
