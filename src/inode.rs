use vstd::prelude::*;

verus! {

/// Inode numbers of registered files start here; the root directory is `ROOT_INODE`.
pub const INODE_BIAS: u64 = 2;

/// The inode of the single root directory.
pub const ROOT_INODE: u64 = 1;

/// Index in registration order of the file that carries inode `ino`.
pub fn ino_to_idx(ino: u64) -> (r: usize)
    requires
        INODE_BIAS <= ino <= usize::MAX + INODE_BIAS,
    ensures
        r as int == ino - INODE_BIAS,
{
    (ino - INODE_BIAS) as usize
}

/// Inode of the file registered at position `idx`.
pub fn idx_to_ino(idx: usize) -> (r: u64)
    requires
        idx as int + INODE_BIAS <= u64::MAX,
    ensures
        r as int == idx + INODE_BIAS,
{
    idx as u64 + INODE_BIAS
}

} // verus!
