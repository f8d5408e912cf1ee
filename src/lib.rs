//! An in-memory file system whose files answer reads and writes with fewer
//! bytes than asked for, so that callers of read and write loops are driven
//! through their retry paths.
//!
//! `byte_range` writes and reads ranges of a byte buffer, `files` holds the
//! kinds of file and their policies, `testfs` the registry that numbers them by
//! inode and answers the file-system operations.

pub mod attr;
pub mod byte_range;
pub mod files;
pub mod inode;
pub mod testfs;
