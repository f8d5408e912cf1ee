use testio::attr::{generate_fileattr, FileKind, FsError};
use testio::files::{
    fraction, EmptyROFile, FsFile, PrepopulatedFile, ReadOneFile, ReadX, WriteOneFile, WriteX,
};

#[test]
fn fraction_values() {
    assert_eq!(fraction(0, 3), 0);
    assert_eq!(fraction(1, 9), 1);
    assert_eq!(fraction(8, 9), 1);
    assert_eq!(fraction(9, 9), 1);
    assert_eq!(fraction(100, 3), 33);
    assert_eq!(fraction(4096, 2), 2048);
}

#[test]
fn fileattr_blocks_follow_size() {
    let a = generate_fileattr(0, 0o444, false);
    assert_eq!(a.blocks, 0);
    assert_eq!(a.size, 0);
    assert_eq!(a.kind, FileKind::RegularFile);
    assert_eq!(a.perm, 0o444);
    assert_eq!(a.ino, 0);
    let b = generate_fileattr(12, 0o666, true);
    assert_eq!(b.blocks, 8);
    assert_eq!(b.kind, FileKind::Directory);
    assert_eq!((b.nlink, b.uid, b.gid, b.rdev, b.blksize, b.flags), (1, 1000, 1000, 0, 4096, 0));
}

#[test]
fn empty_file_reads_nothing() {
    let f = FsFile::Empty(EmptyROFile::new("empty1".to_string()));
    assert_eq!(f.get_name(), b"empty1");
    assert_eq!(f.read(0, 10), &[] as &[u8]);
    assert_eq!(f.getattr().size, 0);
    assert_eq!(f.getattr().perm, 0o444);
}

#[test]
fn prepopulated_reads_in_full() {
    let f = FsFile::Prepopulated(PrepopulatedFile::new("full1".to_string(), "full1\n".to_string()));
    assert_eq!(f.read(0, 100), b"full1\n");
    assert_eq!(f.read(2, 2), b"ll");
    assert_eq!(f.read(6, 2), &[] as &[u8]);
    assert_eq!(f.getattr().size, 6);
    assert_eq!(f.getattr().blocks, 8);
}

#[test]
fn read_one_serves_one_byte() {
    let f = FsFile::ReadOne(ReadOneFile::new("readone".to_string(), "abc".to_string()));
    assert_eq!(f.read(0, 100), b"a");
    assert_eq!(f.read(2, 5), b"c");
    assert_eq!(f.read(3, 5), &[] as &[u8]);
    assert_eq!(f.read(0, 0), &[] as &[u8]);
}

#[test]
fn read_fraction_serves_share() {
    let f = FsFile::ReadX(ReadX::new("readX3".to_string(), "a".repeat(100), 3));
    assert_eq!(f.read(0, 10).len(), 3);
    assert_eq!(f.read(0, 2).len(), 1);
    assert_eq!(f.read(0, 0).len(), 0);
    assert_eq!(f.read(98, 30).len(), 2);
    assert_eq!(f.read(0, 300).len(), 100);
}

#[test]
fn write_one_keeps_first_byte() {
    let mut f = FsFile::WriteOne(WriteOneFile::new("writeone".to_string()));
    assert_eq!(f.write(0, b"xyz"), Ok(1));
    assert_eq!(f.get_data(), b"x");
    assert_eq!(f.write(1, b"yz"), Ok(1));
    assert_eq!(f.get_data(), b"xy");
    assert_eq!(f.write(0, b""), Ok(0));
    assert_eq!(f.get_data(), b"xy");
    assert_eq!(f.getattr().perm, 0o666);
}

#[test]
fn write_fraction_keeps_prefix() {
    let mut f = FsFile::WriteX(WriteX::new("writeX2".to_string(), 2));
    assert_eq!(f.write(0, b"abcdef"), Ok(3));
    assert_eq!(f.get_data(), b"abc");
    assert_eq!(f.write(5, b"Z"), Ok(1));
    assert_eq!(f.get_data(), &[b'a', b'b', b'c', 0, 0, b'Z']);
    assert_eq!(f.write(1, b"QQQQ"), Ok(2));
    assert_eq!(f.get_data(), &[b'a', b'Q', b'Q', 0, 0, b'Z']);
}

#[test]
fn read_only_files_refuse_writes() {
    let mut a = FsFile::Empty(EmptyROFile::new("e".to_string()));
    let mut b = FsFile::Prepopulated(PrepopulatedFile::new("p".to_string(), "data".to_string()));
    let mut c = FsFile::ReadX(ReadX::new("r".to_string(), "data".to_string(), 2));
    assert_eq!(a.write(0, b"x"), Err(FsError::Unsupported));
    assert_eq!(b.write(2, b"xyz"), Err(FsError::Unsupported));
    assert_eq!(c.write(100, b""), Err(FsError::Unsupported));
    assert_eq!(b.get_data(), b"data");
}

#[test]
fn setattr_truncates_then_reads_eof() {
    let mut f = FsFile::WriteX(WriteX::new("w".to_string(), 1));
    assert_eq!(f.write(0, b"hello"), Ok(5));
    let attr = f.setattr(None, None, None, Some(0), None).unwrap();
    assert_eq!(attr.size, 0);
    assert_eq!(attr.blocks, 0);
    assert_eq!(f.read(0, 10), &[] as &[u8]);
}

#[test]
fn setattr_grows_with_zeros() {
    let mut f = FsFile::WriteOne(WriteOneFile::new("w".to_string()));
    assert_eq!(f.write(0, b"q"), Ok(1));
    let attr = f.setattr(None, None, None, Some(3), None).unwrap();
    assert_eq!(attr.size, 3);
    assert_eq!(f.get_data(), &[b'q', 0, 0]);
    let same = f.setattr(None, None, None, None, None).unwrap();
    assert_eq!(same.size, 3);
}

#[test]
fn setattr_refuses_other_changes_whole() {
    let mut f = FsFile::WriteOne(WriteOneFile::new("w".to_string()));
    assert_eq!(f.write(0, b"q"), Ok(1));
    assert_eq!(f.setattr(Some(0o600), None, None, Some(0), None), Err(FsError::Unsupported));
    assert_eq!(f.setattr(None, Some(1), None, None, None), Err(FsError::Unsupported));
    assert_eq!(f.setattr(None, None, Some(1), None, None), Err(FsError::Unsupported));
    assert_eq!(f.setattr(None, None, None, Some(0), Some(1)), Err(FsError::Unsupported));
    assert_eq!(f.get_data(), b"q");
    let mut r = FsFile::Prepopulated(PrepopulatedFile::new("p".to_string(), "x".to_string()));
    assert_eq!(r.setattr(None, None, None, Some(0), None), Err(FsError::Unsupported));
    assert_eq!(r.get_data(), b"x");
}
