use testio::byte_range::{read_range, resize, splice};

#[test]
fn splice_hole_then_append() {
    let mut buf: Vec<u8> = Vec::new();
    let n = splice(&mut buf, 5, &[65, 66]);
    assert_eq!(n, 2);
    assert_eq!(buf, vec![0, 0, 0, 0, 0, 65, 66]);
}

#[test]
fn splice_middle_overwrite() {
    let mut buf = vec![88u8; 10];
    let n = splice(&mut buf, 2, &[89, 89, 89, 89]);
    assert_eq!(n, 4);
    assert_eq!(buf, vec![88, 88, 89, 89, 89, 89, 88, 88, 88, 88]);
}

#[test]
fn splice_past_end_cuts_tail() {
    let mut buf = vec![88u8; 10];
    let n = splice(&mut buf, 6, &[89; 9]);
    assert_eq!(n, 9);
    assert_eq!(buf, vec![88, 88, 88, 88, 88, 88, 89, 89, 89, 89, 89, 89, 89, 89, 89]);
}

#[test]
fn splice_append_at_end() {
    let mut buf = vec![1u8, 2, 3];
    assert_eq!(splice(&mut buf, 3, &[4, 5]), 2);
    assert_eq!(buf, vec![1, 2, 3, 4, 5]);
}

#[test]
fn splice_same_bytes_leaves_buffer() {
    let mut buf = vec![1u8, 2, 3, 4, 5, 6];
    assert_eq!(splice(&mut buf, 2, &[3, 4]), 2);
    assert_eq!(buf, vec![1, 2, 3, 4, 5, 6]);
    assert_eq!(splice(&mut buf, 6, &[]), 0);
    assert_eq!(buf, vec![1, 2, 3, 4, 5, 6]);
}

#[test]
fn splice_empty_replacement_past_end_makes_hole() {
    let mut buf = vec![7u8];
    assert_eq!(splice(&mut buf, 3, &[]), 0);
    assert_eq!(buf, vec![7, 0, 0]);
}

#[test]
fn read_range_clamps() {
    let data = [10u8, 11, 12, 13, 14];
    assert_eq!(read_range(&data, 1, 3), &[11, 12, 13]);
    assert_eq!(read_range(&data, 3, 100), &[13, 14]);
    assert_eq!(read_range(&data, 5, 1), &[] as &[u8]);
    assert_eq!(read_range(&data, 9, 1), &[] as &[u8]);
    assert_eq!(read_range(&data, -1, 4), &[] as &[u8]);
    assert_eq!(read_range(&data, 0, 0), &[] as &[u8]);
}

#[test]
fn resize_cuts_and_grows() {
    let mut buf = vec![1u8, 2, 3];
    resize(&mut buf, 1);
    assert_eq!(buf, vec![1]);
    resize(&mut buf, 4);
    assert_eq!(buf, vec![1, 0, 0, 0]);
    resize(&mut buf, 0);
    assert!(buf.is_empty());
}
