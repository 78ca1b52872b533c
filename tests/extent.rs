use mmap_simple::{BoundsError, Extent, RESERVATION};

/// Grows `buf` the way the file is grown, then appends through the extent.
fn append(e: &mut Extent, buf: &mut Vec<u8>, data: &[u8]) {
    let target = e.grow_target(data.len()).unwrap();
    buf.resize(target as usize, 0);
    e.append(buf.as_mut_slice(), data).unwrap();
}

fn drop_tail(e: &mut Extent, buf: &mut Vec<u8>, n: usize) {
    let target = e.shrink_target(n).unwrap();
    buf.truncate(target as usize);
    e.drop_from_tail(n).unwrap();
}

#[test]
fn letters_loop() {
    let mut e = Extent::open(0).unwrap();
    let mut buf: Vec<u8> = Vec::new();
    let mut c = b'a';
    loop {
        append(&mut e, &mut buf, &[c]);
        if c == b'z' {
            break;
        }
        c += 1;
    }
    assert_eq!(e.size(), 26);
    let all = e.read(&buf, 0, 26).unwrap();
    assert_eq!(all, "abcdefghijklmnopqrstuvwxyz".as_bytes());
}

#[test]
fn multiple_ops() {
    let mut e = Extent::open(0).unwrap();
    let mut buf: Vec<u8> = Vec::new();

    append(&mut e, &mut buf, "xxxxx".as_bytes());
    let r = e.overwrite(buf.as_mut_slice(), 2, "overflows".as_bytes());
    assert!(r.is_err());
    assert_eq!(buf, "xxxxx".as_bytes());

    append(&mut e, &mut buf, "yyyyy".as_bytes());
    e.overwrite(buf.as_mut_slice(), 3, "wwww".as_bytes()).unwrap();
    assert_eq!(buf, "xxxwwwwyyy".as_bytes());

    drop_tail(&mut e, &mut buf, 4);
    assert_eq!(e.size(), 6);
    assert_eq!(buf, "xxxwww".as_bytes());

    let read = e.read(&buf, 1, 3).unwrap();
    assert_eq!(read, "xxw".as_bytes());
}

#[test]
fn append_then_read_back() {
    let mut e = Extent::open(0).unwrap();
    let mut buf: Vec<u8> = Vec::new();
    append(&mut e, &mut buf, b"head");
    let before = e.size() as usize;
    append(&mut e, &mut buf, b"tail!");
    assert_eq!(e.size(), 9);
    assert_eq!(e.read(&buf, before, 5).unwrap(), b"tail!".to_vec());
    assert_eq!(e.read(&buf, 0, before).unwrap(), b"head".to_vec());
}

#[test]
fn append_empty_keeps_size() {
    let mut e = Extent::open(3).unwrap();
    let mut buf: Vec<u8> = b"abc".to_vec();
    append(&mut e, &mut buf, b"");
    assert_eq!(e.size(), 3);
    assert_eq!(buf, b"abc".to_vec());
}

#[test]
fn overwrite_then_read_back() {
    let mut e = Extent::open(8).unwrap();
    let mut buf: Vec<u8> = b"01234567".to_vec();
    e.overwrite(buf.as_mut_slice(), 5, b"abc").unwrap();
    assert_eq!(e.read(&buf, 5, 3).unwrap(), b"abc".to_vec());
    assert_eq!(buf, b"01234abc".to_vec());
    assert_eq!(e.size(), 8);
}

#[test]
fn out_of_range_changes_nothing() {
    let e = Extent::open(4).unwrap();
    let mut buf: Vec<u8> = b"abcd".to_vec();
    assert_eq!(e.overwrite(buf.as_mut_slice(), 3, b"zz"), Err(BoundsError::EndOfRange));
    assert_eq!(e.read(&buf, 4, 1), Err(BoundsError::EndOfRange));
    assert_eq!(e.read(&buf, usize::MAX, 2), Err(BoundsError::EndOfRange));
    assert_eq!(e.check_range(usize::MAX, usize::MAX), Err(BoundsError::EndOfRange));
    assert_eq!(buf, b"abcd".to_vec());
    assert_eq!(e.size(), 4);
    assert_eq!(e.read(&buf, 4, 0).unwrap(), Vec::<u8>::new());
    assert_eq!(e.check_range(0, 4), Ok(()));
}

#[test]
fn drop_then_append_back() {
    let mut e = Extent::open(0).unwrap();
    let mut buf: Vec<u8> = Vec::new();
    append(&mut e, &mut buf, b"keepdrop");
    drop_tail(&mut e, &mut buf, 4);
    assert_eq!(e.size(), 4);
    append(&mut e, &mut buf, b"DROP");
    assert_eq!(e.size(), 8);
    assert_eq!(e.read(&buf, 0, 4).unwrap(), b"keep".to_vec());
}

#[test]
fn drop_more_than_size_is_refused() {
    let mut e = Extent::open(3).unwrap();
    assert_eq!(e.shrink_target(4), Err(BoundsError::TailUnderflow));
    assert_eq!(e.drop_from_tail(4), Err(BoundsError::TailUnderflow));
    assert_eq!(e.size(), 3);
    assert_eq!(e.drop_from_tail(3), Ok(()));
    assert_eq!(e.size(), 0);
}

#[test]
fn reopen_keeps_size() {
    let e = Extent::open(42).unwrap();
    let again = Extent::open(e.size()).unwrap();
    assert_eq!(again.size(), 42);
}

#[test]
fn reservation_bounds() {
    assert_eq!(RESERVATION, 1u64 << 40);
    assert!(Extent::open(RESERVATION).is_ok());
    assert_eq!(Extent::open(RESERVATION + 1).err(), Some(BoundsError::ReservationExceeded));
    let mut e = Extent::open(RESERVATION - 2).unwrap();
    assert_eq!(e.grow_target(2), Ok(RESERVATION));
    assert_eq!(e.grow_target(3), Err(BoundsError::ReservationExceeded));
    assert_eq!(e.grow(3), Err(BoundsError::ReservationExceeded));
    assert_eq!(e.size(), RESERVATION - 2);
    assert_eq!(e.grow(2), Ok(()));
    assert_eq!(e.size(), RESERVATION);
}
