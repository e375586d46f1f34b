use core::marker::PhantomData;

use binrw::BinReaderExt;
use binrw::Cursor;
use binrw::Error;
use binrw::IoErrorKind;
use binrw::VecArgs;
use binrw::read_byte_vec;

#[test]
fn three_little_endian_elements() {
    let mut reader = Cursor::new(vec![0x04, 0x00, 0x05, 0x00, 0x06, 0x00]);
    let v: Vec<u16> = reader.read_le_args(VecArgs { count: 3, inner: () }).unwrap();
    assert_eq!(v, vec![4, 5, 6]);
    assert_eq!(reader.stream_position(), 6);
}

#[test]
fn zero_elements() {
    let mut reader = Cursor::new(vec![0x04, 0x00]);
    let v: Vec<u16> = reader.read_le_args(VecArgs { count: 0, inner: () }).unwrap();
    assert_eq!(v, Vec::<u16>::new());
    assert_eq!(reader.stream_position(), 0);
}

#[test]
fn element_failure_stops_the_sequence() {
    let mut reader = Cursor::new(vec![0x04, 0x00, 0x05, 0x00, 0x06]);
    let r: Result<Vec<u16>, Error> = reader.read_le_args(VecArgs { count: 3, inner: () });
    assert_eq!(r, Err(Error::Io(IoErrorKind::UnexpectedEof)));
    // the two whole elements were consumed; the failed one restored itself
    assert_eq!(reader.stream_position(), 4);
}

#[test]
fn byte_fast_path_matches_element_path() {
    let data = vec![9, 8, 7, 6, 5];

    let mut bulk = Cursor::new(data.clone());
    let fast = read_byte_vec(&mut bulk, 5).unwrap();

    let mut slow_reader = Cursor::new(data.clone());
    let slow: Vec<u8> = slow_reader.read_le_args(VecArgs { count: 5, inner: () }).unwrap();

    assert_eq!(fast, slow);
    assert_eq!(bulk.stream_position(), slow_reader.stream_position());

    let mut bulk_short = Cursor::new(vec![1, 2]);
    let mut slow_short = Cursor::new(vec![1, 2]);
    let fast_err = read_byte_vec(&mut bulk_short, 3);
    let slow_err: Result<Vec<u8>, Error> = slow_short.read_le_args(VecArgs { count: 3, inner: () });
    assert_eq!(fast_err, Err(Error::Io(IoErrorKind::UnexpectedEof)));
    assert_eq!(slow_err, Err(Error::Io(IoErrorKind::UnexpectedEof)));
}

#[test]
fn nested_sequences() {
    let mut reader = Cursor::new(vec![1, 2, 3, 4]);
    let v: Vec<Vec<u8>> = reader
        .read_le_args(VecArgs { count: 2, inner: VecArgs { count: 2, inner: () } })
        .unwrap();
    assert_eq!(v, vec![vec![1, 2], vec![3, 4]]);
}

#[test]
fn fixed_size_sequence() {
    let mut reader = Cursor::new(vec![0x04, 0x00, 0x05, 0x00, 0x06, 0x00]);
    let a: [u16; 3] = reader.read_le_args(()).unwrap();
    assert_eq!(a, [4, 5, 6]);
}

#[test]
fn fixed_size_sequence_failure_returns_the_element_error() {
    let mut reader = Cursor::new(vec![0x04, 0x00, 0x05, 0x00, 0x06]);
    let r: Result<[u16; 3], Error> = reader.read_le_args(());
    assert_eq!(r, Err(Error::Io(IoErrorKind::UnexpectedEof)));

    // the same error the element decoder raises standalone at that position
    let mut standalone = Cursor::new(vec![0x04, 0x00, 0x05, 0x00, 0x06]);
    standalone.seek_to(4);
    let elem: Result<u16, Error> = standalone.read_le();
    assert_eq!(elem, Err(Error::Io(IoErrorKind::UnexpectedEof)));
}

#[test]
fn tuples_decode_in_declared_order() {
    let mut reader = Cursor::new(vec![1, 0x00, 0x05, 2]);
    let t: (u8, u16, u8) = reader.read_be().unwrap();
    assert_eq!(t, (1, 5, 2));
}

#[test]
fn wide_tuple() {
    let mut reader = Cursor::new((1u8..=9).collect::<Vec<u8>>());
    let t: (u8, u8, u8, u8, u8, u8, u8, u8, u8) = reader.read_le().unwrap();
    assert_eq!(t, (1, 2, 3, 4, 5, 6, 7, 8, 9));
}

#[test]
fn optional_and_boxed_values() {
    let mut reader = Cursor::new(vec![0x07, 0x00, 0x00, 0x00]);
    let o: Option<u32> = reader.read_le().unwrap();
    assert_eq!(o, Some(7));

    let mut reader = Cursor::new(vec![0x07, 0x00, 0x00, 0x00]);
    let b: Box<u32> = reader.read_le().unwrap();
    assert_eq!(*b, 7);
}

#[test]
fn markers_and_unit_consume_nothing() {
    let mut reader = Cursor::new(vec![1, 2, 3]);
    let _m: PhantomData<u32> = reader.read_le().unwrap();
    assert_eq!(reader.stream_position(), 0);
    let _u: () = reader.read_le().unwrap();
    assert_eq!(reader.stream_position(), 0);
}

#[test]
fn finalize_pass_leaves_values_and_position() {
    // the one-shot entry points run both phases; for these built-in types
    // the finalize pass touches every sub-value once and moves nothing
    let mut reader = Cursor::new(vec![1, 2, 3, 4, 5, 6]);
    let v: Option<Box<Vec<u16>>> = reader
        .read_le_args(VecArgs { count: 3, inner: () })
        .unwrap();
    assert_eq!(*v.unwrap(), vec![0x0201, 0x0403, 0x0605]);
    assert_eq!(reader.stream_position(), 6);
}
