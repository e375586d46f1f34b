use binrw::BinRead;
use binrw::BinReaderExt;
use binrw::Cursor;
use binrw::Endian;
use binrw::Error;
use binrw::IoErrorKind;
use binrw::not_enough_bytes;

#[test]
fn little_endian_u32() {
    let mut reader = Cursor::new(vec![0x07, 0x00, 0x00, 0x00]);
    let x: u32 = reader.read_le().unwrap();
    assert_eq!(x, 7);
    assert_eq!(reader.stream_position(), 4);
}

#[test]
fn big_endian_u16_short_stream_restores_position() {
    let mut reader = Cursor::new(vec![0x00]);
    let r: Result<u16, Error> = reader.read_be();
    assert_eq!(r, Err(Error::Io(IoErrorKind::UnexpectedEof)));
    assert_eq!(reader.stream_position(), 0);
}

#[test]
fn mixed_orders_on_one_stream() {
    let mut reader = Cursor::new(b"\x07\0\0\0\xCC\0\0\x05".to_vec());
    let x: u32 = reader.read_le().unwrap();
    let y: u16 = reader.read_type(Endian::Little).unwrap();
    let z = reader.read_be::<u16>().unwrap();
    assert_eq!((x, y, z), (7u32, 0xCCu16, 5u16));
}

#[test]
fn both_patterns_decode_to_the_same_value() {
    let v: u32 = 0x11223344;
    let mut be = Cursor::new(vec![0x11, 0x22, 0x33, 0x44]);
    let mut le = Cursor::new(vec![0x44, 0x33, 0x22, 0x11]);
    let from_be: u32 = be.read_be().unwrap();
    let from_le: u32 = le.read_le().unwrap();
    assert_eq!(from_be, v);
    assert_eq!(from_le, v);
}

#[test]
fn native_order_round_trips() {
    let v: u64 = 0x0102030405060708;
    let mut reader = Cursor::new(v.to_ne_bytes().to_vec());
    let back: u64 = reader.read_ne().unwrap();
    assert_eq!(back, v);
}

#[test]
fn signed_values() {
    let mut reader = Cursor::new(vec![0xFE, 0xFF]);
    let x: i16 = reader.read_le().unwrap();
    assert_eq!(x, -2);

    let mut reader = Cursor::new(vec![0x80]);
    let y: i8 = reader.read_le().unwrap();
    assert_eq!(y, -128);

    let mut reader = Cursor::new(vec![0xFF, 0xFF, 0xFF, 0x9C]);
    let z: i32 = reader.read_be().unwrap();
    assert_eq!(z, -100);
}

#[test]
fn wide_integers() {
    let mut reader = Cursor::new(vec![0, 0, 0, 0, 0, 0, 0, 1]);
    let x: u64 = reader.read_be().unwrap();
    assert_eq!(x, 1);

    let mut reader = Cursor::new(vec![
        0x00, 0x11, 0x22, 0x33, 0x44, 0x55, 0x66, 0x77, 0x88, 0x99, 0xAA, 0xBB, 0xCC, 0xDD, 0xEE,
        0xFF,
    ]);
    let y: u128 = reader.read_be().unwrap();
    assert_eq!(y, 0x00112233445566778899AABBCCDDEEFF);

    let mut reader = Cursor::new(vec![0xFF; 16]);
    let z: i128 = reader.read_le().unwrap();
    assert_eq!(z, -1);
}

#[test]
fn char_is_one_widened_byte() {
    let mut reader = Cursor::new(vec![0x41, 0xE9]);
    let a: char = reader.read_le().unwrap();
    let e: char = reader.read_le().unwrap();
    assert_eq!(a, 'A');
    assert_eq!(e, '\u{E9}');
}

#[test]
fn read_with_defaults() {
    let mut reader = Cursor::new(vec![42]);
    let x = u8::read(&mut reader).unwrap();
    assert_eq!(x, 42);
}

#[test]
fn read_args_entry_point() {
    let mut reader = Cursor::new(vec![42, 43]);
    let x = u8::read_args(&mut reader, ()).unwrap();
    let y = u8::read_args(&mut reader, ()).unwrap();
    assert_eq!((x, y), (42, 43));
}

#[test]
fn not_enough_bytes_is_the_short_read_error() {
    assert_eq!(not_enough_bytes(()), Error::Io(IoErrorKind::UnexpectedEof));
    assert_eq!(not_enough_bytes(42u32), Error::Io(IoErrorKind::UnexpectedEof));
}

#[test]
fn seek_and_reread() {
    let mut reader = Cursor::new(vec![1, 2, 3, 4]);
    let a: u8 = reader.read_le().unwrap();
    reader.seek_to(0);
    let b: u8 = reader.read_le().unwrap();
    assert_eq!((a, b), (1, 1));
    assert_eq!(reader.len(), 4);
}
