use decl::array::{Array, Slice};
use decl::declarative::{DeclRead, Declarative, DeclarativeWithArgs, DynamicEncodingSize, StaticEncodingSize, Tag};
use decl::error::Error;
use decl::ignored::Ignored;
use decl::offset::{Offset16, Offset32, Offset8};
use decl::primitives::{read_i8, read_u8, BeI32, BeU16, LeI16, LeU32, LeU64, NeU16, NeU32};

#[test]
fn it_works() {
    assert_eq!(2 + 2, 4);
}

#[test]
fn primitive_too_short_fails() {
    let buf = [1u8, 2];
    assert_eq!(u32::parse(&buf).err(), Some(Error::InsufficientBytes));
    assert_eq!(u16::parse(&buf[..1]).err(), Some(Error::InsufficientBytes));
    assert_eq!(u8::parse(&buf[..0]).err(), Some(Error::InsufficientBytes));
    assert_eq!(i64::parse(&[0u8; 7]).err(), Some(Error::InsufficientBytes));
    assert_eq!(LeU64::parse(&[0u8; 7]).err(), Some(Error::InsufficientBytes));
}

#[test]
fn primitive_short_cursor_unchanged() {
    let buf = [0xAAu8, 0xBB];
    let mut cursor: &[u8] = &buf;
    let r = cursor.parse::<u32>();
    assert_eq!(r, Err(Error::InsufficientBytes));
    assert_eq!(cursor, &buf[..]);
}

#[test]
fn primitive_big_endian_default() {
    let buf = [0x12u8, 0x34, 0x56, 0x78, 0x9A, 0xBC, 0xDE, 0xF0, 0xFF];
    let (v, rest) = u16::parse(&buf).unwrap();
    assert_eq!(v, 0x1234);
    assert_eq!(rest.len(), 7);
    let (v, rest) = u32::parse(&buf).unwrap();
    assert_eq!(v, 0x1234_5678);
    assert_eq!(rest, &buf[4..]);
    let (v, rest) = u64::parse(&buf).unwrap();
    assert_eq!(v, 0x1234_5678_9ABC_DEF0);
    assert_eq!(rest, &[0xFFu8][..]);
    let (v, _) = u8::parse(&buf).unwrap();
    assert_eq!(v, 0x12);
    let (v, _) = i8::parse(&buf[8..]).unwrap();
    assert_eq!(v, -1);
    let (v, _) = i16::parse(&[0xFFu8, 0xFE]).unwrap();
    assert_eq!(v, -2);
    let (v, _) = i32::parse(&[0x80u8, 0, 0, 0]).unwrap();
    assert_eq!(v, i32::MIN);
    let (v, _) = i64::parse(&[0xFFu8; 8]).unwrap();
    assert_eq!(v, -1);
}

#[test]
fn primitive_wrapped_orders() {
    let buf = [0x01u8, 0x02, 0x03, 0x04, 0x05, 0x06, 0x07, 0x08];
    assert_eq!(BeU16::parse(&buf).unwrap().0, BeU16(0x0102));
    assert_eq!(LeU32::parse(&buf).unwrap().0, LeU32(0x0403_0201));
    assert_eq!(LeU64::parse(&buf).unwrap().0, LeU64(0x0807_0605_0403_0201));
    assert_eq!(LeI16::parse(&[0xFEu8, 0xFF]).unwrap().0, LeI16(-2));
    assert_eq!(BeI32::parse(&[0xFFu8, 0xFF, 0xFF, 0xFD]).unwrap().0, BeI32(-3));
    assert_eq!(NeU16::parse(&buf).unwrap().0, NeU16(u16::from_ne_bytes([1, 2])));
    assert_eq!(NeU32::parse(&buf).unwrap().0, NeU32(u32::from_ne_bytes([1, 2, 3, 4])));
    let (_, rest) = LeU32::parse(&buf).unwrap();
    assert_eq!(rest, &buf[4..]);
    assert_eq!(BeU16::from(7u16), BeU16(7));
}

#[test]
fn primitive_static_sizes() {
    assert_eq!(u8::static_size(), 1);
    assert_eq!(i16::static_size(), 2);
    assert_eq!(u32::static_size(), 4);
    assert_eq!(i64::static_size(), 8);
    assert_eq!(LeU64::static_size(), 8);
    assert_eq!(DynamicEncodingSize::size(&5u16), 2);
}

#[test]
fn read_single_bytes() {
    assert_eq!(read_u8(&[0xF0u8, 1]), 0xF0);
    assert_eq!(read_i8(&[0xF0u8]), -16);
}

#[test]
fn decode_twice_same_result() {
    let buf = [0x00u8, 0x2A, 0x10, 0x20];
    let a = u16::parse(&buf);
    let b = u16::parse(&buf);
    assert_eq!(a, b);
    let a = <(u16, u8)>::parse(&buf).unwrap();
    let b = <(u16, u8)>::parse(&buf).unwrap();
    assert_eq!(a, b);
    assert_eq!(u32::parse(&buf[1..]), u32::parse(&buf[1..]));
}

#[test]
fn tag_string_matches_and_advances() {
    let buf = b"cmapXY";
    let rest = "cmap".validate(&buf[..]).unwrap();
    assert_eq!(rest, b"XY");
    let mut cursor: &[u8] = &buf[..];
    let rest = cursor.tag("cmap").unwrap();
    assert_eq!(rest, b"XY");
    assert_eq!(cursor, b"XY");
}

#[test]
fn tag_mismatch_does_not_advance() {
    let buf = b"cmaqXY";
    let mut cursor: &[u8] = &buf[..];
    assert_eq!(cursor.tag("cmap"), Err(Error::TagMismatch));
    assert_eq!(cursor, &buf[..]);
    assert_eq!(b"cmap"[..].validate(&buf[..]), Err(Error::TagMismatch));
}

#[test]
fn tag_too_short_fails() {
    let buf = b"cma";
    let mut cursor: &[u8] = &buf[..];
    assert_eq!(cursor.tag("cmap"), Err(Error::InsufficientBytes));
    assert_eq!(cursor, &buf[..]);
    assert_eq!(b"cmap"[..].validate(&buf[..]), Err(Error::InsufficientBytes));
    assert_eq!("".validate(&buf[..0]), Ok(&buf[..0]));
}

#[test]
fn tag_bytes_matches() {
    let buf = [0xDEu8, 0xAD, 0xBE, 0xEF, 0x00];
    let tag: &[u8] = &[0xDE, 0xAD];
    let mut cursor: &[u8] = &buf;
    assert_eq!(cursor.tag(tag), Ok(&buf[2..]));
    assert_eq!(cursor, &buf[2..]);
}

#[test]
fn tag_primitive_compares_value() {
    let buf = [0x00u8, 0x01, 0x00, 0x00, 0x09];
    let mut cursor: &[u8] = &buf;
    assert_eq!(cursor.tag(&0x0001_0000u32), Ok(&buf[4..]));
    assert_eq!(cursor, &buf[4..]);
    let mut cursor: &[u8] = &buf;
    assert_eq!(cursor.tag(&0x0002_0000u32), Err(Error::TagMismatch));
    assert_eq!(cursor, &buf[..]);
    assert_eq!(0x0001u16.validate(&buf[..1]), Err(Error::InsufficientBytes));
    assert_eq!(9u8.validate(&buf[4..]), Ok(&buf[5..]));
    assert_eq!((-1i16).validate(&[0xFFu8, 0xFF]), Ok(&[][..]));
}

#[test]
fn array_iterates_items_at_item_width() {
    let buf = [0x00u8, 0x01, 0x00, 0x02, 0x00, 0x03, 0x99];
    let mut cursor: &[u8] = &buf;
    let array: Array<u16> = cursor.parse_array(3).unwrap();
    assert_eq!(cursor, &buf[..]);
    assert_eq!(array.len(), 3);
    assert_eq!(array.size(), 6);
    let mut iter = array.into_iter();
    let mut items = Vec::new();
    while let Some(item) = iter.next() {
        items.push(item);
    }
    assert_eq!(items, vec![Ok(1u16), Ok(2), Ok(3)]);
    for i in 0..3 {
        assert_eq!(items[i], u16::parse(&buf[2 * i..]).map(|(v, _)| v));
    }
    assert!(iter.next().is_none());
}

#[test]
fn array_yields_failure_when_short() {
    let buf = [0x00u8, 0x01, 0x00];
    let (array, rest) = Array::<u16>::parse_with(&buf, (2, ())).unwrap();
    assert_eq!(rest, &buf[..]);
    let mut iter = array.into_iter();
    assert_eq!(iter.next(), Some(Ok(1)));
    assert_eq!(iter.next(), Some(Err(Error::InsufficientBytes)));
}

#[test]
fn array_empty_yields_nothing() {
    let buf: [u8; 0] = [];
    let mut cursor: &[u8] = &buf;
    let array: Array<u32> = cursor.parse_array_with(0, ()).unwrap();
    assert_eq!(array.size(), 0);
    assert!(array.into_iter().next().is_none());
}

#[test]
fn slice_consumes_nothing() {
    let buf = [1u8, 2, 3];
    let (_slice, rest) = Slice::<u8>::parse_with(&buf, ()).unwrap();
    assert_eq!(rest, &buf[..]);
}

#[test]
fn ignored_skips_static_width() {
    let buf = [1u8, 2, 3, 4, 5];
    let (_, rest) = Ignored::<u32>::parse(&buf).unwrap();
    assert_eq!(rest, &buf[4..]);
    assert_eq!(Ignored::<u64>::parse(&buf).err(), Some(Error::InsufficientBytes));
    assert_eq!(Ignored::<u16>::static_size(), 2);
}

#[test]
fn offset16_within_region() {
    let region = [10u8, 11, 12, 13, 14];
    let buf = [0x00u8, 0x03, 0xEE];
    let (offset, rest) = Offset16::<u8>::parse_with(&buf, (&region, ())).unwrap();
    assert_eq!(rest, &buf[2..]);
    assert_eq!(offset.target(), &region[3..]);
    assert_eq!(offset.resolve().unwrap().0, 13);
    assert_eq!(Offset16::<u8>::static_size(), 2);
}

#[test]
fn offset16_at_region_end_is_empty() {
    let region = [10u8, 11];
    let buf = [0x00u8, 0x02];
    let (offset, _) = Offset16::<u8>::parse_with(&buf, (&region, ())).unwrap();
    assert_eq!(offset.target().len(), 0);
    assert_eq!(offset.resolve().err(), Some(Error::InsufficientBytes));
}

#[test]
fn offset16_beyond_region_fails() {
    let region = [10u8, 11];
    let buf = [0x00u8, 0x03];
    assert_eq!(Offset16::<u8>::parse_with(&buf, (&region, ())).err(), Some(Error::InsufficientBytes));
    assert_eq!(Offset16::<u8>::parse_with(&buf[..1], (&region, ())).err(), Some(Error::InsufficientBytes));
}

#[test]
fn offset_other_widths() {
    let region = [0u8, 1, 2, 3, 4, 5, 6, 7];
    let (o, rest) = Offset8::<u16>::parse_with(&[6u8, 9], (&region, ())).unwrap();
    assert_eq!(rest, &[9u8][..]);
    assert_eq!(o.resolve().unwrap().0, 0x0607);
    let (o, _) = Offset32::<u8>::parse_with(&[0u8, 0, 0, 1], (&region, ())).unwrap();
    assert_eq!(o.target(), &region[1..]);
}

#[test]
fn tuple_decodes_in_order() {
    let buf = [0x01u8, 0x00, 0x02, 0x00, 0x00, 0x00, 0x03, 0x7F];
    let ((a, b, c), rest) = <(u8, u16, u32)>::parse(&buf).unwrap();
    assert_eq!((a, b, c), (1, 2, 3));
    assert_eq!(rest, &buf[7..]);
    assert_eq!(<(u8, u16, u32, u16)>::parse(&buf).err(), Some(Error::InsufficientBytes));
    let mut cursor: &[u8] = &buf;
    assert_eq!(cursor.parse::<(u8, u16, u32, u16)>(), Err(Error::InsufficientBytes));
    assert_eq!(cursor, &buf[..]);
}

#[test]
fn font_header_scenario() {
    let buf = [b'O', b'T', b'T', b'O', 0x00, 0x03, 0x00, 0x01, 0x00, 0x02, 0x00, 0x03];
    let mut cursor: &[u8] = &buf;
    cursor.tag("OTTO").unwrap();
    assert_eq!(cursor.len(), 8);
    let count: u16 = cursor.parse().unwrap();
    assert_eq!(count, 3);
    assert_eq!(cursor.len(), 6);
    let array: Array<u16> = cursor.parse_array(count as usize).unwrap();
    let mut iter = array.into_iter();
    let mut values = Vec::new();
    while let Some(item) = iter.next() {
        values.push(item.unwrap());
    }
    assert_eq!(values, vec![1, 2, 3]);
}
