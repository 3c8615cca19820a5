use sirin::song::magic::MagicU8;
use sirin::song::maybe_unwritten_max_bytes::MaybeUnwrittenMaxBytes;
use sirin::song::{ConstSongSize, FromSong, FromSongError, SongSize, ToSong, ToSongError};
use sirin::time::AbsoluteTimeReference;

#[test]
fn integers_are_little_endian() {
    let mut buf = [0u8; 4];
    0x1234_5678u32.to_song(&mut buf).unwrap();
    assert_eq!(buf, [0x78, 0x56, 0x34, 0x12]);
    assert_eq!(u32::from_song(&buf), Ok(0x1234_5678));

    let mut buf = [0u8; 2];
    (-2i16).to_song(&mut buf).unwrap();
    assert_eq!(buf, [0xFE, 0xFF]);
    assert_eq!(i16::from_song(&buf), Ok(-2));

    let mut buf = [0u8; 8];
    u64::MAX.to_song(&mut buf).unwrap();
    assert_eq!(buf, [0xFF; 8]);
    assert_eq!(u64::from_song(&buf), Ok(u64::MAX));
    assert_eq!(i64::from_song(&buf), Ok(-1));
}

#[test]
fn sizes_of_integers() {
    assert_eq!(0u8.song_size(), 1);
    assert_eq!(0u16.song_size(), 2);
    assert_eq!(0i32.song_size(), 4);
    assert_eq!(0u64.song_size(), 8);
    assert_eq!(true.song_size(), 1);
    assert_eq!(<u32 as ConstSongSize>::const_song_size(), 4);
    assert!(<u32 as ConstSongSize>::const_song_fits(4));
    assert!(!<u32 as ConstSongSize>::const_song_fits(3));
}

#[test]
fn writing_past_the_end_fails() {
    let mut buf = [0xAAu8; 3];
    assert_eq!(0u32.to_song(&mut buf), Err(ToSongError::BufferOverflow));
    let mut buf = [0xAAu8; 5];
    assert_eq!(7u32.to_song_at(&mut buf, 2), Err(ToSongError::BufferOverflow));
    assert_eq!(u32::from_song(&[1, 2, 3]), Err(FromSongError::BufferOverflow));
}

#[test]
fn writing_at_an_offset_keeps_the_prefix_and_suffix() {
    let mut buf = [0xAAu8; 6];
    0x0102u16.to_song_at(&mut buf, 2).unwrap();
    assert_eq!(buf, [0xAA, 0xAA, 0x02, 0x01, 0xAA, 0xAA]);
    assert_eq!(u16::from_song_at(&buf, 2), Ok(0x0102));
}

#[test]
fn booleans_are_zero_or_one() {
    let mut buf = [9u8; 1];
    true.to_song(&mut buf).unwrap();
    assert_eq!(buf, [1]);
    false.to_song(&mut buf).unwrap();
    assert_eq!(buf, [0]);
    assert_eq!(bool::from_song(&[1]), Ok(true));
    assert_eq!(bool::from_song(&[0]), Ok(false));
    assert_eq!(bool::from_song(&[2]), Err(FromSongError::InvalidValue));
    assert_eq!(bool::from_song(&[]), Err(FromSongError::BufferOverflow));
}

#[test]
fn options_carry_a_presence_byte() {
    let mut buf = [0xAAu8; 3];
    Some(0x0304u16).to_song(&mut buf).unwrap();
    assert_eq!(buf, [1, 0x04, 0x03]);
    assert_eq!(Option::<u16>::from_song(&buf), Ok(Some(0x0304)));
    assert_eq!(None::<u16>.song_size(), 1);
    None::<u16>.to_song(&mut buf).unwrap();
    assert_eq!(buf[0], 0);
    assert_eq!(Option::<u16>::from_song(&buf), Ok(None));
}

#[test]
fn results_carry_a_tag_byte() {
    let ok: Result<u8, u16> = Ok(5);
    let err: Result<u8, u16> = Err(0x0102);
    let mut buf = [0u8; 3];
    ok.to_song(&mut buf).unwrap();
    assert_eq!(&buf[..2], &[0x12, 5]);
    assert_eq!(Result::<u8, u16>::from_song(&buf), Ok(Ok(5)));
    err.to_song(&mut buf).unwrap();
    assert_eq!(buf, [0x34, 0x02, 0x01]);
    assert_eq!(Result::<u8, u16>::from_song(&buf), Ok(Err(0x0102)));
    assert_eq!(Result::<u8, u16>::from_song(&[0x56, 0, 0]), Err(FromSongError::InvalidValue));
}

#[test]
fn arrays_are_written_as_is() {
    let bytes = [1u8, 2, 3, 4];
    let mut buf = [0u8; 5];
    bytes.to_song(&mut buf).unwrap();
    assert_eq!(buf, [1, 2, 3, 4, 0]);
    assert_eq!(<[u8; 4]>::from_song(&buf), Ok(bytes));
    assert_eq!(<[u8; 4]>::from_song(&buf[..3]), Err(FromSongError::BufferOverflow));
}

#[test]
fn magic_byte_must_match() {
    let mut buf = [0u8; 1];
    MagicU8::<0xA8>.to_song(&mut buf).unwrap();
    assert_eq!(buf, [0xA8]);
    assert!(MagicU8::<0xA8>::from_song(&[0xA8]).is_ok());
    assert_eq!(MagicU8::<0xA8>::from_song(&[0xA9]), Err(FromSongError::InvalidValue));
}

#[test]
fn unwritten_value_reads_as_erased_flash() {
    let absent: MaybeUnwrittenMaxBytes<AbsoluteTimeReference> = MaybeUnwrittenMaxBytes(None);
    assert_eq!(absent.song_size(), 9);
    let mut buf = [0u8; 9];
    absent.to_song(&mut buf).unwrap();
    assert_eq!(buf, [0xFF; 9]);
    let back = MaybeUnwrittenMaxBytes::<AbsoluteTimeReference>::from_song(&buf).unwrap();
    assert!(back.0.is_none());
    assert!(back.is_none());

    let present = MaybeUnwrittenMaxBytes(Some(AbsoluteTimeReference { ms_since_epoch: 0x0102 }));
    present.to_song(&mut buf).unwrap();
    assert_eq!(buf, [0x18, 0x02, 0x01, 0, 0, 0, 0, 0, 0]);
    let back = MaybeUnwrittenMaxBytes::<AbsoluteTimeReference>::from_song(&buf).unwrap();
    assert_eq!(back.0, Some(AbsoluteTimeReference { ms_since_epoch: 0x0102 }));

    buf[0] = 0x00;
    assert!(matches!(
        MaybeUnwrittenMaxBytes::<AbsoluteTimeReference>::from_song(&buf),
        Err(FromSongError::InvalidValue)
    ));
}

#[test]
fn unwritten_value_does_not_fit_a_short_buffer() {
    let absent: MaybeUnwrittenMaxBytes<AbsoluteTimeReference> = MaybeUnwrittenMaxBytes(None);
    let mut buf = [0u8; 8];
    assert_eq!(absent.to_song(&mut buf), Err(ToSongError::BufferOverflow));
}

#[test]
fn a_present_value_one_byte_short_leaves_its_tag() {
    let present = MaybeUnwrittenMaxBytes(Some(AbsoluteTimeReference { ms_since_epoch: 1 }));
    let mut buf = [0u8; 8];
    assert_eq!(present.to_song(&mut buf), Err(ToSongError::BufferOverflow));
    assert_eq!(buf[0], 0x18);
    let mut buf = [0u8; 7];
    assert_eq!(present.to_song(&mut buf), Err(ToSongError::BufferOverflow));
    assert_eq!(buf, [0u8; 7]);
}

#[test]
fn arrays_of_any_items_are_written_item_by_item() {
    let items = [0x0102u16, 3, 0xFFFF];
    assert_eq!(items.song_size(), 6);
    assert_eq!(<[u16; 3] as ConstSongSize>::const_song_size(), 6);
    let mut buf = [0u8; 6];
    items.to_song(&mut buf).unwrap();
    assert_eq!(buf, [0x02, 0x01, 3, 0, 0xFF, 0xFF]);
    assert_eq!(<[u16; 3]>::from_song(&buf), Ok(items));

    let flags = [Some(true), None];
    assert_eq!(flags.song_size(), 3);
    let mut buf = [0u8; 3];
    flags.to_song(&mut buf).unwrap();
    assert_eq!(buf, [1, 1, 0]);
    assert_eq!(<[Option<bool>; 2]>::from_song(&buf), Ok(flags));
}

#[test]
fn an_array_stops_at_the_first_bad_item() {
    assert_eq!(<[bool; 3]>::from_song(&[1, 7, 0]), Err(FromSongError::InvalidValue));
    assert_eq!(<[bool; 3]>::from_song(&[1, 0]), Err(FromSongError::BufferOverflow));
    let mut buf = [0xAAu8; 3];
    assert_eq!([1u16, 2].to_song(&mut buf), Err(ToSongError::BufferOverflow));
    // The items that fit were written.
    assert_eq!(buf[..2], [1, 0]);
    assert_eq!(<[u8; 0]>::from_song(&[]), Ok([]));
}

#[test]
fn strings_carry_a_two_byte_length() {
    let text = "abc";
    assert_eq!(text.song_size(), 5);
    let mut buf = [0xAAu8; 6];
    text.to_song(&mut buf).unwrap();
    assert_eq!(buf, [3, 0, b'a', b'b', b'c', 0xAA]);
    assert_eq!("".song_size(), 2);
    let mut short = [0u8; 4];
    assert_eq!(text.to_song(&mut short), Err(ToSongError::BufferOverflow));
    assert_eq!(short, [0u8; 4]);
}
