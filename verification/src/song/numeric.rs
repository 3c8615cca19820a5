//! Integers and `bool`, little-endian.

use vstd::prelude::*;
use super::{
    ConstSongSize, ConstSongSizeValue, FromSong, FromSongError, HasSongSize, SongRoundTrip,
    SongSize, SongSizeExpr, ToSong, ToSongError,
};

verus! {

impl SongSize for u8 {
    open spec fn song_len(&self) -> nat {
        1
    }

    fn song_size(&self) -> (n: usize) {
        1
    }
}

impl ToSong for u8 {
    open spec fn song_bytes(&self) -> Seq<u8> {
        seq![*self]
    }

    proof fn lemma_song_bytes_len(&self) {
    }

    fn to_song_at(&self, buf: &mut [u8], pos: usize) -> (r: Result<(), ToSongError>) {
        if buf.len() - pos < 1 {
            return Err(ToSongError::BufferOverflow);
        }
        buf[pos] = *self;
        proof {
            assert(final(buf)@ =~= old(buf)@.take(pos as int) + self.song_bytes() + old(buf)@.skip(pos + 1));
        }
        Ok(())
    }
}

impl FromSong for u8 {
    open spec fn song_parse(bytes: Seq<u8>) -> Result<u8, FromSongError> {
        if bytes.len() < 1 {
            Err(FromSongError::BufferOverflow)
        } else {
            Ok(bytes[0])
        }
    }

    proof fn lemma_parse_len(bytes: Seq<u8>) {
    }

    fn from_song_at(buf: &[u8], pos: usize) -> (r: Result<u8, FromSongError>) {
        if buf.len() - pos < 1 {
            return Err(FromSongError::BufferOverflow);
        }
        Ok(buf[pos])
    }
}

impl SongRoundTrip for u8 {
    proof fn lemma_song_round_trip(&self, rest: Seq<u8>) {
        assert((self.song_bytes() + rest)[0] == *self);
    }
}


/// The little-endian bytes of a `u16`.
pub open spec fn u16_le_bytes(v: u16) -> Seq<u8> {
    seq![
        (v & 0xff) as u8,
        ((v >> 8) & 0xff) as u8,
    ]
}

/// The `u16` whose little-endian bytes start `b`.
pub open spec fn u16_from_le(b: Seq<u8>) -> u16 {
    (b[0] as u16)
        | ((b[1] as u16) << 8)
}

/// Reading back the little-endian bytes of a `u16` gives the same `u16`.
pub proof fn lemma_u16_le_round_trip(v: u16)
    ensures
        u16_from_le(u16_le_bytes(v)) == v,
{
    assert(((((v & 0xff) as u8) as u16) | ((((v >> 8) & 0xff) as u8) as u16) << 8) == v) by (bit_vector);
}

impl SongSize for u16 {
    open spec fn song_len(&self) -> nat {
        2
    }

    fn song_size(&self) -> (n: usize) {
        2
    }
}

impl ToSong for u16 {
    open spec fn song_bytes(&self) -> Seq<u8> {
        u16_le_bytes(*self)
    }

    proof fn lemma_song_bytes_len(&self) {
    }

    fn to_song_at(&self, buf: &mut [u8], pos: usize) -> (r: Result<(), ToSongError>) {
        if buf.len() - pos < 2 {
            return Err(ToSongError::BufferOverflow);
        }
        let v = *self;
        buf[pos] = (v & 0xff) as u8;
        buf[pos + 1] = ((v >> 8) & 0xff) as u8;
        proof {
            assert(buf@ =~= old(buf)@.take(pos as int) + self.song_bytes() + old(buf)@.skip(pos + 2));
        }
        Ok(())
    }
}

impl FromSong for u16 {
    open spec fn song_parse(bytes: Seq<u8>) -> Result<u16, FromSongError> {
        if bytes.len() < 2 {
            Err(FromSongError::BufferOverflow)
        } else {
            Ok(u16_from_le(bytes))
        }
    }

    proof fn lemma_parse_len(bytes: Seq<u8>) {
    }

    fn from_song_at(buf: &[u8], pos: usize) -> (r: Result<u16, FromSongError>) {
        if buf.len() - pos < 2 {
            return Err(FromSongError::BufferOverflow);
        }
        let v = (buf[pos] as u16)
            | ((buf[pos + 1] as u16) << 8);
        proof {
            let s = buf@.skip(pos as int);
            assert(s[0] == buf@[pos + 0]);
            assert(s[1] == buf@[pos + 1]);
        }
        Ok(v)
    }
}

impl SongRoundTrip for u16 {
    proof fn lemma_song_round_trip(&self, rest: Seq<u8>) {
        let b = self.song_bytes() + rest;
        assert(b[0] == self.song_bytes()[0]);
        assert(b[1] == self.song_bytes()[1]);
        lemma_u16_le_round_trip(*self);
    }
}

/// The little-endian bytes of a `u32`.
pub open spec fn u32_le_bytes(v: u32) -> Seq<u8> {
    seq![
        (v & 0xff) as u8,
        ((v >> 8) & 0xff) as u8,
        ((v >> 16) & 0xff) as u8,
        ((v >> 24) & 0xff) as u8,
    ]
}

/// The `u32` whose little-endian bytes start `b`.
pub open spec fn u32_from_le(b: Seq<u8>) -> u32 {
    (b[0] as u32)
        | ((b[1] as u32) << 8)
        | ((b[2] as u32) << 16)
        | ((b[3] as u32) << 24)
}

/// Reading back the little-endian bytes of a `u32` gives the same `u32`.
pub proof fn lemma_u32_le_round_trip(v: u32)
    ensures
        u32_from_le(u32_le_bytes(v)) == v,
{
    assert(((((v & 0xff) as u8) as u32) | ((((v >> 8) & 0xff) as u8) as u32) << 8 | ((((v >> 16) & 0xff) as u8) as u32) << 16 | ((((v >> 24) & 0xff) as u8) as u32) << 24) == v) by (bit_vector);
}

impl SongSize for u32 {
    open spec fn song_len(&self) -> nat {
        4
    }

    fn song_size(&self) -> (n: usize) {
        4
    }
}

impl ToSong for u32 {
    open spec fn song_bytes(&self) -> Seq<u8> {
        u32_le_bytes(*self)
    }

    proof fn lemma_song_bytes_len(&self) {
    }

    fn to_song_at(&self, buf: &mut [u8], pos: usize) -> (r: Result<(), ToSongError>) {
        if buf.len() - pos < 4 {
            return Err(ToSongError::BufferOverflow);
        }
        let v = *self;
        buf[pos] = (v & 0xff) as u8;
        buf[pos + 1] = ((v >> 8) & 0xff) as u8;
        buf[pos + 2] = ((v >> 16) & 0xff) as u8;
        buf[pos + 3] = ((v >> 24) & 0xff) as u8;
        proof {
            assert(buf@ =~= old(buf)@.take(pos as int) + self.song_bytes() + old(buf)@.skip(pos + 4));
        }
        Ok(())
    }
}

impl FromSong for u32 {
    open spec fn song_parse(bytes: Seq<u8>) -> Result<u32, FromSongError> {
        if bytes.len() < 4 {
            Err(FromSongError::BufferOverflow)
        } else {
            Ok(u32_from_le(bytes))
        }
    }

    proof fn lemma_parse_len(bytes: Seq<u8>) {
    }

    fn from_song_at(buf: &[u8], pos: usize) -> (r: Result<u32, FromSongError>) {
        if buf.len() - pos < 4 {
            return Err(FromSongError::BufferOverflow);
        }
        let v = (buf[pos] as u32)
            | ((buf[pos + 1] as u32) << 8)
            | ((buf[pos + 2] as u32) << 16)
            | ((buf[pos + 3] as u32) << 24);
        proof {
            let s = buf@.skip(pos as int);
            assert(s[0] == buf@[pos + 0]);
            assert(s[1] == buf@[pos + 1]);
            assert(s[2] == buf@[pos + 2]);
            assert(s[3] == buf@[pos + 3]);
        }
        Ok(v)
    }
}

impl SongRoundTrip for u32 {
    proof fn lemma_song_round_trip(&self, rest: Seq<u8>) {
        let b = self.song_bytes() + rest;
        assert(b[0] == self.song_bytes()[0]);
        assert(b[1] == self.song_bytes()[1]);
        assert(b[2] == self.song_bytes()[2]);
        assert(b[3] == self.song_bytes()[3]);
        lemma_u32_le_round_trip(*self);
    }
}

/// The little-endian bytes of a `u64`.
pub open spec fn u64_le_bytes(v: u64) -> Seq<u8> {
    seq![
        (v & 0xff) as u8,
        ((v >> 8) & 0xff) as u8,
        ((v >> 16) & 0xff) as u8,
        ((v >> 24) & 0xff) as u8,
        ((v >> 32) & 0xff) as u8,
        ((v >> 40) & 0xff) as u8,
        ((v >> 48) & 0xff) as u8,
        ((v >> 56) & 0xff) as u8,
    ]
}

/// The `u64` whose little-endian bytes start `b`.
pub open spec fn u64_from_le(b: Seq<u8>) -> u64 {
    (b[0] as u64)
        | ((b[1] as u64) << 8)
        | ((b[2] as u64) << 16)
        | ((b[3] as u64) << 24)
        | ((b[4] as u64) << 32)
        | ((b[5] as u64) << 40)
        | ((b[6] as u64) << 48)
        | ((b[7] as u64) << 56)
}

/// Reading back the little-endian bytes of a `u64` gives the same `u64`.
pub proof fn lemma_u64_le_round_trip(v: u64)
    ensures
        u64_from_le(u64_le_bytes(v)) == v,
{
    assert(((((v & 0xff) as u8) as u64) | ((((v >> 8) & 0xff) as u8) as u64) << 8 | ((((v >> 16) & 0xff) as u8) as u64) << 16 | ((((v >> 24) & 0xff) as u8) as u64) << 24 | ((((v >> 32) & 0xff) as u8) as u64) << 32 | ((((v >> 40) & 0xff) as u8) as u64) << 40 | ((((v >> 48) & 0xff) as u8) as u64) << 48 | ((((v >> 56) & 0xff) as u8) as u64) << 56) == v) by (bit_vector);
}

impl SongSize for u64 {
    open spec fn song_len(&self) -> nat {
        8
    }

    fn song_size(&self) -> (n: usize) {
        8
    }
}

impl ToSong for u64 {
    open spec fn song_bytes(&self) -> Seq<u8> {
        u64_le_bytes(*self)
    }

    proof fn lemma_song_bytes_len(&self) {
    }

    fn to_song_at(&self, buf: &mut [u8], pos: usize) -> (r: Result<(), ToSongError>) {
        if buf.len() - pos < 8 {
            return Err(ToSongError::BufferOverflow);
        }
        let v = *self;
        buf[pos] = (v & 0xff) as u8;
        buf[pos + 1] = ((v >> 8) & 0xff) as u8;
        buf[pos + 2] = ((v >> 16) & 0xff) as u8;
        buf[pos + 3] = ((v >> 24) & 0xff) as u8;
        buf[pos + 4] = ((v >> 32) & 0xff) as u8;
        buf[pos + 5] = ((v >> 40) & 0xff) as u8;
        buf[pos + 6] = ((v >> 48) & 0xff) as u8;
        buf[pos + 7] = ((v >> 56) & 0xff) as u8;
        proof {
            assert(buf@ =~= old(buf)@.take(pos as int) + self.song_bytes() + old(buf)@.skip(pos + 8));
        }
        Ok(())
    }
}

impl FromSong for u64 {
    open spec fn song_parse(bytes: Seq<u8>) -> Result<u64, FromSongError> {
        if bytes.len() < 8 {
            Err(FromSongError::BufferOverflow)
        } else {
            Ok(u64_from_le(bytes))
        }
    }

    proof fn lemma_parse_len(bytes: Seq<u8>) {
    }

    fn from_song_at(buf: &[u8], pos: usize) -> (r: Result<u64, FromSongError>) {
        if buf.len() - pos < 8 {
            return Err(FromSongError::BufferOverflow);
        }
        let v = (buf[pos] as u64)
            | ((buf[pos + 1] as u64) << 8)
            | ((buf[pos + 2] as u64) << 16)
            | ((buf[pos + 3] as u64) << 24)
            | ((buf[pos + 4] as u64) << 32)
            | ((buf[pos + 5] as u64) << 40)
            | ((buf[pos + 6] as u64) << 48)
            | ((buf[pos + 7] as u64) << 56);
        proof {
            let s = buf@.skip(pos as int);
            assert(s[0] == buf@[pos + 0]);
            assert(s[1] == buf@[pos + 1]);
            assert(s[2] == buf@[pos + 2]);
            assert(s[3] == buf@[pos + 3]);
            assert(s[4] == buf@[pos + 4]);
            assert(s[5] == buf@[pos + 5]);
            assert(s[6] == buf@[pos + 6]);
            assert(s[7] == buf@[pos + 7]);
        }
        Ok(v)
    }
}

impl SongRoundTrip for u64 {
    proof fn lemma_song_round_trip(&self, rest: Seq<u8>) {
        let b = self.song_bytes() + rest;
        assert(b[0] == self.song_bytes()[0]);
        assert(b[1] == self.song_bytes()[1]);
        assert(b[2] == self.song_bytes()[2]);
        assert(b[3] == self.song_bytes()[3]);
        assert(b[4] == self.song_bytes()[4]);
        assert(b[5] == self.song_bytes()[5]);
        assert(b[6] == self.song_bytes()[6]);
        assert(b[7] == self.song_bytes()[7]);
        lemma_u64_le_round_trip(*self);
    }
}

impl SongSize for i8 {
    open spec fn song_len(&self) -> nat {
        1
    }

    fn song_size(&self) -> (n: usize) {
        1
    }
}

/// A `i8` is written as the `u8` with the same bits (two's complement).
impl ToSong for i8 {
    open spec fn song_bytes(&self) -> Seq<u8> {
        (*self as u8).song_bytes()
    }

    proof fn lemma_song_bytes_len(&self) {
    }

    fn to_song_at(&self, buf: &mut [u8], pos: usize) -> (r: Result<(), ToSongError>) {
        let bits = *self as u8;
        bits.to_song_at(buf, pos)
    }
}

impl FromSong for i8 {
    open spec fn song_parse(bytes: Seq<u8>) -> Result<i8, FromSongError> {
        match u8::song_parse(bytes) {
            Ok(bits) => Ok(bits as i8),
            Err(e) => Err(e),
        }
    }

    proof fn lemma_parse_len(bytes: Seq<u8>) {
    }

    fn from_song_at(buf: &[u8], pos: usize) -> (r: Result<i8, FromSongError>) {
        match u8::from_song_at(buf, pos) {
            Ok(bits) => Ok(bits as i8),
            Err(e) => Err(e),
        }
    }
}

impl SongRoundTrip for i8 {
    proof fn lemma_song_round_trip(&self, rest: Seq<u8>) {
        let v = *self;
        let bits = v as u8;
        bits.lemma_song_round_trip(rest);
        assert((bits as i8) == v) by (bit_vector)
            requires
                bits == v as u8,
        ;
    }
}

impl SongSize for i16 {
    open spec fn song_len(&self) -> nat {
        2
    }

    fn song_size(&self) -> (n: usize) {
        2
    }
}

/// A `i16` is written as the `u16` with the same bits (two's complement).
impl ToSong for i16 {
    open spec fn song_bytes(&self) -> Seq<u8> {
        (*self as u16).song_bytes()
    }

    proof fn lemma_song_bytes_len(&self) {
    }

    fn to_song_at(&self, buf: &mut [u8], pos: usize) -> (r: Result<(), ToSongError>) {
        let bits = *self as u16;
        bits.to_song_at(buf, pos)
    }
}

impl FromSong for i16 {
    open spec fn song_parse(bytes: Seq<u8>) -> Result<i16, FromSongError> {
        match u16::song_parse(bytes) {
            Ok(bits) => Ok(bits as i16),
            Err(e) => Err(e),
        }
    }

    proof fn lemma_parse_len(bytes: Seq<u8>) {
    }

    fn from_song_at(buf: &[u8], pos: usize) -> (r: Result<i16, FromSongError>) {
        match u16::from_song_at(buf, pos) {
            Ok(bits) => Ok(bits as i16),
            Err(e) => Err(e),
        }
    }
}

impl SongRoundTrip for i16 {
    proof fn lemma_song_round_trip(&self, rest: Seq<u8>) {
        let v = *self;
        let bits = v as u16;
        bits.lemma_song_round_trip(rest);
        assert((bits as i16) == v) by (bit_vector)
            requires
                bits == v as u16,
        ;
    }
}

impl SongSize for i32 {
    open spec fn song_len(&self) -> nat {
        4
    }

    fn song_size(&self) -> (n: usize) {
        4
    }
}

/// A `i32` is written as the `u32` with the same bits (two's complement).
impl ToSong for i32 {
    open spec fn song_bytes(&self) -> Seq<u8> {
        (*self as u32).song_bytes()
    }

    proof fn lemma_song_bytes_len(&self) {
    }

    fn to_song_at(&self, buf: &mut [u8], pos: usize) -> (r: Result<(), ToSongError>) {
        let bits = *self as u32;
        bits.to_song_at(buf, pos)
    }
}

impl FromSong for i32 {
    open spec fn song_parse(bytes: Seq<u8>) -> Result<i32, FromSongError> {
        match u32::song_parse(bytes) {
            Ok(bits) => Ok(bits as i32),
            Err(e) => Err(e),
        }
    }

    proof fn lemma_parse_len(bytes: Seq<u8>) {
    }

    fn from_song_at(buf: &[u8], pos: usize) -> (r: Result<i32, FromSongError>) {
        match u32::from_song_at(buf, pos) {
            Ok(bits) => Ok(bits as i32),
            Err(e) => Err(e),
        }
    }
}

impl SongRoundTrip for i32 {
    proof fn lemma_song_round_trip(&self, rest: Seq<u8>) {
        let v = *self;
        let bits = v as u32;
        bits.lemma_song_round_trip(rest);
        assert((bits as i32) == v) by (bit_vector)
            requires
                bits == v as u32,
        ;
    }
}

impl SongSize for i64 {
    open spec fn song_len(&self) -> nat {
        8
    }

    fn song_size(&self) -> (n: usize) {
        8
    }
}

/// A `i64` is written as the `u64` with the same bits (two's complement).
impl ToSong for i64 {
    open spec fn song_bytes(&self) -> Seq<u8> {
        (*self as u64).song_bytes()
    }

    proof fn lemma_song_bytes_len(&self) {
    }

    fn to_song_at(&self, buf: &mut [u8], pos: usize) -> (r: Result<(), ToSongError>) {
        let bits = *self as u64;
        bits.to_song_at(buf, pos)
    }
}

impl FromSong for i64 {
    open spec fn song_parse(bytes: Seq<u8>) -> Result<i64, FromSongError> {
        match u64::song_parse(bytes) {
            Ok(bits) => Ok(bits as i64),
            Err(e) => Err(e),
        }
    }

    proof fn lemma_parse_len(bytes: Seq<u8>) {
    }

    fn from_song_at(buf: &[u8], pos: usize) -> (r: Result<i64, FromSongError>) {
        match u64::from_song_at(buf, pos) {
            Ok(bits) => Ok(bits as i64),
            Err(e) => Err(e),
        }
    }
}

impl SongRoundTrip for i64 {
    proof fn lemma_song_round_trip(&self, rest: Seq<u8>) {
        let v = *self;
        let bits = v as u64;
        bits.lemma_song_round_trip(rest);
        assert((bits as i64) == v) by (bit_vector)
            requires
                bits == v as u64,
        ;
    }
}

impl SongSize for bool {
    open spec fn song_len(&self) -> nat {
        1
    }

    fn song_size(&self) -> (n: usize) {
        1
    }
}

/// `true` is written as 1, `false` as 0.
impl ToSong for bool {
    open spec fn song_bytes(&self) -> Seq<u8> {
        seq![if *self { 1u8 } else { 0u8 }]
    }

    proof fn lemma_song_bytes_len(&self) {
    }

    fn to_song_at(&self, buf: &mut [u8], pos: usize) -> (r: Result<(), ToSongError>) {
        let byte: u8 = if *self { 1 } else { 0 };
        byte.to_song_at(buf, pos)
    }
}

/// Only 0 and 1 are booleans; any other byte is an invalid value.
impl FromSong for bool {
    open spec fn song_parse(bytes: Seq<u8>) -> Result<bool, FromSongError> {
        if bytes.len() < 1 {
            Err(FromSongError::BufferOverflow)
        } else if bytes[0] == 0 {
            Ok(false)
        } else if bytes[0] == 1 {
            Ok(true)
        } else {
            Err(FromSongError::InvalidValue)
        }
    }

    proof fn lemma_parse_len(bytes: Seq<u8>) {
    }

    fn from_song_at(buf: &[u8], pos: usize) -> (r: Result<bool, FromSongError>) {
        if buf.len() - pos < 1 {
            return Err(FromSongError::BufferOverflow);
        }
        match buf[pos] {
            0 => Ok(false),
            1 => Ok(true),
            _ => Err(FromSongError::InvalidValue),
        }
    }
}

impl SongRoundTrip for bool {
    proof fn lemma_song_round_trip(&self, rest: Seq<u8>) {
        assert((self.song_bytes() + rest)[0] == self.song_bytes()[0]);
    }
}


impl HasSongSize for u8 {
    type Size = ConstSongSizeValue<1>;
}

impl ConstSongSize for u8 {
    open spec fn const_song_len() -> nat {
        1
    }

    fn const_song_size() -> (n: usize) {
        1
    }

    fn const_song_fits(len: usize) -> (b: bool) {
        1 <= len
    }

    proof fn lemma_const_song_len(v: &Self) {
    }

    proof fn lemma_const_song_len_of_type() {
        assert(<ConstSongSizeValue<1> as SongSizeExpr>::size_value() == 1);
    }
}

impl HasSongSize for u16 {
    type Size = ConstSongSizeValue<2>;
}

impl ConstSongSize for u16 {
    open spec fn const_song_len() -> nat {
        2
    }

    fn const_song_size() -> (n: usize) {
        2
    }

    fn const_song_fits(len: usize) -> (b: bool) {
        2 <= len
    }

    proof fn lemma_const_song_len(v: &Self) {
    }

    proof fn lemma_const_song_len_of_type() {
        assert(<ConstSongSizeValue<2> as SongSizeExpr>::size_value() == 2);
    }
}

impl HasSongSize for u32 {
    type Size = ConstSongSizeValue<4>;
}

impl ConstSongSize for u32 {
    open spec fn const_song_len() -> nat {
        4
    }

    fn const_song_size() -> (n: usize) {
        4
    }

    fn const_song_fits(len: usize) -> (b: bool) {
        4 <= len
    }

    proof fn lemma_const_song_len(v: &Self) {
    }

    proof fn lemma_const_song_len_of_type() {
        assert(<ConstSongSizeValue<4> as SongSizeExpr>::size_value() == 4);
    }
}

impl HasSongSize for u64 {
    type Size = ConstSongSizeValue<8>;
}

impl ConstSongSize for u64 {
    open spec fn const_song_len() -> nat {
        8
    }

    fn const_song_size() -> (n: usize) {
        8
    }

    fn const_song_fits(len: usize) -> (b: bool) {
        8 <= len
    }

    proof fn lemma_const_song_len(v: &Self) {
    }

    proof fn lemma_const_song_len_of_type() {
        assert(<ConstSongSizeValue<8> as SongSizeExpr>::size_value() == 8);
    }
}

impl HasSongSize for i8 {
    type Size = ConstSongSizeValue<1>;
}

impl ConstSongSize for i8 {
    open spec fn const_song_len() -> nat {
        1
    }

    fn const_song_size() -> (n: usize) {
        1
    }

    fn const_song_fits(len: usize) -> (b: bool) {
        1 <= len
    }

    proof fn lemma_const_song_len(v: &Self) {
    }

    proof fn lemma_const_song_len_of_type() {
        assert(<ConstSongSizeValue<1> as SongSizeExpr>::size_value() == 1);
    }
}

impl HasSongSize for i16 {
    type Size = ConstSongSizeValue<2>;
}

impl ConstSongSize for i16 {
    open spec fn const_song_len() -> nat {
        2
    }

    fn const_song_size() -> (n: usize) {
        2
    }

    fn const_song_fits(len: usize) -> (b: bool) {
        2 <= len
    }

    proof fn lemma_const_song_len(v: &Self) {
    }

    proof fn lemma_const_song_len_of_type() {
        assert(<ConstSongSizeValue<2> as SongSizeExpr>::size_value() == 2);
    }
}

impl HasSongSize for i32 {
    type Size = ConstSongSizeValue<4>;
}

impl ConstSongSize for i32 {
    open spec fn const_song_len() -> nat {
        4
    }

    fn const_song_size() -> (n: usize) {
        4
    }

    fn const_song_fits(len: usize) -> (b: bool) {
        4 <= len
    }

    proof fn lemma_const_song_len(v: &Self) {
    }

    proof fn lemma_const_song_len_of_type() {
        assert(<ConstSongSizeValue<4> as SongSizeExpr>::size_value() == 4);
    }
}

impl HasSongSize for i64 {
    type Size = ConstSongSizeValue<8>;
}

impl ConstSongSize for i64 {
    open spec fn const_song_len() -> nat {
        8
    }

    fn const_song_size() -> (n: usize) {
        8
    }

    fn const_song_fits(len: usize) -> (b: bool) {
        8 <= len
    }

    proof fn lemma_const_song_len(v: &Self) {
    }

    proof fn lemma_const_song_len_of_type() {
        assert(<ConstSongSizeValue<8> as SongSizeExpr>::size_value() == 8);
    }
}

impl HasSongSize for bool {
    type Size = ConstSongSizeValue<1>;
}

impl ConstSongSize for bool {
    open spec fn const_song_len() -> nat {
        1
    }

    fn const_song_size() -> (n: usize) {
        1
    }

    fn const_song_fits(len: usize) -> (b: bool) {
        1 <= len
    }

    proof fn lemma_const_song_len(v: &Self) {
    }

    proof fn lemma_const_song_len_of_type() {
        assert(<ConstSongSizeValue<1> as SongSizeExpr>::size_value() == 1);
    }
}


/// A `u8` is written as itself, and one byte is read as the `u8` it is.
pub proof fn lemma_u8_layout(v: u8, bytes: Seq<u8>)
    ensures
        v.song_bytes() == seq![v],
        bytes.len() >= 1 ==> <u8 as FromSong>::song_parse(bytes) == Ok::<u8, FromSongError>(bytes[0]),
        bytes.len() < 1 ==> <u8 as FromSong>::song_parse(bytes) == Err::<u8, FromSongError>(FromSongError::BufferOverflow),
{
}

/// A `u16` is written as two bytes, least significant first: `v == b[0] + 256 * b[1]`; two bytes
/// are read as the `u16` they stand for in that order.
pub proof fn lemma_u16_layout(v: u16, bytes: Seq<u8>)
    ensures
        v.song_bytes().len() == 2,
        v == v.song_bytes()[0] + 256 * v.song_bytes()[1],
        bytes.len() >= 2 ==> <u16 as FromSong>::song_parse(bytes) == Ok::<u16, FromSongError>(
            (bytes[0] + 256 * bytes[1]) as u16,
        ),
        bytes.len() < 2 ==> <u16 as FromSong>::song_parse(bytes) == Err::<u16, FromSongError>(FromSongError::BufferOverflow),
{
    assert(v == ((v & 0xff) as u8) + 256 * (((v >> 8) & 0xff) as u8)) by (bit_vector);
    if bytes.len() >= 2 {
        let b0 = bytes[0];
        let b1 = bytes[1];
        assert(((b0 as u16) | ((b1 as u16) << 8)) == b0 + 256 * b1) by (bit_vector);
    }
}

/// A `u32` is written as four bytes, least significant first:
/// `v == b[0] + 2^8 * b[1] + 2^16 * b[2] + 2^24 * b[3]`; four bytes are read as the `u32` they
/// stand for in that order.
pub proof fn lemma_u32_layout(v: u32, bytes: Seq<u8>)
    ensures
        v.song_bytes().len() == 4,
        v == v.song_bytes()[0] + 0x100 * v.song_bytes()[1] + 0x1_0000 * v.song_bytes()[2]
            + 0x100_0000 * v.song_bytes()[3],
        bytes.len() >= 4 ==> <u32 as FromSong>::song_parse(bytes) == Ok::<u32, FromSongError>(
            (bytes[0] + 0x100 * bytes[1] + 0x1_0000 * bytes[2] + 0x100_0000 * bytes[3]) as u32,
        ),
        bytes.len() < 4 ==> <u32 as FromSong>::song_parse(bytes) == Err::<u32, FromSongError>(FromSongError::BufferOverflow),
{
    assert(v == ((v & 0xff) as u8) + 0x100 * (((v >> 8) & 0xff) as u8) + 0x1_0000 * (((v >> 16)
        & 0xff) as u8) + 0x100_0000 * (((v >> 24) & 0xff) as u8)) by (bit_vector);
    if bytes.len() >= 4 {
        let b0 = bytes[0];
        let b1 = bytes[1];
        let b2 = bytes[2];
        let b3 = bytes[3];
        assert(((b0 as u32) | ((b1 as u32) << 8) | ((b2 as u32) << 16) | ((b3 as u32) << 24))
            == b0 + 0x100 * b1 + 0x1_0000 * b2 + 0x100_0000 * b3) by (bit_vector);
    }
}

/// A `u64` is written as eight bytes, least significant first: `v == sum of b[i] * 2^(8 i)`;
/// eight bytes are read as the `u64` they stand for in that order.
pub proof fn lemma_u64_layout(v: u64, bytes: Seq<u8>)
    ensures
        v.song_bytes().len() == 8,
        v == v.song_bytes()[0] + 0x100 * v.song_bytes()[1] + 0x1_0000 * v.song_bytes()[2]
            + 0x100_0000 * v.song_bytes()[3] + 0x1_0000_0000 * v.song_bytes()[4]
            + 0x100_0000_0000 * v.song_bytes()[5] + 0x1_0000_0000_0000 * v.song_bytes()[6]
            + 0x100_0000_0000_0000 * v.song_bytes()[7],
        bytes.len() >= 8 ==> <u64 as FromSong>::song_parse(bytes) == Ok::<u64, FromSongError>(
            (bytes[0] + 0x100 * bytes[1] + 0x1_0000 * bytes[2] + 0x100_0000 * bytes[3]
                + 0x1_0000_0000 * bytes[4] + 0x100_0000_0000 * bytes[5] + 0x1_0000_0000_0000
                * bytes[6] + 0x100_0000_0000_0000 * bytes[7]) as u64,
        ),
        bytes.len() < 8 ==> <u64 as FromSong>::song_parse(bytes) == Err::<u64, FromSongError>(FromSongError::BufferOverflow),
{
    assert(v == ((v & 0xff) as u8) + 0x100 * (((v >> 8) & 0xff) as u8) + 0x1_0000 * (((v >> 16)
        & 0xff) as u8) + 0x100_0000 * (((v >> 24) & 0xff) as u8) + 0x1_0000_0000 * (((v >> 32)
        & 0xff) as u8) + 0x100_0000_0000 * (((v >> 40) & 0xff) as u8) + 0x1_0000_0000_0000 * (((v
        >> 48) & 0xff) as u8) + 0x100_0000_0000_0000 * (((v >> 56) & 0xff) as u8)) by (bit_vector);
    if bytes.len() >= 8 {
        let b0 = bytes[0];
        let b1 = bytes[1];
        let b2 = bytes[2];
        let b3 = bytes[3];
        let b4 = bytes[4];
        let b5 = bytes[5];
        let b6 = bytes[6];
        let b7 = bytes[7];
        assert(((b0 as u64) | ((b1 as u64) << 8) | ((b2 as u64) << 16) | ((b3 as u64) << 24) | ((
        b4 as u64) << 32) | ((b5 as u64) << 40) | ((b6 as u64) << 48) | ((b7 as u64) << 56)) == b0
            + 0x100 * b1 + 0x1_0000 * b2 + 0x100_0000 * b3 + 0x1_0000_0000 * b4 + 0x100_0000_0000
            * b5 + 0x1_0000_0000_0000 * b6 + 0x100_0000_0000_0000 * b7) by (bit_vector);
    }
}

/// A signed integer is written as the unsigned integer of the same width with the same bits
/// (two's complement), and read back the same way.
pub proof fn lemma_signed_layout(a: i8, b: i16, c: i32, d: i64, bytes: Seq<u8>)
    ensures
        a.song_bytes() == (a as u8).song_bytes(),
        b.song_bytes() == (b as u16).song_bytes(),
        c.song_bytes() == (c as u32).song_bytes(),
        d.song_bytes() == (d as u64).song_bytes(),
        <i8 as FromSong>::song_parse(bytes) == (match <u8 as FromSong>::song_parse(bytes) {
            Ok(bits) => Ok::<i8, FromSongError>(bits as i8),
            Err(e) => Err(e),
        }),
        <i16 as FromSong>::song_parse(bytes) == (match <u16 as FromSong>::song_parse(bytes) {
            Ok(bits) => Ok::<i16, FromSongError>(bits as i16),
            Err(e) => Err(e),
        }),
        <i32 as FromSong>::song_parse(bytes) == (match <u32 as FromSong>::song_parse(bytes) {
            Ok(bits) => Ok::<i32, FromSongError>(bits as i32),
            Err(e) => Err(e),
        }),
        <i64 as FromSong>::song_parse(bytes) == (match <u64 as FromSong>::song_parse(bytes) {
            Ok(bits) => Ok::<i64, FromSongError>(bits as i64),
            Err(e) => Err(e),
        }),
{
}

/// `true` is written as the byte 1 and `false` as 0; those two bytes are read back as such, and
/// any other byte is refused as an invalid value.
pub proof fn lemma_bool_layout(v: bool, bytes: Seq<u8>)
    ensures
        v ==> v.song_bytes() == seq![1u8],
        !v ==> v.song_bytes() == seq![0u8],
        bytes.len() >= 1 && bytes[0] == 0 ==> <bool as FromSong>::song_parse(bytes) == Ok::<bool, FromSongError>(false),
        bytes.len() >= 1 && bytes[0] == 1 ==> <bool as FromSong>::song_parse(bytes) == Ok::<bool, FromSongError>(true),
        bytes.len() >= 1 && bytes[0] > 1 ==> <bool as FromSong>::song_parse(bytes) == Err::<bool, FromSongError>(FromSongError::InvalidValue),
        bytes.len() < 1 ==> <bool as FromSong>::song_parse(bytes) == Err::<bool, FromSongError>(FromSongError::BufferOverflow),
{
}

} // verus!
