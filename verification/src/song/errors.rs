//! The song errors as values on the wire: one byte, the variant's index.

use vstd::prelude::*;
use super::{
    ConstSongSize, ConstSongSizeValue, FromSong, FromSongError, HasSongSize, SongRoundTrip,
    SongSize, ToSong, ToSongError,
};

verus! {

/// The byte that stands for each value of `ToSongError` on the wire.
pub open spec fn to_song_error_wire_value(value: ToSongError) -> u8 {
    match value {
        ToSongError::BufferOverflow => 0,
        ToSongError::NotImplemented => 1,
        ToSongError::StringTooLong => 2,
    }
}

impl ToSongError {
    /// The byte that stands for this value on the wire.
    pub fn wire_value(self) -> (value: u8)
        ensures
            value == to_song_error_wire_value(self),
    {
        match self {
            ToSongError::BufferOverflow => 0,
            ToSongError::NotImplemented => 1,
            ToSongError::StringTooLong => 2,
        }
    }
}

impl HasSongSize for ToSongError {
    type Size = ConstSongSizeValue<1>;
}

impl SongSize for ToSongError {
    open spec fn song_len(&self) -> nat {
        1
    }

    fn song_size(&self) -> (n: usize) {
        1
    }
}

impl ConstSongSize for ToSongError {
    open spec fn const_song_len() -> nat {
        1
    }

    fn const_song_size() -> (n: usize) {
        1
    }

    fn const_song_fits(len: usize) -> (b: bool) {
        1 <= len
    }

    proof fn lemma_const_song_len(v: &Self) {
    }

    proof fn lemma_const_song_len_of_type() {
    }
}

impl ToSong for ToSongError {
    open spec fn song_bytes(&self) -> Seq<u8> {
        seq![to_song_error_wire_value(*self)]
    }

    proof fn lemma_song_bytes_len(&self) {
    }

    fn to_song_at(&self, buf: &mut [u8], pos: usize) -> (r: Result<(), ToSongError>) {
        let value = self.wire_value();
        assert(value.song_bytes() == self.song_bytes());
        value.to_song_at(buf, pos)
    }
}

impl FromSong for ToSongError {
    open spec fn song_parse(bytes: Seq<u8>) -> Result<ToSongError, FromSongError> {
        if bytes.len() < 1 {
            Err(FromSongError::BufferOverflow)
        } else if bytes[0] == 0 {
            Ok(ToSongError::BufferOverflow)
        } else if bytes[0] == 1 {
            Ok(ToSongError::NotImplemented)
        } else if bytes[0] == 2 {
            Ok(ToSongError::StringTooLong)
        } else {
            Err(FromSongError::InvalidValue)
        }
    }

    proof fn lemma_parse_len(bytes: Seq<u8>) {
    }

    fn from_song_at(buf: &[u8], pos: usize) -> (r: Result<ToSongError, FromSongError>) {
        if buf.len() - pos < 1 {
            return Err(FromSongError::BufferOverflow);
        }
        let ghost s = buf@.skip(pos as int);
        assert(s[0] == buf@[pos as int]);
        match buf[pos] {
            0 => Ok(ToSongError::BufferOverflow),
            1 => Ok(ToSongError::NotImplemented),
            2 => Ok(ToSongError::StringTooLong),
            _ => Err(FromSongError::InvalidValue),
        }
    }
}

impl SongRoundTrip for ToSongError {
    proof fn lemma_song_round_trip(&self, rest: Seq<u8>) {
        assert((self.song_bytes() + rest)[0] == to_song_error_wire_value(*self));
    }
}

/// The byte that stands for each value of `FromSongError` on the wire.
pub open spec fn from_song_error_wire_value(value: FromSongError) -> u8 {
    match value {
        FromSongError::BufferOverflow => 0,
        FromSongError::NotImplemented => 1,
        FromSongError::InvalidPacketId => 2,
        FromSongError::Utf8Error => 3,
        FromSongError::InvalidValue => 4,
    }
}

impl FromSongError {
    /// The byte that stands for this value on the wire.
    pub fn wire_value(self) -> (value: u8)
        ensures
            value == from_song_error_wire_value(self),
    {
        match self {
            FromSongError::BufferOverflow => 0,
            FromSongError::NotImplemented => 1,
            FromSongError::InvalidPacketId => 2,
            FromSongError::Utf8Error => 3,
            FromSongError::InvalidValue => 4,
        }
    }
}

impl HasSongSize for FromSongError {
    type Size = ConstSongSizeValue<1>;
}

impl SongSize for FromSongError {
    open spec fn song_len(&self) -> nat {
        1
    }

    fn song_size(&self) -> (n: usize) {
        1
    }
}

impl ConstSongSize for FromSongError {
    open spec fn const_song_len() -> nat {
        1
    }

    fn const_song_size() -> (n: usize) {
        1
    }

    fn const_song_fits(len: usize) -> (b: bool) {
        1 <= len
    }

    proof fn lemma_const_song_len(v: &Self) {
    }

    proof fn lemma_const_song_len_of_type() {
    }
}

impl ToSong for FromSongError {
    open spec fn song_bytes(&self) -> Seq<u8> {
        seq![from_song_error_wire_value(*self)]
    }

    proof fn lemma_song_bytes_len(&self) {
    }

    fn to_song_at(&self, buf: &mut [u8], pos: usize) -> (r: Result<(), ToSongError>) {
        let value = self.wire_value();
        assert(value.song_bytes() == self.song_bytes());
        value.to_song_at(buf, pos)
    }
}

impl FromSong for FromSongError {
    open spec fn song_parse(bytes: Seq<u8>) -> Result<FromSongError, FromSongError> {
        if bytes.len() < 1 {
            Err(FromSongError::BufferOverflow)
        } else if bytes[0] == 0 {
            Ok(FromSongError::BufferOverflow)
        } else if bytes[0] == 1 {
            Ok(FromSongError::NotImplemented)
        } else if bytes[0] == 2 {
            Ok(FromSongError::InvalidPacketId)
        } else if bytes[0] == 3 {
            Ok(FromSongError::Utf8Error)
        } else if bytes[0] == 4 {
            Ok(FromSongError::InvalidValue)
        } else {
            Err(FromSongError::InvalidValue)
        }
    }

    proof fn lemma_parse_len(bytes: Seq<u8>) {
    }

    fn from_song_at(buf: &[u8], pos: usize) -> (r: Result<FromSongError, FromSongError>) {
        if buf.len() - pos < 1 {
            return Err(FromSongError::BufferOverflow);
        }
        let ghost s = buf@.skip(pos as int);
        assert(s[0] == buf@[pos as int]);
        match buf[pos] {
            0 => Ok(FromSongError::BufferOverflow),
            1 => Ok(FromSongError::NotImplemented),
            2 => Ok(FromSongError::InvalidPacketId),
            3 => Ok(FromSongError::Utf8Error),
            4 => Ok(FromSongError::InvalidValue),
            _ => Err(FromSongError::InvalidValue),
        }
    }
}

impl SongRoundTrip for FromSongError {
    proof fn lemma_song_round_trip(&self, rest: Seq<u8>) {
        assert((self.song_bytes() + rest)[0] == from_song_error_wire_value(*self));
    }
}


/// On the wire a `ToSongError` is one byte: `BufferOverflow` is 0, `NotImplemented` is 1, `StringTooLong` is 2. Reading that byte gives the value
/// back, whatever follows it.
pub proof fn lemma_to_song_error_layout(v: ToSongError, rest: Seq<u8>)
    ensures
        v is BufferOverflow ==> v.song_bytes() == seq![0u8]
            && <ToSongError as FromSong>::song_parse(seq![0u8] + rest) == Ok::<ToSongError, FromSongError>(v),
        v is NotImplemented ==> v.song_bytes() == seq![1u8]
            && <ToSongError as FromSong>::song_parse(seq![1u8] + rest) == Ok::<ToSongError, FromSongError>(v),
        v is StringTooLong ==> v.song_bytes() == seq![2u8]
            && <ToSongError as FromSong>::song_parse(seq![2u8] + rest) == Ok::<ToSongError, FromSongError>(v),
{
    v.lemma_song_round_trip(rest);
}

/// On the wire a `FromSongError` is one byte: `BufferOverflow` is 0, `NotImplemented` is 1, `InvalidPacketId` is 2, `Utf8Error` is 3, `InvalidValue` is 4. Reading that byte gives the value
/// back, whatever follows it.
pub proof fn lemma_from_song_error_layout(v: FromSongError, rest: Seq<u8>)
    ensures
        v is BufferOverflow ==> v.song_bytes() == seq![0u8]
            && <FromSongError as FromSong>::song_parse(seq![0u8] + rest) == Ok::<FromSongError, FromSongError>(v),
        v is NotImplemented ==> v.song_bytes() == seq![1u8]
            && <FromSongError as FromSong>::song_parse(seq![1u8] + rest) == Ok::<FromSongError, FromSongError>(v),
        v is InvalidPacketId ==> v.song_bytes() == seq![2u8]
            && <FromSongError as FromSong>::song_parse(seq![2u8] + rest) == Ok::<FromSongError, FromSongError>(v),
        v is Utf8Error ==> v.song_bytes() == seq![3u8]
            && <FromSongError as FromSong>::song_parse(seq![3u8] + rest) == Ok::<FromSongError, FromSongError>(v),
        v is InvalidValue ==> v.song_bytes() == seq![4u8]
            && <FromSongError as FromSong>::song_parse(seq![4u8] + rest) == Ok::<FromSongError, FromSongError>(v),
{
    v.lemma_song_round_trip(rest);
}

} // verus!
