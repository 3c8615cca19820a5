//! Strings: their length in bytes as a little-endian `u16`, then the bytes. A string longer
//! than `u16::MAX` bytes has no encoding: its size is taken to be larger than any buffer, so the
//! precondition of `song_size` and `to_song` leaves it out.

use vstd::prelude::*;
use vstd::string::StringSliceAdditionalSpecFns;
use super::{lemma_write_after, SongSize, ToSong, ToSongError};
use super::numeric::{lemma_u16_layout, u16_le_bytes};

verus! {

/// Whether `s` is short enough for its length to fit the 2-byte prefix.
pub open spec fn has_song_encoding(s: &str) -> bool {
    s.spec_bytes().len() <= u16::MAX
}

impl<'a> SongSize for &'a str {
    open spec fn song_len(&self) -> nat {
        if has_song_encoding(*self) {
            2 + self.spec_bytes().len()
        } else {
            usize::MAX as nat + 1
        }
    }

    fn song_size(&self) -> (n: usize) {
        2 + self.as_bytes().len()
    }
}

impl<'a> ToSong for &'a str {
    open spec fn song_bytes(&self) -> Seq<u8> {
        if has_song_encoding(*self) {
            u16_le_bytes(self.spec_bytes().len() as u16) + self.spec_bytes()
        } else {
            Seq::new(usize::MAX as nat + 1, |i: int| 0u8)
        }
    }

    proof fn lemma_song_bytes_len(&self) {
    }

    fn to_song_at(&self, buf: &mut [u8], pos: usize) -> (r: Result<(), ToSongError>) {
        let bytes = self.as_bytes();
        let n = bytes.len();
        if buf.len() - pos < 2 + n {
            return Err(ToSongError::BufferOverflow);
        }
        let ghost start = buf@;
        let len = n as u16;
        match len.to_song_at(buf, pos) {
            Ok(()) => {},
            Err(e) => return Err(e),
        }
        let ghost before = buf@;
        let mut i: usize = 0;
        while i < n
            invariant
                0 <= i <= n,
                n == bytes@.len(),
                pos + 2 + n <= before.len(),
                pos + 2 + n <= usize::MAX,
                buf@ == before.take(pos + 2) + bytes@.take(i as int) + before.skip(pos + 2 + i),
            decreases n - i,
        {
            buf[pos + 2 + i] = bytes[i];
            proof {
                assert(buf@ =~= before.take(pos + 2) + bytes@.take(i + 1) + before.skip(
                    pos + 2 + i + 1,
                ));
            }
            i = i + 1;
        }
        proof {
            assert(bytes@.take(n as int) =~= bytes@);
            lemma_write_after(start, before, buf@, pos as int, u16_le_bytes(len), bytes@);
        }
        Ok(())
    }
}


/// A string with an encoding is written as its length in bytes, as two bytes least significant
/// first, followed by its bytes.
pub proof fn lemma_str_layout(s: &str)
    requires
        has_song_encoding(s),
    ensures
        s.song_bytes().len() == 2 + s.spec_bytes().len(),
        s.song_bytes()[0] + 256 * s.song_bytes()[1] == s.spec_bytes().len(),
        s.song_bytes().skip(2) == s.spec_bytes(),
{
    let n = s.spec_bytes().len() as u16;
    lemma_u16_layout(n, Seq::empty());
    assert(s.song_bytes().skip(2) =~= s.spec_bytes());
}

} // verus!
