//! The device's persistent configuration.

use vstd::prelude::*;
use crate::song::{
    lemma_write_after, ConstSongSize, ConstSongSizeValue, FromSong, FromSongError, HasSongSize,
    SongRoundTrip, SongSize, ToSong, ToSongError,
};

verus! {

/// A nickname, padded at the end with null bytes.
pub type NicknameBuf = [u8; 32];

/// An FAA HAM callsign, padded at the end with null bytes.
pub type CallsignBuf = [u8; 8];

pub type SirinId = u16;

#[derive(Debug, Clone, PartialEq, Eq)]
pub struct SirinConfig {
    /// Nickname for this device. Pad end with null bytes.
    pub nickname: NicknameBuf,
    /// FAA HAM Callsign. Set to all zeros if you aren't using one. Pad end with null bytes.
    pub callsign: CallsignBuf,
    /// An ID for this device. It shouldn't be the same as any other device in range on the
    /// same frequency.
    pub id: SirinId,
}

/// The nickname a device has before it is configured: "Sirin", then null bytes.
pub open spec fn default_nickname() -> Seq<u8> {
    seq![0x53u8, 0x69u8, 0x72u8, 0x69u8, 0x6eu8] + Seq::new(27, |i: int| 0u8)
}

impl Default for SirinConfig {
    fn default() -> (config: SirinConfig)
        ensures
            config.nickname@ == default_nickname(),
            config.callsign@ == Seq::new(8, |i: int| 0u8),
            config.id == 0,
    {
        let mut nickname = [0u8; 32];
        nickname[0] = 0x53;  // 'S'
        nickname[1] = 0x69;  // 'i'
        nickname[2] = 0x72;  // 'r'
        nickname[3] = 0x69;  // 'i'
        nickname[4] = 0x6e;  // 'n'
        let callsign = [0u8; 8];
        proof {
            assert(nickname@ =~= default_nickname());
            assert(callsign@ =~= Seq::new(8, |i: int| 0u8));
        }
        SirinConfig { nickname, callsign, id: 0 }
    }
}

/// Every configuration takes 42 bytes: nickname, callsign and id.
impl HasSongSize for SirinConfig {
    type Size = ConstSongSizeValue<42>;
}

impl ConstSongSize for SirinConfig {
    open spec fn const_song_len() -> nat {
        42
    }

    fn const_song_size() -> (n: usize) {
        42
    }

    fn const_song_fits(len: usize) -> (b: bool) {
        42 <= len
    }

    proof fn lemma_const_song_len(v: &Self) {
        <[u8; 32] as ConstSongSize>::lemma_const_song_len(&v.nickname);
        <[u8; 8] as ConstSongSize>::lemma_const_song_len(&v.callsign);
    }

    proof fn lemma_const_song_len_of_type() {
    }
}

impl SongSize for SirinConfig {
    open spec fn song_len(&self) -> nat {
        self.nickname.song_len() + self.callsign.song_len() + self.id.song_len()
    }

    fn song_size(&self) -> (n: usize) {
        self.nickname.song_size() + self.callsign.song_size() + self.id.song_size()
    }
}

impl ToSong for SirinConfig {
    open spec fn song_bytes(&self) -> Seq<u8> {
        self.nickname.song_bytes() + self.callsign.song_bytes() + self.id.song_bytes()
    }

    proof fn lemma_song_bytes_len(&self) {
        self.nickname.lemma_song_bytes_len();
        self.callsign.lemma_song_bytes_len();
        self.id.lemma_song_bytes_len();
    }

    fn to_song_at(&self, buf: &mut [u8], pos: usize) -> (r: Result<(), ToSongError>) {
        if buf.len() - pos < self.song_size() {
            return Err(ToSongError::BufferOverflow);
        }
        proof {
            self.nickname.lemma_song_bytes_len();
            self.callsign.lemma_song_bytes_len();
            self.id.lemma_song_bytes_len();
        }
        let ghost start = buf@;
        let mut i = pos;
        match self.nickname.to_song_at(buf, i) {
            Ok(()) => {},
            Err(e) => return Err(e),
        }
        i = i + self.nickname.song_size();
        let ghost before = buf@;
        match self.callsign.to_song_at(buf, i) {
            Ok(()) => {},
            Err(e) => return Err(e),
        }
        proof {
            lemma_write_after(start, before, buf@, pos as int, self.nickname.song_bytes(), self.callsign.song_bytes());
        }
        i = i + self.callsign.song_size();
        let ghost before = buf@;
        match self.id.to_song_at(buf, i) {
            Ok(()) => {},
            Err(e) => return Err(e),
        }
        proof {
            lemma_write_after(start, before, buf@, pos as int, self.nickname.song_bytes() + self.callsign.song_bytes(), self.id.song_bytes());
        }
        Ok(())
    }
}

impl FromSong for SirinConfig {
    open spec fn song_parse(bytes: Seq<u8>) -> Result<SirinConfig, FromSongError> {
        match <[u8; 32] as FromSong>::song_parse(bytes) { Err(e) => Err(e), Ok(nickname) => match <[u8; 8] as FromSong>::song_parse(bytes.skip((nickname.song_len()) as int)) { Err(e) => Err(e), Ok(callsign) => match <u16 as FromSong>::song_parse(bytes.skip((nickname.song_len() + callsign.song_len()) as int)) { Err(e) => Err(e), Ok(id) => Ok(SirinConfig { nickname, callsign, id }) } } }
    }

    proof fn lemma_parse_len(bytes: Seq<u8>) {
        <[u8; 32] as FromSong>::lemma_parse_len(bytes);
        if let Ok(nickname) = <[u8; 32] as FromSong>::song_parse(bytes) {
            <[u8; 8] as FromSong>::lemma_parse_len(bytes.skip((nickname.song_len()) as int));
            if let Ok(callsign) = <[u8; 8] as FromSong>::song_parse(bytes.skip((nickname.song_len()) as int)) {
                assert(bytes.skip((nickname.song_len() + callsign.song_len()) as int) =~= bytes.skip((nickname.song_len()) as int).skip(callsign.song_len() as int));
                <u16 as FromSong>::lemma_parse_len(bytes.skip((nickname.song_len() + callsign.song_len()) as int));
            }
        }
    }

    fn from_song_at(buf: &[u8], pos: usize) -> (r: Result<SirinConfig, FromSongError>) {
        let ghost b = buf@.skip(pos as int);
        assert(buf@.len() == buf.len());
        let mut i = pos;
        assert(buf@.skip(i as int) =~= b);
        let v_nickname = match <[u8; 32] as FromSong>::from_song_at(buf, i) {
            Ok(v) => v,
            Err(e) => return Err(e),
        };
        proof {
            <[u8; 32] as FromSong>::lemma_parse_len(b);
        }
        i = i + v_nickname.song_size();
        assert(buf@.skip(i as int) =~= b.skip((v_nickname.song_len()) as int));
        let v_callsign = match <[u8; 8] as FromSong>::from_song_at(buf, i) {
            Ok(v) => v,
            Err(e) => return Err(e),
        };
        proof {
            <[u8; 8] as FromSong>::lemma_parse_len(b.skip((v_nickname.song_len()) as int));
        }
        i = i + v_callsign.song_size();
        assert(buf@.skip(i as int) =~= b.skip((v_nickname.song_len() + v_callsign.song_len()) as int));
        let v_id = match <u16 as FromSong>::from_song_at(buf, i) {
            Ok(v) => v,
            Err(e) => return Err(e),
        };
        Ok(SirinConfig { nickname: v_nickname, callsign: v_callsign, id: v_id })
    }
}

impl SongRoundTrip for SirinConfig {
    proof fn lemma_song_round_trip(&self, rest: Seq<u8>) {
        self.nickname.lemma_song_bytes_len();
        self.callsign.lemma_song_bytes_len();
        self.id.lemma_song_bytes_len();
        let b = self.song_bytes() + rest;
        assert(b =~= self.nickname.song_bytes() + (self.callsign.song_bytes() + self.id.song_bytes() + rest));
        self.nickname.lemma_song_round_trip(self.callsign.song_bytes() + self.id.song_bytes() + rest);
        assert(b.skip((self.nickname.song_bytes().len()) as int) =~= self.callsign.song_bytes() + (self.id.song_bytes() + rest));
        self.callsign.lemma_song_round_trip(self.id.song_bytes() + rest);
        assert(b.skip((self.nickname.song_bytes().len() + self.callsign.song_bytes().len()) as int) =~= self.id.song_bytes() + (rest));
        self.id.lemma_song_round_trip(rest);
    }
}


/// On the wire a `SirinConfig` is its fields `nickname`, `callsign`, `id`, in that order, each in its own encoding with
/// nothing between them; reading those bytes gives the value back, whatever follows them.
pub proof fn lemma_sirin_config_layout(v: SirinConfig, rest: Seq<u8>)
    ensures
        v.song_bytes() == v.nickname.song_bytes() + v.callsign.song_bytes() + v.id.song_bytes(),
        v.song_len() == v.nickname.song_len() + v.callsign.song_len() + v.id.song_len(),
        <SirinConfig as FromSong>::song_parse(v.nickname.song_bytes() + v.callsign.song_bytes() + v.id.song_bytes() + rest) == Ok::<SirinConfig, FromSongError>(v),
{
    v.lemma_song_round_trip(rest);
}

} // verus!
