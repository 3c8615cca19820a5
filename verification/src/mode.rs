//! The phase of flight, as logged to flash and sent over USB and radio.

use vstd::prelude::*;
use crate::song::{
    ConstSongSize, ConstSongSizeValue, FromSong, FromSongError, HasSongSize, SongRoundTrip,
    SongSize, TaggedSong, ToSong, ToSongError,
};

verus! {

/// The phase of flight the flight computer believes it is in.
///
/// ```text
/// Standby --launch--> Flight --apogee--> Descent --landing--> Landed
/// ```
///
/// The wire value of each variant (see [`SirinMode::wire_value`]) is written to flash logs and
/// decoded by tools outside this crate, so it never changes: `Standby` 0, `Flight` 1, `Landed` 2,
/// `Descent` 3. `Descent` was added after `Landed`, which is why it is not numbered in flight
/// order; the variants are declared in wire order so that `mode as u8` is the wire value.
#[derive(Clone, Copy, Debug, PartialEq, Eq, Structural)]
pub enum SirinMode {
    /// On the pad, waiting for launch.
    Standby,
    /// Launched and ascending; apogee has not been declared yet.
    Flight,
    /// On the ground after the flight.
    Landed,
    /// Apogee has been declared; coming down.
    Descent,
}

/// The wire value of a mode.
pub open spec fn mode_wire_value(mode: SirinMode) -> u8 {
    match mode {
        SirinMode::Standby => 0,
        SirinMode::Flight => 1,
        SirinMode::Landed => 2,
        SirinMode::Descent => 3,
    }
}

/// The mode with a given wire value, if there is one.
pub open spec fn mode_of_wire_value(value: u8) -> Option<SirinMode> {
    if value == 0 {
        Some(SirinMode::Standby)
    } else if value == 1 {
        Some(SirinMode::Flight)
    } else if value == 2 {
        Some(SirinMode::Landed)
    } else if value == 3 {
        Some(SirinMode::Descent)
    } else {
        None
    }
}

/// Whether a mode is one of the airborne phases.
pub open spec fn mode_is_airborne(mode: SirinMode) -> bool {
    mode == SirinMode::Flight || mode == SirinMode::Descent
}

impl SirinMode {
    /// True while the rocket is in the air (`Flight` or `Descent`).
    pub fn is_airborne(self) -> (b: bool)
        ensures
            b == mode_is_airborne(self),
    {
        match self {
            SirinMode::Flight | SirinMode::Descent => true,
            _ => false,
        }
    }

    /// The number that stands for this mode on the wire.
    pub fn wire_value(self) -> (value: u8)
        ensures
            value == mode_wire_value(self),
    {
        match self {
            SirinMode::Standby => 0,
            SirinMode::Flight => 1,
            SirinMode::Landed => 2,
            SirinMode::Descent => 3,
        }
    }
}

/// Every mode is read back from its own wire value, and no two modes share one.
pub proof fn lemma_mode_wire_value_round_trip(mode: SirinMode)
    ensures
        mode_of_wire_value(mode_wire_value(mode)) == Some(mode),
        mode_wire_value(mode) < 4,
{
}

impl HasSongSize for SirinMode {
    type Size = ConstSongSizeValue<1>;
}

impl SongSize for SirinMode {
    open spec fn song_len(&self) -> nat {
        1
    }

    fn song_size(&self) -> (n: usize) {
        1
    }
}

impl ConstSongSize for SirinMode {
    open spec fn const_song_len() -> nat {
        1
    }

    fn const_song_size() -> (n: usize) {
        1
    }

    fn const_song_fits(len: usize) -> (b: bool) {
        1 <= len
    }

    proof fn lemma_const_song_len(v: &Self) {
    }

    proof fn lemma_const_song_len_of_type() {
    }
}

/// A mode is written as its wire value, one byte.
impl ToSong for SirinMode {
    open spec fn song_bytes(&self) -> Seq<u8> {
        seq![mode_wire_value(*self)]
    }

    proof fn lemma_song_bytes_len(&self) {
    }

    fn to_song_at(&self, buf: &mut [u8], pos: usize) -> (r: Result<(), ToSongError>) {
        self.wire_value().to_song_at(buf, pos)
    }
}

/// A byte that is no mode's wire value is an invalid packet id.
impl FromSong for SirinMode {
    open spec fn song_parse(bytes: Seq<u8>) -> Result<SirinMode, FromSongError> {
        if bytes.len() < 1 {
            Err(FromSongError::BufferOverflow)
        } else {
            match mode_of_wire_value(bytes[0]) {
                Some(mode) => Ok(mode),
                None => Err(FromSongError::InvalidPacketId),
            }
        }
    }

    proof fn lemma_parse_len(bytes: Seq<u8>) {
    }

    fn from_song_at(buf: &[u8], pos: usize) -> (r: Result<SirinMode, FromSongError>) {
        if buf.len() - pos < 1 {
            return Err(FromSongError::BufferOverflow);
        }
        let ghost s = buf@.skip(pos as int);
        assert(s[0] == buf@[pos as int]);
        match buf[pos] {
            0 => Ok(SirinMode::Standby),
            1 => Ok(SirinMode::Flight),
            2 => Ok(SirinMode::Landed),
            3 => Ok(SirinMode::Descent),
            _ => Err(FromSongError::InvalidPacketId),
        }
    }
}

impl SongRoundTrip for SirinMode {
    proof fn lemma_song_round_trip(&self, rest: Seq<u8>) {
        assert((self.song_bytes() + rest)[0] == mode_wire_value(*self));
    }
}

impl TaggedSong for SirinMode {
    open spec fn tag(&self) -> u8 {
        mode_wire_value(*self)
    }

    open spec fn is_tag(b: u8) -> bool {
        b < 4
    }

    proof fn lemma_starts_with_tag(&self) {
    }

    proof fn lemma_refused(bytes: Seq<u8>) {
    }
}


/// On the wire a `SirinMode` is one byte: `Standby` is 0, `Flight` is 1, `Landed` is 2, `Descent` is 3. Reading that byte gives the value
/// back, whatever follows it.
pub proof fn lemma_sirin_mode_layout(v: SirinMode, rest: Seq<u8>)
    ensures
        v is Standby ==> v.song_bytes() == seq![0u8]
            && <SirinMode as FromSong>::song_parse(seq![0u8] + rest) == Ok::<SirinMode, FromSongError>(v),
        v is Flight ==> v.song_bytes() == seq![1u8]
            && <SirinMode as FromSong>::song_parse(seq![1u8] + rest) == Ok::<SirinMode, FromSongError>(v),
        v is Landed ==> v.song_bytes() == seq![2u8]
            && <SirinMode as FromSong>::song_parse(seq![2u8] + rest) == Ok::<SirinMode, FromSongError>(v),
        v is Descent ==> v.song_bytes() == seq![3u8]
            && <SirinMode as FromSong>::song_parse(seq![3u8] + rest) == Ok::<SirinMode, FromSongError>(v),
{
    v.lemma_song_round_trip(rest);
}

} // verus!
