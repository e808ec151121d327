//! Small shared value types: colours, bit flags, hit-sound flags, and string
//! helpers.

use vstd::prelude::*;

verus! {

/// Microseconds every loaded hit time is shifted by, so that gameplay starts
/// after the session lead-in and every object's preempt window fits before
/// its hit time.
pub const BEATMAP_TIMING_OFFSET: u64 = 2_000_000;

/// An RGBA colour; `a` is opacity.
#[derive(Debug, Copy, Clone, PartialEq, Eq, Structural)]
pub struct Colour<T> {
    pub r: T,
    pub g: T,
    pub b: T,
    pub a: T,
}

/// A raw bit-flag word from the level format.
#[derive(Debug, Clone, PartialEq, Eq, Structural)]
pub struct Bitflags(pub u32);

/// A sample volume, in hundredths of full volume.
#[derive(Debug, Clone, PartialEq, Eq, Structural)]
pub struct Volume(pub u32);

impl Default for Volume {
    fn default() -> (r: Volume)
        ensures
            r.0 == 50,
    {
        Volume(50)
    }
}

/// A sprite scale, in hundredths of the texture's own size.
#[derive(Debug, Copy, Clone, PartialEq, Eq, Structural)]
pub struct ScalingFactor(pub u32);

#[derive(Debug, Copy, Clone, PartialEq, Eq, Structural)]
pub enum OsruGameMode {
    Catch,
    Standard,
    Mania,
    Taiko,
}

#[derive(Debug, Copy, Clone, PartialEq, Eq, Structural)]
pub enum OsruHitSuccess {
    Great,
    Good,
    Meh,
    Miss,
}

/// Which hit sounds an object triggers when judged.
#[derive(Debug, Copy, Clone, PartialEq, Eq, Structural)]
pub struct OsruHitSounds {
    pub normal: bool,
    pub whistle: bool,
    pub finish: bool,
    pub clap: bool,
}

impl OsruHitSounds {
    /// Decodes the level format's hit-sound bit flags; a word with no bit
    /// set means the normal sound alone.
    pub fn from_bitflags(flags: Bitflags) -> (r: OsruHitSounds)
        ensures
            r.normal == (flags.0 & 0b1 == 0b1 || flags.0 == 0),
            r.whistle == (flags.0 & 0b10 == 0b10),
            r.finish == (flags.0 & 0b100 == 0b100),
            r.clap == (flags.0 & 0b1000 == 0b1000),
    {
        let Bitflags(flags) = flags;
        OsruHitSounds {
            normal: flags & 0b1 == 0b1 || flags == 0b0,
            whistle: flags & 0b10 == 0b10,
            finish: flags & 0b100 == 0b100,
            clap: flags & 0b1000 == 0b1000,
        }
    }
}

impl Default for OsruHitSounds {
    fn default() -> (r: OsruHitSounds)
        ensures
            r == (OsruHitSounds { normal: false, whistle: false, finish: false, clap: false }),
    {
        OsruHitSounds { normal: false, whistle: false, finish: false, clap: false }
    }
}

/// An owned copy of a borrowed string.
pub fn nstr(s: &str) -> (r: String)
    ensures
        r@ == s@,
{
    s.to_owned()
}

/// The concatenation of two borrowed strings, as an owned string.
pub fn mergestr(s1: &str, s2: &str) -> (r: String)
    ensures
        r@ == s1@ + s2@,
{
    let mut result = s1.to_owned();
    result.append(s2);
    result
}

} // verus!
