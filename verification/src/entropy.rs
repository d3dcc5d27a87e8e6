//! Sources of random 32-bit draws, and the rejection sampling that maps raw
//! draws uniformly onto character sets.
//!
//! Everything that consumes randomness in this library takes it through the
//! [`DrawSource`] trait, so the sampling logic itself is verified for every
//! possible sequence of draws; only the operating-system source at the bottom
//! is trusted.  To keep uniformity exact, a draw is reduced to the smallest
//! power-of-two range that covers the alphabet and is rejected (not reduced
//! modulo the alphabet size) when it falls beyond it.

use vstd::prelude::*;

verus! {

/// A supplier of raw 32-bit draws.  Nothing is promised of the values, so
/// whatever is proved about a consumer holds for every possible sequence of
/// draws, random or not.
pub trait DrawSource {
    /// The next raw draw.
    fn next_u32(&mut self) -> u32;
}

/// Relies on rand::rng and rand::Rng::next_u32: a fresh 32-bit value from the
/// thread-local generator.  Nothing can be promised of a random value.
/// (rand's thread-local generator panics only if the operating system's
/// entropy source fails while it is first seeded.)
#[verifier::external_body]
fn os_random_u32() -> u32 {
    rand::Rng::next_u32(&mut rand::rng())
}

/// The operating system's random generator, seen as a [`DrawSource`].
pub struct OsDrawSource;

impl DrawSource for OsDrawSource {
    fn next_u32(&mut self) -> u32 {
        os_random_u32()
    }
}

/// A source that yields the same draw forever.  Deterministic by design: it
/// exists so that sampling behaviour can be pinned down exactly, draw by draw.
pub struct FixedDrawSource {
    /// The draw that every call returns.
    pub value: u32,
}

impl DrawSource for FixedDrawSource {
    fn next_u32(&mut self) -> (r: u32)
        ensures
            r == old(self).value,
            *final(self) == *old(self),
    {
        self.value
    }
}

/// How many draws a single character may consume before sampling gives up on
/// the current candidate.  A healthy source rejects a draw with probability
/// at most 34/128, so reaching this cap means the source is broken, not
/// unlucky.
pub const DRAW_CAP: usize = 100;

/// The 62 alphanumeric characters, in the order draws are mapped onto them.
pub open spec fn alphanum_charset() -> Seq<char> {
    "ABCDEFGHIJKLMNOPQRSTUVWXYZabcdefghijklmnopqrstuvwxyz0123456789"@
}

/// The full 94-character alphabet of the symbol policy: the 62 alphanumeric
/// characters followed by 32 punctuation characters.
pub open spec fn symbol_charset() -> Seq<char> {
    "ABCDEFGHIJKLMNOPQRSTUVWXYZabcdefghijklmnopqrstuvwxyz0123456789!\"#$%&'()*+,-./:;<=>?@[\\]^_`{|}~"@
}

fn alphanum_charset_char(i: usize) -> (c: char)
    requires
        i < 62,
    ensures
        c == alphanum_charset()[i as int],
{
    let s = "ABCDEFGHIJKLMNOPQRSTUVWXYZabcdefghijklmnopqrstuvwxyz0123456789";
    proof {
        reveal_strlit("ABCDEFGHIJKLMNOPQRSTUVWXYZabcdefghijklmnopqrstuvwxyz0123456789");
    }
    s.get_char(i)
}

fn symbol_charset_char(i: usize) -> (c: char)
    requires
        i < 94,
    ensures
        c == symbol_charset()[i as int],
{
    let s = "ABCDEFGHIJKLMNOPQRSTUVWXYZabcdefghijklmnopqrstuvwxyz0123456789!\"#$%&'()*+,-./:;<=>?@[\\]^_`{|}~";
    proof {
        reveal_strlit(
            "ABCDEFGHIJKLMNOPQRSTUVWXYZabcdefghijklmnopqrstuvwxyz0123456789!\"#$%&'()*+,-./:;<=>?@[\\]^_`{|}~",
        );
    }
    s.get_char(i)
}

/// Where a raw draw lands in the 62-character alphabet: the top six bits pick
/// a slot, and a slot beyond the alphabet rejects the draw.
pub open spec fn spec_alphanum_draw(draw: u32) -> Option<char> {
    if (draw >> 26) < 62 {
        Some(alphanum_charset()[(draw >> 26) as int])
    } else {
        None
    }
}

/// Where a raw draw lands in the 94-character alphabet: the top seven bits
/// pick a slot, and a slot beyond the alphabet rejects the draw.
pub open spec fn spec_symbol_draw(draw: u32) -> Option<char> {
    if (draw >> 25) < 94 {
        Some(symbol_charset()[(draw >> 25) as int])
    } else {
        None
    }
}

/// Maps one draw onto the alphanumeric alphabet, or rejects it.
pub fn map_alphanum_draw(draw: u32) -> (r: Option<char>)
    ensures
        r == spec_alphanum_draw(draw),
{
    let v = draw >> 26;
    if v < 62 {
        Some(alphanum_charset_char(v as usize))
    } else {
        None
    }
}

/// Maps one draw onto the 94-character alphabet, or rejects it.
pub fn map_symbol_draw(draw: u32) -> (r: Option<char>)
    ensures
        r == spec_symbol_draw(draw),
{
    let v = draw >> 25;
    if v < 94 {
        Some(symbol_charset_char(v as usize))
    } else {
        None
    }
}

/// One alphanumeric character by rejection sampling, or `None` once the
/// source has had [`DRAW_CAP`] draws rejected in a row.
pub fn sample_alphanum<S: DrawSource>(source: &mut S) -> (r: Option<char>)
    ensures
        r matches Some(c) ==> alphanum_charset().contains(c),
{
    let mut tries: usize = 0;
    while tries < DRAW_CAP
        invariant
            tries <= DRAW_CAP,
        decreases DRAW_CAP - tries,
    {
        let draw = source.next_u32();
        match map_alphanum_draw(draw) {
            Some(c) => {
                proof {
                    assert(alphanum_charset().contains(c)) by {
                        reveal_strlit(
                            "ABCDEFGHIJKLMNOPQRSTUVWXYZabcdefghijklmnopqrstuvwxyz0123456789",
                        );
                        assert(alphanum_charset()[(draw >> 26) as int] == c);
                    }
                }
                return Some(c);
            },
            None => {},
        }
        tries += 1;
    }
    None
}

/// A random alphanumeric string of exactly the requested length, drawn from
/// the given source.  If the source ever has [`DRAW_CAP`] draws rejected in a
/// row — impossible in practice for a healthy source — the character falls
/// back to a fixed member of the alphabet rather than sampling forever.
pub fn gen_random_alphanum_from<S: DrawSource>(source: &mut S, len: usize) -> (r: String)
    ensures
        r@.len() == len,
        forall|i: int| 0 <= i < r@.len() ==> alphanum_charset().contains(#[trigger] r@[i]),
{
    let mut out = String::new();
    let mut i: usize = 0;
    while i < len
        invariant
            i <= len,
            out@.len() == i,
            forall|j: int| 0 <= j < out@.len() ==> alphanum_charset().contains(#[trigger] out@[j]),
        decreases len - i,
    {
        let c = match sample_alphanum(source) {
            Some(c) => c,
            None => {
                proof {
                    reveal_strlit("ABCDEFGHIJKLMNOPQRSTUVWXYZabcdefghijklmnopqrstuvwxyz0123456789");
                    assert(alphanum_charset()[0] == 'A');
                }
                'A'
            },
        };
        crate::text::push_char(&mut out, c);
        i += 1;
    }
    out
}

/// A random alphanumeric string of exactly the requested length, drawn from
/// the operating system's generator.
pub fn gen_random_alphanum(len: usize) -> (r: String)
    ensures
        r@.len() == len,
        forall|i: int| 0 <= i < r@.len() ==> alphanum_charset().contains(#[trigger] r@[i]),
{
    let mut source = OsDrawSource;
    gen_random_alphanum_from(&mut source, len)
}

} // verus!
