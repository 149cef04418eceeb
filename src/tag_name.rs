use vstd::prelude::*;

verus! {

/// Largest hash that still has room for one more five-bit character.
pub const HASH_ROOM: u64 = 0x07ff_ffff_ffff_ffff;

/// The five-bit code of a byte of a tag name, or `None` for a byte that
/// makes a name unhashable. ASCII letters map case-insensitively to 6..=31,
/// the digits `1`..=`6` to 1..=6.
pub open spec fn char_code(c: u8) -> Option<u64> {
    if 97u8 <= c && c <= 122u8 {
        Some(((c - 97u8) + 6) as u64)
    } else if 65u8 <= c && c <= 90u8 {
        Some(((c - 65u8) + 6) as u64)
    } else if 49u8 <= c && c <= 54u8 {
        Some((c - 48u8) as u64)
    } else {
        None
    }
}

/// Extends a hash by one byte.
pub open spec fn hash_step(h: Option<u64>, c: u8) -> Option<u64> {
    match h {
        None => None,
        Some(x) => {
            if x > HASH_ROOM {
                None
            } else {
                match char_code(c) {
                    None => None,
                    Some(k) => Some((x * 32 + k) as u64),
                }
            }
        },
    }
}

/// The case-insensitive hash of a whole tag name (`None` when the name is
/// too long or holds a byte outside letters and `1`..=`6`).
pub open spec fn name_hash(s: Seq<u8>) -> Option<u64>
    decreases s.len(),
{
    if s.len() == 0 {
        Some(0)
    } else {
        hash_step(name_hash(s.drop_last()), s.last())
    }
}

pub open spec fn is_ascii_alpha(c: u8) -> bool {
    (97u8 <= c && c <= 122u8) || (65u8 <= c && c <= 90u8)
}

pub fn is_alpha(c: u8) -> (r: bool)
    ensures
        r == is_ascii_alpha(c),
{
    (97u8 <= c && c <= 122u8) || (65u8 <= c && c <= 90u8)
}

/// Extends a hash by one byte.
pub fn update_hash(h: Option<u64>, c: u8) -> (r: Option<u64>)
    ensures
        r == hash_step(h, c),
{
    match h {
        None => None,
        Some(x) => {
            if x > HASH_ROOM {
                None
            } else if 97u8 <= c && c <= 122u8 {
                Some(x * 32 + ((c - 97u8) as u64 + 6))
            } else if 65u8 <= c && c <= 90u8 {
                Some(x * 32 + ((c - 65u8) as u64 + 6))
            } else if 49u8 <= c && c <= 54u8 {
                Some(x * 32 + (c - 48u8) as u64)
            } else {
                None
            }
        },
    }
}

/// Hashes a whole tag name.
pub fn tag_name_hash(name: &[u8]) -> (r: Option<u64>)
    ensures
        r == name_hash(name@),
{
    let mut h: Option<u64> = Some(0);
    let mut i: usize = 0;
    while i < name.len()
        invariant
            i <= name@.len(),
            h == name_hash(name@.subrange(0, i as int)),
        decreases name@.len() - i,
    {
        proof {
            let s = name@.subrange(0, i as int + 1);
            assert(s.drop_last() =~= name@.subrange(0, i as int));
        }
        h = update_hash(h, name[i]);
        i += 1;
    }
    assert(name@.subrange(0, i as int) =~= name@);
    h
}

pub const A: u64 = 6;
pub const B: u64 = 7;
pub const BR: u64 = 247;
pub const P: u64 = 21;
pub const DIV: u64 = 9691;
pub const SCRIPT: u64 = 814463673;
pub const STYLE: u64 = 26016298;
pub const TEXTAREA: u64 = 870730390854;
pub const TITLE: u64 = 26699306;
pub const PLAINTEXT: u64 = 23680792701881;
pub const IFRAME: u64 = 482056778;
pub const XMP: u64 = 30293;
pub const NOEMBED: u64 = 21083266377;
pub const NOFRAMES: u64 = 674703296856;
pub const NOSCRIPT: u64 = 675124329145;
pub const SELECT: u64 = 816359705;
pub const TEMPLATE: u64 = 870357441322;
pub const FRAMESET: u64 = 402873737561;
pub const INPUT: u64 = 15325017;
pub const KEYGEN: u64 = 548352339;
pub const SVG: u64 = 25452;
pub const MATH: u64 = 596781;
pub const FOREIGN_OBJECT: u64 = 13428975859192539417;
pub const DESC: u64 = 305928;
pub const MI: u64 = 590;
pub const MO: u64 = 596;
pub const MN: u64 = 595;
pub const MS: u64 = 600;
pub const MTEXT: u64 = 19704761;
pub const FONT: u64 = 381561;

} // verus!
