use crate::cbor::{
    bool_at, bool_bytes, decode_bool, decode_i16, decode_i64, decode_map_head, encode_bool,
    encode_i16, encode_i64, encode_map_head, head_bytes, int_bytes, int_in_range_at, item_end,
    lemma_head_reads_back, lemma_int_reads_back, map_at, skip_item, BREAK_BYTE, MAJOR_MAP,
};
use vstd::prelude::*;

verus! {

/// One on/off instruction for one conceptual fixture.
#[derive(Debug, Clone, Copy, PartialEq, Eq, Structural)]
pub struct Light {
    pub on: bool,
    pub num: i16,
}

impl Light {
    /// The "off" instruction for fixture `num`.
    pub fn get_off(num: i16) -> (r: Self)
        ensures
            r == (Light { on: false, num }),
    {
        Light { on: false, num }
    }

    /// The "on" instruction for fixture `num`.
    pub fn get_on(num: i16) -> (r: Self)
        ensures
            r == (Light { on: true, num }),
    {
        Light { on: true, num }
    }
}

/// Map key of the `on` field.
pub const KEY_ON: i64 = 0;

/// Map key of the `num` field.
pub const KEY_NUM: i64 = 1;

/// The two fields of a record as far as they have been read.
pub type Gathered = (Option<bool>, Option<i16>);

/// Why a payload is not a command record.
#[derive(Debug, Clone, Copy, PartialEq, Eq, Structural)]
pub enum DecodeError {
    /// The bytes are not a well-formed map of integer keys.
    Malformed,
    /// The map is well formed but lacks one of the two fields.
    MissingField,
}

/// The encoded form of `l`: a map of two entries, key 0 holding `on` and
/// key 1 holding `num`.
pub open spec fn light_bytes(l: Light) -> Seq<u8> {
    head_bytes(MAJOR_MAP as int, 2) + int_bytes(KEY_ON as int) + bool_bytes(l.on) + int_bytes(
        KEY_NUM as int,
    ) + int_bytes(l.num as int)
}

/// The map entry at `pos`, read on top of the fields gathered so far: what
/// is gathered after it, and where it ends. A later value of a field
/// replaces an earlier one; an entry under any other key is stepped over.
pub open spec fn entry_at(s: Seq<u8>, pos: int, g: Gathered) -> Option<(Gathered, int)> {
    match int_in_range_at(s, pos, i64::MIN as int, i64::MAX as int) {
        None => None,
        Some((k, p)) => if k == KEY_ON {
            match bool_at(s, p) {
                Some((v, e)) => Some(((Some(v), g.1), e)),
                None => None,
            }
        } else if k == KEY_NUM {
            match int_in_range_at(s, p, i16::MIN as int, i16::MAX as int) {
                Some((v, e)) => Some(((g.0, Some(v as i16)), e)),
                None => None,
            }
        } else {
            match item_end(s, p) {
                Some(e) => if p < e <= s.len() {
                    Some((g, e))
                } else {
                    None
                },
                None => None,
            }
        },
    }
}

/// `count` entries read from `pos` on top of `g`.
pub open spec fn entries_at(s: Seq<u8>, pos: int, count: nat, g: Gathered) -> Option<(Gathered, int)>
    decreases count,
{
    if count == 0 {
        Some((g, pos))
    } else {
        match entry_at(s, pos, g) {
            Some((g2, e)) => entries_at(s, e, (count - 1) as nat, g2),
            None => None,
        }
    }
}

/// Entries read from `pos` on top of `g` up to and including a break byte.
pub open spec fn open_entries_at(s: Seq<u8>, pos: int, g: Gathered) -> Option<(Gathered, int)>
    decreases s.len() - pos,
{
    if pos < 0 || pos >= s.len() {
        None
    } else if s[pos] == BREAK_BYTE {
        Some((g, pos + 1))
    } else {
        match entry_at(s, pos, g) {
            Some((g2, e)) => if e > pos {
                open_entries_at(s, e, g2)
            } else {
                None
            },
            None => None,
        }
    }
}

/// The fields of the record map at the start of `s`, if `s` starts with a
/// well-formed map of integer keys; bytes after the map are not read.
pub open spec fn gathered(s: Seq<u8>) -> Option<Gathered> {
    match map_at(s, 0) {
        Some((Some(n), p)) => match entries_at(s, p, n as nat, (None, None)) {
            Some((g, _)) => Some(g),
            None => None,
        },
        Some((None, p)) => match open_entries_at(s, p, (None, None)) {
            Some((g, _)) => Some(g),
            None => None,
        },
        None => None,
    }
}

/// What decoding `s` gives.
pub open spec fn decoded(s: Seq<u8>) -> Result<Light, DecodeError> {
    match gathered(s) {
        Some((Some(on), Some(num))) => Ok(Light { on, num }),
        Some(_) => Err(DecodeError::MissingField),
        None => Err(DecodeError::Malformed),
    }
}

/// An entry always takes at least one byte.
proof fn lemma_entry_advances(s: Seq<u8>, pos: int, g: Gathered)
    ensures
        entry_at(s, pos, g) matches Some((_, e)) ==> pos < e <= s.len(),
{
}

/// Reads the map entry at `pos`.
fn read_entry(bytes: &[u8], pos: usize, g: Gathered) -> (r: Option<(Gathered, usize)>)
    ensures
        match r {
            Some((g2, e)) => entry_at(bytes@, pos as int, g) == Some((g2, e as int)),
            None => entry_at(bytes@, pos as int, g) is None,
        },
{
    match decode_i64(bytes, pos) {
        None => None,
        Some((k, p)) => {
            if k == KEY_ON {
                match decode_bool(bytes, p) {
                    Some((v, e)) => Some(((Some(v), g.1), e)),
                    None => None,
                }
            } else if k == KEY_NUM {
                match decode_i16(bytes, p) {
                    Some((v, e)) => Some(((g.0, Some(v)), e)),
                    None => None,
                }
            } else {
                match skip_item(bytes, p) {
                    Some(e) => Some((g, e)),
                    None => None,
                }
            }
        },
    }
}

/// Reads the fields of the record map at the start of `bytes`.
fn read_fields(bytes: &[u8]) -> (r: Option<Gathered>)
    ensures
        r == gathered(bytes@),
{
    let s = Ghost(bytes@);
    match decode_map_head(bytes, 0) {
        None => None,
        Some((Some(n), start)) => {
            let mut g: Gathered = (None, None);
            let mut pos = start;
            let mut i: u64 = 0;
            while i < n
                invariant
                    map_at(s@, 0) == Some((Some(n as int), start as int)),
                    s@ == bytes@,
                    i <= n,
                    entries_at(s@, start as int, n as nat, (None, None)) == entries_at(
                        s@,
                        pos as int,
                        (n - i) as nat,
                        g,
                    ),
                decreases n - i,
            {
                match read_entry(bytes, pos, g) {
                    None => return None,
                    Some((g2, e)) => {
                        g = g2;
                        pos = e;
                    },
                }
                i = i + 1;
            }
            Some(g)
        },
        Some((None, start)) => {
            let mut g: Gathered = (None, None);
            let mut pos = start;
            loop
                invariant
                    map_at(s@, 0) == Some((None::<int>, start as int)),
                    s@ == bytes@,
                    open_entries_at(s@, start as int, (None, None)) == open_entries_at(
                        s@,
                        pos as int,
                        g,
                    ),
                decreases bytes@.len() - pos,
            {
                if pos >= bytes.len() {
                    return None;
                }
                if bytes[pos] == BREAK_BYTE {
                    return Some(g);
                }
                match read_entry(bytes, pos, g) {
                    None => return None,
                    Some((g2, e)) => {
                        proof {
                            lemma_entry_advances(s@, pos as int, g);
                        }
                        g = g2;
                        pos = e;
                    },
                }
            }
        },
    }
}

/// Decodes a command record from the start of `bytes`.
pub fn decode_light(bytes: &[u8]) -> (r: Result<Light, DecodeError>)
    ensures
        r == decoded(bytes@),
{
    match read_fields(bytes) {
        Some((Some(on), Some(num))) => Ok(Light { on, num }),
        Some(_) => Err(DecodeError::MissingField),
        None => Err(DecodeError::Malformed),
    }
}

/// Encodes `l` as a map of two entries.
pub fn encode_light(l: &Light) -> (r: Vec<u8>)
    ensures
        r@ == light_bytes(*l),
{
    let mut out = encode_map_head(2);
    let mut part = encode_i64(KEY_ON);
    out.append(&mut part);
    let mut part = encode_bool(l.on);
    out.append(&mut part);
    let mut part = encode_i64(KEY_NUM);
    out.append(&mut part);
    let mut part = encode_i16(l.num);
    out.append(&mut part);
    out
}

/// Decoding the encoded form of a command record gives that record back,
/// field for field.
pub proof fn lemma_round_trip(l: Light)
    ensures
        decoded(light_bytes(l)) == Ok::<Light, DecodeError>(l),
{
    let s = light_bytes(l);
    let h = head_bytes(MAJOR_MAP as int, 2);
    let k0 = int_bytes(KEY_ON as int);
    let b = bool_bytes(l.on);
    let k1 = int_bytes(KEY_NUM as int);
    let n = int_bytes(l.num as int);
    assert(h.len() == 1 && k0.len() == 1 && b.len() == 1 && k1.len() == 1);
    let end = 4 + n.len() as int;
    assert(s.len() == end);
    assert(s.subrange(0, 1) =~= h);
    assert(s.subrange(1, 2) =~= k0);
    assert(s.subrange(2, 3) =~= b);
    assert(s.subrange(3, 4) =~= k1);
    assert(s.subrange(4, end) =~= n);
    lemma_head_reads_back(s, 0, MAJOR_MAP as int, 2);
    lemma_int_reads_back(s, 1, KEY_ON as int);
    lemma_int_reads_back(s, 3, KEY_NUM as int);
    lemma_int_reads_back(s, 4, l.num as int);
    assert(s[2] == b[0]);
    assert(map_at(s, 0) == Some((Some(2int), 1int)));
    let g1: Gathered = (Some(l.on), None);
    let g2: Gathered = (Some(l.on), Some(l.num));
    assert(entry_at(s, 1, (None, None)) == Some((g1, 3int)));
    assert(entry_at(s, 3, g1) == Some((g2, end)));
    reveal_with_fuel(entries_at, 3);
    assert(entries_at(s, 1, 2, (None, None)) == Some((g2, end)));
}

} // verus!
