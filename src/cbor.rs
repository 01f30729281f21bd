//! The CBOR items that a command record is made of, stated over byte
//! sequences, and the minicbor encoder and decoder calls that produce and
//! read them.
use minicbor::{Decoder, Encoder};
use vstd::prelude::*;

verus! {

/// Major type of an unsigned integer.
pub const MAJOR_UNSIGNED: u8 = 0;

/// Major type of a negative integer.
pub const MAJOR_NEGATIVE: u8 = 1;

/// Major type of a map.
pub const MAJOR_MAP: u8 = 5;

/// Initial byte of `false`.
pub const FALSE_BYTE: u8 = 0xf4;

/// Initial byte of `true`.
pub const TRUE_BYTE: u8 = 0xf5;

/// The "break" byte that closes an indefinite-length item.
pub const BREAK_BYTE: u8 = 0xff;

/// Additional-information value that marks an indefinite length.
pub const INDEFINITE: u8 = 31;

/// The `n` low-order bytes of `v`, most significant first.
pub open spec fn be_bytes(v: int, n: nat) -> Seq<u8>
    decreases n,
{
    if n == 0 {
        seq![]
    } else {
        be_bytes(v / 256, (n - 1) as nat).push((v % 256) as u8)
    }
}

/// The value of the `n` bytes of `s` starting at `at`, most significant first.
pub open spec fn be_value(s: Seq<u8>, at: int, n: nat) -> int
    decreases n,
{
    if n == 0 {
        0
    } else {
        be_value(s, at, (n - 1) as nat) * 256 + s[at + n - 1] as int
    }
}

/// How many argument bytes follow an initial byte whose additional
/// information is `info` (at most 27).
pub open spec fn arg_len(info: int) -> nat {
    if info < 24 {
        0
    } else if info == 24 {
        1
    } else if info == 25 {
        2
    } else if info == 26 {
        4
    } else {
        8
    }
}

/// The shortest head for major type `major` and argument `arg`.
pub open spec fn head_bytes(major: int, arg: int) -> Seq<u8> {
    let t = major * 32;
    if arg < 24 {
        seq![(t + arg) as u8]
    } else if arg < 0x100 {
        seq![(t + 24) as u8] + be_bytes(arg, 1)
    } else if arg < 0x1_0000 {
        seq![(t + 25) as u8] + be_bytes(arg, 2)
    } else if arg < 0x1_0000_0000 {
        seq![(t + 26) as u8] + be_bytes(arg, 4)
    } else {
        seq![(t + 27) as u8] + be_bytes(arg, 8)
    }
}

/// The shortest encoding of the integer `x`.
pub open spec fn int_bytes(x: int) -> Seq<u8> {
    if x >= 0 {
        head_bytes(MAJOR_UNSIGNED as int, x)
    } else {
        head_bytes(MAJOR_NEGATIVE as int, -1 - x)
    }
}

/// The encoding of the boolean `b`.
pub open spec fn bool_bytes(b: bool) -> Seq<u8> {
    if b {
        seq![TRUE_BYTE]
    } else {
        seq![FALSE_BYTE]
    }
}

/// The head that starts at `pos`, in any of its lengths: its major type, its
/// argument, and the position just after it.
pub open spec fn head_at(s: Seq<u8>, pos: int) -> Option<(int, int, int)> {
    if pos < 0 || pos >= s.len() {
        None
    } else {
        let b = s[pos] as int;
        let info = b % 32;
        let n = arg_len(info);
        if info > 27 || pos + 1 + n > s.len() {
            None
        } else {
            let arg = if info < 24 {
                info
            } else {
                be_value(s, pos + 1, n)
            };
            Some((b / 32, arg, pos + 1 + n))
        }
    }
}

/// The integer at `pos` and the position after it, if one stands there.
pub open spec fn int_at(s: Seq<u8>, pos: int) -> Option<(int, int)> {
    match head_at(s, pos) {
        Some((major, arg, end)) => if major == MAJOR_UNSIGNED {
            Some((arg, end))
        } else if major == MAJOR_NEGATIVE {
            Some((-1 - arg, end))
        } else {
            None
        },
        None => None,
    }
}

/// The integer at `pos`, if one stands there and lies in `lo ..= hi`.
pub open spec fn int_in_range_at(s: Seq<u8>, pos: int, lo: int, hi: int) -> Option<(int, int)> {
    match int_at(s, pos) {
        Some((v, end)) => if lo <= v <= hi {
            Some((v, end))
        } else {
            None
        },
        None => None,
    }
}

/// The boolean at `pos` and the position after it, if one stands there.
pub open spec fn bool_at(s: Seq<u8>, pos: int) -> Option<(bool, int)> {
    if 0 <= pos < s.len() && s[pos] == FALSE_BYTE {
        Some((false, pos + 1))
    } else if 0 <= pos < s.len() && s[pos] == TRUE_BYTE {
        Some((true, pos + 1))
    } else {
        None
    }
}

/// The map head at `pos`: its number of entries (`None` for an indefinite
/// map) and the position of its first key.
pub open spec fn map_at(s: Seq<u8>, pos: int) -> Option<(Option<int>, int)> {
    if 0 <= pos < s.len() && s[pos] as int == MAJOR_MAP * 32 + INDEFINITE {
        Some((None, pos + 1))
    } else {
        match head_at(s, pos) {
            Some((major, arg, end)) => if major == MAJOR_MAP {
                Some((Some(arg), end))
            } else {
                None
            },
            None => None,
        }
    }
}

/// A head written for an argument below 2^16 reads back as that argument.
pub proof fn lemma_head_reads_back(s: Seq<u8>, pos: int, major: int, arg: int)
    requires
        0 <= major < 8,
        0 <= arg < 0x1_0000,
        0 <= pos,
        pos + head_bytes(major, arg).len() <= s.len(),
        s.subrange(pos, pos + head_bytes(major, arg).len()) == head_bytes(major, arg),
    ensures
        head_at(s, pos) == Some((major, arg, pos + head_bytes(major, arg).len())),
{
    let h = head_bytes(major, arg);
    assert(s[pos] == s.subrange(pos, pos + h.len())[0]);
    if arg < 24 {
    } else if arg < 0x100 {
        assert(s[pos + 1] == s.subrange(pos, pos + h.len())[1]);
        reveal_with_fuel(be_bytes, 2);
        reveal_with_fuel(be_value, 2);
    } else {
        reveal_with_fuel(be_bytes, 3);
        reveal_with_fuel(be_value, 3);
        assert(h.len() == 3);
        assert(s[pos + 1] == s.subrange(pos, pos + h.len())[1]);
        assert(s[pos + 2] == s.subrange(pos, pos + h.len())[2]);
    }
}

/// An integer of `i16` written at `pos` reads back as itself.
pub proof fn lemma_int_reads_back(s: Seq<u8>, pos: int, x: int)
    requires
        i16::MIN <= x <= i16::MAX,
        0 <= pos,
        pos + int_bytes(x).len() <= s.len(),
        s.subrange(pos, pos + int_bytes(x).len()) == int_bytes(x),
    ensures
        int_at(s, pos) == Some((x, pos + int_bytes(x).len())),
{
    if x >= 0 {
        lemma_head_reads_back(s, pos, MAJOR_UNSIGNED as int, x);
    } else {
        lemma_head_reads_back(s, pos, MAJOR_NEGATIVE as int, -1 - x);
    }
}

/// Where the data item that starts at `pos` ends, if a well-formed one
/// stands there.
pub uninterp spec fn item_end(s: Seq<u8>, pos: int) -> Option<int>;

/// Relies on minicbor's `Encoder::map`: the shortest head of a map of `len`
/// entries.
#[verifier::external_body]
pub(crate) fn encode_map_head(len: u64) -> (r: Vec<u8>)
    ensures
        r@ == head_bytes(MAJOR_MAP as int, len as int),
{
    let mut e = Encoder::new(Vec::new());
    let _ = e.map(len);
    e.into_writer()
}

/// Relies on minicbor's `Encoder::i64`: the shortest encoding of `x`.
#[verifier::external_body]
pub(crate) fn encode_i64(x: i64) -> (r: Vec<u8>)
    ensures
        r@ == int_bytes(x as int),
{
    let mut e = Encoder::new(Vec::new());
    let _ = e.i64(x);
    e.into_writer()
}

/// Relies on minicbor's `Encoder::i16`: the shortest encoding of `x`.
#[verifier::external_body]
pub(crate) fn encode_i16(x: i16) -> (r: Vec<u8>)
    ensures
        r@ == int_bytes(x as int),
{
    let mut e = Encoder::new(Vec::new());
    let _ = e.i16(x);
    e.into_writer()
}

/// Relies on minicbor's `Encoder::bool`: the one byte 0xf4 or 0xf5.
#[verifier::external_body]
pub(crate) fn encode_bool(b: bool) -> (r: Vec<u8>)
    ensures
        r@ == bool_bytes(b),
{
    let mut e = Encoder::new(Vec::new());
    let _ = e.bool(b);
    e.into_writer()
}

/// Relies on minicbor's `Decoder::map`: a map head, definite or indefinite.
#[verifier::external_body]
pub(crate) fn decode_map_head(bytes: &[u8], pos: usize) -> (r: Option<(Option<u64>, usize)>)
    ensures
        match r {
            Some((n, end)) => map_at(bytes@, pos as int) == Some((
                match n {
                    Some(k) => Some(k as int),
                    None => None,
                },
                end as int,
            )),
            None => map_at(bytes@, pos as int) is None,
        },
{
    let mut d = Decoder::new(bytes);
    d.set_position(pos);
    match d.map() {
        Ok(n) => Some((n, d.position())),
        Err(_) => None,
    }
}

/// Relies on minicbor's `Decoder::i64`: an integer of either sign that fits
/// an `i64`.
#[verifier::external_body]
pub(crate) fn decode_i64(bytes: &[u8], pos: usize) -> (r: Option<(i64, usize)>)
    ensures
        match r {
            Some((v, end)) => int_in_range_at(bytes@, pos as int, i64::MIN as int, i64::MAX as int)
                == Some((v as int, end as int)),
            None => int_in_range_at(bytes@, pos as int, i64::MIN as int, i64::MAX as int) is None,
        },
{
    let mut d = Decoder::new(bytes);
    d.set_position(pos);
    match d.i64() {
        Ok(v) => Some((v, d.position())),
        Err(_) => None,
    }
}

/// Relies on minicbor's `Decoder::i16`: an integer of either sign that fits
/// an `i16`.
#[verifier::external_body]
pub(crate) fn decode_i16(bytes: &[u8], pos: usize) -> (r: Option<(i16, usize)>)
    ensures
        match r {
            Some((v, end)) => int_in_range_at(bytes@, pos as int, i16::MIN as int, i16::MAX as int)
                == Some((v as int, end as int)),
            None => int_in_range_at(bytes@, pos as int, i16::MIN as int, i16::MAX as int) is None,
        },
{
    let mut d = Decoder::new(bytes);
    d.set_position(pos);
    match d.i16() {
        Ok(v) => Some((v, d.position())),
        Err(_) => None,
    }
}

/// Relies on minicbor's `Decoder::bool`: the one byte 0xf4 or 0xf5.
#[verifier::external_body]
pub(crate) fn decode_bool(bytes: &[u8], pos: usize) -> (r: Option<(bool, usize)>)
    ensures
        match r {
            Some((v, end)) => bool_at(bytes@, pos as int) == Some((v, end as int)),
            None => bool_at(bytes@, pos as int) is None,
        },
{
    let mut d = Decoder::new(bytes);
    d.set_position(pos);
    match d.bool() {
        Ok(v) => Some((v, d.position())),
        Err(_) => None,
    }
}

/// Relies on minicbor's `Decoder::skip`: steps over one whole data item,
/// which takes at least its first byte and never reads past the input.
#[verifier::external_body]
pub(crate) fn skip_item(bytes: &[u8], pos: usize) -> (r: Option<usize>)
    ensures
        match r {
            Some(end) => item_end(bytes@, pos as int) == Some(end as int) && pos < end
                <= bytes@.len(),
            None => item_end(bytes@, pos as int) is None,
        },
{
    let mut d = Decoder::new(bytes);
    d.set_position(pos);
    match d.skip() {
        Ok(()) => Some(d.position()),
        Err(_) => None,
    }
}

} // verus!
