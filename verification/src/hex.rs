//! Lower-case hex. The decoder is strict: it rejects odd lengths and non-hex bytes
//! instead of silently producing a shorter key.

use vstd::prelude::*;

use crate::text::push_char;
use vstd::string::StringSliceAdditionalSpecFns;

verus! {

/// The hex digit for a value below 16, lower case.
pub open spec fn nibble_char(n: u8) -> char {
    if n < 10 {
        ((48 + n) as u8) as char
    } else {
        ((97 + n - 10) as u8) as char
    }
}

/// The lower-case hex text of `bytes`: two digits per byte, high nibble first.
pub open spec fn hex_encode(bytes: Seq<u8>) -> Seq<char> {
    Seq::new(
        2 * bytes.len(),
        |i: int| if i % 2 == 0 { nibble_char(bytes[i / 2] / 16) } else { nibble_char(bytes[i / 2] % 16) },
    )
}

/// The value of one hex digit, either case.
pub open spec fn hex_value(c: u8) -> Option<u8> {
    if 48 <= c <= 57 {
        Some((c - 48) as u8)
    } else if 97 <= c <= 102 {
        Some((c - 97 + 10) as u8)
    } else if 65 <= c <= 70 {
        Some((c - 65 + 10) as u8)
    } else {
        None
    }
}

/// The bytes a hex text stands for, or `None` unless it is an even number of hex digits.
pub open spec fn hex_decode(text: Seq<u8>) -> Option<Seq<u8>> {
    if text.len() % 2 != 0 {
        None
    } else if forall|i: int| 0 <= i < text.len() ==> #[trigger] hex_value(text[i]) is Some {
        Some(
            Seq::new(
                text.len() / 2,
                |i: int| (hex_value(text[2 * i])->0 * 16 + hex_value(text[2 * i + 1])->0) as u8,
            ),
        )
    } else {
        None
    }
}

fn nibble(n: u8) -> (c: char)
    requires
        n < 16,
    ensures
        c == nibble_char(n),
{
    if n <= 9 {
        (48u8 + n) as char
    } else {
        (97u8 + n - 10) as char
    }
}

/// Lower-case hex of `bytes`.
pub fn encode(bytes: &[u8]) -> (r: String)
    ensures
        r@ == hex_encode(bytes@),
{
    let mut out = String::new();
    let mut i: usize = 0;
    while i < bytes.len()
        invariant
            i <= bytes@.len(),
            out@ =~= hex_encode(bytes@.subrange(0, i as int)),
        decreases bytes@.len() - i,
    {
        let b = bytes[i];
        assert(b >> 4 == b / 16 && b & 0x0f == b % 16) by (bit_vector);
        push_char(&mut out, nibble(b >> 4));
        push_char(&mut out, nibble(b & 0x0f));
        proof {
            let prev = bytes@.subrange(0, i as int);
            let next = bytes@.subrange(0, i + 1);
            assert forall|k: int| 0 <= k < 2 * next.len() implies #[trigger] hex_encode(next)[k] == out@[k] by {
                if k < 2 * prev.len() {
                    assert(next[k / 2] == prev[k / 2]);
                }
            }
            assert(out@ =~= hex_encode(next));
        }
        i = i + 1;
    }
    proof {
        assert(bytes@.subrange(0, bytes@.len() as int) =~= bytes@);
    }
    out
}

fn value(c: u8) -> (r: Option<u8>)
    ensures
        r == hex_value(c),
{
    if 48u8 <= c && c <= 57u8 {
        Some(c - 48u8)
    } else if 97u8 <= c && c <= 102u8 {
        Some(c - 97u8 + 10)
    } else if 65u8 <= c && c <= 70u8 {
        Some(c - 65u8 + 10)
    } else {
        None
    }
}

/// Decode, or `None` if the input is not exactly `[0-9a-fA-F]` in even count.
pub fn decode(s: &str) -> (r: Option<Vec<u8>>)
    ensures
        match r {
            Some(v) => hex_decode(s.spec_bytes()) == Some(v@),
            None => hex_decode(s.spec_bytes()) is None,
        },
{
    let bytes = s.as_bytes();
    if bytes.len() % 2 != 0 {
        return None;
    }
    let ghost text = bytes@;
    let mut out: Vec<u8> = Vec::new();
    let mut i: usize = 0;
    while i < bytes.len() / 2
        invariant
            text == bytes@,
            text == s.spec_bytes(),
            text.len() % 2 == 0,
            i <= text.len() / 2,
            forall|k: int| 0 <= k < 2 * i ==> #[trigger] hex_value(text[k]) is Some,
            out@.len() == i,
            forall|k: int| 0 <= k < i ==> #[trigger] out@[k] == (hex_value(text[2 * k])->0 * 16 + hex_value(text[2 * k + 1])->0) as u8,
        decreases text.len() / 2 - i,
    {
        let hi = match value(bytes[2 * i]) {
            Some(v) => v,
            None => {
                assert(hex_value(text[2 * i as int]) is None);
                return None;
            },
        };
        let lo = match value(bytes[2 * i + 1]) {
            Some(v) => v,
            None => {
                assert(hex_value(text[2 * i + 1]) is None);
                return None;
            },
        };
        assert(hi < 16 && lo < 16 ==> hi << 4 | lo == hi * 16 + lo) by (bit_vector);
        out.push(hi << 4 | lo);
        i = i + 1;
    }
    proof {
        assert(out@ =~= hex_decode(text)->0);
    }
    Some(out)
}

/// Hex text is ASCII: each digit's byte is its character's code.
pub open spec fn ascii_bytes(chars: Seq<char>) -> Seq<u8> {
    Seq::new(chars.len(), |i: int| chars[i] as u8)
}

/// Decoding what `encode` wrote gives back the bytes it was given.
pub proof fn lemma_hex_round_trip(bytes: Seq<u8>)
    ensures
        hex_decode(ascii_bytes(hex_encode(bytes))) == Some(bytes),
{
    let t = ascii_bytes(hex_encode(bytes));
    assert forall|i: int| 0 <= i < t.len() implies #[trigger] hex_value(t[i]) is Some by {
        let b = bytes[i / 2];
        assert(b / 16 < 16 && b % 16 < 16);
    }
    let d = hex_decode(t)->0;
    assert forall|i: int| 0 <= i < bytes.len() implies d[i] == bytes[i] by {
        let b = bytes[i];
        assert(t[2 * i] == nibble_char(b / 16) as u8);
        assert(t[2 * i + 1] == nibble_char(b % 16) as u8);
        assert(hex_value(t[2 * i])->0 == b / 16);
        assert(hex_value(t[2 * i + 1])->0 == b % 16);
    }
    assert(d =~= bytes);
}

/// Lower and upper case hex decode to the same bytes.
pub proof fn lemma_decode_either_case(c: u8)
    requires
        97 <= c <= 102,
    ensures
        hex_value(c) == hex_value((c - 32) as u8),
{
}

/// `text` with the ASCII letters `a` to `z` made upper case and every other byte left
/// as it is.
pub open spec fn ascii_upper(text: Seq<u8>) -> Seq<u8> {
    Seq::new(text.len(), |i: int| if 97 <= text[i] <= 122 { (text[i] - 32) as u8 } else { text[i] })
}

/// Decoding ignores case: any text decodes to the same bytes, or fails the same way, as
/// its upper-case form. In particular the upper-case form of what `encode` wrote decodes
/// back to the bytes it was given.
pub proof fn lemma_decode_ignores_case(text: Seq<u8>, bytes: Seq<u8>)
    ensures
        hex_decode(ascii_upper(text)) == hex_decode(text),
        hex_decode(ascii_upper(ascii_bytes(hex_encode(bytes)))) == Some(bytes),
{
    lemma_upper_decodes_alike(text);
    lemma_upper_decodes_alike(ascii_bytes(hex_encode(bytes)));
    lemma_hex_round_trip(bytes);
}

proof fn lemma_upper_decodes_alike(text: Seq<u8>)
    ensures
        hex_decode(ascii_upper(text)) == hex_decode(text),
{
    let u = ascii_upper(text);
    assert forall|i: int| 0 <= i < text.len() implies #[trigger] hex_value(u[i]) == hex_value(text[i]) by {
        let c = text[i];
        if 97 <= c <= 122 {
            assert(u[i] == (c - 32) as u8);
        }
    }
    if text.len() % 2 == 0 {
        if forall|i: int| 0 <= i < text.len() ==> #[trigger] hex_value(text[i]) is Some {
            assert forall|i: int| 0 <= i < u.len() implies #[trigger] hex_value(u[i]) is Some by {
                assert(hex_value(u[i]) == hex_value(text[i]));
            }
            let d1 = hex_decode(u)->0;
            let d2 = hex_decode(text)->0;
            assert forall|i: int| 0 <= i < d1.len() implies d1[i] == d2[i] by {
                assert(hex_value(u[2 * i]) == hex_value(text[2 * i]));
                assert(hex_value(u[2 * i + 1]) == hex_value(text[2 * i + 1]));
            }
            assert(d1 =~= d2);
        } else {
            let j = choose|j: int| 0 <= j < text.len() && !(#[trigger] hex_value(text[j]) is Some);
            assert(hex_value(u[j]) == hex_value(text[j]));
        }
    }
}

} // verus!
