//! The short code an operator compares across two screens when pairing.
//!
//! Derived from both public keys (sorted, so both peers compute the same code) and
//! from the channel binding, length-prefixed so fields cannot run together.

use vstd::prelude::*;
use vstd::string::StringSliceAdditionalSpecFns;

use crate::bytes::{append_bytes, be_u64, be_value, pow256};
use crate::crypto::{sha256, sha256_digest};
use crate::key::PeerKey;
use crate::text::push_char;

verus! {

pub const SAS_LABEL: &'static str = "ultidesk-pairing-sas-v1";

/// Number of digits shown. Wire-visible: changing it changes the code both peers compute.
pub const SAS_DIGITS: u32 = 6;

/// Byte-wise lexicographic order (a prefix comes first).
pub open spec fn lex_le(a: Seq<u8>, b: Seq<u8>) -> bool
    decreases a.len(),
{
    if a.len() == 0 {
        true
    } else if b.len() == 0 {
        false
    } else if a[0] != b[0] {
        a[0] < b[0]
    } else {
        lex_le(a.drop_first(), b.drop_first())
    }
}

/// `n` as eight big-endian bytes.
pub open spec fn be8(n: nat) -> Seq<u8> {
    Seq::new(8, |i: int| ((n / pow256((7 - i) as nat)) % 256) as u8)
}

/// What is hashed: label, the two keys in order, the binding's length, the binding.
pub open spec fn sas_input(a: Seq<u8>, b: Seq<u8>, binding: Seq<u8>) -> Seq<u8> {
    let first = if lex_le(a, b) { a } else { b };
    let second = if lex_le(a, b) { b } else { a };
    SAS_LABEL.spec_bytes() + first + second + be8(binding.len()) + binding
}

/// The six-digit value: the digest's top eight bytes, big-endian, modulo a million.
pub open spec fn sas_value(a: Seq<u8>, b: Seq<u8>, binding: Seq<u8>) -> nat {
    be_value(sha256_digest(sas_input(a, b, binding)).subrange(0, 8)) % 1_000_000
}

pub open spec fn digit_char(d: nat) -> char {
    ((48 + d) as u8) as char
}

/// Six zero-padded digits, grouped in threes.
pub open spec fn code_text(v: nat) -> Seq<char> {
    seq![
        digit_char((v / 100000) % 10),
        digit_char((v / 10000) % 10),
        digit_char((v / 1000) % 10),
        ' ',
        digit_char((v / 100) % 10),
        digit_char((v / 10) % 10),
        digit_char(v % 10),
    ]
}

fn key_le(a: &PeerKey, b: &PeerKey) -> (r: bool)
    ensures
        r == lex_le(a@, b@),
{
    let x = a.as_bytes();
    let y = b.as_bytes();
    let mut i: usize = 0;
    while i < 32 && x[i] == y[i]
        invariant
            i <= 32,
            x@ == a@,
            y@ == b@,
            x@.len() == 32,
            y@.len() == 32,
            forall|j: int| 0 <= j < i ==> x@[j] == y@[j],
        decreases 32 - i,
    {
        i = i + 1;
    }
    proof {
        lemma_lex_le_skip(x@, y@, i as int);
    }
    if i == 32 {
        true
    } else {
        x[i] < y[i]
    }
}

proof fn lemma_lex_le_skip(a: Seq<u8>, b: Seq<u8>, i: int)
    requires
        0 <= i <= a.len(),
        a.len() == b.len(),
        forall|j: int| 0 <= j < i ==> a[j] == b[j],
    ensures
        lex_le(a, b) == lex_le(a.subrange(i, a.len() as int), b.subrange(i, b.len() as int)),
    decreases i,
{
    if i == 0 {
        assert(a.subrange(0, a.len() as int) =~= a);
        assert(b.subrange(0, b.len() as int) =~= b);
    } else {
        lemma_lex_le_skip(a.drop_first(), b.drop_first(), i - 1);
        assert(a.drop_first().subrange(i - 1, a.len() - 1) =~= a.subrange(i, a.len() as int));
        assert(b.drop_first().subrange(i - 1, b.len() - 1) =~= b.subrange(i, b.len() as int));
    }
}

fn push_be8(v: &mut Vec<u8>, n: u64)
    ensures
        final(v)@ == old(v)@ + be8(n as nat),
{
    let ghost start = v@;
    let mut d: u64 = 0x100000000000000;
    let mut i: usize = 0;
    proof {
        crate::bytes::lemma_pow256_values();
    }
    while i < 8
        invariant
            i <= 8,
            d as nat == pow256((7 - i) as nat) || i == 8,
            i < 8 ==> d > 0,
            v@ == start + be8(n as nat).subrange(0, i as int),
        decreases 8 - i,
    {
        v.push(((n / d) % 256) as u8);
        proof {
            assert(be8(n as nat).subrange(0, i + 1) =~= be8(n as nat).subrange(0, i as int).push(
                ((n / d) % 256) as u8,
            ));
        }
        if i < 7 {
            proof {
                assert(pow256((7 - i) as nat) == 256 * pow256((6 - i) as nat));
            }
            d = d / 256;
        }
        i = i + 1;
    }
    proof {
        assert(be8(n as nat).subrange(0, 8) =~= be8(n as nat));
    }
}

fn digit(d: u64) -> (c: char)
    requires
        d < 10,
    ensures
        c == digit_char(d as nat),
{
    (48u8 + d as u8) as char
}

/// Derive the pairing code for a connection between two devices: six digits in two
/// groups of three, the same whichever way round the keys are given.
pub fn pairing_code(a: &PeerKey, b: &PeerKey, channel_binding: &[u8]) -> (r: String)
    ensures
        r@ == code_text(sas_value(a@, b@, channel_binding@)),
{
    let a_first = key_le(a, b);
    let (first, second) = if a_first { (a, b) } else { (b, a) };
    let mut data: Vec<u8> = Vec::new();
    append_bytes(&mut data, SAS_LABEL.as_bytes());
    append_bytes(&mut data, first.as_bytes().as_slice());
    append_bytes(&mut data, second.as_bytes().as_slice());
    push_be8(&mut data, channel_binding.len() as u64);
    append_bytes(&mut data, channel_binding);
    proof {
        assert(data@ =~= sas_input(a@, b@, channel_binding@));
    }
    let digest = sha256(data.as_slice());
    let value = be_u64(digest.as_slice()) % 1_000_000;
    let mut out = String::new();
    push_char(&mut out, digit((value / 100000) % 10));
    push_char(&mut out, digit((value / 10000) % 10));
    push_char(&mut out, digit((value / 1000) % 10));
    push_char(&mut out, ' ');
    push_char(&mut out, digit((value / 100) % 10));
    push_char(&mut out, digit((value / 10) % 10));
    push_char(&mut out, digit(value % 10));
    proof {
        assert(out@ =~= code_text(value as nat));
    }
    out
}

proof fn lemma_lex_le_total_antisym(a: Seq<u8>, b: Seq<u8>)
    requires
        a.len() == b.len(),
    ensures
        lex_le(a, b) || lex_le(b, a),
        lex_le(a, b) && lex_le(b, a) ==> a == b,
    decreases a.len(),
{
    if a.len() > 0 && a[0] == b[0] {
        lemma_lex_le_total_antisym(a.drop_first(), b.drop_first());
        if lex_le(a, b) && lex_le(b, a) {
            assert(a =~= seq![a[0]] + a.drop_first());
            assert(b =~= seq![b[0]] + b.drop_first());
        }
    }
    if a.len() == 0 {
        assert(a =~= b);
    }
}

/// Both peers compute the same code whichever way round they ask.
pub proof fn lemma_pairing_code_symmetric(a: PeerKey, b: PeerKey, binding: Seq<u8>)
    ensures
        code_text(sas_value(a@, b@, binding)) == code_text(sas_value(b@, a@, binding)),
{
    PeerKey::lemma_len(a);
    PeerKey::lemma_len(b);
    lemma_lex_le_total_antisym(a@, b@);
    assert(sas_input(a@, b@, binding) == sas_input(b@, a@, binding));
}

/// The code is six digits with a space in the middle, leading zeros kept.
pub proof fn lemma_code_shape(v: nat)
    ensures
        code_text(v).len() == 7,
        code_text(v)[3] == ' ',
        forall|i: int| 0 <= i < 7 && i != 3 ==> '0' <= #[trigger] code_text(v)[i] <= '9',
{
}

} // verus!
