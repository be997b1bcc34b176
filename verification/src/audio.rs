//! The PCM stream format for audio routed between machines: a header line, then raw
//! little-endian interleaved signed 16-bit frames.

use vstd::prelude::*;

use std::collections::VecDeque;

use crate::text::{decimal, decimal_text};

verus! {

/// PCM stream description. Only signed 16-bit little-endian interleaved is supported.
#[derive(Debug, Clone, Copy, PartialEq, Eq, Structural)]
pub struct AudioFormat {
    pub rate: u32,
    pub channels: u16,
}

impl Default for AudioFormat {
    fn default() -> (r: Self)
        ensures
            r == (AudioFormat { rate: 48_000, channels: 2 }),
    {
        AudioFormat { rate: 48_000, channels: 2 }
    }
}

/// Bytes in one sample.
pub const BYTES_PER_SAMPLE: usize = 2;

impl AudioFormat {
    pub const BYTES_PER_SAMPLE: usize = 2;

    pub open spec fn frame_bytes(self) -> nat {
        (self.channels * 2) as nat
    }

    pub fn bytes_per_frame(&self) -> (r: usize)
        ensures
            r == self.frame_bytes(),
    {
        self.channels as usize * BYTES_PER_SAMPLE
    }

    pub fn bytes_per_second(&self) -> (r: usize)
        requires
            self.rate * self.frame_bytes() <= usize::MAX,
        ensures
            r == self.rate * self.frame_bytes(),
    {
        let f = self.bytes_per_frame();
        proof {
            vstd::arithmetic::mul::lemma_mul_is_commutative(self.rate as int, f as int);
        }
        self.rate as usize * f
    }

    /// Whole frames contained in `bytes`; a partial trailing frame is not a frame.
    pub fn frames_in(&self, bytes: usize) -> (r: usize)
        requires
            self.channels > 0,
        ensures
            r == bytes as nat / self.frame_bytes(),
    {
        bytes / self.bytes_per_frame()
    }

    /// Between 8 kHz and 192 kHz, mono or stereo.
    pub open spec fn is_supported_spec(self) -> bool {
        8_000 <= self.rate <= 192_000 && (self.channels == 1 || self.channels == 2)
    }

    /// Between 8 kHz and 192 kHz, mono or stereo.
    pub fn is_supported(&self) -> (r: bool)
        ensures
            r == self.is_supported_spec(),
    {
        self.rate >= 8_000 && self.rate <= 192_000 && (self.channels == 1 || self.channels == 2)
    }
}

/// The encoding tag of a stream. Only one exists; present so a future change is a
/// rejection, not silent garbage.
#[derive(Debug, Clone, Copy, PartialEq, Eq, Structural)]
pub enum EncodingTag {
    S16Le,
}

/// The one header line that precedes the PCM bytes.
#[derive(Debug, Clone, Copy, PartialEq, Eq, Structural)]
pub struct AudioHeader {
    pub format: AudioFormat,
    pub encoding: EncodingTag,
}

/// The encoding a header that names none is read as.
pub fn default_encoding() -> (r: EncodingTag)
    ensures
        r == EncodingTag::S16Le,
{
    EncodingTag::S16Le
}

impl AudioHeader {
    pub fn new(format: AudioFormat) -> (r: Self)
        ensures
            r == (AudioHeader { format, encoding: EncodingTag::S16Le }),
    {
        AudioHeader { format, encoding: EncodingTag::S16Le }
    }

    /// Accept a header read off the wire, or say why its format cannot be played.
    /// Anything outside the supported range is refused rather than played as noise.
    pub fn accept(self) -> (r: Result<AudioHeader, String>)
        ensures
            r matches Ok(h) ==> accept_spec(self) == Ok::<AudioHeader, Seq<char>>(h),
            r matches Err(m) ==> accept_spec(self) == Err::<AudioHeader, Seq<char>>(m@),
            self.format.is_supported_spec() ==> r == Ok::<AudioHeader, String>(self),
            !self.format.is_supported_spec() ==> (r matches Err(m) && m@ == unsupported_message(self.format)),
    {
        if self.format.is_supported() {
            Ok(self)
        } else {
            let mut message = String::from_str("unsupported audio format: ");
            message.append(decimal(self.format.rate).as_str());
            message.append(" Hz, ");
            message.append(decimal(self.format.channels as u32).as_str());
            message.append(" channels");
            Err(message)
        }
    }
}

/// What accepting a header read off the wire gives: the header itself when its format
/// can be played, else why not.
pub open spec fn accept_spec(h: AudioHeader) -> Result<AudioHeader, Seq<char>> {
    if h.format.is_supported_spec() {
        Ok(h)
    } else {
        Err(unsupported_message(h.format))
    }
}

/// A header written for a supported format is accepted as it was written, and whatever
/// is accepted has a playable format and is accepted again unchanged.
pub proof fn lemma_accept_round_trip(format: AudioFormat, h: AudioHeader)
    ensures
        format.is_supported_spec() ==> accept_spec(AudioHeader { format, encoding: EncodingTag::S16Le })
            == Ok::<AudioHeader, Seq<char>>(AudioHeader { format, encoding: EncodingTag::S16Le }),
        accept_spec(h) matches Ok(p) ==> p.format.is_supported_spec() && accept_spec(p) == Ok::<
            AudioHeader,
            Seq<char>,
        >(p),
{
}

/// Why a header with this format is refused.
pub open spec fn unsupported_message(f: AudioFormat) -> Seq<char> {
    "unsupported audio format: "@ + decimal_text(f.rate as nat) + " Hz, "@ + decimal_text(f.channels as nat)
        + " channels"@
}

/// The signed 16-bit sample a little-endian byte pair holds.
pub open spec fn s16le(lo: u8, hi: u8) -> int {
    let v = lo + 256 * hi;
    if v >= 32768 {
        v - 65536
    } else {
        v
    }
}

/// The samples of the first `n` byte pairs of `bytes`.
pub open spec fn samples_of(bytes: Seq<u8>, n: int) -> Seq<i16> {
    Seq::new(n as nat, |i: int| s16le(bytes[2 * i], bytes[2 * i + 1]) as i16)
}

/// Decode the whole frames of a little-endian `s16` buffer into `out`, and return how
/// many bytes that used. A trailing partial frame is left for the caller to carry into
/// the next read.
pub fn decode_s16le(bytes: &[u8], format: AudioFormat, out: &mut Vec<i16>) -> (used: usize)
    requires
        format.channels > 0,
    ensures
        used == bytes@.len() - bytes@.len() % format.frame_bytes(),
        final(out)@ == old(out)@ + samples_of(bytes@, (used / 2) as int),
{
    let frame = format.bytes_per_frame();
    proof {
        vstd::arithmetic::div_mod::lemma_fundamental_div_mod(bytes.len() as int, frame as int);
        vstd::arithmetic::div_mod::lemma_mod_pos_bound(bytes.len() as int, frame as int);
        vstd::arithmetic::div_mod::lemma_div_pos_is_pos(bytes.len() as int, frame as int);
        vstd::arithmetic::mul::lemma_mul_nonnegative(frame as int, (bytes.len() / frame) as int);
    }
    let usable = bytes.len() - (bytes.len() % frame);
    proof {
        assert(usable == frame * (bytes.len() / frame));
        assert(frame == 2 * format.channels);
        vstd::arithmetic::mul::lemma_mul_is_associative(2, format.channels as int, (bytes.len() / frame) as int);
        assert(usable % 2 == 0);
    }
    let ghost start = out@;
    let mut i: usize = 0;
    while i + 1 < usable
        invariant
            usable <= bytes@.len(),
            usable % 2 == 0,
            i % 2 == 0,
            i <= usable,
            out@ == start + samples_of(bytes@, (i / 2) as int),
        decreases usable - i,
    {
        let lo = bytes[i];
        let hi = bytes[i + 1];
        let v: i32 = lo as i32 + 256 * hi as i32;
        let s: i16 = if v >= 32768 { (v - 65536) as i16 } else { v as i16 };
        out.push(s);
        proof {
            assert(samples_of(bytes@, ((i + 2) / 2) as int) =~= samples_of(bytes@, (i / 2) as int).push(s));
        }
        i = i + 2;
    }
    usable
}


/// The unsigned 16-bit pattern of a sample: two's complement.
pub open spec fn u16_of(x: i16) -> int {
    if x < 0 {
        x + 65536
    } else {
        x as int
    }
}

/// The little-endian byte pairs of `samples`, in order.
pub open spec fn bytes_of(samples: Seq<i16>) -> Seq<u8> {
    Seq::new(
        2 * samples.len(),
        |i: int|
            if i % 2 == 0 {
                (u16_of(samples[i / 2]) % 256) as u8
            } else {
                (u16_of(samples[i / 2]) / 256) as u8
            },
    )
}

/// Append `samples` to `out` as little-endian `s16`, the stream's wire form.
pub fn encode_s16le(samples: &[i16], out: &mut Vec<u8>)
    ensures
        final(out)@ == old(out)@ + bytes_of(samples@),
{
    let ghost start = out@;
    let mut i: usize = 0;
    while i < samples.len()
        invariant
            i <= samples@.len(),
            out@ == start + bytes_of(samples@.subrange(0, i as int)),
        decreases samples@.len() - i,
    {
        let s = samples[i];
        let v: i32 = if s < 0 {
            s as i32 + 65536
        } else {
            s as i32
        };
        let lo = (v % 256) as u8;
        let hi = (v / 256) as u8;
        out.push(lo);
        out.push(hi);
        proof {
            let before = bytes_of(samples@.subrange(0, i as int));
            let after = bytes_of(samples@.subrange(0, i + 1));
            assert forall|j: int| 0 <= j < after.len() implies #[trigger] after[j] == before.push(lo).push(hi)[j] by {
                if j < 2 * i {
                    assert(samples@.subrange(0, i + 1)[j / 2] == samples@.subrange(0, i as int)[j / 2]);
                }
            }
            assert(after =~= before.push(lo).push(hi));
        }
        i = i + 1;
    }
    proof {
        assert(samples@.subrange(0, samples@.len() as int) =~= samples@);
    }
}

/// Decoding the encoding of any samples gives the same samples back.
pub proof fn lemma_s16le_round_trip(samples: Seq<i16>)
    ensures
        samples_of(bytes_of(samples), samples.len() as int) == samples,
{
    let b = bytes_of(samples);
    let d = samples_of(b, samples.len() as int);
    assert forall|i: int| 0 <= i < samples.len() implies #[trigger] d[i] == samples[i] by {
        let u = u16_of(samples[i]);
        assert((2 * i) % 2 == 0 && (2 * i) / 2 == i);
        assert((2 * i + 1) % 2 == 1 && (2 * i + 1) / 2 == i);
        assert(0 <= u < 65536);
        assert(u % 256 + 256 * (u / 256) == u) by {
            vstd::arithmetic::div_mod::lemma_fundamental_div_mod(u, 256);
        }
        assert(0 <= u / 256 < 256) by {
            vstd::arithmetic::div_mod::lemma_div_pos_is_pos(u, 256);
        }
        assert(b[2 * i] as int == u % 256);
        assert(b[2 * i + 1] as int == u / 256);
    }
    assert(d =~= samples);
}

/// The newest `max` of `all`: what a bounded playback queue keeps.
pub open spec fn latest(all: Seq<i16>, max: nat) -> Seq<i16> {
    if all.len() > max {
        all.subrange(all.len() - max, all.len() as int)
    } else {
        all
    }
}

/// Queue decoded samples for playback, then drop the oldest until at most
/// `max_samples` remain: a sender that outruns the sound card costs a glitch, never
/// a latency that grows without limit.
pub fn queue_for_playback(buf: &mut VecDeque<i16>, samples: &[i16], max_samples: usize)
    ensures
        final(buf)@ == latest(old(buf)@ + samples@, max_samples as nat),
{
    broadcast use vstd::std_specs::vecdeque::group_vec_dequeue_axioms;

    let ghost all = old(buf)@ + samples@;
    let mut i: usize = 0;
    while i < samples.len()
        invariant
            i <= samples@.len(),
            all == old(buf)@ + samples@,
            buf@ == old(buf)@ + samples@.subrange(0, i as int),
        decreases samples@.len() - i,
    {
        buf.push_back(samples[i]);
        proof {
            assert(old(buf)@ + samples@.subrange(0, i + 1) =~= (old(buf)@ + samples@.subrange(0, i as int)).push(
                samples@[i as int],
            ));
        }
        i = i + 1;
    }
    proof {
        assert(samples@.subrange(0, samples@.len() as int) =~= samples@);
        assert(all.subrange(0, all.len() as int) =~= all);
    }
    while buf.len() > max_samples
        invariant
            buf@.len() <= all.len(),
            buf@ == all.subrange(all.len() - buf@.len(), all.len() as int),
            all.len() > max_samples ==> buf@.len() >= max_samples,
            all.len() <= max_samples ==> buf@ == all,
        decreases buf@.len(),
    {
        let ghost before = buf@;
        let _ = buf.pop_front();
        proof {
            assert(buf@ =~= all.subrange(all.len() - buf@.len(), all.len() as int));
        }
    }
}

/// The whole frames of what is carried over plus what was just read, decoded into
/// `out`; a trailing partial frame stays carried for the next read.
pub fn take_frames(carry: &mut Vec<u8>, chunk: &[u8], format: AudioFormat, out: &mut Vec<i16>)
    requires
        format.channels > 0,
    ensures
        ({
            let all = old(carry)@ + chunk@;
            let used = all.len() - all.len() % format.frame_bytes();
            &&& final(out)@ == old(out)@ + samples_of(all, used / 2)
            &&& final(carry)@ == all.subrange(used, all.len() as int)
        }),
{
    let ghost all = old(carry)@ + chunk@;
    let mut k: usize = 0;
    while k < chunk.len()
        invariant
            k <= chunk@.len(),
            carry@ == old(carry)@ + chunk@.subrange(0, k as int),
        decreases chunk@.len() - k,
    {
        carry.push(chunk[k]);
        proof {
            assert(old(carry)@ + chunk@.subrange(0, k + 1) =~= (old(carry)@ + chunk@.subrange(0, k as int)).push(
                chunk@[k as int],
            ));
        }
        k = k + 1;
    }
    proof {
        assert(chunk@.subrange(0, chunk@.len() as int) =~= chunk@);
    }
    let used = decode_s16le(carry.as_slice(), format, out);
    let mut rest: Vec<u8> = Vec::new();
    let mut j: usize = used;
    while j < carry.len()
        invariant
            used <= j <= carry@.len(),
            carry@ == all,
            rest@ == all.subrange(used as int, j as int),
        decreases carry@.len() - j,
    {
        rest.push(carry[j]);
        proof {
            assert(all.subrange(used as int, j + 1) =~= all.subrange(used as int, j as int).push(all[j as int]));
        }
        j = j + 1;
    }
    *carry = rest;
}

} // verus!
