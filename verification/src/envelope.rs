//! The codec envelope: a self-describing multi-codec tag in front of a
//! payload.
//!
//! The tag is an unsigned LEB128 varint holding a 16-bit codec code: each
//! byte contributes its low seven bits, least significant first, and a high
//! bit set on a byte says that the tag continues in the next byte. A 16-bit
//! code occupies at most three tag bytes; bits beyond the sixteenth that a
//! third byte would contribute are discarded. A code is only accepted when
//! the public multi-codec registry assigns it to a codec.

use vstd::prelude::*;
use vstd::slice::{slice_index_get, slice_subrange};

verus! {

/// Why a leading codec tag failed to yield a codec identifier.
#[derive(Clone, Copy, Debug, PartialEq, Eq)]
pub enum EnvelopeFault {
    /// The input ended before the tag's final byte.
    Truncated,
    /// The tag continues past the three bytes a 16-bit code may occupy.
    Overflow,
    /// The tag is well formed, but the registry assigns its code no codec.
    UnknownCodec { code: u16 },
}

/// The value of a tag byte's low seven bits.
pub open spec fn low_bits(b: u8) -> int {
    (b % 0x80) as int
}

/// Whether a tag byte marks the tag as continuing into the next byte.
pub open spec fn continues(b: u8) -> bool {
    b >= 0x80
}

/// The code carried by a two-byte tag.
pub open spec fn code_of_two(b0: u8, b1: u8) -> u16 {
    (low_bits(b0) + low_bits(b1) * 0x80) as u16
}

/// The code carried by a three-byte tag; bits beyond the sixteenth are
/// discarded.
pub open spec fn code_of_three(b0: u8, b1: u8, b2: u8) -> u16 {
    ((low_bits(b0) + low_bits(b1) * 0x80 + low_bits(b2) * 0x4000) % 0x10000) as u16
}

/// Splitting a byte string at its leading tag: the tag's code and the
/// payload that follows it, or the fault that stops the parse.
pub open spec fn tag_split(b: Seq<u8>) -> Result<(u16, Seq<u8>), EnvelopeFault> {
    if b.len() == 0 {
        Err(EnvelopeFault::Truncated)
    } else if !continues(b[0]) {
        Ok((b[0] as u16, b.skip(1)))
    } else if b.len() == 1 {
        Err(EnvelopeFault::Truncated)
    } else if !continues(b[1]) {
        Ok((code_of_two(b[0], b[1]), b.skip(2)))
    } else if b.len() == 2 {
        Err(EnvelopeFault::Truncated)
    } else if !continues(b[2]) {
        Ok((code_of_three(b[0], b[1], b[2]), b.skip(3)))
    } else {
        Err(EnvelopeFault::Overflow)
    }
}

/// Whether the public multi-codec registry assigns `code` to a codec.
pub uninterp spec fn codec_in_registry(code: u16) -> bool;

/// Relies on `multicodec::Codec::from_code`, which returns `Ok` exactly for
/// the codes listed in the crate's registry table; `0x50` (protocol buffers)
/// and `0x51` (CBOR) are both in that table.
#[verifier::external_body]
fn lookup_codec(code: u16) -> (known: bool)
    ensures
        known == codec_in_registry(code),
        code == 0x50 || code == 0x51 ==> known,
{
    multicodec::Codec::from_code(code).is_ok()
}

/// The envelope decoder's verdict on a byte string: a registered codec code
/// and the payload, or the fault that stops the parse.
pub open spec fn envelope_split(b: Seq<u8>) -> Result<(u16, Seq<u8>), EnvelopeFault> {
    match tag_split(b) {
        Err(fault) => Err(fault),
        Ok((code, payload)) => if codec_in_registry(code) {
            Ok((code, payload))
        } else {
            Err(EnvelopeFault::UnknownCodec { code })
        },
    }
}

/// Parse the leading self-describing codec tag of `b` and split it into the
/// codec identifier and the payload that follows.
pub fn decode_envelope<'a>(b: &'a [u8]) -> (r: Result<(u16, &'a [u8]), EnvelopeFault>)
    ensures
        match r {
            Ok((code, payload)) => envelope_split(b@) == Ok::<(u16, Seq<u8>), EnvelopeFault>(
                (code, payload@),
            ),
            Err(fault) => envelope_split(b@) == Err::<(u16, Seq<u8>), EnvelopeFault>(fault),
        },
{
    let n: usize = b.len();
    if n == 0 {
        return Err(EnvelopeFault::Truncated);
    }
    let mut code: u16 = 0;
    let mut tag_len: usize = 0;
    let b0: u8 = *slice_index_get(b, 0);
    if b0 < 0x80 {
        code = b0 as u16;
        tag_len = 1;
    } else {
        if n == 1 {
            return Err(EnvelopeFault::Truncated);
        }
        let b1: u8 = *slice_index_get(b, 1);
        if b1 < 0x80 {
            code = (b0 as u16 - 0x80) + (b1 as u16) * 0x80;
            tag_len = 2;
        } else {
            if n == 2 {
                return Err(EnvelopeFault::Truncated);
            }
            let b2: u8 = *slice_index_get(b, 2);
            if b2 < 0x80 {
                let wide: u32 = (b0 as u32 - 0x80) + (b1 as u32 - 0x80) * 0x80 + (b2 as u32)
                    * 0x4000;
                code = (wide % 0x10000) as u16;
                tag_len = 3;
            } else {
                return Err(EnvelopeFault::Overflow);
            }
        }
    }
    let payload: &[u8] = slice_subrange(b, tag_len, n);
    proof {
        assert(payload@ =~= b@.skip(tag_len as int));
    }
    if lookup_codec(code) {
        Ok((code, payload))
    } else {
        Err(EnvelopeFault::UnknownCodec { code })
    }
}

} // verus!
