//! The payload structural validator: given a codec identifier and the bytes
//! behind the envelope, decide whether the bytes are a complete, well-formed
//! item stream of that format.
//!
//! One format is wired in today: CBOR, whose payloads must parse exhaustively
//! into a sequence of zero or more data items. Every other registered codec
//! is reported as unsupported, a normal verdict rather than a fault.

use vstd::prelude::*;
use crate::error::{verdict_of, Error, Verdict};

verus! {

/// The registry code of the CBOR serialization format, the one codec whose
/// payloads have a structural decoder wired in.
pub const CODEC_CBOR: u16 = 0x51;

/// Whether a byte string is a complete sequence of zero or more well-formed
/// CBOR data items.
pub uninterp spec fn cbor_stream_ok(payload: Seq<u8>) -> bool;

/// Relies on `serde_cbor::Deserializer::from_slice` and the stream it offers
/// through `into_iter`: collecting the stream succeeds exactly when the whole
/// input parses as a sequence of CBOR data items, and an empty input is an
/// empty, error-free stream.
#[verifier::external_body]
fn decode_cbor_stream(payload: &[u8]) -> (r: Result<(), String>)
    ensures
        r is Ok <==> cbor_stream_ok(payload@),
        payload@.len() == 0 ==> r is Ok,
{
    let stream = serde_cbor::Deserializer::from_slice(payload).into_iter::<serde_cbor::Value>();
    let items: Result<Vec<serde_cbor::Value>, serde_cbor::Error> = stream.collect();
    match items {
        Ok(_) => Ok(()),
        Err(e) => Err(format!("{}", e)),
    }
}

/// The structural validator's verdict on a payload that claims to be in the
/// format registered under `codec`.
pub open spec fn payload_verdict(codec: u16, payload: Seq<u8>) -> Verdict {
    if codec == CODEC_CBOR {
        if cbor_stream_ok(payload) {
            Verdict::Accepted
        } else {
            Verdict::MalformedPayload
        }
    } else {
        Verdict::UnsupportedCodec { codec }
    }
}

/// Dispatch `payload` to the structural decoder registered for `codec` and
/// require an exhaustive parse; an unregistered codec is reported as
/// unsupported, and the first structural failure rejects the whole payload.
pub fn validate_payload(codec: u16, payload: &[u8]) -> (r: Result<(), Error>)
    ensures
        verdict_of(r) == payload_verdict(codec, payload@),
{
    if codec == CODEC_CBOR {
        match decode_cbor_stream(payload) {
            Ok(_) => Ok(()),
            Err(cause) => Err(Error::MalformedPayload { cause }),
        }
    } else {
        Err(Error::UnsupportedCodec { codec })
    }
}

} // verus!
