//! The failure taxonomy of field validation, and the spec-level verdict that
//! a validation result reports.

use vstd::prelude::*;
use crate::envelope::EnvelopeFault;

verus! {

/// Why validation of a data field failed. Every failure is a data-level
/// verdict on the field's bytes, never a fault of the validator itself.
#[derive(Clone, Debug, PartialEq, Eq)]
pub enum Error {
    /// The leading codec tag could not be parsed; carries the fault that
    /// stopped the parse.
    MalformedEnvelope { cause: EnvelopeFault },
    /// The envelope parsed, but no structural decoder is registered for its
    /// codec; carries the codec's registry code.
    UnsupportedCodec { codec: u16 },
    /// The codec is supported, but the payload is not a complete sequence of
    /// well-formed items of that format; carries the decoder's report.
    MalformedPayload { cause: String },
}

/// How a validation result classifies its input: accepted, or one of the
/// three failure kinds, keeping only what depends on the input alone.
pub enum Verdict {
    Accepted,
    MalformedEnvelope { cause: EnvelopeFault },
    UnsupportedCodec { codec: u16 },
    MalformedPayload,
}

/// The verdict that a concrete validation result reports.
pub open spec fn verdict_of(r: Result<(), Error>) -> Verdict {
    match r {
        Ok(_) => Verdict::Accepted,
        Err(Error::MalformedEnvelope { cause }) => Verdict::MalformedEnvelope { cause },
        Err(Error::UnsupportedCodec { codec }) => Verdict::UnsupportedCodec { codec },
        Err(Error::MalformedPayload { .. }) => Verdict::MalformedPayload,
    }
}

} // verus!
