//! The validator: extract an entity's data fields, decode each field's
//! envelope, and structurally validate its payload. The first failure is the
//! entity's verdict; an entity with nothing to check is accepted.

use vstd::prelude::*;
use crate::entity::{data_field, fields_to_validate, Entity};
use crate::envelope::{decode_envelope, envelope_split, EnvelopeFault};
use crate::error::{verdict_of, Error, Verdict};
use crate::payload::{cbor_stream_ok, payload_verdict, validate_payload, CODEC_CBOR};

verus! {

/// The verdict owed on one data field: envelope first, then payload.
pub open spec fn field_verdict(b: Seq<u8>) -> Verdict {
    match envelope_split(b) {
        Err(fault) => Verdict::MalformedEnvelope { cause: fault },
        Ok((codec, payload)) => payload_verdict(codec, payload),
    }
}

/// The verdict owed on a whole entity: that of its data field, or acceptance
/// when it carries none.
pub open spec fn entity_verdict(e: Entity) -> Verdict {
    match data_field(e) {
        None => Verdict::Accepted,
        Some(b) => field_verdict(b),
    }
}

/// Checks that the data fields of an entity are in the proper format of a
/// multi-codec enveloped serialization format (CBOR, JSON, etc.), and that
/// the encoded data is deserializable.
///
/// Currently only supports CBOR.
#[derive(Debug)]
pub struct SerializationFormatDataFields;

impl Default for SerializationFormatDataFields {
    /// The validator holds no state; its default value is the validator.
    fn default() -> (r: Self)
        ensures
            r == SerializationFormatDataFields,
    {
        SerializationFormatDataFields
    }
}

impl SerializationFormatDataFields {
    /// Validate one extracted data field as an enveloped serialized value.
    pub fn validate_field(data: &[u8]) -> (r: Result<(), Error>)
        ensures
            verdict_of(r) == field_verdict(data@),
    {
        match decode_envelope(data) {
            Err(fault) => Err(Error::MalformedEnvelope { cause: fault }),
            Ok((codec, payload)) => validate_payload(codec, payload),
        }
    }

    /// Validate every serialized-data field the entity carries; the first
    /// failure aborts validation and is returned as the entity's verdict.
    /// The entity is only read, never changed.
    pub fn validate(&self, entity: &Entity) -> (r: Result<(), Error>)
        ensures
            verdict_of(r) == entity_verdict(*entity),
    {
        match fields_to_validate(entity) {
            None => Ok(()),
            Some(data) => Self::validate_field(data.as_slice()),
        }
    }
}

/// An entity that carries no serialized-data field — its kind has none, or
/// the optional field is absent — is accepted unconditionally.
pub proof fn lemma_no_field_accepted(e: Entity)
    requires
        data_field(e) is None,
    ensures
        entity_verdict(e) == Verdict::Accepted,
{
}

/// A field whose envelope wraps the CBOR codec around a payload that parses
/// as a complete stream of zero or more CBOR items is accepted.
pub proof fn lemma_supported_codec_accepted(b: Seq<u8>, payload: Seq<u8>)
    requires
        envelope_split(b) == Ok::<(u16, Seq<u8>), EnvelopeFault>((CODEC_CBOR, payload)),
        cbor_stream_ok(payload),
    ensures
        field_verdict(b) == Verdict::Accepted,
{
}

/// A field whose envelope wraps a registered codec other than CBOR is
/// reported as unsupported, carrying that codec's code, whatever the payload
/// holds.
pub proof fn lemma_unsupported_codec_reported(b: Seq<u8>, codec: u16, payload: Seq<u8>)
    requires
        envelope_split(b) == Ok::<(u16, Seq<u8>), EnvelopeFault>((codec, payload)),
        codec != CODEC_CBOR,
    ensures
        field_verdict(b) == (Verdict::UnsupportedCodec { codec }),
{
}

/// A field whose envelope cannot be split — the tag is truncated, overlong,
/// or names no registered codec — is reported as a malformed envelope
/// carrying that fault.
pub proof fn lemma_malformed_envelope_reported(b: Seq<u8>, fault: EnvelopeFault)
    requires
        envelope_split(b) == Err::<(u16, Seq<u8>), EnvelopeFault>(fault),
    ensures
        field_verdict(b) == (Verdict::MalformedEnvelope { cause: fault }),
{
}

/// A field whose envelope wraps the CBOR codec around a payload that does
/// not parse as a complete CBOR item stream is reported as a malformed
/// payload.
pub proof fn lemma_malformed_payload_reported(b: Seq<u8>, payload: Seq<u8>)
    requires
        envelope_split(b) == Ok::<(u16, Seq<u8>), EnvelopeFault>((CODEC_CBOR, payload)),
        !cbor_stream_ok(payload),
    ensures
        field_verdict(b) == Verdict::MalformedPayload,
{
}

/// A present-but-empty field is not treated as an absent one: it is rejected
/// as a malformed envelope, its tag truncated before the first byte.
pub proof fn lemma_empty_field_rejected(b: Seq<u8>)
    requires
        b.len() == 0,
    ensures
        field_verdict(b) == (Verdict::MalformedEnvelope { cause: EnvelopeFault::Truncated }),
{
}

/// Validation is a pure function of the entity's value: any two runs over
/// equal entities are owed the same verdict, so repeating a validation
/// changes nothing and reports the same outcome.
pub proof fn lemma_validation_deterministic(e1: Entity, e2: Entity)
    requires
        e1 == e2,
    ensures
        entity_verdict(e1) == entity_verdict(e2),
{
}

} // verus!
