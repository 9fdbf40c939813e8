//! Validation of multi-codec enveloped data fields on ontology entities.
//!
//! An entity may carry a byte-string field that claims to hold serialized
//! data. Such a field must be a self-describing envelope: a leading
//! multi-codec tag naming a serialization format, followed by a payload that
//! actually decodes under that format. The validator extracts the data
//! fields an entity carries, splits each into codec identifier and payload,
//! and checks that the payload is a complete, well-formed item stream of the
//! named format. Currently CBOR is the one format whose payloads are
//! structurally checked.

pub mod entity;
pub mod envelope;
pub mod error;
pub mod payload;
pub mod validator;

pub use entity::Entity;
pub use envelope::EnvelopeFault;
pub use error::Error;
pub use validator::SerializationFormatDataFields;
