//! Request and response types of a named-entity annotation service, with the
//! offset arithmetic that carries sentence-local entity spans back into the
//! coordinates of the full input text.
//!
//! All offsets are character offsets: they count Unicode scalar values, never
//! encoded bytes.

pub mod documentation;
pub mod error;
pub mod prediction;
pub mod request;
pub mod response;

pub use documentation::{TextImagerCapability, TextImagerDocumentation};
pub use error::SchemaError;
pub use prediction::{RawEntity, TextImagerPrediction};
pub use request::{SentenceOffsets, TextImagerRequest};
pub use response::TextImagerResponse;
