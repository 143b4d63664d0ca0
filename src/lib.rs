//! Transcoding between a statically typed data model and a dynamic value
//! runtime: an in-memory value store, the serializer and deserializer state
//! machines that read and write it, and the error taxonomy they share.

pub mod bigint;
pub mod de;
pub mod error;
pub mod laws;
pub mod result;
pub mod runtime;
pub mod se;
