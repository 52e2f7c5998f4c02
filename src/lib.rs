//! Forensic artefact collection: file-type discovery by magic numbers,
//! fixed-layout header decoding, content digests, and the decisions of the
//! concurrent ingestion pipeline.

pub mod archive;
pub mod bytes;
pub mod content;
pub mod discover;
pub mod hash;
pub mod layout;
pub mod pipeline;
pub mod record;
pub mod signature;
pub mod text;
