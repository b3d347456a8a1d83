//! A safe, ownership-correct interface over a schema-compiled binary codec.
//!
//! Structured messages are defined by a formal schema and carried in a packed
//! byte encoding. Each schema type has a runtime descriptor: the packed
//! encoding rules for values of that type. The library binds every schema
//! type to its descriptor at compile time (the [`registry`]), unifies
//! consumer-allocated and codec-allocated instances behind one owning handle
//! ([`handle`]), and offers generic encode and decode entry points on top of
//! both ([`transcode`]). [`short_msg`] holds a concrete schema type.

pub mod handle;
pub mod registry;
pub mod short_msg;
pub mod transcode;

pub use handle::ASNBox;
pub use handle::Provenance;
pub use registry::ASN1GenType;
pub use transcode::uper_decode_full;
pub use transcode::uper_encode_full;
