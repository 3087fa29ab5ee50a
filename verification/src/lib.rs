//! Incremental, pull-based decoders for simple image containers.
//!
//! The crate offers three structurally similar engines, each a stateful
//! iterator over a seekable in-memory byte source:
//!
//! * a whitespace tokenizer for the text-header image formats ([`netpbm`]),
//! * a text-header decoder with a positional header grammar ([`ppm`]) and
//!   one with a keyed header grammar ([`pam`]),
//! * a binary chunk-framing decoder for the tagged-chunk container ([`png`]).
//!
//! The decoders never buffer payload bytes: they hand out offset/length
//! descriptors that a consumer resolves against the source on its own.

pub mod netpbm;
pub mod pam;
pub mod png;
pub mod ppm;
pub mod source;
