//! Compress or decompress zlib, gzip and raw DEFLATE streams.
//!
//! The library holds the decisions of the transcoder: which of the six
//! codec operations a configuration selects ([`select`]), how one input is
//! turned into output bytes ([`codec`]), and how a whole run over several
//! inputs sharing one output is sequenced ([`dispatch`]).

pub mod codec;
pub mod select;
pub mod dispatch;
