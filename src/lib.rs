//! Run-time x86-64 code generation: an instruction encoder, a model of the
//! executable memory arena that the generated bytes are appended to, and the
//! little-endian byte layouts both of them share.

pub mod arena;
pub mod emitter;
pub mod le;
