//! Layered packet decoding and encoding engine: checksum primitives, the
//! layer-type registry, layer classes, the decode dispatch between layers
//! and a growable serialization buffer.
pub mod checksum;
pub mod error;
pub mod layertype;
pub mod layerclass;
pub mod text;
pub mod decode;
pub mod base;
pub mod packet;
pub mod writer;
pub mod source;
