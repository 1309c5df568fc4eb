//! Reader for the compact-tree binary format and projection of its value tree
//! onto typed configuration records.

pub mod bytes;
pub mod decode;
pub mod fields;
pub mod framing;
pub mod schema;
pub mod texture;
pub mod text;
pub mod value;
pub mod wire;
