//! Decoding of LTE NAS (EMM and ESM) messages: a bit reader, the Layer-3
//! information element containers, per-message IE schemas, and the dispatch
//! from the NAS header to a schema.
pub mod reader;
pub mod layer3;
pub mod schema;
pub mod header;
pub mod emm;
pub mod esm;
pub mod nas;
pub mod hex;
