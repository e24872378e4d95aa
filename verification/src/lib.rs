//! A versioned binary codec for an administrative delete request.
//!
//! A delete request names exactly one resource: a topic, a custom SPU, or an
//! SPU group. On the wire it is a label string (the resource type's tag)
//! followed by the payload of the chosen variant. Decoding dispatches on the
//! label alone and rejects every unknown label, so the format stays
//! self-describing as resource types are added.

pub mod delete;
pub mod error;
pub mod laws;
pub mod resources;
pub mod wire;

pub use delete::DeleteRequest;
pub use delete::DeleteRequestView;
pub use delete::DeleteSpec;
pub use error::CodecError;
pub use error::CodecErrorView;
pub use resources::CustomSpuKey;
pub use resources::CustomSpuKeyView;
pub use resources::CustomSpuSpec;
pub use resources::SpuGroupSpec;
pub use resources::TopicSpec;
pub use wire::Version;
