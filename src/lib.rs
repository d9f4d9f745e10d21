//! Two-part entity tags for conditional HTTP requests.
//!
//! A tag holds a fingerprint of the fields that a partial update can change and a
//! fingerprint of the whole entity, written as `"<patch>;<get>"`. A `GET` compares the
//! second part to answer "not modified"; a `PATCH` compares the first part to refuse a
//! conflicting edit.
pub mod entry;
pub mod envelope;
pub mod tag;
pub mod text;

pub use entry::Entry;
pub use envelope::data_envelope;
pub use tag::Taggable;
pub use text::push_decimal;
