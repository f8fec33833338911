//! The core of a small to-do service: the entity and its wire forms, the
//! decisions of the store adapter and of the two resolvers, and the laws
//! that hold of them against a document collection.
//!
//! Nothing here performs I/O. Each operation is a short protocol: it names
//! the request to put to the document store, and is resumed with the
//! store's reply until it is done.

pub mod document_id;
pub mod todo_model;
pub mod error;
pub mod store_protocol;
pub mod mongodb_repo;
pub mod resolvers;
pub mod store_model;
pub mod laws;
pub mod transport;
