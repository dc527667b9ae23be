//! Typed persistence layer for a small task tracker: domain records, an
//! identifier codec, a decoder for the datastore's generic responses, and the
//! task store operations built on them.

mod text;
pub mod ident;
pub mod model;
pub mod value;
pub mod decode;
pub mod store;
pub mod memory;
pub mod task_store;
pub mod menu;
