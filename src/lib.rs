//! A catalog of dogs and their breeds: identifier codec, predicate builder,
//! partial-update merger, breed join resolver, paginated queries, and the
//! repository that composes them over a document database.

mod clock;
pub mod entities;
pub mod error;
pub mod ids;
pub mod join;
pub mod laws;
pub mod page;
pub mod query;
pub mod repository;
pub mod service;
pub mod store;
pub mod text;
pub mod update;
