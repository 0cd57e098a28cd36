//! A typed query-execution layer between application code and a relational
//! user store.
//!
//! The crate models the lifecycle of a single shared database connection, a
//! polymorphic query-execution contract under which heterogeneous query
//! variants share one execution pipeline while each produces its own typed
//! result, and the classification layer that turns raw driver failures into a
//! closed domain-error taxonomy.

pub mod db_interface;
pub mod errors;
pub mod queries;
pub mod queries_result_views;
pub mod query_views;
pub mod store;
pub mod text;
pub mod utils;

pub use store::UserRecord;
pub use store::UserStore;
