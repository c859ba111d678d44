//! Users, login sessions and posts: the records, an in-memory store with the
//! same operations as the database layer, and the statements that layer runs.
pub mod laws;
pub mod model;
pub mod statement;
pub mod store;

pub use model::{Post, Session, User, UserId};
pub use statement::{Param, Statement};
pub use store::{MemStore, StoreError, Tables};
