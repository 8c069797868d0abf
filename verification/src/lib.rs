//! A store of short todo records, each found by the number it was given when
//! it was created.
//!
//! The store hands out identifiers from a counter that never goes back, keeps
//! one record per identifier, and reports every change it makes as a
//! notification value that the caller is free to deliver wherever it likes.

pub mod account;
pub mod events;
pub mod laws;
pub mod model;
pub mod store;
pub mod todo;

pub use ink::primitives::AccountId;
pub use events::{TodoCompleted, TodoCreated, TodoDeleted, TodoUpdated};
pub use model::{next_count, saturated, Operation, TodoListView};
pub use store::{advance_count, InkTodoList};
pub use todo::{Todo, TodoView};
