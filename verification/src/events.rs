//! The notifications that the store hands back, one for each change it made.

use vstd::prelude::*;

verus! {

/// A record was created under `id`.
#[derive(Debug, Clone, Copy, PartialEq, Eq, Structural)]
pub struct TodoCreated {
    pub id: u32,
}

/// The title and description of the record `id` were replaced.
#[derive(Debug, Clone, Copy, PartialEq, Eq, Structural)]
pub struct TodoUpdated {
    pub id: u32,
}

/// The record `id` was removed.
#[derive(Debug, Clone, Copy, PartialEq, Eq, Structural)]
pub struct TodoDeleted {
    pub id: u32,
}

/// The record `id` was marked as completed.
#[derive(Debug, Clone, Copy, PartialEq, Eq, Structural)]
pub struct TodoCompleted {
    pub id: u32,
}

} // verus!
