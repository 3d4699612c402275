//! Verified singly-linked list variants.
//!
//! Each module holds one container built on the same data model — a chain of
//! nodes, each carrying one element and a link to its successor, beside a
//! maintained element count — and explores one ownership discipline:
//!
//! - [`basic_stack`]: a stack of `i32` values with exclusively owned nodes.
//! - [`stack`]: the generic form of the same stack, with peeking and traversal.
//! - [`persistent`]: a list whose suffixes are shared between handles;
//!   `append` and `tail` build new lists without copying or mutating.
//! - [`deque`]: a generic list operated at its front.
//! - [`queue`]: a first-in-first-out queue with a cached reference to the
//!   last node, giving constant-time append.

pub mod basic_stack;
pub mod deque;
pub mod persistent;
pub mod queue;
pub mod stack;
