// SPDX-License-Identifier: GPL-2.0

//! A character device that answers each read with one fact about printers.
//!
//! The crate holds what the device decides and nothing of the host it runs
//! in. The host owns the device node, the memory and the random source; it
//! passes its allocator and its source to `open` and `read` as functions,
//! and keeps each reader's offset.
//!
//! - [`table`]: the fact table, a fixed, non-empty list of non-empty texts.
//! - [`facts`]: the facts that the device ships with.
//! - [`selection`]: how a drawn byte selects a fact, and how often.
//! - [`device`]: a session's open and read, and what it rejects.
//! - [`session`]: what holds of whole sessions and of several at once.
//! - [`error`]: what an operation can fail with.

pub mod device;
pub mod error;
pub mod facts;
pub mod selection;
pub mod session;
pub mod table;
