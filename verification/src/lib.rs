//! A fluent builder for hierarchical UI trees over a retained entity store.
//!
//! The builder keeps a handle to the current entity, a stack of open
//! ancestors, and a queue of deferred commands.  Every fluent call resolves
//! a style through the defaults cascade and appends commands to the queue;
//! nothing touches the store until the caller flushes the queue.
//!
//! - [`style`]: the opaque value types styles are made of.
//! - [`node`] and [`button`]: the two style families, each as a fully
//!   specified record and an all-optional partial.
//! - [`defaults`]: the cascade that merges call-site, instance-level and
//!   baseline layers into a resolved style, field by field.
//! - [`command`]: the deferred commands and the queue that owns them.
//! - [`builder`]: the fluent session — navigation, style shaping, content,
//!   scoped blocks, finalization — and the stack-balance laws.
//! - [`store`]: a verified model of the entity store giving every command
//!   its meaning, with the idempotence and no-op laws of updates.

pub mod builder;
pub mod button;
pub mod command;
pub mod defaults;
pub mod node;
pub mod store;
pub mod style;

use vstd::prelude::*;

verus! {

} // verus!
