//! A minimal stateful service core: a keyed collection store mapping unique
//! textual keys to ordered lists of text items, a single scalar text value
//! with a default, and a call executor that dispatches query and update
//! calls over both stores with a commit-or-roll-back discipline.

pub mod collection;
pub mod error;
pub mod executor;
pub mod laws;
pub mod scalar;
