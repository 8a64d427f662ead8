//! Core of a pluggable generational Immix garbage-collection toolkit.
//!
//! The crate covers the policy engine of a generational plan (when to
//! collect, whether the cycle is a minor or a full-heap one, page
//! accounting, and tracing dispatch) together with the Immix block/line
//! side-metadata state machine (block state codec, hole counting,
//! defragmentation-source marking, per-block sweeping, and the queue of
//! reusable blocks).  The host virtual machine's object model, work
//! scheduler, page resource and copy contexts stay outside: the library
//! takes their answers as plain values and states exactly what it decides
//! from them.

pub mod address;
pub mod block;
pub mod block_list;
pub mod chunk;
pub mod constraints;
pub mod conversions;
pub mod copyspace;
pub mod generational;
pub mod immix;
pub mod line;
pub mod side_metadata;
