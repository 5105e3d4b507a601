//! A bridge between a host and an embedded Luau engine.
//!
//! The bridge has two operations. Compiling turns source text into bytecode under
//! three levels that the caller may set: [`compile::compile_source`]. Loading turns
//! source text into a unit that can be called, under a debug name that the caller may
//! set: [`load::plan_load`] decides what the engine is handed, and
//! [`load::load_outcome`] what becomes of its answer. Both operations resolve the
//! caller's options in full before the engine is asked, and turn what the engine
//! answers into values and errors of their own.
//!
//! The engine itself is not part of the bridge. What is assumed of its compiler stands
//! in [`engine`]. Its loader is called by the host, between `plan_load` and
//! `load_outcome`: it takes a lock that panics while the engine collects garbage, and
//! the engine offers no test for that state.

pub mod compile;
pub mod engine;
pub mod error;
pub mod load;
pub mod options;
pub mod settings;
pub mod text;
