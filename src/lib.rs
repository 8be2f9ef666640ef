//! A lazy, immutable query-plan builder in front of the DataFusion engine.
//!
//! Expressions and plans are built as plain values of this crate, whose
//! constructors have exact contracts; they are handed to the engine only when
//! a frame, a schema or an explain plan is asked for.
pub mod engine;
pub mod error;
pub mod expr;
pub mod join;
pub mod laws;
pub mod lower;
pub mod plan;
pub mod registry;
