//! A conformance-test harness for a WebAssembly execution engine.
//!
//! The library holds the decisions of the harness: how textual test literals
//! become the engine's tagged runtime values and back, which module a command
//! addresses, how an observed result is judged against an expected one, and
//! the command executor, a state machine that tells its driver which engine
//! operation to perform next. The driver performs the engine calls and hands
//! their results back.
pub mod codec;
pub mod compare;
pub mod engine;
pub mod error;
pub mod executor;
pub mod registry;
pub mod script;
