//! Background tasks, repeating timers, FIFO workers and child-process pumps,
//! each described by a state machine whose transitions are proved against a
//! mathematical model, together with the value types, prompts, JSON and
//! key-value storage, CSV rows and request rules that surround them.
//!
//! The threads, sleeps, pipes, terminals and sockets that drive these state
//! machines live outside this crate: a driver performs the action that a
//! transition returns and feeds the outcome back as the next event.

// The protocol contract and its state machines.
pub mod protocol;
pub mod worker;
pub mod task;
pub mod timer;
pub mod process;
pub mod websocket;

// Values, rules and text around them.
pub mod text;
pub mod data;
pub mod console;
pub mod logger;
pub mod runtime;
pub mod json;
pub mod storage;
pub mod fetch;
pub mod hw;
pub mod monitor;
pub mod csv;
