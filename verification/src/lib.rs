//! A three-state maintenance lifecycle with guarded, role-checked transitions.
//!
//! [`machine`] defines the states, the requests and the transition table;
//! [`engine`] holds the current state and applies requests to it;
//! [`theorems`] states what holds of every run of an engine.

pub mod engine;
pub mod machine;
pub mod theorems;
