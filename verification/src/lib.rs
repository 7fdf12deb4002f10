//! A safety layer between user code and a simulator's native procedural
//! interface.
//!
//! The native interface is not reentrant, is bound to one thread, and may only
//! be used once the simulator has finished its startup phase. None of this is
//! enforced by the simulator itself. This crate holds the decisions that make
//! its use safe: which native call may be issued and with which arguments, and
//! what each answer of the simulator means. It performs no native call itself.
//! Every operation comes as a pair: a function that hands out the
//! [`native::Request`] to issue, and a function that takes the simulator's
//! [`native::Reply`] and computes the result. The caller performs the request
//! in between.

pub mod callbacks;
pub mod info;
pub mod native;
pub mod object;
pub mod print;
pub mod result;
pub mod startup;
pub mod text;
