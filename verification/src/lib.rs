//! Protocol core of a binding to the Nix evaluator and store.
//!
//! The library holds everything about the binding but the native calls
//! themselves: which functions of the engine an operation calls, in which
//! order and with which arguments, how text crosses the boundary, how the
//! engine's status becomes a typed error, and which resources are given back
//! on every way out. An operation is started by a function of this crate and
//! driven by performing the call of each [`operation::Step`] and handing the
//! reply to [`operation::Pending::resume`]; [`progress::run`] does so with an
//! engine given as a function.
//!
//! What holds of every operation, whatever the engine replies, is proved in
//! [`laws`], [`courses`], [`ledger`] and [`progress`].

pub mod context;
pub mod courses;
pub mod engine;
pub mod laws;
pub mod ledger;
pub mod operation;
pub mod path;
pub mod progress;
pub mod state;
pub mod store;
pub mod utils;
pub mod value;

use crate::engine::Call;
use crate::operation::{make, Op, Step};
use vstd::prelude::*;

verus! {

/// Brings up the engine: its utility library, then its store library, then
/// its evaluator, each judged by one context that is given back at the end.
pub fn init() -> (step: Step)
    ensures
        step.sound(),
        step.makes(Call::ContextCreate, Op::InitContext),
{
    make(Call::ContextCreate, Op::InitContext)
}

} // verus!
