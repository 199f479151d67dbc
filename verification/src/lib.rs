//! An event-based behavior tree, written as a set of state machines.
//!
//! Every node of a tree is a process that reacts to one event at a time: a
//! message of its parent, a message of a child, a new value, the end of a wait.
//! Each reaction is a function of this crate, which changes the state of the
//! process and hands back the messages that have to be sent. Delivering those
//! messages, waiting and running user code is left to the program around it.
pub mod address;
pub mod bt;
pub mod id;
pub mod json;
pub mod ws;
pub mod xml;

pub use crate::bt::BehaviorTree;
pub use crate::bt::{
    action::{Action, BlockingAction, Executor, Failure, Success, Wait},
    blocking_check::BlockingCheck,
    condition::{Condition, Evaluator, OneTimeCondition},
    fallback::{BlockingFallback, Fallback},
    handle::NodeHandle,
    listener::{OuterStatus as Status, Update},
    loop_dec::LoopDecorator,
    sequence::{BlockingSequence, Sequence},
};
