//! # Process
//!
//! What goes into a running process from outside, and what comes out of it.
pub mod laws;
pub mod scheduler;
pub mod semantics;

pub use scheduler::Scheduler;

use crate::bpmn::Element;
use std::sync::Arc;
use vstd::prelude::*;

verus! {

/// Control request
#[derive(Debug, PartialEq, Eq)]
pub enum Request<H> {
    /// Hands over the join handle of the task that runs the process
    JoinHandle(H),
    /// Asks for the process to stop
    Terminate,
    /// Asks for the process to start
    Start,
}

/// Answer to a control request
#[derive(Debug, PartialEq, Eq)]
pub enum Reply<H> {
    /// There is nothing to answer
    Nothing,
    /// Answer to `Start`
    Started(Result<(), StartError>),
    /// Answer to `Terminate`: the join handle handed over before, if any
    Terminated(Option<H>),
}

/// Start error
#[derive(Clone, Copy, Debug, PartialEq, Eq, Structural)]
pub enum StartError {
    /// The process has no start event
    NoStartEvent,
}

/// Entry of the log that a running process keeps
#[derive(Clone, Debug, PartialEq, Eq)]
pub enum Log {
    /// A token arrived at a flow node
    FlowNodeIncoming { node: Arc<Element>, incoming_index: usize },
    /// A flow node has finished
    FlowNodeCompleted { node: Arc<Element> },
    /// The condition of a sequence flow could not be evaluated
    ExpressionError { error: String },
    /// No flow node is left to run
    Done,
}

} // verus!
