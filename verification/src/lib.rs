//! Execution core of a BPMN process engine: flow nodes as state machines and
//! the scheduler that moves tokens between them.
pub mod bpmn;
pub mod event;
pub mod flow_node;
pub mod language;
pub mod process;
