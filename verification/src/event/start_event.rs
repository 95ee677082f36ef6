//! # Start Event flow node
use crate::bpmn::{Element, ElementKind, SequenceFlow};
use crate::event::ProcessEvent;
use crate::flow_node::{self, Action, ActionView, FlowNode, Poll, PollView};
use std::sync::Arc;
use vstd::prelude::*;

verus! {

/// Start Event flow node
pub struct StartEvent {
    pub element: Arc<Element>,
    pub state: State,
    /// Whether the node follows the events of its process
    pub subscribed: bool,
    /// Whether a `Start` event has reached the node and waits to be acted on
    pub started: bool,
}

/// Node state
#[derive(Clone, Copy, Debug, PartialEq, Eq, Structural)]
pub enum State {
    Ready,
    Complete,
    Done,
}

/// The indices `0, 1, ..` below `count`, in order
pub open spec fn all_indices(count: nat) -> Seq<usize> {
    Seq::new(count, |i: int| i as usize)
}

/// Lists the indices below `count`
pub fn indices_below(count: usize) -> (indices: Vec<usize>)
    ensures
        indices@ == all_indices(count as nat),
{
    let mut indices: Vec<usize> = Vec::new();
    let mut i: usize = 0;
    while i < count
        invariant
            i <= count,
            indices@ == all_indices(i as nat),
        decreases count - i,
    {
        indices.push(i);
        i = i + 1;
    }
    indices
}

impl StartEvent {
    /// Creates new Start Event flow node
    pub fn new(element: Element) -> (node: Self)
        ensures
            node == (StartEvent { element: Arc::new(element), state: State::Ready, subscribed: false, started: false }),
    {
        Self { element: Arc::new(element), state: State::Ready, subscribed: false, started: false }
    }

    /// Whether `event` sets the node off: a `Start` reaching a subscribed
    /// node that is still waiting for one
    pub open spec fn set_off_by(&self, event: ProcessEvent) -> bool {
        self.subscribed && self.state == State::Ready && event is Start
    }
}

impl FlowNode for StartEvent {
    open spec fn spec_from_element(element: Arc<Element>) -> Option<Self> {
        if element.kind == ElementKind::StartEvent {
            Some(StartEvent { element, state: State::Ready, subscribed: false, started: false })
        } else {
            None
        }
    }

    open spec fn spec_element(&self) -> Arc<Element> {
        self.element
    }

    open spec fn spec_set_process(&self) -> Self {
        StartEvent { subscribed: true, ..*self }
    }

    open spec fn spec_process_event(&self, event: ProcessEvent) -> Self {
        if self.set_off_by(event) {
            StartEvent { started: true, ..*self }
        } else {
            *self
        }
    }

    open spec fn spec_set_state(&self, state: flow_node::State) -> Result<
        Self,
        flow_node::StateError,
    > {
        match state {
            flow_node::State::StartEvent(state) => Ok(StartEvent { state, ..*self }),
            _ => Err(flow_node::StateError::InvalidVariant),
        }
    }

    open spec fn spec_get_state(&self) -> flow_node::State {
        flow_node::State::StartEvent(self.state)
    }

    /// Once set off, a start event sends a token along every outgoing
    /// sequence flow, then reports `Complete`, then ends its stream
    open spec fn spec_poll_next(&self) -> (Self, PollView, Seq<ProcessEvent>) {
        match self.state {
            State::Ready => if self.started {
                (
                    StartEvent { state: State::Complete, started: false, ..*self },
                    PollView::Ready(
                        Some(ActionView::Flow(all_indices(self.element.outgoings.len() as nat))),
                    ),
                    Seq::empty(),
                )
            } else {
                (*self, PollView::Pending, Seq::empty())
            },
            State::Complete => (
                StartEvent { state: State::Done, ..*self },
                PollView::Ready(Some(ActionView::Complete)),
                Seq::empty(),
            ),
            State::Done => (*self, PollView::Ready(None), Seq::empty()),
        }
    }

    fn from_element(element: &Arc<Element>) -> (node: Option<Self>) {
        match element.kind {
            ElementKind::StartEvent => Some(
                StartEvent { element: element.clone(), state: State::Ready, subscribed: false, started: false },
            ),
            _ => None,
        }
    }

    fn element(&self) -> (element: Arc<Element>) {
        self.element.clone()
    }

    fn set_process(&mut self) {
        self.subscribed = true;
    }

    fn incoming(&mut self, _index: usize) {
    }

    fn tokens(&mut self, _count: usize) {
    }

    fn sequence_flow(
        &mut self,
        _index: usize,
        _sequence_flow: &SequenceFlow,
        _condition_result: bool,
    ) {
    }

    fn process_event(&mut self, event: &ProcessEvent) {
        let waiting = match self.state {
            State::Ready => self.subscribed,
            _ => false,
        };
        if waiting {
            match event {
                ProcessEvent::Start => {
                    self.started = true;
                },
                _ => {},
            }
        }
    }

    fn handle_outgoing_action(&mut self, _index: usize, action: Option<Action>) -> (handled: Option<
        Option<Action>,
    >) {
        Some(action)
    }

    fn set_state(&mut self, state: flow_node::State) -> (set: Result<(), flow_node::StateError>) {
        match state {
            flow_node::State::StartEvent(state) => {
                self.state = state;
                Ok(())
            },
            _ => Err(flow_node::StateError::InvalidVariant),
        }
    }

    fn get_state(&self) -> (state: flow_node::State) {
        flow_node::State::StartEvent(self.state)
    }

    fn poll_next(&mut self, _events: &mut Vec<ProcessEvent>) -> (poll: Poll) {
        match self.state {
            State::Ready => {
                if self.started {
                    self.state = State::Complete;
                    self.started = false;
                    Poll::Ready(Some(Action::Flow(indices_below(self.element.outgoings.len()))))
                } else {
                    Poll::Pending
                }
            },
            State::Complete => {
                self.state = State::Done;
                Poll::Ready(Some(Action::Complete))
            },
            State::Done => Poll::Ready(None),
        }
    }
}

impl From<Element> for StartEvent {
    fn from(element: Element) -> (node: Self) {
        Self::new(element)
    }
}

impl vstd::std_specs::convert::FromSpecImpl<Element> for StartEvent {
    open spec fn obeys_from_spec() -> bool {
        true
    }

    open spec fn from_spec(element: Element) -> Self {
        StartEvent { element: Arc::new(element), state: State::Ready, subscribed: false, started: false }
    }
}

/// Putting a start event into the state it reports leaves it as it is.
pub proof fn state_round_trip(node: StartEvent)
    ensures
        node.spec_set_state(node.spec_get_state()) == Ok::<StartEvent, flow_node::StateError>(
            node,
        ),
{
}

/// A state of another kind of node is refused, and no other is.
pub proof fn set_state_refuses_other_kinds(node: StartEvent, state: flow_node::State)
    ensures
        node.spec_set_state(state) is Err <==> !(state is StartEvent),
{
}

/// A start event that has been set off, or has left `Ready`, takes no notice
/// of a further `Start`: it stays as it is, and so does what it does next.
pub proof fn repeated_start_is_ignored(node: StartEvent)
    requires
        node.started || node.state != State::Ready,
    ensures
        node.spec_process_event(ProcessEvent::Start) == node,
        node.spec_process_event(ProcessEvent::Start).spec_poll_next() == node.spec_poll_next(),
{
}

/// Whatever a start event is told, a second `Start` right after the first
/// changes nothing.
pub proof fn start_is_idempotent(node: StartEvent)
    ensures
        node.spec_process_event(ProcessEvent::Start).spec_process_event(ProcessEvent::Start)
            == node.spec_process_event(ProcessEvent::Start),
{
}

/// A start event reacts to no event but `Start`.
pub proof fn other_events_are_ignored(node: StartEvent, event: ProcessEvent)
    requires
        !(event is Start),
    ensures
        node.spec_process_event(event) == node,
{
}

} // verus!
