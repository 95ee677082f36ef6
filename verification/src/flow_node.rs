//! # Flow node
//!
//! Every flow node is a state machine of its own. The scheduler polls it for
//! actions, tells it about arriving tokens and lets it look at the actions of
//! the nodes downstream of it.
use crate::bpmn::{Element, SequenceFlow};
use crate::event::{end_event, start_event, EndEvent, ProcessEvent, StartEvent};
use std::sync::Arc;
use vstd::prelude::*;

verus! {

/// What a flow node asks of the scheduler when it advances
#[derive(Debug, PartialEq, Eq)]
pub enum Action {
    /// Evaluate the conditions of the outgoing sequence flows at these
    /// indices and report each result back to the node
    ProbeOutgoingSequenceFlows(Vec<usize>),
    /// Send a token along the outgoing sequence flows at these indices
    Flow(Vec<usize>),
    /// The node has finished its work
    Complete,
}

/// Mathematical value of an [`Action`]
pub enum ActionView {
    ProbeOutgoingSequenceFlows(Seq<usize>),
    Flow(Seq<usize>),
    Complete,
}

impl DeepView for Action {
    type V = ActionView;

    open spec fn deep_view(&self) -> ActionView {
        match self {
            Action::ProbeOutgoingSequenceFlows(indices) => ActionView::ProbeOutgoingSequenceFlows(
                indices@,
            ),
            Action::Flow(indices) => ActionView::Flow(indices@),
            Action::Complete => ActionView::Complete,
        }
    }
}

impl View for Action {
    type V = ActionView;

    open spec fn view(&self) -> ActionView {
        self.deep_view()
    }
}

/// Outcome of polling a flow node once
#[derive(Debug, PartialEq, Eq)]
pub enum Poll {
    /// The node has nothing to say until something wakes it
    Pending,
    /// The node's next action; `None` ends its stream of actions
    Ready(Option<Action>),
}

/// Mathematical value of a [`Poll`]
pub enum PollView {
    Pending,
    Ready(Option<ActionView>),
}

impl DeepView for Poll {
    type V = PollView;

    open spec fn deep_view(&self) -> PollView {
        match self {
            Poll::Pending => PollView::Pending,
            Poll::Ready(action) => PollView::Ready(action.deep_view()),
        }
    }
}

impl View for Poll {
    type V = PollView;

    open spec fn view(&self) -> PollView {
        self.deep_view()
    }
}

/// Private state of a flow node, whichever kind it is
#[derive(Clone, Copy, Debug, PartialEq, Eq, Structural)]
pub enum State {
    StartEvent(start_event::State),
    EndEvent(end_event::State),
}

/// State handling errors
#[derive(Clone, Copy, Debug, PartialEq, Eq, Structural)]
pub enum StateError {
    /// The state belongs to another kind of flow node
    InvalidVariant,
}

/// What the scheduler asks of every kind of flow node.
///
/// Each method comes with a specification function of the same name behind
/// `spec_`, which says what the method returns and what the node is
/// afterwards. The scheduler's contracts are stated over those, and a kind
/// of node is held to them where it is verified.
///
/// The specification functions have bodies, for the kind of node that states
/// nothing of its own: such a node is made for no element, takes no notice
/// of what it is told, hands the actions of the nodes downstream on as they
/// are, has no state to set, and is pending for good. Of its description
/// and its state nothing is known.
pub trait FlowNode: Sized {
    /// Node for `element`, where the element is of this node's kind
    open spec fn spec_from_element(element: Arc<Element>) -> Option<Self> {
        None
    }

    /// Static description of the node: its identifier, and the names of its
    /// incoming and outgoing sequence flows
    open spec fn spec_element(&self) -> Arc<Element> {
        arbitrary()
    }

    open spec fn spec_set_process(&self) -> Self {
        *self
    }

    open spec fn spec_incoming(&self, index: usize) -> Self {
        *self
    }

    open spec fn spec_tokens(&self, count: usize) -> Self {
        *self
    }

    open spec fn spec_sequence_flow(
        &self,
        index: usize,
        sequence_flow: SequenceFlow,
        condition_result: bool,
    ) -> Self {
        *self
    }

    open spec fn spec_process_event(&self, event: ProcessEvent) -> Self {
        *self
    }

    /// The node afterwards, and what became of the action
    open spec fn spec_handle_outgoing_action(&self, index: usize, action: Option<ActionView>) -> (
        Self,
        Option<Option<ActionView>>,
    ) {
        (*self, Some(action))
    }

    open spec fn spec_set_state(&self, state: State) -> Result<Self, StateError> {
        Err(StateError::InvalidVariant)
    }

    open spec fn spec_get_state(&self) -> State {
        arbitrary()
    }

    /// The node afterwards, what the poll yields, and the events thrown
    open spec fn spec_poll_next(&self) -> (Self, PollView, Seq<ProcessEvent>) {
        (*self, PollView::Pending, Seq::empty())
    }

    /// Instantiates the node that `element` describes, if it is of this kind
    fn from_element(element: &Arc<Element>) -> (node: Option<Self>)
        ensures
            node == Self::spec_from_element(*element),
    ;

    /// Static description of the node
    fn element(&self) -> (element: Arc<Element>)
        ensures
            element == self.spec_element(),
    ;

    /// Attaches the node to its process: from here on the events it throws
    /// reach the process, and it may follow the events of the process
    fn set_process(&mut self)
        ensures
            *final(self) == old(self).spec_set_process(),
    ;

    /// Reports a token arriving on the incoming sequence flow at `index`
    fn incoming(&mut self, index: usize)
        ensures
            *final(self) == old(self).spec_incoming(index),
    ;

    /// Reports how many tokens have arrived at the node so far
    fn tokens(&mut self, count: usize)
        ensures
            *final(self) == old(self).spec_tokens(count),
    ;

    /// Reports what the condition of the outgoing sequence flow at `index`
    /// came to, after the node asked for it to be probed
    fn sequence_flow(&mut self, index: usize, sequence_flow: &SequenceFlow, condition_result: bool)
        ensures
            *final(self) == old(self).spec_sequence_flow(index, *sequence_flow, condition_result),
    ;

    /// Reports an event broadcast in the process
    fn process_event(&mut self, event: &ProcessEvent)
        ensures
            *final(self) == old(self).spec_process_event(*event),
    ;

    /// Shows the node the action of a node downstream, at the far end of the
    /// outgoing sequence flow at `index`. The node hands the action on as it
    /// is, puts another in its place, or drops it by returning `None`.
    fn handle_outgoing_action(&mut self, index: usize, action: Option<Action>) -> (handled: Option<
        Option<Action>,
    >)
        ensures
            *final(self) == old(self).spec_handle_outgoing_action(index, action.deep_view()).0,
            handled.deep_view() == old(self).spec_handle_outgoing_action(
                index,
                action.deep_view(),
            ).1,
    ;

    /// Puts the node into `state`, which has to be of the node's own kind
    fn set_state(&mut self, state: State) -> (set: Result<(), StateError>)
        ensures
            match old(self).spec_set_state(state) {
                Ok(node) => set is Ok && *final(self) == node,
                Err(error) => set == Err::<(), StateError>(error) && *final(self) == *old(self),
            },
    ;

    /// Private state of the node
    fn get_state(&self) -> (state: State)
        ensures
            state == self.spec_get_state(),
    ;

    /// Advances the node by one step. The events it throws meanwhile are
    /// appended to `events`.
    fn poll_next(&mut self, events: &mut Vec<ProcessEvent>) -> (poll: Poll)
        ensures
            *final(self) == old(self).spec_poll_next().0,
            poll.deep_view() == old(self).spec_poll_next().1,
            final(events)@ == old(events)@ + old(self).spec_poll_next().2,
    ;
}

/// Flow node of any of the kinds that can be executed
pub enum Node {
    StartEvent(StartEvent),
    EndEvent(EndEvent),
}

impl FlowNode for Node {
    open spec fn spec_from_element(element: Arc<Element>) -> Option<Self> {
        match StartEvent::spec_from_element(element) {
            Some(node) => Some(Node::StartEvent(node)),
            None => match EndEvent::spec_from_element(element) {
                Some(node) => Some(Node::EndEvent(node)),
                None => None,
            },
        }
    }

    open spec fn spec_element(&self) -> Arc<Element> {
        match self {
            Node::StartEvent(node) => node.spec_element(),
            Node::EndEvent(node) => node.spec_element(),
        }
    }

    open spec fn spec_set_process(&self) -> Self {
        match self {
            Node::StartEvent(node) => Node::StartEvent(node.spec_set_process()),
            Node::EndEvent(node) => Node::EndEvent(node.spec_set_process()),
        }
    }

    open spec fn spec_incoming(&self, index: usize) -> Self {
        match self {
            Node::StartEvent(node) => Node::StartEvent(node.spec_incoming(index)),
            Node::EndEvent(node) => Node::EndEvent(node.spec_incoming(index)),
        }
    }

    open spec fn spec_tokens(&self, count: usize) -> Self {
        match self {
            Node::StartEvent(node) => Node::StartEvent(node.spec_tokens(count)),
            Node::EndEvent(node) => Node::EndEvent(node.spec_tokens(count)),
        }
    }

    open spec fn spec_sequence_flow(
        &self,
        index: usize,
        sequence_flow: SequenceFlow,
        condition_result: bool,
    ) -> Self {
        match self {
            Node::StartEvent(node) => Node::StartEvent(
                node.spec_sequence_flow(index, sequence_flow, condition_result),
            ),
            Node::EndEvent(node) => Node::EndEvent(
                node.spec_sequence_flow(index, sequence_flow, condition_result),
            ),
        }
    }

    open spec fn spec_process_event(&self, event: ProcessEvent) -> Self {
        match self {
            Node::StartEvent(node) => Node::StartEvent(node.spec_process_event(event)),
            Node::EndEvent(node) => Node::EndEvent(node.spec_process_event(event)),
        }
    }

    open spec fn spec_handle_outgoing_action(&self, index: usize, action: Option<ActionView>) -> (
        Self,
        Option<Option<ActionView>>,
    ) {
        match self {
            Node::StartEvent(node) => {
                let (node, handled) = node.spec_handle_outgoing_action(index, action);
                (Node::StartEvent(node), handled)
            },
            Node::EndEvent(node) => {
                let (node, handled) = node.spec_handle_outgoing_action(index, action);
                (Node::EndEvent(node), handled)
            },
        }
    }

    open spec fn spec_set_state(&self, state: State) -> Result<Self, StateError> {
        match self {
            Node::StartEvent(node) => match node.spec_set_state(state) {
                Ok(node) => Ok(Node::StartEvent(node)),
                Err(error) => Err(error),
            },
            Node::EndEvent(node) => match node.spec_set_state(state) {
                Ok(node) => Ok(Node::EndEvent(node)),
                Err(error) => Err(error),
            },
        }
    }

    open spec fn spec_get_state(&self) -> State {
        match self {
            Node::StartEvent(node) => node.spec_get_state(),
            Node::EndEvent(node) => node.spec_get_state(),
        }
    }

    open spec fn spec_poll_next(&self) -> (Self, PollView, Seq<ProcessEvent>) {
        match self {
            Node::StartEvent(node) => {
                let (node, poll, thrown) = node.spec_poll_next();
                (Node::StartEvent(node), poll, thrown)
            },
            Node::EndEvent(node) => {
                let (node, poll, thrown) = node.spec_poll_next();
                (Node::EndEvent(node), poll, thrown)
            },
        }
    }

    fn from_element(element: &Arc<Element>) -> (node: Option<Self>) {
        match StartEvent::from_element(element) {
            Some(node) => Some(Node::StartEvent(node)),
            None => match EndEvent::from_element(element) {
                Some(node) => Some(Node::EndEvent(node)),
                None => None,
            },
        }
    }

    fn element(&self) -> (element: Arc<Element>) {
        match self {
            Node::StartEvent(node) => node.element(),
            Node::EndEvent(node) => node.element(),
        }
    }

    fn set_process(&mut self) {
        match self {
            Node::StartEvent(node) => node.set_process(),
            Node::EndEvent(node) => node.set_process(),
        }
    }

    fn incoming(&mut self, index: usize) {
        match self {
            Node::StartEvent(node) => node.incoming(index),
            Node::EndEvent(node) => node.incoming(index),
        }
    }

    fn tokens(&mut self, count: usize) {
        match self {
            Node::StartEvent(node) => node.tokens(count),
            Node::EndEvent(node) => node.tokens(count),
        }
    }

    fn sequence_flow(&mut self, index: usize, sequence_flow: &SequenceFlow, condition_result: bool) {
        match self {
            Node::StartEvent(node) => node.sequence_flow(index, sequence_flow, condition_result),
            Node::EndEvent(node) => node.sequence_flow(index, sequence_flow, condition_result),
        }
    }

    fn process_event(&mut self, event: &ProcessEvent) {
        match self {
            Node::StartEvent(node) => node.process_event(event),
            Node::EndEvent(node) => node.process_event(event),
        }
    }

    fn handle_outgoing_action(&mut self, index: usize, action: Option<Action>) -> (handled: Option<
        Option<Action>,
    >) {
        match self {
            Node::StartEvent(node) => node.handle_outgoing_action(index, action),
            Node::EndEvent(node) => node.handle_outgoing_action(index, action),
        }
    }

    fn set_state(&mut self, state: State) -> (set: Result<(), StateError>) {
        match self {
            Node::StartEvent(node) => node.set_state(state),
            Node::EndEvent(node) => node.set_state(state),
        }
    }

    fn get_state(&self) -> (state: State) {
        match self {
            Node::StartEvent(node) => node.get_state(),
            Node::EndEvent(node) => node.get_state(),
        }
    }

    fn poll_next(&mut self, events: &mut Vec<ProcessEvent>) -> (poll: Poll) {
        match self {
            Node::StartEvent(node) => node.poll_next(events),
            Node::EndEvent(node) => node.poll_next(events),
        }
    }
}

/// Putting a node into the state it reports leaves it as it is, whichever
/// kind it is.
pub proof fn state_round_trip(node: Node)
    ensures
        node.spec_set_state(node.spec_get_state()) == Ok::<Node, StateError>(node),
{
}

/// None of the kinds of node here meddles with the actions of the nodes
/// downstream: each hands the action on as it is and stays as it was.
pub proof fn outgoing_actions_pass(node: Node, index: usize, action: Option<ActionView>)
    ensures
        node.spec_handle_outgoing_action(index, action) == (node, Some(action)),
{
}

} // verus!
