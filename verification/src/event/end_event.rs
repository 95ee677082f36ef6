//! # End Event flow node
use crate::bpmn::{Element, ElementKind, SequenceFlow};
use crate::event::ProcessEvent;
use crate::flow_node::{self, Action, ActionView, FlowNode, Poll, PollView};
use std::sync::Arc;
use vstd::prelude::*;

verus! {

/// End Event flow node
pub struct EndEvent {
    pub element: Arc<Element>,
    pub state: State,
    /// Whether the node has a process to throw its event to
    pub attached: bool,
}

/// Node state
#[derive(Clone, Copy, Debug, PartialEq, Eq, Structural)]
pub enum State {
    Ready,
    Complete,
    Done,
}

impl EndEvent {
    /// Creates new End Event flow node
    pub fn new(element: Element) -> (node: Self)
        ensures
            node == (EndEvent { element: Arc::new(element), state: State::Ready, attached: false }),
    {
        Self { element: Arc::new(element), state: State::Ready, attached: false }
    }
}

impl FlowNode for EndEvent {
    open spec fn spec_from_element(element: Arc<Element>) -> Option<Self> {
        if element.kind == ElementKind::EndEvent {
            Some(EndEvent { element, state: State::Ready, attached: false })
        } else {
            None
        }
    }

    open spec fn spec_element(&self) -> Arc<Element> {
        self.element
    }

    open spec fn spec_set_process(&self) -> Self {
        EndEvent { attached: true, ..*self }
    }

    /// The first token to arrive completes an end event, on whichever
    /// incoming sequence flow it comes; a later one changes nothing
    open spec fn spec_incoming(&self, index: usize) -> Self {
        if self.state == State::Ready {
            EndEvent { state: State::Complete, ..*self }
        } else {
            *self
        }
    }

    open spec fn spec_set_state(&self, state: flow_node::State) -> Result<
        Self,
        flow_node::StateError,
    > {
        match state {
            flow_node::State::EndEvent(state) => Ok(EndEvent { state, ..*self }),
            _ => Err(flow_node::StateError::InvalidVariant),
        }
    }

    open spec fn spec_get_state(&self) -> flow_node::State {
        flow_node::State::EndEvent(self.state)
    }

    /// A completed end event throws `End` once, where it has a process to
    /// throw it to, and reports `Complete`; before and after it is pending
    open spec fn spec_poll_next(&self) -> (Self, PollView, Seq<ProcessEvent>) {
        match self.state {
            State::Ready => (*self, PollView::Pending, Seq::empty()),
            State::Complete => (
                EndEvent { state: State::Done, ..*self },
                PollView::Ready(Some(ActionView::Complete)),
                if self.attached {
                    seq![ProcessEvent::End]
                } else {
                    Seq::empty()
                },
            ),
            State::Done => (*self, PollView::Pending, Seq::empty()),
        }
    }

    fn from_element(element: &Arc<Element>) -> (node: Option<Self>) {
        match element.kind {
            ElementKind::EndEvent => Some(
                EndEvent { element: element.clone(), state: State::Ready, attached: false },
            ),
            _ => None,
        }
    }

    fn element(&self) -> (element: Arc<Element>) {
        self.element.clone()
    }

    fn set_process(&mut self) {
        self.attached = true;
    }

    fn incoming(&mut self, _index: usize) {
        match self.state {
            State::Ready => {
                self.state = State::Complete;
            },
            // an end event completes once: end means end
            _ => {},
        }
    }

    fn tokens(&mut self, _count: usize) {
    }

    fn sequence_flow(
        &mut self,
        _index: usize,
        _sequence_flow: &SequenceFlow,
        _condition_result: bool,
    ) {
    }

    fn process_event(&mut self, _event: &ProcessEvent) {
    }

    fn handle_outgoing_action(&mut self, _index: usize, action: Option<Action>) -> (handled: Option<
        Option<Action>,
    >) {
        Some(action)
    }

    fn set_state(&mut self, state: flow_node::State) -> (set: Result<(), flow_node::StateError>) {
        match state {
            flow_node::State::EndEvent(state) => {
                self.state = state;
                Ok(())
            },
            _ => Err(flow_node::StateError::InvalidVariant),
        }
    }

    fn get_state(&self) -> (state: flow_node::State) {
        flow_node::State::EndEvent(self.state)
    }

    fn poll_next(&mut self, events: &mut Vec<ProcessEvent>) -> (poll: Poll) {
        match self.state {
            State::Ready => Poll::Pending,
            State::Complete => {
                self.state = State::Done;
                if self.attached {
                    events.push(ProcessEvent::End);
                }
                Poll::Ready(Some(Action::Complete))
            },
            // No token wakes an end event up from this state
            State::Done => Poll::Pending,
        }
    }
}

impl From<Element> for EndEvent {
    fn from(element: Element) -> (node: Self) {
        Self::new(element)
    }
}

impl vstd::std_specs::convert::FromSpecImpl<Element> for EndEvent {
    open spec fn obeys_from_spec() -> bool {
        true
    }

    open spec fn from_spec(element: Element) -> Self {
        EndEvent { element: Arc::new(element), state: State::Ready, attached: false }
    }
}

/// What an end event is asked in the course of a run: the calls that reach
/// it come in an order that no one fixes
pub enum Call {
    /// A token arrives on the incoming sequence flow at this index
    Incoming(usize),
    /// The node is polled
    Poll,
}

/// How far an end event has come
pub open spec fn progress(state: State) -> int {
    match state {
        State::Ready => 0,
        State::Complete => 1,
        State::Done => 2,
    }
}

/// Whether a poll of `node` yields `Complete`
pub open spec fn completes(node: EndEvent) -> bool {
    node.spec_poll_next().1 == PollView::Ready(Some(ActionView::Complete))
}

/// The end event after the first `upto` of `calls`
pub open spec fn after_calls(node: EndEvent, calls: Seq<Call>, upto: int) -> EndEvent
    decreases upto,
{
    if upto <= 0 {
        node
    } else {
        let before = after_calls(node, calls, upto - 1);
        match calls[upto - 1] {
            Call::Incoming(index) => before.spec_incoming(index),
            Call::Poll => before.spec_poll_next().0,
        }
    }
}

/// How many of the first `upto` of `calls` are polls that yield `Complete`
pub open spec fn completions(node: EndEvent, calls: Seq<Call>, upto: int) -> nat
    decreases upto,
{
    if upto <= 0 {
        0
    } else {
        let before = after_calls(node, calls, upto - 1);
        let earlier = completions(node, calls, upto - 1);
        if calls[upto - 1] is Poll && completes(before) {
            earlier + 1
        } else {
            earlier
        }
    }
}

/// The events thrown in the first `upto` of `calls`, in their order
pub open spec fn thrown(node: EndEvent, calls: Seq<Call>, upto: int) -> Seq<ProcessEvent>
    decreases upto,
{
    if upto <= 0 {
        Seq::empty()
    } else {
        let before = after_calls(node, calls, upto - 1);
        let earlier = thrown(node, calls, upto - 1);
        match calls[upto - 1] {
            Call::Incoming(_) => earlier,
            Call::Poll => earlier + before.spec_poll_next().2,
        }
    }
}

/// An end event completes at most once, in whatever order tokens arrive and
/// the node is polled: at most one poll yields `Complete`, and `End` is
/// thrown with that poll and with no other, where the node has a process to
/// throw it to. The node never falls back: once done, it is done for good.
pub proof fn completes_at_most_once(node: EndEvent, calls: Seq<Call>, upto: int)
    requires
        0 <= upto <= calls.len(),
    ensures
        completions(node, calls, upto) <= 1,
        thrown(node, calls, upto) == if node.attached && completions(node, calls, upto) == 1 {
            seq![ProcessEvent::End]
        } else {
            Seq::<ProcessEvent>::empty()
        },
        progress(node.state) <= progress(after_calls(node, calls, upto).state),
        completions(node, calls, upto) == 1 <==> node.state != State::Done && after_calls(
            node,
            calls,
            upto,
        ).state == State::Done,
        after_calls(node, calls, upto) == (EndEvent {
            state: after_calls(node, calls, upto).state,
            ..node
        }),
    decreases upto,
{
    if upto > 0 {
        completes_at_most_once(node, calls, upto - 1);
        let before = after_calls(node, calls, upto - 1);
        let earlier = thrown(node, calls, upto - 1);
        assert(earlier + before.spec_poll_next().2 =~= if before.state == State::Complete
            && before.attached {
            earlier.push(ProcessEvent::End)
        } else {
            earlier
        });
        assert(Seq::<ProcessEvent>::empty().push(ProcessEvent::End) =~= seq![ProcessEvent::End]);
    }
}

/// Nothing that happens to an end event later takes back what has happened:
/// its progress and the number of its completions only go up.
pub proof fn calls_only_add(node: EndEvent, calls: Seq<Call>, earlier: int, later: int)
    requires
        0 <= earlier <= later <= calls.len(),
    ensures
        progress(after_calls(node, calls, earlier).state) <= progress(
            after_calls(node, calls, later).state,
        ),
        completions(node, calls, earlier) <= completions(node, calls, later),
    decreases later - earlier,
{
    if earlier < later {
        calls_only_add(node, calls, earlier, later - 1);
    }
}

/// An end event that starts out ready, and is polled at some time after a
/// token has arrived, completes exactly once, however many tokens arrive and
/// however often it is polled, before, between and after: one poll in all
/// yields `Complete`, and `End` is thrown once where the node has a process
/// to throw it to.
pub proof fn completes_exactly_once(node: EndEvent, calls: Seq<Call>, arrival: int, poll: int)
    requires
        node.state == State::Ready,
        0 <= arrival < poll < calls.len(),
        calls[arrival] is Incoming,
        calls[poll] is Poll,
    ensures
        completions(node, calls, calls.len() as int) == 1,
        after_calls(node, calls, calls.len() as int).state == State::Done,
        thrown(node, calls, calls.len() as int) == if node.attached {
            seq![ProcessEvent::End]
        } else {
            Seq::<ProcessEvent>::empty()
        },
{
    // the token leaves the node completed at least
    completes_at_most_once(node, calls, arrival);
    assert(progress(after_calls(node, calls, arrival + 1).state) >= 1);
    calls_only_add(node, calls, arrival + 1, poll);
    // the poll leaves it done
    assert(after_calls(node, calls, poll + 1).state == State::Done);
    calls_only_add(node, calls, poll + 1, calls.len() as int);
    completes_at_most_once(node, calls, calls.len() as int);
}

/// A token that arrives at an end event which has completed, or is done,
/// changes nothing.
pub proof fn later_token_changes_nothing(node: EndEvent, index: usize)
    requires
        node.state != State::Ready,
    ensures
        node.spec_incoming(index) == node,
{
}

/// Putting an end event into the state it reports leaves it as it is.
pub proof fn state_round_trip(node: EndEvent)
    ensures
        node.spec_set_state(node.spec_get_state()) == Ok::<EndEvent, flow_node::StateError>(node),
{
}

/// A state of another kind of node is refused, and no other is.
pub proof fn set_state_refuses_other_kinds(node: EndEvent, state: flow_node::State)
    ensures
        node.spec_set_state(state) is Err <==> !(state is EndEvent),
{
}

} // verus!
