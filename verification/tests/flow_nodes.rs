use bpxe::bpmn::{
    find_position, Element, ElementKind, FlowElement, Process, SequenceFlow,
};
use bpxe::event::{end_event, start_event, EndEvent, ProcessEvent, StartEvent};
use bpxe::flow_node::{Action, FlowNode, Node, Poll, State, StateError};
use std::sync::Arc;

fn description(kind: ElementKind, outgoings: &[&str]) -> Element {
    Element {
        id: Some("n".to_string()),
        incomings: vec!["in".to_string()],
        outgoings: outgoings.iter().map(|s| s.to_string()).collect(),
        kind,
    }
}

fn element(kind: ElementKind, outgoings: &[&str]) -> Arc<Element> {
    Arc::new(description(kind, outgoings))
}

fn some_flow() -> SequenceFlow {
    SequenceFlow {
        id: Some("f".to_string()),
        source_ref: "a".to_string(),
        target_ref: "b".to_string(),
        condition_expression: None,
    }
}

#[test]
fn end_event_waits_for_a_token() {
    let mut end = EndEvent::new(description(ElementKind::EndEvent, &[]));
    let mut events = vec![];

    assert_eq!(end.get_state(), State::EndEvent(end_event::State::Ready));
    assert_eq!(end.poll_next(&mut events), Poll::Pending);
    assert_eq!(end.poll_next(&mut events), Poll::Pending);
    assert_eq!(end.get_state(), State::EndEvent(end_event::State::Ready));
    assert!(events.is_empty());
}

#[test]
fn end_event_completes_on_any_incoming_and_throws_end() {
    let mut end = EndEvent::new(description(ElementKind::EndEvent, &[]));
    end.set_process();
    let mut events = vec![];

    end.incoming(17);
    assert_eq!(end.get_state(), State::EndEvent(end_event::State::Complete));
    assert_eq!(end.poll_next(&mut events), Poll::Ready(Some(Action::Complete)));
    assert_eq!(events, vec![ProcessEvent::End]);
    assert_eq!(end.get_state(), State::EndEvent(end_event::State::Done));

    // end means end
    assert_eq!(end.poll_next(&mut events), Poll::Pending);
    assert_eq!(end.poll_next(&mut events), Poll::Pending);
    assert_eq!(events, vec![ProcessEvent::End]);
}

#[test]
fn end_event_without_process_throws_nothing() {
    let mut end = EndEvent::new(description(ElementKind::EndEvent, &[]));
    let mut events = vec![ProcessEvent::Start];

    end.incoming(0);
    assert_eq!(end.poll_next(&mut events), Poll::Ready(Some(Action::Complete)));
    assert_eq!(events, vec![ProcessEvent::Start]);
}

#[test]
fn end_event_state_round_trip() {
    for state in [end_event::State::Ready, end_event::State::Complete, end_event::State::Done] {
        let mut end = EndEvent::new(description(ElementKind::EndEvent, &[]));
        assert_eq!(end.set_state(State::EndEvent(state)), Ok(()));
        assert_eq!(end.get_state(), State::EndEvent(state));
        let got = end.get_state();
        assert_eq!(end.set_state(got), Ok(()));
        assert_eq!(end.get_state(), State::EndEvent(state));
    }
}

#[test]
fn end_event_refuses_the_state_of_another_kind() {
    let mut end = EndEvent::new(description(ElementKind::EndEvent, &[]));
    end.incoming(0);
    assert_eq!(
        end.set_state(State::StartEvent(start_event::State::Done)),
        Err(StateError::InvalidVariant)
    );
    assert_eq!(end.get_state(), State::EndEvent(end_event::State::Complete));
}

#[test]
fn end_event_ignores_what_does_not_concern_it() {
    let mut end = EndEvent::new(description(ElementKind::EndEvent, &[]));
    end.tokens(4);
    end.sequence_flow(0, &some_flow(), true);
    end.process_event(&ProcessEvent::Start);
    assert_eq!(end.get_state(), State::EndEvent(end_event::State::Ready));
    assert_eq!(
        end.handle_outgoing_action(0, Some(Action::Flow(vec![1, 2]))),
        Some(Some(Action::Flow(vec![1, 2])))
    );
    assert_eq!(end.handle_outgoing_action(3, None), Some(None));
}

#[test]
fn end_event_from_element() {
    let end = EndEvent::from(description(ElementKind::EndEvent, &[]));
    assert_eq!(end.state, end_event::State::Ready);
    assert!(!end.attached);
    assert_eq!(end.element(), element(ElementKind::EndEvent, &[]));

    assert!(EndEvent::from_element(&element(ElementKind::EndEvent, &[])).is_some());
    assert!(EndEvent::from_element(&element(ElementKind::StartEvent, &[])).is_none());
    assert!(EndEvent::from_element(&element(ElementKind::Other, &[])).is_none());
}

#[test]
fn start_event_waits_for_start() {
    let mut start = StartEvent::new(description(ElementKind::StartEvent, &["a", "b", "c"]));
    start.set_process();
    let mut events = vec![];

    assert_eq!(start.poll_next(&mut events), Poll::Pending);
    start.process_event(&ProcessEvent::End);
    start.process_event(&ProcessEvent::NoneEvent);
    assert_eq!(start.poll_next(&mut events), Poll::Pending);

    start.process_event(&ProcessEvent::Start);
    assert_eq!(start.poll_next(&mut events), Poll::Ready(Some(Action::Flow(vec![0, 1, 2]))));
    assert_eq!(start.get_state(), State::StartEvent(start_event::State::Complete));
    assert_eq!(start.poll_next(&mut events), Poll::Ready(Some(Action::Complete)));
    assert_eq!(start.get_state(), State::StartEvent(start_event::State::Done));
    assert_eq!(start.poll_next(&mut events), Poll::Ready(None));
    assert_eq!(start.poll_next(&mut events), Poll::Ready(None));
    assert!(events.is_empty());
}

#[test]
fn start_event_without_outgoings_flows_nowhere() {
    let mut start = StartEvent::new(description(ElementKind::StartEvent, &[]));
    start.set_process();
    start.process_event(&ProcessEvent::Start);
    assert_eq!(start.poll_next(&mut vec![]), Poll::Ready(Some(Action::Flow(vec![]))));
}

#[test]
fn start_event_that_is_not_subscribed_hears_nothing() {
    let mut start = StartEvent::new(description(ElementKind::StartEvent, &["a"]));
    start.process_event(&ProcessEvent::Start);
    assert_eq!(start.poll_next(&mut vec![]), Poll::Pending);
}

#[test]
fn start_event_ignores_further_starts() {
    let mut start = StartEvent::new(description(ElementKind::StartEvent, &["a"]));
    start.set_process();
    start.process_event(&ProcessEvent::Start);
    start.process_event(&ProcessEvent::Start);
    assert_eq!(start.poll_next(&mut vec![]), Poll::Ready(Some(Action::Flow(vec![0]))));
    start.process_event(&ProcessEvent::Start);
    assert!(!start.started);
    assert_eq!(start.poll_next(&mut vec![]), Poll::Ready(Some(Action::Complete)));
    start.process_event(&ProcessEvent::Start);
    assert_eq!(start.poll_next(&mut vec![]), Poll::Ready(None));
    assert!(!start.started);
}

#[test]
fn start_event_state_round_trip() {
    for state in [start_event::State::Ready, start_event::State::Complete, start_event::State::Done]
    {
        let mut start = StartEvent::new(description(ElementKind::StartEvent, &[]));
        assert_eq!(start.set_state(State::StartEvent(state)), Ok(()));
        let got = start.get_state();
        assert_eq!(got, State::StartEvent(state));
        assert_eq!(start.set_state(got), Ok(()));
        assert_eq!(start.get_state(), State::StartEvent(state));
    }
    let mut start = StartEvent::new(description(ElementKind::StartEvent, &[]));
    assert_eq!(
        start.set_state(State::EndEvent(end_event::State::Ready)),
        Err(StateError::InvalidVariant)
    );
    assert_eq!(start.get_state(), State::StartEvent(start_event::State::Ready));
}

#[test]
fn start_event_from_element() {
    let start = StartEvent::from(description(ElementKind::StartEvent, &["a"]));
    assert_eq!(start.state, start_event::State::Ready);
    assert!(!start.subscribed);
    assert!(!start.started);
    assert!(StartEvent::from_element(&element(ElementKind::StartEvent, &[])).is_some());
    assert!(StartEvent::from_element(&element(ElementKind::EndEvent, &[])).is_none());
}

#[test]
fn node_is_made_for_the_kinds_that_run() {
    assert!(matches!(
        Node::from_element(&element(ElementKind::StartEvent, &[])),
        Some(Node::StartEvent(_))
    ));
    assert!(matches!(
        Node::from_element(&element(ElementKind::EndEvent, &[])),
        Some(Node::EndEvent(_))
    ));
    assert!(Node::from_element(&element(ElementKind::IntermediateThrowEvent, &[])).is_none());
    assert!(Node::from_element(&element(ElementKind::Other, &[])).is_none());
}

#[test]
fn node_behaves_as_its_kind() {
    let mut node = Node::from_element(&element(ElementKind::EndEvent, &[])).unwrap();
    let mut events = vec![];
    node.set_process();
    assert_eq!(node.element(), element(ElementKind::EndEvent, &[]));
    assert_eq!(node.poll_next(&mut events), Poll::Pending);
    node.tokens(1);
    node.incoming(0);
    assert_eq!(node.poll_next(&mut events), Poll::Ready(Some(Action::Complete)));
    assert_eq!(events, vec![ProcessEvent::End]);
    assert_eq!(node.get_state(), State::EndEvent(end_event::State::Done));
    assert_eq!(
        node.set_state(State::StartEvent(start_event::State::Ready)),
        Err(StateError::InvalidVariant)
    );
    assert_eq!(node.set_state(State::EndEvent(end_event::State::Ready)), Ok(()));
    assert_eq!(node.handle_outgoing_action(0, Some(Action::Complete)), Some(Some(Action::Complete)));

    let mut node = Node::from_element(&element(ElementKind::StartEvent, &["x"])).unwrap();
    node.set_process();
    node.process_event(&ProcessEvent::Start);
    node.sequence_flow(0, &some_flow(), false);
    assert_eq!(node.poll_next(&mut events), Poll::Ready(Some(Action::Flow(vec![0]))));
    let state = node.get_state();
    assert_eq!(node.set_state(state), Ok(()));
    assert_eq!(node.get_state(), State::StartEvent(start_event::State::Complete));
}

#[test]
fn position_is_that_of_the_first_occurrence() {
    let names: Vec<String> = ["a", "b", "a", "c"].iter().map(|s| s.to_string()).collect();
    assert_eq!(find_position(&names, &"a".to_string()), Some(0));
    assert_eq!(find_position(&names, &"b".to_string()), Some(1));
    assert_eq!(find_position(&names, &"c".to_string()), Some(3));
    assert_eq!(find_position(&names, &"d".to_string()), None);
    assert_eq!(find_position(&vec![], &"a".to_string()), None);
}

#[test]
fn sequence_flow_is_found_by_identifier() {
    let flow = Arc::new(some_flow());
    let nameless = Arc::new(SequenceFlow { id: None, ..some_flow() });
    let process = Process {
        id: Some("f".to_string()),
        flow_elements: vec![
            FlowElement::SequenceFlow(nameless),
            FlowElement::FlowNode(element(ElementKind::EndEvent, &[])),
            FlowElement::SequenceFlow(flow.clone()),
            FlowElement::SequenceFlow(Arc::new(SequenceFlow {
                target_ref: "elsewhere".to_string(),
                ..some_flow()
            })),
        ],
    };
    assert_eq!(process.find_sequence_flow(&"f".to_string()), Some(flow));
    // the first element by that name is a flow node
    assert_eq!(process.find_sequence_flow(&"n".to_string()), None);
    assert_eq!(process.find_sequence_flow(&"g".to_string()), None);
    assert_eq!(process.find_sequence_flow(&"".to_string()), None);

    assert!(process.has_kind(ElementKind::EndEvent));
    assert!(!process.has_kind(ElementKind::StartEvent));
    assert!(process.flow_elements[1].is(ElementKind::EndEvent));
    assert!(!process.flow_elements[0].is(ElementKind::EndEvent));
    assert_eq!(process.flow_elements[2].id(), &Some("f".to_string()));
}

#[test]
fn end_event_that_is_done_takes_no_notice_of_a_later_token() {
    let mut end = EndEvent::new(description(ElementKind::EndEvent, &[]));
    end.set_process();
    let mut events = vec![];

    end.incoming(0);
    assert_eq!(end.poll_next(&mut events), Poll::Ready(Some(Action::Complete)));
    assert_eq!(end.get_state(), State::EndEvent(end_event::State::Done));

    end.incoming(1);
    assert_eq!(end.get_state(), State::EndEvent(end_event::State::Done));
    assert_eq!(end.poll_next(&mut events), Poll::Pending);
    end.incoming(0);
    assert_eq!(end.poll_next(&mut events), Poll::Pending);
    assert_eq!(end.get_state(), State::EndEvent(end_event::State::Done));
    assert_eq!(events, vec![ProcessEvent::End]);
}

#[test]
fn end_event_completes_once_for_tokens_that_arrive_together() {
    let mut end = EndEvent::new(description(ElementKind::EndEvent, &[]));
    end.set_process();
    let mut events = vec![];

    end.incoming(0);
    end.incoming(1);
    assert_eq!(end.get_state(), State::EndEvent(end_event::State::Complete));
    assert_eq!(end.poll_next(&mut events), Poll::Ready(Some(Action::Complete)));
    assert_eq!(end.poll_next(&mut events), Poll::Pending);
    assert_eq!(events, vec![ProcessEvent::End]);
}

#[test]
fn node_that_is_done_takes_no_notice_of_a_later_token() {
    let mut node = Node::from_element(&element(ElementKind::EndEvent, &[])).unwrap();
    node.set_process();
    let mut events = vec![];
    node.incoming(0);
    assert_eq!(node.poll_next(&mut events), Poll::Ready(Some(Action::Complete)));
    node.incoming(0);
    assert_eq!(node.get_state(), State::EndEvent(end_event::State::Done));
    assert_eq!(node.poll_next(&mut events), Poll::Pending);
    assert_eq!(events, vec![ProcessEvent::End]);
}
