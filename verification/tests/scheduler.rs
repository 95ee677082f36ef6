use bpxe::bpmn::{
    Element, ElementKind, Expr, FlowElement, FormalExpression, Process, SequenceFlow,
};
use bpxe::event::{end_event, start_event, ProcessEvent};
use bpxe::flow_node::{FlowNode, Node, State};
use bpxe::language::ExpressionEvaluator;
use bpxe::process::{Log, Reply, Request, Scheduler, StartError};
use std::sync::Arc;

/// Evaluator of the two truth values written out; anything else is an error
struct Literals;

impl ExpressionEvaluator for Literals {
    fn eval_expr(&self, _language: Option<&String>, content: &String) -> Result<bool, String> {
        match content.as_str() {
            "true" => Ok(true),
            "false" => Ok(false),
            other => Err(format!("cannot evaluate {:?}", other)),
        }
    }
}

fn node(kind: ElementKind, id: &str, incomings: &[&str], outgoings: &[&str]) -> Arc<Element> {
    Arc::new(Element {
        id: Some(id.to_string()),
        incomings: incomings.iter().map(|s| s.to_string()).collect(),
        outgoings: outgoings.iter().map(|s| s.to_string()).collect(),
        kind,
    })
}

fn flow(id: &str, source: &str, target: &str, condition: Option<&str>) -> FlowElement {
    FlowElement::SequenceFlow(Arc::new(SequenceFlow {
        id: Some(id.to_string()),
        source_ref: source.to_string(),
        target_ref: target.to_string(),
        condition_expression: condition.map(|content| {
            Expr::FormalExpression(FormalExpression {
                language: None,
                content: Some(content.to_string()),
            })
        }),
    }))
}

/// `StartEvent("s") --s1--> EndEvent("e")`, with an optional condition on `s1`
fn start_to_end(condition: Option<&str>) -> (Process, Arc<Element>, Arc<Element>) {
    let start = node(ElementKind::StartEvent, "s", &[], &["s1"]);
    let end = node(ElementKind::EndEvent, "e", &["s1"], &[]);
    let process = Process {
        id: Some("proc1".to_string()),
        flow_elements: vec![
            FlowElement::FlowNode(start.clone()),
            FlowElement::FlowNode(end.clone()),
            flow("s1", "s", "e", condition),
        ],
    };
    (process, start, end)
}

/// Gives every flow node a turn, again and again, until none has an action
fn settle_down(scheduler: &mut Scheduler<Node, u64>) {
    loop {
        let mut acted = false;
        for producer in 0..scheduler.flow_nodes.len() {
            acted |= scheduler.turn(&Literals, producer);
        }
        if !acted {
            break;
        }
    }
}

#[test]
fn start_throws_event() {
    let start = node(ElementKind::StartEvent, "start", &[], &["s1"]);
    let end = node(ElementKind::EndEvent, "end", &["s1"], &[]);
    let proc1 = Process {
        id: Some("proc1".to_string()),
        flow_elements: vec![
            FlowElement::FlowNode(start),
            FlowElement::FlowNode(end),
            flow("s1", "start", "end", None),
        ],
    };
    let mut scheduler: Scheduler<Node, u64> = Scheduler::new(proc1, None);

    assert!(matches!(scheduler.receive(Some(Request::Start)), Reply::Started(Ok(()))));
    settle_down(&mut scheduler);

    assert!(scheduler.events.iter().any(|e| matches!(e, ProcessEvent::End)));
}

#[test]
fn construction_makes_a_record_for_each_known_node() {
    let (mut process, _, _) = start_to_end(None);
    process.flow_elements.push(FlowElement::FlowNode(node(ElementKind::Other, "t", &[], &[])));
    process.flow_elements.push(FlowElement::FlowNode(Arc::new(Element {
        id: None,
        incomings: vec![],
        outgoings: vec![],
        kind: ElementKind::EndEvent,
    })));
    let scheduler: Scheduler<Node, u64> = Scheduler::new(process, None);

    assert_eq!(scheduler.flow_nodes.len(), 3);
    assert_eq!(scheduler.flow_nodes[0].id, Some("s".to_string()));
    assert_eq!(scheduler.flow_nodes[1].id, Some("e".to_string()));
    assert_eq!(scheduler.flow_nodes[2].id, None);
    for record in scheduler.flow_nodes.iter() {
        assert_eq!(record.tokens, 0);
        assert!(record.scheduled);
    }
    assert!(matches!(&scheduler.flow_nodes[0].node, Node::StartEvent(n) if n.subscribed));
    assert!(matches!(&scheduler.flow_nodes[1].node, Node::EndEvent(n) if n.attached));
    assert!(scheduler.log.is_empty());
    assert!(scheduler.events.is_empty());
    assert!(!scheduler.terminated);
}

#[test]
fn start_without_start_event_is_refused() {
    let end = node(ElementKind::EndEvent, "e", &[], &[]);
    let process = Process { id: None, flow_elements: vec![FlowElement::FlowNode(end)] };
    let mut scheduler: Scheduler<Node, u64> = Scheduler::new(process, None);

    assert_eq!(
        scheduler.receive(Some(Request::Start)),
        Reply::Started(Err(StartError::NoStartEvent))
    );
    assert!(scheduler.events.is_empty());
    assert_eq!(scheduler.start(), Err(StartError::NoStartEvent));
    assert!(scheduler.events.is_empty());
}

#[test]
fn minimal_start_to_end() {
    let (process, start, end) = start_to_end(None);
    let mut scheduler: Scheduler<Node, u64> = Scheduler::new(process, None);

    assert_eq!(scheduler.receive(Some(Request::Start)), Reply::Started(Ok(())));
    assert_eq!(scheduler.events, vec![ProcessEvent::Start]);

    // the start event sends its token
    assert!(scheduler.turn(&Literals, 0));
    assert_eq!(
        scheduler.log,
        vec![Log::FlowNodeIncoming { node: end.clone(), incoming_index: 0 }]
    );
    assert_eq!(scheduler.flow_nodes[1].tokens, 1);
    assert_eq!(scheduler.flow_nodes[1].node.get_state(), State::EndEvent(end_event::State::Complete));

    // the end event completes and throws `End`
    assert!(scheduler.turn(&Literals, 1));
    assert_eq!(scheduler.events, vec![ProcessEvent::Start, ProcessEvent::End]);
    assert_eq!(
        scheduler.log,
        vec![
            Log::FlowNodeIncoming { node: end.clone(), incoming_index: 0 },
            Log::FlowNodeCompleted { node: end.clone() },
        ]
    );

    // the start event completes, then its stream ends
    assert!(scheduler.turn(&Literals, 0));
    assert_eq!(scheduler.log.last(), Some(&Log::FlowNodeCompleted { node: start.clone() }));
    assert!(scheduler.turn(&Literals, 0));
    assert!(!scheduler.flow_nodes[0].scheduled);
    assert!(scheduler.flow_nodes[1].scheduled);

    // an end event stays pending for good, so the process is never out of nodes
    settle_down(&mut scheduler);
    assert_eq!(scheduler.log.len(), 3);
    assert!(!scheduler.log.contains(&Log::Done));
    assert_eq!(scheduler.events.len(), 2);
}

#[test]
fn guarded_true_edge() {
    let (process, _, end) = start_to_end(Some("true"));
    let mut scheduler: Scheduler<Node, u64> = Scheduler::new(process, None);

    assert_eq!(scheduler.receive(Some(Request::Start)), Reply::Started(Ok(())));
    assert!(scheduler.turn(&Literals, 0));
    assert!(scheduler.turn(&Literals, 1));

    assert_eq!(scheduler.events, vec![ProcessEvent::Start, ProcessEvent::End]);
    assert_eq!(
        scheduler.log,
        vec![
            Log::FlowNodeIncoming { node: end.clone(), incoming_index: 0 },
            Log::FlowNodeCompleted { node: end.clone() },
        ]
    );
}

#[test]
fn guarded_false_edge() {
    let (process, start, _) = start_to_end(Some("false"));
    let mut scheduler: Scheduler<Node, u64> = Scheduler::new(process, None);

    assert_eq!(scheduler.receive(Some(Request::Start)), Reply::Started(Ok(())));
    settle_down(&mut scheduler);

    assert_eq!(scheduler.events, vec![ProcessEvent::Start]);
    assert_eq!(scheduler.log, vec![Log::FlowNodeCompleted { node: start }]);
    assert_eq!(scheduler.flow_nodes[1].tokens, 0);
    assert_eq!(scheduler.flow_nodes[1].node.get_state(), State::EndEvent(end_event::State::Ready));
}

#[test]
fn expression_error_is_logged_once_and_counts_as_false() {
    let (process, _, _) = start_to_end(Some("1 +"));
    let mut scheduler: Scheduler<Node, u64> = Scheduler::new(process, None);

    assert_eq!(scheduler.receive(Some(Request::Start)), Reply::Started(Ok(())));
    settle_down(&mut scheduler);

    let errors: Vec<&Log> =
        scheduler.log.iter().filter(|entry| matches!(entry, Log::ExpressionError { .. })).collect();
    assert_eq!(errors, vec![&Log::ExpressionError { error: "cannot evaluate \"1 +\"".to_string() }]);
    assert!(!scheduler.log.iter().any(|entry| matches!(entry, Log::FlowNodeIncoming { .. })));
    assert_eq!(scheduler.events, vec![ProcessEvent::Start]);
    assert_eq!(scheduler.flow_nodes[1].node.get_state(), State::EndEvent(end_event::State::Ready));
}

#[test]
fn conclude_goes_by_the_evaluation() {
    let (process, _, _) = start_to_end(None);
    let mut scheduler: Scheduler<Node, u64> = Scheduler::new(process, None);

    assert!(scheduler.conclude(Ok(true)));
    assert!(!scheduler.conclude(Ok(false)));
    assert!(scheduler.log.is_empty());
    assert!(!scheduler.conclude(Err("no such variable".to_string())));
    assert_eq!(scheduler.log, vec![Log::ExpressionError { error: "no such variable".to_string() }]);
}

#[test]
fn condition_is_evaluated_in_its_own_language_or_the_default() {
    struct Rhai;
    impl ExpressionEvaluator for Rhai {
        fn eval_expr(&self, language: Option<&String>, _content: &String) -> Result<bool, String> {
            match language {
                Some(language) => Ok(language == "rhai"),
                None => Err("no language".to_string()),
            }
        }
    }
    let guarded = |language: Option<&str>| SequenceFlow {
        id: Some("s1".to_string()),
        source_ref: "s".to_string(),
        target_ref: "e".to_string(),
        condition_expression: Some(Expr::FormalExpression(FormalExpression {
            language: language.map(|l| l.to_string()),
            content: Some("x".to_string()),
        })),
    };
    let (process, _, _) = start_to_end(None);
    let mut scheduler: Scheduler<Node, u64> = Scheduler::new(process, Some("rhai".to_string()));
    assert!(scheduler.probe_sequence_flow(&Rhai, &guarded(None)));
    assert!(!scheduler.probe_sequence_flow(&Rhai, &guarded(Some("xpath"))));
    assert!(scheduler.log.is_empty());

    let (process, _, _) = start_to_end(None);
    let mut scheduler: Scheduler<Node, u64> = Scheduler::new(process, None);
    assert!(scheduler.probe_sequence_flow(&Rhai, &guarded(Some("rhai"))));
    assert!(!scheduler.probe_sequence_flow(&Rhai, &guarded(None)));
    assert_eq!(scheduler.log, vec![Log::ExpressionError { error: "no language".to_string() }]);

    // nothing is evaluated for a flow with no condition, or with an empty one
    let mut bare = guarded(None);
    bare.condition_expression = None;
    assert!(scheduler.probe_sequence_flow(&Rhai, &bare));
    bare.condition_expression = Some(Expr::Expression);
    assert!(scheduler.probe_sequence_flow(&Rhai, &bare));
    bare.condition_expression =
        Some(Expr::FormalExpression(FormalExpression { language: None, content: None }));
    assert!(scheduler.probe_sequence_flow(&Rhai, &bare));
    assert_eq!(scheduler.log.len(), 1);
}

#[test]
fn two_starts_one_end() {
    let start1 = node(ElementKind::StartEvent, "a", &[], &["f1"]);
    let start2 = node(ElementKind::StartEvent, "b", &[], &["f2"]);
    let end = node(ElementKind::EndEvent, "e", &["f1", "f2"], &[]);
    let process = Process {
        id: None,
        flow_elements: vec![
            FlowElement::FlowNode(start1),
            FlowElement::FlowNode(start2),
            FlowElement::FlowNode(end.clone()),
            flow("f1", "a", "e", None),
            flow("f2", "b", "e", None),
        ],
    };
    let mut scheduler: Scheduler<Node, u64> = Scheduler::new(process, None);

    assert_eq!(scheduler.receive(Some(Request::Start)), Reply::Started(Ok(())));
    assert!(scheduler.turn(&Literals, 0));
    assert_eq!(scheduler.flow_nodes[2].tokens, 1);
    assert!(scheduler.turn(&Literals, 1));
    assert_eq!(scheduler.flow_nodes[2].tokens, 2);
    assert_eq!(
        scheduler.log,
        vec![
            Log::FlowNodeIncoming { node: end.clone(), incoming_index: 0 },
            Log::FlowNodeIncoming { node: end.clone(), incoming_index: 1 },
        ]
    );
    settle_down(&mut scheduler);

    let completed =
        scheduler.log.iter().filter(|e| **e == Log::FlowNodeCompleted { node: end.clone() }).count();
    assert_eq!(completed, 1);
    let ended = scheduler.events.iter().filter(|e| **e == ProcessEvent::End).count();
    assert_eq!(ended, 1);
    assert_eq!(scheduler.flow_nodes[2].tokens, 2);
    assert_eq!(scheduler.flow_nodes[2].node.get_state(), State::EndEvent(end_event::State::Done));
}

#[test]
fn terminate_before_start() {
    let (process, _, _) = start_to_end(None);
    let mut scheduler: Scheduler<Node, u64> = Scheduler::new(process, None);

    assert_eq!(scheduler.receive(Some(Request::JoinHandle(7))), Reply::Nothing);
    assert_eq!(scheduler.receive(Some(Request::Terminate)), Reply::Terminated(Some(7)));
    assert!(scheduler.terminated);
    assert!(scheduler.events.is_empty());
    assert!(scheduler.log.is_empty());
}

#[test]
fn terminate_without_join_handle() {
    let (process, _, _) = start_to_end(None);
    let mut scheduler: Scheduler<Node, u64> = Scheduler::new(process, None);

    assert_eq!(scheduler.receive(Some(Request::Terminate)), Reply::Terminated(None));
}

#[test]
fn later_join_handle_replaces_earlier() {
    let (process, _, _) = start_to_end(None);
    let mut scheduler: Scheduler<Node, u64> = Scheduler::new(process, None);

    assert_eq!(scheduler.receive(Some(Request::JoinHandle(1))), Reply::Nothing);
    assert_eq!(scheduler.receive(Some(Request::JoinHandle(2))), Reply::Nothing);
    assert_eq!(scheduler.receive(Some(Request::Terminate)), Reply::Terminated(Some(2)));
}

#[test]
fn nothing_happens_after_terminate() {
    let (process, _, _) = start_to_end(None);
    let mut scheduler: Scheduler<Node, u64> = Scheduler::new(process, None);

    assert_eq!(scheduler.receive(Some(Request::Start)), Reply::Started(Ok(())));
    assert_eq!(scheduler.receive(Some(Request::Terminate)), Reply::Terminated(None));

    assert_eq!(scheduler.receive(Some(Request::Start)), Reply::Nothing);
    assert_eq!(scheduler.receive(Some(Request::JoinHandle(3))), Reply::Nothing);
    assert_eq!(scheduler.receive(Some(Request::Terminate)), Reply::Nothing);
    assert!(!scheduler.turn(&Literals, 0));
    assert!(!scheduler.turn(&Literals, 1));
    assert_eq!(scheduler.events, vec![ProcessEvent::Start]);
    assert!(scheduler.log.is_empty());
    assert_eq!(scheduler.join_handle, None);
}

#[test]
fn closed_inbox_is_ignored() {
    let (process, _, _) = start_to_end(None);
    let mut scheduler: Scheduler<Node, u64> = Scheduler::new(process, None);

    assert_eq!(scheduler.receive(None), Reply::Nothing);
    assert!(!scheduler.terminated);
    assert!(scheduler.events.is_empty());
}

#[test]
fn repeated_start_only_repeats_the_event() {
    let (process, _, end) = start_to_end(None);
    let mut scheduler: Scheduler<Node, u64> = Scheduler::new(process, None);

    assert_eq!(scheduler.receive(Some(Request::Start)), Reply::Started(Ok(())));
    assert_eq!(scheduler.receive(Some(Request::Start)), Reply::Started(Ok(())));
    settle_down(&mut scheduler);
    assert_eq!(scheduler.receive(Some(Request::Start)), Reply::Started(Ok(())));
    settle_down(&mut scheduler);

    assert_eq!(
        scheduler.events,
        vec![ProcessEvent::Start, ProcessEvent::Start, ProcessEvent::End, ProcessEvent::Start]
    );
    let arrived = scheduler
        .log
        .iter()
        .filter(|e| **e == Log::FlowNodeIncoming { node: end.clone(), incoming_index: 0 })
        .count();
    assert_eq!(arrived, 1);
    assert_eq!(scheduler.flow_nodes[1].tokens, 1);
    assert_eq!(scheduler.flow_nodes[0].node.get_state(), State::StartEvent(start_event::State::Done));
}

#[test]
fn done_is_logged_once_when_the_last_node_ends() {
    let start1 = node(ElementKind::StartEvent, "a", &[], &[]);
    let start2 = node(ElementKind::StartEvent, "b", &[], &[]);
    let process = Process {
        id: None,
        flow_elements: vec![FlowElement::FlowNode(start1), FlowElement::FlowNode(start2)],
    };
    let mut scheduler: Scheduler<Node, u64> = Scheduler::new(process, None);
    assert_eq!(scheduler.receive(Some(Request::Start)), Reply::Started(Ok(())));

    // flow, complete, end of stream for the first node
    assert!(scheduler.turn(&Literals, 0));
    assert!(scheduler.turn(&Literals, 0));
    assert!(scheduler.turn(&Literals, 0));
    assert!(!scheduler.flow_nodes[0].scheduled);
    assert!(!scheduler.log.contains(&Log::Done));
    assert!(!scheduler.idle());

    settle_down(&mut scheduler);
    assert!(scheduler.idle());
    assert_eq!(scheduler.log.iter().filter(|e| **e == Log::Done).count(), 1);
    assert_eq!(scheduler.log.last(), Some(&Log::Done));

    // nothing more comes of a scheduler with no nodes left
    assert!(!scheduler.turn(&Literals, 0));
    assert!(!scheduler.turn(&Literals, 1));
    assert_eq!(scheduler.log.iter().filter(|e| **e == Log::Done).count(), 1);
}

#[test]
fn node_without_identifier_is_reached_by_an_empty_target() {
    let start = node(ElementKind::StartEvent, "s", &[], &["s1"]);
    let end = Arc::new(Element {
        id: None,
        incomings: vec!["s1".to_string()],
        outgoings: vec![],
        kind: ElementKind::EndEvent,
    });
    let process = Process {
        id: None,
        flow_elements: vec![
            FlowElement::FlowNode(start),
            FlowElement::FlowNode(end.clone()),
            flow("s1", "s", "", None),
        ],
    };
    let mut scheduler: Scheduler<Node, u64> = Scheduler::new(process, None);
    assert_eq!(scheduler.receive(Some(Request::Start)), Reply::Started(Ok(())));
    assert!(scheduler.turn(&Literals, 0));

    assert_eq!(scheduler.log, vec![Log::FlowNodeIncoming { node: end, incoming_index: 0 }]);
    assert_eq!(scheduler.flow_nodes[1].tokens, 1);
}

#[test]
fn token_count_goes_up_by_the_number_of_flows_fired() {
    // both outgoing flows of the start event end at the same node
    let start = node(ElementKind::StartEvent, "s", &[], &["f1", "f2"]);
    let end = node(ElementKind::EndEvent, "e", &["f1", "f2"], &[]);
    let process = Process {
        id: None,
        flow_elements: vec![
            FlowElement::FlowNode(start),
            FlowElement::FlowNode(end.clone()),
            flow("f1", "s", "e", None),
            flow("f2", "s", "e", None),
        ],
    };
    let mut scheduler: Scheduler<Node, u64> = Scheduler::new(process, None);
    assert_eq!(scheduler.receive(Some(Request::Start)), Reply::Started(Ok(())));
    assert!(scheduler.turn(&Literals, 0));

    assert_eq!(
        scheduler.log,
        vec![
            Log::FlowNodeIncoming { node: end.clone(), incoming_index: 0 },
            Log::FlowNodeIncoming { node: end.clone(), incoming_index: 1 },
        ]
    );
    assert_eq!(scheduler.flow_nodes[1].tokens, 4);
    assert!(scheduler.has_room(usize::MAX - 4));
    assert!(!scheduler.has_room(usize::MAX - 3));
}

#[test]
fn two_starts_one_end_polled_between_the_arrivals() {
    let start1 = node(ElementKind::StartEvent, "a", &[], &["f1"]);
    let start2 = node(ElementKind::StartEvent, "b", &[], &["f2"]);
    let end = node(ElementKind::EndEvent, "e", &["f1", "f2"], &[]);
    let process = Process {
        id: None,
        flow_elements: vec![
            FlowElement::FlowNode(start1),
            FlowElement::FlowNode(start2),
            FlowElement::FlowNode(end.clone()),
            flow("f1", "a", "e", None),
            flow("f2", "b", "e", None),
        ],
    };
    let mut scheduler: Scheduler<Node, u64> = Scheduler::new(process, None);
    assert_eq!(scheduler.receive(Some(Request::Start)), Reply::Started(Ok(())));

    // the first token arrives, and the end event completes before the second
    assert!(scheduler.turn(&Literals, 0));
    assert_eq!(scheduler.flow_nodes[2].tokens, 1);
    assert!(scheduler.turn(&Literals, 2));
    assert_eq!(scheduler.flow_nodes[2].node.get_state(), State::EndEvent(end_event::State::Done));
    assert_eq!(scheduler.events, vec![ProcessEvent::Start, ProcessEvent::End]);

    // the second token is counted and logged, but the end event stays done
    assert!(scheduler.turn(&Literals, 1));
    assert_eq!(scheduler.flow_nodes[2].tokens, 2);
    assert_eq!(scheduler.flow_nodes[2].node.get_state(), State::EndEvent(end_event::State::Done));
    assert!(!scheduler.turn(&Literals, 2));
    settle_down(&mut scheduler);

    assert_eq!(
        scheduler.log.iter().filter(|e| matches!(e, Log::FlowNodeIncoming { .. })).count(),
        2
    );
    let completed =
        scheduler.log.iter().filter(|e| **e == Log::FlowNodeCompleted { node: end.clone() }).count();
    assert_eq!(completed, 1);
    let ended = scheduler.events.iter().filter(|e| **e == ProcessEvent::End).count();
    assert_eq!(ended, 1);
    assert_eq!(scheduler.flow_nodes[2].tokens, 2);
    assert_eq!(scheduler.flow_nodes[2].node.get_state(), State::EndEvent(end_event::State::Done));
}
