//! # What a scheduler does, step by step
//!
//! The mathematical value of a scheduler, and for each step of its work the
//! value it has afterwards. The code of the scheduler is held to these.
use super::scheduler::Record;
use super::{Log, Reply, Request, StartError};
use crate::bpmn::{
    position, Element, ElementKind, Expr, FlowElement, FormalExpression, Process, SequenceFlow,
};
use crate::event::ProcessEvent;
use crate::flow_node::{ActionView, FlowNode, PollView};
use crate::language::ExpressionEvaluator;
use std::sync::Arc;
use vstd::prelude::*;

verus! {

/// Mathematical value of a [`Scheduler`](super::Scheduler)
pub struct SchedulerView<N, H> {
    pub process: Process,
    pub expression_language: Option<String>,
    pub flow_nodes: Seq<Record<N>>,
    pub join_handle: Option<H>,
    pub log: Seq<Log>,
    pub events: Seq<ProcessEvent>,
    pub terminated: bool,
}

/// Mathematical value of a [`Control`](super::scheduler::Control)
pub enum ControlView {
    Proceed(Option<ActionView>),
    Drop,
}

/// The record that the scheduler starts out with for the flow node that
/// `element` describes, where `N` has a node for it
pub open spec fn record_for<N: FlowNode>(element: Arc<Element>) -> Option<Record<N>> {
    match N::spec_from_element(element) {
        Some(node) => {
            let node = node.spec_set_process();
            Some(Record { id: node.spec_element().id, node, tokens: 0, scheduled: true })
        },
        None => None,
    }
}

/// The records for the first `upto` flow elements, in their order
pub open spec fn records<N: FlowNode>(flow_elements: Seq<FlowElement>, upto: int) -> Seq<Record<N>>
    decreases upto,
{
    if upto <= 0 {
        Seq::empty()
    } else {
        let before = records::<N>(flow_elements, upto - 1);
        match flow_elements[upto - 1] {
            FlowElement::FlowNode(element) => match record_for::<N>(element) {
                Some(record) => before.push(record),
                None => before,
            },
            FlowElement::SequenceFlow(_) => before,
        }
    }
}

/// Whether the flow node at `j` stands upstream of `producer` on the
/// sequence flow `edge`: it is another node, still scheduled, and `edge` is
/// among its outgoing sequence flows
pub open spec fn precedes<N: FlowNode>(
    flow_nodes: Seq<Record<N>>,
    producer: int,
    edge: Seq<char>,
    j: int,
) -> bool {
    j != producer && flow_nodes[j].scheduled && position(
        flow_nodes[j].node.spec_element().outgoings@,
        edge,
    ) is Some
}

/// The first flow node from `from` on that stands upstream of `producer` on
/// the sequence flow `edge`
pub open spec fn predecessor_from<N: FlowNode>(
    flow_nodes: Seq<Record<N>>,
    producer: int,
    edge: Seq<char>,
    from: int,
) -> Option<int>
    decreases flow_nodes.len() - from,
{
    if from < 0 || from >= flow_nodes.len() {
        None
    } else if precedes(flow_nodes, producer, edge, from) {
        Some(from)
    } else {
        predecessor_from(flow_nodes, producer, edge, from + 1)
    }
}

/// The flow nodes after the one at `j` has been shown `action` on its
/// outgoing sequence flow `edge`, and what became of the action
pub open spec fn shown<N: FlowNode>(
    flow_nodes: Seq<Record<N>>,
    j: int,
    edge: Seq<char>,
    action: Option<ActionView>,
) -> (Seq<Record<N>>, Option<Option<ActionView>>) {
    let index = position(flow_nodes[j].node.spec_element().outgoings@, edge).unwrap() as usize;
    let (node, handled) = flow_nodes[j].node.spec_handle_outgoing_action(index, action);
    (flow_nodes.update(j, Record { node, ..flow_nodes[j] }), handled)
}

/// The flow nodes and the action after the nodes upstream of `producer`
/// have looked at `action`, one for each of `incomings` from position `from`
/// on, in that order. Each is shown what the one before made of the action;
/// once one drops it, no other is asked.
pub open spec fn splice_from<N: FlowNode>(
    flow_nodes: Seq<Record<N>>,
    producer: int,
    incomings: Seq<String>,
    from: int,
    action: Option<ActionView>,
) -> (Seq<Record<N>>, ControlView)
    decreases incomings.len() - from,
{
    if from < 0 || from >= incomings.len() {
        (flow_nodes, ControlView::Proceed(action))
    } else {
        match predecessor_from(flow_nodes, producer, incomings[from]@, 0) {
            Some(j) => {
                let (flow_nodes, handled) = shown(flow_nodes, j, incomings[from]@, action);
                match handled {
                    Some(action) => splice_from(flow_nodes, producer, incomings, from + 1, action),
                    None => (flow_nodes, ControlView::Drop),
                }
            },
            None => splice_from(flow_nodes, producer, incomings, from + 1, action),
        }
    }
}

/// Text of a flow node's identifier: empty where it has none
pub open spec fn id_text(id: Option<String>) -> Seq<char> {
    match id {
        Some(id) => id@,
        None => Seq::empty(),
    }
}

/// The condition that guards a sequence flow, as its language and its
/// text, where the flow has one to evaluate. The language is the
/// condition's own, or `default_language` where it names none.
pub open spec fn guard(sequence_flow: SequenceFlow, default_language: Option<String>) -> Option<
    (Option<String>, String),
> {
    match sequence_flow.condition_expression {
        Some(Expr::FormalExpression(FormalExpression { language, content: Some(content) })) => Some(
            (
                if language is Some {
                    language
                } else {
                    default_language
                },
                content,
            ),
        ),
        _ => None,
    }
}

/// Whether `evaluation` is what `evaluator` may have said of `guard`.
/// Where there is no guard nothing is evaluated, and anything goes.
pub open spec fn evaluated<E: ExpressionEvaluator>(
    evaluator: &E,
    guard: Option<(Option<String>, String)>,
    evaluation: Result<bool, String>,
) -> bool {
    guard matches Some((language, content)) ==> call_ensures(
        E::eval_expr,
        (
            evaluator,
            match language {
                Some(language) => Some(&language),
                None => None,
            },
            &content,
        ),
        evaluation,
    )
}

/// Whether the flow node `record` is a target of `sequence_flow`, and if so
/// where the flow stands among its incoming sequence flows: the node is
/// still scheduled, carries the identifier that the flow names as its
/// target, and lists the flow as incoming
pub open spec fn targeted<N: FlowNode>(record: Record<N>, sequence_flow: SequenceFlow) -> Option<
    int,
> {
    if record.scheduled && id_text(record.id) == sequence_flow.target_ref@ {
        match sequence_flow.id {
            Some(id) => position(record.node.spec_element().incomings@, id@),
            None => None,
        }
    } else {
        None
    }
}

/// Where a token sent by `producer` along `sequence_flow` arrives at the
/// flow node at `j`, if it does: a node sends itself no token
pub open spec fn arrival<N: FlowNode>(
    flow_nodes: Seq<Record<N>>,
    producer: int,
    sequence_flow: SequenceFlow,
    j: int,
) -> Option<int> {
    if j != producer {
        targeted(flow_nodes[j], sequence_flow)
    } else {
        None
    }
}

/// The record of a flow node after a token has arrived on its incoming
/// sequence flow at `index`, as one of `count` tokens sent together: its
/// tokens go up by `count`, and the node is told the new number, then of
/// the arrival
pub open spec fn reached<N: FlowNode>(record: Record<N>, index: int, count: usize) -> Record<N> {
    let tokens = (record.tokens + count) as usize;
    Record { tokens, node: record.node.spec_tokens(tokens).spec_incoming(index as usize), ..record }
}

/// The flow nodes after `producer` has sent a token along `sequence_flow`
pub open spec fn delivered<N: FlowNode>(
    flow_nodes: Seq<Record<N>>,
    producer: int,
    sequence_flow: SequenceFlow,
    count: usize,
) -> Seq<Record<N>> {
    Seq::new(
        flow_nodes.len(),
        |j: int|
            match arrival(flow_nodes, producer, sequence_flow, j) {
                Some(index) => reached(flow_nodes[j], index, count),
                None => flow_nodes[j],
            },
    )
}

/// The log entries for the arrivals at the first `upto` flow nodes of a
/// token sent by `producer` along `sequence_flow`, in the nodes' order
pub open spec fn arrivals<N: FlowNode>(
    flow_nodes: Seq<Record<N>>,
    producer: int,
    sequence_flow: SequenceFlow,
    upto: int,
) -> Seq<Log>
    decreases upto,
{
    if upto <= 0 {
        Seq::empty()
    } else {
        let before = arrivals(flow_nodes, producer, sequence_flow, upto - 1);
        match arrival(flow_nodes, producer, sequence_flow, upto - 1) {
            Some(index) => before.push(
                Log::FlowNodeIncoming {
                    node: flow_nodes[upto - 1].node.spec_element(),
                    incoming_index: index as usize,
                },
            ),
            None => before,
        }
    }
}

/// Whether no flow node would hold more tokens than can be counted after
/// `tokens` more have arrived at it
pub open spec fn room_for<N>(flow_nodes: Seq<Record<N>>, tokens: nat) -> bool {
    forall|j: int|
        0 <= j < flow_nodes.len() ==> (#[trigger] flow_nodes[j]).tokens + tokens <= usize::MAX
}

/// The flow nodes after each one still scheduled has been told of `event`
pub open spec fn notified<N: FlowNode>(flow_nodes: Seq<Record<N>>, event: ProcessEvent) -> Seq<
    Record<N>,
> {
    Seq::new(
        flow_nodes.len(),
        |j: int|
            if flow_nodes[j].scheduled {
                Record { node: flow_nodes[j].node.spec_process_event(event), ..flow_nodes[j] }
            } else {
                flow_nodes[j]
            },
    )
}

impl<N: FlowNode, H> SchedulerView<N, H> {
    /// The scheduler after `event` has been broadcast in the process
    pub open spec fn broadcast(self, event: ProcessEvent) -> Self {
        SchedulerView {
            flow_nodes: notified(self.flow_nodes, event),
            events: self.events.push(event),
            ..self
        }
    }

    /// The scheduler after the events from position `from` on have been
    /// broadcast, one after the other
    pub open spec fn broadcast_from(self, events: Seq<ProcessEvent>, from: int) -> Self
        decreases events.len() - from,
    {
        if from < 0 || from >= events.len() {
            self
        } else {
            self.broadcast(events[from]).broadcast_from(events, from + 1)
        }
    }

    /// The scheduler after the nodes upstream of the one at `producer` have
    /// looked at its `action`, and what became of the action
    pub open spec fn splice(self, producer: usize, action: Option<ActionView>) -> (
        Self,
        ControlView,
    ) {
        if producer < self.flow_nodes.len() {
            let (flow_nodes, control) = splice_from(
                self.flow_nodes,
                producer as int,
                self.flow_nodes[producer as int].node.spec_element().incomings@,
                0,
                action,
            );
            (SchedulerView { flow_nodes, ..self }, control)
        } else {
            (self, ControlView::Proceed(action))
        }
    }

    /// The scheduler after the evaluation of a condition has been taken
    /// note of, and whether the condition holds. A condition that could
    /// not be evaluated is logged, once, and does not hold.
    pub open spec fn conclude(self, evaluation: Result<bool, String>) -> (Self, bool) {
        match evaluation {
            Ok(holds) => (self, holds),
            Err(error) => (
                SchedulerView { log: self.log.push(Log::ExpressionError { error }), ..self },
                false,
            ),
        }
    }

    /// The scheduler after `sequence_flow` has been probed, and whether a
    /// token may pass along it. A flow without a condition to evaluate lets
    /// every token pass; for another, `evaluation` is what evaluating its
    /// condition came to.
    pub open spec fn probe_sequence_flow(
        self,
        sequence_flow: SequenceFlow,
        evaluation: Result<bool, String>,
    ) -> (Self, bool) {
        match guard(sequence_flow, self.expression_language) {
            Some(_) => self.conclude(evaluation),
            None => (self, true),
        }
    }

    /// The scheduler after the flow node at `producer` has sent a token
    /// along `sequence_flow`, as one of `count` sent together
    pub open spec fn deliver(
        self,
        producer: usize,
        sequence_flow: SequenceFlow,
        count: usize,
    ) -> Self {
        SchedulerView {
            flow_nodes: delivered(self.flow_nodes, producer as int, sequence_flow, count),
            log: self.log + arrivals(
                self.flow_nodes,
                producer as int,
                sequence_flow,
                self.flow_nodes.len() as int,
            ),
            ..self
        }
    }

    /// The sequence flow that the name at `index` of `outgoings` stands
    /// for, if there is such a name and the process has a flow by it
    pub open spec fn flow_at(self, outgoings: Seq<String>, index: usize) -> Option<SequenceFlow> {
        if index < outgoings.len() {
            match self.process.sequence_flow(outgoings[index as int]@) {
                Some(sequence_flow) => Some(*sequence_flow),
                None => None,
            }
        } else {
            None
        }
    }

    /// The condition to evaluate for the name at `index` of `outgoings`
    pub open spec fn guard_at(self, outgoings: Seq<String>, index: usize) -> Option<
        (Option<String>, String),
    > {
        match self.flow_at(outgoings, index) {
            Some(sequence_flow) => guard(sequence_flow, self.expression_language),
            None => None,
        }
    }

    /// Whether `evaluations` holds, for each of `indices` in turn, what
    /// `evaluator` may have said of the condition to evaluate for it
    pub open spec fn answered<E: ExpressionEvaluator>(
        self,
        evaluator: &E,
        outgoings: Seq<String>,
        indices: Seq<usize>,
        evaluations: Seq<Result<bool, String>>,
    ) -> bool {
        &&& evaluations.len() == indices.len()
        &&& forall|k: int|
            0 <= k < indices.len() ==> evaluated(
                evaluator,
                self.guard_at(outgoings, indices[k]),
                #[trigger] evaluations[k],
            )
    }

    /// The scheduler after the flow node at `producer` has sent a token,
    /// one of `count`, along the outgoing sequence flow at `index`,
    /// provided the flow lets it pass
    pub open spec fn flow_one(
        self,
        producer: usize,
        outgoings: Seq<String>,
        index: usize,
        count: usize,
        evaluation: Result<bool, String>,
    ) -> Self {
        match self.flow_at(outgoings, index) {
            Some(sequence_flow) => {
                let (probed, success) = self.probe_sequence_flow(sequence_flow, evaluation);
                if success {
                    probed.deliver(producer, sequence_flow, count)
                } else {
                    probed
                }
            },
            None => self,
        }
    }

    /// The scheduler after the flow node at `producer` has sent its tokens
    /// along the first `upto` of the outgoing sequence flows at `indices`
    pub open spec fn flow_upto(
        self,
        producer: usize,
        outgoings: Seq<String>,
        indices: Seq<usize>,
        evaluations: Seq<Result<bool, String>>,
        upto: int,
    ) -> Self
        decreases upto,
    {
        if upto <= 0 {
            self
        } else {
            self.flow_upto(producer, outgoings, indices, evaluations, upto - 1).flow_one(
                producer,
                outgoings,
                indices[upto - 1],
                indices.len() as usize,
                evaluations[upto - 1],
            )
        }
    }

    /// The scheduler after the outgoing sequence flow at `index` has been
    /// probed for the flow node at `producer`, which is told the result
    pub open spec fn probe_one(
        self,
        producer: usize,
        outgoings: Seq<String>,
        index: usize,
        evaluation: Result<bool, String>,
    ) -> Self {
        match self.flow_at(outgoings, index) {
            Some(sequence_flow) => {
                let (probed, success) = self.probe_sequence_flow(sequence_flow, evaluation);
                let told = probed.flow_nodes[producer as int];
                SchedulerView {
                    flow_nodes: probed.flow_nodes.update(
                        producer as int,
                        Record {
                            node: told.node.spec_sequence_flow(index, sequence_flow, success),
                            ..told
                        },
                    ),
                    ..probed
                }
            },
            None => self,
        }
    }

    /// The scheduler after the first `upto` of the outgoing sequence flows
    /// at `indices` have been probed for the flow node at `producer`
    pub open spec fn probe_upto(
        self,
        producer: usize,
        outgoings: Seq<String>,
        indices: Seq<usize>,
        evaluations: Seq<Result<bool, String>>,
        upto: int,
    ) -> Self
        decreases upto,
    {
        if upto <= 0 {
            self
        } else {
            self.probe_upto(producer, outgoings, indices, evaluations, upto - 1).probe_one(
                producer,
                outgoings,
                indices[upto - 1],
                evaluations[upto - 1],
            )
        }
    }

    /// Names of the outgoing sequence flows of the flow node at `producer`
    pub open spec fn outgoings(self, producer: usize) -> Seq<String> {
        self.flow_nodes[producer as int].node.spec_element().outgoings@
    }

    /// Whether no flow node is scheduled any more
    pub open spec fn idle(self) -> bool {
        forall|j: int| 0 <= j < self.flow_nodes.len() ==> !(#[trigger] self.flow_nodes[j]).scheduled
    }

    /// The scheduler after the flow node at `producer`, scheduled until
    /// now, has ended its stream of actions: the node is scheduled no more,
    /// and where it was the last one, `Done` is logged
    pub open spec fn retire(self, producer: usize) -> Self {
        if producer < self.flow_nodes.len() && self.flow_nodes[producer as int].scheduled {
            let retired = SchedulerView {
                flow_nodes: self.flow_nodes.update(
                    producer as int,
                    Record { scheduled: false, ..self.flow_nodes[producer as int] },
                ),
                ..self
            };
            if retired.idle() {
                SchedulerView { log: retired.log.push(Log::Done), ..retired }
            } else {
                retired
            }
        } else {
            self
        }
    }

    /// Whether the scheduler polls the flow node at `producer`: it has not
    /// stopped, and the node is scheduled
    pub open spec fn scheduled(self, producer: usize) -> bool {
        !self.terminated && producer < self.flow_nodes.len()
            && self.flow_nodes[producer as int].scheduled
    }

    /// The scheduler after what became of the action of the flow node at
    /// `producer` has been carried out. `evaluations` holds what evaluating
    /// the conditions came to, one entry for each index of the action. A
    /// scheduler that has stopped carries nothing out, and nothing is
    /// carried out for a flow node that is not scheduled.
    pub open spec fn settle(
        self,
        producer: usize,
        control: ControlView,
        evaluations: Seq<Result<bool, String>>,
    ) -> Self {
        if self.scheduled(producer) {
            match control {
                ControlView::Proceed(Some(ActionView::ProbeOutgoingSequenceFlows(indices))) => {
                    self.probe_upto(
                        producer,
                        self.outgoings(producer),
                        indices,
                        evaluations,
                        indices.len() as int,
                    )
                },
                ControlView::Proceed(Some(ActionView::Flow(indices))) => self.flow_upto(
                    producer,
                    self.outgoings(producer),
                    indices,
                    evaluations,
                    indices.len() as int,
                ),
                ControlView::Proceed(Some(ActionView::Complete)) => SchedulerView {
                    log: self.log.push(
                        Log::FlowNodeCompleted {
                            node: self.flow_nodes[producer as int].node.spec_element(),
                        },
                    ),
                    ..self
                },
                ControlView::Proceed(None) => self.retire(producer),
                ControlView::Drop => self,
            }
        } else {
            self
        }
    }

    /// Whether `evaluations` holds what `evaluator` may have said of the
    /// conditions that carrying out `control` has evaluated
    pub open spec fn settled_by<E: ExpressionEvaluator>(
        self,
        evaluator: &E,
        producer: usize,
        control: ControlView,
        evaluations: Seq<Result<bool, String>>,
    ) -> bool {
        self.scheduled(producer) ==> match control {
            ControlView::Proceed(Some(ActionView::ProbeOutgoingSequenceFlows(indices))) => {
                self.answered(evaluator, self.outgoings(producer), indices, evaluations)
            },
            ControlView::Proceed(Some(ActionView::Flow(indices))) => self.answered(
                evaluator,
                self.outgoings(producer),
                indices,
                evaluations,
            ),
            _ => true,
        }
    }

    /// Whether carrying out `control` leaves every count of tokens within
    /// what can be counted, whatever the conditions come to
    pub open spec fn room_to_settle(self, control: ControlView) -> bool {
        control matches ControlView::Proceed(Some(ActionView::Flow(indices))) ==> room_for(
            self.flow_nodes,
            indices.len() * indices.len(),
        )
    }

    /// The scheduler after the flow node at `producer` has been polled, and
    /// what became of its action once the nodes upstream had looked at it;
    /// `None` where the node had no action to give. The events that the
    /// node threw are broadcast first. A scheduler that has stopped, and a
    /// flow node that is not scheduled, do nothing.
    pub open spec fn advance(self, producer: usize) -> (Self, Option<ControlView>) {
        if self.scheduled(producer) {
            let (node, poll, thrown) = self.flow_nodes[producer as int].node.spec_poll_next();
            let polled = SchedulerView {
                flow_nodes: self.flow_nodes.update(
                    producer as int,
                    Record { node, ..self.flow_nodes[producer as int] },
                ),
                ..self
            }.broadcast_from(thrown, 0);
            match poll {
                PollView::Ready(action) => {
                    let (spliced, control) = polled.splice(producer, action);
                    (spliced, Some(control))
                },
                PollView::Pending => (polled, None),
            }
        } else {
            (self, None)
        }
    }

    /// The scheduler after one turn given to the flow node at `producer`
    pub open spec fn turn(self, producer: usize, evaluations: Seq<Result<bool, String>>) -> Self {
        match self.advance(producer) {
            (advanced, Some(control)) => advanced.settle(producer, control, evaluations),
            (advanced, None) => advanced,
        }
    }

    /// Whether `evaluations` holds what `evaluator` may have said of the
    /// conditions evaluated in a turn given to the flow node at `producer`
    pub open spec fn turned_by<E: ExpressionEvaluator>(
        self,
        evaluator: &E,
        producer: usize,
        evaluations: Seq<Result<bool, String>>,
    ) -> bool {
        match self.advance(producer) {
            (advanced, Some(control)) => advanced.settled_by(
                evaluator,
                producer,
                control,
                evaluations,
            ),
            (_, None) => true,
        }
    }

    /// Whether a turn given to the flow node at `producer` leaves every
    /// count of tokens within what can be counted
    pub open spec fn room_to_turn(self, producer: usize) -> bool {
        match self.advance(producer) {
            (advanced, Some(control)) => advanced.room_to_settle(control),
            (_, None) => true,
        }
    }

    /// The scheduler after a request to start, and the answer
    pub open spec fn start(self) -> (Self, Result<(), StartError>) {
        if self.process.spec_has_kind(ElementKind::StartEvent) {
            (self.broadcast(ProcessEvent::Start), Ok(()))
        } else {
            (self, Err(StartError::NoStartEvent))
        }
    }

    /// The scheduler after a control request, and the answer. `None` stands
    /// for a control inbox that is closed.
    pub open spec fn receive(self, request: Option<Request<H>>) -> (Self, Reply<H>) {
        if self.terminated {
            (self, Reply::Nothing)
        } else {
            match request {
                Some(Request::JoinHandle(handle)) => (
                    SchedulerView { join_handle: Some(handle), ..self },
                    Reply::Nothing,
                ),
                Some(Request::Terminate) => (
                    SchedulerView { join_handle: None, terminated: true, ..self },
                    Reply::Terminated(self.join_handle),
                ),
                Some(Request::Start) => (self.start().0, Reply::Started(self.start().1)),
                None => (self, Reply::Nothing),
            }
        }
    }
}

/// Sending tokens along the first `upto` sequence flows goes by the first
/// `upto` evaluations alone.
pub proof fn flow_goes_by_prefix<N: FlowNode, H>(
    scheduler: SchedulerView<N, H>,
    producer: usize,
    outgoings: Seq<String>,
    indices: Seq<usize>,
    one: Seq<Result<bool, String>>,
    other: Seq<Result<bool, String>>,
    upto: int,
)
    requires
        forall|k: int| 0 <= k < upto ==> one[k] == other[k],
    ensures
        scheduler.flow_upto(producer, outgoings, indices, one, upto) == scheduler.flow_upto(
            producer,
            outgoings,
            indices,
            other,
            upto,
        ),
    decreases upto,
{
    if upto > 0 {
        flow_goes_by_prefix(scheduler, producer, outgoings, indices, one, other, upto - 1);
    }
}

/// Probing the first `upto` sequence flows goes by the first `upto`
/// evaluations alone.
pub proof fn probe_goes_by_prefix<N: FlowNode, H>(
    scheduler: SchedulerView<N, H>,
    producer: usize,
    outgoings: Seq<String>,
    indices: Seq<usize>,
    one: Seq<Result<bool, String>>,
    other: Seq<Result<bool, String>>,
    upto: int,
)
    requires
        forall|k: int| 0 <= k < upto ==> one[k] == other[k],
    ensures
        scheduler.probe_upto(producer, outgoings, indices, one, upto) == scheduler.probe_upto(
            producer,
            outgoings,
            indices,
            other,
            upto,
        ),
    decreases upto,
{
    if upto > 0 {
        probe_goes_by_prefix(scheduler, producer, outgoings, indices, one, other, upto - 1);
    }
}

} // verus!
