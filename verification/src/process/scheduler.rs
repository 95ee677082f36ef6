//! # Process scheduler
//!
//! The scheduler owns the flow nodes of one running process. Turn by turn it
//! takes the next action of a flow node, lets the nodes upstream look at it,
//! and carries it out: tokens move along sequence flows whose conditions hold.
use super::semantics::{
    arrival, arrivals, delivered, evaluated, flow_goes_by_prefix, guard, id_text, notified,
    predecessor_from, probe_goes_by_prefix, records, room_for, shown, splice_from,
    ControlView, SchedulerView,
};
use super::{Log, Reply, Request, StartError};
use crate::bpmn::{find_position, position, ElementKind, Expr, FlowElement, Process, SequenceFlow};
use crate::event::ProcessEvent;
use crate::flow_node::{Action, ActionView, FlowNode, Poll};
use crate::language::ExpressionEvaluator;
use vstd::prelude::*;

verus! {

/// Flow node as the scheduler holds it
pub struct Record<N> {
    /// Identifier of the node. A node without one goes by the empty name:
    /// no other flow node can be told from it by name, and only a sequence
    /// flow that names no target reaches it. Whether a process with such a
    /// node should rather be refused is left open.
    pub id: Option<String>,
    pub node: N,
    /// Number of tokens that have arrived at the node
    pub tokens: usize,
    /// Whether the node is among those that the scheduler still polls
    pub scheduled: bool,
}

/// Scheduler of one running process, with flow nodes of type `N` and a join
/// handle of type `H` in its keeping
pub struct Scheduler<N, H> {
    /// The process, which does not change while it runs
    pub process: Process,
    /// Expression language of conditions that name none
    pub expression_language: Option<String>,
    /// The flow nodes of the process, in the order of its flow elements
    pub flow_nodes: Vec<Record<N>>,
    /// Join handle of the task that runs the process, once handed over
    pub join_handle: Option<H>,
    /// Everything logged so far, oldest first
    pub log: Vec<Log>,
    /// Every event broadcast in the process so far, oldest first
    pub events: Vec<ProcessEvent>,
    /// Whether the scheduler has been told to stop
    pub terminated: bool,
}

impl<N, H> View for Scheduler<N, H> {
    type V = SchedulerView<N, H>;

    open spec fn view(&self) -> SchedulerView<N, H> {
        SchedulerView {
            process: self.process,
            expression_language: self.expression_language,
            flow_nodes: self.flow_nodes@,
            join_handle: self.join_handle,
            log: self.log@,
            events: self.events@,
            terminated: self.terminated,
        }
    }
}

/// What has become of an action once the nodes upstream have looked at it
#[derive(Debug, PartialEq, Eq)]
pub enum Control {
    /// The action to carry out, which may be none
    Proceed(Option<Action>),
    /// The action was dropped: nothing is carried out
    Drop,
}

impl DeepView for Control {
    type V = ControlView;

    open spec fn deep_view(&self) -> ControlView {
        match self {
            Control::Proceed(action) => ControlView::Proceed(action.deep_view()),
            Control::Drop => ControlView::Drop,
        }
    }
}

impl View for Control {
    type V = ControlView;

    open spec fn view(&self) -> ControlView {
        self.deep_view()
    }
}

/// Tells whether the identifier `id` reads `name`; none reads as nothing.
pub fn named(id: &Option<String>, name: &String) -> (named: bool)
    ensures
        named == (id_text(*id) == name@),
{
    match id {
        Some(id) => *id == *name,
        None => {
            let empty = name.as_str().is_empty();
            assert(empty == (name@ =~= Seq::<char>::empty()));
            empty
        },
    }
}

/// Gets the condition that guards `sequence_flow`, as its language and its
/// text, where the flow has one to evaluate.
pub fn guard_of<'a>(
    sequence_flow: &'a SequenceFlow,
    default_language: &'a Option<String>,
) -> (found: Option<(Option<&'a String>, &'a String)>)
    ensures
        match found {
            Some((language, content)) => guard(*sequence_flow, *default_language) == Some(
                (
                    match language {
                        Some(language) => Some(*language),
                        None => None,
                    },
                    *content,
                ),
            ),
            None => guard(*sequence_flow, *default_language) is None,
        },
{
    match &sequence_flow.condition_expression {
        Some(Expr::FormalExpression(expression)) => match &expression.content {
            Some(content) => {
                let language = match &expression.language {
                    Some(language) => Some(language),
                    None => match default_language {
                        Some(language) => Some(language),
                        None => None,
                    },
                };
                Some((language, content))
            },
            None => None,
        },
        _ => None,
    }
}

/// Tells every flow node still scheduled of `event`.
pub fn notify<N: FlowNode>(flow_nodes: &mut Vec<Record<N>>, event: &ProcessEvent)
    ensures
        final(flow_nodes)@ == notified(old(flow_nodes)@, *event),
{
    let mut j: usize = 0;
    while j < flow_nodes.len()
        invariant
            j <= flow_nodes.len(),
            flow_nodes.len() == old(flow_nodes).len(),
            forall|i: int| 0 <= i < j ==> flow_nodes[i] == notified(old(flow_nodes)@, *event)[i],
            forall|i: int| j <= i < flow_nodes.len() ==> flow_nodes[i] == old(flow_nodes)[i],
        decreases flow_nodes.len() - j,
    {
        if flow_nodes[j].scheduled {
            flow_nodes[j].node.process_event(event);
        }
        j = j + 1;
    }
    assert(flow_nodes@ =~= notified(old(flow_nodes)@, *event));
}

impl<N: FlowNode> Record<N> {
    /// Polls the flow node once. The events it throws meanwhile are appended
    /// to `events`.
    pub fn poll(&mut self, events: &mut Vec<ProcessEvent>) -> (poll: Poll)
        ensures
            *final(self) == (Record { node: old(self).node.spec_poll_next().0, ..*old(self) }),
            poll.deep_view() == old(self).node.spec_poll_next().1,
            final(events)@ == old(events)@ + old(self).node.spec_poll_next().2,
    {
        self.node.poll_next(events)
    }
}

impl<N: FlowNode, H> Scheduler<N, H> {
    /// Sets up the scheduler of a process: one record for each flow element
    /// that `N` has a node for, attached to the process, with no tokens.
    pub fn new(process: Process, expression_language: Option<String>) -> (scheduler: Self)
        ensures
            scheduler@ == (SchedulerView::<N, H> {
                process,
                expression_language,
                flow_nodes: records::<N>(process.flow_elements@, process.flow_elements.len() as int),
                join_handle: None,
                log: Seq::empty(),
                events: Seq::empty(),
                terminated: false,
            }),
    {
        let mut flow_nodes: Vec<Record<N>> = Vec::new();
        let mut i: usize = 0;
        while i < process.flow_elements.len()
            invariant
                i <= process.flow_elements.len(),
                flow_nodes@ == records::<N>(process.flow_elements@, i as int),
            decreases process.flow_elements.len() - i,
        {
            match &process.flow_elements[i] {
                FlowElement::FlowNode(element) => {
                    match N::from_element(element) {
                        Some(node) => {
                            let mut node = node;
                            node.set_process();
                            let id = match &node.element().id {
                                Some(id) => Some(id.clone()),
                                None => None,
                            };
                            flow_nodes.push(Record { id, node, tokens: 0, scheduled: true });
                        },
                        None => {},
                    }
                },
                FlowElement::SequenceFlow(_) => {},
            }
            i = i + 1;
        }
        Self {
            process,
            expression_language,
            flow_nodes,
            join_handle: None,
            log: Vec::new(),
            events: Vec::new(),
            terminated: false,
        }
    }

    /// Broadcasts `event` in the process: every flow node still scheduled is
    /// told of it, and it is added to the events.
    pub fn broadcast(&mut self, event: ProcessEvent)
        ensures
            final(self)@ == old(self)@.broadcast(event),
    {
        notify(&mut self.flow_nodes, &event);
        self.events.push(event);
    }

    /// Finds the flow node upstream of `producer` on the sequence flow
    /// `edge`, and where `edge` stands among its outgoing sequence flows.
    pub fn find_predecessor(&self, producer: usize, edge: &String) -> (found: Option<(usize, usize)>)
        ensures
            match found {
                Some((j, index)) => j < self.flow_nodes.len() && predecessor_from(
                    self.flow_nodes@,
                    producer as int,
                    edge@,
                    0,
                ) == Some(j as int) && position(
                    self.flow_nodes[j as int].node.spec_element().outgoings@,
                    edge@,
                ) == Some(index as int),
                None => predecessor_from(self.flow_nodes@, producer as int, edge@, 0) is None,
            },
    {
        let mut j: usize = 0;
        while j < self.flow_nodes.len()
            invariant
                j <= self.flow_nodes.len(),
                predecessor_from(self.flow_nodes@, producer as int, edge@, 0) == predecessor_from(
                    self.flow_nodes@,
                    producer as int,
                    edge@,
                    j as int,
                ),
            decreases self.flow_nodes.len() - j,
        {
            if j != producer && self.flow_nodes[j].scheduled {
                let element = self.flow_nodes[j].node.element();
                match find_position(&element.outgoings, edge) {
                    Some(index) => {
                        return Some((j, index));
                    },
                    None => {},
                }
            }
            j = j + 1;
        }
        None
    }

    /// Shows the action of the flow node at `producer` to the nodes upstream
    /// of it, one for each of its incoming sequence flows, in their order.
    /// Each may hand the action on, put another in its place or drop it.
    pub fn splice(&mut self, producer: usize, action: Option<Action>) -> (control: Control)
        ensures
            final(self)@ == old(self)@.splice(producer, action.deep_view()).0,
            control.deep_view() == old(self)@.splice(producer, action.deep_view()).1,
    {
        if producer >= self.flow_nodes.len() {
            return Control::Proceed(action);
        }
        let ghost before = self@;
        let ghost first = action.deep_view();
        let element = self.flow_nodes[producer].node.element();
        let mut current = action;
        let mut k: usize = 0;
        while k < element.incomings.len()
            invariant
                k <= element.incomings.len(),
                before == old(self)@,
                first == action.deep_view(),
                producer < before.flow_nodes.len(),
                element == before.flow_nodes[producer as int].node.spec_element(),
                self@ == (SchedulerView { flow_nodes: self.flow_nodes@, ..before }),
                splice_from(
                    self.flow_nodes@,
                    producer as int,
                    element.incomings@,
                    k as int,
                    current.deep_view(),
                ) == splice_from(before.flow_nodes, producer as int, element.incomings@, 0, first),
            decreases element.incomings.len() - k,
        {
            match self.find_predecessor(producer, &element.incomings[k]) {
                Some((j, index)) => {
                    let ghost shown_to = self.flow_nodes@;
                    let ghost asked = current.deep_view();
                    let handled = self.flow_nodes[j].node.handle_outgoing_action(index, current);
                    assert(self.flow_nodes@ =~= shown(
                        shown_to,
                        j as int,
                        element.incomings[k as int]@,
                        asked,
                    ).0);
                    match handled {
                        Some(handled) => {
                            current = handled;
                        },
                        None => {
                            return Control::Drop;
                        },
                    }
                },
                None => {},
            }
            k = k + 1;
        }
        Control::Proceed(current)
    }

    /// Takes note of what evaluating a condition came to, and tells whether
    /// the condition holds. A condition that could not be evaluated is
    /// logged and does not hold.
    pub fn conclude(&mut self, evaluation: Result<bool, String>) -> (holds: bool)
        ensures
            final(self)@ == old(self)@.conclude(evaluation).0,
            holds == old(self)@.conclude(evaluation).1,
    {
        match evaluation {
            Ok(holds) => holds,
            Err(error) => {
                self.log.push(Log::ExpressionError { error });
                false
            },
        }
    }

    /// Probes `sequence_flow`: tells whether a token may pass along it. The
    /// condition that guards the flow, if any, is given to `evaluator`, and
    /// what it answers decides.
    pub fn probe_sequence_flow<E: ExpressionEvaluator>(
        &mut self,
        evaluator: &E,
        sequence_flow: &SequenceFlow,
    ) -> (success: bool)
        ensures
            exists|evaluation: Result<bool, String>|
                {
                    &&& evaluated(
                        evaluator,
                        guard(*sequence_flow, old(self).expression_language),
                        evaluation,
                    )
                    &&& #[trigger] old(self)@.probe_sequence_flow(*sequence_flow, evaluation) == (
                        final(self)@,
                        success,
                    )
                },
    {
        match guard_of(sequence_flow, &self.expression_language) {
            Some((language, content)) => {
                let evaluation = evaluator.eval_expr(language, content);
                let ghost witness = evaluation;
                let holds = self.conclude(evaluation);
                assert(old(self)@.probe_sequence_flow(*sequence_flow, witness) == (self@, holds));
                holds
            },
            None => {
                assert(old(self)@.probe_sequence_flow(*sequence_flow, Ok(true)) == (self@, true));
                true
            },
        }
    }

    /// Sends a token from the flow node at `producer` along `sequence_flow`,
    /// as one of `count` tokens that the node sends together. Every other
    /// flow node that the flow names as its target, and that lists the flow
    /// as incoming, has the arrival logged, its tokens raised by `count`,
    /// and is told the new number of tokens and then of the arrival.
    ///
    /// The tokens of a target go up by the number of flows in the action for
    /// each flow that reaches it, while it is told of one arrival for each.
    /// Whether the count is meant to run ahead of the arrivals in this way is
    /// left open.
    ///
    /// No target may end up with more tokens than can be counted.
    pub fn deliver(&mut self, producer: usize, sequence_flow: &SequenceFlow, count: usize)
        requires
            forall|j: int|
                0 <= j < old(self).flow_nodes.len() && arrival(
                    old(self).flow_nodes@,
                    producer as int,
                    *sequence_flow,
                    j,
                ) is Some ==> old(self).flow_nodes[j].tokens + count <= usize::MAX,
        ensures
            final(self)@ == old(self)@.deliver(producer, *sequence_flow, count),
    {
        let ghost before = self@;
        let mut j: usize = 0;
        while j < self.flow_nodes.len()
            invariant
                j <= self.flow_nodes.len(),
                before == old(self)@,
                self.flow_nodes.len() == before.flow_nodes.len(),
                self@ == (SchedulerView { flow_nodes: self.flow_nodes@, log: self.log@, ..before }),
                self.log@ == before.log + arrivals(
                    before.flow_nodes,
                    producer as int,
                    *sequence_flow,
                    j as int,
                ),
                forall|i: int|
                    0 <= i < j ==> self.flow_nodes[i] == delivered(
                        before.flow_nodes,
                        producer as int,
                        *sequence_flow,
                        count,
                    )[i],
                forall|i: int|
                    j <= i < self.flow_nodes.len() ==> self.flow_nodes[i] == before.flow_nodes[i],
                forall|i: int|
                    0 <= i < before.flow_nodes.len() && arrival(
                        before.flow_nodes,
                        producer as int,
                        *sequence_flow,
                        i,
                    ) is Some ==> before.flow_nodes[i].tokens + count <= usize::MAX,
            decreases self.flow_nodes.len() - j,
        {
            if j != producer && self.flow_nodes[j].scheduled && named(
                &self.flow_nodes[j].id,
                &sequence_flow.target_ref,
            ) {
                let element = self.flow_nodes[j].node.element();
                let index = match &sequence_flow.id {
                    Some(id) => find_position(&element.incomings, id),
                    None => None,
                };
                match index {
                    Some(index) => {
                        assert(arrival(before.flow_nodes, producer as int, *sequence_flow, j as int)
                            == Some(index as int));
                        self.log.push(Log::FlowNodeIncoming { node: element, incoming_index: index });
                        // increase the number of tokens by the number of flows added
                        let tokens = self.flow_nodes[j].tokens + count;
                        self.flow_nodes[j].tokens = tokens;
                        self.flow_nodes[j].node.tokens(tokens);
                        self.flow_nodes[j].node.incoming(index);
                    },
                    None => {},
                }
            }
            j = j + 1;
        }
        assert(self.flow_nodes@ =~= delivered(
            before.flow_nodes,
            producer as int,
            *sequence_flow,
            count,
        ));
    }

    /// Sends the tokens of the flow node at `producer` along its outgoing
    /// sequence flows at `indices`, in their order. There are as many tokens
    /// as indices. An index that stands for no sequence flow is passed over;
    /// a flow whose condition does not hold lets no token pass. Nothing is
    /// sent for a flow node that is not scheduled.
    ///
    /// Every flow node must have room for the tokens of as many arrivals as
    /// there are indices.
    pub fn flow<E: ExpressionEvaluator>(
        &mut self,
        evaluator: &E,
        producer: usize,
        indices: &Vec<usize>,
    )
        requires
            room_for(old(self).flow_nodes@, (indices.len() * indices.len()) as nat),
        ensures
            exists|evaluations: Seq<Result<bool, String>>|
                {
                    &&& old(self)@.settled_by(
                        evaluator,
                        producer,
                        ControlView::Proceed(Some(ActionView::Flow(indices@))),
                        evaluations,
                    )
                    &&& #[trigger] old(self)@.settle(
                        producer,
                        ControlView::Proceed(Some(ActionView::Flow(indices@))),
                        evaluations,
                    ) == final(self)@
                },
    {
        if !self.scheduled(producer) {
            assert(old(self)@.settle(
                producer,
                ControlView::Proceed(Some(ActionView::Flow(indices@))),
                Seq::empty(),
            ) == self@);
            return ;
        }
        let ghost before = self@;
        let element = self.flow_nodes[producer].node.element();
        let ghost outgoings = element.outgoings@;
        let count = indices.len();
        let ghost mut made: Seq<Result<bool, String>> = Seq::empty();
        let mut k: usize = 0;
        while k < count
            invariant
                k <= count,
                count == indices.len(),
                before == old(self)@,
                producer < before.flow_nodes.len(),
                outgoings == element.outgoings@,
                outgoings == before.outgoings(producer),
                made.len() == k,
                self.process == before.process,
                self.expression_language == before.expression_language,
                self.flow_nodes.len() == before.flow_nodes.len(),
                forall|i: int|
                    0 <= i < k ==> evaluated(
                        evaluator,
                        before.guard_at(outgoings, indices[i]),
                        #[trigger] made[i],
                    ),
                self@ == before.flow_upto(producer, outgoings, indices@, made, k as int),
                room_for(self.flow_nodes@, ((count - k) * count) as nat),
            decreases count - k,
        {
            let index = indices[k];
            let ghost mut evaluation: Result<bool, String> = Ok(true);
            let ghost reached_here = self@;
            assert((count - k) * count == (count - k - 1) * count + count) by (nonlinear_arith);
            assert((count - k - 1) * count >= 0) by (nonlinear_arith)
                requires
                    k < count,
            ;
            if index < element.outgoings.len() {
                match self.process.find_sequence_flow(&element.outgoings[index]) {
                    Some(sequence_flow) => {
                        let success = self.probe_sequence_flow(evaluator, &sequence_flow);
                        proof {
                            evaluation =
                            choose|evaluation: Result<bool, String>|
                                {
                                    &&& evaluated(
                                        evaluator,
                                        guard(*sequence_flow, reached_here.expression_language),
                                        evaluation,
                                    )
                                    &&& #[trigger] reached_here.probe_sequence_flow(
                                        *sequence_flow,
                                        evaluation,
                                    ) == (self@, success)
                                };
                        }
                        if success {
                            self.deliver(producer, &sequence_flow, count);
                        }
                    },
                    None => {},
                }
            }
            proof {
                let longer = made.push(evaluation);
                flow_goes_by_prefix(before, producer, outgoings, indices@, made, longer, k as int);
                assert(self@ == reached_here.flow_one(producer, outgoings, index, count, evaluation));
                assert forall|j: int| 0 <= j < self.flow_nodes.len() implies (
                #[trigger] self.flow_nodes[j]).tokens + (count - k - 1) * count <= usize::MAX by {
                    assert(reached_here.flow_nodes[j].tokens + (count - k) * count <= usize::MAX);
                }
                made = longer;
            }
            k = k + 1;
        }
        assert(before.answered(evaluator, outgoings, indices@, made));
        assert(before.settle(
            producer,
            ControlView::Proceed(Some(ActionView::Flow(indices@))),
            made,
        ) == self@);
    }

    /// Probes the outgoing sequence flows at `indices` for the flow node at
    /// `producer`, in their order, and tells the node of each whether a
    /// token may pass along it. An index that stands for no sequence flow is
    /// passed over. Nothing is probed for a flow node that is not scheduled.
    pub fn probe<E: ExpressionEvaluator>(
        &mut self,
        evaluator: &E,
        producer: usize,
        indices: &Vec<usize>,
    )
        ensures
            exists|evaluations: Seq<Result<bool, String>>|
                {
                    &&& old(self)@.settled_by(
                        evaluator,
                        producer,
                        ControlView::Proceed(
                            Some(ActionView::ProbeOutgoingSequenceFlows(indices@)),
                        ),
                        evaluations,
                    )
                    &&& #[trigger] old(self)@.settle(
                        producer,
                        ControlView::Proceed(
                            Some(ActionView::ProbeOutgoingSequenceFlows(indices@)),
                        ),
                        evaluations,
                    ) == final(self)@
                },
    {
        if !self.scheduled(producer) {
            assert(old(self)@.settle(
                producer,
                ControlView::Proceed(Some(ActionView::ProbeOutgoingSequenceFlows(indices@))),
                Seq::empty(),
            ) == self@);
            return ;
        }
        let ghost before = self@;
        let element = self.flow_nodes[producer].node.element();
        let ghost outgoings = element.outgoings@;
        let count = indices.len();
        let ghost mut made: Seq<Result<bool, String>> = Seq::empty();
        let mut k: usize = 0;
        while k < count
            invariant
                k <= count,
                count == indices.len(),
                before == old(self)@,
                producer < before.flow_nodes.len(),
                outgoings == element.outgoings@,
                outgoings == before.outgoings(producer),
                made.len() == k,
                self.process == before.process,
                self.expression_language == before.expression_language,
                self.flow_nodes.len() == before.flow_nodes.len(),
                forall|i: int|
                    0 <= i < k ==> evaluated(
                        evaluator,
                        before.guard_at(outgoings, indices[i]),
                        #[trigger] made[i],
                    ),
                self@ == before.probe_upto(producer, outgoings, indices@, made, k as int),
            decreases count - k,
        {
            let index = indices[k];
            let ghost mut evaluation: Result<bool, String> = Ok(true);
            let ghost reached_here = self@;
            if index < element.outgoings.len() {
                match self.process.find_sequence_flow(&element.outgoings[index]) {
                    Some(sequence_flow) => {
                        let success = self.probe_sequence_flow(evaluator, &sequence_flow);
                        proof {
                            evaluation =
                            choose|evaluation: Result<bool, String>|
                                {
                                    &&& evaluated(
                                        evaluator,
                                        guard(*sequence_flow, reached_here.expression_language),
                                        evaluation,
                                    )
                                    &&& #[trigger] reached_here.probe_sequence_flow(
                                        *sequence_flow,
                                        evaluation,
                                    ) == (self@, success)
                                };
                        }
                        let ghost probed = self.flow_nodes@;
                        self.flow_nodes[producer].node.sequence_flow(index, &sequence_flow, success);
                        assert(self.flow_nodes@ =~= probed.update(
                            producer as int,
                            self.flow_nodes[producer as int],
                        ));
                    },
                    None => {},
                }
            }
            proof {
                let longer = made.push(evaluation);
                probe_goes_by_prefix(before, producer, outgoings, indices@, made, longer, k as int);
                assert(self@ == reached_here.probe_one(producer, outgoings, index, evaluation));
                made = longer;
            }
            k = k + 1;
        }
        assert(before.answered(evaluator, outgoings, indices@, made));
        assert(before.settle(
            producer,
            ControlView::Proceed(Some(ActionView::ProbeOutgoingSequenceFlows(indices@))),
            made,
        ) == self@);
    }

    /// Tells whether the scheduler polls the flow node at `producer`.
    pub fn scheduled(&self, producer: usize) -> (scheduled: bool)
        ensures
            scheduled == self@.scheduled(producer),
    {
        !self.terminated && producer < self.flow_nodes.len() && self.flow_nodes[producer].scheduled
    }

    /// Tells whether no flow node is scheduled any more.
    pub fn idle(&self) -> (idle: bool)
        ensures
            idle == self@.idle(),
    {
        let mut j: usize = 0;
        while j < self.flow_nodes.len()
            invariant
                j <= self.flow_nodes.len(),
                forall|i: int| 0 <= i < j ==> !(#[trigger] self.flow_nodes[i]).scheduled,
            decreases self.flow_nodes.len() - j,
        {
            if self.flow_nodes[j].scheduled {
                return false;
            }
            j = j + 1;
        }
        true
    }

    /// Takes the flow node at `producer`, whose stream of actions has ended,
    /// off the schedule. Where that leaves no flow node scheduled, `Done` is
    /// logged.
    pub fn retire(&mut self, producer: usize)
        ensures
            final(self)@ == old(self)@.retire(producer),
    {
        if producer >= self.flow_nodes.len() || !self.flow_nodes[producer].scheduled {
            return ;
        }
        let ghost before = self.flow_nodes@;
        self.flow_nodes[producer].scheduled = false;
        assert(self.flow_nodes@ =~= before.update(
            producer as int,
            Record { scheduled: false, ..before[producer as int] },
        ));
        if self.idle() {
            self.log.push(Log::Done);
        }
    }

    /// Carries out what became of the action of the flow node at `producer`:
    /// sequence flows are probed, tokens are sent, or the completion of the
    /// node is logged. A node whose stream of actions has ended leaves the
    /// schedule; any other stays on it. A scheduler that has stopped carries
    /// nothing out, and nothing is carried out for a flow node that is not
    /// scheduled.
    ///
    /// The counts of tokens must have room for what is sent, as
    /// [`room_to_settle`](Self::room_to_settle) tells.
    pub fn settle<E: ExpressionEvaluator>(
        &mut self,
        evaluator: &E,
        producer: usize,
        control: Control,
    )
        requires
            old(self)@.room_to_settle(control.deep_view()),
        ensures
            exists|evaluations: Seq<Result<bool, String>>|
                {
                    &&& old(self)@.settled_by(evaluator, producer, control.deep_view(), evaluations)
                    &&& #[trigger] old(self)@.settle(producer, control.deep_view(), evaluations)
                        == final(self)@
                },
    {
        if !self.scheduled(producer) {
            assert(old(self)@.settle(producer, control.deep_view(), Seq::empty()) == self@);
            return ;
        }
        match control {
            Control::Proceed(Some(Action::ProbeOutgoingSequenceFlows(indices))) => {
                self.probe(evaluator, producer, &indices);
            },
            Control::Proceed(Some(Action::Flow(indices))) => {
                self.flow(evaluator, producer, &indices);
            },
            Control::Proceed(Some(Action::Complete)) => {
                let node = self.flow_nodes[producer].node.element();
                self.log.push(Log::FlowNodeCompleted { node });
                assert(old(self)@.settle(producer, control.deep_view(), Seq::empty()) == self@);
            },
            Control::Proceed(None) => {
                self.retire(producer);
                assert(old(self)@.settle(producer, control.deep_view(), Seq::empty()) == self@);
            },
            Control::Drop => {
                assert(old(self)@.settle(producer, control.deep_view(), Seq::empty()) == self@);
            },
        }
    }

    /// Polls the flow node at `producer` and shows its action to the nodes
    /// upstream of it. Returns what became of the action, or `None` where
    /// the node had none to give. The events that the node threw are
    /// broadcast first.
    pub fn advance(&mut self, producer: usize) -> (control: Option<Control>)
        ensures
            final(self)@ == old(self)@.advance(producer).0,
            control.deep_view() == old(self)@.advance(producer).1,
    {
        if !self.scheduled(producer) {
            return None;
        }
        let ghost before = self@;
        let heard = self.events.len();
        let poll = self.flow_nodes[producer].poll(&mut self.events);
        let ghost thrown = before.flow_nodes[producer as int].node.spec_poll_next().2;
        let ghost polled = SchedulerView {
            flow_nodes: before.flow_nodes.update(
                producer as int,
                Record {
                    node: before.flow_nodes[producer as int].node.spec_poll_next().0,
                    ..before.flow_nodes[producer as int]
                },
            ),
            ..before
        };
        assert(self.flow_nodes@ =~= polled.flow_nodes);
        let mut i: usize = heard;
        while i < self.events.len()
            invariant
                heard <= i <= self.events.len(),
                heard == before.events.len(),
                self.events@ == before.events + thrown,
                self.process == before.process,
                self.expression_language == before.expression_language,
                self.join_handle == before.join_handle,
                self.log@ == before.log,
                self.terminated == before.terminated,
                polled.events == before.events,
                (SchedulerView {
                    flow_nodes: self.flow_nodes@,
                    events: before.events + thrown.subrange(0, i - heard),
                    ..polled
                }).broadcast_from(thrown, i - heard) == polled.broadcast_from(thrown, 0),
            decreases self.events.len() - i,
        {
            let ghost told = SchedulerView {
                flow_nodes: self.flow_nodes@,
                events: before.events + thrown.subrange(0, i - heard),
                ..polled
            };
            notify(&mut self.flow_nodes, &self.events[i]);
            assert(self.events[i as int] == thrown[i - heard]);
            assert(told.broadcast(thrown[i - heard]).events =~= before.events + thrown.subrange(
                0,
                i - heard + 1,
            ));
            i = i + 1;
        }
        assert(thrown.subrange(0, i - heard) =~= thrown);
        match poll {
            Poll::Ready(action) => Some(self.splice(producer, action)),
            Poll::Pending => None,
        }
    }

    /// Tells whether every flow node can take `tokens` more tokens without
    /// its count leaving what can be counted.
    pub fn has_room(&self, tokens: usize) -> (room: bool)
        ensures
            room == room_for(self.flow_nodes@, tokens as nat),
    {
        let mut j: usize = 0;
        while j < self.flow_nodes.len()
            invariant
                j <= self.flow_nodes.len(),
                forall|i: int|
                    0 <= i < j ==> (#[trigger] self.flow_nodes[i]).tokens + tokens <= usize::MAX,
            decreases self.flow_nodes.len() - j,
        {
            if self.flow_nodes[j].tokens > usize::MAX - tokens {
                return false;
            }
            j = j + 1;
        }
        true
    }

    /// Tells whether `control` can be carried out with every count of
    /// tokens staying within what can be counted.
    pub fn room_to_settle(&self, control: &Control) -> (room: bool)
        ensures
            room == self@.room_to_settle(control.deep_view()),
    {
        match control {
            Control::Proceed(Some(Action::Flow(indices))) => {
                let count = indices.len();
                match count.checked_mul(count) {
                    Some(tokens) => self.has_room(tokens),
                    None => {
                        if self.flow_nodes.len() == 0 {
                            true
                        } else {
                            assert(!room_for(self.flow_nodes@, (count * count) as nat)) by {
                                assert(self.flow_nodes[0].tokens + count * count > usize::MAX);
                            }
                            false
                        }
                    },
                }
            },
            _ => true,
        }
    }

    /// Gives the flow node at `producer` a turn: polls it, shows its action
    /// to the nodes upstream of it, and carries out what became of it. A
    /// scheduler that has stopped does nothing, and nothing is done for a
    /// flow node that is not scheduled or has no action to give. Returns
    /// whether there was an action.
    ///
    /// The counts of tokens must have room for what the turn sends;
    /// [`try_turn`](Self::try_turn) finds out by itself.
    pub fn turn<E: ExpressionEvaluator>(&mut self, evaluator: &E, producer: usize) -> (acted: bool)
        requires
            old(self)@.room_to_turn(producer),
        ensures
            acted == (old(self)@.advance(producer).1 is Some),
            exists|evaluations: Seq<Result<bool, String>>|
                {
                    &&& old(self)@.turned_by(evaluator, producer, evaluations)
                    &&& #[trigger] old(self)@.turn(producer, evaluations) == final(self)@
                },
    {
        match self.advance(producer) {
            Some(control) => {
                let ghost advanced = self@;
                let ghost spliced = control.deep_view();
                self.settle(evaluator, producer, control);
                proof {
                    let evaluations = choose|evaluations: Seq<Result<bool, String>>|
                        {
                            &&& advanced.settled_by(evaluator, producer, spliced, evaluations)
                            &&& #[trigger] advanced.settle(producer, spliced, evaluations) == self@
                        };
                    assert(old(self)@.turn(producer, evaluations) == self@);
                }
                true
            },
            None => {
                assert(old(self)@.turn(producer, Seq::empty()) == self@);
                false
            },
        }
    }

    /// Gives the flow node at `producer` a turn wherever the counts of tokens
    /// have room for it, and returns whether there was an action. Where they
    /// have no room, the flow node has been polled and its action shown
    /// upstream, but nothing is carried out, and `None` is returned.
    pub fn try_turn<E: ExpressionEvaluator>(
        &mut self,
        evaluator: &E,
        producer: usize,
    ) -> (acted: Option<bool>)
        ensures
            acted is Some <==> old(self)@.room_to_turn(producer),
            match acted {
                Some(acted) => {
                    &&& acted == (old(self)@.advance(producer).1 is Some)
                    &&& exists|evaluations: Seq<Result<bool, String>>|
                        {
                            &&& old(self)@.turned_by(evaluator, producer, evaluations)
                            &&& #[trigger] old(self)@.turn(producer, evaluations) == final(self)@
                        }
                },
                None => final(self)@ == old(self)@.advance(producer).0,
            },
    {
        match self.advance(producer) {
            Some(control) => {
                if !self.room_to_settle(&control) {
                    return None;
                }
                let ghost advanced = self@;
                let ghost spliced = control.deep_view();
                self.settle(evaluator, producer, control);
                proof {
                    let evaluations = choose|evaluations: Seq<Result<bool, String>>|
                        {
                            &&& advanced.settled_by(evaluator, producer, spliced, evaluations)
                            &&& #[trigger] advanced.settle(producer, spliced, evaluations) == self@
                        };
                    assert(old(self)@.turn(producer, evaluations) == self@);
                }
                Some(true)
            },
            None => {
                assert(old(self)@.turn(producer, Seq::empty()) == self@);
                Some(false)
            },
        }
    }

    /// Handles a request to start. A process without a start event is not
    /// started; in any other the `Start` event is broadcast, each time anew.
    pub fn start(&mut self) -> (started: Result<(), StartError>)
        ensures
            final(self)@ == old(self)@.start().0,
            started == old(self)@.start().1,
    {
        if self.process.has_kind(ElementKind::StartEvent) {
            self.broadcast(ProcessEvent::Start);
            Ok(())
        } else {
            Err(StartError::NoStartEvent)
        }
    }

    /// Handles what came out of the control inbox: a request, or `None`
    /// where the inbox is closed. After `Terminate` the scheduler has
    /// stopped, and takes no further request.
    pub fn receive(&mut self, request: Option<Request<H>>) -> (reply: Reply<H>)
        ensures
            final(self)@ == old(self)@.receive(request).0,
            reply == old(self)@.receive(request).1,
    {
        if self.terminated {
            return Reply::Nothing;
        }
        match request {
            Some(Request::JoinHandle(handle)) => {
                self.join_handle = Some(handle);
                Reply::Nothing
            },
            Some(Request::Terminate) => {
                self.terminated = true;
                Reply::Terminated(self.join_handle.take())
            },
            Some(Request::Start) => Reply::Started(self.start()),
            None => Reply::Nothing,
        }
    }
}

} // verus!
