//! # Laws of the scheduler
//!
//! What holds of every scheduler, whatever its flow nodes do and whatever
//! the conditions of its sequence flows come to.
use super::scheduler::Record;
use super::semantics::{
    arrivals, id_text, precedes, predecessor_from, records, room_for, shown, splice_from,
    ControlView, SchedulerView,
};
use super::{Log, Reply, Request, StartError};
use crate::bpmn::{position, ElementKind, FlowElement, SequenceFlow};
use crate::event::{start_event, ProcessEvent};
use crate::flow_node::{ActionView, FlowNode, Node};
use vstd::prelude::*;

verus! {

/// A process without a start event is not started: the request is refused,
/// no `Start` event is broadcast, and nothing else changes.
pub proof fn start_needs_a_start_event<N: FlowNode, H>(scheduler: SchedulerView<N, H>)
    requires
        !scheduler.terminated,
        !scheduler.process.spec_has_kind(ElementKind::StartEvent),
    ensures
        scheduler.receive(Some(Request::Start)) == (
            scheduler,
            Reply::<H>::Started(Err(StartError::NoStartEvent)),
        ),
{
}

/// In a process with a start event every request to start is granted, and
/// each one has `Start` broadcast anew.
pub proof fn start_is_broadcast_each_time<N: FlowNode, H>(scheduler: SchedulerView<N, H>)
    requires
        !scheduler.terminated,
        scheduler.process.spec_has_kind(ElementKind::StartEvent),
    ensures
        scheduler.receive(Some(Request::Start)).1 == Reply::<H>::Started(Ok(())),
        scheduler.receive(Some(Request::Start)).0.events == scheduler.events.push(
            ProcessEvent::Start,
        ),
        scheduler.receive(Some(Request::Start)).0.log == scheduler.log,
{
}

/// A request to terminate is answered with the join handle that was handed
/// over last, if any was. The scheduler has then stopped; nothing is logged
/// or broadcast on the way.
pub proof fn terminate_hands_the_join_handle_back<N: FlowNode, H>(scheduler: SchedulerView<N, H>)
    requires
        !scheduler.terminated,
    ensures
        scheduler.receive(Some(Request::Terminate)).1 == Reply::Terminated(scheduler.join_handle),
        scheduler.receive(Some(Request::Terminate)).0 == (SchedulerView {
            join_handle: None,
            terminated: true,
            ..scheduler
        }),
{
}

/// A scheduler that has stopped stays as it is, whatever it is asked and
/// whichever flow node is given a turn: it logs and broadcasts no more.
pub proof fn stopped_scheduler_does_nothing<N: FlowNode, H>(
    scheduler: SchedulerView<N, H>,
    request: Option<Request<H>>,
    producer: usize,
    evaluations: Seq<Result<bool, String>>,
)
    requires
        scheduler.terminated,
    ensures
        scheduler.receive(request) == (scheduler, Reply::<H>::Nothing),
        scheduler.advance(producer) == (scheduler, None::<ControlView>),
        scheduler.turn(producer, evaluations) == scheduler,
        forall|control: ControlView|
            #[trigger] scheduler.settle(producer, control, evaluations) == scheduler,
{
}

/// A condition that could not be evaluated counts as one that does not
/// hold, and leaves exactly one entry in the log, which holds the error.
pub proof fn failed_evaluation_is_logged_once<N: FlowNode, H>(
    scheduler: SchedulerView<N, H>,
    error: String,
)
    ensures
        scheduler.conclude(Err(error)).1 == false,
        scheduler.conclude(Err(error)).0 == (SchedulerView {
            log: scheduler.log.push(Log::ExpressionError { error }),
            ..scheduler
        }),
{
}

/// A condition that was evaluated decides by its value, and nothing is
/// logged.
pub proof fn evaluation_decides<N: FlowNode, H>(scheduler: SchedulerView<N, H>, holds: bool)
    ensures
        scheduler.conclude(Ok(holds)) == (scheduler, holds),
{
}

/// The node found upstream is the first flow node that stands upstream.
pub proof fn predecessor_is_first<N: FlowNode>(
    flow_nodes: Seq<Record<N>>,
    producer: int,
    edge: Seq<char>,
    from: int,
)
    requires
        0 <= from,
    ensures
        match predecessor_from(flow_nodes, producer, edge, from) {
            Some(j) => from <= j < flow_nodes.len() && precedes(flow_nodes, producer, edge, j)
                && forall|i: int| from <= i < j ==> !precedes(flow_nodes, producer, edge, i),
            None => forall|i: int|
                from <= i < flow_nodes.len() ==> !precedes(flow_nodes, producer, edge, i),
        },
    decreases flow_nodes.len() - from,
{
    if from < flow_nodes.len() && !precedes(flow_nodes, producer, edge, from) {
        predecessor_is_first(flow_nodes, producer, edge, from + 1);
    }
}

/// Once a node upstream drops the action, the nodes upstream on the later
/// incoming sequence flows are not shown it: the flow nodes are left as the
/// node that dropped it left them.
pub proof fn dropped_action_is_shown_to_no_one_else<N: FlowNode>(
    flow_nodes: Seq<Record<N>>,
    producer: int,
    incomings: Seq<String>,
    from: int,
    action: Option<ActionView>,
    upstream: int,
)
    requires
        0 <= from < incomings.len(),
        predecessor_from(flow_nodes, producer, incomings[from]@, 0) == Some(upstream),
        shown(flow_nodes, upstream, incomings[from]@, action).1 is None,
    ensures
        splice_from(flow_nodes, producer, incomings, from, action) == (
            shown(flow_nodes, upstream, incomings[from]@, action).0,
            ControlView::Drop,
        ),
        forall|j: int|
            0 <= j < flow_nodes.len() && j != upstream ==> splice_from(
                flow_nodes,
                producer,
                incomings,
                from,
                action,
            ).0[j] == flow_nodes[j],
{
    predecessor_is_first(flow_nodes, producer, incomings[from]@, 0);
}

/// An action that was dropped has no effect: nothing is logged, no token
/// moves, and no flow node is told anything.
pub proof fn dropped_action_has_no_effect<N: FlowNode, H>(
    scheduler: SchedulerView<N, H>,
    producer: usize,
    evaluations: Seq<Result<bool, String>>,
)
    ensures
        scheduler.settle(producer, ControlView::Drop, evaluations) == scheduler,
{
}

/// Where no node stands upstream on any incoming sequence flow, the action
/// is carried out as the node gave it.
pub proof fn action_without_upstream_passes<N: FlowNode>(
    flow_nodes: Seq<Record<N>>,
    producer: int,
    incomings: Seq<String>,
    from: int,
    action: Option<ActionView>,
)
    requires
        0 <= from,
        forall|k: int|
            from <= k < incomings.len() ==> predecessor_from(flow_nodes, producer, incomings[k]@, 0)
                is None,
    ensures
        splice_from(flow_nodes, producer, incomings, from, action) == (
            flow_nodes,
            ControlView::Proceed(action),
        ),
    decreases incomings.len() - from,
{
    if from < incomings.len() {
        action_without_upstream_passes(flow_nodes, producer, incomings, from + 1, action);
    }
}

/// When a token is sent along a sequence flow, every other flow node that
/// is scheduled, carries the identifier that the flow names as its target
/// and lists the flow as incoming is told of the arrival exactly once, with
/// the position of the flow among its incoming sequence flows, after it has
/// been told its new number of tokens. No other flow node is told anything.
pub proof fn token_reaches_every_target<N: FlowNode, H>(
    scheduler: SchedulerView<N, H>,
    producer: usize,
    sequence_flow: SequenceFlow,
    count: usize,
    j: int,
)
    requires
        0 <= j < scheduler.flow_nodes.len(),
    ensures
        ({
            let record = scheduler.flow_nodes[j];
            let after = scheduler.deliver(producer, sequence_flow, count).flow_nodes[j];
            if j != producer && record.scheduled && id_text(record.id) == sequence_flow.target_ref@
                && sequence_flow.id is Some && position(
                record.node.spec_element().incomings@,
                sequence_flow.id.unwrap()@,
            ) is Some {
                let index = position(
                    record.node.spec_element().incomings@,
                    sequence_flow.id.unwrap()@,
                ).unwrap();
                let tokens = (record.tokens + count) as usize;
                &&& after.tokens == tokens
                &&& after.node == record.node.spec_tokens(tokens).spec_incoming(index as usize)
                &&& after.id == record.id
                &&& after.scheduled
            } else {
                after == record
            }
        }),
{
}

/// A sequence flow that lets the token pass delivers it; one whose
/// condition does not hold, or could not be evaluated, moves no token.
pub proof fn token_moves_only_where_the_condition_holds<N: FlowNode, H>(
    scheduler: SchedulerView<N, H>,
    producer: usize,
    outgoings: Seq<String>,
    index: usize,
    count: usize,
    evaluation: Result<bool, String>,
)
    requires
        scheduler.flow_at(outgoings, index) is Some,
    ensures
        ({
            let sequence_flow = scheduler.flow_at(outgoings, index).unwrap();
            let (probed, success) = scheduler.probe_sequence_flow(sequence_flow, evaluation);
            let after = scheduler.flow_one(producer, outgoings, index, count, evaluation);
            &&& success ==> after == probed.deliver(producer, sequence_flow, count)
            &&& !success ==> after.flow_nodes == scheduler.flow_nodes
        }),
{
}

/// Once every start event of a process has been set off or has left
/// `Ready`, a further `Start` changes no flow node: the event is all there
/// is to it.
pub proof fn start_of_a_started_process_changes_no_node<H>(scheduler: SchedulerView<Node, H>)
    requires
        forall|j: int|
            0 <= j < scheduler.flow_nodes.len() ==> (
            #[trigger] scheduler.flow_nodes[j].node matches Node::StartEvent(node) ==> node.started
                || node.state != start_event::State::Ready),
    ensures
        scheduler.broadcast(ProcessEvent::Start) == (SchedulerView {
            events: scheduler.events.push(ProcessEvent::Start),
            ..scheduler
        }),
{
    assert(scheduler.broadcast(ProcessEvent::Start).flow_nodes =~= scheduler.flow_nodes);
}

/// A scheduler starts out with every flow node scheduled and without
/// tokens, under the identifier that its description carries, and with as
/// many flow nodes at most as the process has flow elements.
pub proof fn flow_nodes_start_without_tokens<N: FlowNode>(
    flow_elements: Seq<FlowElement>,
    upto: int,
)
    requires
        0 <= upto <= flow_elements.len(),
    ensures
        records::<N>(flow_elements, upto).len() <= upto,
        forall|j: int|
            0 <= j < records::<N>(flow_elements, upto).len() ==> {
                let record = #[trigger] records::<N>(flow_elements, upto)[j];
                &&& record.tokens == 0
                &&& record.scheduled
                &&& record.id == record.node.spec_element().id
            },
    decreases upto,
{
    if upto > 0 {
        flow_nodes_start_without_tokens::<N>(flow_elements, upto - 1);
        let before = records::<N>(flow_elements, upto - 1);
        let all = records::<N>(flow_elements, upto);
        assert forall|j: int| 0 <= j < all.len() implies {
            let record = #[trigger] all[j];
            &&& record.tokens == 0
            &&& record.scheduled
            &&& record.id == record.node.spec_element().id
        } by {
            if j < before.len() {
                assert(all[j] == before[j]);
            }
        }
    }
}

/// A second `Start` right after the first leaves the start and end events
/// of a process as the first left them: all that is added is the event.
pub proof fn repeated_start_only_repeats_the_event<H>(scheduler: SchedulerView<Node, H>)
    ensures
        scheduler.broadcast(ProcessEvent::Start).broadcast(ProcessEvent::Start).flow_nodes
            == scheduler.broadcast(ProcessEvent::Start).flow_nodes,
        scheduler.broadcast(ProcessEvent::Start).broadcast(ProcessEvent::Start).events
            == scheduler.events.push(ProcessEvent::Start).push(ProcessEvent::Start),
        scheduler.broadcast(ProcessEvent::Start).broadcast(ProcessEvent::Start).log
            == scheduler.log,
{
    let once = scheduler.broadcast(ProcessEvent::Start);
    let twice = once.broadcast(ProcessEvent::Start);
    assert(twice.flow_nodes =~= once.flow_nodes);
}

/// Whether the flow nodes `after` are those of `before` a while later: the
/// same nodes under the same identifiers, none with fewer tokens, and none
/// scheduled that was not
pub open spec fn keeps_pace<N>(before: Seq<Record<N>>, after: Seq<Record<N>>) -> bool {
    &&& after.len() == before.len()
    &&& forall|j: int|
        0 <= j < before.len() ==> {
            &&& (#[trigger] after[j]).id == before[j].id
            &&& before[j].tokens <= after[j].tokens
            &&& (after[j].scheduled ==> before[j].scheduled)
        }
}

/// Whether the flow nodes `after` differ from `before` in nothing but what
/// the nodes themselves have come to
pub open spec fn retold<N>(before: Seq<Record<N>>, after: Seq<Record<N>>) -> bool {
    &&& after.len() == before.len()
    &&& forall|j: int|
        0 <= j < before.len() ==> #[trigger] after[j] == (Record {
            node: after[j].node,
            ..before[j]
        })
}

/// Whether the log entry is `Done`
pub open spec fn is_done(entry: Log) -> bool {
    entry is Done
}

/// Whether the scheduler `after` is `before` some steps of a turn later,
/// with nothing forgotten: log and events have only grown, the flow nodes
/// keep pace, and `Done` was not logged
pub open spec fn quiet<N: FlowNode, H>(
    before: SchedulerView<N, H>,
    after: SchedulerView<N, H>,
) -> bool {
    &&& after.process == before.process
    &&& after.expression_language == before.expression_language
    &&& after.terminated == before.terminated
    &&& after.join_handle == before.join_handle
    &&& keeps_pace(before.flow_nodes, after.flow_nodes)
    &&& before.log.is_prefix_of(after.log)
    &&& before.events.is_prefix_of(after.events)
    &&& forall|i: int| before.log.len() <= i < after.log.len() ==> !is_done(#[trigger] after.log[i])
}

/// Whether the scheduler `after` is `before` a while later: the process is
/// the same, log and events have only grown, the flow nodes keep pace, and
/// `Done` was logged at most once meanwhile, and only on the last flow node
/// leaving the schedule
pub open spec fn grows<N: FlowNode, H>(
    before: SchedulerView<N, H>,
    after: SchedulerView<N, H>,
) -> bool {
    &&& after.process == before.process
    &&& after.expression_language == before.expression_language
    &&& keeps_pace(before.flow_nodes, after.flow_nodes)
    &&& before.log.is_prefix_of(after.log)
    &&& before.events.is_prefix_of(after.events)
    &&& forall|i: int|
        before.log.len() <= i < after.log.len() && is_done(#[trigger] after.log[i])
            ==> after.idle() && !before.idle()
    &&& forall|i: int, j: int|
        before.log.len() <= i < j < after.log.len() ==> !(is_done(#[trigger] after.log[i])
            && is_done(#[trigger] after.log[j]))
}

/// Whether `Done` stands in the log at most once, and only where no flow
/// node is scheduled any more
pub open spec fn done_once<N: FlowNode, H>(scheduler: SchedulerView<N, H>) -> bool {
    &&& forall|i: int, j: int|
        0 <= i < j < scheduler.log.len() ==> !(is_done(#[trigger] scheduler.log[i]) && is_done(
            #[trigger] scheduler.log[j],
        ))
    &&& forall|i: int|
        0 <= i < scheduler.log.len() && is_done(#[trigger] scheduler.log[i]) ==> scheduler.idle()
}

/// A sequence is a prefix of itself.
proof fn prefix_of_itself<T>(s: Seq<T>)
    ensures
        s.is_prefix_of(s),
{
    assert(s =~= s.subrange(0, s.len() as int));
}

/// A sequence is a prefix of what it is with more behind it.
proof fn prefix_of_longer<T>(s: Seq<T>, more: Seq<T>)
    ensures
        s.is_prefix_of(s + more),
{
    assert(s =~= (s + more).subrange(0, s.len() as int));
}

/// A sequence is a prefix of what it is with one more entry.
proof fn prefix_of_pushed<T>(s: Seq<T>, entry: T)
    ensures
        s.is_prefix_of(s.push(entry)),
{
    assert(s =~= s.push(entry).subrange(0, s.len() as int));
}

/// A prefix of a prefix is a prefix.
proof fn prefix_of_prefix<T>(first: Seq<T>, second: Seq<T>, third: Seq<T>)
    requires
        first.is_prefix_of(second),
        second.is_prefix_of(third),
    ensures
        first.is_prefix_of(third),
{
    assert(first =~= third.subrange(0, first.len() as int));
}

/// A scheduler that stays as it is has forgotten nothing.
proof fn unchanged_is_quiet<N: FlowNode, H>(scheduler: SchedulerView<N, H>)
    ensures
        quiet(scheduler, scheduler),
{
    prefix_of_itself(scheduler.log);
    prefix_of_itself(scheduler.events);
}

proof fn quiet_then_quiet<N: FlowNode, H>(
    first: SchedulerView<N, H>,
    second: SchedulerView<N, H>,
    third: SchedulerView<N, H>,
)
    requires
        quiet(first, second),
        quiet(second, third),
    ensures
        quiet(first, third),
{
    prefix_of_prefix(first.log, second.log, third.log);
    prefix_of_prefix(first.events, second.events, third.events);
    assert forall|i: int| first.log.len() <= i < third.log.len() implies !is_done(
        #[trigger] third.log[i],
    ) by {
        if i < second.log.len() {
            assert(third.log[i] == second.log[i]);
        }
    }
}

proof fn quiet_then_grows<N: FlowNode, H>(
    first: SchedulerView<N, H>,
    second: SchedulerView<N, H>,
    third: SchedulerView<N, H>,
)
    requires
        quiet(first, second),
        grows(second, third),
    ensures
        grows(first, third),
{
    prefix_of_prefix(first.log, second.log, third.log);
    prefix_of_prefix(first.events, second.events, third.events);
    assert forall|i: int|
        first.log.len() <= i < third.log.len() && is_done(
            #[trigger] third.log[i],
        ) implies third.idle() && !first.idle() by {
        if i < second.log.len() {
            assert(third.log[i] == second.log[i]);
        } else {
            let j = choose|j: int| 0 <= j < second.flow_nodes.len() && second.flow_nodes[j].scheduled;
            assert(first.flow_nodes[j].scheduled);
        }
    }
    assert forall|i: int, j: int| first.log.len() <= i < j < third.log.len() implies !(is_done(
        #[trigger] third.log[i],
    ) && is_done(#[trigger] third.log[j])) by {
        if i < second.log.len() {
            assert(third.log[i] == second.log[i]);
        }
    }
}

proof fn retold_keeps_pace<N>(before: Seq<Record<N>>, after: Seq<Record<N>>)
    requires
        retold(before, after),
    ensures
        keeps_pace(before, after),
{
}

proof fn retold_then_retold<N>(first: Seq<Record<N>>, second: Seq<Record<N>>, third: Seq<Record<N>>)
    requires
        retold(first, second),
        retold(second, third),
    ensures
        retold(first, third),
{
    assert forall|j: int| 0 <= j < first.len() implies #[trigger] third[j] == (Record {
        node: third[j].node,
        ..first[j]
    }) by {
        assert(second[j] == Record { node: second[j].node, ..first[j] });
    }
}

/// Broadcasting events changes nothing but the events and what the flow
/// nodes have come to.
proof fn broadcast_retells<N: FlowNode, H>(
    scheduler: SchedulerView<N, H>,
    events: Seq<ProcessEvent>,
    from: int,
)
    requires
        0 <= from,
    ensures
        ({
            let after = scheduler.broadcast_from(events, from);
            &&& retold(scheduler.flow_nodes, after.flow_nodes)
            &&& scheduler.events.is_prefix_of(after.events)
            &&& after == SchedulerView {
                flow_nodes: after.flow_nodes,
                events: after.events,
                ..scheduler
            }
        }),
    decreases events.len() - from,
{
    if from < events.len() {
        let next = scheduler.broadcast(events[from]);
        broadcast_retells(next, events, from + 1);
        let after = scheduler.broadcast_from(events, from);
        retold_then_retold(scheduler.flow_nodes, next.flow_nodes, after.flow_nodes);
        prefix_of_pushed(scheduler.events, events[from]);
        prefix_of_prefix(scheduler.events, next.events, after.events);
    } else {
        prefix_of_itself(scheduler.events);
    }
}

/// Showing an action to the nodes upstream changes nothing but what those
/// nodes have come to.
proof fn splice_retells<N: FlowNode>(
    flow_nodes: Seq<Record<N>>,
    producer: int,
    incomings: Seq<String>,
    from: int,
    action: Option<ActionView>,
)
    requires
        0 <= from,
    ensures
        retold(flow_nodes, splice_from(flow_nodes, producer, incomings, from, action).0),
    decreases incomings.len() - from,
{
    if from < incomings.len() {
        match predecessor_from(flow_nodes, producer, incomings[from]@, 0) {
            Some(j) => {
                predecessor_is_first(flow_nodes, producer, incomings[from]@, 0);
                let (next, handled) = shown(flow_nodes, j, incomings[from]@, action);
                assert(retold(flow_nodes, next));
                match handled {
                    Some(action) => {
                        splice_retells(next, producer, incomings, from + 1, action);
                        retold_then_retold(
                            flow_nodes,
                            next,
                            splice_from(next, producer, incomings, from + 1, action).0,
                        );
                    },
                    None => {},
                }
            },
            None => {
                splice_retells(flow_nodes, producer, incomings, from + 1, action);
            },
        }
    }
}

/// Polling a flow node and showing its action upstream logs nothing, moves
/// no token and takes no flow node off the schedule.
pub proof fn advance_retells<N: FlowNode, H>(scheduler: SchedulerView<N, H>, producer: usize)
    ensures
        ({
            let after = scheduler.advance(producer).0;
            &&& retold(scheduler.flow_nodes, after.flow_nodes)
            &&& scheduler.events.is_prefix_of(after.events)
            &&& after == SchedulerView {
                flow_nodes: after.flow_nodes,
                events: after.events,
                ..scheduler
            }
        }),
{
    if scheduler.scheduled(producer) {
        let (node, poll, thrown) = scheduler.flow_nodes[producer as int].node.spec_poll_next();
        let awake = SchedulerView {
            flow_nodes: scheduler.flow_nodes.update(
                producer as int,
                Record { node, ..scheduler.flow_nodes[producer as int] },
            ),
            ..scheduler
        };
        assert(retold(scheduler.flow_nodes, awake.flow_nodes));
        let polled = awake.broadcast_from(thrown, 0);
        broadcast_retells(awake, thrown, 0);
        retold_then_retold(scheduler.flow_nodes, awake.flow_nodes, polled.flow_nodes);
        match poll {
            crate::flow_node::PollView::Ready(action) => {
                let incomings = polled.flow_nodes[producer as int].node.spec_element().incomings@;
                splice_retells(polled.flow_nodes, producer as int, incomings, 0, action);
                retold_then_retold(
                    scheduler.flow_nodes,
                    polled.flow_nodes,
                    polled.splice(producer, action).0.flow_nodes,
                );
            },
            crate::flow_node::PollView::Pending => {},
        }
    } else {
        prefix_of_itself(scheduler.events);
    }
}

/// Every entry logged for the arrival of a token is one of an arrival.
proof fn arrivals_are_arrivals<N: FlowNode>(
    flow_nodes: Seq<Record<N>>,
    producer: int,
    sequence_flow: SequenceFlow,
    upto: int,
)
    ensures
        forall|i: int|
            0 <= i < arrivals(flow_nodes, producer, sequence_flow, upto).len() ==> !is_done(
                #[trigger] arrivals(flow_nodes, producer, sequence_flow, upto)[i],
            ),
    decreases upto,
{
    if upto > 0 {
        arrivals_are_arrivals(flow_nodes, producer, sequence_flow, upto - 1);
        let before = arrivals(flow_nodes, producer, sequence_flow, upto - 1);
        let all = arrivals(flow_nodes, producer, sequence_flow, upto);
        assert forall|i: int| 0 <= i < all.len() implies !is_done(#[trigger] all[i]) by {
            if i < before.len() {
                assert(all[i] == before[i]);
            }
        }
    }
}

/// Sending a token along a sequence flow raises the tokens of a flow node
/// by `count` at most, and lowers none.
proof fn deliver_is_quiet<N: FlowNode, H>(
    scheduler: SchedulerView<N, H>,
    producer: usize,
    sequence_flow: SequenceFlow,
    count: usize,
)
    requires
        room_for(scheduler.flow_nodes, count as nat),
    ensures
        quiet(scheduler, scheduler.deliver(producer, sequence_flow, count)),
        forall|j: int|
            0 <= j < scheduler.flow_nodes.len() ==> (#[trigger] scheduler.deliver(
                producer,
                sequence_flow,
                count,
            ).flow_nodes[j]).tokens <= scheduler.flow_nodes[j].tokens + count,
{
    let after = scheduler.deliver(producer, sequence_flow, count);
    let added = arrivals(
        scheduler.flow_nodes,
        producer as int,
        sequence_flow,
        scheduler.flow_nodes.len() as int,
    );
    arrivals_are_arrivals(
        scheduler.flow_nodes,
        producer as int,
        sequence_flow,
        scheduler.flow_nodes.len() as int,
    );
    prefix_of_longer(scheduler.log, added);
    prefix_of_itself(scheduler.events);
    assert forall|i: int| scheduler.log.len() <= i < after.log.len() implies !is_done(
        #[trigger] after.log[i],
    ) by {
        assert(after.log[i] == added[i - scheduler.log.len()]);
    }
    assert forall|j: int| 0 <= j < scheduler.flow_nodes.len() implies {
        &&& (#[trigger] after.flow_nodes[j]).id == scheduler.flow_nodes[j].id
        &&& scheduler.flow_nodes[j].tokens <= after.flow_nodes[j].tokens
        &&& after.flow_nodes[j].tokens <= scheduler.flow_nodes[j].tokens + count
        &&& (after.flow_nodes[j].scheduled ==> scheduler.flow_nodes[j].scheduled)
    } by {
        assert(scheduler.flow_nodes[j].tokens + count <= usize::MAX);
    }
}

/// Probing a sequence flow logs at most an expression error, and changes
/// nothing else.
proof fn probe_sequence_flow_is_quiet<N: FlowNode, H>(
    scheduler: SchedulerView<N, H>,
    sequence_flow: SequenceFlow,
    evaluation: Result<bool, String>,
)
    ensures
        quiet(scheduler, scheduler.probe_sequence_flow(sequence_flow, evaluation).0),
        scheduler.probe_sequence_flow(sequence_flow, evaluation).0.flow_nodes
            == scheduler.flow_nodes,
{
    unchanged_is_quiet(scheduler);
    match evaluation {
        Err(error) => prefix_of_pushed(scheduler.log, Log::ExpressionError { error }),
        Ok(_) => {},
    }
}

proof fn flow_one_is_quiet<N: FlowNode, H>(
    scheduler: SchedulerView<N, H>,
    producer: usize,
    outgoings: Seq<String>,
    index: usize,
    count: usize,
    evaluation: Result<bool, String>,
)
    requires
        room_for(scheduler.flow_nodes, count as nat),
    ensures
        quiet(scheduler, scheduler.flow_one(producer, outgoings, index, count, evaluation)),
        forall|j: int|
            0 <= j < scheduler.flow_nodes.len() ==> (#[trigger] scheduler.flow_one(
                producer,
                outgoings,
                index,
                count,
                evaluation,
            ).flow_nodes[j]).tokens <= scheduler.flow_nodes[j].tokens + count,
{
    match scheduler.flow_at(outgoings, index) {
        Some(sequence_flow) => {
            let (probed, success) = scheduler.probe_sequence_flow(sequence_flow, evaluation);
            probe_sequence_flow_is_quiet(scheduler, sequence_flow, evaluation);
            if success {
                deliver_is_quiet(probed, producer, sequence_flow, count);
                quiet_then_quiet(
                    scheduler,
                    probed,
                    probed.deliver(producer, sequence_flow, count),
                );
            }
        },
        None => {
            unchanged_is_quiet(scheduler);
        },
    }
}

/// Sending tokens along `upto` sequence flows raises the tokens of a flow
/// node by `upto` times their number at most.
proof fn flow_is_quiet<N: FlowNode, H>(
    scheduler: SchedulerView<N, H>,
    producer: usize,
    outgoings: Seq<String>,
    indices: Seq<usize>,
    evaluations: Seq<Result<bool, String>>,
    upto: int,
)
    requires
        0 <= upto,
        indices.len() <= usize::MAX,
        room_for(scheduler.flow_nodes, (upto * indices.len()) as nat),
    ensures
        quiet(scheduler, scheduler.flow_upto(producer, outgoings, indices, evaluations, upto)),
        forall|j: int|
            0 <= j < scheduler.flow_nodes.len() ==> (#[trigger] scheduler.flow_upto(
                producer,
                outgoings,
                indices,
                evaluations,
                upto,
            ).flow_nodes[j]).tokens <= scheduler.flow_nodes[j].tokens + upto * indices.len(),
    decreases upto,
{
    let count = indices.len();
    if upto > 0 {
        assert((upto - 1) * count + count == upto * count) by (nonlinear_arith);
        assert((upto - 1) * count >= 0) by (nonlinear_arith)
            requires
                upto > 0,
                count >= 0,
        ;
        flow_is_quiet(scheduler, producer, outgoings, indices, evaluations, upto - 1);
        let sent = scheduler.flow_upto(producer, outgoings, indices, evaluations, upto - 1);
        assert forall|j: int| 0 <= j < sent.flow_nodes.len() implies (
        #[trigger] sent.flow_nodes[j]).tokens + count <= usize::MAX by {
            assert(scheduler.flow_nodes[j].tokens + upto * count <= usize::MAX);
        }
        flow_one_is_quiet(
            sent,
            producer,
            outgoings,
            indices[upto - 1],
            count as usize,
            evaluations[upto - 1],
        );
        let after = scheduler.flow_upto(producer, outgoings, indices, evaluations, upto);
        quiet_then_quiet(scheduler, sent, after);
        assert forall|j: int| 0 <= j < scheduler.flow_nodes.len() implies (
        #[trigger] after.flow_nodes[j]).tokens <= scheduler.flow_nodes[j].tokens + upto
            * count by {
            assert(sent.flow_nodes[j].tokens <= scheduler.flow_nodes[j].tokens + (upto - 1)
                * count);
        }
    } else {
        assert(0 * count == 0) by (nonlinear_arith);
        unchanged_is_quiet(scheduler);
    }
}

proof fn probe_is_quiet<N: FlowNode, H>(
    scheduler: SchedulerView<N, H>,
    producer: usize,
    outgoings: Seq<String>,
    indices: Seq<usize>,
    evaluations: Seq<Result<bool, String>>,
    upto: int,
)
    requires
        producer < scheduler.flow_nodes.len(),
    ensures
        quiet(scheduler, scheduler.probe_upto(producer, outgoings, indices, evaluations, upto)),
        retold(
            scheduler.flow_nodes,
            scheduler.probe_upto(producer, outgoings, indices, evaluations, upto).flow_nodes,
        ),
    decreases upto,
{
    if upto > 0 {
        probe_is_quiet(scheduler, producer, outgoings, indices, evaluations, upto - 1);
        let told = scheduler.probe_upto(producer, outgoings, indices, evaluations, upto - 1);
        let after = scheduler.probe_upto(producer, outgoings, indices, evaluations, upto);
        match told.flow_at(outgoings, indices[upto - 1]) {
            Some(sequence_flow) => {
                probe_sequence_flow_is_quiet(told, sequence_flow, evaluations[upto - 1]);
                let probed = told.probe_sequence_flow(sequence_flow, evaluations[upto - 1]).0;
                assert(retold(probed.flow_nodes, after.flow_nodes));
                retold_then_retold(scheduler.flow_nodes, told.flow_nodes, after.flow_nodes);
                assert(quiet(probed, after)) by {
                    unchanged_is_quiet(probed);
                }
                quiet_then_quiet(told, probed, after);
                quiet_then_quiet(scheduler, told, after);
            },
            None => {},
        }
    } else {
        unchanged_is_quiet(scheduler);
    }
}

/// Carrying out what became of an action lowers no count of tokens, takes
/// nothing back from the log, and logs `Done` only when the last flow node
/// leaves the schedule.
pub proof fn settle_grows<N: FlowNode, H>(
    scheduler: SchedulerView<N, H>,
    producer: usize,
    control: ControlView,
    evaluations: Seq<Result<bool, String>>,
)
    requires
        scheduler.room_to_settle(control),
    ensures
        grows(scheduler, scheduler.settle(producer, control, evaluations)),
        scheduler.settle(producer, control, evaluations).terminated == scheduler.terminated,
        scheduler.settle(producer, control, evaluations).join_handle == scheduler.join_handle,
        scheduler.settle(producer, control, evaluations).events == scheduler.events,
{
    let after = scheduler.settle(producer, control, evaluations);
    unchanged_is_quiet(scheduler);
    if scheduler.scheduled(producer) {
        match control {
            ControlView::Proceed(Some(ActionView::ProbeOutgoingSequenceFlows(indices))) => {
                probe_is_quiet(
                    scheduler,
                    producer,
                    scheduler.outgoings(producer),
                    indices,
                    evaluations,
                    indices.len() as int,
                );
                probe_keeps_events(
                    scheduler,
                    producer,
                    scheduler.outgoings(producer),
                    indices,
                    evaluations,
                    indices.len() as int,
                );
            },
            ControlView::Proceed(Some(ActionView::Flow(indices))) => {
                let count = indices.len();
                assert(count <= usize::MAX) by {
                    assert(scheduler.flow_nodes[producer as int].tokens + count * count
                        <= usize::MAX);
                    assert(count <= count * count) by (nonlinear_arith)
                        requires
                            count >= 0,
                    ;
                }
                flow_is_quiet(
                    scheduler,
                    producer,
                    scheduler.outgoings(producer),
                    indices,
                    evaluations,
                    indices.len() as int,
                );
                flow_keeps_events(
                    scheduler,
                    producer,
                    scheduler.outgoings(producer),
                    indices,
                    evaluations,
                    indices.len() as int,
                );
            },
            ControlView::Proceed(Some(ActionView::Complete)) => {
                prefix_of_pushed(
                    scheduler.log,
                    Log::FlowNodeCompleted {
                        node: scheduler.flow_nodes[producer as int].node.spec_element(),
                    },
                );
                assert(quiet(scheduler, after));
            },
            ControlView::Proceed(None) => {
                prefix_of_pushed(scheduler.log, Log::Done);
                assert(scheduler.flow_nodes[producer as int].scheduled);
            },
            ControlView::Drop => {},
        }
    }
}

proof fn flow_keeps_events<N: FlowNode, H>(
    scheduler: SchedulerView<N, H>,
    producer: usize,
    outgoings: Seq<String>,
    indices: Seq<usize>,
    evaluations: Seq<Result<bool, String>>,
    upto: int,
)
    ensures
        scheduler.flow_upto(producer, outgoings, indices, evaluations, upto).events
            == scheduler.events,
    decreases upto,
{
    if upto > 0 {
        flow_keeps_events(scheduler, producer, outgoings, indices, evaluations, upto - 1);
    }
}

proof fn probe_keeps_events<N: FlowNode, H>(
    scheduler: SchedulerView<N, H>,
    producer: usize,
    outgoings: Seq<String>,
    indices: Seq<usize>,
    evaluations: Seq<Result<bool, String>>,
    upto: int,
)
    ensures
        scheduler.probe_upto(producer, outgoings, indices, evaluations, upto).events
            == scheduler.events,
    decreases upto,
{
    if upto > 0 {
        probe_keeps_events(scheduler, producer, outgoings, indices, evaluations, upto - 1);
    }
}

/// A turn given to a flow node lowers no count of tokens, schedules no
/// flow node anew, renames none, and takes nothing back from the log or
/// the events. `Done` is logged in it at most once, and only when it leaves
/// no flow node scheduled.
pub proof fn turn_grows<N: FlowNode, H>(
    scheduler: SchedulerView<N, H>,
    producer: usize,
    evaluations: Seq<Result<bool, String>>,
)
    requires
        scheduler.room_to_turn(producer),
    ensures
        grows(scheduler, scheduler.turn(producer, evaluations)),
        scheduler.turn(producer, evaluations).terminated == scheduler.terminated,
        scheduler.turn(producer, evaluations).join_handle == scheduler.join_handle,
{
    let (advanced, control) = scheduler.advance(producer);
    advance_retells(scheduler, producer);
    retold_keeps_pace(scheduler.flow_nodes, advanced.flow_nodes);
    prefix_of_itself(scheduler.log);
    assert(quiet(scheduler, advanced));
    match control {
        Some(control) => {
            settle_grows(advanced, producer, control, evaluations);
            quiet_then_grows(scheduler, advanced, advanced.settle(producer, control, evaluations));
        },
        None => {},
    }
}

/// A control request moves no token, takes no flow node off the schedule
/// and logs nothing.
pub proof fn receive_grows<N: FlowNode, H>(
    scheduler: SchedulerView<N, H>,
    request: Option<Request<H>>,
)
    ensures
        grows(scheduler, scheduler.receive(request).0),
        retold(scheduler.flow_nodes, scheduler.receive(request).0.flow_nodes),
        scheduler.receive(request).0.log == scheduler.log,
{
    unchanged_is_quiet(scheduler);
    prefix_of_pushed(scheduler.events, ProcessEvent::Start);
}

/// Where `Done` stood in the log at most once, and only with no flow node
/// scheduled, it still does after the scheduler has moved on.
pub proof fn done_stays_once<N: FlowNode, H>(
    before: SchedulerView<N, H>,
    after: SchedulerView<N, H>,
)
    requires
        done_once(before),
        grows(before, after),
    ensures
        done_once(after),
{
    assert forall|i: int| 0 <= i < after.log.len() && is_done(
        #[trigger] after.log[i],
    ) implies after.idle() by {
        if i < before.log.len() {
            assert(after.log[i] == before.log[i]);
            assert(before.idle());
            assert forall|j: int| 0 <= j < after.flow_nodes.len() implies !(
            #[trigger] after.flow_nodes[j]).scheduled by {
                assert(!before.flow_nodes[j].scheduled);
            }
        }
    }
    assert forall|i: int, j: int| 0 <= i < j < after.log.len() implies !(is_done(
        #[trigger] after.log[i],
    ) && is_done(#[trigger] after.log[j])) by {
        if i < before.log.len() {
            assert(after.log[i] == before.log[i]);
            if j < before.log.len() {
                assert(after.log[j] == before.log[j]);
            }
        }
    }
}

/// A scheduler starts out with nothing logged.
pub proof fn done_once_at_first<N: FlowNode, H>(scheduler: SchedulerView<N, H>)
    requires
        scheduler.log.len() == 0,
    ensures
        done_once(scheduler),
{
}

/// `Done` is logged at most once, and only with no flow node scheduled:
/// what holds of a scheduler in this respect holds of it after every
/// control request and after every turn.
pub proof fn done_is_logged_at_most_once<N: FlowNode, H>(
    scheduler: SchedulerView<N, H>,
    request: Option<Request<H>>,
    producer: usize,
    evaluations: Seq<Result<bool, String>>,
)
    requires
        done_once(scheduler),
        scheduler.room_to_turn(producer),
    ensures
        done_once(scheduler.receive(request).0),
        done_once(scheduler.turn(producer, evaluations)),
{
    receive_grows(scheduler, request);
    done_stays_once(scheduler, scheduler.receive(request).0);
    turn_grows(scheduler, producer, evaluations);
    done_stays_once(scheduler, scheduler.turn(producer, evaluations));
}

/// The number of tokens of a flow node never goes down: not by a control
/// request, and not by a turn, whichever flow node it is given to.
pub proof fn tokens_never_go_down<N: FlowNode, H>(
    scheduler: SchedulerView<N, H>,
    request: Option<Request<H>>,
    producer: usize,
    evaluations: Seq<Result<bool, String>>,
    j: int,
)
    requires
        0 <= j < scheduler.flow_nodes.len(),
        scheduler.room_to_turn(producer),
    ensures
        scheduler.receive(request).0.flow_nodes[j].tokens == scheduler.flow_nodes[j].tokens,
        scheduler.turn(producer, evaluations).flow_nodes[j].tokens
            >= scheduler.flow_nodes[j].tokens,
{
    receive_grows(scheduler, request);
    turn_grows(scheduler, producer, evaluations);
}

} // verus!
