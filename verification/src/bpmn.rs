//! # Process model
//!
//! The part of a BPMN document that execution reads: flow nodes, the sequence
//! flows between them and the event definitions a throwing event carries. A
//! process is immutable while it runs.
use std::sync::Arc;
use vstd::prelude::*;

verus! {

/// Tag telling the kinds of flow node apart
#[derive(Clone, Copy, Debug, PartialEq, Eq, Structural)]
pub enum ElementKind {
    StartEvent,
    EndEvent,
    IntermediateThrowEvent,
    /// Any flow node that execution has no behaviour for
    Other,
}

/// Static description of a flow node
#[derive(Debug, PartialEq, Eq)]
pub struct Element {
    pub id: Option<String>,
    /// Identifiers of the sequence flows that end at this node, in document order
    pub incomings: Vec<String>,
    /// Identifiers of the sequence flows that leave this node, in document order
    pub outgoings: Vec<String>,
    pub kind: ElementKind,
}

/// Expression in some expression language
#[derive(Debug, PartialEq, Eq)]
pub struct FormalExpression {
    /// Language of `content`; the process default applies when absent
    pub language: Option<String>,
    pub content: Option<String>,
}

/// Condition attached to a sequence flow
#[derive(Debug, PartialEq, Eq)]
pub enum Expr {
    /// Natural-language expression, not meant to be evaluated
    Expression,
    FormalExpression(FormalExpression),
}

/// Directed edge between two flow nodes
#[derive(Debug, PartialEq, Eq)]
pub struct SequenceFlow {
    pub id: Option<String>,
    pub source_ref: String,
    pub target_ref: String,
    pub condition_expression: Option<Expr>,
}

/// Member of a process
#[derive(Debug, PartialEq, Eq)]
pub enum FlowElement {
    FlowNode(Arc<Element>),
    SequenceFlow(Arc<SequenceFlow>),
}

/// Process definition
#[derive(Debug, PartialEq, Eq)]
pub struct Process {
    pub id: Option<String>,
    pub flow_elements: Vec<FlowElement>,
}

/// Reference to the operation a message event belongs to
#[derive(Clone, Debug, PartialEq, Eq)]
pub struct OperationRef {
    pub content: Option<String>,
}

/// Source of a link event
#[derive(Clone, Debug, PartialEq, Eq)]
pub struct Source {
    pub content: Option<String>,
}

/// Target of a link event
#[derive(Clone, Debug, PartialEq, Eq)]
pub struct Target {
    pub content: Option<String>,
}

#[derive(Debug, PartialEq, Eq)]
pub struct CancelEventDefinition {
    pub id: Option<String>,
}

#[derive(Debug, PartialEq, Eq)]
pub struct TerminateEventDefinition {
    pub id: Option<String>,
}

#[derive(Debug, PartialEq, Eq)]
pub struct CompensateEventDefinition {
    pub id: Option<String>,
    pub activity_ref: Option<String>,
}

#[derive(Debug, PartialEq, Eq)]
pub struct SignalEventDefinition {
    pub id: Option<String>,
    pub signal_ref: Option<String>,
}

#[derive(Debug, PartialEq, Eq)]
pub struct MessageEventDefinition {
    pub id: Option<String>,
    pub message_ref: Option<String>,
    pub operation_ref: Option<OperationRef>,
}

#[derive(Debug, PartialEq, Eq)]
pub struct EscalationEventDefinition {
    pub id: Option<String>,
    pub escalation_ref: Option<String>,
}

#[derive(Debug, PartialEq, Eq)]
pub struct LinkEventDefinition {
    pub id: Option<String>,
    pub sources: Vec<Source>,
    pub target: Option<Target>,
}

#[derive(Debug, PartialEq, Eq)]
pub struct ErrorEventDefinition {
    pub id: Option<String>,
    pub error_ref: Option<String>,
}

#[derive(Debug, PartialEq, Eq)]
pub struct ConditionalEventDefinition {
    pub id: Option<String>,
    pub condition: Option<Expr>,
}

#[derive(Debug, PartialEq, Eq)]
pub struct TimerEventDefinition {
    pub id: Option<String>,
    pub time_date: Option<Expr>,
    pub time_duration: Option<Expr>,
    pub time_cycle: Option<Expr>,
}

/// Event definition of any kind
#[derive(Debug, PartialEq, Eq)]
pub enum EventDefinition {
    Cancel(CancelEventDefinition),
    Terminate(TerminateEventDefinition),
    Compensate(CompensateEventDefinition),
    Message(MessageEventDefinition),
    Escalation(EscalationEventDefinition),
    Link(LinkEventDefinition),
    Error(ErrorEventDefinition),
    Conditional(ConditionalEventDefinition),
    Timer(TimerEventDefinition),
    Signal(SignalEventDefinition),
}

/// Position of the first name in `names` from `from` on that reads `name`
pub open spec fn position_from(names: Seq<String>, name: Seq<char>, from: int) -> Option<int>
    decreases names.len() - from,
{
    if from < 0 || from >= names.len() {
        None
    } else if names[from]@ == name {
        Some(from)
    } else {
        position_from(names, name, from + 1)
    }
}

/// Position of the first name in `names` that reads `name`
pub open spec fn position(names: Seq<String>, name: Seq<char>) -> Option<int> {
    position_from(names, name, 0)
}

/// A position found is the first one that holds the name
pub proof fn position_is_first(names: Seq<String>, name: Seq<char>, from: int)
    requires
        0 <= from,
    ensures
        match position_from(names, name, from) {
            Some(k) => from <= k < names.len() && names[k]@ == name && forall|j: int|
                from <= j < k ==> names[j]@ != name,
            None => forall|j: int| from <= j < names.len() ==> names[j]@ != name,
        },
    decreases names.len() - from,
{
    if from < names.len() && names[from]@ != name {
        position_is_first(names, name, from + 1);
    }
}

/// Finds where `name` first occurs in `names`
pub fn find_position(names: &Vec<String>, name: &String) -> (found: Option<usize>)
    ensures
        match found {
            Some(k) => position(names@, name@) == Some(k as int),
            None => position(names@, name@) is None,
        },
{
    let mut i: usize = 0;
    while i < names.len()
        invariant
            i <= names.len(),
            position(names@, name@) == position_from(names@, name@, i as int),
        decreases names.len() - i,
    {
        if names[i] == *name {
            return Some(i);
        }
        i = i + 1;
    }
    None
}

impl FlowElement {
    /// Identifier of the element, whichever kind it is
    pub open spec fn spec_id(&self) -> Option<String> {
        match self {
            FlowElement::FlowNode(element) => element.id,
            FlowElement::SequenceFlow(sequence_flow) => sequence_flow.id,
        }
    }

    /// Whether the element carries the identifier `id`
    pub open spec fn named(&self, id: Seq<char>) -> bool {
        self.spec_id() matches Some(own) && own@ == id
    }

    /// Whether the element is a flow node of kind `kind`
    pub open spec fn spec_is(&self, kind: ElementKind) -> bool {
        self matches FlowElement::FlowNode(element) && element.kind == kind
    }

    pub fn id(&self) -> (id: &Option<String>)
        ensures
            *id == self.spec_id(),
    {
        match self {
            FlowElement::FlowNode(element) => &element.id,
            FlowElement::SequenceFlow(sequence_flow) => &sequence_flow.id,
        }
    }

    #[verifier::when_used_as_spec(spec_is)]
    pub fn is(&self, kind: ElementKind) -> (is: bool)
        ensures
            is == self.spec_is(kind),
    {
        match self {
            FlowElement::FlowNode(element) => element.kind == kind,
            FlowElement::SequenceFlow(_) => false,
        }
    }
}

impl Process {
    /// Position of the first flow element from `from` on that carries `id`
    pub open spec fn element_from(&self, id: Seq<char>, from: int) -> Option<int>
        decreases self.flow_elements.len() - from,
    {
        if from < 0 || from >= self.flow_elements.len() {
            None
        } else if self.flow_elements[from].named(id) {
            Some(from)
        } else {
            self.element_from(id, from + 1)
        }
    }

    /// The sequence flow that `id` names: the first flow element carrying
    /// `id`, provided it is a sequence flow
    pub open spec fn sequence_flow(&self, id: Seq<char>) -> Option<Arc<SequenceFlow>> {
        match self.element_from(id, 0) {
            Some(k) => match self.flow_elements[k] {
                FlowElement::SequenceFlow(sequence_flow) => Some(sequence_flow),
                FlowElement::FlowNode(_) => None,
            },
            None => None,
        }
    }

    /// Whether any flow element from `from` on is a flow node of kind `kind`
    pub open spec fn has_kind_from(&self, kind: ElementKind, from: int) -> bool
        decreases self.flow_elements.len() - from,
    {
        if from < 0 || from >= self.flow_elements.len() {
            false
        } else {
            self.flow_elements[from].spec_is(kind) || self.has_kind_from(kind, from + 1)
        }
    }

    /// Whether the process has a flow node of kind `kind`
    pub open spec fn spec_has_kind(&self, kind: ElementKind) -> bool {
        self.has_kind_from(kind, 0)
    }

    /// Looks a sequence flow up by its identifier
    pub fn find_sequence_flow(&self, id: &String) -> (found: Option<Arc<SequenceFlow>>)
        ensures
            found == self.sequence_flow(id@),
    {
        let mut i: usize = 0;
        while i < self.flow_elements.len()
            invariant
                i <= self.flow_elements.len(),
                self.element_from(id@, 0) == self.element_from(id@, i as int),
            decreases self.flow_elements.len() - i,
        {
            let named = match self.flow_elements[i].id() {
                Some(own) => *own == *id,
                None => false,
            };
            if named {
                return match &self.flow_elements[i] {
                    FlowElement::SequenceFlow(sequence_flow) => Some(sequence_flow.clone()),
                    FlowElement::FlowNode(_) => None,
                };
            }
            i = i + 1;
        }
        None
    }

    /// Tells whether the process has a flow node of kind `kind`
    #[verifier::when_used_as_spec(spec_has_kind)]
    pub fn has_kind(&self, kind: ElementKind) -> (has: bool)
        ensures
            has == self.spec_has_kind(kind),
    {
        let mut i: usize = 0;
        while i < self.flow_elements.len()
            invariant
                i <= self.flow_elements.len(),
                self.has_kind_from(kind, 0) == self.has_kind_from(kind, i as int),
            decreases self.flow_elements.len() - i,
        {
            if self.flow_elements[i].is(kind) {
                return true;
            }
            i = i + 1;
        }
        false
    }
}

/// A flow node of the kind exists exactly when some flow element is one
pub proof fn has_kind_means_some_element(process: Process, kind: ElementKind, from: int)
    requires
        0 <= from,
    ensures
        process.has_kind_from(kind, from) <==> exists|k: int|
            from <= k < process.flow_elements.len() && #[trigger] process.flow_elements[k].spec_is(
                kind,
            ),
    decreases process.flow_elements.len() - from,
{
    if from < process.flow_elements.len() {
        has_kind_means_some_element(process, kind, from + 1);
    }
}

} // verus!
