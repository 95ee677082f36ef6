//! # Event subsystem
pub mod end_event;
pub mod start_event;

pub use end_event::EndEvent;
pub use start_event::StartEvent;
use crate::bpmn::{
    CancelEventDefinition, CompensateEventDefinition, ConditionalEventDefinition,
    ErrorEventDefinition, EscalationEventDefinition, EventDefinition, LinkEventDefinition,
    MessageEventDefinition, OperationRef, SignalEventDefinition, Source, Target,
    TerminateEventDefinition, TimerEventDefinition,
};
use vstd::prelude::*;
use vstd::std_specs::convert::{FromSpecImpl, TryFromSpecImpl};

verus! {

#[derive(Clone, Debug, PartialEq, Eq)]
#[non_exhaustive]
pub enum ProcessEvent {
    /// Process has started
    Start,
    /// Process has ended
    End,
    /// None Event was thrown
    NoneEvent,
    /// Signal Event
    SignalEvent { signal_ref: Option<String> },
    /// Cancel Event
    CancelEvent,
    /// Terminate Event
    TerminateEvent,
    /// Compensation Event
    CompensationEvent { activity_ref: Option<String> },
    /// Message Event
    MessageEvent { message_ref: Option<String>, operation_ref: Option<OperationRef> },
    /// Escalation Event
    EscalationEvent { escalation_ref: Option<String> },
    /// Link Event
    LinkEvent { sources: Vec<Source>, target: Option<Target> },
    /// Error Event
    ErrorEvent { error_ref: Option<String> },
}

/// Event conversion error
#[derive(Clone, Copy, Debug, PartialEq, Eq, Structural)]
pub enum ConversionError {
    /// Event can't be converted
    Impossible,
    /// Event can be converted, but this hasn't been implemented yet
    NotImplemented,
}

impl TryFrom<CancelEventDefinition> for ProcessEvent {
    type Error = ConversionError;

    fn try_from(_event_definition: CancelEventDefinition) -> (event: Result<Self, Self::Error>) {
        Ok(ProcessEvent::CancelEvent)
    }
}

impl TryFromSpecImpl<CancelEventDefinition> for ProcessEvent {
    open spec fn obeys_try_from_spec() -> bool {
        true
    }

    open spec fn try_from_spec(event_definition: CancelEventDefinition) -> Result<
        Self,
        Self::Error,
    > {
        Ok(ProcessEvent::CancelEvent)
    }
}

impl TryFrom<TerminateEventDefinition> for ProcessEvent {
    type Error = ConversionError;

    fn try_from(_event_definition: TerminateEventDefinition) -> (event: Result<
        Self,
        Self::Error,
    >) {
        Ok(ProcessEvent::TerminateEvent)
    }
}

impl TryFromSpecImpl<TerminateEventDefinition> for ProcessEvent {
    open spec fn obeys_try_from_spec() -> bool {
        true
    }

    open spec fn try_from_spec(event_definition: TerminateEventDefinition) -> Result<
        Self,
        Self::Error,
    > {
        Ok(ProcessEvent::TerminateEvent)
    }
}

impl TryFrom<CompensateEventDefinition> for ProcessEvent {
    type Error = ConversionError;

    fn try_from(event_definition: CompensateEventDefinition) -> (event: Result<
        Self,
        Self::Error,
    >) {
        Ok(ProcessEvent::CompensationEvent { activity_ref: event_definition.activity_ref })
    }
}

impl TryFromSpecImpl<CompensateEventDefinition> for ProcessEvent {
    open spec fn obeys_try_from_spec() -> bool {
        true
    }

    open spec fn try_from_spec(event_definition: CompensateEventDefinition) -> Result<
        Self,
        Self::Error,
    > {
        Ok(ProcessEvent::CompensationEvent { activity_ref: event_definition.activity_ref })
    }
}

impl TryFrom<SignalEventDefinition> for ProcessEvent {
    type Error = ConversionError;

    fn try_from(event_definition: SignalEventDefinition) -> (event: Result<Self, Self::Error>) {
        Ok(ProcessEvent::SignalEvent { signal_ref: event_definition.signal_ref })
    }
}

impl TryFromSpecImpl<SignalEventDefinition> for ProcessEvent {
    open spec fn obeys_try_from_spec() -> bool {
        true
    }

    open spec fn try_from_spec(event_definition: SignalEventDefinition) -> Result<
        Self,
        Self::Error,
    > {
        Ok(ProcessEvent::SignalEvent { signal_ref: event_definition.signal_ref })
    }
}

impl TryFrom<MessageEventDefinition> for ProcessEvent {
    type Error = ConversionError;

    fn try_from(event_definition: MessageEventDefinition) -> (event: Result<Self, Self::Error>) {
        Ok(
            ProcessEvent::MessageEvent {
                message_ref: event_definition.message_ref,
                operation_ref: event_definition.operation_ref,
            },
        )
    }
}

impl TryFromSpecImpl<MessageEventDefinition> for ProcessEvent {
    open spec fn obeys_try_from_spec() -> bool {
        true
    }

    open spec fn try_from_spec(event_definition: MessageEventDefinition) -> Result<
        Self,
        Self::Error,
    > {
        Ok(
            ProcessEvent::MessageEvent {
                message_ref: event_definition.message_ref,
                operation_ref: event_definition.operation_ref,
            },
        )
    }
}

impl TryFrom<EscalationEventDefinition> for ProcessEvent {
    type Error = ConversionError;

    fn try_from(event_definition: EscalationEventDefinition) -> (event: Result<
        Self,
        Self::Error,
    >) {
        Ok(ProcessEvent::EscalationEvent { escalation_ref: event_definition.escalation_ref })
    }
}

impl TryFromSpecImpl<EscalationEventDefinition> for ProcessEvent {
    open spec fn obeys_try_from_spec() -> bool {
        true
    }

    open spec fn try_from_spec(event_definition: EscalationEventDefinition) -> Result<
        Self,
        Self::Error,
    > {
        Ok(ProcessEvent::EscalationEvent { escalation_ref: event_definition.escalation_ref })
    }
}

impl TryFrom<LinkEventDefinition> for ProcessEvent {
    type Error = ConversionError;

    fn try_from(event_definition: LinkEventDefinition) -> (event: Result<Self, Self::Error>) {
        Ok(
            ProcessEvent::LinkEvent {
                sources: event_definition.sources,
                target: event_definition.target,
            },
        )
    }
}

impl TryFromSpecImpl<LinkEventDefinition> for ProcessEvent {
    open spec fn obeys_try_from_spec() -> bool {
        true
    }

    open spec fn try_from_spec(event_definition: LinkEventDefinition) -> Result<
        Self,
        Self::Error,
    > {
        Ok(
            ProcessEvent::LinkEvent {
                sources: event_definition.sources,
                target: event_definition.target,
            },
        )
    }
}

impl TryFrom<ErrorEventDefinition> for ProcessEvent {
    type Error = ConversionError;

    fn try_from(event_definition: ErrorEventDefinition) -> (event: Result<Self, Self::Error>) {
        Ok(ProcessEvent::ErrorEvent { error_ref: event_definition.error_ref })
    }
}

impl TryFromSpecImpl<ErrorEventDefinition> for ProcessEvent {
    open spec fn obeys_try_from_spec() -> bool {
        true
    }

    open spec fn try_from_spec(event_definition: ErrorEventDefinition) -> Result<
        Self,
        Self::Error,
    > {
        Ok(ProcessEvent::ErrorEvent { error_ref: event_definition.error_ref })
    }
}

impl TryFrom<ConditionalEventDefinition> for ProcessEvent {
    type Error = ConversionError;

    fn try_from(_event_definition: ConditionalEventDefinition) -> (event: Result<
        Self,
        Self::Error,
    >) {
        Err(ConversionError::Impossible)
    }
}

impl TryFromSpecImpl<ConditionalEventDefinition> for ProcessEvent {
    open spec fn obeys_try_from_spec() -> bool {
        true
    }

    open spec fn try_from_spec(event_definition: ConditionalEventDefinition) -> Result<
        Self,
        Self::Error,
    > {
        Err(ConversionError::Impossible)
    }
}

impl TryFrom<TimerEventDefinition> for ProcessEvent {
    type Error = ConversionError;

    fn try_from(_event_definition: TimerEventDefinition) -> (event: Result<Self, Self::Error>) {
        Err(ConversionError::Impossible)
    }
}

impl TryFromSpecImpl<TimerEventDefinition> for ProcessEvent {
    open spec fn obeys_try_from_spec() -> bool {
        true
    }

    open spec fn try_from_spec(event_definition: TimerEventDefinition) -> Result<
        Self,
        Self::Error,
    > {
        Err(ConversionError::Impossible)
    }
}

impl<T> From<Box<T>> for ConversionError {
    fn from(_unconverted: Box<T>) -> (error: Self) {
        Self::NotImplemented
    }
}

impl<T> FromSpecImpl<Box<T>> for ConversionError {
    open spec fn obeys_from_spec() -> bool {
        true
    }

    open spec fn from_spec(unconverted: Box<T>) -> Self {
        Self::NotImplemented
    }
}

impl TryFrom<EventDefinition> for ProcessEvent {
    type Error = ConversionError;

    fn try_from(event_definition: EventDefinition) -> (event: Result<Self, Self::Error>) {
        match event_definition {
            EventDefinition::Cancel(e) => ProcessEvent::try_from(e),
            EventDefinition::Terminate(e) => ProcessEvent::try_from(e),
            EventDefinition::Compensate(e) => ProcessEvent::try_from(e),
            EventDefinition::Message(e) => ProcessEvent::try_from(e),
            EventDefinition::Escalation(e) => ProcessEvent::try_from(e),
            EventDefinition::Link(e) => ProcessEvent::try_from(e),
            EventDefinition::Error(e) => ProcessEvent::try_from(e),
            EventDefinition::Conditional(e) => ProcessEvent::try_from(e),
            EventDefinition::Timer(e) => ProcessEvent::try_from(e),
            EventDefinition::Signal(e) => ProcessEvent::try_from(e),
        }
    }
}

impl TryFromSpecImpl<EventDefinition> for ProcessEvent {
    open spec fn obeys_try_from_spec() -> bool {
        true
    }

    open spec fn try_from_spec(event_definition: EventDefinition) -> Result<Self, Self::Error> {
        match event_definition {
            EventDefinition::Cancel(_) => Ok(ProcessEvent::CancelEvent),
            EventDefinition::Terminate(_) => Ok(ProcessEvent::TerminateEvent),
            EventDefinition::Compensate(e) => Ok(
                ProcessEvent::CompensationEvent { activity_ref: e.activity_ref },
            ),
            EventDefinition::Message(e) => Ok(
                ProcessEvent::MessageEvent {
                    message_ref: e.message_ref,
                    operation_ref: e.operation_ref,
                },
            ),
            EventDefinition::Escalation(e) => Ok(
                ProcessEvent::EscalationEvent { escalation_ref: e.escalation_ref },
            ),
            EventDefinition::Link(e) => Ok(
                ProcessEvent::LinkEvent { sources: e.sources, target: e.target },
            ),
            EventDefinition::Error(e) => Ok(ProcessEvent::ErrorEvent { error_ref: e.error_ref }),
            EventDefinition::Conditional(_) => Err(ConversionError::Impossible),
            EventDefinition::Timer(_) => Err(ConversionError::Impossible),
            EventDefinition::Signal(e) => Ok(ProcessEvent::SignalEvent { signal_ref: e.signal_ref }),
        }
    }
}

} // verus!
