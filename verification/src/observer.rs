//! Observation of user events, with a pause switch shared between the
//! observer and those who may stop it at once.

use crate::external::share_flag;
use crate::model::{is_clock_time, is_sensitive, kept_value, ActionKind, Actor, Step, StepStatus, Timestamp};
use std::sync::atomic::AtomicBool;
use std::sync::atomic::Ordering;
use std::sync::Arc;
use vstd::prelude::*;

verus! {

/// An event observed from the user.
#[derive(Debug, Clone, PartialEq)]
pub struct ObservationEvent {
    pub timestamp: Timestamp,
    pub action: ActionKind,
    pub target: String,
    pub value: Option<String>,
}

impl ObservationEvent {
    /// The user's step recorded for this event at position `index`: its value,
    /// if any, kept as a sensitive target allows.
    pub fn into_step(self, index: u32) -> (step: Step)
        ensures
            step.index == index,
            step.action == self.action,
            step.target@ == self.target@,
            step.actor == Actor::User,
            step.sensitive == is_sensitive(self.target@),
            is_clock_time(step.timestamp),
            match self.value {
                Some(v) => step.value is Some && step.value->0@ == kept_value(step.sensitive, v@),
                None => step.value is None,
            },
            step.confidence is None,
            step.expected is None,
            step.observed is None,
            step.status == StepStatus::Waiting,
            step.evidence is None,
    {
        let step = Step::new(index, self.action, self.target.as_str(), Actor::User);
        match self.value {
            Some(v) => step.with_value(v.as_str()),
            None => step,
        }
    }
}

/// A switch that stops observation at once. Its clones share one flag, so
/// that a pause through any of them stops the observer that holds another.
#[derive(Debug, Clone)]
pub struct PauseSwitch {
    paused: Arc<AtomicBool>,
}

impl Default for PauseSwitch {
    /// A switch, not paused, shared with nobody yet.
    fn default() -> Self {
        PauseSwitch { paused: Arc::new(AtomicBool::new(false)) }
    }
}

impl PauseSwitch {
    /// Raises the shared flag.
    pub fn pause(&self) {
        self.paused.store(true, Ordering::SeqCst);
    }

    /// Lowers the shared flag.
    pub fn resume(&self) {
        self.paused.store(false, Ordering::SeqCst);
    }

    /// Reads the shared flag.
    pub fn is_paused(&self) -> bool {
        self.paused.load(Ordering::SeqCst)
    }
}

/// A refusal to record an event.
#[derive(Debug, Clone, PartialEq, Eq)]
pub enum ObserverError {
    Paused,
    SensitiveTarget(String),
    Backend(String),
}

/// The text that describes an observer error.
pub open spec fn observer_error_message(e: ObserverError) -> Seq<char> {
    match e {
        ObserverError::Paused => "observation is paused"@,
        ObserverError::SensitiveTarget(t) => "sensitive target rejected: "@ + t@,
        ObserverError::Backend(b) => "observer backend error: "@ + b@,
    }
}

impl ObserverError {
    /// The text that describes the error.
    pub fn message(&self) -> (text: String)
        ensures
            text@ == observer_error_message(*self),
    {
        match self {
            ObserverError::Paused => String::from_str("observation is paused"),
            ObserverError::SensitiveTarget(t) => String::from_str(
                "sensitive target rejected: ",
            ).concat(t.as_str()),
            ObserverError::Backend(b) => String::from_str("observer backend error: ").concat(
                b.as_str(),
            ),
        }
    }
}

/// Where observed events go.
pub trait ObservationSink {
    fn record(&mut self, event: ObservationEvent) -> Result<(), ObserverError>;
}

/// An observer that keeps the events it records in memory.
#[derive(Debug)]
pub struct MemoryObserver {
    pause_switch: PauseSwitch,
    events: Vec<ObservationEvent>,
}

impl Default for MemoryObserver {
    /// An observer with no events and a switch of its own, not paused.
    fn default() -> (observer: Self)
        ensures
            observer.recorded().len() == 0,
    {
        MemoryObserver { pause_switch: PauseSwitch::default(), events: Vec::new() }
    }
}

impl MemoryObserver {
    /// The events recorded so far, in order.
    pub closed spec fn recorded(&self) -> Seq<ObservationEvent> {
        self.events@
    }

    /// The observer's switch.
    pub closed spec fn switch(&self) -> PauseSwitch {
        self.pause_switch
    }

    /// A switch that shares this observer's flag: a pointer to the same flag
    /// as the observer's own switch.
    pub fn pause_switch(&self) -> (switch: PauseSwitch)
        ensures
            switch == self.switch(),
    {
        PauseSwitch { paused: share_flag(&self.pause_switch.paused) }
    }

    /// The events recorded so far, in order.
    pub fn events(&self) -> (events: &[ObservationEvent])
        ensures
            events@ == self.recorded(),
    {
        self.events.as_slice()
    }

    /// Records `event` unless `paused`, in which case it refuses and keeps
    /// the events as they were.
    pub fn record_unless_paused(&mut self, paused: bool, event: ObservationEvent) -> (res: Result<
        (),
        ObserverError,
    >)
        ensures
            final(self).switch() == old(self).switch(),
            paused ==> res == Err::<(), ObserverError>(ObserverError::Paused) && final(self).recorded() == old(self).recorded(),
            !paused ==> res is Ok && final(self).recorded() == old(self).recorded().push(event),
    {
        if paused {
            return Err(ObserverError::Paused);
        }
        self.events.push(event);
        Ok(())
    }
}

impl ObservationSink for MemoryObserver {
    /// Records `event` unless the shared flag is raised when it is read.
    fn record(&mut self, event: ObservationEvent) -> (res: Result<(), ObserverError>)
        ensures
            final(self).switch() == old(self).switch(),
            res is Ok ==> final(self).recorded() == old(self).recorded().push(event),
            res is Err ==> res == Err::<(), ObserverError>(ObserverError::Paused) && final(self).recorded() == old(self).recorded(),
    {
        let paused = self.pause_switch.is_paused();
        self.record_unless_paused(paused, event)
    }
}

} // verus!
