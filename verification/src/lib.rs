//! Supervised workflow learning: canonical workflow models, redaction of
//! sensitive values, the mode-promotion engine and in-memory observation.

pub mod accessibility;
pub mod engine;
pub mod external;
pub mod model;
pub mod observer;
pub mod text;

pub use accessibility::{
    AccessibilityBackend, AccessibilityError, AccessibilityPermission, FocusedElement,
};
pub use engine::{EngineConfig, ExecutionDecision, WorkflowEngine};
pub use model::{
    is_sensitive_target, mode_label, status_label, visible_state, ActionKind, Actor, AgentMode,
    Evidence, Session, Step, StepStatus, Timestamp, Workflow,
};
pub use observer::{MemoryObserver, ObservationEvent, ObservationSink, ObserverError, PauseSwitch};
