use recall::accessibility::{
    focused_element_unavailable, permission_for, text_insertion_unavailable,
};
use recall::AccessibilityPermission;
use recall::accessibility::AccessibilityError;
use recall::{
    ActionKind, Actor, MemoryObserver, ObservationEvent, ObservationSink, ObserverError,
    PauseSwitch, StepStatus, Timestamp,
};

#[test]
fn pause_switch_stops_recording() {
    let mut observer = MemoryObserver::default();
    observer.pause_switch().pause();
    let result = observer.record(ObservationEvent {
        timestamp: Timestamp::now(),
        action: ActionKind::Click,
        target: "save".into(),
        value: None,
    });
    assert!(matches!(result, Err(ObserverError::Paused)));
}

fn click(target: &str) -> ObservationEvent {
    ObservationEvent {
        timestamp: Timestamp::now(),
        action: ActionKind::Click,
        target: target.to_string(),
        value: None,
    }
}

#[test]
fn recording_resumes_after_resume() {
    let mut observer = MemoryObserver::default();
    assert!(observer.events().is_empty());
    observer.record(click("a")).unwrap();
    let switch = observer.pause_switch();
    switch.pause();
    assert!(observer.pause_switch().is_paused());
    assert!(observer.record(click("b")).is_err());
    switch.resume();
    assert!(!switch.is_paused());
    observer.record(click("c")).unwrap();
    let targets: Vec<&str> = observer.events().iter().map(|e| e.target.as_str()).collect();
    assert_eq!(targets, vec!["a", "c"]);
}

#[test]
fn record_unless_paused_follows_the_flag() {
    let mut observer = MemoryObserver::default();
    assert_eq!(observer.record_unless_paused(true, click("x")), Err(ObserverError::Paused));
    assert!(observer.events().is_empty());
    assert_eq!(observer.record_unless_paused(false, click("y")), Ok(()));
    assert_eq!(observer.events().len(), 1);
}

#[test]
fn a_new_switch_is_not_paused() {
    let switch = PauseSwitch::default();
    assert!(!switch.is_paused());
    switch.pause();
    assert!(switch.is_paused());
}

#[test]
fn observed_events_become_user_steps() {
    let event = ObservationEvent {
        timestamp: Timestamp::now(),
        action: ActionKind::Input,
        target: "Card Number".to_string(),
        value: Some("4111 1111".to_string()),
    };
    let step = event.into_step(5);
    assert_eq!(step.index, 5);
    assert_eq!(step.actor, Actor::User);
    assert_eq!(step.action, ActionKind::Input);
    assert_eq!(step.target, "Card Number");
    assert!(step.sensitive);
    assert_eq!(step.value.as_deref(), Some("[REDACTED]"));
    assert_eq!(step.status, StepStatus::Waiting);

    let plain = ObservationEvent {
        timestamp: Timestamp::now(),
        action: ActionKind::Input,
        target: "title".to_string(),
        value: Some("Stoned".to_string()),
    }
    .into_step(1);
    assert_eq!(plain.value.as_deref(), Some("Stoned"));
    assert!(click("save").into_step(2).value.is_none());
}

#[test]
fn error_messages() {
    assert_eq!(ObserverError::Paused.message(), "observation is paused");
    assert_eq!(
        ObserverError::SensitiveTarget("pin".to_string()).message(),
        "sensitive target rejected: pin"
    );
    assert_eq!(ObserverError::Backend("down".to_string()).message(), "observer backend error: down");
    assert_eq!(
        AccessibilityError::PermissionDenied.message(),
        "macOS Accessibility permission is required"
    );
    assert_eq!(AccessibilityError::NoEditableElement.message(), "no editable element is focused");
    assert_eq!(
        AccessibilityError::NotImplemented.message(),
        "accessibility operation is not implemented yet"
    );
    assert_eq!(
        AccessibilityError::Backend("x".to_string()).message(),
        "accessibility backend failure: x"
    );
}

#[test]
fn macos_backend_answers() {
    assert_eq!(permission_for(true), Ok(AccessibilityPermission::Unknown));
    assert_eq!(permission_for(false), Ok(AccessibilityPermission::Denied));
    assert_eq!(focused_element_unavailable(), Err(AccessibilityError::NotImplemented));
    assert_eq!(text_insertion_unavailable(), Err(AccessibilityError::NotImplemented));
}
