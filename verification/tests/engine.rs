use recall::{ActionKind, Actor, AgentMode, EngineConfig, ExecutionDecision, Step, WorkflowEngine};

/// A confidence between 0 and 1 in the millionths that steps carry.
fn millionths(confidence: f32) -> i64 {
    (confidence as f64 * 1_000_000.0).round() as i64
}

fn safe_step(confidence: f32) -> Step {
    let mut step = Step::new(1, ActionKind::Input, "title", Actor::Agent);
    step.confidence = Some(millionths(confidence));
    step
}

fn automatic_engine() -> WorkflowEngine {
    let mut engine = WorkflowEngine::new(EngineConfig::default());
    for _ in 0..3 {
        engine.record_successful_session();
    }
    engine
}

#[test]
fn promotes_only_after_repeated_success() {
    let mut engine = WorkflowEngine::new(EngineConfig::default());
    assert_eq!(engine.mode(), AgentMode::Observation);
    engine.record_successful_session();
    assert_eq!(engine.mode(), AgentMode::Assisted);
    engine.record_successful_session();
    assert_eq!(engine.mode(), AgentMode::Assisted);
    engine.record_successful_session();
    assert_eq!(engine.mode(), AgentMode::Automatic);
}

#[test]
fn low_confidence_in_automatic_mode_halts() {
    let mut engine = WorkflowEngine::new(EngineConfig::default());
    for _ in 0..3 {
        engine.record_successful_session();
    }
    assert_eq!(engine.decide(&safe_step(0.40)), ExecutionDecision::Halt);
    assert_eq!(engine.mode(), AgentMode::Exception);
}

#[test]
fn publication_always_requires_a_human() {
    let mut engine = WorkflowEngine::new(EngineConfig::default());
    for _ in 0..3 {
        engine.record_successful_session();
    }
    let mut step = Step::new(9, ActionKind::Click, "publish_track", Actor::Agent);
    step.confidence = Some(millionths(1.0));
    assert_eq!(
        engine.decide(&step),
        ExecutionDecision::RequireUserConfirmation
    );
}

#[test]
fn default_config_thresholds() {
    let config = EngineConfig::default();
    assert_eq!(config.assisted_after_successes, 1);
    assert_eq!(config.automatic_after_successes, 3);
    assert_eq!(config.minimum_confidence, millionths(0.90));
}

#[test]
fn confident_known_steps_execute_in_automatic_mode() {
    let mut engine = automatic_engine();
    assert_eq!(engine.decide(&safe_step(0.94)), ExecutionDecision::Execute);
    assert_eq!(engine.decide(&safe_step(0.90)), ExecutionDecision::Execute);
    assert_eq!(engine.mode(), AgentMode::Automatic);
}

#[test]
fn missing_confidence_counts_as_zero() {
    let mut engine = automatic_engine();
    let step = Step::new(2, ActionKind::Input, "title", Actor::Agent);
    assert_eq!(engine.decide(&step), ExecutionDecision::Halt);
    assert_eq!(engine.mode(), AgentMode::Exception);
}

#[test]
fn observation_and_assisted_modes_never_execute() {
    let mut engine = WorkflowEngine::new(EngineConfig::default());
    assert_eq!(engine.decide(&safe_step(1.0)), ExecutionDecision::Observe);
    engine.record_successful_session();
    assert_eq!(engine.decide(&safe_step(1.0)), ExecutionDecision::Suggest);
    assert_eq!(engine.decide(&safe_step(0.1)), ExecutionDecision::Suggest);
    assert_eq!(engine.mode(), AgentMode::Assisted);
}

#[test]
fn every_final_action_requires_a_human() {
    for target in ["Publish", "release_notes", "SUBMIT-form", "delete_track", "purchase"] {
        let mut engine = automatic_engine();
        let mut step = Step::new(4, ActionKind::Click, target, Actor::Agent);
        step.confidence = Some(millionths(1.0));
        assert_eq!(engine.decide(&step), ExecutionDecision::RequireUserConfirmation);
        assert_eq!(engine.mode(), AgentMode::Automatic);
    }
    let mut engine = automatic_engine();
    let mut confirm = Step::new(5, ActionKind::Confirm, "ok_button", Actor::Agent);
    confirm.confidence = Some(millionths(1.0));
    assert_eq!(engine.decide(&confirm), ExecutionDecision::RequireUserConfirmation);
    let mut observing = WorkflowEngine::new(EngineConfig::default());
    assert_eq!(observing.decide(&confirm), ExecutionDecision::RequireUserConfirmation);
}

#[test]
fn paused_and_failed_engines_halt() {
    let mut engine = automatic_engine();
    engine.pause();
    assert_eq!(engine.mode(), AgentMode::Paused);
    let mut publish = Step::new(9, ActionKind::Click, "publish_track", Actor::Agent);
    publish.confidence = Some(millionths(1.0));
    assert_eq!(engine.decide(&publish), ExecutionDecision::Halt);
    assert_eq!(engine.decide(&safe_step(1.0)), ExecutionDecision::Halt);
    assert_eq!(engine.mode(), AgentMode::Paused);

    let mut failed = automatic_engine();
    failed.record_error();
    assert_eq!(failed.mode(), AgentMode::Exception);
    assert_eq!(failed.decide(&safe_step(1.0)), ExecutionDecision::Halt);
    assert_eq!(failed.mode(), AgentMode::Exception);
}

#[test]
fn resume_returns_to_the_mode_before_pause() {
    let mut engine = automatic_engine();
    engine.pause();
    engine.pause();
    assert_eq!(engine.mode(), AgentMode::Paused);
    engine.resume();
    assert_eq!(engine.mode(), AgentMode::Automatic);
    engine.resume();
    assert_eq!(engine.mode(), AgentMode::Automatic);
    assert_eq!(engine.successful_sessions(), 3);
}

#[test]
fn correction_resets_promotion() {
    let mut engine = automatic_engine();
    engine.observe_user_correction();
    assert_eq!(engine.mode(), AgentMode::Observation);
    assert_eq!(engine.successful_sessions(), 0);
    engine.record_successful_session();
    assert_eq!(engine.mode(), AgentMode::Assisted);
    assert_eq!(engine.successful_sessions(), 1);
}

#[test]
fn correction_while_paused_forgets_automatic_mode() {
    let mut engine = automatic_engine();
    engine.pause();
    engine.observe_user_correction();
    engine.pause();
    engine.resume();
    assert_eq!(engine.mode(), AgentMode::Observation);
}

#[test]
fn success_while_paused_keeps_the_pause() {
    let mut engine = WorkflowEngine::new(EngineConfig::default());
    engine.pause();
    engine.record_successful_session();
    assert_eq!(engine.mode(), AgentMode::Paused);
    assert_eq!(engine.successful_sessions(), 1);
    assert_eq!(engine.decide(&safe_step(1.0)), ExecutionDecision::Halt);
    engine.resume();
    assert_eq!(engine.mode(), AgentMode::Assisted);

    let mut engine = WorkflowEngine::new(EngineConfig::default());
    engine.record_successful_session();
    engine.pause();
    engine.record_successful_session();
    engine.record_successful_session();
    assert_eq!(engine.mode(), AgentMode::Paused);
    engine.resume();
    assert_eq!(engine.mode(), AgentMode::Automatic);
}

#[test]
fn custom_thresholds_are_followed() {
    let config = EngineConfig {
        assisted_after_successes: 2,
        automatic_after_successes: 2,
        minimum_confidence: 500_000,
    };
    let mut engine = WorkflowEngine::new(config);
    engine.record_successful_session();
    assert_eq!(engine.mode(), AgentMode::Observation);
    engine.record_successful_session();
    assert_eq!(engine.mode(), AgentMode::Automatic);
    assert_eq!(engine.decide(&safe_step(0.5)), ExecutionDecision::Execute);
    assert_eq!(engine.decide(&safe_step(0.49)), ExecutionDecision::Halt);
}
