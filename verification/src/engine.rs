//! The supervised engine: promotion from observation through assisted to
//! automatic mode, and the decision taken for each step.

use crate::model::{ActionKind, AgentMode, Step};
use crate::text::{chars_of, contains, fold, folded_contains};
use vstd::prelude::*;

verus! {

/// Thresholds of the engine. `minimum_confidence` is in millionths, as a
/// step's confidence is.
#[derive(Debug, Clone, Copy, PartialEq, Eq, Structural)]
pub struct EngineConfig {
    pub assisted_after_successes: u32,
    pub automatic_after_successes: u32,
    pub minimum_confidence: i64,
}

impl Default for EngineConfig {
    /// Assisted after one successful session, automatic after three, and a
    /// minimum confidence of 0.90.
    fn default() -> (config: Self)
        ensures
            config == (EngineConfig {
                assisted_after_successes: 1,
                automatic_after_successes: 3,
                minimum_confidence: 900_000,
            }),
    {
        EngineConfig {
            assisted_after_successes: 1,
            automatic_after_successes: 3,
            minimum_confidence: 900_000,
        }
    }
}

/// What the engine does with a step.
#[derive(Debug, Clone, Copy, PartialEq, Eq, Structural)]
pub enum ExecutionDecision {
    Observe,
    Suggest,
    Execute,
    RequireUserConfirmation,
    Halt,
}

/// The engine's state.
#[derive(Debug, Clone)]
pub struct WorkflowEngine {
    config: EngineConfig,
    mode: AgentMode,
    successful_sessions: u32,
    mode_before_pause: AgentMode,
}

/// The engine's state as a value.
pub struct EngineView {
    pub config: EngineConfig,
    pub mode: AgentMode,
    pub successful_sessions: u32,
    pub mode_before_pause: AgentMode,
}

impl View for WorkflowEngine {
    type V = EngineView;

    closed spec fn view(&self) -> EngineView {
        EngineView {
            config: self.config,
            mode: self.mode,
            successful_sessions: self.successful_sessions,
            mode_before_pause: self.mode_before_pause,
        }
    }
}

/// A fresh engine: observing, with no successful session.
pub open spec fn initial_engine(config: EngineConfig) -> EngineView {
    EngineView {
        config,
        mode: AgentMode::Observation,
        successful_sessions: 0,
        mode_before_pause: AgentMode::Observation,
    }
}

/// The mode earned by `sessions` successful sessions.
pub open spec fn promoted_mode(config: EngineConfig, sessions: int) -> AgentMode {
    if sessions >= config.automatic_after_successes {
        AgentMode::Automatic
    } else if sessions >= config.assisted_after_successes {
        AgentMode::Assisted
    } else {
        AgentMode::Observation
    }
}

/// The engine after one more successful session: it moves to the mode that
/// the new count earns; a paused engine stays paused and will resume into
/// that mode.
pub open spec fn after_success(v: EngineView) -> EngineView {
    let n = v.successful_sessions + 1;
    if v.mode == AgentMode::Paused {
        EngineView {
            successful_sessions: n as u32,
            mode_before_pause: promoted_mode(v.config, n),
            ..v
        }
    } else {
        EngineView { successful_sessions: n as u32, mode: promoted_mode(v.config, n), ..v }
    }
}

/// The engine after an error.
pub open spec fn after_error(v: EngineView) -> EngineView {
    EngineView { mode: AgentMode::Exception, ..v }
}

/// The engine after the user corrected it: back to observing, with the count
/// of successful sessions reset.
pub open spec fn after_correction(v: EngineView) -> EngineView {
    EngineView { mode: AgentMode::Observation, successful_sessions: 0, ..v }
}

/// The engine after a pause: paused, remembering the mode it left; a paused
/// engine stays as it is.
pub open spec fn after_pause(v: EngineView) -> EngineView {
    if v.mode != AgentMode::Paused {
        EngineView { mode_before_pause: v.mode, mode: AgentMode::Paused, ..v }
    } else {
        v
    }
}

/// The engine after a resume: a paused engine returns to the mode it left; any
/// other stays as it is.
pub open spec fn after_resume(v: EngineView) -> EngineView {
    if v.mode == AgentMode::Paused {
        EngineView { mode: v.mode_before_pause, ..v }
    } else {
        v
    }
}

/// A final action: a confirmation, or a target whose lower-cased text names
/// publishing, releasing, submitting, deleting or purchasing.
pub open spec fn is_final(step: Step) -> bool {
    let t = fold(step.target@, false);
    ||| step.action is Confirm
    ||| contains(t, "publish"@)
    ||| contains(t, "release"@)
    ||| contains(t, "submit"@)
    ||| contains(t, "delete"@)
    ||| contains(t, "purchase"@)
}

/// A step's confidence, none counting as zero.
pub open spec fn step_confidence(step: Step) -> int {
    match step.confidence {
        Some(c) => c as int,
        None => 0,
    }
}

/// Whether the step's confidence reaches the engine's minimum.
pub open spec fn confident(v: EngineView, step: Step) -> bool {
    step_confidence(step) >= v.config.minimum_confidence
}

/// The decision on `step`: halt when paused or in exception, a person's
/// confirmation for a final action, otherwise observe, suggest, or, in
/// automatic mode, execute when confident and halt when not.
pub open spec fn decision(v: EngineView, step: Step) -> ExecutionDecision {
    if v.mode == AgentMode::Paused || v.mode == AgentMode::Exception {
        ExecutionDecision::Halt
    } else if is_final(step) {
        ExecutionDecision::RequireUserConfirmation
    } else {
        match v.mode {
            AgentMode::Observation => ExecutionDecision::Observe,
            AgentMode::Assisted => ExecutionDecision::Suggest,
            AgentMode::Automatic => if confident(v, step) {
                ExecutionDecision::Execute
            } else {
                ExecutionDecision::Halt
            },
            _ => ExecutionDecision::Halt,
        }
    }
}

/// The engine after deciding on `step`: an automatic engine that meets a
/// non-final step below the minimum confidence falls into exception.
pub open spec fn after_decide(v: EngineView, step: Step) -> EngineView {
    if v.mode == AgentMode::Automatic && !is_final(step) && !confident(v, step) {
        after_error(v)
    } else {
        v
    }
}

/// Whether `step` is a final action.
fn is_final_action(step: &Step) -> (res: bool)
    ensures
        res == is_final(*step),
{
    let is_confirm = match &step.action {
        ActionKind::Confirm => true,
        _ => false,
    };
    if is_confirm {
        return true;
    }
    let t = chars_of(step.target.as_str());
    folded_contains(&t, "publish", false) || folded_contains(&t, "release", false)
        || folded_contains(&t, "submit", false) || folded_contains(&t, "delete", false)
        || folded_contains(&t, "purchase", false)
}

impl WorkflowEngine {
    /// A fresh engine with `config`.
    pub fn new(config: EngineConfig) -> (engine: Self)
        ensures
            engine@ == initial_engine(config),
    {
        WorkflowEngine {
            config,
            mode: AgentMode::Observation,
            successful_sessions: 0,
            mode_before_pause: AgentMode::Observation,
        }
    }

    /// The current mode.
    pub fn mode(&self) -> (mode: AgentMode)
        ensures
            mode == self@.mode,
    {
        self.mode
    }

    /// The count of successful sessions since the last correction.
    pub fn successful_sessions(&self) -> (n: u32)
        ensures
            n == self@.successful_sessions,
    {
        self.successful_sessions
    }

    /// Counts one more successful session and moves to the mode it earns; a
    /// paused engine stays paused and will resume into that mode.
    pub fn record_successful_session(&mut self)
        requires
            old(self)@.successful_sessions < u32::MAX,
        ensures
            final(self)@ == after_success(old(self)@),
    {
        self.successful_sessions = self.successful_sessions + 1;
        let earned = if self.successful_sessions >= self.config.automatic_after_successes {
            AgentMode::Automatic
        } else if self.successful_sessions >= self.config.assisted_after_successes {
            AgentMode::Assisted
        } else {
            AgentMode::Observation
        };
        if self.mode == AgentMode::Paused {
            self.mode_before_pause = earned;
        } else {
            self.mode = earned;
        }
    }

    /// Enters exception mode.
    pub fn record_error(&mut self)
        ensures
            final(self)@ == after_error(old(self)@),
    {
        self.mode = AgentMode::Exception;
    }

    /// Returns to observation after the user corrected the agent, and resets
    /// the count of successful sessions.
    pub fn observe_user_correction(&mut self)
        ensures
            final(self)@ == after_correction(old(self)@),
    {
        self.mode = AgentMode::Observation;
        self.successful_sessions = 0;
    }

    /// Pauses, remembering the mode left.
    pub fn pause(&mut self)
        ensures
            final(self)@ == after_pause(old(self)@),
    {
        if self.mode != AgentMode::Paused {
            self.mode_before_pause = self.mode;
            self.mode = AgentMode::Paused;
        }
    }

    /// Resumes the mode left by the pause.
    pub fn resume(&mut self)
        ensures
            final(self)@ == after_resume(old(self)@),
    {
        if self.mode == AgentMode::Paused {
            self.mode = self.mode_before_pause;
        }
    }

    /// Decides what to do with `step`.
    pub fn decide(&mut self, step: &Step) -> (d: ExecutionDecision)
        ensures
            d == decision(old(self)@, *step),
            final(self)@ == after_decide(old(self)@, *step),
    {
        if self.mode == AgentMode::Paused || self.mode == AgentMode::Exception {
            return ExecutionDecision::Halt;
        }
        if is_final_action(step) {
            return ExecutionDecision::RequireUserConfirmation;
        }
        let confidence: i64 = match step.confidence {
            Some(c) => c,
            None => 0,
        };
        match self.mode {
            AgentMode::Observation => ExecutionDecision::Observe,
            AgentMode::Assisted => ExecutionDecision::Suggest,
            AgentMode::Automatic => {
                if confidence >= self.config.minimum_confidence {
                    ExecutionDecision::Execute
                } else {
                    self.record_error();
                    ExecutionDecision::Halt
                }
            },
            AgentMode::Exception | AgentMode::Paused => ExecutionDecision::Halt,
        }
    }
}

/// Automatic mode is held, or waits behind a pause, only once
/// `automatic_after_successes` successful sessions have been counted since the
/// last correction; and a pause never remembers a pause.
pub open spec fn promotion_respected(v: EngineView) -> bool {
    &&& v.mode == AgentMode::Automatic ==> v.successful_sessions >= v.config.automatic_after_successes
    &&& (v.mode == AgentMode::Paused && v.mode_before_pause == AgentMode::Automatic)
        ==> v.successful_sessions >= v.config.automatic_after_successes
    &&& v.mode_before_pause != AgentMode::Paused
}

/// A fresh engine respects promotion.
pub proof fn lemma_new_engine_respects_promotion(config: EngineConfig)
    ensures
        promotion_respected(initial_engine(config)),
{
}

/// Every operation of the engine keeps promotion respected: no sequence of
/// calls from a fresh engine reaches automatic mode, directly or through a
/// resume, without enough successful sessions since the last correction.
pub proof fn lemma_operations_respect_promotion(v: EngineView, step: Step)
    requires
        promotion_respected(v),
    ensures
        v.successful_sessions < u32::MAX ==> promotion_respected(after_success(v)),
        promotion_respected(after_error(v)),
        promotion_respected(after_correction(v)),
        promotion_respected(after_pause(v)),
        promotion_respected(after_resume(v)),
        promotion_respected(after_decide(v, step)),
{
}

/// The engine executes a step exactly when it is in automatic mode, the step
/// is not a final action and its confidence reaches the minimum.
pub proof fn lemma_execute_only_when_confident(v: EngineView, step: Step)
    ensures
        decision(v, step) == ExecutionDecision::Execute <==> (v.mode == AgentMode::Automatic
            && !is_final(step) && confident(v, step)),
{
}

/// A final action is never executed: it needs a person's confirmation unless
/// the engine is halted, and deciding on it changes nothing.
pub proof fn lemma_final_actions_need_a_person(v: EngineView, step: Step)
    requires
        is_final(step),
    ensures
        decision(v, step) == ExecutionDecision::RequireUserConfirmation || decision(v, step)
            == ExecutionDecision::Halt,
        v.mode != AgentMode::Paused && v.mode != AgentMode::Exception ==> decision(v, step)
            == ExecutionDecision::RequireUserConfirmation,
        after_decide(v, step) == v,
{
}

/// In automatic mode a non-final step below the minimum confidence halts the
/// engine and puts it in exception mode.
pub proof fn lemma_low_confidence_halts(v: EngineView, step: Step)
    requires
        v.mode == AgentMode::Automatic,
        !is_final(step),
        !confident(v, step),
    ensures
        decision(v, step) == ExecutionDecision::Halt,
        after_decide(v, step).mode == AgentMode::Exception,
{
}

/// A paused engine, or one in exception mode, halts on every step and stays
/// as it is.
pub proof fn lemma_halted_engine_stays_halted(v: EngineView, step: Step)
    requires
        v.mode == AgentMode::Paused || v.mode == AgentMode::Exception,
    ensures
        decision(v, step) == ExecutionDecision::Halt,
        after_decide(v, step) == v,
{
}

/// Deciding never promotes: it keeps the configuration, the count of
/// successful sessions and the remembered mode, and changes the mode only
/// into exception.
pub proof fn lemma_decide_never_promotes(v: EngineView, step: Step)
    ensures
        after_decide(v, step).config == v.config,
        after_decide(v, step).successful_sessions == v.successful_sessions,
        after_decide(v, step).mode_before_pause == v.mode_before_pause,
        after_decide(v, step).mode == v.mode || after_decide(v, step).mode == AgentMode::Exception,
{
}

/// A pause holds through recorded successes and through decisions: only a
/// resume (or an error or a correction, which set their own modes) ends it, and
/// the resume lands in the mode that the count of successes has earned.
pub proof fn lemma_pause_holds_through_successes(v: EngineView, step: Step)
    requires
        v.mode == AgentMode::Paused,
    ensures
        v.successful_sessions < u32::MAX ==> after_success(v).mode == AgentMode::Paused,
        v.successful_sessions < u32::MAX ==> after_resume(after_success(v)).mode == promoted_mode(
            v.config,
            v.successful_sessions + 1,
        ),
        after_decide(v, step).mode == AgentMode::Paused,
        decision(v, step) == ExecutionDecision::Halt,
{
}

/// Resuming undoes a pause: the engine returns to the mode it was in, with
/// its configuration and count unchanged; pausing twice is pausing once.
pub proof fn lemma_resume_undoes_pause(v: EngineView)
    requires
        v.mode != AgentMode::Paused,
    ensures
        after_resume(after_pause(v)).mode == v.mode,
        after_resume(after_pause(v)).config == v.config,
        after_resume(after_pause(v)).successful_sessions == v.successful_sessions,
        after_pause(after_pause(v)) == after_pause(v),
{
}

/// An observing engine only observes, and an assisted one only suggests: on
/// any step that is not a final action, whatever its confidence (none
/// included), the decision is Observe, respectively Suggest, and deciding
/// leaves the engine as it is.
pub proof fn lemma_observation_and_assistance_never_act(v: EngineView, step: Step)
    requires
        !is_final(step),
    ensures
        v.mode == AgentMode::Observation ==> decision(v, step) == ExecutionDecision::Observe,
        v.mode == AgentMode::Assisted ==> decision(v, step) == ExecutionDecision::Suggest,
        v.mode == AgentMode::Observation || v.mode == AgentMode::Assisted ==> after_decide(v, step)
            == v,
{
}

/// How far a mode stands on the way from observation to automatic mode.
pub open spec fn promotion_rank(mode: AgentMode) -> int {
    match mode {
        AgentMode::Observation => 0,
        AgentMode::Assisted => 1,
        AgentMode::Automatic => 2,
        _ => 0,
    }
}

/// A success moves an engine that is not paused to the mode its new count
/// reaches: automatic from `automatic_after_successes` successes on, assisted
/// from `assisted_after_successes` on below that, observing below both; it
/// counts exactly one more success and keeps the configuration.
pub proof fn lemma_success_reaches_thresholds(v: EngineView)
    requires
        v.mode != AgentMode::Paused,
        v.successful_sessions < u32::MAX,
    ensures
        after_success(v).successful_sessions == v.successful_sessions + 1,
        after_success(v).config == v.config,
        v.successful_sessions + 1 >= v.config.automatic_after_successes ==> after_success(v).mode
            == AgentMode::Automatic,
        v.config.assisted_after_successes <= v.successful_sessions + 1
            < v.config.automatic_after_successes ==> after_success(v).mode == AgentMode::Assisted,
        v.successful_sessions + 1 < v.config.assisted_after_successes && v.successful_sessions + 1
            < v.config.automatic_after_successes ==> after_success(v).mode
            == AgentMode::Observation,
{
}

/// Successes never demote: of two successes in a row on an engine that is not
/// paused, the second lands in a mode at least as far along as the first; and
/// an automatic engine that respects promotion stays automatic after a
/// success.
pub proof fn lemma_successes_never_demote(v: EngineView)
    requires
        v.mode != AgentMode::Paused,
        v.successful_sessions + 2 <= u32::MAX,
    ensures
        promotion_rank(after_success(after_success(v)).mode) >= promotion_rank(
            after_success(v).mode,
        ),
        promotion_respected(v) && v.mode == AgentMode::Automatic ==> after_success(v).mode
            == AgentMode::Automatic,
{
}

} // verus!
