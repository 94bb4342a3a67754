//! The canonical models: workflows, the sessions that run them and the steps
//! that a session records, with the redaction of sensitive values.

use crate::external::{current_time, fresh_id};
use crate::text::{
    chars_of, contains, fold, folded_contains, lemma_contains_in_context, lemma_contains_itself,
    lemma_fold_join, lemma_fold_of_folded_word,
};
use serde_json::Value;
use uuid::Uuid;
use vstd::prelude::*;

verus! {

/// The mode in which the agent works on a workflow.
#[derive(Debug, Clone, Copy, PartialEq, Eq, Structural)]
pub enum AgentMode {
    Observation,
    Assisted,
    Automatic,
    Exception,
    Paused,
}

/// Who performed a step.
#[derive(Debug, Clone, Copy, PartialEq, Eq, Structural)]
pub enum Actor {
    User,
    Agent,
}

/// The outcome of a step.
#[derive(Debug, Clone, Copy, PartialEq, Eq, Structural)]
pub enum StepStatus {
    Success,
    Error,
    Skipped,
    Waiting,
}

/// What a step does.
#[derive(Debug, Clone, PartialEq, Eq)]
pub enum ActionKind {
    Focus,
    Input,
    Select,
    Click,
    Confirm,
    Navigate,
    Wait,
    Custom(String),
}

/// A point in time: whole seconds since the Unix epoch and the nanoseconds
/// past that second.
#[derive(Debug, Clone, Copy, PartialEq, Eq, PartialOrd, Ord, Structural)]
pub struct Timestamp {
    pub seconds: i64,
    pub nanos: u32,
}

/// A time that the system clock can give: at or after the Unix epoch, with
/// a nanosecond part below one second.
pub open spec fn is_clock_time(t: Timestamp) -> bool {
    t.seconds >= 0 && t.nanos < 1_000_000_000
}

impl Timestamp {
    /// The current time of the system clock: at or after the Unix epoch, with
    /// a nanosecond part below one second.
    pub fn now() -> (now: Timestamp)
        ensures
            now.seconds >= 0,
            now.nanos < 1_000_000_000,
    {
        current_time()
    }
}

/// A piece of evidence attached to a step.
#[derive(Debug, Clone, PartialEq)]
pub struct Evidence {
    pub kind: String,
    pub location: String,
    pub sha256: Option<String>,
}

/// One recorded step of a session. `confidence` is in millionths: one
/// million stands for full confidence.
#[derive(Debug, Clone, PartialEq)]
pub struct Step {
    pub index: u32,
    pub timestamp: Timestamp,
    pub action: ActionKind,
    pub target: String,
    pub value: Option<String>,
    pub actor: Actor,
    pub confidence: Option<i64>,
    pub expected: Option<Value>,
    pub observed: Option<Value>,
    pub status: StepStatus,
    pub evidence: Option<Evidence>,
    pub sensitive: bool,
}

/// The text that stands in place of a sensitive value.
pub open spec fn redaction_marker() -> Seq<char> {
    "[REDACTED]"@
}

/// A target is sensitive when its folding (ASCII letters lower-cased, `-` and
/// space read as `_`) contains one of the words that name secrets,
/// credentials or payment data.
pub open spec fn is_sensitive(target: Seq<char>) -> bool {
    let t = fold(target, true);
    ||| contains(t, "password"@)
    ||| contains(t, "passwd"@)
    ||| contains(t, "token"@)
    ||| contains(t, "secret"@)
    ||| contains(t, "api_key"@)
    ||| contains(t, "authorization"@)
    ||| contains(t, "credit_card"@)
    ||| contains(t, "card_number"@)
    ||| contains(t, "cvv"@)
}

/// The value that a step keeps when `value` is given to it: the redaction
/// marker for a sensitive step, the value itself otherwise.
pub open spec fn kept_value(sensitive: bool, value: Seq<char>) -> Seq<char> {
    if sensitive {
        redaction_marker()
    } else {
        value
    }
}

/// Whether `target` names a sensitive field.
pub fn is_sensitive_target(target: &str) -> (res: bool)
    ensures
        res == is_sensitive(target@),
{
    let t = chars_of(target);
    folded_contains(&t, "password", true) || folded_contains(&t, "passwd", true)
        || folded_contains(&t, "token", true) || folded_contains(&t, "secret", true)
        || folded_contains(&t, "api_key", true) || folded_contains(&t, "authorization", true)
        || folded_contains(&t, "credit_card", true) || folded_contains(&t, "card_number", true)
        || folded_contains(&t, "cvv", true)
}

impl Step {
    /// A waiting step, stamped with the current time, with no value yet; it is
    /// sensitive exactly when its target is.
    pub fn new(index: u32, action: ActionKind, target: &str, actor: Actor) -> (step: Self)
        ensures
            step.index == index,
            step.action == action,
            step.target@ == target@,
            step.actor == actor,
            step.sensitive == is_sensitive(target@),
            is_clock_time(step.timestamp),
            step.value is None,
            step.confidence is None,
            step.expected is None,
            step.observed is None,
            step.status == StepStatus::Waiting,
            step.evidence is None,
    {
        let sensitive = is_sensitive_target(target);
        Step {
            index,
            timestamp: current_time(),
            action,
            sensitive,
            target: String::from_str(target),
            value: None,
            actor,
            confidence: None,
            expected: None,
            observed: None,
            status: StepStatus::Waiting,
            evidence: None,
        }
    }

    /// The step with `value` recorded, or the redaction marker in its place
    /// when the step is sensitive; nothing else changes.
    pub fn with_value(self, value: &str) -> (step: Self)
        ensures
            step.value is Some,
            step.value->0@ == kept_value(self.sensitive, value@),
            step == (Step { value: step.value, ..self }),
    {
        let mut step = self;
        let kept = if step.sensitive {
            String::from_str("[REDACTED]")
        } else {
            String::from_str(value)
        };
        step.value = Some(kept);
        step
    }
}

/// `after` is `before` as it may be kept: sensitive when the flag of
/// `before` is set or its target is sensitive, and then holding the redaction
/// marker in place of any value; nothing else differs.
pub open spec fn redacts(before: Step, after: Step) -> bool {
    &&& after.sensitive == (before.sensitive || is_sensitive(before.target@))
    &&& match before.value {
        Some(v) => after.value is Some && after.value->0@ == kept_value(after.sensitive, v@),
        None => after.value is None,
    }
    &&& after == (Step { sensitive: after.sensitive, value: after.value, ..before })
}

impl Step {
    /// The step as it may be kept: sensitive when its flag is set or its
    /// target is sensitive, and then holding the redaction marker in place of
    /// any value; nothing else changes.
    pub fn redacted(self) -> (step: Self)
        ensures
            redacts(self, step),
    {
        let mut step = self;
        let sensitive = step.sensitive || is_sensitive_target(step.target.as_str());
        step.sensitive = sensitive;
        if sensitive && step.value.is_some() {
            step.value = Some(String::from_str("[REDACTED]"));
        }
        step
    }
}

/// A workflow that the agent learns.
#[derive(Debug, Clone, PartialEq)]
pub struct Workflow {
    pub id: Uuid,
    pub name: String,
    pub version: u32,
    pub description: Option<String>,
    pub created_at: Timestamp,
    pub final_confirmation_required: bool,
}

impl Workflow {
    /// A first version of a workflow named `name`, with a fresh identifier,
    /// whose final action needs a person's confirmation.
    pub fn new(name: &str) -> (workflow: Self)
        ensures
            workflow.name@ == name@,
            workflow.version == 1,
            workflow.description is None,
            workflow.final_confirmation_required,
            is_clock_time(workflow.created_at),
    {
        Workflow {
            id: fresh_id(),
            name: String::from_str(name),
            version: 1,
            description: None,
            created_at: current_time(),
            final_confirmation_required: true,
        }
    }
}

/// One run of a workflow.
#[derive(Debug, Clone, PartialEq)]
pub struct Session {
    pub id: Uuid,
    pub workflow_id: Uuid,
    pub started_at: Timestamp,
    pub completed_at: Option<Timestamp>,
    pub mode: AgentMode,
    pub steps: Vec<Step>,
    pub final_confirmation_required: bool,
}

impl Session {
    /// A fresh, open session of `workflow` in `mode`, with no steps, that
    /// keeps the workflow's rule on final confirmation.
    pub fn new(workflow: &Workflow, mode: AgentMode) -> (session: Self)
        ensures
            session.workflow_id == workflow.id,
            session.completed_at is None,
            session.mode == mode,
            session.steps@.len() == 0,
            session.final_confirmation_required == workflow.final_confirmation_required,
            is_clock_time(session.started_at),
    {
        Session {
            id: fresh_id(),
            workflow_id: workflow.id,
            started_at: current_time(),
            completed_at: None,
            mode,
            steps: Vec::new(),
            final_confirmation_required: workflow.final_confirmation_required,
        }
    }

    /// Appends `step` to the session's steps.
    pub fn push_step(&mut self, step: Step)
        ensures
            final(self).steps@ == old(self).steps@.push(step),
            *final(self) == (Session { steps: final(self).steps, ..*old(self) }),
    {
        self.steps.push(step);
    }

    /// The session as it may be kept: every step redacted, in order; nothing
    /// else changes.
    pub fn redacted(self) -> (session: Self)
        ensures
            session.steps@.len() == self.steps@.len(),
            forall|i: int| 0 <= i < self.steps@.len() ==> redacts(self.steps@[i], #[trigger] session.steps@[i]),
            session == (Session { steps: session.steps, ..self }),
    {
        let mut session = self;
        let ghost original = session.steps@;
        let mut remaining: Vec<Step> = Vec::new();
        std::mem::swap(&mut remaining, &mut session.steps);
        let mut kept: Vec<Step> = Vec::new();
        while remaining.len() > 0
            invariant
                kept@.len() + remaining@.len() == original.len(),
                remaining@ == original.subrange(kept@.len() as int, original.len() as int),
                forall|i: int| 0 <= i < kept@.len() ==> redacts(original[i], #[trigger] kept@[i]),
            decreases remaining@.len(),
        {
            let step = remaining.remove(0);
            assert(step == original[kept@.len() as int]);
            kept.push(step.redacted());
        }
        session.steps = kept;
        session
    }

    /// Marks the session completed at the current time.
    pub fn complete(&mut self)
        ensures
            final(self).completed_at is Some,
            is_clock_time(final(self).completed_at->0),
            *final(self) == (Session { completed_at: final(self).completed_at, ..*old(self) }),
    {
        self.completed_at = Some(current_time());
    }
}

/// The name under which a mode is stored: its variant name in lower case.
pub open spec fn mode_name(mode: AgentMode) -> Seq<char> {
    match mode {
        AgentMode::Observation => "observation"@,
        AgentMode::Assisted => "assisted"@,
        AgentMode::Automatic => "automatic"@,
        AgentMode::Exception => "exception"@,
        AgentMode::Paused => "paused"@,
    }
}

/// The name under which a step status is stored: its variant name in lower
/// case.
pub open spec fn status_name(status: StepStatus) -> Seq<char> {
    match status {
        StepStatus::Success => "success"@,
        StepStatus::Error => "error"@,
        StepStatus::Skipped => "skipped"@,
        StepStatus::Waiting => "waiting"@,
    }
}

/// The label under which the desktop shell shows a mode.
pub open spec fn mode_banner(mode: AgentMode) -> Seq<char> {
    match mode {
        AgentMode::Observation => "OBSERVING"@,
        AgentMode::Assisted => "ASSISTED"@,
        AgentMode::Automatic => "AUTOMATIC"@,
        AgentMode::Exception => "EXCEPTION"@,
        AgentMode::Paused => "PAUSED"@,
    }
}

/// The name under which `mode` is stored.
pub fn mode_label(mode: AgentMode) -> (name: &'static str)
    ensures
        name@ == mode_name(mode),
{
    match mode {
        AgentMode::Observation => "observation",
        AgentMode::Assisted => "assisted",
        AgentMode::Automatic => "automatic",
        AgentMode::Exception => "exception",
        AgentMode::Paused => "paused",
    }
}

/// The name under which `status` is stored.
pub fn status_label(status: StepStatus) -> (name: &'static str)
    ensures
        name@ == status_name(status),
{
    match status {
        StepStatus::Success => "success",
        StepStatus::Error => "error",
        StepStatus::Skipped => "skipped",
        StepStatus::Waiting => "waiting",
    }
}

/// The label under which the desktop shell shows `mode`.
pub fn visible_state(mode: AgentMode) -> (label: &'static str)
    ensures
        label@ == mode_banner(mode),
{
    match mode {
        AgentMode::Observation => "OBSERVING",
        AgentMode::Assisted => "ASSISTED",
        AgentMode::Automatic => "AUTOMATIC",
        AgentMode::Exception => "EXCEPTION",
        AgentMode::Paused => "PAUSED",
    }
}

/// A redacted step whose flag is set or whose target is sensitive holds no
/// value but the redaction marker; a redacted step of any other target keeps
/// its value.
pub proof fn lemma_redacted_steps_hold_no_secret(before: Step, after: Step)
    requires
        redacts(before, after),
    ensures
        (before.sensitive || is_sensitive(before.target@)) ==> (after.value is None
            || after.value->0@ == redaction_marker()),
        !(before.sensitive || is_sensitive(before.target@)) ==> match before.value {
            Some(v) => after.value is Some && after.value->0@ == v@,
            None => after.value is None,
        },
{
}

/// A sensitive target never keeps the value given to it, and any other
/// target keeps exactly that value.
pub proof fn lemma_sensitive_values_are_redacted(target: Seq<char>, value: Seq<char>)
    ensures
        is_sensitive(target) ==> kept_value(is_sensitive(target), value) == redaction_marker(),
        !is_sensitive(target) ==> kept_value(is_sensitive(target), value) == value,
{
}

/// Sensitivity is decided by the whole target: a sensitive target stays
/// sensitive whatever text is put before and after it.
pub proof fn lemma_sensitivity_survives_context(t: Seq<char>, a: Seq<char>, b: Seq<char>)
    requires
        is_sensitive(t),
    ensures
        is_sensitive(a + t + b),
{
    lemma_fold_join(a, t, true);
    lemma_fold_join(a + t, b, true);
    let (fa, ft, fb) = (fold(a, true), fold(t, true), fold(b, true));
    assert(fold(a + t + b, true) == fa + ft + fb);
    if contains(ft, "password"@) {
        lemma_contains_in_context(ft, "password"@, fa, fb);
    }
    if contains(ft, "passwd"@) {
        lemma_contains_in_context(ft, "passwd"@, fa, fb);
    }
    if contains(ft, "token"@) {
        lemma_contains_in_context(ft, "token"@, fa, fb);
    }
    if contains(ft, "secret"@) {
        lemma_contains_in_context(ft, "secret"@, fa, fb);
    }
    if contains(ft, "api_key"@) {
        lemma_contains_in_context(ft, "api_key"@, fa, fb);
    }
    if contains(ft, "authorization"@) {
        lemma_contains_in_context(ft, "authorization"@, fa, fb);
    }
    if contains(ft, "credit_card"@) {
        lemma_contains_in_context(ft, "credit_card"@, fa, fb);
    }
    if contains(ft, "card_number"@) {
        lemma_contains_in_context(ft, "card_number"@, fa, fb);
    }
    if contains(ft, "cvv"@) {
        lemma_contains_in_context(ft, "cvv"@, fa, fb);
    }
}

/// Each word that names a secret is sensitive on its own.
proof fn lemma_secret_word_is_sensitive(w: Seq<char>)
    requires
        w == "password"@ || w == "passwd"@ || w == "token"@ || w == "secret"@ || w == "api_key"@
            || w == "authorization"@ || w == "credit_card"@ || w == "card_number"@ || w == "cvv"@,
        forall|i: int|
            0 <= i < w.len() ==> !(65 <= (#[trigger] w[i] as u32) && (w[i] as u32) <= 90) && w[i]
                != '-' && w[i] != ' ',
    ensures
        is_sensitive(w),
{
    lemma_fold_of_folded_word(w, true);
    lemma_contains_itself(w);
}

/// A target that holds a word naming a secret (password, passwd, token,
/// secret, api_key, authorization, credit_card, card_number, cvv) anywhere in
/// it is sensitive, whatever stands before and after the word.
pub proof fn lemma_secret_words_make_targets_sensitive(p: Seq<char>, s: Seq<char>)
    ensures
        is_sensitive(p + "password"@ + s),
        is_sensitive(p + "passwd"@ + s),
        is_sensitive(p + "token"@ + s),
        is_sensitive(p + "secret"@ + s),
        is_sensitive(p + "api_key"@ + s),
        is_sensitive(p + "authorization"@ + s),
        is_sensitive(p + "credit_card"@ + s),
        is_sensitive(p + "card_number"@ + s),
        is_sensitive(p + "cvv"@ + s),
{
    reveal_strlit("password");
    reveal_strlit("passwd");
    reveal_strlit("token");
    reveal_strlit("secret");
    reveal_strlit("api_key");
    reveal_strlit("authorization");
    reveal_strlit("credit_card");
    reveal_strlit("card_number");
    reveal_strlit("cvv");
    lemma_secret_word_is_sensitive("password"@);
    lemma_secret_word_is_sensitive("passwd"@);
    lemma_secret_word_is_sensitive("token"@);
    lemma_secret_word_is_sensitive("secret"@);
    lemma_secret_word_is_sensitive("api_key"@);
    lemma_secret_word_is_sensitive("authorization"@);
    lemma_secret_word_is_sensitive("credit_card"@);
    lemma_secret_word_is_sensitive("card_number"@);
    lemma_secret_word_is_sensitive("cvv"@);
    lemma_sensitivity_survives_context("password"@, p, s);
    lemma_sensitivity_survives_context("passwd"@, p, s);
    lemma_sensitivity_survives_context("token"@, p, s);
    lemma_sensitivity_survives_context("secret"@, p, s);
    lemma_sensitivity_survives_context("api_key"@, p, s);
    lemma_sensitivity_survives_context("authorization"@, p, s);
    lemma_sensitivity_survives_context("credit_card"@, p, s);
    lemma_sensitivity_survives_context("card_number"@, p, s);
    lemma_sensitivity_survives_context("cvv"@, p, s);
}

} // verus!
