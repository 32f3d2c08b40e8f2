//! The lifecycle of one inspection session.
//!
//! A session moves through `Created`, `TargetBound`, `ImageCaptured`,
//! `AiEvaluated` and `HumanVerified`, one stage at a time, or fails. The
//! orchestrator never performs outside work itself: [`Session::step`] takes
//! what happened (an event), changes the session and answers with what has
//! to be done next (an action). Every stage hands its artifact out for
//! storing first and only advances when the store has confirmed it.

use vstd::prelude::*;
use crate::error::InspectionError;
use crate::verdict::Verdict;

verus! {

/// Where a session stands.
#[derive(Debug, Clone, Copy, PartialEq, Eq, Structural)]
pub enum Status {
    Created,
    TargetBound,
    ImageCaptured,
    AiEvaluated,
    HumanVerified,
    Failed,
}

impl Status {
    /// The number of stages completed at this status; -1 for `Failed`.
    pub open spec fn rank(self) -> int {
        match self {
            Status::Created => 0,
            Status::TargetBound => 1,
            Status::ImageCaptured => 2,
            Status::AiEvaluated => 3,
            Status::HumanVerified => 4,
            Status::Failed => -1,
        }
    }

    /// The name under which the status is stored.
    pub open spec fn name(self) -> Seq<char> {
        match self {
            Status::Created => "CREATED"@,
            Status::TargetBound => "TARGET_BOUND"@,
            Status::ImageCaptured => "IMAGE_CAPTURED"@,
            Status::AiEvaluated => "AI_EVALUATED"@,
            Status::HumanVerified => "HUMAN_VERIFIED"@,
            Status::Failed => "FAILED"@,
        }
    }

    /// The name under which the status is stored.
    pub fn label(self) -> (s: String)
        ensures
            s@ == self.name(),
    {
        match self {
            Status::Created => crate::text::owned("CREATED"),
            Status::TargetBound => crate::text::owned("TARGET_BOUND"),
            Status::ImageCaptured => crate::text::owned("IMAGE_CAPTURED"),
            Status::AiEvaluated => crate::text::owned("AI_EVALUATED"),
            Status::HumanVerified => crate::text::owned("HUMAN_VERIFIED"),
            Status::Failed => crate::text::owned("FAILED"),
        }
    }

    /// The status stored under a name, if the name is one of the six.
    pub open spec fn of_name(name: Seq<char>) -> Option<Status> {
        if name == "CREATED"@ {
            Some(Status::Created)
        } else if name == "TARGET_BOUND"@ {
            Some(Status::TargetBound)
        } else if name == "IMAGE_CAPTURED"@ {
            Some(Status::ImageCaptured)
        } else if name == "AI_EVALUATED"@ {
            Some(Status::AiEvaluated)
        } else if name == "HUMAN_VERIFIED"@ {
            Some(Status::HumanVerified)
        } else if name == "FAILED"@ {
            Some(Status::Failed)
        } else {
            None
        }
    }

    /// Reads the name under which a status is stored.
    pub fn from_label(label: &str) -> (r: Option<Status>)
        ensures
            r == Status::of_name(label@),
    {
        if crate::text::same_text(label, "CREATED") {
            Some(Status::Created)
        } else if crate::text::same_text(label, "TARGET_BOUND") {
            Some(Status::TargetBound)
        } else if crate::text::same_text(label, "IMAGE_CAPTURED") {
            Some(Status::ImageCaptured)
        } else if crate::text::same_text(label, "AI_EVALUATED") {
            Some(Status::AiEvaluated)
        } else if crate::text::same_text(label, "HUMAN_VERIFIED") {
            Some(Status::HumanVerified)
        } else if crate::text::same_text(label, "FAILED") {
            Some(Status::Failed)
        } else {
            None
        }
    }

    /// Whether no further stage follows.
    pub fn is_terminal(self) -> (b: bool)
        ensures
            b == (self is HumanVerified || self is Failed),
    {
        match self {
            Status::HumanVerified | Status::Failed => true,
            _ => false,
        }
    }
}

/// What a stage produces and the store has to keep.
#[derive(Debug, Clone, Copy, PartialEq, Eq, Structural)]
pub enum Artifact {
    Target,
    Image,
    Verdict(Verdict),
    Verification,
}

/// How the operator takes over when no device delivers an image.
#[derive(Debug, Clone, Copy, PartialEq, Eq, Structural)]
pub enum ManualPath {
    /// A camera application of the system was launched.
    ExternalAppOpened,
    /// Nothing could be launched; an image file must be chosen.
    FileRequired,
}

/// Why an event was not accepted. The session is unchanged.
#[derive(Debug, Clone, Copy, PartialEq, Eq, Structural)]
pub enum Refusal {
    /// The stage that the event belongs to is already complete.
    AlreadyComplete,
    /// An earlier stage is still missing.
    NotReady,
    /// The session has failed for the given reason and accepts nothing more.
    Terminal(InspectionError),
    /// An artifact is with the store; only its answer is accepted.
    AwaitingStore,
    /// The store answered although nothing was handed to it.
    NothingPending,
}

impl Refusal {
    /// The failure category that a refusal stands for: a stage asked for
    /// again is `StageAlreadyComplete`, a failed session answers with the
    /// reason it failed for. The other three are faults of the caller's
    /// order of calls and have no category.
    pub open spec fn category(self) -> Option<InspectionError> {
        match self {
            Refusal::AlreadyComplete => Some(InspectionError::StageAlreadyComplete),
            Refusal::Terminal(reason) => Some(reason),
            _ => None,
        }
    }

    /// What is shown for a refusal.
    pub open spec fn explanation(self) -> Seq<char> {
        match self {
            Refusal::AlreadyComplete => InspectionError::StageAlreadyComplete.message_text(),
            Refusal::Terminal(reason) => reason.message_text(),
            Refusal::NotReady => "An earlier stage of the session has not been completed yet."@,
            Refusal::AwaitingStore => "The session is waiting for the store to answer."@,
            Refusal::NothingPending => "Nothing of the session is with the store."@,
        }
    }

    /// The failure category that a refusal stands for, if it has one.
    pub fn error(self) -> (r: Option<InspectionError>)
        ensures
            r == self.category(),
    {
        match self {
            Refusal::AlreadyComplete => Some(InspectionError::StageAlreadyComplete),
            Refusal::Terminal(reason) => Some(reason),
            _ => None,
        }
    }

    /// What is shown for a refusal.
    pub fn message(self) -> (text: String)
        ensures
            text@ == self.explanation(),
    {
        match self {
            Refusal::AlreadyComplete => InspectionError::StageAlreadyComplete.message(),
            Refusal::Terminal(reason) => reason.message(),
            Refusal::NotReady => crate::text::owned(
                "An earlier stage of the session has not been completed yet.",
            ),
            Refusal::AwaitingStore => crate::text::owned(
                "The session is waiting for the store to answer.",
            ),
            Refusal::NothingPending => crate::text::owned("Nothing of the session is with the store."),
        }
    }
}

/// What happened outside the orchestrator.
#[derive(Debug, Clone, Copy, PartialEq, Eq, Structural)]
pub enum SessionEvent {
    /// The scanned code was decoded.
    CodeAccepted,
    /// The scanned code was malformed.
    CodeRejected,
    /// An encoded image is at hand, from a device or from the operator.
    ImageProduced,
    /// The camera ladder ended on the manual path.
    ManualPathOffered(ManualPath),
    /// The camera ladder ended for good.
    CaptureFailed(InspectionError),
    /// The pipeline answered with a verdict.
    VerdictReceived(Verdict),
    /// The pipeline did not answer with success.
    PipelineFailed,
    /// The human inspector supplied the final judgment.
    VerificationSupplied,
    /// The store has kept the artifact handed to it.
    Stored,
    /// The store could not keep the artifact handed to it.
    StoreFailed,
    /// The caller gives the session up.
    Abandoned(InspectionError),
}

/// What the caller has to do after an event.
#[derive(Debug, Clone, Copy, PartialEq, Eq, Structural)]
pub enum SessionAction {
    /// Keep the artifact durably, then report `Stored` or `StoreFailed`.
    Store(Artifact),
    /// The status changed to the given one and may be shown.
    StatusChanged(Status),
    /// A further verdict was added to an evaluated session.
    VerdictAppended,
    /// Ask the operator to supply an image along the given path.
    AwaitOperator(ManualPath),
    /// Tell the caller of a failure that leaves the session as it was.
    Report(InspectionError),
    /// The event was not accepted.
    Refused(Refusal),
}

/// The mathematical content of a session.
pub ghost struct SessionState {
    /// The last stage completed; never `Failed`.
    pub stage: Status,
    /// Why the session failed, if it did.
    pub failure: Option<InspectionError>,
    /// The artifact that is with the store.
    pub pending: Option<Artifact>,
    /// Every verdict stored so far, oldest first.
    pub verdicts: Seq<Verdict>,
    /// Every status the session has had, oldest first.
    pub history: Seq<Status>,
    /// When the final judgment was stored.
    pub completed_at: Option<i64>,
}

/// How many entries of a history are stages, that is not `Failed`.
pub open spec fn stages_in(history: Seq<Status>) -> nat
    decreases history.len(),
{
    if history.len() == 0 {
        0
    } else {
        stages_in(history.drop_last()) + if history.last() is Failed {
            0nat
        } else {
            1nat
        }
    }
}

/// A history is in order when each stage in it has as many stages before it
/// as its rank says: the stages come as `Created`, `TargetBound`,
/// `ImageCaptured`, `AiEvaluated`, `HumanVerified`, none left out, none twice.
pub open spec fn in_order(history: Seq<Status>) -> bool
    decreases history.len(),
{
    if history.len() == 0 {
        true
    } else {
        in_order(history.drop_last()) && (history.last() is Failed || history.last().rank()
            == stages_in(history.drop_last()))
    }
}

impl SessionState {
    /// The status that is shown: `Failed` after a failure, else the stage.
    pub open spec fn status(self) -> Status {
        if self.failure is Some {
            Status::Failed
        } else {
            self.stage
        }
    }

    /// A session that has just been opened.
    pub open spec fn fresh() -> SessionState {
        SessionState {
            stage: Status::Created,
            failure: None,
            pending: None,
            verdicts: Seq::empty(),
            history: seq![Status::Created],
            completed_at: None,
        }
    }

    /// What holds of every session that was opened and then only stepped.
    pub open spec fn wf(self) -> bool {
        &&& !(self.stage is Failed)
        &&& self.history.len() >= 1
        &&& in_order(self.history)
        &&& stages_in(self.history) == self.stage.rank() + 1
        &&& self.history.last() == self.status()
        &&& (self.failure is Some ==> !(self.stage is HumanVerified))
        &&& (self.completed_at is Some <==> self.stage is HumanVerified)
        &&& (self.verdicts.len() > 0 <==> self.stage.rank() >= 3)
        &&& (forall|i: int| 0 <= i < self.verdicts.len() ==> (#[trigger] self.verdicts[i]).valid())
        &&& match self.pending {
            None => true,
            Some(Artifact::Target) => self.stage is Created && self.failure is None,
            Some(Artifact::Image) => self.stage is TargetBound && self.failure is None,
            Some(Artifact::Verdict(v)) => v.valid() && ((self.stage is AiEvaluated
                && self.failure is None) || (self.stage is ImageCaptured && (self.failure is None
                || self.failure == Some(InspectionError::PipelineUnavailable)))),
            Some(Artifact::Verification) => self.stage is AiEvaluated && self.failure is None,
        }
    }

    /// Whether the session takes an answer of the pipeline: its image is
    /// stored, nothing is with the store, and it has not failed, or it has
    /// failed only because the pipeline was unavailable. Only then may the
    /// images be submitted.
    pub open spec fn may_evaluate(self) -> bool {
        &&& self.pending is None
        &&& match self.failure {
            None => self.stage is ImageCaptured || self.stage is AiEvaluated,
            Some(reason) => reason == InspectionError::PipelineUnavailable && self.stage
                is ImageCaptured,
        }
    }

    pub open spec fn failed(self, reason: InspectionError) -> SessionState {
        SessionState {
            failure: Some(reason),
            pending: None,
            history: if self.failure is None {
                self.history.push(Status::Failed)
            } else {
                self.history
            },
            ..self
        }
    }

    /// The session after the stage `to` was completed.
    pub open spec fn advanced(self, to: Status) -> SessionState {
        SessionState {
            stage: to,
            failure: None,
            pending: None,
            history: self.history.push(to),
            ..self
        }
    }

    /// The session after the store has kept `artifact`.
    pub open spec fn stored(self, artifact: Artifact, now: i64) -> (SessionState, SessionAction) {
        match artifact {
            Artifact::Target => (
                self.advanced(Status::TargetBound),
                SessionAction::StatusChanged(Status::TargetBound),
            ),
            Artifact::Image => (
                self.advanced(Status::ImageCaptured),
                SessionAction::StatusChanged(Status::ImageCaptured),
            ),
            Artifact::Verdict(v) => if self.stage is ImageCaptured {
                (
                    SessionState {
                        verdicts: self.verdicts.push(v),
                        ..self.advanced(Status::AiEvaluated)
                    },
                    SessionAction::StatusChanged(Status::AiEvaluated),
                )
            } else {
                (
                    SessionState { verdicts: self.verdicts.push(v), pending: None, ..self },
                    SessionAction::VerdictAppended,
                )
            },
            Artifact::Verification => (
                SessionState {
                    completed_at: Some(now),
                    ..self.advanced(Status::HumanVerified)
                },
                SessionAction::StatusChanged(Status::HumanVerified),
            ),
        }
    }

    /// The answer to an event of a stage with rank `of`, where the session
    /// is not at the stage before it.
    pub open spec fn misplaced(self, of: int) -> SessionAction {
        if self.stage.rank() >= of {
            SessionAction::Refused(Refusal::AlreadyComplete)
        } else {
            SessionAction::Refused(Refusal::NotReady)
        }
    }

    /// The session and the action after the pipeline has answered.
    pub open spec fn evaluated(self, event: SessionEvent) -> (SessionState, SessionAction) {
        match event {
            SessionEvent::VerdictReceived(v) if v.valid() => (
                SessionState { pending: Some(Artifact::Verdict(v)), ..self },
                SessionAction::Store(Artifact::Verdict(v)),
            ),
            _ => if self.stage is ImageCaptured {
                (
                    self.failed(InspectionError::PipelineUnavailable),
                    SessionAction::StatusChanged(Status::Failed),
                )
            } else {
                (self, SessionAction::Report(InspectionError::PipelineUnavailable))
            },
        }
    }

    /// The session and the action that follow `event`, which arrives at `now`.
    pub open spec fn next(self, event: SessionEvent, now: i64) -> (SessionState, SessionAction) {
        if self.stage is HumanVerified {
            (self, SessionAction::Refused(Refusal::AlreadyComplete))
        } else if let Some(artifact) = self.pending {
            match event {
                SessionEvent::Stored => self.stored(artifact, now),
                SessionEvent::StoreFailed => (
                    self.failed(InspectionError::PersistenceError),
                    SessionAction::StatusChanged(Status::Failed),
                ),
                _ => (self, SessionAction::Refused(Refusal::AwaitingStore)),
            }
        } else if let Some(reason) = self.failure {
            if reason == InspectionError::PipelineUnavailable && self.stage is ImageCaptured && (
            event is VerdictReceived || event is PipelineFailed) {
                self.evaluated(event)
            } else {
                (self, SessionAction::Refused(Refusal::Terminal(reason)))
            }
        } else {
            match event {
                SessionEvent::Stored | SessionEvent::StoreFailed => (
                    self,
                    SessionAction::Refused(Refusal::NothingPending),
                ),
                SessionEvent::Abandoned(reason) => (
                    self.failed(reason),
                    SessionAction::StatusChanged(Status::Failed),
                ),
                SessionEvent::CodeAccepted => if self.stage is Created {
                    (
                        SessionState { pending: Some(Artifact::Target), ..self },
                        SessionAction::Store(Artifact::Target),
                    )
                } else {
                    (self, self.misplaced(1))
                },
                SessionEvent::CodeRejected => if self.stage is Created {
                    (
                        self.failed(InspectionError::MalformedCode),
                        SessionAction::StatusChanged(Status::Failed),
                    )
                } else {
                    (self, self.misplaced(1))
                },
                SessionEvent::ImageProduced => if self.stage is TargetBound {
                    (
                        SessionState { pending: Some(Artifact::Image), ..self },
                        SessionAction::Store(Artifact::Image),
                    )
                } else {
                    (self, self.misplaced(2))
                },
                SessionEvent::ManualPathOffered(path) => if self.stage is TargetBound {
                    (self, SessionAction::AwaitOperator(path))
                } else {
                    (self, self.misplaced(2))
                },
                SessionEvent::CaptureFailed(reason) => if self.stage is TargetBound {
                    (self.failed(reason), SessionAction::StatusChanged(Status::Failed))
                } else {
                    (self, self.misplaced(2))
                },
                SessionEvent::VerdictReceived(_) | SessionEvent::PipelineFailed => if self.stage
                    is ImageCaptured || self.stage is AiEvaluated {
                    self.evaluated(event)
                } else {
                    (self, SessionAction::Refused(Refusal::NotReady))
                },
                SessionEvent::VerificationSupplied => if self.stage is AiEvaluated {
                    (
                        SessionState { pending: Some(Artifact::Verification), ..self },
                        SessionAction::Store(Artifact::Verification),
                    )
                } else {
                    (self, SessionAction::Refused(Refusal::NotReady))
                },
            }
        }
    }
}


/// A step keeps a session well formed.
pub proof fn lemma_next_preserves_wf(s: SessionState, event: SessionEvent, now: i64)
    requires
        s.wf(),
    ensures
        s.next(event, now).0.wf(),
{
    let t = s.next(event, now).0;
    if t.history != s.history {
        if t.history == s.history.push(Status::Failed) {
            assert(t.history.drop_last() =~= s.history);
        } else {
            assert(t.history == s.history.push(t.stage));
            assert(t.history.drop_last() =~= s.history);
        }
    }
    assert forall|i: int| 0 <= i < t.verdicts.len() implies (#[trigger] t.verdicts[i]).valid() by {
        if i < s.verdicts.len() {
            assert(s.verdicts[i].valid());
        }
    }
}

/// A fresh session is well formed.
pub proof fn lemma_fresh_wf()
    ensures
        SessionState::fresh().wf(),
{
    let h = seq![Status::Created];
    assert(h.drop_last() =~= Seq::<Status>::empty());
    assert(stages_in(h.drop_last()) == 0);
    assert(in_order(h.drop_last()));
}

/// The status never regresses and never skips a stage: a step leaves the
/// stage where it is or moves it to the next one, and it moves only when the
/// store confirms the artifact of that stage. Nothing stored is taken back:
/// the history and the list of verdicts only grow at the end.
pub proof fn lemma_step_is_monotonic(s: SessionState, event: SessionEvent, now: i64)
    requires
        s.wf(),
    ensures
        ({
            let t = s.next(event, now).0;
            &&& (t.stage == s.stage || t.stage.rank() == s.stage.rank() + 1)
            &&& (t.stage != s.stage ==> event is Stored && s.pending is Some)
            &&& s.history.len() <= t.history.len() <= s.history.len() + 1
            &&& t.history.take(s.history.len() as int) == s.history
            &&& s.verdicts.len() <= t.verdicts.len()
            &&& t.verdicts.take(s.verdicts.len() as int) == s.verdicts
        }),
{
    let t = s.next(event, now).0;
    assert(t.history.take(s.history.len() as int) =~= s.history);
    assert(t.verdicts.take(s.verdicts.len() as int) =~= s.verdicts);
}

/// Once failed, a session accepts only a new submission to the pipeline, and
/// only where it failed because the pipeline was unavailable; once verified,
/// it accepts nothing.
pub proof fn lemma_terminal_states(s: SessionState, event: SessionEvent, now: i64)
    requires
        s.wf(),
        s.pending is None,
    ensures
        s.stage is HumanVerified ==> s.next(event, now) == (
            s,
            SessionAction::Refused(Refusal::AlreadyComplete),
        ),
        s.failure is Some && !(s.failure == Some(InspectionError::PipelineUnavailable) && (event
            is VerdictReceived || event is PipelineFailed)) ==> s.next(event, now).0 == s,
{
}

/// An answer of the pipeline is taken exactly where the session may be
/// evaluated; elsewhere it is refused and changes nothing.
pub proof fn lemma_evaluation_is_taken_when_allowed(s: SessionState, event: SessionEvent, now: i64)
    requires
        s.wf(),
        event is VerdictReceived || event is PipelineFailed,
    ensures
        s.may_evaluate() <==> !(s.next(event, now).1 is Refused),
        !s.may_evaluate() ==> s.next(event, now).0 == s,
{
}

/// Reading back the name of a status gives the status again.
pub proof fn lemma_status_name_round_trip(status: Status)
    ensures
        Status::of_name(status.name()) == Some(status),
{
    reveal_strlit("CREATED");
    reveal_strlit("TARGET_BOUND");
    reveal_strlit("IMAGE_CAPTURED");
    reveal_strlit("AI_EVALUATED");
    reveal_strlit("HUMAN_VERIFIED");
    reveal_strlit("FAILED");
    assert("CREATED"@.len() == 7 && "TARGET_BOUND"@.len() == 12 && "IMAGE_CAPTURED"@.len() == 14);
    assert("AI_EVALUATED"@.len() == 12 && "HUMAN_VERIFIED"@.len() == 14 && "FAILED"@.len() == 6);
    assert("TARGET_BOUND"@[0] == 'T' && "AI_EVALUATED"@[0] == 'A');
    assert("IMAGE_CAPTURED"@[0] == 'I' && "HUMAN_VERIFIED"@[0] == 'H');
}

/// Within a history in order, the part before any position is in order
/// too, and a stage found at a position has as many stages before it as its
/// rank says.
pub proof fn lemma_in_order_at(history: Seq<Status>, k: int)
    requires
        in_order(history),
        0 <= k < history.len(),
    ensures
        in_order(history.take(k)),
        history[k] is Failed || history[k].rank() == stages_in(history.take(k)),
    decreases history.len(),
{
    if k == history.len() - 1 {
        assert(history.take(k) =~= history.drop_last());
    } else {
        lemma_in_order_at(history.drop_last(), k);
        assert(history.drop_last().take(k) =~= history.take(k));
    }
}

/// A longer part of a history holds at least as many stages as a shorter one.
pub proof fn lemma_stages_in_prefix(history: Seq<Status>, i: int, j: int)
    requires
        0 <= i <= j <= history.len(),
    ensures
        stages_in(history.take(i)) <= stages_in(history.take(j)),
    decreases j - i,
{
    if i < j {
        lemma_stages_in_prefix(history, i, j - 1);
        assert(history.take(j).drop_last() =~= history.take(j - 1));
    }
}

/// In a history in order the status never regresses: of two stages, the
/// later one has the higher rank.
pub proof fn lemma_history_never_regresses(history: Seq<Status>, i: int, j: int)
    requires
        in_order(history),
        0 <= i < j < history.len(),
        !(history[i] is Failed),
        !(history[j] is Failed),
    ensures
        history[i].rank() < history[j].rank(),
{
    lemma_in_order_at(history, i);
    lemma_in_order_at(history, j);
    lemma_stages_in_prefix(history, i + 1, j);
    assert(history.take(i + 1).drop_last() =~= history.take(i));
}

/// A history in order that holds more than `n` stages holds the stage of
/// rank `n`; the position is returned.
pub proof fn lemma_stage_of_rank(history: Seq<Status>, n: int) -> (i: int)
    requires
        in_order(history),
        0 <= n < stages_in(history),
    ensures
        0 <= i < history.len(),
        !(history[i] is Failed),
        history[i].rank() == n,
    decreases history.len(),
{
    let last = history.len() - 1;
    if !(history.last() is Failed) && stages_in(history.drop_last()) == n {
        last
    } else {
        lemma_stage_of_rank(history.drop_last(), n)
    }
}

/// In a history in order no stage is skipped: before a stage of rank above
/// zero stands the stage of the rank below it.
pub proof fn lemma_history_never_skips(history: Seq<Status>, j: int)
    requires
        in_order(history),
        0 <= j < history.len(),
        history[j].rank() > 0,
    ensures
        exists|i: int| 0 <= i < j && #[trigger] history[i].rank() == history[j].rank() - 1,
{
    lemma_in_order_at(history, j);
    let i = lemma_stage_of_rank(history.take(j), history[j].rank() - 1);
    assert(history.take(j)[i] == history[i]);
}


/// One inspection run.
#[derive(Debug, Clone)]
pub struct Session {
    id: String,
    target_id: Option<String>,
    operator: Option<i64>,
    started_at: i64,
    completed_at: Option<i64>,
    stage: Status,
    failure: Option<InspectionError>,
    pending: Option<Artifact>,
    verdicts: Vec<Verdict>,
    history: Vec<Status>,
}

impl View for Session {
    type V = SessionState;

    closed spec fn view(&self) -> SessionState {
        SessionState {
            stage: self.stage,
            failure: self.failure,
            pending: self.pending,
            verdicts: self.verdicts@,
            history: self.history@,
            completed_at: self.completed_at,
        }
    }
}

impl Session {
    /// The identifier given when the session was opened.
    pub closed spec fn id_text(&self) -> Seq<char> {
        self.id@
    }

    /// The operator given when the session was opened.
    pub closed spec fn operator_ref(&self) -> Option<i64> {
        self.operator
    }

    /// The time given when the session was opened.
    pub closed spec fn opened_at(&self) -> i64 {
        self.started_at
    }

    /// The target that the session is bound to.
    pub closed spec fn target_text(&self) -> Option<Seq<char>> {
        match self.target_id {
            Some(t) => Some(t@),
            None => None,
        }
    }

    /// Opens a session: `Created`, with nothing stored.
    pub fn new(id: String, operator: Option<i64>, started_at: i64) -> (s: Session)
        ensures
            s@ == SessionState::fresh(),
            s@.wf(),
            s.id_text() == id@,
            s.operator_ref() == operator,
            s.opened_at() == started_at,
            s.target_text() is None,
    {
        let mut history: Vec<Status> = Vec::new();
        history.push(Status::Created);
        proof {
            lemma_fresh_wf();
            assert(history@ =~= seq![Status::Created]);
        }
        Session {
            id,
            target_id: None,
            operator,
            started_at,
            completed_at: None,
            stage: Status::Created,
            failure: None,
            pending: None,
            verdicts: Vec::new(),
            history,
        }
    }

    fn fail(&mut self, reason: InspectionError) -> (action: SessionAction)
        ensures
            final(self)@ == old(self)@.failed(reason),
            action == SessionAction::StatusChanged(Status::Failed),
            final(self).id == old(self).id,
            final(self).target_id == old(self).target_id,
            final(self).operator == old(self).operator,
            final(self).started_at == old(self).started_at,
    {
        if self.failure.is_none() {
            self.history.push(Status::Failed);
        }
        self.failure = Some(reason);
        self.pending = None;
        SessionAction::StatusChanged(Status::Failed)
    }

    fn advance(&mut self, to: Status) -> (action: SessionAction)
        ensures
            final(self)@ == old(self)@.advanced(to),
            action == SessionAction::StatusChanged(to),
            final(self).id == old(self).id,
            final(self).target_id == old(self).target_id,
            final(self).operator == old(self).operator,
            final(self).started_at == old(self).started_at,
    {
        self.stage = to;
        self.failure = None;
        self.pending = None;
        self.history.push(to);
        SessionAction::StatusChanged(to)
    }

    fn store_done(&mut self, artifact: Artifact, now: i64) -> (action: SessionAction)
        ensures
            (final(self)@, action) == old(self)@.stored(artifact, now),
            final(self).id == old(self).id,
            final(self).target_id == old(self).target_id,
            final(self).operator == old(self).operator,
            final(self).started_at == old(self).started_at,
    {
        match artifact {
            Artifact::Target => self.advance(Status::TargetBound),
            Artifact::Image => self.advance(Status::ImageCaptured),
            Artifact::Verdict(v) => {
                if self.stage == Status::ImageCaptured {
                    self.verdicts.push(v);
                    self.advance(Status::AiEvaluated)
                } else {
                    self.verdicts.push(v);
                    self.pending = None;
                    SessionAction::VerdictAppended
                }
            },
            Artifact::Verification => {
                self.completed_at = Some(now);
                self.advance(Status::HumanVerified)
            },
        }
    }

    fn misplaced_action(&self, of: u8) -> (action: SessionAction)
        ensures
            action == self@.misplaced(of as int),
    {
        let rank: u8 = match self.stage {
            Status::Created => 0,
            Status::TargetBound => 1,
            Status::ImageCaptured => 2,
            Status::AiEvaluated => 3,
            Status::HumanVerified => 4,
            Status::Failed => 0,
        };
        if self.stage != Status::Failed && rank >= of {
            SessionAction::Refused(Refusal::AlreadyComplete)
        } else {
            SessionAction::Refused(Refusal::NotReady)
        }
    }

    fn evaluate(&mut self, event: SessionEvent) -> (action: SessionAction)
        ensures
            (final(self)@, action) == old(self)@.evaluated(event),
            final(self).id == old(self).id,
            final(self).target_id == old(self).target_id,
            final(self).operator == old(self).operator,
            final(self).started_at == old(self).started_at,
    {
        if let SessionEvent::VerdictReceived(v) = event {
            if v.is_valid() {
                self.pending = Some(Artifact::Verdict(v));
                return SessionAction::Store(Artifact::Verdict(v));
            }
        }
        if self.stage == Status::ImageCaptured {
            self.fail(InspectionError::PipelineUnavailable)
        } else {
            SessionAction::Report(InspectionError::PipelineUnavailable)
        }
    }

    /// Takes an event that arrives at `now` and answers with what is to be
    /// done. The session changes as [`SessionState::next`] says and stays
    /// well formed; who it belongs to never changes.
    pub fn step(&mut self, event: SessionEvent, now: i64) -> (action: SessionAction)
        requires
            old(self)@.wf(),
        ensures
            (final(self)@, action) == old(self)@.next(event, now),
            final(self)@.wf(),
            final(self).id_text() == old(self).id_text(),
            final(self).operator_ref() == old(self).operator_ref(),
            final(self).opened_at() == old(self).opened_at(),
            final(self).target_text() == old(self).target_text(),
    {
        proof {
            lemma_next_preserves_wf(self@, event, now);
        }
        if self.stage == Status::HumanVerified {
            return SessionAction::Refused(Refusal::AlreadyComplete);
        }
        if let Some(artifact) = self.pending {
            return match event {
                SessionEvent::Stored => self.store_done(artifact, now),
                SessionEvent::StoreFailed => self.fail(InspectionError::PersistenceError),
                _ => SessionAction::Refused(Refusal::AwaitingStore),
            };
        }
        if let Some(reason) = self.failure {
            let resubmission = match event {
                SessionEvent::VerdictReceived(_) | SessionEvent::PipelineFailed => true,
                _ => false,
            };
            if reason == InspectionError::PipelineUnavailable && self.stage
                == Status::ImageCaptured && resubmission {
                return self.evaluate(event);
            }
            return SessionAction::Refused(Refusal::Terminal(reason));
        }
        match event {
            SessionEvent::Stored | SessionEvent::StoreFailed => SessionAction::Refused(
                Refusal::NothingPending,
            ),
            SessionEvent::Abandoned(reason) => self.fail(reason),
            SessionEvent::CodeAccepted => {
                if self.stage == Status::Created {
                    self.pending = Some(Artifact::Target);
                    SessionAction::Store(Artifact::Target)
                } else {
                    self.misplaced_action(1)
                }
            },
            SessionEvent::CodeRejected => {
                if self.stage == Status::Created {
                    self.fail(InspectionError::MalformedCode)
                } else {
                    self.misplaced_action(1)
                }
            },
            SessionEvent::ImageProduced => {
                if self.stage == Status::TargetBound {
                    self.pending = Some(Artifact::Image);
                    SessionAction::Store(Artifact::Image)
                } else {
                    self.misplaced_action(2)
                }
            },
            SessionEvent::ManualPathOffered(path) => {
                if self.stage == Status::TargetBound {
                    SessionAction::AwaitOperator(path)
                } else {
                    self.misplaced_action(2)
                }
            },
            SessionEvent::CaptureFailed(reason) => {
                if self.stage == Status::TargetBound {
                    self.fail(reason)
                } else {
                    self.misplaced_action(2)
                }
            },
            SessionEvent::VerdictReceived(_) | SessionEvent::PipelineFailed => {
                if self.stage == Status::ImageCaptured || self.stage == Status::AiEvaluated {
                    self.evaluate(event)
                } else {
                    SessionAction::Refused(Refusal::NotReady)
                }
            },
            SessionEvent::VerificationSupplied => {
                if self.stage == Status::AiEvaluated {
                    self.pending = Some(Artifact::Verification);
                    SessionAction::Store(Artifact::Verification)
                } else {
                    SessionAction::Refused(Refusal::NotReady)
                }
            },
        }
    }

    /// Records the target that the decoded code names. The reference is
    /// kept only while the session is `Created` and nothing is pending.
    pub fn bind_target(&mut self, target_id: String, now: i64) -> (action: SessionAction)
        requires
            old(self)@.wf(),
        ensures
            (final(self)@, action) == old(self)@.next(SessionEvent::CodeAccepted, now),
            final(self)@.wf(),
            final(self).id_text() == old(self).id_text(),
            final(self).operator_ref() == old(self).operator_ref(),
            final(self).opened_at() == old(self).opened_at(),
            final(self).target_text() == if action == SessionAction::Store(Artifact::Target) {
                Some(target_id@)
            } else {
                old(self).target_text()
            },
    {
        let action = self.step(SessionEvent::CodeAccepted, now);
        if action == SessionAction::Store(Artifact::Target) {
            self.target_id = Some(target_id);
        }
        action
    }

    /// Whether the images of the session may be submitted to the pipeline
    /// now: only then will the answer be taken.
    pub fn may_submit(&self) -> (b: bool)
        ensures
            b == self@.may_evaluate(),
    {
        if self.pending.is_some() {
            return false;
        }
        match self.failure {
            None => self.stage == Status::ImageCaptured || self.stage == Status::AiEvaluated,
            Some(reason) => reason == InspectionError::PipelineUnavailable && self.stage
                == Status::ImageCaptured,
        }
    }

    /// The status that is shown.
    pub fn status(&self) -> (s: Status)
        ensures
            s == self@.status(),
    {
        if self.failure.is_some() {
            Status::Failed
        } else {
            self.stage
        }
    }

    /// The last stage completed, whether or not the session failed later.
    pub fn stage(&self) -> (s: Status)
        ensures
            s == self@.stage,
    {
        self.stage
    }

    /// Why the session failed, if it did.
    pub fn failure(&self) -> (r: Option<InspectionError>)
        ensures
            r == self@.failure,
    {
        self.failure
    }

    /// The artifact that is with the store.
    pub fn pending(&self) -> (r: Option<Artifact>)
        ensures
            r == self@.pending,
    {
        self.pending
    }

    /// Every status the session has had, oldest first.
    pub fn history(&self) -> (h: &Vec<Status>)
        ensures
            h@ == self@.history,
    {
        &self.history
    }

    /// Every verdict stored so far, oldest first.
    pub fn verdicts(&self) -> (v: &Vec<Verdict>)
        ensures
            v@ == self@.verdicts,
    {
        &self.verdicts
    }

    /// When the final judgment was stored.
    pub fn completed_at(&self) -> (t: Option<i64>)
        ensures
            t == self@.completed_at,
    {
        self.completed_at
    }

    /// When the session was opened.
    pub fn started_at(&self) -> (t: i64)
        ensures
            t == self.opened_at(),
    {
        self.started_at
    }

    /// The operator who opened the session.
    pub fn operator(&self) -> (o: Option<i64>)
        ensures
            o == self.operator_ref(),
    {
        self.operator
    }

    /// The identifier of the session.
    pub fn id(&self) -> (s: &String)
        ensures
            s@ == self.id_text(),
    {
        &self.id
    }

    /// The target that the session is bound to.
    pub fn target_id(&self) -> (t: &Option<String>)
        ensures
            match *t {
                Some(s) => self.target_text() == Some(s@),
                None => self.target_text() is None,
            },
    {
        &self.target_id
    }
}

} // verus!
