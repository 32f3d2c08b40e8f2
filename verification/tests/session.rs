use inspection_core::error::InspectionError;
use inspection_core::session::{
    Artifact, ManualPath, Refusal, Session, SessionAction, SessionEvent, Status,
};
use inspection_core::verdict::{Outcome, Verdict};

fn verdict(ppm: u32) -> Verdict {
    Verdict { outcome: Outcome::Pass, confidence_ppm: ppm, processing_ms: 1200 }
}

fn opened() -> Session {
    Session::new("session-1".to_string(), Some(7), 1_700_000_000)
}

fn at_image_captured() -> Session {
    let mut s = opened();
    assert_eq!(s.step(SessionEvent::CodeAccepted, 1), SessionAction::Store(Artifact::Target));
    assert_eq!(s.step(SessionEvent::Stored, 2), SessionAction::StatusChanged(Status::TargetBound));
    assert_eq!(s.step(SessionEvent::ImageProduced, 3), SessionAction::Store(Artifact::Image));
    assert_eq!(s.step(SessionEvent::Stored, 4), SessionAction::StatusChanged(Status::ImageCaptured));
    s
}

fn ranks_are_in_order(history: &[Status]) -> bool {
    let order = [
        Status::Created,
        Status::TargetBound,
        Status::ImageCaptured,
        Status::AiEvaluated,
        Status::HumanVerified,
    ];
    let stages: Vec<Status> = history.iter().copied().filter(|s| *s != Status::Failed).collect();
    stages.len() <= order.len() && stages.iter().zip(order.iter()).all(|(a, b)| a == b)
}

#[test]
fn session_starts_created() {
    let s = opened();
    assert_eq!(s.status(), Status::Created);
    assert_eq!(s.stage(), Status::Created);
    assert_eq!(s.failure(), None);
    assert_eq!(s.pending(), None);
    assert_eq!(s.history(), &vec![Status::Created]);
    assert!(s.verdicts().is_empty());
    assert_eq!(s.completed_at(), None);
    assert_eq!(s.started_at(), 1_700_000_000);
    assert_eq!(s.operator(), Some(7));
    assert_eq!(s.id(), "session-1");
    assert_eq!(s.target_id(), &None);
}

#[test]
fn session_full_workflow_in_order() {
    let mut s = at_image_captured();
    let v = verdict(950_000);
    assert_eq!(
        s.step(SessionEvent::VerdictReceived(v), 5),
        SessionAction::Store(Artifact::Verdict(v))
    );
    assert_eq!(s.status(), Status::ImageCaptured);
    assert_eq!(s.step(SessionEvent::Stored, 6), SessionAction::StatusChanged(Status::AiEvaluated));
    assert_eq!(s.verdicts(), &vec![v]);
    assert_eq!(
        s.step(SessionEvent::VerificationSupplied, 7),
        SessionAction::Store(Artifact::Verification)
    );
    assert_eq!(s.completed_at(), None);
    assert_eq!(s.step(SessionEvent::Stored, 8), SessionAction::StatusChanged(Status::HumanVerified));
    assert_eq!(s.status(), Status::HumanVerified);
    assert_eq!(s.completed_at(), Some(8));
    assert_eq!(
        s.history(),
        &vec![
            Status::Created,
            Status::TargetBound,
            Status::ImageCaptured,
            Status::AiEvaluated,
            Status::HumanVerified
        ]
    );
    // Terminal: nothing more is accepted.
    assert_eq!(
        s.step(SessionEvent::VerdictReceived(v), 9),
        SessionAction::Refused(Refusal::AlreadyComplete)
    );
    assert_eq!(s.step(SessionEvent::Stored, 9), SessionAction::Refused(Refusal::AlreadyComplete));
    assert_eq!(s.history().len(), 5);
}

#[test]
fn status_changes_only_after_the_store_confirmed() {
    let mut s = opened();
    s.step(SessionEvent::CodeAccepted, 1);
    assert_eq!(s.status(), Status::Created);
    assert_eq!(s.pending(), Some(Artifact::Target));
    // While the store is busy nothing else is taken.
    assert_eq!(s.step(SessionEvent::ImageProduced, 2), SessionAction::Refused(Refusal::AwaitingStore));
    assert_eq!(s.step(SessionEvent::CodeAccepted, 2), SessionAction::Refused(Refusal::AwaitingStore));
    assert_eq!(s.history(), &vec![Status::Created]);
    s.step(SessionEvent::Stored, 3);
    assert_eq!(s.status(), Status::TargetBound);
    assert_eq!(s.pending(), None);
    assert_eq!(s.step(SessionEvent::Stored, 4), SessionAction::Refused(Refusal::NothingPending));
    assert_eq!(s.step(SessionEvent::StoreFailed, 4), SessionAction::Refused(Refusal::NothingPending));
}

#[test]
fn repeated_stage_is_already_complete() {
    let mut s = at_image_captured();
    assert_eq!(s.step(SessionEvent::CodeAccepted, 5), SessionAction::Refused(Refusal::AlreadyComplete));
    assert_eq!(s.step(SessionEvent::CodeRejected, 5), SessionAction::Refused(Refusal::AlreadyComplete));
    assert_eq!(s.step(SessionEvent::ImageProduced, 5), SessionAction::Refused(Refusal::AlreadyComplete));
    assert_eq!(
        s.step(SessionEvent::CaptureFailed(InspectionError::NoDeviceFound), 5),
        SessionAction::Refused(Refusal::AlreadyComplete)
    );
    assert_eq!(
        s.step(SessionEvent::ManualPathOffered(ManualPath::FileRequired), 5),
        SessionAction::Refused(Refusal::AlreadyComplete)
    );
    assert_eq!(s.status(), Status::ImageCaptured);
    assert_eq!(s.failure(), None);
}

#[test]
fn stages_cannot_be_skipped() {
    let mut s = opened();
    assert_eq!(s.step(SessionEvent::ImageProduced, 1), SessionAction::Refused(Refusal::NotReady));
    assert_eq!(
        s.step(SessionEvent::VerdictReceived(verdict(1)), 1),
        SessionAction::Refused(Refusal::NotReady)
    );
    assert_eq!(s.step(SessionEvent::PipelineFailed, 1), SessionAction::Refused(Refusal::NotReady));
    assert_eq!(s.step(SessionEvent::VerificationSupplied, 1), SessionAction::Refused(Refusal::NotReady));
    assert_eq!(s.status(), Status::Created);
    let mut t = at_image_captured();
    assert_eq!(t.step(SessionEvent::VerificationSupplied, 5), SessionAction::Refused(Refusal::NotReady));
    assert_eq!(t.status(), Status::ImageCaptured);
}

#[test]
fn malformed_code_fails_the_session() {
    let mut s = opened();
    assert_eq!(s.step(SessionEvent::CodeRejected, 1), SessionAction::StatusChanged(Status::Failed));
    assert_eq!(s.status(), Status::Failed);
    assert_eq!(s.stage(), Status::Created);
    assert_eq!(s.failure(), Some(InspectionError::MalformedCode));
    assert_eq!(s.history(), &vec![Status::Created, Status::Failed]);
    assert_eq!(
        s.step(SessionEvent::CodeAccepted, 2),
        SessionAction::Refused(Refusal::Terminal(InspectionError::MalformedCode))
    );
    assert_eq!(
        s.step(SessionEvent::VerdictReceived(verdict(5)), 2),
        SessionAction::Refused(Refusal::Terminal(InspectionError::MalformedCode))
    );
    assert_eq!(s.history().len(), 2);
}

#[test]
fn pipeline_failure_allows_resubmission_without_new_capture() {
    let mut s = at_image_captured();
    assert_eq!(s.step(SessionEvent::PipelineFailed, 5), SessionAction::StatusChanged(Status::Failed));
    assert_eq!(s.status(), Status::Failed);
    assert_eq!(s.stage(), Status::ImageCaptured);
    assert_eq!(s.failure(), Some(InspectionError::PipelineUnavailable));
    // Capture is not repeated and nothing else is taken.
    assert_eq!(
        s.step(SessionEvent::ImageProduced, 6),
        SessionAction::Refused(Refusal::Terminal(InspectionError::PipelineUnavailable))
    );
    // A second failure leaves it failed, without a second entry.
    assert_eq!(s.step(SessionEvent::PipelineFailed, 6), SessionAction::StatusChanged(Status::Failed));
    let v = verdict(400_000);
    assert_eq!(s.step(SessionEvent::VerdictReceived(v), 7), SessionAction::Store(Artifact::Verdict(v)));
    assert_eq!(s.step(SessionEvent::Stored, 8), SessionAction::StatusChanged(Status::AiEvaluated));
    assert_eq!(s.status(), Status::AiEvaluated);
    assert_eq!(s.failure(), None);
    assert_eq!(
        s.history(),
        &vec![
            Status::Created,
            Status::TargetBound,
            Status::ImageCaptured,
            Status::Failed,
            Status::AiEvaluated
        ]
    );
    assert!(ranks_are_in_order(s.history()));
}

#[test]
fn evaluated_session_takes_further_verdicts() {
    let mut s = at_image_captured();
    let first = verdict(100_000);
    let second = Verdict { outcome: Outcome::Fail, confidence_ppm: 1_000_000, processing_ms: 0 };
    s.step(SessionEvent::VerdictReceived(first), 5);
    s.step(SessionEvent::Stored, 6);
    assert_eq!(
        s.step(SessionEvent::VerdictReceived(second), 7),
        SessionAction::Store(Artifact::Verdict(second))
    );
    assert_eq!(s.step(SessionEvent::Stored, 8), SessionAction::VerdictAppended);
    assert_eq!(s.verdicts(), &vec![first, second]);
    assert_eq!(s.status(), Status::AiEvaluated);
    assert_eq!(s.history().len(), 4);
    // A failing new submission leaves the evaluated session as it is.
    assert_eq!(
        s.step(SessionEvent::PipelineFailed, 9),
        SessionAction::Report(InspectionError::PipelineUnavailable)
    );
    assert_eq!(s.status(), Status::AiEvaluated);
    assert_eq!(s.verdicts().len(), 2);
}

#[test]
fn verdict_out_of_range_is_never_stored() {
    let mut s = at_image_captured();
    let bad = verdict(1_000_001);
    assert_eq!(s.step(SessionEvent::VerdictReceived(bad), 5), SessionAction::StatusChanged(Status::Failed));
    assert_eq!(s.failure(), Some(InspectionError::PipelineUnavailable));
    assert!(s.verdicts().is_empty());
    let edge = verdict(1_000_000);
    assert_eq!(
        s.step(SessionEvent::VerdictReceived(edge), 6),
        SessionAction::Store(Artifact::Verdict(edge))
    );
}

#[test]
fn store_failure_is_a_persistence_error() {
    let mut s = opened();
    s.step(SessionEvent::CodeAccepted, 1);
    assert_eq!(s.step(SessionEvent::StoreFailed, 2), SessionAction::StatusChanged(Status::Failed));
    assert_eq!(s.failure(), Some(InspectionError::PersistenceError));
    assert_eq!(s.stage(), Status::Created);
    assert_eq!(s.pending(), None);
    let mut t = at_image_captured();
    t.step(SessionEvent::VerdictReceived(verdict(3)), 5);
    t.step(SessionEvent::StoreFailed, 6);
    assert_eq!(t.failure(), Some(InspectionError::PersistenceError));
    assert_eq!(t.stage(), Status::ImageCaptured);
    assert!(t.verdicts().is_empty());
    // Only a pipeline failure can be retried.
    assert_eq!(
        t.step(SessionEvent::VerdictReceived(verdict(3)), 7),
        SessionAction::Refused(Refusal::Terminal(InspectionError::PersistenceError))
    );
}

#[test]
fn manual_path_keeps_the_session_waiting() {
    let mut s = opened();
    s.step(SessionEvent::CodeAccepted, 1);
    s.step(SessionEvent::Stored, 2);
    for path in [ManualPath::ExternalAppOpened, ManualPath::FileRequired] {
        assert_eq!(s.step(SessionEvent::ManualPathOffered(path), 3), SessionAction::AwaitOperator(path));
        assert_eq!(s.status(), Status::TargetBound);
        assert_eq!(s.failure(), None);
    }
    assert_eq!(s.step(SessionEvent::ImageProduced, 4), SessionAction::Store(Artifact::Image));
    assert_eq!(s.step(SessionEvent::Stored, 5), SessionAction::StatusChanged(Status::ImageCaptured));
}

#[test]
fn capture_failure_and_abandonment_fail_the_session() {
    let mut s = opened();
    s.step(SessionEvent::CodeAccepted, 1);
    s.step(SessionEvent::Stored, 2);
    assert_eq!(
        s.step(SessionEvent::CaptureFailed(InspectionError::DeviceBusy), 3),
        SessionAction::StatusChanged(Status::Failed)
    );
    assert_eq!(s.failure(), Some(InspectionError::DeviceBusy));
    assert_eq!(s.stage(), Status::TargetBound);
    let mut t = at_image_captured();
    assert_eq!(
        t.step(SessionEvent::Abandoned(InspectionError::AuthFailed), 9),
        SessionAction::StatusChanged(Status::Failed)
    );
    assert_eq!(t.failure(), Some(InspectionError::AuthFailed));
    assert_eq!(t.history().last(), Some(&Status::Failed));
}

#[test]
fn bind_target_keeps_the_reference() {
    let mut s = opened();
    assert_eq!(s.bind_target("target-9".to_string(), 1), SessionAction::Store(Artifact::Target));
    assert_eq!(s.target_id(), &Some("target-9".to_string()));
    s.step(SessionEvent::Stored, 2);
    assert_eq!(
        s.bind_target("other".to_string(), 3),
        SessionAction::Refused(Refusal::AlreadyComplete)
    );
    assert_eq!(s.target_id(), &Some("target-9".to_string()));
    assert_eq!(s.id(), "session-1");
    assert_eq!(s.operator(), Some(7));
}

#[test]
fn status_labels_and_terminal_states() {
    assert_eq!(Status::Created.label(), "CREATED");
    assert_eq!(Status::TargetBound.label(), "TARGET_BOUND");
    assert_eq!(Status::ImageCaptured.label(), "IMAGE_CAPTURED");
    assert_eq!(Status::AiEvaluated.label(), "AI_EVALUATED");
    assert_eq!(Status::HumanVerified.label(), "HUMAN_VERIFIED");
    assert_eq!(Status::Failed.label(), "FAILED");
    assert!(Status::HumanVerified.is_terminal());
    assert!(Status::Failed.is_terminal());
    assert!(!Status::AiEvaluated.is_terminal());
    assert!(!Status::Created.is_terminal());
}

#[test]
fn every_event_sequence_keeps_the_history_in_order() {
    let events = [
        SessionEvent::CodeAccepted,
        SessionEvent::CodeRejected,
        SessionEvent::ImageProduced,
        SessionEvent::ManualPathOffered(ManualPath::FileRequired),
        SessionEvent::CaptureFailed(InspectionError::AllDevicesFailed),
        SessionEvent::VerdictReceived(verdict(10)),
        SessionEvent::VerdictReceived(verdict(2_000_000)),
        SessionEvent::PipelineFailed,
        SessionEvent::VerificationSupplied,
        SessionEvent::Stored,
        SessionEvent::StoreFailed,
        SessionEvent::Abandoned(InspectionError::DeviceBusy),
    ];
    // Walks chosen by a fixed linear congruential sequence, each forty events long.
    let mut seed: u64 = 0x2545_f491_4f6c_dd1d;
    let mut verified = 0;
    for _ in 0..4000 {
        let mut s = opened();
        for now in 0..40 {
            seed = seed.wrapping_mul(6364136223846793005).wrapping_add(1442695040888963407);
            // The store mostly confirms, so that long workflows occur.
            let pick = ((seed >> 33) % 24) as usize;
            let event = if pick < events.len() { events[pick] } else { SessionEvent::Stored };
            let before_stage = s.stage();
            let before_history = s.history().clone();
            let before_verdicts = s.verdicts().clone();
            s.step(event, now);
            assert!(ranks_are_in_order(s.history()), "{:?}", s.history());
            assert!(s.history().starts_with(&before_history));
            assert!(s.verdicts().starts_with(&before_verdicts));
            assert!(s.verdicts().iter().all(|v| v.confidence_ppm <= 1_000_000));
            if s.stage() != before_stage {
                assert_eq!(event, SessionEvent::Stored);
            }
            assert_eq!(*s.history().last().unwrap(), s.status());
            assert_eq!(s.verdicts().is_empty(), !matches!(s.stage(), Status::AiEvaluated | Status::HumanVerified));
        }
        if s.status() == Status::HumanVerified {
            verified += 1;
        }
    }
    assert!(verified > 0);
}
