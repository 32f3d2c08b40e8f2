//! Where the parts meet: what the camera's outcome means for the session
//! and for the caller, and the state of the live preview.

use vstd::prelude::*;
use crate::camera::CaptureOutcome;
use crate::codes::{decoded, parse_qr_code, QRCodeData};
use crate::devices::{apps_of, fallback_apps, Platform};
use crate::error::InspectionError;
use crate::session::{
    Artifact, ManualPath, Session, SessionAction, SessionEvent, SessionState, Status,
};

verus! {

/// The event that a scanned code is for the orchestrator: accepted where
/// it decodes, rejected where it is malformed.
pub open spec fn event_of_code(code: Seq<char>) -> SessionEvent {
    if decoded(code) is Some {
        SessionEvent::CodeAccepted
    } else {
        SessionEvent::CodeRejected
    }
}

/// Decodes a scanned code for a session. A code that decodes is handed to
/// the session as accepted, together with the reference of the target it
/// names; a malformed one fails a session that is still `Created`. The
/// decoded code is returned where there is one.
pub fn bind_scanned_code(session: &mut Session, qr_data: &str, target_id: String, now: i64) -> (r:
    (SessionAction, Option<QRCodeData>))
    requires
        old(session)@.wf(),
    ensures
        (final(session)@, r.0) == old(session)@.next(event_of_code(qr_data@), now),
        final(session)@.wf(),
        match r.1 {
            Some(data) => decoded(qr_data@) == Some(data@),
            None => decoded(qr_data@) is None,
        },
        final(session).id_text() == old(session).id_text(),
        final(session).operator_ref() == old(session).operator_ref(),
        final(session).opened_at() == old(session).opened_at(),
        final(session).target_text() == if r.0 == SessionAction::Store(Artifact::Target) {
            Some(target_id@)
        } else {
            old(session).target_text()
        },
{
    match parse_qr_code(qr_data) {
        Ok(data) => {
            let action = session.bind_target(target_id, now);
            (action, Some(data))
        },
        Err(_) => {
            let action = session.step(SessionEvent::CodeRejected, now);
            (action, None)
        },
    }
}

/// A session that is `Created` and idle becomes bound exactly through a
/// code that decodes: such a code hands the target to the store, and any
/// other code fails the session as `MalformedCode`.
pub proof fn lemma_binding_needs_a_decoded_code(s: SessionState, code: Seq<char>, now: i64)
    requires
        s.wf(),
        s.stage is Created,
        s.failure is None,
        s.pending is None,
    ensures
        decoded(code) is Some ==> s.next(event_of_code(code), now).1 == SessionAction::Store(
            Artifact::Target,
        ) && s.next(event_of_code(code), now).0.failure is None,
        decoded(code) is None ==> s.next(event_of_code(code), now).0.failure == Some(
            InspectionError::MalformedCode,
        ) && s.next(event_of_code(code), now).0.stage is Created,
{
}

/// The event that an outcome of the camera is for the orchestrator. None
/// of the three is a failure.
pub open spec fn event_of_outcome(outcome: CaptureOutcome) -> SessionEvent {
    match outcome {
        CaptureOutcome::Image => SessionEvent::ImageProduced,
        CaptureOutcome::ExternalAppOpened(_) => SessionEvent::ManualPathOffered(
            ManualPath::ExternalAppOpened,
        ),
        CaptureOutcome::ManualCaptureRequired => SessionEvent::ManualPathOffered(
            ManualPath::FileRequired,
        ),
    }
}

/// The event that an outcome of the camera is for the orchestrator.
pub fn session_event_for(outcome: CaptureOutcome) -> (event: SessionEvent)
    ensures
        event == event_of_outcome(outcome),
{
    match outcome {
        CaptureOutcome::Image => SessionEvent::ImageProduced,
        CaptureOutcome::ExternalAppOpened(_) => SessionEvent::ManualPathOffered(
            ManualPath::ExternalAppOpened,
        ),
        CaptureOutcome::ManualCaptureRequired => SessionEvent::ManualPathOffered(
            ManualPath::FileRequired,
        ),
    }
}

/// No outcome of the camera fails a session: a session that waits for its
/// image either hands the image to the store or goes on waiting for the
/// operator, and a later image from the operator is taken like one from a
/// device.
pub proof fn lemma_manual_path_is_no_failure(s: SessionState, outcome: CaptureOutcome, now: i64)
    requires
        s.wf(),
        s.stage is TargetBound,
        s.failure is None,
        s.pending is None,
    ensures
        s.next(event_of_outcome(outcome), now).0.failure is None,
        s.next(event_of_outcome(outcome), now).0.status() == Status::TargetBound,
        outcome is Image ==> s.next(event_of_outcome(outcome), now).1 is Store,
        !(outcome is Image) ==> s.next(event_of_outcome(outcome), now).0 == s && s.next(
            event_of_outcome(outcome),
            now,
        ).1 is AwaitOperator && s.next(SessionEvent::ImageProduced, now).1 is Store,
{
}

/// What the caller of a capture is answered: the image as data URL, the
/// word for the application that was opened, or `ManualCaptureRequired`.
/// An image that could not be given as URL is `EncodeFailed`.
pub open spec fn reply_of(
    outcome: CaptureOutcome,
    platform: Platform,
    image_url: Option<Seq<char>>,
) -> Result<Seq<char>, InspectionError> {
    match outcome {
        CaptureOutcome::Image => match image_url {
            Some(url) => Ok(url),
            None => Err(InspectionError::EncodeFailed),
        },
        CaptureOutcome::ExternalAppOpened(i) => if i < apps_of(platform).len() {
            Ok(apps_of(platform)[i as int].opened_word())
        } else {
            Err(InspectionError::ManualCaptureRequired)
        },
        CaptureOutcome::ManualCaptureRequired => Err(InspectionError::ManualCaptureRequired),
    }
}

/// What the caller of a capture is answered.
pub fn capture_reply(outcome: CaptureOutcome, platform: Platform, image_url: Option<String>) -> (r:
    Result<String, InspectionError>)
    ensures
        match r {
            Ok(text) => reply_of(outcome, platform, crate::text::opt_text(image_url)) == Ok::<
                Seq<char>,
                InspectionError,
            >(text@),
            Err(e) => reply_of(outcome, platform, crate::text::opt_text(image_url)) == Err::<
                Seq<char>,
                InspectionError,
            >(e),
        },
{
    match outcome {
        CaptureOutcome::Image => match image_url {
            Some(url) => Ok(url),
            None => Err(InspectionError::EncodeFailed),
        },
        CaptureOutcome::ExternalAppOpened(i) => {
            let apps = fallback_apps(platform);
            if (i as usize) < apps.len() {
                Ok(apps[i as usize].opened_marker())
            } else {
                Err(InspectionError::ManualCaptureRequired)
            }
        },
        CaptureOutcome::ManualCaptureRequired => Err(InspectionError::ManualCaptureRequired),
    }
}

/// The view of the error that a capture ended on.
pub open spec fn error_texts(error: Option<(InspectionError, Option<String>)>) -> Option<
    (InspectionError, Option<Seq<char>>),
> {
    match error {
        Some((category, detail)) => Some((category, crate::text::opt_text(detail))),
        None => None,
    }
}

/// What is shown where a capture gave no image: the message of the reply,
/// then, after an empty line, the message of the category that ended the
/// device path and, on a line of its own in brackets, what the device said.
pub open spec fn failure_text_of(
    reply: InspectionError,
    error: Option<(InspectionError, Option<Seq<char>>)>,
) -> Seq<char> {
    match error {
        Some((category, Some(detail))) => reply.message_text() + "\n\n"@ + category.message_text()
            + "\n("@ + detail + ")"@,
        Some((category, None)) => reply.message_text() + "\n\n"@ + category.message_text(),
        None => reply.message_text(),
    }
}

/// What is shown where a capture gave no image.
pub fn failure_text(reply: InspectionError, error: &Option<(InspectionError, Option<String>)>) -> (text:
    String)
    ensures
        text@ == failure_text_of(reply, error_texts(*error)),
{
    let mut text = reply.message();
    match error {
        Some((category, detail)) => {
            crate::text::push_text(&mut text, "\n\n");
            let about = category.message();
            crate::text::push_text(&mut text, about.as_str());
            match detail {
                Some(said) => {
                    crate::text::push_text(&mut text, "\n(");
                    crate::text::push_text(&mut text, said.as_str());
                    crate::text::push_text(&mut text, ")");
                },
                None => {},
            }
        },
        None => {},
    }
    text
}

/// What the front end is answered for a capture: what [`capture_reply`]
/// gives where that is an answer, else the text of the failure with the
/// error that ended the device path.
pub fn capture_answer(
    outcome: CaptureOutcome,
    platform: Platform,
    image_url: Option<String>,
    error: &Option<(InspectionError, Option<String>)>,
) -> (r: Result<String, String>)
    ensures
        match reply_of(outcome, platform, crate::text::opt_text(image_url)) {
            Ok(answer) => r matches Ok(text) && text@ == answer,
            Err(reply) => r matches Err(text) && text@ == failure_text_of(
                reply,
                error_texts(*error),
            ),
        },
{
    match capture_reply(outcome, platform, image_url) {
        Ok(answer) => Ok(answer),
        Err(reply) => Err(failure_text(reply, error)),
    }
}

/// What the caller of a step is answered: the action where the session
/// went on, else the text to show. A refusal shows its explanation, a failure
/// the message of the reason the session failed for.
pub open spec fn outcome_of_action(action: SessionAction, failure: Option<InspectionError>) -> Result<
    SessionAction,
    Seq<char>,
> {
    match action {
        SessionAction::Refused(refusal) => Err(refusal.explanation()),
        SessionAction::Report(reason) => Err(reason.message_text()),
        SessionAction::StatusChanged(Status::Failed) => Err(
            match failure {
                Some(reason) => reason.message_text(),
                None => "The session has failed."@,
            },
        ),
        _ => Ok(action),
    }
}

/// What the caller of a step is answered; `failure` is the reason the
/// session has failed for, if it has.
pub fn step_outcome(action: SessionAction, failure: Option<InspectionError>) -> (r: Result<
    SessionAction,
    String,
>)
    ensures
        match r {
            Ok(a) => outcome_of_action(action, failure) == Ok::<SessionAction, Seq<char>>(a),
            Err(text) => outcome_of_action(action, failure) == Err::<SessionAction, Seq<char>>(
                text@,
            ),
        },
        r is Ok <==> !(action is Refused || action is Report || action
            == SessionAction::StatusChanged(Status::Failed)),
{
    match action {
        SessionAction::Refused(refusal) => Err(refusal.message()),
        SessionAction::Report(reason) => Err(reason.message()),
        SessionAction::StatusChanged(Status::Failed) => Err(
            match failure {
                Some(reason) => reason.message(),
                None => crate::text::owned("The session has failed."),
            },
        ),
        _ => Ok(action),
    }
}

/// Whether an action of the orchestrator is an answer to show as success.
pub fn is_progress(action: SessionAction) -> (b: bool)
    ensures
        b == !(action is Refused || action is Report || action == SessionAction::StatusChanged(
            Status::Failed,
        )),
{
    match action {
        SessionAction::Refused(_) | SessionAction::Report(_) => false,
        SessionAction::StatusChanged(status) => status != Status::Failed,
        _ => true,
    }
}

/// The live preview of a camera: at most one is active, and it holds the
/// camera from its start to its stop.
#[derive(Debug, Clone, Copy, PartialEq, Eq, Structural)]
pub struct PreviewState {
    pub active: bool,
    pub camera_held: bool,
}

impl PreviewState {
    /// An active preview holds the camera.
    pub open spec fn wf(self) -> bool {
        self.active ==> self.camera_held
    }

    /// No preview, no camera.
    pub fn new() -> (p: PreviewState)
        ensures
            p == (PreviewState { active: false, camera_held: false }),
            p.wf(),
    {
        PreviewState { active: false, camera_held: false }
    }

    /// Whether a preview may be started: not while one is active.
    pub fn may_start(&self) -> (r: Result<(), InspectionError>)
        ensures
            r is Ok <==> !self.active,
            r is Err ==> r == Err::<(), InspectionError>(InspectionError::DeviceBusy),
    {
        if self.active {
            Err(InspectionError::DeviceBusy)
        } else {
            Ok(())
        }
    }

    /// Takes in how opening the device and starting its stream went. The
    /// preview becomes active only where both succeeded and none was active;
    /// a device that did not open is `AllDevicesFailed`, a stream that did
    /// not start `FrameCaptureFailed`.
    pub fn started(&mut self, device_opened: bool, stream_started: bool) -> (r: Result<
        (),
        InspectionError,
    >)
        requires
            old(self).wf(),
        ensures
            final(self).wf(),
            r == if old(self).active {
                Err::<(), InspectionError>(InspectionError::DeviceBusy)
            } else if !device_opened {
                Err(InspectionError::AllDevicesFailed)
            } else if !stream_started {
                Err(InspectionError::FrameCaptureFailed)
            } else {
                Ok(())
            },
            *final(self) == if r is Ok {
                PreviewState { active: true, camera_held: true }
            } else {
                *old(self)
            },
    {
        if self.active {
            Err(InspectionError::DeviceBusy)
        } else if !device_opened {
            Err(InspectionError::AllDevicesFailed)
        } else if !stream_started {
            Err(InspectionError::FrameCaptureFailed)
        } else {
            self.active = true;
            self.camera_held = true;
            Ok(())
        }
    }

    /// Ends the preview. Answers whether a stream has to be stopped and the
    /// camera released.
    pub fn stop(&mut self) -> (must_release: bool)
        ensures
            must_release == old(self).camera_held,
            *final(self) == (PreviewState { active: false, camera_held: false }),
    {
        let held = self.camera_held;
        self.active = false;
        self.camera_held = false;
        held
    }

    /// Whether a frame can be asked for: only while the camera is held.
    pub fn frame_ready(&self) -> (r: Result<(), InspectionError>)
        ensures
            r is Ok <==> self.camera_held,
            r is Err ==> r == Err::<(), InspectionError>(InspectionError::NoDeviceFound),
    {
        if self.camera_held {
            Ok(())
        } else {
            Err(InspectionError::NoDeviceFound)
        }
    }
}

} // verus!
