//! Obtaining one still image from a camera, or handing over to the operator.
//!
//! The acquisition is a state machine. It touches no device itself:
//! [`Acquisition::step`] takes what the device layer reports and answers
//! with the next thing to do. Devices are opened by ascending index, at
//! most three of them; a frame is asked for at most three times; a stream
//! that was started is stopped before the acquisition finishes, whatever
//! happened in between; and where the devices give no image, the camera
//! applications of the system are tried in order before the operator is
//! asked for a file.

use vstd::prelude::*;
use crate::text::opt_text;
use crate::error::InspectionError;
use crate::retry::Attempts;

verus! {

/// The most devices that are tried.
pub const MAX_OPEN_ATTEMPTS: u8 = 3;

/// The most times a frame is asked for.
pub const MAX_FRAME_ATTEMPTS: u8 = 3;

/// How long a started stream is left to settle, in milliseconds.
pub const STABILIZE_MS: u64 = 2000;

/// The pause between two frame attempts, in milliseconds.
pub const FRAME_RETRY_MS: u64 = 500;

/// Where an acquisition stands.
#[derive(Debug, Clone, Copy, PartialEq, Eq, Structural)]
pub enum Phase {
    Idle,
    Enumerating,
    Opening,
    Streaming,
    Stabilizing,
    Capturing,
    Pausing,
    Decoding,
    Encoding,
    Stopping,
    Fallback,
    Done,
}

/// How an acquisition ended. All three are results the caller goes on with.
#[derive(Debug, Clone, Copy, PartialEq, Eq, Structural)]
pub enum CaptureOutcome {
    /// A device delivered a frame and it was encoded.
    Image,
    /// The camera application with the given position was launched.
    ExternalAppOpened(u8),
    /// Nothing could be launched; the operator must choose an image file.
    ManualCaptureRequired,
}

/// What the device layer reports.
#[derive(Debug, Clone, Copy, PartialEq, Eq, Structural)]
pub enum CameraEvent {
    /// A capture was asked for.
    Start,
    /// The backend asked last reported this many devices.
    BackendAnswered(u32),
    /// The backend asked last could not be queried.
    BackendFailed,
    Opened,
    OpenFailed,
    StreamStarted,
    StreamFailed,
    /// The pause asked for is over.
    Waited,
    FrameCaptured,
    FrameFailed,
    Decoded,
    DecodeFailed,
    Encoded,
    EncodeFailed,
    /// The stream was stopped.
    StreamStopped,
    /// Stopping reported an error; the device handle was released.
    StopFailed,
    AppLaunched,
    AppLaunchFailed,
}

/// What the device layer has to do next.
#[derive(Debug, Clone, Copy, PartialEq, Eq, Structural)]
pub enum CameraAction {
    /// Ask the backend at this position of the priority order for its devices.
    QueryBackend(u8),
    /// Open the device with this index in its best format.
    OpenDevice(u32),
    StartStream,
    /// Pause for this many milliseconds, then report `Waited`.
    Wait(u64),
    CaptureFrame,
    DecodeFrame,
    EncodeJpeg,
    StopStream,
    /// Launch the camera application at this position of the platform's list.
    LaunchApp(u8),
    /// The acquisition is over.
    Finish(CaptureOutcome),
    /// The event does not belong to the current phase; nothing changed.
    Unexpected,
}

/// One capture request.
#[derive(Debug, Clone, Copy, PartialEq, Eq, Structural)]
pub struct Acquisition {
    pub phase: Phase,
    /// How many backends there are to query.
    pub backends: u8,
    /// The position of the backend that is asked next.
    pub next_backend: u8,
    /// The number of device indices found so far, over all backends.
    pub devices: u32,
    /// The budget of device openings.
    pub opens: Attempts,
    /// The budget of frame requests.
    pub frames: Attempts,
    /// Whether a stream was started and not yet stopped.
    pub stream_open: bool,
    /// Whether an encoded image is at hand.
    pub have_image: bool,
    /// Why the devices gave no image.
    pub cause: Option<InspectionError>,
    /// How many camera applications the platform offers.
    pub apps: u8,
    /// The position of the application that is launched next.
    pub next_app: u8,
    /// How the acquisition ended.
    pub outcome: Option<CaptureOutcome>,
}

impl Acquisition {
    /// A request on which nothing has happened yet.
    pub open spec fn idle(backends: u8, apps: u8) -> Acquisition {
        Acquisition {
            phase: Phase::Idle,
            backends,
            next_backend: 0,
            devices: 0,
            opens: Attempts { limit: MAX_OPEN_ATTEMPTS, made: 0, pause_ms: 0 },
            frames: Attempts { limit: MAX_FRAME_ATTEMPTS, made: 0, pause_ms: FRAME_RETRY_MS },
            stream_open: false,
            have_image: false,
            cause: None,
            apps,
            next_app: 0,
            outcome: None,
        }
    }

    /// Whether a stream is held in this phase.
    pub open spec fn holds_stream(phase: Phase) -> bool {
        phase is Stabilizing || phase is Capturing || phase is Pausing || phase is Decoding
            || phase is Encoding || phase is Stopping
    }

    /// What holds of every request that was made idle and then only stepped.
    pub open spec fn wf(self) -> bool {
        &&& self.opens.limit == MAX_OPEN_ATTEMPTS
        &&& self.frames.limit == MAX_FRAME_ATTEMPTS
        &&& self.opens.pause_ms == 0
        &&& self.frames.pause_ms == FRAME_RETRY_MS
        &&& self.opens.wf()
        &&& self.frames.wf()
        &&& self.opens.made <= self.devices
        &&& self.next_backend <= self.backends
        &&& (self.stream_open <==> Self::holds_stream(self.phase))
        &&& (self.outcome is Some <==> self.phase is Done)
        &&& (self.have_image <==> (self.phase is Stopping && self.cause is None) || self.outcome
            == Some(CaptureOutcome::Image))
        &&& (self.phase is Stopping && !self.have_image ==> self.cause is Some)
        &&& (self.cause is Some ==> self.phase is Stopping || self.phase is Fallback
            || self.phase is Done)
        &&& (self.phase is Enumerating ==> self.next_backend < self.backends && self.opens.made
            == 0 && self.frames.made == 0)
        &&& (self.phase is Idle ==> self.opens.made == 0 && self.frames.made == 0)
        &&& (self.phase is Opening || self.phase is Streaming ==> self.opens.made >= 1
            && self.frames.made == 0)
        &&& (self.phase is Stabilizing ==> self.frames.made == 0)
        &&& (self.phase is Capturing ==> self.frames.made >= 1)
        &&& (self.phase is Pausing ==> 1 <= self.frames.made < MAX_FRAME_ATTEMPTS)
        &&& (self.phase is Fallback ==> self.next_app < self.apps && self.cause is Some)
        &&& (self.outcome matches Some(CaptureOutcome::ExternalAppOpened(i)) ==> i < self.apps
            && i == self.next_app)
        &&& (self.outcome == Some(CaptureOutcome::ManualCaptureRequired) ==> self.apps == 0
            || self.next_app + 1 == self.apps)
        &&& (self.phase is Done && self.apps > 0 ==> self.next_app < self.apps)
        &&& (!(self.phase is Fallback || self.phase is Done) ==> self.next_app == 0)
        &&& (self.outcome == Some(CaptureOutcome::Image) ==> self.cause is None)
        &&& (self.outcome is Some && self.outcome != Some(CaptureOutcome::Image)
            ==> self.cause is Some)
    }

    /// The request after the devices gave no image, for `cause`: the first
    /// camera application is launched, or the operator is asked at once.
    pub open spec fn to_fallback(self, cause: InspectionError) -> (Acquisition, CameraAction) {
        if self.apps == 0 {
            (
                Acquisition {
                    phase: Phase::Done,
                    cause: Some(cause),
                    outcome: Some(CaptureOutcome::ManualCaptureRequired),
                    ..self
                },
                CameraAction::Finish(CaptureOutcome::ManualCaptureRequired),
            )
        } else {
            (
                Acquisition { phase: Phase::Fallback, cause: Some(cause), next_app: 0, ..self },
                CameraAction::LaunchApp(0),
            )
        }
    }

    /// The request after a failure while the stream is held: the stream is
    /// stopped first.
    pub open spec fn to_teardown(self, cause: InspectionError) -> (Acquisition, CameraAction) {
        (Acquisition { phase: Phase::Stopping, cause: Some(cause), ..self }, CameraAction::StopStream)
    }

    /// The request after a backend reported `found` devices.
    pub open spec fn enumerated(self, found: u32) -> (Acquisition, CameraAction) {
        let devices = if found > self.devices {
            found
        } else {
            self.devices
        };
        let s = Acquisition { devices, next_backend: (self.next_backend + 1) as u8, ..self };
        if s.next_backend < s.backends {
            (s, CameraAction::QueryBackend(s.next_backend))
        } else if devices == 0 {
            s.to_fallback(InspectionError::NoDeviceFound)
        } else {
            (
                Acquisition { phase: Phase::Opening, opens: s.opens.after_attempt(), ..s },
                CameraAction::OpenDevice(0),
            )
        }
    }

    /// The request and the action that follow `event`.
    pub open spec fn next(self, event: CameraEvent) -> (Acquisition, CameraAction) {
        match (self.phase, event) {
            (Phase::Idle, CameraEvent::Start) => if self.backends == 0 {
                self.to_fallback(InspectionError::NoDeviceFound)
            } else {
                (
                    Acquisition { phase: Phase::Enumerating, next_backend: 0, ..self },
                    CameraAction::QueryBackend(0),
                )
            },
            (Phase::Enumerating, CameraEvent::BackendAnswered(found)) => self.enumerated(found),
            (Phase::Enumerating, CameraEvent::BackendFailed) => self.enumerated(0),
            (Phase::Opening, CameraEvent::Opened) => (
                Acquisition { phase: Phase::Streaming, ..self },
                CameraAction::StartStream,
            ),
            (Phase::Opening, CameraEvent::OpenFailed) => if self.opens.has_left()
                && self.opens.made < self.devices {
                (
                    Acquisition { opens: self.opens.after_attempt(), ..self },
                    CameraAction::OpenDevice(self.opens.made as u32),
                )
            } else {
                self.to_fallback(InspectionError::AllDevicesFailed)
            },
            (Phase::Streaming, CameraEvent::StreamStarted) => (
                Acquisition { phase: Phase::Stabilizing, stream_open: true, ..self },
                CameraAction::Wait(STABILIZE_MS),
            ),
            (Phase::Streaming, CameraEvent::StreamFailed) => self.to_fallback(
                InspectionError::FrameCaptureFailed,
            ),
            (Phase::Stabilizing, CameraEvent::Waited) | (Phase::Pausing, CameraEvent::Waited) => (
                Acquisition { phase: Phase::Capturing, frames: self.frames.after_attempt(), ..self },
                CameraAction::CaptureFrame,
            ),
            (Phase::Capturing, CameraEvent::FrameCaptured) => (
                Acquisition { phase: Phase::Decoding, ..self },
                CameraAction::DecodeFrame,
            ),
            (Phase::Capturing, CameraEvent::FrameFailed) => if self.frames.has_left() {
                (
                    Acquisition { phase: Phase::Pausing, ..self },
                    CameraAction::Wait(self.frames.pause_ms),
                )
            } else {
                self.to_teardown(InspectionError::FrameCaptureFailed)
            },
            (Phase::Decoding, CameraEvent::Decoded) => (
                Acquisition { phase: Phase::Encoding, ..self },
                CameraAction::EncodeJpeg,
            ),
            (Phase::Decoding, CameraEvent::DecodeFailed) => self.to_teardown(
                InspectionError::DecodeFailed,
            ),
            (Phase::Encoding, CameraEvent::Encoded) => (
                Acquisition { phase: Phase::Stopping, have_image: true, ..self },
                CameraAction::StopStream,
            ),
            (Phase::Encoding, CameraEvent::EncodeFailed) => self.to_teardown(
                InspectionError::EncodeFailed,
            ),
            (Phase::Stopping, CameraEvent::StreamStopped) | (
                Phase::Stopping,
                CameraEvent::StopFailed,
            ) => {
                let s = Acquisition { stream_open: false, ..self };
                if s.have_image {
                    (
                        Acquisition {
                            phase: Phase::Done,
                            outcome: Some(CaptureOutcome::Image),
                            ..s
                        },
                        CameraAction::Finish(CaptureOutcome::Image),
                    )
                } else {
                    s.to_fallback(
                        match s.cause {
                            Some(c) => c,
                            None => InspectionError::FrameCaptureFailed,
                        },
                    )
                }
            },
            (Phase::Fallback, CameraEvent::AppLaunched) => (
                Acquisition {
                    phase: Phase::Done,
                    outcome: Some(CaptureOutcome::ExternalAppOpened(self.next_app)),
                    ..self
                },
                CameraAction::Finish(CaptureOutcome::ExternalAppOpened(self.next_app)),
            ),
            (Phase::Fallback, CameraEvent::AppLaunchFailed) => if self.next_app + 1 < self.apps {
                (
                    Acquisition { next_app: (self.next_app + 1) as u8, ..self },
                    CameraAction::LaunchApp((self.next_app + 1) as u8),
                )
            } else {
                (
                    Acquisition {
                        phase: Phase::Done,
                        outcome: Some(CaptureOutcome::ManualCaptureRequired),
                        ..self
                    },
                    CameraAction::Finish(CaptureOutcome::ManualCaptureRequired),
                )
            },
            _ => (self, CameraAction::Unexpected),
        }
    }
}

/// An idle request is well formed.
pub proof fn lemma_idle_wf(backends: u8, apps: u8)
    ensures
        Acquisition::idle(backends, apps).wf(),
{
}

/// A step keeps a request well formed.
pub proof fn lemma_camera_next_preserves_wf(s: Acquisition, event: CameraEvent)
    requires
        s.wf(),
    ensures
        s.next(event).0.wf(),
{
}


/// The request after the events of `events` have arrived in order.
pub open spec fn run(s: Acquisition, events: Seq<CameraEvent>) -> Acquisition
    decreases events.len(),
{
    if events.len() == 0 {
        s
    } else {
        run(s, events.drop_last()).next(events.last()).0
    }
}

/// The actions answered to the events of `events`, in order.
pub open spec fn issued(s: Acquisition, events: Seq<CameraEvent>) -> Seq<CameraAction>
    decreases events.len(),
{
    if events.len() == 0 {
        Seq::empty()
    } else {
        issued(s, events.drop_last()).push(run(s, events.drop_last()).next(events.last()).1)
    }
}

/// How many of the actions ask for a device to be opened.
pub open spec fn count_opens(actions: Seq<CameraAction>) -> nat
    decreases actions.len(),
{
    if actions.len() == 0 {
        0
    } else {
        count_opens(actions.drop_last()) + if actions.last() is OpenDevice {
            1nat
        } else {
            0nat
        }
    }
}

/// How many of the actions ask for a frame.
pub open spec fn count_frames(actions: Seq<CameraAction>) -> nat
    decreases actions.len(),
{
    if actions.len() == 0 {
        0
    } else {
        count_frames(actions.drop_last()) + if actions.last() is CaptureFrame {
            1nat
        } else {
            0nat
        }
    }
}

/// How many of the actions ask for a camera application to be launched.
pub open spec fn count_launches(actions: Seq<CameraAction>) -> nat
    decreases actions.len(),
{
    if actions.len() == 0 {
        0
    } else {
        count_launches(actions.drop_last()) + if actions.last() is LaunchApp {
            1nat
        } else {
            0nat
        }
    }
}

/// How many camera applications a request has tried so far.
pub open spec fn launched(s: Acquisition) -> int {
    if s.phase is Fallback || (s.phase is Done && s.cause is Some && s.apps > 0) {
        s.next_app + 1
    } else {
        0
    }
}

/// Every attempt is counted: a step that asks for a device to be opened, or
/// for a frame, uses up one attempt of the budget, and no other step does.
pub proof fn lemma_step_counts_attempts(s: Acquisition, event: CameraEvent)
    requires
        s.wf(),
    ensures
        s.next(event).0.opens.made == s.opens.made + if s.next(event).1 is OpenDevice {
            1int
        } else {
            0int
        },
        s.next(event).0.frames.made == s.frames.made + if s.next(event).1 is CaptureFrame {
            1int
        } else {
            0int
        },
        s.next(event).1 matches CameraAction::OpenDevice(index) ==> index == s.opens.made && index
            < s.next(event).0.devices && index < MAX_OPEN_ATTEMPTS,
        launched(s.next(event).0) == launched(s) + if s.next(event).1 is LaunchApp {
            1int
        } else {
            0int
        },
        s.next(event).1 matches CameraAction::LaunchApp(app) ==> app == launched(s) && app
            < s.apps,
        s.next(event).0.apps == s.apps,
        s.next(event).0.backends == s.backends,
{
}

/// Whatever is reported and in whatever order, a request stays well formed
/// and the attempts it has used are exactly the openings and the frames it
/// has asked for.
pub proof fn lemma_run_counts_attempts(s: Acquisition, events: Seq<CameraEvent>)
    requires
        s.wf(),
    ensures
        run(s, events).wf(),
        run(s, events).opens.made == s.opens.made + count_opens(issued(s, events)),
        run(s, events).frames.made == s.frames.made + count_frames(issued(s, events)),
        launched(run(s, events)) == launched(s) + count_launches(issued(s, events)),
        run(s, events).apps == s.apps,
        run(s, events).backends == s.backends,
    decreases events.len(),
{
    if events.len() > 0 {
        let before = run(s, events.drop_last());
        lemma_run_counts_attempts(s, events.drop_last());
        lemma_camera_next_preserves_wf(before, events.last());
        lemma_step_counts_attempts(before, events.last());
        assert(issued(s, events).drop_last() =~= issued(s, events.drop_last()));
    }
}

/// One request opens a device at most three times and asks for a frame at
/// most three times, whatever the devices report.
pub proof fn lemma_attempts_at_most_three(backends: u8, apps: u8, events: Seq<CameraEvent>)
    ensures
        count_opens(issued(Acquisition::idle(backends, apps), events)) <= 3,
        count_frames(issued(Acquisition::idle(backends, apps), events)) <= 3,
{
    lemma_idle_wf(backends, apps);
    lemma_run_counts_attempts(Acquisition::idle(backends, apps), events);
}

/// The operator is asked for a file only after every camera application of
/// the platform was tried: a request that ends with `ManualCaptureRequired`
/// has asked for exactly as many launches as the platform has applications,
/// and one that ends with an application opened has asked for that one last.
pub proof fn lemma_manual_only_after_every_app(backends: u8, apps: u8, events: Seq<CameraEvent>)
    ensures
        ({
            let end = run(Acquisition::idle(backends, apps), events);
            let asked = count_launches(issued(Acquisition::idle(backends, apps), events));
            &&& asked <= apps
            &&& (end.outcome == Some(CaptureOutcome::ManualCaptureRequired) ==> asked == apps)
            &&& (end.outcome matches Some(CaptureOutcome::ExternalAppOpened(i)) ==> asked == i + 1)
            &&& (end.outcome == Some(CaptureOutcome::Image) ==> asked == 0)
        }),
{
    lemma_idle_wf(backends, apps);
    lemma_run_counts_attempts(Acquisition::idle(backends, apps), events);
}

/// The stream is never left open. A request that holds the stream cannot
/// finish or fall back: the only way on is to stop the stream. A request
/// that has finished holds no stream, and the stream closes only on the
/// report that it was stopped or released.
pub proof fn lemma_stream_is_closed_on_return(s: Acquisition, event: CameraEvent)
    requires
        s.wf(),
    ensures
        s.phase is Done ==> !s.stream_open,
        s.next(event).1 is Finish ==> !s.next(event).0.stream_open && s.next(event).0.phase is Done,
        s.stream_open && !(s.phase is Stopping) ==> s.next(event).0.stream_open && !(s.next(
            event,
        ).1 is Finish) && !(s.next(event).1 is LaunchApp),
        s.stream_open && !s.next(event).0.stream_open ==> s.phase is Stopping && (event
            is StreamStopped || event is StopFailed),
        !s.stream_open && s.next(event).0.stream_open ==> s.phase is Streaming && event
            is StreamStarted,
{
}

/// Over a whole run that starts idle and ends finished, the stream is closed
/// at the end.
pub proof fn lemma_finished_run_holds_no_stream(backends: u8, apps: u8, events: Seq<CameraEvent>)
    ensures
        run(Acquisition::idle(backends, apps), events).phase is Done ==> !run(
            Acquisition::idle(backends, apps),
            events,
        ).stream_open,
{
    lemma_idle_wf(backends, apps);
    lemma_run_counts_attempts(Acquisition::idle(backends, apps), events);
}

/// Where the last backend answers and no backend has found a device, the
/// request goes on the manual path for the reason `NoDeviceFound`: it asks
/// for the first camera application or, where the platform has none, ends
/// by asking the operator for a file.
pub proof fn lemma_no_device_falls_back(s: Acquisition, found: u32)
    requires
        s.wf(),
        s.phase is Enumerating,
        s.next_backend + 1 == s.backends,
        s.devices == 0,
        found == 0,
    ensures
        s.next(CameraEvent::BackendAnswered(found)).0.cause == Some(
            InspectionError::NoDeviceFound,
        ),
        s.next(CameraEvent::BackendAnswered(found)).1 == if s.apps == 0 {
            CameraAction::Finish(CaptureOutcome::ManualCaptureRequired)
        } else {
            CameraAction::LaunchApp(0)
        },
        s.next(CameraEvent::BackendAnswered(found)).0.opens.made == 0,
{
}

impl Acquisition {
    /// A request on which nothing has happened yet, for a platform with
    /// `backends` backends to query and `apps` camera applications.
    pub fn new(backends: u8, apps: u8) -> (s: Acquisition)
        ensures
            s == Acquisition::idle(backends, apps),
            s.wf(),
    {
        Acquisition {
            phase: Phase::Idle,
            backends,
            next_backend: 0,
            devices: 0,
            opens: Attempts::new(MAX_OPEN_ATTEMPTS, 0),
            frames: Attempts::new(MAX_FRAME_ATTEMPTS, FRAME_RETRY_MS),
            stream_open: false,
            have_image: false,
            cause: None,
            apps,
            next_app: 0,
            outcome: None,
        }
    }

    fn fall_back(self, cause: InspectionError) -> (r: (Acquisition, CameraAction))
        ensures
            r == self.to_fallback(cause),
    {
        let mut s = self;
        s.cause = Some(cause);
        if self.apps == 0 {
            s.phase = Phase::Done;
            s.outcome = Some(CaptureOutcome::ManualCaptureRequired);
            (s, CameraAction::Finish(CaptureOutcome::ManualCaptureRequired))
        } else {
            s.phase = Phase::Fallback;
            s.next_app = 0;
            (s, CameraAction::LaunchApp(0))
        }
    }

    fn tear_down(self, cause: InspectionError) -> (r: (Acquisition, CameraAction))
        ensures
            r == self.to_teardown(cause),
    {
        let mut s = self;
        s.phase = Phase::Stopping;
        s.cause = Some(cause);
        (s, CameraAction::StopStream)
    }

    fn record_backend(self, found: u32) -> (r: (Acquisition, CameraAction))
        requires
            self.wf(),
            self.phase is Enumerating,
        ensures
            r == self.enumerated(found),
    {
        let mut s = self;
        if found > s.devices {
            s.devices = found;
        }
        s.next_backend = s.next_backend + 1;
        if s.next_backend < s.backends {
            (s, CameraAction::QueryBackend(s.next_backend))
        } else if s.devices == 0 {
            s.fall_back(InspectionError::NoDeviceFound)
        } else {
            match s.opens.begin() {
                Some((opens, _)) => {
                    s.phase = Phase::Opening;
                    s.opens = opens;
                    (s, CameraAction::OpenDevice(0))
                },
                None => s.fall_back(InspectionError::AllDevicesFailed),
            }
        }
    }

    /// Takes what the device layer reports and answers with what it has to
    /// do next. The request changes as [`Acquisition::next`] says and stays
    /// well formed.
    pub fn step(self, event: CameraEvent) -> (r: (Acquisition, CameraAction))
        requires
            self.wf(),
        ensures
            r == self.next(event),
            r.0.wf(),
    {
        proof {
            lemma_camera_next_preserves_wf(self, event);
        }
        let mut s = self;
        match (self.phase, event) {
            (Phase::Idle, CameraEvent::Start) => {
                if self.backends == 0 {
                    self.fall_back(InspectionError::NoDeviceFound)
                } else {
                    s.phase = Phase::Enumerating;
                    s.next_backend = 0;
                    (s, CameraAction::QueryBackend(0))
                }
            },
            (Phase::Enumerating, CameraEvent::BackendAnswered(found)) => self.record_backend(found),
            (Phase::Enumerating, CameraEvent::BackendFailed) => self.record_backend(0),
            (Phase::Opening, CameraEvent::Opened) => {
                s.phase = Phase::Streaming;
                (s, CameraAction::StartStream)
            },
            (Phase::Opening, CameraEvent::OpenFailed) => {
                let next_index = self.opens.made as u32;
                match self.opens.begin() {
                    Some((opens, _)) if next_index < self.devices => {
                        s.opens = opens;
                        (s, CameraAction::OpenDevice(next_index))
                    },
                    _ => self.fall_back(InspectionError::AllDevicesFailed),
                }
            },
            (Phase::Streaming, CameraEvent::StreamStarted) => {
                s.phase = Phase::Stabilizing;
                s.stream_open = true;
                (s, CameraAction::Wait(STABILIZE_MS))
            },
            (Phase::Streaming, CameraEvent::StreamFailed) => self.fall_back(
                InspectionError::FrameCaptureFailed,
            ),
            (Phase::Stabilizing, CameraEvent::Waited) | (Phase::Pausing, CameraEvent::Waited) => {
                match self.frames.begin() {
                    Some((frames, _)) => {
                        s.phase = Phase::Capturing;
                        s.frames = frames;
                        (s, CameraAction::CaptureFrame)
                    },
                    None => self.tear_down(InspectionError::FrameCaptureFailed),
                }
            },
            (Phase::Capturing, CameraEvent::FrameCaptured) => {
                s.phase = Phase::Decoding;
                (s, CameraAction::DecodeFrame)
            },
            (Phase::Capturing, CameraEvent::FrameFailed) => {
                if self.frames.can_retry() {
                    s.phase = Phase::Pausing;
                    (s, CameraAction::Wait(self.frames.pause_before_next()))
                } else {
                    self.tear_down(InspectionError::FrameCaptureFailed)
                }
            },
            (Phase::Decoding, CameraEvent::Decoded) => {
                s.phase = Phase::Encoding;
                (s, CameraAction::EncodeJpeg)
            },
            (Phase::Decoding, CameraEvent::DecodeFailed) => self.tear_down(
                InspectionError::DecodeFailed,
            ),
            (Phase::Encoding, CameraEvent::Encoded) => {
                s.phase = Phase::Stopping;
                s.have_image = true;
                (s, CameraAction::StopStream)
            },
            (Phase::Encoding, CameraEvent::EncodeFailed) => self.tear_down(
                InspectionError::EncodeFailed,
            ),
            (Phase::Stopping, CameraEvent::StreamStopped) | (
                Phase::Stopping,
                CameraEvent::StopFailed,
            ) => {
                s.stream_open = false;
                if s.have_image {
                    s.phase = Phase::Done;
                    s.outcome = Some(CaptureOutcome::Image);
                    (s, CameraAction::Finish(CaptureOutcome::Image))
                } else {
                    let cause = match s.cause {
                        Some(c) => c,
                        None => InspectionError::FrameCaptureFailed,
                    };
                    s.fall_back(cause)
                }
            },
            (Phase::Fallback, CameraEvent::AppLaunched) => {
                s.phase = Phase::Done;
                s.outcome = Some(CaptureOutcome::ExternalAppOpened(self.next_app));
                (s, CameraAction::Finish(CaptureOutcome::ExternalAppOpened(self.next_app)))
            },
            (Phase::Fallback, CameraEvent::AppLaunchFailed) => {
                if self.next_app + 1 < self.apps {
                    s.next_app = s.next_app + 1;
                    (s, CameraAction::LaunchApp(self.next_app + 1))
                } else {
                    s.phase = Phase::Done;
                    s.outcome = Some(CaptureOutcome::ManualCaptureRequired);
                    (s, CameraAction::Finish(CaptureOutcome::ManualCaptureRequired))
                }
            },
            _ => (self, CameraAction::Unexpected),
        }
    }

    /// The failure category that ended the device path, once the request
    /// has finished without an image.
    pub fn failure(&self) -> (r: Option<InspectionError>)
        ensures
            r == if self.phase is Done {
                self.cause
            } else {
                None
            },
    {
        match self.phase {
            Phase::Done => self.cause,
            _ => None,
        }
    }
}

/// Whether an event reports a failure on the way to an image. The text
/// reported with such an event is kept; what stopping the stream or
/// launching an application reports is not, so that it never takes the place
/// of the error that ended the device path.
pub open spec fn reports_error(event: CameraEvent) -> bool {
    event is BackendFailed || event is OpenFailed || event is StreamFailed || event is FrameFailed
        || event is DecodeFailed || event is EncodeFailed
}

/// A capture request together with the text of the last error reported to it.
pub ghost struct LadderState {
    pub state: Acquisition,
    /// The text that came with the last failure taken in.
    pub kept: Option<Seq<char>>,
}

impl LadderState {
    /// The request and the action after `event`, which came with `detail`:
    /// the request moves as [`Acquisition::next`] says, and the text of a
    /// failure that was taken in replaces the one kept.
    pub open spec fn next(self, event: CameraEvent, detail: Option<Seq<char>>) -> (
        LadderState,
        CameraAction,
    ) {
        (
            LadderState {
                state: self.state.next(event).0,
                kept: if reports_error(event) && !(self.state.next(event).1 is Unexpected) {
                    detail
                } else {
                    self.kept
                },
            },
            self.state.next(event).1,
        )
    }

    /// The error that the request ended on, once it has finished without an
    /// image: the category, and the text reported with it.
    pub open spec fn reported(self) -> Option<(InspectionError, Option<Seq<char>>)> {
        match self.state.cause {
            Some(category) if self.state.phase is Done => Some((category, self.kept)),
            _ => None,
        }
    }

    /// A request on which nothing has happened yet.
    pub open spec fn idle(backends: u8, apps: u8) -> LadderState {
        LadderState { state: Acquisition::idle(backends, apps), kept: None }
    }
}

/// The request after the reports of `reports` have arrived in order, each an
/// event with the text that came with it.
pub open spec fn ladder_run(
    l: LadderState,
    reports: Seq<(CameraEvent, Option<Seq<char>>)>,
) -> LadderState
    decreases reports.len(),
{
    if reports.len() == 0 {
        l
    } else {
        ladder_run(l, reports.drop_last()).next(reports.last().0, reports.last().1).0
    }
}

/// The error carried is that of the attempt which ended the device path.
/// Where a step gives the request its cause, and the cause is not that no
/// device was found, the step takes in a failure and keeps its text: for
/// `AllDevicesFailed` the failed opening of the last device tried, for
/// `FrameCaptureFailed` the last of the three frame requests or the stream
/// that did not start.
pub proof fn lemma_cause_carries_its_error(l: LadderState, event: CameraEvent, detail: Option<Seq<char>>)
    requires
        l.state.wf(),
        l.state.cause is None,
        l.next(event, detail).0.state.cause is Some,
        l.next(event, detail).0.state.cause != Some(InspectionError::NoDeviceFound),
    ensures
        reports_error(event),
        l.next(event, detail).0.kept == detail,
        l.next(event, detail).0.state.cause == Some(InspectionError::AllDevicesFailed) ==> event
            is OpenFailed && (l.state.opens.made == MAX_OPEN_ATTEMPTS || l.state.opens.made
            == l.state.devices),
        l.next(event, detail).0.state.cause == Some(InspectionError::FrameCaptureFailed) ==> (
        event is StreamFailed) || (event is FrameFailed && l.state.frames.made
            == MAX_FRAME_ATTEMPTS),
        l.next(event, detail).0.state.cause == Some(InspectionError::DecodeFailed) ==> event
            is DecodeFailed,
        l.next(event, detail).0.state.cause == Some(InspectionError::EncodeFailed) ==> event
            is EncodeFailed,
{
}

/// Once the request has its cause, neither the cause nor the text kept
/// changes: what stopping the stream or launching an application reports
/// does not take their place.
pub proof fn lemma_error_is_kept(l: LadderState, event: CameraEvent, detail: Option<Seq<char>>)
    requires
        l.state.wf(),
        l.state.cause is Some,
    ensures
        l.next(event, detail).0.state.cause == l.state.cause,
        l.next(event, detail).0.kept == l.kept,
{
}

/// Over a whole run: a request that started idle and has a cause other than
/// that no device was found carries the text of the very report that gave
/// it the cause. The position of that report is returned.
pub proof fn lemma_run_carries_the_last_error(
    backends: u8,
    apps: u8,
    reports: Seq<(CameraEvent, Option<Seq<char>>)>,
) -> (k: int)
    requires
        ladder_run(LadderState::idle(backends, apps), reports).state.cause is Some,
        ladder_run(LadderState::idle(backends, apps), reports).state.cause != Some(
            InspectionError::NoDeviceFound,
        ),
    ensures
        0 <= k < reports.len(),
        reports_error(reports[k].0),
        ladder_run(LadderState::idle(backends, apps), reports.take(k)).state.cause is None,
        ladder_run(LadderState::idle(backends, apps), reports.take(k + 1)).state.cause
            == ladder_run(LadderState::idle(backends, apps), reports).state.cause,
        ladder_run(LadderState::idle(backends, apps), reports).kept == reports[k].1,
        ladder_run(LadderState::idle(backends, apps), reports).state.wf(),
    decreases reports.len(),
{
    let start = LadderState::idle(backends, apps);
    lemma_idle_wf(backends, apps);
    lemma_ladder_run_wf(start, reports);
    if reports.len() == 0 {
        0
    } else {
        let shorter = reports.drop_last();
        let before = ladder_run(start, shorter);
        lemma_ladder_run_wf(start, shorter);
        assert(reports.take(reports.len() as int) =~= reports);
        assert(reports.take(reports.len() - 1) =~= shorter);
        if before.state.cause is Some {
            lemma_error_is_kept(before, reports.last().0, reports.last().1);
            let k = lemma_run_carries_the_last_error(backends, apps, shorter);
            assert(shorter.take(k) =~= reports.take(k));
            assert(shorter.take(k + 1) =~= reports.take(k + 1));
            k
        } else {
            lemma_cause_carries_its_error(before, reports.last().0, reports.last().1);
            reports.len() - 1
        }
    }
}

/// Whatever is reported, the request of a ladder stays well formed.
pub proof fn lemma_ladder_run_wf(l: LadderState, reports: Seq<(CameraEvent, Option<Seq<char>>)>)
    requires
        l.state.wf(),
    ensures
        ladder_run(l, reports).state.wf(),
    decreases reports.len(),
{
    if reports.len() > 0 {
        lemma_ladder_run_wf(l, reports.drop_last());
        lemma_camera_next_preserves_wf(ladder_run(l, reports.drop_last()).state, reports.last().0);
    }
}

/// One capture request with the text of the last error reported to it.
#[derive(Debug, Clone, PartialEq, Eq)]
pub struct CaptureLadder {
    state: Acquisition,
    last_error: Option<String>,
}

impl View for CaptureLadder {
    type V = LadderState;

    closed spec fn view(&self) -> LadderState {
        LadderState { state: self.state, kept: opt_text(self.last_error) }
    }
}

impl CaptureLadder {
    /// A request on which nothing has happened yet.
    pub fn new(backends: u8, apps: u8) -> (l: CaptureLadder)
        ensures
            l@ == LadderState::idle(backends, apps),
            l@.state.wf(),
    {
        CaptureLadder { state: Acquisition::new(backends, apps), last_error: None }
    }

    /// Takes what the device layer reports, with the text of the error where
    /// it reports one, and answers with what it has to do next.
    pub fn step(&mut self, event: CameraEvent, detail: Option<String>) -> (action: CameraAction)
        requires
            old(self)@.state.wf(),
        ensures
            (final(self)@, action) == old(self)@.next(event, opt_text(detail)),
            final(self)@.state.wf(),
    {
        let (next, action) = self.state.step(event);
        let reports = match event {
            CameraEvent::BackendFailed
            | CameraEvent::OpenFailed
            | CameraEvent::StreamFailed
            | CameraEvent::FrameFailed
            | CameraEvent::DecodeFailed
            | CameraEvent::EncodeFailed => true,
            _ => false,
        };
        if reports && action != CameraAction::Unexpected {
            self.last_error = detail;
        }
        self.state = next;
        action
    }

    /// Where the request stands.
    pub fn state(&self) -> (s: Acquisition)
        ensures
            s == self@.state,
    {
        self.state
    }

    /// The error that the request ended on, once it has finished without an
    /// image: the category, and the text reported with it.
    pub fn error(&self) -> (r: Option<(InspectionError, Option<String>)>)
        ensures
            match r {
                Some((category, text)) => self@.reported() == Some((category, opt_text(text))),
                None => self@.reported() is None,
            },
    {
        match self.state.failure() {
            Some(category) => Some((category, self.last_error.clone())),
            None => None,
        }
    }
}

/// The camera as a resource that one acquisition holds at a time.
#[derive(Debug, Clone, Copy, PartialEq, Eq, Structural)]
pub struct CameraGate {
    pub held: bool,
}

impl CameraGate {
    /// A camera that nobody holds.
    pub fn new() -> (g: CameraGate)
        ensures
            !g.held,
    {
        CameraGate { held: false }
    }

    /// Takes the camera, or fails fast with `DeviceBusy` where it is held.
    pub fn try_acquire(&mut self) -> (r: Result<(), InspectionError>)
        ensures
            final(self).held,
            r is Ok <==> !old(self).held,
            r is Err ==> r == Err::<(), InspectionError>(InspectionError::DeviceBusy),
    {
        if self.held {
            Err(InspectionError::DeviceBusy)
        } else {
            self.held = true;
            Ok(())
        }
    }

    /// Gives the camera back.
    pub fn release(&mut self)
        ensures
            !final(self).held,
    {
        self.held = false;
    }
}

} // verus!
