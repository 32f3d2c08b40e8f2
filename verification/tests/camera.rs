use inspection_core::camera::{
    Acquisition, CameraAction, CameraEvent, CameraGate, CaptureLadder, CaptureOutcome, Phase,
    FRAME_RETRY_MS,
    MAX_FRAME_ATTEMPTS, MAX_OPEN_ATTEMPTS, STABILIZE_MS,
};
use inspection_core::error::InspectionError;
use inspection_core::retry::Attempts;

fn drive(start: Acquisition, events: &[CameraEvent]) -> (Acquisition, Vec<CameraAction>) {
    let mut s = start;
    let mut actions = Vec::new();
    for e in events {
        let (next, action) = s.step(*e);
        s = next;
        actions.push(action);
    }
    (s, actions)
}

#[test]
fn acquisition_happy_path() {
    let (s, actions) = drive(
        Acquisition::new(2, 3),
        &[
            CameraEvent::Start,
            CameraEvent::BackendAnswered(1),
            CameraEvent::BackendAnswered(1),
            CameraEvent::Opened,
            CameraEvent::StreamStarted,
            CameraEvent::Waited,
            CameraEvent::FrameCaptured,
            CameraEvent::Decoded,
            CameraEvent::Encoded,
            CameraEvent::StreamStopped,
        ],
    );
    assert_eq!(
        actions,
        vec![
            CameraAction::QueryBackend(0),
            CameraAction::QueryBackend(1),
            CameraAction::OpenDevice(0),
            CameraAction::StartStream,
            CameraAction::Wait(2000),
            CameraAction::CaptureFrame,
            CameraAction::DecodeFrame,
            CameraAction::EncodeJpeg,
            CameraAction::StopStream,
            CameraAction::Finish(CaptureOutcome::Image),
        ]
    );
    assert_eq!(s.phase, Phase::Done);
    assert_eq!(s.outcome, Some(CaptureOutcome::Image));
    assert!(!s.stream_open);
    assert_eq!(s.failure(), None);
    assert_eq!(s.opens.made, 1);
    assert_eq!(s.frames.made, 1);
}

#[test]
fn scenario_no_device_falls_back_to_apps_then_manual() {
    let (s, actions) = drive(
        Acquisition::new(2, 2),
        &[
            CameraEvent::Start,
            CameraEvent::BackendAnswered(0),
            CameraEvent::BackendFailed,
            CameraEvent::AppLaunchFailed,
            CameraEvent::AppLaunchFailed,
        ],
    );
    assert_eq!(
        actions,
        vec![
            CameraAction::QueryBackend(0),
            CameraAction::QueryBackend(1),
            CameraAction::LaunchApp(0),
            CameraAction::LaunchApp(1),
            CameraAction::Finish(CaptureOutcome::ManualCaptureRequired),
        ]
    );
    assert_eq!(s.failure(), Some(InspectionError::NoDeviceFound));
    assert_eq!(s.outcome, Some(CaptureOutcome::ManualCaptureRequired));
    assert_eq!(s.opens.made, 0);
    assert!(!s.stream_open);
}

#[test]
fn no_device_and_first_app_opens() {
    let (s, actions) = drive(
        Acquisition::new(1, 3),
        &[CameraEvent::Start, CameraEvent::BackendAnswered(0), CameraEvent::AppLaunched],
    );
    assert_eq!(actions[1], CameraAction::LaunchApp(0));
    assert_eq!(actions[2], CameraAction::Finish(CaptureOutcome::ExternalAppOpened(0)));
    assert_eq!(s.failure(), Some(InspectionError::NoDeviceFound));
}

#[test]
fn platform_without_backends_or_apps_asks_the_operator_at_once() {
    let (s, action) = Acquisition::new(0, 0).step(CameraEvent::Start);
    assert_eq!(action, CameraAction::Finish(CaptureOutcome::ManualCaptureRequired));
    assert_eq!(s.failure(), Some(InspectionError::NoDeviceFound));
    let (t, action) = Acquisition::new(0, 1).step(CameraEvent::Start);
    assert_eq!(action, CameraAction::LaunchApp(0));
    assert_eq!(t.phase, Phase::Fallback);
}

#[test]
fn at_most_three_devices_are_opened() {
    let (s, actions) = drive(
        Acquisition::new(1, 1),
        &[
            CameraEvent::Start,
            CameraEvent::BackendAnswered(5),
            CameraEvent::OpenFailed,
            CameraEvent::OpenFailed,
            CameraEvent::OpenFailed,
        ],
    );
    assert_eq!(
        actions,
        vec![
            CameraAction::QueryBackend(0),
            CameraAction::OpenDevice(0),
            CameraAction::OpenDevice(1),
            CameraAction::OpenDevice(2),
            CameraAction::LaunchApp(0),
        ]
    );
    assert_eq!(s.opens.made, 3);
    assert_eq!(s.cause, Some(InspectionError::AllDevicesFailed));
    assert_eq!(MAX_OPEN_ATTEMPTS, 3);
}

#[test]
fn only_discovered_devices_are_opened() {
    let (s, actions) = drive(
        Acquisition::new(2, 0),
        &[
            CameraEvent::Start,
            CameraEvent::BackendAnswered(1),
            CameraEvent::BackendAnswered(2),
            CameraEvent::OpenFailed,
            CameraEvent::OpenFailed,
        ],
    );
    assert_eq!(s.devices, 2);
    assert_eq!(actions[2], CameraAction::OpenDevice(0));
    assert_eq!(actions[3], CameraAction::OpenDevice(1));
    assert_eq!(actions[4], CameraAction::Finish(CaptureOutcome::ManualCaptureRequired));
    assert_eq!(s.failure(), Some(InspectionError::AllDevicesFailed));
}

#[test]
fn second_device_is_used_when_the_first_fails() {
    let (s, actions) = drive(
        Acquisition::new(1, 1),
        &[
            CameraEvent::Start,
            CameraEvent::BackendAnswered(2),
            CameraEvent::OpenFailed,
            CameraEvent::Opened,
            CameraEvent::StreamStarted,
        ],
    );
    assert_eq!(actions[2], CameraAction::OpenDevice(1));
    assert_eq!(actions[3], CameraAction::StartStream);
    assert_eq!(actions[4], CameraAction::Wait(STABILIZE_MS));
    assert!(s.stream_open);
    assert_eq!(s.phase, Phase::Stabilizing);
}

fn streaming() -> Acquisition {
    drive(
        Acquisition::new(1, 1),
        &[
            CameraEvent::Start,
            CameraEvent::BackendAnswered(1),
            CameraEvent::Opened,
            CameraEvent::StreamStarted,
            CameraEvent::Waited,
        ],
    )
    .0
}

#[test]
fn at_most_three_frames_are_asked_for_and_the_stream_is_stopped() {
    let s = streaming();
    assert_eq!(s.phase, Phase::Capturing);
    let (s, actions) = drive(
        s,
        &[
            CameraEvent::FrameFailed,
            CameraEvent::Waited,
            CameraEvent::FrameFailed,
            CameraEvent::Waited,
            CameraEvent::FrameFailed,
        ],
    );
    assert_eq!(
        actions,
        vec![
            CameraAction::Wait(500),
            CameraAction::CaptureFrame,
            CameraAction::Wait(500),
            CameraAction::CaptureFrame,
            CameraAction::StopStream,
        ]
    );
    assert_eq!(s.frames.made, 3);
    assert_eq!(MAX_FRAME_ATTEMPTS, 3);
    assert_eq!(FRAME_RETRY_MS, 500);
    assert!(s.stream_open);
    assert_eq!(s.phase, Phase::Stopping);
    assert_eq!(s.failure(), None);
    let (s, action) = s.step(CameraEvent::StreamStopped);
    assert_eq!(action, CameraAction::LaunchApp(0));
    assert!(!s.stream_open);
    assert_eq!(s.cause, Some(InspectionError::FrameCaptureFailed));
    let (s, action) = s.step(CameraEvent::AppLaunched);
    assert_eq!(action, CameraAction::Finish(CaptureOutcome::ExternalAppOpened(0)));
    assert_eq!(s.failure(), Some(InspectionError::FrameCaptureFailed));
}

#[test]
fn frame_on_second_attempt_is_used() {
    let (s, actions) = drive(
        streaming(),
        &[CameraEvent::FrameFailed, CameraEvent::Waited, CameraEvent::FrameCaptured],
    );
    assert_eq!(actions[2], CameraAction::DecodeFrame);
    assert_eq!(s.frames.made, 2);
}

#[test]
fn decode_and_encode_failures_stop_the_stream_first() {
    let (s, actions) =
        drive(streaming(), &[CameraEvent::FrameCaptured, CameraEvent::DecodeFailed]);
    assert_eq!(actions[1], CameraAction::StopStream);
    assert_eq!(s.cause, Some(InspectionError::DecodeFailed));
    assert!(s.stream_open);
    let (s, action) = s.step(CameraEvent::StopFailed);
    assert_eq!(action, CameraAction::LaunchApp(0));
    assert!(!s.stream_open);

    let (t, actions) = drive(
        streaming(),
        &[CameraEvent::FrameCaptured, CameraEvent::Decoded, CameraEvent::EncodeFailed],
    );
    assert_eq!(actions[2], CameraAction::StopStream);
    assert_eq!(t.cause, Some(InspectionError::EncodeFailed));
    let (t, _) = drive(t, &[CameraEvent::StreamStopped, CameraEvent::AppLaunchFailed]);
    assert_eq!(t.outcome, Some(CaptureOutcome::ManualCaptureRequired));
    assert_eq!(t.failure(), Some(InspectionError::EncodeFailed));
    assert_eq!(s.phase, Phase::Fallback);
}

#[test]
fn stop_error_does_not_override_the_image() {
    let (s, actions) = drive(
        streaming(),
        &[
            CameraEvent::FrameCaptured,
            CameraEvent::Decoded,
            CameraEvent::Encoded,
            CameraEvent::StopFailed,
        ],
    );
    assert_eq!(actions[2], CameraAction::StopStream);
    assert_eq!(actions[3], CameraAction::Finish(CaptureOutcome::Image));
    assert_eq!(s.outcome, Some(CaptureOutcome::Image));
    assert_eq!(s.failure(), None);
    assert!(!s.stream_open);
}

#[test]
fn stream_that_does_not_start_goes_to_fallback_without_stop() {
    let (s, actions) = drive(
        Acquisition::new(1, 1),
        &[
            CameraEvent::Start,
            CameraEvent::BackendAnswered(3),
            CameraEvent::Opened,
            CameraEvent::StreamFailed,
        ],
    );
    assert_eq!(actions[3], CameraAction::LaunchApp(0));
    assert!(!s.stream_open);
    assert_eq!(s.cause, Some(InspectionError::FrameCaptureFailed));
    assert_eq!(s.opens.made, 1);
}

#[test]
fn events_out_of_place_change_nothing() {
    let idle = Acquisition::new(2, 2);
    for e in [CameraEvent::Opened, CameraEvent::Waited, CameraEvent::StreamStopped, CameraEvent::AppLaunched] {
        assert_eq!(idle.step(e), (idle, CameraAction::Unexpected));
    }
    let s = streaming();
    assert_eq!(s.step(CameraEvent::Start), (s, CameraAction::Unexpected));
    assert_eq!(s.step(CameraEvent::StreamStopped), (s, CameraAction::Unexpected));
    let done = drive(
        Acquisition::new(1, 0),
        &[CameraEvent::Start, CameraEvent::BackendAnswered(0)],
    )
    .0;
    assert_eq!(done.phase, Phase::Done);
    assert_eq!(done.step(CameraEvent::Start), (done, CameraAction::Unexpected));
}

#[test]
fn no_event_sequence_exceeds_the_attempts_or_leaves_the_stream_open() {
    let events = [
        CameraEvent::Start,
        CameraEvent::BackendAnswered(0),
        CameraEvent::BackendAnswered(4),
        CameraEvent::BackendFailed,
        CameraEvent::Opened,
        CameraEvent::OpenFailed,
        CameraEvent::StreamStarted,
        CameraEvent::StreamFailed,
        CameraEvent::Waited,
        CameraEvent::FrameCaptured,
        CameraEvent::FrameFailed,
        CameraEvent::Decoded,
        CameraEvent::DecodeFailed,
        CameraEvent::Encoded,
        CameraEvent::EncodeFailed,
        CameraEvent::StreamStopped,
        CameraEvent::StopFailed,
        CameraEvent::AppLaunched,
        CameraEvent::AppLaunchFailed,
    ];
    let mut seed: u64 = 99;
    let mut finished = 0;
    let mut with_image = 0;
    for round in 0..20000u32 {
        let mut s = Acquisition::new((round % 3) as u8, (round % 4) as u8);
        let mut opens = 0;
        let mut frames = 0;
        let mut started = 0;
        let mut stops = 0;
        for _ in 0..60 {
            seed = seed.wrapping_mul(6364136223846793005).wrapping_add(1442695040888963407);
            let e = events[((seed >> 33) % events.len() as u64) as usize];
            let was_open = s.stream_open;
            let (next, action) = s.step(e);
            match action {
                CameraAction::OpenDevice(i) => {
                    assert_eq!(i, opens);
                    opens += 1;
                }
                CameraAction::CaptureFrame => frames += 1,
                CameraAction::StopStream => stops += 1,
                CameraAction::Finish(_) => assert!(!next.stream_open),
                CameraAction::LaunchApp(_) => assert!(!next.stream_open),
                _ => {}
            }
            if !was_open && next.stream_open {
                started += 1;
            }
            s = next;
            assert!(opens <= 3 && frames <= 3);
            assert_eq!(u32::from(s.opens.made), opens);
            assert_eq!(s.frames.made, frames);
            assert!(started <= 1);
            if s.phase == Phase::Done {
                assert!(!s.stream_open);
                assert_eq!(stops, started);
            }
        }
        if s.phase == Phase::Done {
            finished += 1;
            if s.outcome == Some(CaptureOutcome::Image) {
                with_image += 1;
            }
        }
    }
    assert!(finished > 100);
    assert!(with_image > 0);
}

#[test]
fn camera_gate_fails_fast_when_busy() {
    let mut gate = CameraGate::new();
    assert_eq!(gate.try_acquire(), Ok(()));
    assert_eq!(gate.try_acquire(), Err(InspectionError::DeviceBusy));
    assert!(gate.held);
    gate.release();
    assert_eq!(gate.try_acquire(), Ok(()));
}

#[test]
fn attempts_budget_counts_and_pauses() {
    let a = Attempts::new(3, 500);
    assert!(a.can_retry());
    assert_eq!(a.pause_before_next(), 0);
    let (a, n) = a.begin().unwrap();
    assert_eq!(n, 1);
    assert_eq!(a.pause_before_next(), 500);
    let (a, n) = a.begin().unwrap();
    assert_eq!(n, 2);
    let (a, n) = a.begin().unwrap();
    assert_eq!(n, 3);
    assert!(!a.can_retry());
    assert_eq!(a.begin(), None);
    assert_eq!(a, Attempts { limit: 3, made: 3, pause_ms: 500 });
    assert_eq!(Attempts::new(0, 1).begin(), None);
}

fn report(ladder: &mut CaptureLadder, event: CameraEvent, text: &str) -> CameraAction {
    ladder.step(event, Some(text.to_string()))
}

#[test]
fn all_devices_failed_carries_the_error_of_the_last_opening() {
    let mut l = CaptureLadder::new(1, 0);
    assert_eq!(l.step(CameraEvent::Start, None), CameraAction::QueryBackend(0));
    assert_eq!(l.step(CameraEvent::BackendAnswered(5), None), CameraAction::OpenDevice(0));
    assert_eq!(report(&mut l, CameraEvent::OpenFailed, "e0"), CameraAction::OpenDevice(1));
    assert_eq!(l.error(), None);
    assert_eq!(report(&mut l, CameraEvent::OpenFailed, "e1"), CameraAction::OpenDevice(2));
    assert_eq!(
        report(&mut l, CameraEvent::OpenFailed, "e2"),
        CameraAction::Finish(CaptureOutcome::ManualCaptureRequired)
    );
    assert_eq!(l.error(), Some((InspectionError::AllDevicesFailed, Some("e2".to_string()))));
    assert_eq!(l.state().opens.made, 3);
    assert_eq!(l.state().frames.made, 0);
    assert!(!l.state().stream_open);
    // Nothing reported afterwards takes its place.
    assert_eq!(report(&mut l, CameraEvent::OpenFailed, "late"), CameraAction::Unexpected);
    assert_eq!(l.error(), Some((InspectionError::AllDevicesFailed, Some("e2".to_string()))));
}

#[test]
fn frame_capture_failed_carries_the_error_of_the_third_request() {
    let mut l = CaptureLadder::new(1, 1);
    l.step(CameraEvent::Start, None);
    l.step(CameraEvent::BackendAnswered(1), None);
    l.step(CameraEvent::Opened, None);
    l.step(CameraEvent::StreamStarted, None);
    assert_eq!(l.step(CameraEvent::Waited, None), CameraAction::CaptureFrame);
    assert_eq!(report(&mut l, CameraEvent::FrameFailed, "f1"), CameraAction::Wait(500));
    assert_eq!(l.step(CameraEvent::Waited, None), CameraAction::CaptureFrame);
    assert_eq!(report(&mut l, CameraEvent::FrameFailed, "f2"), CameraAction::Wait(500));
    assert_eq!(l.step(CameraEvent::Waited, None), CameraAction::CaptureFrame);
    // The stream is stopped once, after the third request and before the end.
    assert_eq!(report(&mut l, CameraEvent::FrameFailed, "f3"), CameraAction::StopStream);
    assert!(l.state().stream_open);
    assert_eq!(l.error(), None);
    assert_eq!(report(&mut l, CameraEvent::StopFailed, "stop"), CameraAction::LaunchApp(0));
    assert!(!l.state().stream_open);
    assert_eq!(
        report(&mut l, CameraEvent::AppLaunchFailed, "no app"),
        CameraAction::Finish(CaptureOutcome::ManualCaptureRequired)
    );
    assert_eq!(l.error(), Some((InspectionError::FrameCaptureFailed, Some("f3".to_string()))));
}

#[test]
fn ladder_with_an_image_reports_no_error() {
    let mut l = CaptureLadder::new(1, 1);
    l.step(CameraEvent::Start, None);
    l.step(CameraEvent::BackendAnswered(2), None);
    report(&mut l, CameraEvent::OpenFailed, "busy");
    l.step(CameraEvent::Opened, None);
    l.step(CameraEvent::StreamStarted, None);
    l.step(CameraEvent::Waited, None);
    report(&mut l, CameraEvent::FrameFailed, "dark");
    l.step(CameraEvent::Waited, None);
    l.step(CameraEvent::FrameCaptured, None);
    l.step(CameraEvent::Decoded, None);
    l.step(CameraEvent::Encoded, None);
    assert_eq!(report(&mut l, CameraEvent::StopFailed, "stop"), CameraAction::Finish(CaptureOutcome::Image));
    assert_eq!(l.error(), None);
    assert_eq!(l.state().outcome, Some(CaptureOutcome::Image));
}

#[test]
fn no_device_found_carries_what_a_backend_reported_if_any() {
    let mut l = CaptureLadder::new(2, 0);
    l.step(CameraEvent::Start, None);
    report(&mut l, CameraEvent::BackendFailed, "no permission");
    l.step(CameraEvent::BackendAnswered(0), None);
    assert_eq!(l.error(), Some((InspectionError::NoDeviceFound, Some("no permission".to_string()))));
    let mut quiet = CaptureLadder::new(1, 0);
    quiet.step(CameraEvent::Start, None);
    quiet.step(CameraEvent::BackendAnswered(0), None);
    assert_eq!(quiet.error(), Some((InspectionError::NoDeviceFound, None)));
    let mut decode = CaptureLadder::new(1, 0);
    for e in [CameraEvent::Start, CameraEvent::BackendAnswered(1), CameraEvent::Opened, CameraEvent::StreamStarted, CameraEvent::Waited, CameraEvent::FrameCaptured] {
        decode.step(e, None);
    }
    report(&mut decode, CameraEvent::DecodeFailed, "bad mjpeg");
    decode.step(CameraEvent::StreamStopped, None);
    assert_eq!(decode.error(), Some((InspectionError::DecodeFailed, Some("bad mjpeg".to_string()))));
}
