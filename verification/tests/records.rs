use inspection_core::camera::CaptureOutcome;
use inspection_core::codes::parse_qr_code;
use inspection_core::database::{
    endpoint_key, history_limit, image_path, image_record, image_records, is_history_page, new_target,
    recorded_size, resolve_endpoint, verification_record, InspectionSession,
};
use inspection_core::devices::{
    backend_order, collect_devices, device_count, fallback_apps, Backend, CameraApp,
    DeviceDescriptor, Platform,
};
use inspection_core::error::InspectionError;
use inspection_core::session::{ManualPath, SessionAction, SessionEvent, Status, Refusal, Artifact};
use inspection_core::text::{chars_of, push_decimal, push_signed, push_text, same_text, string_of};
use inspection_core::verdict::{Outcome, Verdict};
use inspection_core::session::Session;
use inspection_core::inspection_api::result_request;
use inspection_core::workflow::{
    bind_scanned_code, capture_answer, capture_reply, failure_text, is_progress,
    session_event_for, step_outcome, PreviewState,
};

fn session_row(id: &str, started_at: i64) -> InspectionSession {
    InspectionSession {
        id: id.to_string(),
        target_id: "t".to_string(),
        user_id: Some(1),
        status: Status::Created,
        started_at,
        completed_at: None,
    }
}

#[test]
fn scenario_history_limit_500_clamps_to_100() {
    assert_eq!(history_limit(Some(500)), 100);
}

#[test]
fn history_limit_defaults_to_50_and_stays_between_0_and_100() {
    assert_eq!(history_limit(None), 50);
    assert_eq!(history_limit(Some(100)), 100);
    assert_eq!(history_limit(Some(101)), 100);
    assert_eq!(history_limit(Some(i32::MAX)), 100);
    assert_eq!(history_limit(Some(99)), 99);
    assert_eq!(history_limit(Some(1)), 1);
    assert_eq!(history_limit(Some(0)), 0);
    assert_eq!(history_limit(Some(-1)), 0);
    assert_eq!(history_limit(Some(i32::MIN)), 0);
    for l in [i32::MIN, -500, -1, 0, 1, 50, 100, 101, 500, i32::MAX] {
        assert!((0..=100).contains(&history_limit(Some(l))), "{}", l);
    }
}

#[test]
fn history_page_is_bounded_and_most_recent_first() {
    let rows = vec![session_row("c", 30), session_row("b", 20), session_row("b2", 20), session_row("a", 10)];
    assert!(is_history_page(&rows, None));
    assert!(is_history_page(&rows, Some(4)));
    assert!(is_history_page(&rows, Some(500)));
    assert!(!is_history_page(&rows, Some(3)));
    assert!(!is_history_page(&rows, Some(-1)));
    assert!(is_history_page(&Vec::new(), Some(-1)));
    let unordered = vec![session_row("a", 10), session_row("c", 30)];
    assert!(!is_history_page(&unordered, None));
    assert!(is_history_page(&Vec::new(), Some(0)));
    let many: Vec<InspectionSession> = (0..101).map(|i| session_row("x", 1000 - i)).collect();
    assert!(!is_history_page(&many, Some(500)));
    assert!(is_history_page(&many[..100].to_vec(), Some(500)));
}

#[test]
fn endpoint_defaults_when_not_configured() {
    assert_eq!(endpoint_key(), "api_endpoint");
    assert_eq!(resolve_endpoint(None), "https://api.imageflowcanvas.com");
    assert_eq!(resolve_endpoint(Some("http://localhost:8000".to_string())), "http://localhost:8000");
    assert_eq!(resolve_endpoint(Some(String::new())), "");
}

#[test]
fn target_record_from_decoded_code() {
    let code = "PRODUCT_001_BATCH_20240126";
    let decoded = parse_qr_code(code).unwrap();
    let target = new_target("uuid-1".to_string(), decoded, code.to_string(), 1_706_227_200);
    assert_eq!(target.id, "uuid-1");
    assert_eq!(target.product_id, "PRODUCT_001");
    assert_eq!(target.batch_id, "BATCH_20240126");
    assert_eq!(target.qr_code, code);
    assert_eq!(target.created_at, 1_706_227_200);
}

#[test]
fn image_records_are_named_by_session_and_position() {
    assert_eq!(image_path("s-1", 0), "images/s-1_0.jpg");
    assert_eq!(image_path("s-1", 12), "images/s-1_12.jpg");
    assert_eq!(image_path("", u64::MAX), "images/_18446744073709551615.jpg");
    let r = image_record("img-1".to_string(), "s-1", 3, 2048, 77);
    assert_eq!(r.id, "img-1");
    assert_eq!(r.session_id, "s-1");
    assert_eq!(r.file_path, "images/s-1_3.jpg");
    assert_eq!(r.image_type, "capture");
    assert_eq!(r.file_size, Some(2048));
    assert_eq!(r.created_at, 77);
    assert_eq!(recorded_size(0), Some(0));
    assert_eq!(recorded_size(usize::MAX), if usize::MAX as u128 > i64::MAX as u128 { None } else { Some(usize::MAX as i64) });
}

#[test]
fn verification_record_belongs_to_session_and_inspector() {
    let r = verification_record(
        "v-1".to_string(),
        "s-1".to_string(),
        9,
        "PASS".to_string(),
        Some("fine".to_string()),
        4200,
        88,
    );
    assert_eq!(r.session_id, "s-1");
    assert_eq!(r.user_id, 9);
    assert_eq!(r.final_result, "PASS");
    assert_eq!(r.notes, Some("fine".to_string()));
    assert_eq!(r.verification_ms, 4200);
    assert_eq!(r.created_at, 88);
    assert_eq!(r.id, "v-1");
}

#[test]
fn backends_default_first_then_platform() {
    assert_eq!(backend_order(Platform::MacOs), vec![Backend::Auto, Backend::AvFoundation]);
    assert_eq!(backend_order(Platform::Windows), vec![Backend::Auto, Backend::MediaFoundation]);
    assert_eq!(backend_order(Platform::Linux), vec![Backend::Auto, Backend::V4l2]);
    assert_eq!(backend_order(Platform::Other), vec![Backend::Auto]);
    assert_eq!(Backend::Auto.label(), "Auto");
    assert_eq!(Backend::AvFoundation.label(), "AVFoundation");
    assert_eq!(Backend::MediaFoundation.label(), "MediaFoundation");
    assert_eq!(Backend::V4l2.label(), "V4L2");
}

#[test]
fn fallback_apps_per_platform() {
    assert_eq!(fallback_apps(Platform::MacOs), vec![CameraApp::MacCamera, CameraApp::MacPhotoBooth]);
    assert_eq!(fallback_apps(Platform::Windows), vec![CameraApp::WindowsCamera]);
    assert_eq!(
        fallback_apps(Platform::Linux),
        vec![CameraApp::Cheese, CameraApp::Guvcview, CameraApp::Kamoso]
    );
    assert!(fallback_apps(Platform::Other).is_empty());
    assert_eq!(CameraApp::MacCamera.program(), "open");
    assert_eq!(CameraApp::MacCamera.arguments(), vec!["-a".to_string(), "Camera".to_string()]);
    assert_eq!(CameraApp::MacPhotoBooth.arguments(), vec!["-a".to_string(), "Photo Booth".to_string()]);
    assert_eq!(CameraApp::MacPhotoBooth.opened_marker(), "PHOTOBOOTH_APP_OPENED");
    assert_eq!(CameraApp::MacCamera.opened_marker(), "CAMERA_APP_OPENED");
    assert_eq!(CameraApp::WindowsCamera.program(), "start");
    assert_eq!(CameraApp::WindowsCamera.arguments(), vec!["microsoft.windows.camera:".to_string()]);
    assert!(CameraApp::WindowsCamera.runs_to_completion());
    for (app, name) in [(CameraApp::Cheese, "cheese"), (CameraApp::Guvcview, "guvcview"), (CameraApp::Kamoso, "kamoso")] {
        assert_eq!(app.program(), name);
        assert!(app.arguments().is_empty());
        assert_eq!(app.opened_marker(), "CAMERA_APP_OPENED");
        assert!(!app.runs_to_completion());
    }
}

fn device(backend: Backend, index: u32, name: &str) -> DeviceDescriptor {
    DeviceDescriptor {
        backend,
        index,
        name: name.to_string(),
        description: "USB camera".to_string(),
        misc: String::new(),
    }
}

#[test]
fn devices_are_gathered_in_backend_order() {
    let a0 = device(Backend::Auto, 0, "front");
    let a1 = device(Backend::Auto, 1, "rear");
    let v0 = device(Backend::V4l2, 0, "front");
    let found = collect_devices(vec![vec![a0.clone(), a1.clone()], Vec::new(), vec![v0.clone()]]).unwrap();
    assert_eq!(found, vec![a0.clone(), a1, v0.clone()]);
    assert_eq!(collect_devices(vec![Vec::new(), vec![v0.clone()]]).unwrap(), vec![v0]);
    assert_eq!(device_count(&vec![a0]), 1);
    assert_eq!(device_count(&Vec::new()), 0);
}

#[test]
fn no_device_on_any_backend_is_no_device_found() {
    assert_eq!(collect_devices(Vec::new()), Err(InspectionError::NoDeviceFound));
    assert_eq!(collect_devices(vec![Vec::new(), Vec::new()]), Err(InspectionError::NoDeviceFound));
}

#[test]
fn capture_outcomes_are_no_failures_for_the_session() {
    assert_eq!(session_event_for(CaptureOutcome::Image), SessionEvent::ImageProduced);
    assert_eq!(
        session_event_for(CaptureOutcome::ExternalAppOpened(1)),
        SessionEvent::ManualPathOffered(ManualPath::ExternalAppOpened)
    );
    assert_eq!(
        session_event_for(CaptureOutcome::ManualCaptureRequired),
        SessionEvent::ManualPathOffered(ManualPath::FileRequired)
    );
}

#[test]
fn capture_reply_for_each_outcome() {
    assert_eq!(
        capture_reply(CaptureOutcome::Image, Platform::Linux, Some("data:image/jpeg;base64,AA==".to_string())),
        Ok("data:image/jpeg;base64,AA==".to_string())
    );
    assert_eq!(capture_reply(CaptureOutcome::Image, Platform::Linux, None), Err(InspectionError::EncodeFailed));
    assert_eq!(
        capture_reply(CaptureOutcome::ExternalAppOpened(0), Platform::MacOs, None),
        Ok("CAMERA_APP_OPENED".to_string())
    );
    assert_eq!(
        capture_reply(CaptureOutcome::ExternalAppOpened(1), Platform::MacOs, None),
        Ok("PHOTOBOOTH_APP_OPENED".to_string())
    );
    assert_eq!(
        capture_reply(CaptureOutcome::ExternalAppOpened(2), Platform::Linux, None),
        Ok("CAMERA_APP_OPENED".to_string())
    );
    assert_eq!(
        capture_reply(CaptureOutcome::ExternalAppOpened(1), Platform::Windows, None),
        Err(InspectionError::ManualCaptureRequired)
    );
    assert_eq!(
        capture_reply(CaptureOutcome::ManualCaptureRequired, Platform::Other, Some("x".to_string())),
        Err(InspectionError::ManualCaptureRequired)
    );
}

#[test]
fn progress_is_everything_but_refusal_report_and_failure() {
    assert!(is_progress(SessionAction::Store(Artifact::Image)));
    assert!(is_progress(SessionAction::StatusChanged(Status::AiEvaluated)));
    assert!(is_progress(SessionAction::VerdictAppended));
    assert!(is_progress(SessionAction::AwaitOperator(ManualPath::FileRequired)));
    assert!(!is_progress(SessionAction::StatusChanged(Status::Failed)));
    assert!(!is_progress(SessionAction::Refused(Refusal::NotReady)));
    assert!(!is_progress(SessionAction::Report(InspectionError::PipelineUnavailable)));
}

#[test]
fn preview_is_single_and_holds_the_camera() {
    let mut p = PreviewState::new();
    assert_eq!(p.frame_ready(), Err(InspectionError::NoDeviceFound));
    assert_eq!(p.may_start(), Ok(()));
    assert_eq!(p.started(false, false), Err(InspectionError::AllDevicesFailed));
    assert_eq!(p.started(true, false), Err(InspectionError::FrameCaptureFailed));
    assert_eq!(p, PreviewState::new());
    assert_eq!(p.started(true, true), Ok(()));
    assert!(p.active && p.camera_held);
    assert_eq!(p.frame_ready(), Ok(()));
    assert_eq!(p.may_start(), Err(InspectionError::DeviceBusy));
    assert_eq!(p.started(true, true), Err(InspectionError::DeviceBusy));
    assert!(p.stop());
    assert_eq!(p, PreviewState::new());
    assert!(!p.stop());
}

#[test]
fn error_messages_are_readable_and_camera_failures_list_remedies() {
    let all = [
        InspectionError::MalformedCode,
        InspectionError::NoDeviceFound,
        InspectionError::AllDevicesFailed,
        InspectionError::FrameCaptureFailed,
        InspectionError::DecodeFailed,
        InspectionError::EncodeFailed,
        InspectionError::ManualCaptureRequired,
        InspectionError::PipelineUnavailable,
        InspectionError::AuthFailed,
        InspectionError::PersistenceError,
        InspectionError::StageAlreadyComplete,
        InspectionError::DeviceBusy,
    ];
    for e in all {
        let text = e.message();
        assert!(!text.is_empty());
        let camera = matches!(
            e,
            InspectionError::NoDeviceFound
                | InspectionError::AllDevicesFailed
                | InspectionError::FrameCaptureFailed
                | InspectionError::DecodeFailed
                | InspectionError::EncodeFailed
                | InspectionError::ManualCaptureRequired
                | InspectionError::DeviceBusy
        );
        assert_eq!(e.lists_remedies(), camera);
        assert_eq!(text.contains("permitted to use the camera"), camera, "{:?}", e);
        assert_eq!(text.contains("cable"), camera);
        assert_eq!(text.contains("no other application"), camera);
    }
    assert_eq!(InspectionError::MalformedCode.message(), "The scanned code is not in a recognised format.");
    assert_eq!(
        InspectionError::NoDeviceFound.message(),
        "No camera was found.\n\nPlease check:\n1. the application is permitted to use the camera\n2. the camera cable is firmly connected\n3. no other application is using the camera"
    );
}

#[test]
fn outcome_labels_round_trip() {
    for o in [Outcome::Pass, Outcome::Warn, Outcome::Fail] {
        assert_eq!(Outcome::from_label(&o.label()), Some(o));
    }
    assert_eq!(Outcome::Pass.label(), "PASS");
    assert_eq!(Outcome::Warn.label(), "WARN");
    assert_eq!(Outcome::Fail.label(), "FAIL");
    assert_eq!(Outcome::from_label("Pass"), None);
    assert_eq!(Verdict::new(Outcome::Pass, 1_000_000, 0).unwrap().confidence_ppm, 1_000_000);
    assert_eq!(Verdict::new(Outcome::Pass, 1_000_001, 0), None);
    assert!(Verdict { outcome: Outcome::Fail, confidence_ppm: 0, processing_ms: u64::MAX }.is_valid());
}

#[test]
fn text_helpers_on_concrete_values() {
    assert_eq!(chars_of("a_ß"), vec!['a', '_', 'ß']);
    assert_eq!(string_of(&vec!['a', 'b', 'c', 'd'], 1, 3), "bc");
    assert_eq!(string_of(&vec!['a'], 1, 1), "");
    assert!(same_text("abc", "abc"));
    assert!(!same_text("abc", "abd"));
    assert!(!same_text("abc", "ab"));
    let mut s = String::from("n=");
    push_decimal(&mut s, 0);
    push_text(&mut s, ",");
    push_decimal(&mut s, 907);
    push_text(&mut s, ",");
    push_decimal(&mut s, u64::MAX);
    push_text(&mut s, ",");
    push_signed(&mut s, -15);
    push_text(&mut s, ",");
    push_signed(&mut s, i64::MIN);
    push_text(&mut s, ",");
    push_signed(&mut s, i64::MAX);
    assert_eq!(s, "n=0,907,18446744073709551615,-15,-9223372036854775808,9223372036854775807");
}

#[test]
fn scanned_code_binds_or_fails_the_session() {
    let mut s = Session::new("s".to_string(), None, 0);
    let (action, data) = bind_scanned_code(&mut s, "PRODUCT_001_BATCH_20240126", "t-1".to_string(), 1);
    assert_eq!(action, SessionAction::Store(Artifact::Target));
    assert_eq!(data.unwrap().batch_id, "BATCH_20240126");
    assert_eq!(s.target_id(), &Some("t-1".to_string()));
    assert_eq!(s.step(SessionEvent::Stored, 2), SessionAction::StatusChanged(Status::TargetBound));
    // A second scan is refused and changes nothing.
    let (again, data) = bind_scanned_code(&mut s, "A_B_C", "t-2".to_string(), 3);
    assert_eq!(again, SessionAction::Refused(Refusal::AlreadyComplete));
    assert!(data.is_some());
    assert_eq!(s.target_id(), &Some("t-1".to_string()));

    let mut bad = Session::new("s".to_string(), None, 0);
    let (action, data) = bind_scanned_code(&mut bad, "PRODUCT_001", "t-3".to_string(), 1);
    assert_eq!(action, SessionAction::StatusChanged(Status::Failed));
    assert_eq!(data, None);
    assert_eq!(bad.failure(), Some(InspectionError::MalformedCode));
    assert_eq!(bad.target_id(), &None);
}

#[test]
fn status_is_read_back_from_its_label() {
    for status in [
        Status::Created,
        Status::TargetBound,
        Status::ImageCaptured,
        Status::AiEvaluated,
        Status::HumanVerified,
        Status::Failed,
    ] {
        assert_eq!(Status::from_label(&status.label()), Some(status));
    }
    assert_eq!(Status::from_label("in_progress"), None);
    assert_eq!(Status::from_label("created"), None);
    assert_eq!(Status::from_label(""), None);
}

#[test]
fn refusals_map_to_categories_and_messages() {
    assert_eq!(Refusal::AlreadyComplete.error(), Some(InspectionError::StageAlreadyComplete));
    assert_eq!(
        Refusal::Terminal(InspectionError::PipelineUnavailable).error(),
        Some(InspectionError::PipelineUnavailable)
    );
    assert_eq!(Refusal::NotReady.error(), None);
    assert_eq!(Refusal::AwaitingStore.error(), None);
    assert_eq!(Refusal::NothingPending.error(), None);
    assert_eq!(Refusal::AlreadyComplete.message(), InspectionError::StageAlreadyComplete.message());
    assert_eq!(Refusal::Terminal(InspectionError::NoDeviceFound).message(), InspectionError::NoDeviceFound.message());
    assert_eq!(Refusal::NotReady.message(), "An earlier stage of the session has not been completed yet.");
    assert_eq!(Refusal::AwaitingStore.message(), "The session is waiting for the store to answer.");
    assert_eq!(Refusal::NothingPending.message(), "Nothing of the session is with the store.");
}

#[test]
fn step_outcome_shows_refusals_and_failures() {
    let ok = SessionAction::Store(Artifact::Verification);
    assert_eq!(step_outcome(ok, None), Ok(ok));
    assert_eq!(
        step_outcome(SessionAction::StatusChanged(Status::HumanVerified), None),
        Ok(SessionAction::StatusChanged(Status::HumanVerified))
    );
    assert_eq!(
        step_outcome(SessionAction::Refused(Refusal::AlreadyComplete), None),
        Err(InspectionError::StageAlreadyComplete.message())
    );
    assert_eq!(
        step_outcome(SessionAction::Report(InspectionError::PipelineUnavailable), None),
        Err(InspectionError::PipelineUnavailable.message())
    );
    assert_eq!(
        step_outcome(SessionAction::StatusChanged(Status::Failed), Some(InspectionError::PersistenceError)),
        Err(InspectionError::PersistenceError.message())
    );
    assert_eq!(
        step_outcome(SessionAction::StatusChanged(Status::Failed), None),
        Err("The session has failed.".to_string())
    );
}

#[test]
fn submission_is_allowed_only_with_a_stored_image() {
    let mut s = Session::new("s".to_string(), None, 0);
    assert!(!s.may_submit());
    s.step(SessionEvent::CodeAccepted, 1);
    s.step(SessionEvent::Stored, 1);
    assert!(!s.may_submit());
    s.step(SessionEvent::ImageProduced, 2);
    assert!(!s.may_submit());
    s.step(SessionEvent::Stored, 2);
    assert!(s.may_submit());
    // Not allowed means refused and unchanged; allowed means taken.
    s.step(SessionEvent::PipelineFailed, 3);
    assert_eq!(s.status(), Status::Failed);
    assert!(s.may_submit());
    let v = Verdict { outcome: Outcome::Pass, confidence_ppm: 1, processing_ms: 1 };
    s.step(SessionEvent::VerdictReceived(v), 4);
    assert!(!s.may_submit());
    s.step(SessionEvent::Stored, 4);
    assert!(s.may_submit());
    s.step(SessionEvent::VerificationSupplied, 5);
    s.step(SessionEvent::Stored, 5);
    assert!(!s.may_submit());
    assert_eq!(s.step(SessionEvent::PipelineFailed, 6), SessionAction::Refused(Refusal::AlreadyComplete));

    let mut failed = Session::new("s".to_string(), None, 0);
    failed.step(SessionEvent::CodeRejected, 1);
    assert!(!failed.may_submit());
}

#[test]
fn image_records_for_a_whole_capture() {
    let payloads = vec![("id-a".to_string(), 10usize), ("id-b".to_string(), 0), ("id-c".to_string(), 99)];
    let records = image_records("s-7", &payloads, 1234);
    assert_eq!(records.len(), 3);
    for (i, r) in records.iter().enumerate() {
        assert_eq!(*r, image_record(payloads[i].0.clone(), "s-7", i as u64, payloads[i].1, 1234));
    }
    assert_eq!(records[2].file_path, "images/s-7_2.jpg");
    assert_eq!(records[1].file_size, Some(0));
    assert!(image_records("s-7", &Vec::new(), 1).is_empty());
}

#[test]
fn result_request_needs_ordered_metrics() {
    let metrics = vec![("area".to_string(), "4".to_string()), ("count".to_string(), "2".to_string())];
    let r = result_request(
        "e".to_string(),
        "ie".to_string(),
        "OK".to_string(),
        Some("fine".to_string()),
        Some(vec!["f1".to_string()]),
        Some(metrics.clone()),
    )
    .unwrap();
    assert!(r.is_wf());
    assert_eq!(r.execution_id, "e");
    assert_eq!(r.item_execution_id, "ie");
    assert_eq!(r.judgment, "OK");
    assert_eq!(r.comment, Some("fine".to_string()));
    assert_eq!(r.evidence_file_ids, Some(vec!["f1".to_string()]));
    assert_eq!(r.metrics, Some(metrics.clone()));
    let reversed: Vec<(String, String)> = metrics.into_iter().rev().collect();
    assert_eq!(result_request("e".to_string(), "ie".to_string(), "OK".to_string(), None, None, Some(reversed)), None);
    assert!(result_request("e".to_string(), "ie".to_string(), "OK".to_string(), None, None, None).is_some());
}

#[test]
fn capture_answer_shows_the_error_that_ended_the_device_path() {
    let manual = InspectionError::ManualCaptureRequired.message();
    let cause = InspectionError::AllDevicesFailed.message();
    let with_detail = Some((InspectionError::AllDevicesFailed, Some("device busy".to_string())));
    assert_eq!(
        failure_text(InspectionError::ManualCaptureRequired, &with_detail),
        format!("{}\n\n{}\n(device busy)", manual, cause)
    );
    assert_eq!(
        failure_text(InspectionError::ManualCaptureRequired, &Some((InspectionError::AllDevicesFailed, None))),
        format!("{}\n\n{}", manual, cause)
    );
    assert_eq!(failure_text(InspectionError::ManualCaptureRequired, &None), manual);
    assert_eq!(
        capture_answer(CaptureOutcome::ManualCaptureRequired, Platform::Linux, None, &with_detail),
        Err(format!("{}\n\n{}\n(device busy)", manual, cause))
    );
    assert_eq!(
        capture_answer(CaptureOutcome::ExternalAppOpened(0), Platform::Linux, None, &with_detail),
        Ok("CAMERA_APP_OPENED".to_string())
    );
    assert_eq!(
        capture_answer(CaptureOutcome::Image, Platform::Linux, Some("data:x".to_string()), &None),
        Ok("data:x".to_string())
    );
    assert_eq!(
        capture_answer(CaptureOutcome::Image, Platform::Linux, None, &None),
        Err(InspectionError::EncodeFailed.message())
    );
}
