use criminal_recognizer::components::image_viewer::{next_index, prev_index, ViewerContent};
use criminal_recognizer::components::GlassImageViewer;
use criminal_recognizer::entities::criminal::{before_save, LAST_SEEN_LEAD_SECONDS};
use criminal_recognizer::webcam_task::{
    capture_dir, capture_frame, capture_path, ArbiterState, CaptureFailure, CaptureStart,
    DeviceArbiter,
};
use criminal_recognizer::workflow::{AttemptCounter, NotFoundReason, WorkflowState, MAX_ATTEMPTS};

fn s(text: &str) -> String {
    text.to_string()
}

#[test]
fn arbiter_starts_closed() {
    let arbiter = DeviceArbiter::new();
    assert_eq!(arbiter.state(), ArbiterState::Closed);
    assert!(arbiter.preview_needs_device());
}

#[test]
fn enable_preview_opens_only_if_the_device_opened() {
    let mut arbiter = DeviceArbiter::new();
    assert!(!arbiter.enable_preview(false));
    assert_eq!(arbiter.state(), ArbiterState::Closed);
    assert!(arbiter.enable_preview(true));
    assert_eq!(arbiter.state(), ArbiterState::PreviewOpen);
    assert!(!arbiter.preview_needs_device());
    // Already open: nothing changes, whatever is reported.
    assert!(arbiter.enable_preview(false));
    assert_eq!(arbiter.state(), ArbiterState::PreviewOpen);
}

#[test]
fn disable_preview_releases_only_a_running_preview() {
    let mut arbiter = DeviceArbiter::new();
    assert!(!arbiter.disable_preview());
    arbiter.enable_preview(true);
    assert!(arbiter.disable_preview());
    assert_eq!(arbiter.state(), ArbiterState::Closed);
    arbiter.one_shot_capture();
    assert!(!arbiter.disable_preview());
    assert_eq!(arbiter.state(), ArbiterState::CaptureInFlight);
}

#[test]
fn capture_forces_the_preview_to_let_go() {
    let mut arbiter = DeviceArbiter::new();
    arbiter.enable_preview(true);
    assert_eq!(arbiter.one_shot_capture(), CaptureStart::ReleasePreviewThenCapture);
    assert_eq!(arbiter.state(), ArbiterState::CaptureInFlight);
    assert_eq!(arbiter.one_shot_capture(), CaptureStart::Refused);
    assert!(!arbiter.enable_preview(true));
    assert_eq!(arbiter.state(), ArbiterState::CaptureInFlight);
    assert!(arbiter.capture_done());
    assert_eq!(arbiter.state(), ArbiterState::Closed);
    assert!(!arbiter.capture_done());
    assert_eq!(arbiter.one_shot_capture(), CaptureStart::Capture);
}

#[test]
fn arbiter_never_holds_two_leases_in_any_order_of_requests() {
    // Every sequence of five requests, each one of six kinds.
    let mut code = 0u32;
    while code < 6u32.pow(5) {
        let mut arbiter = DeviceArbiter::new();
        let mut rest = code;
        for _ in 0..5 {
            let before = arbiter.state();
            match rest % 6 {
                0 => {
                    arbiter.enable_preview(true);
                }
                1 => {
                    arbiter.enable_preview(false);
                }
                2 => {
                    arbiter.disable_preview();
                }
                3 => {
                    arbiter.one_shot_capture();
                    assert_eq!(arbiter.state(), ArbiterState::CaptureInFlight);
                }
                4 => {
                    arbiter.capture_done();
                    assert_ne!(arbiter.state(), ArbiterState::CaptureInFlight);
                }
                _ => {
                    let needed = arbiter.preview_needs_device();
                    assert_eq!(needed, before == ArbiterState::Closed);
                }
            }
            let state = arbiter.state();
            let preview = state == ArbiterState::PreviewOpen;
            let capture = state == ArbiterState::CaptureInFlight;
            assert!(!(preview && capture));
            assert_eq!(state == ArbiterState::Closed, !preview && !capture);
            rest /= 6;
        }
        code += 1;
    }
}

#[test]
fn capture_reports_the_path_only_if_every_step_worked() {
    assert_eq!(capture_frame(None, "/srv/app"), "/srv/app/webframe_capture/current_scan.jpg");
    for step in [
        CaptureFailure::Open,
        CaptureFailure::Stream,
        CaptureFailure::Frame,
        CaptureFailure::Decode,
        CaptureFailure::Save,
    ] {
        assert_eq!(capture_frame(Some(step), "/srv/app"), "");
    }
}

#[test]
fn capture_path_lies_under_the_project_directory() {
    for (project, dir) in [
        ("/srv/app", "/srv/app/webframe_capture"),
        ("/srv/app/", "/srv/app/webframe_capture"),
        ("", "webframe_capture"),
        (".", "./webframe_capture"),
        ("/", "/webframe_capture"),
    ] {
        assert_eq!(capture_dir(project), dir);
        let path = capture_path(project);
        assert_eq!(path, format!("{}/current_scan.jpg", dir));
        assert!(!path.is_empty());
        assert!(path.ends_with("webframe_capture/current_scan.jpg"));
        let mut expected = std::path::PathBuf::from(project);
        expected.push("webframe_capture");
        expected.push("current_scan.jpg");
        assert_eq!(std::path::Path::new(&path), expected.as_path());
        assert_eq!(capture_frame(None, project), path);
    }
}

#[test]
fn attempt_counter_stops_at_its_bound() {
    assert_eq!(MAX_ATTEMPTS, 10);
    let mut counter = AttemptCounter::new();
    assert_eq!(counter.value(), 0);
    for expected in 1..=10u32 {
        assert!(!counter.is_exhausted());
        let exhausted = counter.record_miss();
        assert_eq!(counter.value(), expected);
        assert_eq!(exhausted, expected == 10);
    }
    assert!(counter.is_exhausted());
    assert!(counter.record_miss());
    assert_eq!(counter.value(), 10);
    counter.reset();
    assert_eq!(counter.value(), 0);
    assert!(!counter.is_exhausted());
}

#[test]
fn workflow_state_predicates() {
    assert!(WorkflowState::Requesting.is_awaiting_engine());
    assert!(!WorkflowState::Identifying.is_awaiting_engine());
    assert!(WorkflowState::Requesting.busy());
    assert!(WorkflowState::Identifying.busy());
    assert!(!WorkflowState::Idle.busy());
    assert!(!WorkflowState::AwaitingInput.busy());
    assert!(WorkflowState::NotFound(NotFoundReason::NoMatch).terminal());
    assert!(!WorkflowState::Requesting.terminal());
    assert_eq!(WorkflowState::Requesting.reason_of_miss(), NotFoundReason::NoMatch);
    assert_eq!(WorkflowState::Identifying.reason_of_miss(), NotFoundReason::LookupError);
    assert_eq!(WorkflowState::Idle.record(), None);
}

#[test]
fn indices_step_in_a_circle() {
    assert_eq!(next_index(0, 3), 1);
    assert_eq!(next_index(1, 3), 2);
    assert_eq!(next_index(2, 3), 0);
    assert_eq!(prev_index(0, 3), 2);
    assert_eq!(prev_index(2, 3), 1);
    assert_eq!(next_index(0, 1), 0);
    assert_eq!(prev_index(0, 1), 0);
    assert_eq!(next_index(0, 0), 0);
    assert_eq!(prev_index(0, 0), 0);
    for len in 1..6usize {
        for index in 0..len {
            assert_eq!(next_index(index, len), (index + 1) % len);
            assert_eq!(prev_index(next_index(index, len), len), index);
            assert_eq!(next_index(prev_index(index, len), len), index);
        }
    }
}

#[test]
fn viewer_shows_the_image_at_its_index() {
    let viewer = GlassImageViewer::new(vec![s("a.jpg"), s("b.jpg")], 1);
    assert_eq!(viewer.view(), ViewerContent::Image(s("b.jpg")));
    assert_eq!(viewer.current_index(), 1);
    assert_eq!(viewer.images(), &vec![s("a.jpg"), s("b.jpg")]);
    let past = GlassImageViewer::new(vec![s("a.jpg")], 1);
    assert_eq!(past.view(), ViewerContent::NoImageData);
    let empty = GlassImageViewer::new(vec![], 0);
    assert_eq!(empty.view(), ViewerContent::NoImageData);
}

#[test]
fn last_seen_defaults_to_sixteen_hours_before_the_arrest() {
    assert_eq!(LAST_SEEN_LEAD_SECONDS, 16 * 3600);
    assert_eq!(before_save(Some(5), Some(1_000_000), 2_000_000), 5);
    assert_eq!(before_save(None, Some(1_000_000), 2_000_000), 1_000_000 - 57_600);
    assert_eq!(before_save(None, None, 2_000_000), 2_000_000 - 57_600);
    assert_eq!(before_save(None, Some(0), 9), -57_600);
    assert_eq!(before_save(None, Some(i64::MIN + 57_600), 0), i64::MIN);
}
