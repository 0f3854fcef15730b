use criminal_recognizer::application::{GlassmorphismApp, Screen, Subscriptions};
use criminal_recognizer::entities::criminal::Model;
use criminal_recognizer::python_wrapper;
use criminal_recognizer::python_wrapper::{
    on_worker_event, App, ConsoleView, WorkerAction, WorkerEvent,
};
use criminal_recognizer::webcam_task::ArbiterState;
use criminal_recognizer::workflow::{NotFoundReason, WorkflowState};
use criminal_recognizer::{Effect, FileKind, Message, Page};

fn s(text: &str) -> String {
    text.to_string()
}

fn record(id: u32) -> Model {
    Model {
        criminal_id: id,
        name: s("Ada"),
        fathers_name: None,
        date_of_arrest: 0,
        date_of_arrest_nanos: 0,
        last_seen: None,
        no_of_crimes: 1,
        arrested_location: None,
    }
}

fn started() -> GlassmorphismApp {
    let (mut app, _) = GlassmorphismApp::new(true, s("mysql://localhost/db"));
    assert_eq!(app.update(Message::DbConnected(Ok(()))), Effect::Nothing);
    app
}

#[test]
fn application_starts_on_the_menu_and_asks_for_store_and_engine() {
    let (app, effects) = GlassmorphismApp::new(true, s("mysql://localhost/db"));
    assert_eq!(app.current_page(), Page::MainMenu);
    assert_eq!(app.title(), "Criminal Recognizer");
    assert_eq!(
        effects,
        vec![
            Effect::ConnectDb(s("mysql://localhost/db")),
            Effect::Delay(200, Message::InitializePython)
        ]
    );
    assert_eq!(app.subscription(), Subscriptions { engine_output: true, webcam_ticks: false });
    assert!(matches!(app.view(), Screen::MainMenu(_)));
    let (app, _) = GlassmorphismApp::new(false, s("x"));
    assert_eq!(app.subscription(), Subscriptions { engine_output: false, webcam_ticks: false });
}

#[test]
fn image_workflow_goes_to_found_only_after_the_identity_event() {
    let mut app = started();
    app.update(Message::GoTo(Page::ImageFind));
    assert_eq!(app.update(Message::OpenFilePicker), Effect::PickFiles(FileKind::Images));
    assert_eq!(
        app.update(Message::FilesSelected(vec![s("/a/b.jpg")])),
        Effect::Send(s("identify image /a/b.jpg"))
    );
    assert_eq!(*app.image_find().state(), WorkflowState::Requesting);
    // Nothing but the engine's answer moves the workflow on.
    app.update(Message::IdentityDataLoaded(record(42)));
    app.update(Message::TickWebcam);
    app.update(Message::NextImage);
    app.update(Message::SaveResult(Ok(42)));
    assert_eq!(*app.image_find().state(), WorkflowState::Requesting);
    assert_eq!(app.update(Message::PythonOutput(s("identity 42"))), Effect::LookupRecord(42));
    assert_eq!(*app.image_find().state(), WorkflowState::Identifying);
    app.update(Message::IdentityDataLoaded(record(42)));
    assert_eq!(*app.image_find().state(), WorkflowState::Found(record(42)));
    assert!(matches!(app.view(), Screen::ImageFind(_)));
}

#[test]
fn image_workflow_stays_requesting_while_the_engine_is_silent() {
    let (mut app, _) = GlassmorphismApp::new(true, s("db"));
    assert_eq!(app.update(Message::InitializePython), Effect::Send(s("start")));
    app.update(Message::DbConnected(Ok(())));
    app.update(Message::GoTo(Page::ImageFind));
    assert_eq!(
        app.update(Message::FilesSelected(vec![s("x.jpg")])),
        Effect::Send(s("identify image x.jpg"))
    );
    for _ in 0..1000 {
        assert_eq!(app.update(Message::TickWebcam), Effect::Nothing);
        assert_eq!(app.update(Message::Noop), Effect::Nothing);
        assert_eq!(app.update(Message::NextImage), Effect::Nothing);
        assert_eq!(*app.image_find().state(), WorkflowState::Requesting);
    }
    assert!(app.image_find().is_identifying());
    assert!(!app.image_find().not_found());
}

#[test]
fn webcam_ten_unknown_replies_end_in_not_found_with_the_device_closed() {
    let mut app = started();
    app.update(Message::GoTo(Page::WebcamFind));
    assert_eq!(app.update(Message::ToggleWebcam(true)), Effect::OpenPreview);
    assert_eq!(app.subscription(), Subscriptions { engine_output: true, webcam_ticks: true });
    app.update(Message::PreviewOpened(true));
    for tick in 1..=10u32 {
        assert_eq!(
            app.update(Message::TickWebcam),
            Effect::CaptureFrame { release_preview: true }
        );
        assert_eq!(
            app.update(Message::WebcamFrameCaptured(s("/cap/current_scan.jpg"))),
            Effect::Send(s("identify image /cap/current_scan.jpg"))
        );
        let effect = app.update(Message::PythonOutput(s("unknown")));
        assert_eq!(app.webcam_find().unknown_count(), tick);
        assert_eq!(app.webcam_find().device(), ArbiterState::Closed);
        if tick < 10 {
            assert_eq!(effect, Effect::OpenPreview);
            app.update(Message::PreviewOpened(true));
        } else {
            assert_eq!(effect, Effect::Nothing);
        }
    }
    assert_eq!(app.webcam_find().unknown_count(), 10);
    assert_eq!(*app.webcam_find().state(), WorkflowState::NotFound(NotFoundReason::NoMatch));
    assert_eq!(app.webcam_find().device(), ArbiterState::Closed);
    assert_eq!(app.subscription(), Subscriptions { engine_output: true, webcam_ticks: false });
    assert_eq!(app.update(Message::TickWebcam), Effect::Nothing);
}

#[test]
fn add_command_is_acknowledged_by_added() {
    let mut app = started();
    app.update(Message::GoTo(Page::Registry));
    app.update(Message::NameChanged(s("Ada")));
    assert!(matches!(app.update(Message::SubmitForm), Effect::SaveRecord(_)));
    assert_eq!(
        app.update(Message::DatabaseSaved(7, vec![s("/p1.jpg"), s("/p2.jpg")])),
        Effect::Send(s("add 7 /p1.jpg&/p2.jpg"))
    );
    assert!(app.registry_state().is_saving());
    assert_eq!(app.update(Message::PythonOutput(s("added 7"))), Effect::Nothing);
    assert!(!app.registry_state().is_saving());
    assert!(app.registry_state().save_success());
    // A second acknowledgement finds nothing to acknowledge.
    app.update(Message::ResetForm);
    app.update(Message::PythonOutput(s("added 7")));
    assert!(!app.registry_state().save_success());
}

#[test]
fn lines_outside_a_request_are_logged_and_change_nothing() {
    let mut app = started();
    assert_eq!(app.update(Message::PythonOutput(s("model loaded"))), Effect::Log(s("model loaded")));
    assert_eq!(app.update(Message::PythonOutput(s("identity 3"))), Effect::Nothing);
    app.update(Message::GoTo(Page::ImageFind));
    assert_eq!(app.update(Message::PythonOutput(s("unknown"))), Effect::Log(s("unknown")));
    assert_eq!(app.update(Message::PythonOutput(s("identity 3"))), Effect::Nothing);
    assert_eq!(*app.image_find().state(), WorkflowState::Idle);
    // While the store is asked, an unrecognised line is no answer either.
    app.update(Message::FilesSelected(vec![s("x.jpg")]));
    app.update(Message::PythonOutput(s("identity 3")));
    assert_eq!(app.update(Message::PythonOutput(s("unknown"))), Effect::Log(s("unknown")));
    assert_eq!(*app.image_find().state(), WorkflowState::Identifying);
}

#[test]
fn an_unrecognised_answer_to_a_request_means_no_match() {
    let mut app = started();
    app.update(Message::GoTo(Page::ImageFind));
    app.update(Message::FilesSelected(vec![s("x.jpg")]));
    assert_eq!(app.update(Message::PythonOutput(s("unknown"))), Effect::Nothing);
    assert_eq!(*app.image_find().state(), WorkflowState::NotFound(NotFoundReason::NoMatch));
    app.update(Message::GoTo(Page::VideoFind));
    app.update(Message::VideoOpened(s("/v.mp4")));
    assert_eq!(app.update(Message::PythonOutput(s("  unknown face "))), Effect::Nothing);
    assert_eq!(*app.video_find().state(), WorkflowState::NotFound(NotFoundReason::NoMatch));
}

#[test]
fn other_lines_are_logged_and_leave_the_request_outstanding() {
    let mut app = started();
    app.update(Message::GoTo(Page::ImageFind));
    app.update(Message::FilesSelected(vec![s("x.jpg")]));
    for line in ["loading", "x", "", "   ", "identity", "identity   ", "added", "Unknown", "é 1"] {
        assert_eq!(app.update(Message::PythonOutput(s(line))), Effect::Log(s(line)));
        assert_eq!(*app.image_find().state(), WorkflowState::Requesting);
    }
    app.update(Message::GoTo(Page::VideoFind));
    app.update(Message::VideoOpened(s("/v.mp4")));
    assert_eq!(app.update(Message::PythonOutput(s("x"))), Effect::Log(s("x")));
    assert_eq!(*app.video_find().state(), WorkflowState::Requesting);
    app.update(Message::GoTo(Page::WebcamFind));
    app.update(Message::ToggleWebcam(true));
    app.update(Message::PreviewOpened(true));
    app.update(Message::TickWebcam);
    app.update(Message::WebcamFrameCaptured(s("/f.jpg")));
    assert_eq!(app.update(Message::PythonOutput(s("no face"))), Effect::Log(s("no face")));
    assert_eq!(app.webcam_find().unknown_count(), 0);
    assert_eq!(*app.webcam_find().state(), WorkflowState::Requesting);
}

#[test]
fn navigation_drops_every_identification() {
    let mut app = started();
    app.update(Message::GoTo(Page::ImageFind));
    app.update(Message::FilesSelected(vec![s("x.jpg")]));
    assert_eq!(app.update(Message::GoTo(Page::WebcamFind)), Effect::Nothing);
    assert_eq!(*app.image_find().state(), WorkflowState::Idle);
    assert!(app.image_find().selected_image().is_empty());
    // The late answer belongs to no one.
    assert_eq!(app.update(Message::PythonOutput(s("identity 5"))), Effect::Nothing);
    assert_eq!(*app.webcam_find().state(), WorkflowState::Idle);
    app.update(Message::ToggleWebcam(true));
    app.update(Message::PreviewOpened(true));
    assert_eq!(app.update(Message::GoTo(Page::MainMenu)), Effect::ClosePreview);
    assert!(!app.webcam_find().is_webcam_on());
    assert_eq!(app.webcam_find().device(), ArbiterState::Closed);
    // Scanning cannot be switched on from another screen.
    assert_eq!(app.update(Message::ToggleWebcam(true)), Effect::Nothing);
    assert!(!app.webcam_find().is_webcam_on());
}

#[test]
fn at_most_one_screen_awaits_the_engine() {
    let mut app = started();
    let pages = [Page::ImageFind, Page::VideoFind, Page::WebcamFind, Page::Registry, Page::MainMenu];
    let mut step = 0usize;
    while step < 400 {
        let page = pages[(step * 7 + step / 5) % pages.len()];
        match step % 8 {
            0 => {
                app.update(Message::GoTo(page));
            }
            1 => {
                app.update(Message::FilesSelected(vec![s("/x.jpg")]));
            }
            2 => {
                app.update(Message::VideoOpened(s("/v.mp4")));
            }
            3 => {
                app.update(Message::ToggleWebcam(true));
                app.update(Message::PreviewOpened(true));
            }
            4 => {
                app.update(Message::TickWebcam);
                app.update(Message::WebcamFrameCaptured(s("/f.jpg")));
            }
            5 => {
                app.update(Message::PythonOutput(s("identity 1")));
            }
            6 => {
                app.update(Message::IdentityError(s("x")));
            }
            _ => {
                app.update(Message::PythonOutput(s("unknown")));
            }
        }
        let awaiting = [
            app.image_find().state().is_awaiting_engine(),
            app.video_find().state().is_awaiting_engine(),
            app.webcam_find().state().is_awaiting_engine(),
        ];
        assert!(awaiting.iter().filter(|a| **a).count() <= 1);
        assert!(app.webcam_find().unknown_count() <= 10);
        step += 1;
    }
}

#[test]
fn nothing_is_written_to_an_engine_that_does_not_run() {
    let (mut app, _) = GlassmorphismApp::new(false, s("db"));
    assert_eq!(app.update(Message::InitializePython), Effect::Nothing);
    assert_eq!(app.update(Message::PythonInput(s("identify image /a.jpg"))), Effect::Nothing);
    app.update(Message::GoTo(Page::ImageFind));
    assert_eq!(app.update(Message::FilesSelected(vec![s("x.jpg")])), Effect::Nothing);
    assert_eq!(*app.image_find().state(), WorkflowState::Requesting);
    assert_eq!(app.update(Message::DatabaseSaved(1, vec![])), Effect::Nothing);
}

#[test]
fn a_request_asked_for_by_hand_is_owned_by_its_screen() {
    let mut app = started();
    assert_eq!(
        app.update(Message::IdentifyCriminalImage(s("/a/b.jpg"))),
        Effect::Send(s("identify image /a/b.jpg"))
    );
    assert!(app.image_find().is_identifying());
    assert_eq!(*app.image_find().state(), WorkflowState::Requesting);
    // Nothing else is written until the answer is in.
    assert_eq!(app.update(Message::IdentifyCriminalImage(s("/c.jpg"))), Effect::Nothing);
    assert_eq!(app.update(Message::IdentifyCriminalVideo(s("/c.mp4"))), Effect::Nothing);
    assert_eq!(app.update(Message::PythonInput(s("identify image /c.jpg"))), Effect::Nothing);
    assert_eq!(app.update(Message::PythonInput(s("start"))), Effect::Nothing);
    assert_eq!(app.update(Message::VideoOpened(s("/c.mp4"))), Effect::Nothing);
    assert_eq!(app.update(Message::ToggleWebcam(true)), Effect::Nothing);
    // The answer goes to the screen that asked, whichever screen is on.
    assert_eq!(app.update(Message::PythonOutput(s("identity 42"))), Effect::LookupRecord(42));
    assert_eq!(*app.image_find().state(), WorkflowState::Identifying);
    app.update(Message::IdentityDataLoaded(record(42)));
    assert_eq!(*app.image_find().state(), WorkflowState::Found(record(42)));

    assert_eq!(
        app.update(Message::IdentifyCriminalVideo(s("/a.mp4"))),
        Effect::Send(s("identify video /a.mp4"))
    );
    assert!(app.video_find().is_scanning());
    assert_eq!(app.update(Message::PythonOutput(s("unknown"))), Effect::Nothing);
    assert_eq!(*app.video_find().state(), WorkflowState::NotFound(NotFoundReason::NoMatch));

    assert_eq!(
        app.update(Message::PythonInput(s("identify   video /v.mp4 now"))),
        Effect::Send(s("identify video /v.mp4"))
    );
    assert_eq!(*app.video_find().state(), WorkflowState::Requesting);
    app.update(Message::IdentityError(s("gone")));
    assert_eq!(
        app.update(Message::PythonInput(s("identify image /i.jpg"))),
        Effect::Send(s("identify image /i.jpg"))
    );
    assert_eq!(*app.image_find().state(), WorkflowState::Requesting);
    assert_eq!(app.update(Message::PythonInput(s("hello"))), Effect::Nothing);
}

#[test]
fn a_request_by_hand_and_a_selection_never_overlap() {
    let mut app = started();
    app.update(Message::GoTo(Page::ImageFind));
    assert_eq!(
        app.update(Message::IdentifyCriminalImage(s("/a.jpg"))),
        Effect::Send(s("identify image /a.jpg"))
    );
    assert_eq!(app.update(Message::FilesSelected(vec![s("/b.jpg")])), Effect::Nothing);
    assert_eq!(*app.image_find().state(), WorkflowState::Requesting);
    app.update(Message::PythonOutput(s("unknown")));
    assert_eq!(
        app.update(Message::FilesSelected(vec![s("/b.jpg")])),
        Effect::Send(s("identify image /b.jpg"))
    );
    // While the camera scans, nothing is asked for by hand.
    app.update(Message::GoTo(Page::WebcamFind));
    app.update(Message::ToggleWebcam(true));
    assert_eq!(app.update(Message::IdentifyCriminalImage(s("/a.jpg"))), Effect::Nothing);
    assert_eq!(app.update(Message::PythonInput(s("identify video /a.mp4"))), Effect::Nothing);
    assert_eq!(*app.image_find().state(), WorkflowState::Idle);
    // The warm-up and a notice typed by hand wait for an outstanding request only.
    assert_eq!(app.update(Message::PythonInput(s("start"))), Effect::Send(s("start")));
    assert_eq!(app.update(Message::PythonInput(s("add 3 a&b"))), Effect::Send(s("add 3 a&b")));
}

#[test]
fn file_picker_and_files_go_to_the_screen_that_is_on() {
    let mut app = started();
    assert_eq!(app.update(Message::OpenFilePicker), Effect::Nothing);
    app.update(Message::GoTo(Page::Registry));
    assert_eq!(app.update(Message::OpenFilePicker), Effect::PickFiles(FileKind::Images));
    app.update(Message::FilesSelected(vec![s("a.jpg")]));
    assert_eq!(app.registry_state().selected_images(), &vec![s("a.jpg")]);
    app.update(Message::GoTo(Page::VideoFind));
    assert_eq!(app.update(Message::OpenFilePicker), Effect::PickFiles(FileKind::Videos));
    assert_eq!(
        app.update(Message::FilesSelected(vec![s("/v.mp4")])),
        Effect::OpenVideo { path: s("/v.mp4"), url: s("file:///v.mp4") }
    );
    // The form keeps what was attached.
    assert_eq!(app.registry_state().selected_images(), &vec![s("a.jpg")]);
    assert!(matches!(app.view(), Screen::VideoFind(_)));
    app.update(Message::GoTo(Page::Dashboard));
    assert_eq!(app.view(), Screen::Dashboard);
    app.update(Message::GoTo(Page::SignIn));
    assert_eq!(app.view(), Screen::Placeholder);
}

#[test]
fn a_failed_write_leaves_the_request_outstanding() {
    let mut app = started();
    app.update(Message::GoTo(Page::ImageFind));
    app.update(Message::FilesSelected(vec![s("x.jpg")]));
    assert_eq!(app.update(Message::SendFailed(s("Broken pipe"))), Effect::Log(s("Broken pipe")));
    assert_eq!(*app.image_find().state(), WorkflowState::Requesting);
    assert_eq!(app.update(Message::FilesSelected(vec![s("y.jpg")])), Effect::Nothing);
    // The operator gives the request up by leaving the screen.
    app.update(Message::GoTo(Page::MainMenu));
    assert_eq!(*app.image_find().state(), WorkflowState::Idle);
}

#[test]
fn store_connection_failure_leaves_the_store_unasked() {
    let (mut app, _) = GlassmorphismApp::new(true, s("db"));
    app.update(Message::DbConnected(Err(s("refused"))));
    app.update(Message::GoTo(Page::ImageFind));
    app.update(Message::FilesSelected(vec![s("x.jpg")]));
    assert_eq!(app.update(Message::PythonOutput(s("identity 3"))), Effect::Nothing);
    assert_eq!(*app.image_find().state(), WorkflowState::NotFound(NotFoundReason::LookupError));
}

#[test]
fn console_keeps_the_last_fifty_lines() {
    let mut console = App::default();
    for n in 0..120u32 {
        assert_eq!(console.update(python_wrapper::Message::PythonOutput(format!("line {}", n))), None);
    }
    let expected: Vec<String> = (70..120u32).map(|n| format!("line {}", n)).collect();
    assert_eq!(console.view().output_text, expected.join("\n"));
    let mut short = App::default();
    short.update(python_wrapper::Message::PythonOutput(s("a")));
    short.update(python_wrapper::Message::PythonOutput(s("b")));
    assert_eq!(
        short.view(),
        ConsoleView { output_text: s("a\nb"), input_text: s(""), running: false }
    );
}

#[test]
fn console_sends_input_only_once_the_process_is_ready() {
    let mut console = App::default();
    assert!(!console.subscription());
    console.update(python_wrapper::Message::InputChanged(s("start")));
    assert_eq!(console.update(python_wrapper::Message::SendInput), None);
    assert_eq!(console.view().input_text, "start");
    console.update(python_wrapper::Message::StartPython);
    assert!(console.subscription());
    assert!(console.view().running);
    console.update(python_wrapper::Message::PythonReady);
    assert_eq!(console.update(python_wrapper::Message::SendInput), Some(s("start\n")));
    assert_eq!(console.view().input_text, "");
    assert_eq!(console.update(python_wrapper::Message::SendInput), Some(s("\n")));
}

#[test]
fn console_worker_logs_diagnostics_and_reports_failures() {
    assert_eq!(on_worker_event(WorkerEvent::OutputLine(s("hi"))), WorkerAction::Deliver(s("hi")));
    assert_eq!(
        on_worker_event(WorkerEvent::DiagnosticLine(s("boom"))),
        WorkerAction::Log(s("[ERROR] boom"))
    );
    assert_eq!(
        on_worker_event(WorkerEvent::LaunchFailed(s("No such file"))),
        WorkerAction::Report(s("Failed to start Python: No such file"))
    );
    assert_eq!(
        on_worker_event(WorkerEvent::WriteFailed(s("Broken pipe"))),
        WorkerAction::ReportThenStop(s("Error writing to stdin: Broken pipe"))
    );
}
