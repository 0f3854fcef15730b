use criminal_recognizer::components::GlassImageViewer;
use criminal_recognizer::entities::criminal::Model;
use criminal_recognizer::entities::criminal_photo;
use criminal_recognizer::pages::common::{name_photo_files, parse_record_id};
use criminal_recognizer::pages::criminal_image_find::{ImageDetails, ImageSource, ImageStatus};
use criminal_recognizer::pages::criminal_registry::{RegistryFooter, RegistryImages};
use criminal_recognizer::pages::criminal_video_find::{
    video_details, VideoDetails, VideoSource, VideoStatus,
};
use criminal_recognizer::pages::main_menu::MenuEntry;
use criminal_recognizer::pages::{ImageFindPage, MainMenu, RegistryPage, VideoFindPage};
use criminal_recognizer::workflow::{NotFoundReason, WorkflowState};
use criminal_recognizer::{Effect, FileKind, Message, NewRecord, Page, PhotoFile};

fn s(text: &str) -> String {
    text.to_string()
}

fn record(id: u32) -> Model {
    Model {
        criminal_id: id,
        name: s("Ada"),
        fathers_name: None,
        date_of_arrest: 1_700_000_000,
        date_of_arrest_nanos: 0,
        last_seen: Some(1_699_942_400),
        no_of_crimes: 3,
        arrested_location: Some(s("Docks")),
    }
}

fn photo(id: u32, owner: u32, bytes: &[u8]) -> criminal_photo::Model {
    criminal_photo::Model { photo_id: id, criminal_id: owner, photo: bytes.to_vec() }
}

#[test]
fn record_id_is_the_number_named_or_zero() {
    assert_eq!(parse_record_id("42"), 42);
    assert_eq!(parse_record_id("+42"), 42);
    assert_eq!(parse_record_id("unknown"), 0);
    assert_eq!(parse_record_id(""), 0);
    assert_eq!(parse_record_id("-3"), 0);
    assert_eq!(parse_record_id("4294967296"), 0);
}

#[test]
fn photo_files_are_named_by_person_and_place() {
    let files = name_photo_files(
        "temp_identify",
        vec![photo(11, 7, b"one"), photo(12, 7, b""), photo(13, 8, b"three")],
    );
    assert_eq!(
        files,
        vec![
            PhotoFile { path: s("temp_identify/suspect_7_0.jpg"), bytes: b"one".to_vec() },
            PhotoFile { path: s("temp_identify/suspect_7_1.jpg"), bytes: vec![] },
            PhotoFile { path: s("temp_identify/suspect_8_2.jpg"), bytes: b"three".to_vec() },
        ]
    );
    assert_eq!(name_photo_files("d", vec![]), vec![]);
}

#[test]
fn image_page_starts_idle() {
    let page = ImageFindPage::default();
    assert_eq!(*page.state(), WorkflowState::Idle);
    assert!(page.selected_image().is_empty());
    assert!(!page.is_identifying());
    assert!(!page.show_details());
    assert!(!page.not_found());
    assert_eq!(page.identified_data(), None);
    let shown = page.view();
    assert_eq!(shown.left, ImageSource::NoTarget);
    assert_eq!(shown.right, ImageStatus::AwaitingInput);
}

#[test]
fn image_page_walks_from_input_to_found() {
    let mut page = ImageFindPage::default();
    assert_eq!(page.update(Message::OpenFilePicker, true), Effect::PickFiles(FileKind::Images));
    assert_eq!(*page.state(), WorkflowState::AwaitingInput);
    assert_eq!(
        page.update(Message::FilesSelected(vec![s("/a/b.jpg"), s("/a/c.jpg")]), true),
        Effect::Send(s("identify image /a/b.jpg"))
    );
    assert_eq!(*page.state(), WorkflowState::Requesting);
    assert_eq!(page.selected_image(), &vec![s("/a/b.jpg"), s("/a/c.jpg")]);
    assert!(page.is_identifying());
    assert_eq!(page.view().right, ImageStatus::Loading);
    assert_eq!(
        page.view().left,
        ImageSource::Viewer(GlassImageViewer::new(vec![s("/a/b.jpg"), s("/a/c.jpg")], 0))
    );
    assert_eq!(page.update(Message::Identity(s("42")), true), Effect::LookupRecord(42));
    assert_eq!(*page.state(), WorkflowState::Identifying);
    assert_eq!(page.update(Message::IdentityDataLoaded(record(42)), true), Effect::Nothing);
    assert_eq!(*page.state(), WorkflowState::Found(record(42)));
    assert!(page.show_details());
    assert_eq!(page.identified_data(), Some(&record(42)));
    assert_eq!(
        page.view().right,
        ImageStatus::Details(ImageDetails {
            criminal_id: s("42"),
            name: s("Ada"),
            fathers_name: s("N/A"),
            violations: s("3"),
        })
    );
}

#[test]
fn image_page_found_only_after_the_engine_named_someone() {
    let mut page = ImageFindPage::default();
    page.update(Message::FilesSelected(vec![s("x.jpg")]), true);
    // The record arrives before the engine said anything: ignored.
    assert_eq!(page.update(Message::IdentityDataLoaded(record(1)), true), Effect::Nothing);
    assert_eq!(*page.state(), WorkflowState::Requesting);
    page.update(Message::Identity(s("1")), true);
    assert_eq!(*page.state(), WorkflowState::Identifying);
    // A second name while the store is asked: ignored.
    assert_eq!(page.update(Message::Identity(s("2")), true), Effect::Nothing);
    assert_eq!(*page.state(), WorkflowState::Identifying);
    page.update(Message::IdentityDataLoaded(record(1)), true);
    assert_eq!(*page.state(), WorkflowState::Found(record(1)));
    // Late answers change nothing.
    assert_eq!(page.update(Message::Identity(s("9")), true), Effect::Nothing);
    assert_eq!(page.update(Message::IdentityError(s("late")), true), Effect::Nothing);
    assert_eq!(*page.state(), WorkflowState::Found(record(1)));
}

#[test]
fn image_page_does_not_pipeline_requests() {
    let mut page = ImageFindPage::default();
    page.update(Message::FilesSelected(vec![s("first.jpg")]), true);
    assert_eq!(page.update(Message::FilesSelected(vec![s("second.jpg")]), true), Effect::Nothing);
    assert_eq!(page.update(Message::OpenFilePicker, true), Effect::Nothing);
    assert_eq!(page.selected_image(), &vec![s("first.jpg")]);
    assert_eq!(*page.state(), WorkflowState::Requesting);
    page.update(Message::Identity(s("5")), true);
    assert_eq!(page.update(Message::FilesSelected(vec![s("third.jpg")]), true), Effect::Nothing);
    assert_eq!(*page.state(), WorkflowState::Identifying);
}

#[test]
fn image_page_not_found_tells_engine_from_store() {
    let mut page = ImageFindPage::default();
    page.update(Message::FilesSelected(vec![s("x.jpg")]), true);
    page.update(Message::IdentityError(s("unknown")), true);
    assert_eq!(*page.state(), WorkflowState::NotFound(NotFoundReason::NoMatch));
    assert!(page.not_found());
    assert_eq!(page.view().right, ImageStatus::NotFound(NotFoundReason::NoMatch));

    // A new selection discards the failure and starts over.
    assert_eq!(page.update(Message::OpenFilePicker, true), Effect::PickFiles(FileKind::Images));
    assert_eq!(*page.state(), WorkflowState::AwaitingInput);
    page.update(Message::FilesSelected(vec![s("y.jpg")]), true);
    page.update(Message::Identity(s("8")), true);
    page.update(Message::IdentityError(s("Not Found")), true);
    assert_eq!(*page.state(), WorkflowState::NotFound(NotFoundReason::LookupError));

    // Without a store the name cannot be looked up.
    page.update(Message::FilesSelected(vec![s("z.jpg")]), false);
    assert_eq!(page.update(Message::Identity(s("8")), false), Effect::Nothing);
    assert_eq!(*page.state(), WorkflowState::NotFound(NotFoundReason::LookupError));
}

#[test]
fn image_page_takes_a_request_asked_for_by_hand() {
    let mut page = ImageFindPage::default();
    assert_eq!(
        page.update(Message::IdentifyCriminalImage(s("/a/b.jpg")), true),
        Effect::Send(s("identify image /a/b.jpg"))
    );
    assert!(page.is_identifying());
    assert_eq!(*page.state(), WorkflowState::Requesting);
    assert!(page.selected_image().is_empty());
    assert_eq!(page.update(Message::IdentifyCriminalImage(s("/c.jpg")), true), Effect::Nothing);
    page.update(Message::Identity(s("4")), true);
    assert_eq!(page.update(Message::IdentifyCriminalImage(s("/c.jpg")), true), Effect::Nothing);
    assert_eq!(*page.state(), WorkflowState::Identifying);
}

#[test]
fn video_page_takes_a_request_asked_for_by_hand() {
    let mut page = VideoFindPage::default();
    assert_eq!(
        page.update(Message::IdentifyCriminalVideo(s("/v.mp4")), true),
        Effect::Send(s("identify video /v.mp4"))
    );
    assert!(page.is_scanning());
    assert_eq!(*page.selected_video(), None);
    assert_eq!(page.update(Message::IdentifyCriminalVideo(s("/w.mp4")), true), Effect::Nothing);
    assert_eq!(*page.state(), WorkflowState::Requesting);
}

#[test]
fn image_page_ignores_an_empty_selection_and_can_be_reset() {
    let mut page = ImageFindPage::default();
    page.update(Message::OpenFilePicker, true);
    assert_eq!(page.update(Message::FilesSelected(vec![]), true), Effect::Nothing);
    assert_eq!(*page.state(), WorkflowState::AwaitingInput);
    page.update(Message::FilesSelected(vec![s("x.jpg")]), true);
    page.reset();
    assert_eq!(*page.state(), WorkflowState::Idle);
    assert!(page.selected_image().is_empty());
    assert_eq!(page.update(Message::Identity(s("1")), true), Effect::Nothing);
    assert_eq!(*page.state(), WorkflowState::Idle);
}

#[test]
fn video_page_opens_the_file_by_its_url() {
    let mut page = VideoFindPage::default();
    assert_eq!(page.update(Message::OpenFilePicker, true), Effect::PickFiles(FileKind::Videos));
    assert_eq!(
        page.update(Message::FilesSelected(vec![s("/tmp/a b.mp4"), s("/tmp/other.mp4")]), true),
        Effect::OpenVideo { path: s("/tmp/a b.mp4"), url: s("file:///tmp/a%20b.mp4") }
    );
    assert_eq!(*page.state(), WorkflowState::AwaitingInput);
    assert_eq!(*page.selected_video(), None);
    // A path that is not absolute has no URL: nothing is opened.
    assert_eq!(page.update(Message::FilesSelected(vec![s("clips/a.mp4")]), true), Effect::Nothing);
    assert_eq!(page.update(Message::FilesSelected(vec![]), true), Effect::Nothing);
}

#[test]
fn video_page_select_video_takes_the_url_as_given() {
    let mut page = VideoFindPage::default();
    assert_eq!(
        page.select_video(s("/v.mp4"), Some(s("file:///v.mp4"))),
        Effect::OpenVideo { path: s("/v.mp4"), url: s("file:///v.mp4") }
    );
    assert_eq!(page.select_video(s("v.mp4"), None), Effect::Nothing);
    page.update(Message::VideoOpened(s("/v.mp4")), true);
    assert_eq!(page.select_video(s("/w.mp4"), Some(s("file:///w.mp4"))), Effect::Nothing);
}

#[test]
fn video_page_walks_from_opened_video_to_archive() {
    let mut page = VideoFindPage::default();
    assert_eq!(page.view().left, VideoSource::NoSource);
    assert_eq!(page.view().right, VideoStatus::AwaitingInput);
    assert_eq!(
        page.update(Message::VideoOpened(s("/v/clip.mp4")), true),
        Effect::Send(s("identify video /v/clip.mp4"))
    );
    assert_eq!(*page.state(), WorkflowState::Requesting);
    assert_eq!(*page.selected_video(), Some(s("/v/clip.mp4")));
    assert!(page.is_scanning());
    assert_eq!(page.view().left, VideoSource::Player(s("/v/clip.mp4")));
    assert_eq!(page.view().right, VideoStatus::Scanning);
    assert_eq!(page.update(Message::Identity(s("7")), true), Effect::LookupRecordWithPhotos(7));
    assert_eq!(
        page.update(
            Message::IdentityDataLoadedWithPhotos(record(7), vec![photo(1, 7, b"a"), photo(2, 7, b"b")]),
            true
        ),
        Effect::StorePhotos(vec![
            PhotoFile { path: s("temp_identify/suspect_7_0.jpg"), bytes: b"a".to_vec() },
            PhotoFile { path: s("temp_identify/suspect_7_1.jpg"), bytes: b"b".to_vec() },
        ])
    );
    assert_eq!(*page.state(), WorkflowState::Found(record(7)));
    assert!(page.show_details());
    assert_eq!(page.identified_data(), Some(&record(7)));
    // Until the files exist the video stays on show.
    assert_eq!(page.view().left, VideoSource::Player(s("/v/clip.mp4")));
    page.update(Message::PhotosStored(vec![s("temp_identify/suspect_7_0.jpg"), s("temp_identify/suspect_7_1.jpg")]), true);
    assert_eq!(page.suspect_photos().len(), 2);
    assert_eq!(page.current_photo_index(), 0);
    page.update(Message::PrevImage, true);
    assert_eq!(page.current_photo_index(), 1);
    page.update(Message::NextImage, true);
    assert_eq!(page.current_photo_index(), 0);
    page.update(Message::NextImage, true);
    assert_eq!(
        page.view().left,
        VideoSource::Archive(GlassImageViewer::new(
            vec![s("temp_identify/suspect_7_0.jpg"), s("temp_identify/suspect_7_1.jpg")],
            1
        ))
    );
    assert_eq!(
        page.view().right,
        VideoStatus::Details(VideoDetails {
            criminal_id: s("7"),
            name: s("Ada"),
            fathers_name: s("N/A"),
            history: s("3 known violations"),
            last_capture: s("2023-11-14 22:13:20 UTC"),
            last_known_location: s("Docks"),
        })
    );
}

#[test]
fn video_details_stand_in_for_what_is_not_on_record() {
    let mut bare = record(3);
    bare.arrested_location = None;
    bare.fathers_name = Some(s("Byron"));
    bare.no_of_crimes = 0;
    assert_eq!(
        video_details(&bare, None),
        VideoDetails {
            criminal_id: s("3"),
            name: s("Ada"),
            fathers_name: s("Byron"),
            history: s("0 known violations"),
            last_capture: s(""),
            last_known_location: s("Unknown"),
        }
    );
    assert_eq!(video_details(&bare, Some(s("then"))).last_capture, "then");
}

#[test]
fn video_page_writes_the_time_of_arrest_in_utc() {
    for (seconds, nanos, text) in [
        (0i64, 0u32, "1970-01-01 00:00:00 UTC"),
        (-1, 0, "1969-12-31 23:59:59 UTC"),
        (951_782_400, 0, "2000-02-29 00:00:00 UTC"),
        (0, 500_000_000, "1970-01-01 00:00:00.500 UTC"),
        (1_700_000_000, 26_490_000, "2023-11-14 22:13:20.026490 UTC"),
        (0, 1_500_000_000, ""),
        (i64::MAX, 0, ""),
    ] {
        let mut page = VideoFindPage::default();
        page.update(Message::VideoOpened(s("/v.mp4")), true);
        page.update(Message::Identity(s("1")), true);
        let mut found = record(1);
        found.date_of_arrest = seconds;
        found.date_of_arrest_nanos = nanos;
        page.update(Message::IdentityDataLoadedWithPhotos(found, vec![]), true);
        match page.view().right {
            VideoStatus::Details(details) => assert_eq!(details.last_capture, text),
            other => panic!("{:?}", other),
        }
    }
}

#[test]
fn video_page_not_found_and_reset() {
    let mut page = VideoFindPage::default();
    page.update(Message::VideoOpened(s("/v.mp4")), true);
    assert_eq!(page.update(Message::VideoOpened(s("/w.mp4")), true), Effect::Nothing);
    assert_eq!(*page.selected_video(), Some(s("/v.mp4")));
    page.update(Message::Identity(s("nobody")), true);
    assert_eq!(*page.state(), WorkflowState::Identifying);
    page.update(Message::IdentityError(s("Record not found")), true);
    assert_eq!(*page.state(), WorkflowState::NotFound(NotFoundReason::LookupError));
    assert_eq!(page.view().right, VideoStatus::NotFound(NotFoundReason::LookupError));
    page.update(Message::NextImage, true);
    assert_eq!(page.current_photo_index(), 0);
    page.reset();
    assert_eq!(*page.state(), WorkflowState::Idle);
    assert_eq!(*page.selected_video(), None);
    let mut other = VideoFindPage::default();
    other.update(Message::VideoOpened(s("/v.mp4")), false);
    other.update(Message::Identity(s("3")), false);
    assert_eq!(*other.state(), WorkflowState::NotFound(NotFoundReason::LookupError));
}

#[test]
fn registry_form_takes_what_is_typed() {
    let mut form = RegistryPage::default();
    assert_eq!(form.update(Message::NameChanged(s("Ada")), true), Effect::Nothing);
    form.update(Message::FathersNameChanged(s("Byron")), true);
    form.update(Message::CrimesCountChanged(s("4")), true);
    form.update(Message::LocationChanged(s("Docks")), true);
    assert_eq!(form.name(), "Ada");
    assert_eq!(form.fathers_name(), "Byron");
    assert_eq!(form.no_of_crimes(), "4");
    assert_eq!(form.arrested_location(), "Docks");
    form.update(Message::FilesSelected(vec![s("a.jpg"), s("b.jpg")]), true);
    assert_eq!(
        form.update(Message::SubmitForm, true),
        Effect::SaveRecord(NewRecord {
            name: s("Ada"),
            fathers_name: Some(s("Byron")),
            arrested_location: Some(s("Docks")),
            no_of_crimes: 4,
            photo_paths: vec![s("a.jpg"), s("b.jpg")],
        })
    );
    assert!(form.is_saving());
    assert_eq!(form.view().footer, RegistryFooter::Saving);
}

#[test]
fn registry_form_refuses_a_blank_name() {
    let mut form = RegistryPage::default();
    assert_eq!(form.update(Message::SubmitForm, true), Effect::Nothing);
    assert!(form.name_error());
    assert!(form.view().name_marked);
    assert!(!form.is_saving());
    form.update(Message::NameChanged(s(" \t ")), true);
    assert!(!form.name_error());
    assert_eq!(form.update(Message::SubmitForm, true), Effect::Nothing);
    assert!(form.name_error());
    form.update(Message::NameChanged(s(" x ")), true);
    assert_eq!(form.update(Message::SubmitForm, false), Effect::Nothing);
    assert!(!form.is_saving());
    assert!(!form.name_error());
}

#[test]
fn registry_form_fills_in_what_was_left_out() {
    let mut form = RegistryPage::default();
    form.update(Message::NameChanged(s("Ada")), true);
    form.update(Message::CrimesCountChanged(s("many")), true);
    assert_eq!(
        form.update(Message::SubmitForm, true),
        Effect::SaveRecord(NewRecord {
            name: s("Ada"),
            fathers_name: None,
            arrested_location: None,
            no_of_crimes: 1,
            photo_paths: vec![],
        })
    );
}

#[test]
fn registry_tells_the_engine_once_the_store_has_saved() {
    let mut form = RegistryPage::default();
    assert_eq!(
        form.update(Message::DatabaseSaved(7, vec![s("/p1.jpg"), s("/p2.jpg")]), true),
        Effect::Send(s("add 7 /p1.jpg&/p2.jpg"))
    );
    form.update(Message::SaveResult(Err(s("boom"))), true);
    assert!(!form.save_success());
    form.update(Message::SaveResult(Ok(7)), true);
    assert!(form.save_success());
    assert!(!form.is_saving());
    assert_eq!(form.view().footer, RegistryFooter::SavedReset);
    form.update(Message::ResetForm, true);
    assert!(!form.save_success());
    assert_eq!(form.name(), "");
    assert_eq!(form.view().footer, RegistryFooter::Save);
}

#[test]
fn registry_steps_through_its_photographs() {
    let mut form = RegistryPage::default();
    assert_eq!(form.view().images, RegistryImages::AttachPrompt);
    form.update(Message::NextImage, true);
    assert_eq!(form.current_img_idx(), 0);
    form.update(Message::FilesSelected(vec![s("a"), s("b"), s("c")]), true);
    form.update(Message::PrevImage, true);
    assert_eq!(form.current_img_idx(), 2);
    form.update(Message::NextImage, true);
    assert_eq!(form.current_img_idx(), 0);
    form.update(Message::NextImage, true);
    assert_eq!(
        form.view().images,
        RegistryImages::Viewer(GlassImageViewer::new(vec![s("a"), s("b"), s("c")], 1))
    );
    form.update(Message::FilesSelected(vec![s("z")]), true);
    assert_eq!(form.current_img_idx(), 0);
    assert_eq!(form.selected_images(), &vec![s("z")]);
}

#[test]
fn file_picker_filters() {
    assert_eq!(FileKind::Images.label(), "Images");
    assert_eq!(FileKind::Images.extensions(), vec!["jpg", "png", "jpeg"]);
    assert_eq!(FileKind::Videos.label(), "Videos");
    assert_eq!(FileKind::Videos.extensions(), vec!["mp4", "mkv", "webm", "avi"]);
}

#[test]
fn main_menu_lists_the_screens() {
    assert_eq!(
        MainMenu::view(),
        vec![
            MenuEntry { label: "1. Criminal Registry", target: Page::Registry },
            MenuEntry { label: "2. Image Search / Recognition", target: Page::ImageFind },
            MenuEntry { label: "3. Video Analytics / Tracking", target: Page::VideoFind },
            MenuEntry { label: "4. Webcam Search", target: Page::WebcamFind },
            MenuEntry { label: "4. Operator Sign-In / Logs", target: Page::SignIn },
        ]
    );
}
