//! The application as a whole: which screen is on, which screen a message
//! belongs to, what is written to the engine and what its answers mean.
//! One lock is shared by all screens: a request for an identification is
//! written only while none is under way anywhere, and the screen that asked
//! is the one that takes the answer.

use crate::pages::criminal_image_find::{
    image_asked, image_asked_effect, image_effect, image_initial, image_missed, image_named,
    image_named_effect, image_shows, image_step, ImageFindModel, ImageFindPage, ImageFindView,
};
use crate::pages::criminal_registry::{
    registry_effect, registry_initial, registry_saved, registry_shows, registry_step, registry_wf,
    RegistryModel, RegistryPage, RegistryView,
};
use crate::pages::criminal_video_find::{
    video_asked, video_asked_effect, video_effect, video_initial, video_missed, video_named,
    video_named_effect, video_shows, video_step, video_wf, VideoFindModel, VideoFindPage,
    VideoFindView,
};
use crate::pages::criminal_webcam_find::{
    webcam_effect, webcam_initial, webcam_left, webcam_left_effect, webcam_missed,
    webcam_missed_effect, webcam_named, webcam_named_effect, webcam_shows, webcam_step, webcam_wf,
    WebcamFindPage, WebcamFindView, WebcamModel,
};
use crate::pages::main_menu::{menu_shows, MainMenu, MenuEntry};
use crate::protocol::{
    decode_spec, is_unknown_reply, line_of, parse_command, says_unknown, Command, CommandView,
    Event, EventView,
};
use crate::workflow::{disciplined, lemma_one_answer_per_command, processed_in, Step, WorkflowState};
use crate::{Effect, EffectView, FileKind, Message, Page};
use vstd::prelude::*;

verus! {

/// The application as a mathematical value.
pub struct AppModel {
    pub current_page: Page,
    pub registry: RegistryModel,
    pub image: ImageFindModel,
    pub video: VideoFindModel,
    pub webcam: WebcamModel,
    /// The engine process runs, so commands can be written to it.
    pub engine: bool,
    /// The store is connected, so it can be asked.
    pub db: bool,
}

/// The application as it starts: on the main menu, every screen fresh, the
/// store not yet connected.
pub open spec fn app_initial(engine: bool) -> AppModel {
    AppModel {
        current_page: Page::MainMenu,
        registry: registry_initial(),
        image: image_initial(),
        video: video_initial(),
        webcam: webcam_initial(),
        engine,
        db: false,
    }
}

/// What holds of the application at all times: every screen is in order,
/// an identification is under way on at most one screen, and the live
/// screen is at rest whenever another screen is on.
pub open spec fn app_wf(m: AppModel) -> bool {
    &&& registry_wf(m.registry)
    &&& video_wf(m.video)
    &&& webcam_wf(m.webcam)
    &&& !(m.image.state.is_busy() && m.video.state.is_busy())
    &&& !(m.image.state.is_busy() && m.webcam.on)
    &&& !(m.video.state.is_busy() && m.webcam.on)
    &&& m.current_page != Page::WebcamFind ==> m.webcam.state is Idle
}

/// The number of screens on which a request is with the engine.
pub open spec fn requests_outstanding(m: AppModel) -> nat {
    (if m.image.state.awaits_engine() {
        1nat
    } else {
        0nat
    }) + (if m.video.state.awaits_engine() {
        1nat
    } else {
        0nat
    }) + (if m.webcam.state.awaits_engine() {
        1nat
    } else {
        0nat
    })
}

/// Whether some screen has a request with the engine.
pub open spec fn awaits_engine(m: AppModel) -> bool {
    requests_outstanding(m) > 0
}

/// Who takes a message in.
#[derive(Debug, Clone, Copy, PartialEq, Eq, Structural)]
pub enum Target {
    /// The application itself.
    Root,
    Registry,
    Image,
    Video,
    Webcam,
    /// The message is dropped.
    Nobody,
}

/// The screen that is on, as the taker of a message meant for it.
pub open spec fn current_target(page: Page) -> Target {
    match page {
        Page::Registry => Target::Registry,
        Page::ImageFind => Target::Image,
        Page::VideoFind => Target::Video,
        Page::WebcamFind => Target::Webcam,
        _ => Target::Nobody,
    }
}

/// The screen whose request is with the engine, as the taker of the
/// engine's answer.
pub open spec fn awaiting_target(m: AppModel) -> Target {
    if m.image.state.awaits_engine() {
        Target::Image
    } else if m.video.state.awaits_engine() {
        Target::Video
    } else if m.webcam.state.awaits_engine() {
        Target::Webcam
    } else {
        Target::Nobody
    }
}

/// The screen on which an identification is under way, as the taker of
/// what the store answers.
pub open spec fn busy_target(m: AppModel) -> Target {
    if m.image.state.is_busy() {
        Target::Image
    } else if m.video.state.is_busy() {
        Target::Video
    } else if m.webcam.state.is_busy() {
        Target::Webcam
    } else {
        Target::Nobody
    }
}

/// Whether the image screen may start a request: no identification is under
/// way on the video screen and the camera is not scanning.
pub open spec fn image_may_ask(m: AppModel) -> bool {
    !m.video.state.is_busy() && !m.webcam.on
}

/// Whether the video screen may start a request.
pub open spec fn video_may_ask(m: AppModel) -> bool {
    !m.image.state.is_busy() && !m.webcam.on
}

/// Whether live scanning may be switched on: only from the live screen, and
/// only while no identification is under way elsewhere.
pub open spec fn webcam_may_scan(m: AppModel) -> bool {
    m.current_page == Page::WebcamFind && !m.image.state.is_busy() && !m.video.state.is_busy()
}

/// Who takes `message` in. What the form and the store say of a record
/// being saved goes to the registry, and what the camera reports goes to
/// the live screen, whichever screen is on. A message that starts a request
/// goes to its screen only while no identification is under way on another.
/// What the engine and the store answer goes to the screen that waits for
/// it. The rest goes to the screen that is on.
pub open spec fn target_of(m: AppModel, message: Message) -> Target {
    match message {
        Message::Noop => Target::Root,
        Message::CaptureWebcamFrame => Target::Root,
        Message::GoTo(_) => Target::Root,
        Message::InitializePython => Target::Root,
        Message::PythonInput(_) => Target::Root,
        Message::PythonOutput(_) => Target::Root,
        Message::DbConnected(_) => Target::Root,
        Message::SendFailed(_) => Target::Root,
        Message::NameChanged(_) => Target::Registry,
        Message::FathersNameChanged(_) => Target::Registry,
        Message::CrimesCountChanged(_) => Target::Registry,
        Message::LocationChanged(_) => Target::Registry,
        Message::SubmitForm => Target::Registry,
        Message::DatabaseSaved(_, _) => Target::Registry,
        Message::SaveResult(_) => Target::Registry,
        Message::ResetForm => Target::Registry,
        Message::TickWebcam => Target::Webcam,
        Message::WebcamFrameCaptured(_) => Target::Webcam,
        Message::PreviewOpened(_) => Target::Webcam,
        Message::ToggleWebcam(on) => if !on || webcam_may_scan(m) {
            Target::Webcam
        } else {
            Target::Nobody
        },
        Message::ResetWebcamSearch => if webcam_may_scan(m) {
            Target::Webcam
        } else {
            Target::Nobody
        },
        Message::VideoOpened(_) => if m.current_page == Page::VideoFind && video_may_ask(m) {
            Target::Video
        } else {
            Target::Nobody
        },
        Message::FilesSelected(_) => match m.current_page {
            Page::ImageFind => if image_may_ask(m) {
                Target::Image
            } else {
                Target::Nobody
            },
            Page::VideoFind => Target::Video,
            _ => Target::Registry,
        },
        Message::IdentifyCriminalImage(_) => if image_may_ask(m) {
            Target::Image
        } else {
            Target::Nobody
        },
        Message::IdentifyCriminalVideo(_) => if video_may_ask(m) {
            Target::Video
        } else {
            Target::Nobody
        },
        Message::OpenFilePicker => current_target(m.current_page),
        Message::NextImage => current_target(m.current_page),
        Message::PrevImage => current_target(m.current_page),
        Message::Identity(_) => awaiting_target(m),
        Message::IdentityDataLoaded(_) => busy_target(m),
        Message::IdentityError(_) => busy_target(m),
        Message::IdentityDataLoadedWithPhotos(_, _) => if m.video.state is Identifying {
            Target::Video
        } else if m.current_page == Page::WebcamFind {
            Target::Webcam
        } else {
            Target::Nobody
        },
        Message::PhotosStored(_) => if m.current_page == Page::WebcamFind {
            Target::Webcam
        } else {
            Target::Video
        },
    }
}

/// An effect as it leaves the application: nothing is written to an engine
/// that does not run.
pub open spec fn gated(effect: EffectView, engine: bool) -> EffectView {
    if effect is Send && !engine {
        EffectView::Nothing
    } else {
        effect
    }
}

/// The application after the operator went to `page`: every identification
/// is dropped and the camera's preview given up; the form stays as it is.
pub open spec fn app_went_to(m: AppModel, page: Page) -> AppModel {
    AppModel {
        current_page: page,
        image: image_initial(),
        video: video_initial(),
        webcam: webcam_left(m.webcam),
        ..m
    }
}

/// The application after the engine named someone: the screen whose
/// request is with the engine takes the name in.
pub open spec fn app_named(m: AppModel) -> AppModel {
    match awaiting_target(m) {
        Target::Image => AppModel { image: image_named(m.image, m.db), ..m },
        Target::Video => AppModel { video: video_named(m.video, m.db), ..m },
        Target::Webcam => AppModel { webcam: webcam_named(m.webcam, m.db), ..m },
        _ => m,
    }
}

/// What the application asks for when the engine named `id`.
pub open spec fn app_named_effect(m: AppModel, id: Seq<char>) -> EffectView {
    match awaiting_target(m) {
        Target::Image => image_named_effect(m.image, id, m.db),
        Target::Video => video_named_effect(m.video, id, m.db),
        Target::Webcam => webcam_named_effect(m.webcam, id, m.db),
        _ => EffectView::Nothing,
    }
}

/// The application after the engine said that it knows no one: the screen
/// whose request is with the engine takes that as its answer.
pub open spec fn app_missed(m: AppModel) -> AppModel {
    match awaiting_target(m) {
        Target::Image => AppModel { image: image_missed(m.image), ..m },
        Target::Video => AppModel { video: video_missed(m.video), ..m },
        Target::Webcam => AppModel { webcam: webcam_missed(m.webcam), ..m },
        _ => m,
    }
}

/// What the screen asks for that was told that the engine knows no one:
/// only the live screen asks for anything, its preview.
pub open spec fn app_missed_effect(m: AppModel) -> EffectView {
    match awaiting_target(m) {
        Target::Webcam => webcam_missed_effect(m.webcam),
        _ => EffectView::Nothing,
    }
}

/// The application after a line from the engine that names no one and
/// acknowledges nothing. Only the engine's word that it knows no one is an
/// answer, and only to a request that is outstanding; every other such line
/// changes nothing.
pub open spec fn app_unrecognized(m: AppModel, raw: Seq<char>) -> AppModel {
    if says_unknown(raw) {
        app_missed(m)
    } else {
        m
    }
}

/// What the application asks for on such a line: what the screen asks for
/// that took it as its answer, or else that the line be logged.
pub open spec fn app_unrecognized_effect(m: AppModel, raw: Seq<char>) -> EffectView {
    if says_unknown(raw) && awaits_engine(m) {
        app_missed_effect(m)
    } else {
        EffectView::Log(raw)
    }
}

/// The application after the engine acknowledged a registration: a save
/// that was under way has succeeded.
pub open spec fn app_added(m: AppModel) -> AppModel {
    if m.registry.is_saving {
        AppModel { registry: registry_saved(m.registry), ..m }
    } else {
        m
    }
}

/// The application after a line from the engine.
pub open spec fn app_heard(m: AppModel, line: Seq<char>) -> AppModel {
    match decode_spec(line) {
        EventView::Identity(_) => app_named(m),
        EventView::Added(_) => app_added(m),
        EventView::Unrecognized(raw) => app_unrecognized(m, raw),
    }
}

/// What the application asks for on a line from the engine.
pub open spec fn app_heard_effect(m: AppModel, line: Seq<char>) -> EffectView {
    match decode_spec(line) {
        EventView::Identity(id) => app_named_effect(m, id),
        EventView::Added(_) => EffectView::Nothing,
        EventView::Unrecognized(raw) => app_unrecognized_effect(m, raw),
    }
}

/// The application after the operator typed `command` by hand: a request
/// for an identification is handed to the screen that owns it, which then
/// waits for the answer; the other commands change nothing.
pub open spec fn app_asked(m: AppModel, command: CommandView) -> AppModel {
    match command {
        CommandView::IdentifyImage(_) => if image_may_ask(m) {
            AppModel { image: image_asked(m.image), ..m }
        } else {
            m
        },
        CommandView::IdentifyVideo(_) => if video_may_ask(m) {
            AppModel { video: video_asked(m.video), ..m }
        } else {
            m
        },
        _ => m,
    }
}

/// What is written when the operator typed `command` by hand: a request
/// for an identification if its screen takes it, and the warm-up or the
/// notice of a registration if no request is outstanding.
pub open spec fn app_asked_effect(m: AppModel, command: CommandView) -> EffectView {
    match command {
        CommandView::IdentifyImage(path) => if image_may_ask(m) {
            image_asked_effect(m.image, path)
        } else {
            EffectView::Nothing
        },
        CommandView::IdentifyVideo(path) => if video_may_ask(m) {
            video_asked_effect(m.video, path)
        } else {
            EffectView::Nothing
        },
        _ => if awaits_engine(m) {
            EffectView::Nothing
        } else {
            EffectView::Send(line_of(command))
        },
    }
}

/// The application after free text meant for the engine.
pub open spec fn app_input(m: AppModel, text: Seq<char>) -> AppModel {
    match parse_command(text) {
        Some(command) => app_asked(m, command),
        None => m,
    }
}

/// What is written on free text meant for the engine.
pub open spec fn app_input_effect(m: AppModel, text: Seq<char>) -> EffectView {
    match parse_command(text) {
        Some(command) => app_asked_effect(m, command),
        None => EffectView::Nothing,
    }
}

/// The application after `message`.
pub open spec fn app_step(m: AppModel, message: Message) -> AppModel {
    match target_of(m, message) {
        Target::Registry => AppModel { registry: registry_step(m.registry, message, m.db), ..m },
        Target::Image => AppModel { image: image_step(m.image, message, m.db), ..m },
        Target::Video => AppModel { video: video_step(m.video, message, m.db), ..m },
        Target::Webcam => AppModel { webcam: webcam_step(m.webcam, message, m.db), ..m },
        Target::Nobody => m,
        Target::Root => match message {
            Message::GoTo(page) => app_went_to(m, page),
            Message::DbConnected(result) => AppModel { db: result is Ok || m.db, ..m },
            Message::PythonOutput(line) => app_heard(m, line@),
            Message::PythonInput(text) => app_input(m, text@),
            _ => m,
        },
    }
}

/// What the application would ask for in answer to `message` if the engine
/// ran.
pub open spec fn app_asks(m: AppModel, message: Message) -> EffectView {
    match target_of(m, message) {
        Target::Registry => if message is OpenFilePicker {
            EffectView::PickFiles(FileKind::Images)
        } else {
            registry_effect(m.registry, message, m.db)
        },
        Target::Image => image_effect(m.image, message, m.db),
        Target::Video => video_effect(m.video, message, m.db),
        Target::Webcam => webcam_effect(m.webcam, message, m.db),
        Target::Nobody => EffectView::Nothing,
        Target::Root => match message {
            Message::GoTo(_) => webcam_left_effect(m.webcam),
            Message::InitializePython => EffectView::Send(line_of(CommandView::Start)),
            Message::PythonInput(text) => app_input_effect(m, text@),
            Message::PythonOutput(line) => app_heard_effect(m, line@),
            Message::SendFailed(reason) => EffectView::Log(reason@),
            _ => EffectView::Nothing,
        },
    }
}

/// What the application asks for in answer to `message`.
pub open spec fn app_effect(m: AppModel, message: Message) -> EffectView {
    gated(app_asks(m, message), m.engine)
}

/// Whether `command` asks for an identification.
pub open spec fn is_request(command: Option<CommandView>) -> bool {
    match command {
        Some(CommandView::IdentifyImage(_)) => true,
        Some(CommandView::IdentifyVideo(_)) => true,
        _ => false,
    }
}

/// Whether `message` makes the application write a request for an
/// identification: it writes a line, and the line is neither the warm-up
/// nor the notice of a registration, be it typed by hand or not.
pub open spec fn sends_request(m: AppModel, message: Message) -> bool {
    &&& app_asks(m, message) is Send
    &&& match message {
        Message::InitializePython => false,
        Message::DatabaseSaved(_, _) => false,
        Message::PythonInput(text) => is_request(parse_command(text@)),
        _ => true,
    }
}

/// Whether `message` is taken in as the engine's answer to the request that
/// is outstanding.
pub open spec fn takes_answer(m: AppModel, message: Message) -> bool {
    &&& awaits_engine(m)
    &&& match message {
        Message::PythonOutput(line) => decode_spec(line@) is Identity || (decode_spec(line@)
            is Unrecognized && says_unknown(line@)),
        Message::Identity(_) => true,
        Message::IdentityError(_) => true,
        _ => false,
    }
}

/// The application after taking `messages` in, in order.
pub open spec fn app_run(m: AppModel, messages: Seq<Message>) -> AppModel
    decreases messages.len(),
{
    if messages.len() == 0 {
        m
    } else {
        app_step(app_run(m, messages.drop_last()), messages.last())
    }
}

/// No message breaks what holds of the application at all times.
pub proof fn lemma_app_step_wf(m: AppModel, message: Message)
    requires
        app_wf(m),
    ensures
        app_wf(app_step(m, message)),
{
}

/// No sequence of messages breaks what holds of the application at all
/// times.
pub proof fn lemma_app_run_wf(m: AppModel, messages: Seq<Message>)
    requires
        app_wf(m),
    ensures
        app_wf(app_run(m, messages)),
    decreases messages.len(),
{
    if messages.len() > 0 {
        lemma_app_run_wf(m, messages.drop_last());
        lemma_app_step_wf(app_run(m, messages.drop_last()), messages.last());
    }
}

/// Whatever messages arrive and in whatever order, at no time do two
/// screens have a request with the engine.
pub proof fn lemma_one_request_at_a_time(engine: bool, messages: Seq<Message>)
    ensures
        app_wf(app_run(app_initial(engine), messages)),
        requests_outstanding(app_run(app_initial(engine), messages)) <= 1,
{
    lemma_app_run_wf(app_initial(engine), messages);
}

/// Nothing is written to the engine while a screen still waits for an
/// answer, but for the warm-up and the notice of a registration; and every
/// request for an identification that is written, by a screen or by hand,
/// has a screen that waits for its answer from then on.
pub proof fn lemma_requests_wait_for_answers(m: AppModel, message: Message)
    requires
        app_wf(m),
    ensures
        app_asks(m, message) is Send && !(message is InitializePython) && !(message
            is DatabaseSaved) ==> requests_outstanding(m) == 0,
        sends_request(m, message) ==> requests_outstanding(m) == 0 && requests_outstanding(
            app_step(m, message),
        ) == 1,
{
}

/// Every step of the application keeps the discipline of one request at a
/// time: a request is written only when none is outstanding, an answer is
/// taken in only when one is, and nothing becomes outstanding without a
/// request being written.
pub proof fn lemma_app_step_disciplined(m: AppModel, message: Message)
    requires
        app_wf(m),
    ensures
        disciplined(
            Step {
                awaiting_before: awaits_engine(m),
                awaiting_after: awaits_engine(app_step(m, message)),
                sent: sends_request(m, message),
                processed: takes_answer(m, message),
            },
        ),
{
}

/// The traffic with the engine while the application takes `messages` in.
pub open spec fn app_trace(m: AppModel, messages: Seq<Message>) -> Seq<Step> {
    Seq::new(
        messages.len(),
        |i: int|
            Step {
                awaiting_before: awaits_engine(app_run(m, messages.take(i))),
                awaiting_after: awaits_engine(app_run(m, messages.take(i + 1))),
                sent: sends_request(app_run(m, messages.take(i)), messages[i]),
                processed: takes_answer(app_run(m, messages.take(i)), messages[i]),
            },
    )
}

/// Single outstanding request, over all screens and what is typed by hand:
/// whatever messages arrive, between one request for an identification that
/// the application writes and the next, at most one answer of the engine is
/// taken in, and no request is written while one is outstanding.
pub proof fn lemma_app_single_outstanding_request(
    m: AppModel,
    messages: Seq<Message>,
    first: int,
    next: int,
)
    requires
        app_wf(m),
        0 <= first < next < messages.len(),
        app_trace(m, messages)[first].sent,
        app_trace(m, messages)[next].sent,
        forall|k: int| first < k < next ==> !(#[trigger] app_trace(m, messages)[k]).sent,
    ensures
        processed_in(app_trace(m, messages), first + 1, next) <= 1,
        !app_trace(m, messages)[next].awaiting_before,
{
    let t = app_trace(m, messages);
    assert forall|i: int| 0 <= i < t.len() implies disciplined(#[trigger] t[i]) by {
        let before = app_run(m, messages.take(i));
        lemma_app_run_wf(m, messages.take(i));
        lemma_app_step_disciplined(before, messages[i]);
        assert(messages.take(i + 1).drop_last() =~= messages.take(i));
        assert(messages.take(i + 1).last() == messages[i]);
    }
    lemma_one_answer_per_command(t, first, next);
}

/// A command that could not be written changes nothing: the request that
/// it carried stays outstanding, nothing is written again, and the failure
/// goes to the log.
pub proof fn lemma_write_error_keeps_request(m: AppModel, reason: String)
    ensures
        app_step(m, Message::SendFailed(reason)) == m,
        app_effect(m, Message::SendFailed(reason)) == EffectView::Log(reason@),
{
}

/// A line from the engine is taken in by a screen only if that screen has
/// a request with the engine, and taking it in ends the request: a second
/// line finds nothing outstanding and changes no identification.
pub proof fn lemma_answer_ends_request(m: AppModel, line: Seq<char>)
    requires
        app_wf(m),
    ensures
        !awaits_engine(m) ==> app_heard(m, line).image == m.image && app_heard(m, line).video
            == m.video && app_heard(m, line).webcam == m.webcam,
        awaits_engine(m) && (decode_spec(line) is Identity || says_unknown(line)) && !(decode_spec(
            line,
        ) is Added) ==> !awaits_engine(app_heard(m, line)),
{
}

/// A line that names no one, acknowledges nothing and is not the engine's
/// word that it knows no one changes nothing, whether a request is
/// outstanding or not: it goes to the log.
pub proof fn lemma_other_lines_change_nothing(m: AppModel, line: Seq<char>)
    requires
        decode_spec(line) is Unrecognized,
        !says_unknown(line),
    ensures
        app_heard(m, line) == m,
        app_heard_effect(m, line) == EffectView::Log(line),
{
}

/// What the window shows.
#[derive(Debug, Clone, PartialEq, Eq)]
pub enum Screen {
    Dashboard,
    Registry(RegistryView),
    MainMenu(Vec<MenuEntry>),
    ImageFind(ImageFindView),
    VideoFind(VideoFindView),
    WebcamFind(WebcamFindView),
    /// A screen that is not built yet.
    Placeholder,
}

/// Whether `shown` is what the application `m` shows: the screen that is on.
pub open spec fn app_shows(m: AppModel, shown: Screen) -> bool {
    match shown {
        Screen::Dashboard => m.current_page == Page::Dashboard,
        Screen::Registry(v) => m.current_page == Page::Registry && registry_shows(m.registry, v),
        Screen::MainMenu(entries) => m.current_page == Page::MainMenu && menu_shows(entries@),
        Screen::ImageFind(v) => m.current_page == Page::ImageFind && image_shows(m.image, v),
        Screen::VideoFind(v) => m.current_page == Page::VideoFind && video_shows(m.video, v),
        Screen::WebcamFind(v) => m.current_page == Page::WebcamFind && webcam_shows(m.webcam, v),
        Screen::Placeholder => m.current_page == Page::SignIn,
    }
}

/// What the application listens to.
#[derive(Debug, Clone, Copy, PartialEq, Eq, Structural)]
pub struct Subscriptions {
    /// The engine's output, line by line.
    pub engine_output: bool,
    /// The camera clock, which ticks every `TICK_SECONDS`.
    pub webcam_ticks: bool,
}

/// The seconds between two ticks of the camera clock.
pub const TICK_SECONDS: u64 = 2;

/// The milliseconds that the application waits after its start before it
/// warms the engine up.
pub const WARM_UP_DELAY_MS: u64 = 200;

/// The application.
#[derive(Debug)]
pub struct GlassmorphismApp {
    current_page: Page,
    registry_state: RegistryPage,
    image_find: ImageFindPage,
    video_find: VideoFindPage,
    webcam_find: WebcamFindPage,
    engine: bool,
    db: bool,
}

impl GlassmorphismApp {
    /// The application as a mathematical value.
    pub closed spec fn model(&self) -> AppModel {
        AppModel {
            current_page: self.current_page,
            registry: self.registry_state.model(),
            image: self.image_find.model(),
            video: self.video_find.model(),
            webcam: self.webcam_find.model(),
            engine: self.engine,
            db: self.db,
        }
    }

    /// The application is in a state that its own steps can have led to.
    pub closed spec fn wf(&self) -> bool {
        &&& self.registry_state.wf()
        &&& self.video_find.wf()
        &&& self.webcam_find.wf()
        &&& app_wf(self.model())
    }

    /// What `wf` says of the model.
    pub proof fn lemma_wf(&self)
        requires
            self.wf(),
        ensures
            app_wf(self.model()),
    {
    }

    /// The application at its start, and what it asks for first: to connect
    /// to the store at `db_url`, and to warm the engine up after a short
    /// wait. `engine` tells whether the engine process could be launched.
    pub fn new(engine: bool, db_url: String) -> (start: (Self, Vec<Effect>))
        ensures
            start.0.wf(),
            start.0.model() == app_initial(engine),
            start.1@.len() == 2,
            start.1@[0]@ == EffectView::ConnectDb(db_url@),
            start.1@[1]@ == EffectView::Delay(WARM_UP_DELAY_MS, Message::InitializePython),
    {
        let app = GlassmorphismApp {
            current_page: Page::MainMenu,
            registry_state: RegistryPage::default(),
            image_find: ImageFindPage::default(),
            video_find: VideoFindPage::default(),
            webcam_find: WebcamFindPage::default(),
            engine,
            db: false,
        };
        let mut effects: Vec<Effect> = Vec::new();
        effects.push(Effect::ConnectDb(db_url));
        effects.push(Effect::Delay(WARM_UP_DELAY_MS, Message::InitializePython));
        (app, effects)
    }

    /// The title of the window.
    pub fn title(&self) -> (title: String)
        ensures
            title@ == "Criminal Recognizer"@,
    {
        String::from_str("Criminal Recognizer")
    }

    /// The screen that is on.
    pub fn current_page(&self) -> (page: Page)
        ensures
            page == self.model().current_page,
    {
        self.current_page
    }

    /// The registry form.
    pub fn registry_state(&self) -> (page: &RegistryPage)
        ensures
            page.model() == self.model().registry,
    {
        &self.registry_state
    }

    /// The image identification screen.
    pub fn image_find(&self) -> (page: &ImageFindPage)
        ensures
            page.model() == self.model().image,
    {
        &self.image_find
    }

    /// The video identification screen.
    pub fn video_find(&self) -> (page: &VideoFindPage)
        ensures
            page.model() == self.model().video,
    {
        &self.video_find
    }

    /// The live identification screen.
    pub fn webcam_find(&self) -> (page: &WebcamFindPage)
        ensures
            page.model() == self.model().webcam,
    {
        &self.webcam_find
    }

    /// What the application listens to: the engine's output while the
    /// engine runs, and the camera clock while live scanning is on.
    pub fn subscription(&self) -> (listening: Subscriptions)
        ensures
            listening.engine_output == self.model().engine,
            listening.webcam_ticks == self.model().webcam.on,
    {
        Subscriptions { engine_output: self.engine, webcam_ticks: self.webcam_find.is_webcam_on() }
    }

    fn awaiting(&self) -> (target: Target)
        ensures
            target == awaiting_target(self.model()),
    {
        if self.image_find.state().is_awaiting_engine() {
            Target::Image
        } else if self.video_find.state().is_awaiting_engine() {
            Target::Video
        } else if self.webcam_find.state().is_awaiting_engine() {
            Target::Webcam
        } else {
            Target::Nobody
        }
    }

    fn busy(&self) -> (target: Target)
        ensures
            target == busy_target(self.model()),
    {
        if self.image_find.state().busy() {
            Target::Image
        } else if self.video_find.state().busy() {
            Target::Video
        } else if self.webcam_find.state().busy() {
            Target::Webcam
        } else {
            Target::Nobody
        }
    }

    fn target(&self, message: &Message) -> (target: Target)
        ensures
            target == target_of(self.model(), *message),
    {
        let current = match self.current_page {
            Page::Registry => Target::Registry,
            Page::ImageFind => Target::Image,
            Page::VideoFind => Target::Video,
            Page::WebcamFind => Target::Webcam,
            _ => Target::Nobody,
        };
        let on_webcam = match self.current_page {
            Page::WebcamFind => true,
            _ => false,
        };
        let image_busy = self.image_find.state().busy();
        let video_busy = self.video_find.state().busy();
        let scanning = self.webcam_find.is_webcam_on();
        let image_may = !video_busy && !scanning;
        let video_may = !image_busy && !scanning;
        let webcam_may = on_webcam && !image_busy && !video_busy;
        match message {
            Message::Noop => Target::Root,
            Message::CaptureWebcamFrame => Target::Root,
            Message::GoTo(_) => Target::Root,
            Message::InitializePython => Target::Root,
            Message::PythonInput(_) => Target::Root,
            Message::PythonOutput(_) => Target::Root,
            Message::DbConnected(_) => Target::Root,
            Message::SendFailed(_) => Target::Root,
            Message::NameChanged(_) => Target::Registry,
            Message::FathersNameChanged(_) => Target::Registry,
            Message::CrimesCountChanged(_) => Target::Registry,
            Message::LocationChanged(_) => Target::Registry,
            Message::SubmitForm => Target::Registry,
            Message::DatabaseSaved(_, _) => Target::Registry,
            Message::SaveResult(_) => Target::Registry,
            Message::ResetForm => Target::Registry,
            Message::TickWebcam => Target::Webcam,
            Message::WebcamFrameCaptured(_) => Target::Webcam,
            Message::PreviewOpened(_) => Target::Webcam,
            Message::ToggleWebcam(on) => if !*on || webcam_may {
                Target::Webcam
            } else {
                Target::Nobody
            },
            Message::ResetWebcamSearch => if webcam_may {
                Target::Webcam
            } else {
                Target::Nobody
            },
            Message::VideoOpened(_) => match self.current_page {
                Page::VideoFind => if video_may {
                    Target::Video
                } else {
                    Target::Nobody
                },
                _ => Target::Nobody,
            },
            Message::FilesSelected(_) => match self.current_page {
                Page::ImageFind => if image_may {
                    Target::Image
                } else {
                    Target::Nobody
                },
                Page::VideoFind => Target::Video,
                _ => Target::Registry,
            },
            Message::IdentifyCriminalImage(_) => if image_may {
                Target::Image
            } else {
                Target::Nobody
            },
            Message::IdentifyCriminalVideo(_) => if video_may {
                Target::Video
            } else {
                Target::Nobody
            },
            Message::OpenFilePicker => current,
            Message::NextImage => current,
            Message::PrevImage => current,
            Message::Identity(_) => self.awaiting(),
            Message::IdentityDataLoaded(_) => self.busy(),
            Message::IdentityError(_) => self.busy(),
            Message::IdentityDataLoadedWithPhotos(_, _) => match self.video_find.state() {
                WorkflowState::Identifying => Target::Video,
                _ => if on_webcam {
                    Target::Webcam
                } else {
                    Target::Nobody
                },
            },
            Message::PhotosStored(_) => if on_webcam {
                Target::Webcam
            } else {
                Target::Video
            },
        }
    }

    fn gate(&self, effect: Effect) -> (out: Effect)
        ensures
            out@ == gated(effect@, self.model().engine),
    {
        match effect {
            Effect::Send(line) => if self.engine {
                Effect::Send(line)
            } else {
                Effect::Nothing
            },
            other => other,
        }
    }

    /// Hands the engine's answer to the screen whose request is with the
    /// engine.
    fn to_awaiting(&mut self, message: Message) -> (effect: Effect)
        requires
            old(self).wf(),
            message is Identity || message is IdentityError,
        ensures
            final(self).wf(),
            final(self).model() == (if message is Identity {
                app_named(old(self).model())
            } else {
                app_missed(old(self).model())
            }),
            effect@ == (match message {
                Message::Identity(id) => app_named_effect(old(self).model(), id@),
                _ => app_missed_effect(old(self).model()),
            }),
    {
        proof {
            self.webcam_find.lemma_wf();
            self.video_find.lemma_wf();
            self.registry_state.lemma_wf();
        }
        match self.awaiting() {
            Target::Image => self.image_find.update(message, self.db),
            Target::Video => self.video_find.update(message, self.db),
            Target::Webcam => self.webcam_find.update(message, self.db),
            _ => Effect::Nothing,
        }
    }

    /// Takes in a line that the engine wrote.
    fn hear(&mut self, line: String) -> (effect: Effect)
        requires
            old(self).wf(),
        ensures
            final(self).wf(),
            final(self).model() == app_heard(old(self).model(), line@),
            effect@ == app_heard_effect(old(self).model(), line@),
    {
        proof {
            self.webcam_find.lemma_wf();
            self.video_find.lemma_wf();
            self.registry_state.lemma_wf();
        }
        match Event::decode(line.as_str()) {
            Event::Identity(id) => self.to_awaiting(Message::Identity(id)),
            Event::Added(_) => {
                if self.registry_state.is_saving() {
                    self.registry_state.update(Message::SaveResult(Ok(0)), self.db);
                }
                Effect::Nothing
            },
            Event::Unrecognized(raw) => {
                let waiting = match self.awaiting() {
                    Target::Nobody => false,
                    _ => true,
                };
                if is_unknown_reply(raw.as_str()) && waiting {
                    self.to_awaiting(Message::IdentityError(raw))
                } else {
                    Effect::Log(raw)
                }
            },
        }
    }

    /// Takes in free text meant for the engine.
    fn input(&mut self, text: String) -> (effect: Effect)
        requires
            old(self).wf(),
        ensures
            final(self).wf(),
            final(self).model() == app_input(old(self).model(), text@),
            effect@ == app_input_effect(old(self).model(), text@),
    {
        proof {
            self.webcam_find.lemma_wf();
            self.video_find.lemma_wf();
            self.registry_state.lemma_wf();
        }
        let waiting = match self.awaiting() {
            Target::Nobody => false,
            _ => true,
        };
        match Command::parse(text.as_str()) {
            Some(Command::IdentifyImage(path)) => {
                let message = Message::IdentifyCriminalImage(path);
                match self.target(&message) {
                    Target::Image => self.image_find.update(message, self.db),
                    _ => Effect::Nothing,
                }
            },
            Some(Command::IdentifyVideo(path)) => {
                let message = Message::IdentifyCriminalVideo(path);
                match self.target(&message) {
                    Target::Video => self.video_find.update(message, self.db),
                    _ => Effect::Nothing,
                }
            },
            Some(command) => if waiting {
                Effect::Nothing
            } else {
                Effect::Send(command.encode())
            },
            None => Effect::Nothing,
        }
    }

    /// Takes one message in. Returns what has to be done about it.
    pub fn update(&mut self, message: Message) -> (effect: Effect)
        requires
            old(self).wf(),
        ensures
            final(self).wf(),
            final(self).model() == app_step(old(self).model(), message),
            effect@ == app_effect(old(self).model(), message),
    {
        proof {
            self.webcam_find.lemma_wf();
            self.video_find.lemma_wf();
            self.registry_state.lemma_wf();
        }
        let effect = match self.target(&message) {
            Target::Registry => match message {
                Message::OpenFilePicker => Effect::PickFiles(FileKind::Images),
                other => self.registry_state.update(other, self.db),
            },
            Target::Image => self.image_find.update(message, self.db),
            Target::Video => self.video_find.update(message, self.db),
            Target::Webcam => self.webcam_find.update(message, self.db),
            Target::Nobody => Effect::Nothing,
            Target::Root => match message {
                Message::GoTo(page) => {
                    self.current_page = page;
                    self.image_find.reset();
                    self.video_find.reset();
                    self.webcam_find.leave()
                },
                Message::DbConnected(result) => {
                    if result.is_ok() {
                        self.db = true;
                    }
                    Effect::Nothing
                },
                Message::InitializePython => Effect::Send(Command::Start.encode()),
                Message::PythonInput(text) => self.input(text),
                Message::PythonOutput(line) => self.hear(line),
                Message::SendFailed(reason) => Effect::Log(reason),
                _ => Effect::Nothing,
            },
        };
        self.gate(effect)
    }

    /// What the window shows: the screen that is on.
    pub fn view(&self) -> (shown: Screen)
        requires
            self.wf(),
        ensures
            app_shows(self.model(), shown),
    {
        match self.current_page {
            Page::Dashboard => Screen::Dashboard,
            Page::Registry => Screen::Registry(self.registry_state.view()),
            Page::MainMenu => Screen::MainMenu(MainMenu::view()),
            Page::ImageFind => Screen::ImageFind(self.image_find.view()),
            Page::VideoFind => Screen::VideoFind(self.video_find.view()),
            Page::WebcamFind => Screen::WebcamFind(self.webcam_find.view()),
            Page::SignIn => Screen::Placeholder,
        }
    }
}

} // verus!
