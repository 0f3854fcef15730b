//! Identification from the live camera: a preview that is interrupted on
//! every tick of a clock for one captured frame, which is sent to the engine;
//! after ten frames in a row that matched no one the search gives up.

use crate::components::image_viewer::{
    next_index, next_index_spec, prev_index, prev_index_spec, GlassImageViewer,
};
use crate::entities::criminal::Model;
use crate::pages::common::{
    clone_strings, files_view, name_photo_files, parse_record_id, photo_files, record_id,
};
use crate::protocol::{line_of, Command, CommandView};
use crate::text::{append_decimal, decimal, texts};
use crate::webcam_task::{apply, ArbiterOp, ArbiterState, CaptureStart, DeviceArbiter};
use crate::workflow::{
    disciplined, lemma_one_answer_per_command, processed_in, AttemptCounter, NotFoundReason, Step,
    WorkflowState, MAX_ATTEMPTS,
};
use crate::{opt_text, Effect, EffectView, Message};
use vstd::prelude::*;

verus! {

/// The screen as a mathematical value.
pub struct WebcamModel {
    /// Live scanning is switched on.
    pub on: bool,
    pub state: WorkflowState,
    /// What the arbiter reports of the camera.
    pub arbiter: ArbiterState,
    /// Frames in a row that matched no one.
    pub attempts: nat,
    /// The camera could not be opened or the last capture failed.
    pub device_error: bool,
    /// The preview was asked for and the answer is not in yet.
    pub preview_pending: bool,
    /// The path of the frame captured last.
    pub last_frame: Option<Seq<char>>,
    /// The pictures shown of the person found.
    pub photos: Seq<Seq<char>>,
    /// The place of the picture on show.
    pub photo_index: nat,
}

/// The directory that the photographs of the person found are written to.
pub open spec fn webcam_photo_dir() -> Seq<char> {
    "temp_webcam_identify"@
}

/// The screen as it is first shown: scanning off, camera closed.
pub open spec fn webcam_initial() -> WebcamModel {
    WebcamModel {
        on: false,
        state: WorkflowState::Idle,
        arbiter: ArbiterState::Closed,
        attempts: 0,
        device_error: false,
        preview_pending: false,
        last_frame: None,
        photos: Seq::empty(),
        photo_index: 0,
    }
}

/// What holds of the screen at all times: the count of failed attempts
/// stays within its bound and reaches it only when the search has given up;
/// the camera is closed whenever a frame is with the engine or the store
/// and whenever the search has ended; the preview runs only while scanning;
/// and while the preview is being opened the camera counts as closed and
/// no frame is with the engine or the store.
pub open spec fn webcam_wf(m: WebcamModel) -> bool {
    &&& m.attempts <= MAX_ATTEMPTS
    &&& m.preview_pending ==> m.arbiter == ArbiterState::Closed && !m.state.is_busy()
    &&& m.attempts == MAX_ATTEMPTS ==> m.state is NotFound
    &&& m.state.is_busy() || m.state.is_terminal() ==> m.arbiter == ArbiterState::Closed
    &&& m.arbiter == ArbiterState::PreviewOpen ==> m.state is AwaitingInput
    &&& m.on <==> m.state is AwaitingInput || m.state.is_busy()
    &&& m.photos.len() == 0 ==> m.photo_index == 0
    &&& m.photos.len() > 0 ==> m.photo_index < m.photos.len()
}

/// The screen after scanning is switched on or the search is restarted:
/// a fresh count, nothing found, waiting for the first frame, and the
/// preview asked for if the camera is closed. The frame captured last and
/// the pictures stay as they are.
pub open spec fn restarted(m: WebcamModel) -> WebcamModel {
    WebcamModel {
        on: true,
        state: WorkflowState::AwaitingInput,
        attempts: 0,
        device_error: false,
        preview_pending: m.preview_pending || m.arbiter == ArbiterState::Closed,
        ..m
    }
}

/// The screen after a frame matched no one: one more failed attempt, and
/// with the tenth the search gives up; before that, scanning goes on.
pub open spec fn after_miss(m: WebcamModel) -> WebcamModel {
    let attempts = if m.attempts < MAX_ATTEMPTS {
        m.attempts + 1
    } else {
        m.attempts
    };
    if attempts >= MAX_ATTEMPTS {
        WebcamModel {
            on: false,
            state: WorkflowState::NotFound(m.state.miss_reason()),
            attempts,
            ..m
        }
    } else {
        WebcamModel {
            state: WorkflowState::AwaitingInput,
            attempts,
            preview_pending: true,
            ..m
        }
    }
}

/// The screen after the engine named someone: the store is asked who that
/// is, or, if the store cannot be asked, the frame counts as a miss.
/// Outside a request the name is ignored.
pub open spec fn webcam_named(m: WebcamModel, db: bool) -> WebcamModel {
    if m.state is Requesting {
        if db {
            WebcamModel { state: WorkflowState::Identifying, ..m }
        } else {
            after_miss(m)
        }
    } else {
        m
    }
}

/// The screen after the engine matched no one or the store had no record:
/// a miss. Outside an identification this is ignored.
pub open spec fn webcam_missed(m: WebcamModel) -> WebcamModel {
    if m.state.is_busy() {
        after_miss(m)
    } else {
        m
    }
}

/// The screen after the operator went to another screen: scanning off,
/// everything forgotten, and the preview's hold on the camera given up.
pub open spec fn webcam_left(m: WebcamModel) -> WebcamModel {
    WebcamModel { arbiter: apply(m.arbiter, ArbiterOp::DisablePreview), ..webcam_initial() }
}

/// Whether a tick of the clock starts a capture: only while scanning waits
/// for a frame, attempts are left, no capture is in flight, and the preview
/// is not just being opened.
pub open spec fn tick_captures(m: WebcamModel) -> bool {
    m.on && m.state is AwaitingInput && m.attempts < MAX_ATTEMPTS && m.arbiter
        != ArbiterState::CaptureInFlight && !m.preview_pending
}

/// The screen after `message`. `db` tells whether the store can be asked.
pub open spec fn webcam_step(m: WebcamModel, message: Message, db: bool) -> WebcamModel {
    match message {
        Message::ToggleWebcam(on) => if on {
            restarted(m)
        } else {
            WebcamModel {
                on: false,
                state: if m.state.is_terminal() {
                    m.state
                } else {
                    WorkflowState::Idle
                },
                arbiter: apply(m.arbiter, ArbiterOp::DisablePreview),
                ..m
            }
        },
        Message::ResetWebcamSearch => if m.state.is_terminal() {
            restarted(m)
        } else {
            m
        },
        Message::PreviewOpened(opened) => if m.state is AwaitingInput && m.arbiter
            == ArbiterState::Closed {
            WebcamModel {
                arbiter: apply(m.arbiter, ArbiterOp::EnablePreview { opened }),
                device_error: !opened,
                preview_pending: false,
                ..m
            }
        } else {
            WebcamModel { preview_pending: false, ..m }
        },
        Message::TickWebcam => if tick_captures(m) {
            WebcamModel { arbiter: apply(m.arbiter, ArbiterOp::BeginCapture), ..m }
        } else {
            m
        },
        Message::WebcamFrameCaptured(path) => if m.arbiter != ArbiterState::CaptureInFlight {
            m
        } else if !(m.state is AwaitingInput) {
            WebcamModel { arbiter: ArbiterState::Closed, last_frame: Some(path@), ..m }
        } else if path@.len() == 0 {
            WebcamModel {
                arbiter: ArbiterState::Closed,
                last_frame: Some(path@),
                device_error: true,
                preview_pending: true,
                ..m
            }
        } else {
            WebcamModel {
                arbiter: ArbiterState::Closed,
                last_frame: Some(path@),
                device_error: false,
                state: WorkflowState::Requesting,
                ..m
            }
        },
        Message::Identity(_) => webcam_named(m, db),
        Message::IdentityError(_) => webcam_missed(m),
        Message::IdentityDataLoaded(record) => if m.state is Identifying {
            WebcamModel { on: false, attempts: 0, state: WorkflowState::Found(record), ..m }
        } else {
            m
        },
        Message::IdentityDataLoadedWithPhotos(record, _) => if m.state is Found {
            WebcamModel { state: WorkflowState::Found(record), ..m }
        } else {
            m
        },
        Message::PhotosStored(paths) => if m.state is Found {
            WebcamModel {
                photos: match m.last_frame {
                    Some(frame) => seq![frame] + texts(paths@),
                    None => texts(paths@),
                },
                photo_index: 0,
                ..m
            }
        } else {
            m
        },
        Message::NextImage => WebcamModel {
            photo_index: next_index_spec(m.photo_index, m.photos.len()),
            ..m
        },
        Message::PrevImage => WebcamModel {
            photo_index: prev_index_spec(m.photo_index, m.photos.len()),
            ..m
        },
        _ => m,
    }
}

/// What restarting asks for: the preview, if the camera is closed and the
/// preview is not being opened already.
pub open spec fn restart_effect(m: WebcamModel) -> EffectView {
    if m.arbiter == ArbiterState::Closed && !m.preview_pending {
        EffectView::OpenPreview
    } else {
        EffectView::Nothing
    }
}

/// What a miss asks for: the preview again, unless the search gives up.
pub open spec fn miss_effect(m: WebcamModel) -> EffectView {
    if after_miss(m).state is NotFound {
        EffectView::Nothing
    } else {
        EffectView::OpenPreview
    }
}

/// What the screen asks for when the engine named `id`.
pub open spec fn webcam_named_effect(m: WebcamModel, id: Seq<char>, db: bool) -> EffectView {
    if m.state is Requesting {
        if db {
            EffectView::LookupRecord(record_id(id))
        } else {
            miss_effect(m)
        }
    } else {
        EffectView::Nothing
    }
}

/// What the screen asks for when a frame matched no one.
pub open spec fn webcam_missed_effect(m: WebcamModel) -> EffectView {
    if m.state.is_busy() {
        miss_effect(m)
    } else {
        EffectView::Nothing
    }
}

/// What leaving the screen asks for: to close the preview if it runs.
pub open spec fn webcam_left_effect(m: WebcamModel) -> EffectView {
    if m.arbiter == ArbiterState::PreviewOpen {
        EffectView::ClosePreview
    } else {
        EffectView::Nothing
    }
}

/// What the screen asks for in answer to `message`.
pub open spec fn webcam_effect(m: WebcamModel, message: Message, db: bool) -> EffectView {
    match message {
        Message::ToggleWebcam(on) => if on {
            restart_effect(m)
        } else if m.arbiter == ArbiterState::PreviewOpen {
            EffectView::ClosePreview
        } else {
            EffectView::Nothing
        },
        Message::ResetWebcamSearch => if m.state.is_terminal() {
            restart_effect(m)
        } else {
            EffectView::Nothing
        },
        Message::PreviewOpened(opened) => if m.state is AwaitingInput && m.arbiter
            == ArbiterState::Closed {
            EffectView::Nothing
        } else if opened {
            // A preview that nobody waits for is closed at once.
            EffectView::ClosePreview
        } else {
            EffectView::Nothing
        },
        Message::TickWebcam => if tick_captures(m) {
            EffectView::CaptureFrame { release_preview: m.arbiter == ArbiterState::PreviewOpen }
        } else {
            EffectView::Nothing
        },
        Message::WebcamFrameCaptured(path) => if m.arbiter != ArbiterState::CaptureInFlight
            || !(m.state is AwaitingInput) {
            EffectView::Nothing
        } else if path@.len() == 0 {
            EffectView::OpenPreview
        } else {
            EffectView::Send(line_of(CommandView::IdentifyImage(path@)))
        },
        Message::Identity(id) => webcam_named_effect(m, id@, db),
        Message::IdentityError(_) => webcam_missed_effect(m),
        Message::IdentityDataLoaded(record) => if m.state is Identifying && db {
            EffectView::LookupRecordWithPhotos(record.criminal_id)
        } else {
            EffectView::Nothing
        },
        Message::IdentityDataLoadedWithPhotos(_, photos) => if m.state is Found {
            EffectView::StorePhotos(photo_files(webcam_photo_dir(), photos@))
        } else {
            EffectView::Nothing
        },
        _ => EffectView::Nothing,
    }
}

/// Whether the step sends a command to the engine.
pub open spec fn webcam_sends(m: WebcamModel, message: Message, db: bool) -> bool {
    webcam_effect(m, message, db) is Send
}

/// Whether the step takes in an answer of the engine.
pub open spec fn webcam_processes(m: WebcamModel, message: Message) -> bool {
    m.state is Requesting && (message is Identity || message is IdentityError)
}

/// The screen after taking `messages` in, in order.
pub open spec fn webcam_run(m: WebcamModel, messages: Seq<Message>, db: bool) -> WebcamModel
    decreases messages.len(),
{
    if messages.len() == 0 {
        m
    } else {
        webcam_step(webcam_run(m, messages.drop_last(), db), messages.last(), db)
    }
}

/// No message breaks what holds of the screen at all times.
pub proof fn lemma_webcam_step_wf(m: WebcamModel, message: Message, db: bool)
    requires
        webcam_wf(m),
    ensures
        webcam_wf(webcam_step(m, message, db)),
{
}

/// The count of failed attempts never exceeds its bound, whatever messages
/// arrive and in whatever order, and whenever it stands at its bound the
/// camera is closed.
pub proof fn lemma_attempts_never_exceed_bound(messages: Seq<Message>, db: bool)
    ensures
        webcam_run(webcam_initial(), messages, db).attempts <= MAX_ATTEMPTS,
        webcam_run(webcam_initial(), messages, db).attempts == MAX_ATTEMPTS ==> webcam_run(
            webcam_initial(),
            messages,
            db,
        ).arbiter == ArbiterState::Closed,
{
    lemma_webcam_run_wf(webcam_initial(), messages, db);
}

/// No capture begins while the preview is being opened: a tick in between
/// changes nothing and asks for nothing, so the camera is never asked for
/// while whoever opens the preview may hold it. The preview is asked for
/// only while no earlier asking is unanswered, and whenever it is asked
/// for, the screen remembers it until the answer is in.
pub proof fn lemma_no_capture_while_preview_opens(m: WebcamModel, message: Message, db: bool)
    requires
        webcam_wf(m),
    ensures
        m.preview_pending ==> webcam_step(m, Message::TickWebcam, db) == m && webcam_effect(
            m,
            Message::TickWebcam,
            db,
        ) == EffectView::Nothing,
        webcam_effect(m, message, db) == EffectView::OpenPreview ==> webcam_step(
            m,
            message,
            db,
        ).preview_pending,
        webcam_effect(m, message, db) == EffectView::OpenPreview ==> !m.preview_pending,
        webcam_effect(m, message, db) is CaptureFrame ==> !m.preview_pending,
        message is PreviewOpened ==> !webcam_step(m, message, db).preview_pending,
{
}

/// The step that brings the count to its bound ends the search and leaves
/// the camera closed and scanning off.
pub proof fn lemma_bound_reached_closes_device(m: WebcamModel, message: Message, db: bool)
    requires
        webcam_wf(m),
        webcam_step(m, message, db).attempts == MAX_ATTEMPTS,
    ensures
        webcam_step(m, message, db).arbiter == ArbiterState::Closed,
        webcam_step(m, message, db).state is NotFound,
        !webcam_step(m, message, db).on,
        !tick_captures(webcam_step(m, message, db)),
{
}

/// Switching scanning off releases the preview and stops the ticks from
/// capturing; what the engine or the store say afterwards is ignored.
pub proof fn lemma_toggle_off_discards(m: WebcamModel, later: Message, db: bool)
    requires
        webcam_wf(m),
        later is Identity || later is IdentityError || later is IdentityDataLoaded
            || later is TickWebcam,
    ensures
        ({
            let off = webcam_step(m, Message::ToggleWebcam(false), db);
            &&& !off.on
            &&& off.arbiter != ArbiterState::PreviewOpen
            &&& webcam_step(off, later, db) == off
            &&& webcam_effect(off, later, db) == EffectView::Nothing
        }),
{
}

/// Every step of the screen keeps the discipline of one request at a time.
pub proof fn lemma_webcam_step_disciplined(m: WebcamModel, message: Message, db: bool)
    requires
        webcam_wf(m),
    ensures
        disciplined(
            Step {
                awaiting_before: m.state.awaits_engine(),
                awaiting_after: webcam_step(m, message, db).state.awaits_engine(),
                sent: webcam_sends(m, message, db),
                processed: webcam_processes(m, message),
            },
        ),
{
}

/// No sequence of messages breaks what holds of the screen at all times.
pub proof fn lemma_webcam_run_wf(m: WebcamModel, messages: Seq<Message>, db: bool)
    requires
        webcam_wf(m),
    ensures
        webcam_wf(webcam_run(m, messages, db)),
    decreases messages.len(),
{
    if messages.len() > 0 {
        lemma_webcam_run_wf(m, messages.drop_last(), db);
        lemma_webcam_step_wf(webcam_run(m, messages.drop_last(), db), messages.last(), db);
    }
}

/// The traffic with the engine while the screen takes `messages` in.
pub open spec fn webcam_trace(m: WebcamModel, messages: Seq<Message>, db: bool) -> Seq<Step> {
    Seq::new(
        messages.len(),
        |i: int|
            Step {
                awaiting_before: webcam_run(m, messages.take(i), db).state.awaits_engine(),
                awaiting_after: webcam_run(m, messages.take(i + 1), db).state.awaits_engine(),
                sent: webcam_sends(webcam_run(m, messages.take(i), db), messages[i], db),
                processed: webcam_processes(webcam_run(m, messages.take(i), db), messages[i]),
            },
    )
}

/// Single outstanding request: whatever messages arrive, between a frame
/// that the screen sends to the engine and the next frame it sends, it takes
/// in at most one answer of the engine, and it sends no frame while one is
/// outstanding.
pub proof fn lemma_webcam_single_outstanding_request(
    m: WebcamModel,
    messages: Seq<Message>,
    db: bool,
    first: int,
    next: int,
)
    requires
        webcam_wf(m),
        0 <= first < next < messages.len(),
        webcam_trace(m, messages, db)[first].sent,
        webcam_trace(m, messages, db)[next].sent,
        forall|k: int| first < k < next ==> !(#[trigger] webcam_trace(m, messages, db)[k]).sent,
    ensures
        processed_in(webcam_trace(m, messages, db), first + 1, next) <= 1,
        !webcam_trace(m, messages, db)[next].awaiting_before,
{
    let t = webcam_trace(m, messages, db);
    assert forall|i: int| 0 <= i < t.len() implies disciplined(#[trigger] t[i]) by {
        let before = webcam_run(m, messages.take(i), db);
        lemma_webcam_run_wf(m, messages.take(i), db);
        lemma_webcam_step_disciplined(before, messages[i], db);
        assert(messages.take(i + 1).drop_last() =~= messages.take(i));
        assert(messages.take(i + 1).last() == messages[i]);
    }
    lemma_one_answer_per_command(t, first, next);
}

/// The left half of the screen.
#[derive(Debug, Clone, PartialEq, Eq)]
pub enum WebcamSource {
    /// The pictures of the person found, the captured frame first.
    Viewer(GlassImageViewer),
    /// A person was found but the frame that matched is gone.
    MatchFrameLost,
    /// The live preview.
    LiveFeed,
    /// The button that switches scanning on.
    Initiate,
}

/// The fields shown of a record that was found.
#[derive(Debug, Clone, PartialEq, Eq)]
pub struct WebcamDetails {
    pub name: String,
    pub id_line: String,
    pub violations_line: String,
}

/// The middle of the right half of the screen.
#[derive(Debug, Clone, PartialEq, Eq)]
pub enum WebcamStatus {
    /// A frame is with the engine or the store.
    Analyzing,
    /// The search gave up; the last frame failed for this reason.
    Exhausted(NotFoundReason),
    /// The record that matched.
    Details(WebcamDetails),
    /// Scanning, on the attempt with this number, counted from 1.
    Scanning(u32),
    /// Scanning is off.
    Ready,
}

/// What the screen shows.
#[derive(Debug, Clone, PartialEq, Eq)]
pub struct WebcamFindView {
    pub left: WebcamSource,
    pub status: WebcamStatus,
    /// The footer offers to restart the scanner, which it does once the
    /// search has ended.
    pub offers_restart: bool,
}

/// Whether `shown` is what the screen `m` shows: on the left the pictures
/// of the person found, or else the live preview while it runs, or else the
/// button that starts it; on the right the state of the search, with the
/// number of the attempt while scanning; and the offer to restart once the
/// search has ended.
pub open spec fn webcam_shows(m: WebcamModel, shown: WebcamFindView) -> bool {
    &&& shown.offers_restart == m.state.is_terminal()
    &&& match shown.left {
        WebcamSource::Viewer(viewer) => m.state is Found && m.last_frame is Some
            && viewer.paths() == m.photos && viewer.index() == m.photo_index,
        WebcamSource::MatchFrameLost => m.state is Found && m.last_frame is None,
        WebcamSource::LiveFeed => !(m.state is Found) && m.arbiter == ArbiterState::PreviewOpen,
        WebcamSource::Initiate => !(m.state is Found) && m.arbiter != ArbiterState::PreviewOpen,
    }
    &&& match shown.status {
        WebcamStatus::Analyzing => m.state.is_busy(),
        WebcamStatus::Exhausted(reason) => m.state == WorkflowState::NotFound(reason),
        WebcamStatus::Details(d) => match m.state {
            WorkflowState::Found(record) => d.name@ == record.name@ && d.id_line@ == "ID: "@
                + decimal(record.criminal_id as nat) && d.violations_line@ == "Violations: "@
                + decimal(record.no_of_crimes as nat) + " counts"@,
            _ => false,
        },
        WebcamStatus::Scanning(attempt) => m.state is AwaitingInput && attempt == m.attempts + 1
            && attempt <= MAX_ATTEMPTS,
        WebcamStatus::Ready => m.state is Idle,
    }
}

/// The live identification screen.
#[derive(Debug)]
pub struct WebcamFindPage {
    is_webcam_on: bool,
    state: WorkflowState,
    arbiter: DeviceArbiter,
    unknown_count: AttemptCounter,
    device_error: bool,
    preview_pending: bool,
    last_captured_frame: Option<String>,
    suspect_photos: Vec<String>,
    current_photo_index: usize,
}

impl Default for WebcamFindPage {
    fn default() -> (page: Self)
        ensures
            page.wf(),
            page.model() == webcam_initial(),
    {
        let page = WebcamFindPage {
            is_webcam_on: false,
            state: WorkflowState::Idle,
            arbiter: DeviceArbiter::new(),
            unknown_count: AttemptCounter::new(),
            device_error: false,
            preview_pending: false,
            last_captured_frame: None,
            suspect_photos: Vec::new(),
            current_photo_index: 0,
        };
        assert(texts(page.suspect_photos@) =~= Seq::<Seq<char>>::empty());
        page
    }
}

impl WebcamFindPage {
    /// The screen as a mathematical value.
    pub closed spec fn model(&self) -> WebcamModel {
        WebcamModel {
            on: self.is_webcam_on,
            state: self.state,
            arbiter: self.arbiter@,
            attempts: self.unknown_count@,
            device_error: self.device_error,
            preview_pending: self.preview_pending,
            last_frame: opt_text(self.last_captured_frame),
            photos: texts(self.suspect_photos@),
            photo_index: self.current_photo_index as nat,
        }
    }

    /// The screen is in a state that its own steps can have led to.
    pub closed spec fn wf(&self) -> bool {
        webcam_wf(self.model())
    }

    /// What `wf` says of the model.
    pub proof fn lemma_wf(&self)
        requires
            self.wf(),
        ensures
            webcam_wf(self.model()),
    {
    }

    /// The screen as it is first shown.
    pub fn new() -> (page: Self)
        ensures
            page.wf(),
            page.model() == webcam_initial(),
    {
        Self::default()
    }

    fn restart(&mut self) -> (effect: Effect)
        requires
            old(self).wf(),
        ensures
            final(self).wf(),
            final(self).model() == restarted(old(self).model()),
            effect@ == restart_effect(old(self).model()),
    {
        self.is_webcam_on = true;
        self.state = WorkflowState::AwaitingInput;
        self.unknown_count.reset();
        self.device_error = false;
        if self.arbiter.preview_needs_device() {
            if self.preview_pending {
                Effect::Nothing
            } else {
                self.preview_pending = true;
                Effect::OpenPreview
            }
        } else {
            Effect::Nothing
        }
    }

    fn miss(&mut self) -> (effect: Effect)
        requires
            old(self).wf(),
            old(self).model().state.is_busy(),
        ensures
            final(self).wf(),
            final(self).model() == after_miss(old(self).model()),
            effect@ == miss_effect(old(self).model()),
    {
        let reason = self.state.reason_of_miss();
        let exhausted = self.unknown_count.record_miss();
        if exhausted {
            self.state = WorkflowState::NotFound(reason);
            self.is_webcam_on = false;
            Effect::Nothing
        } else {
            self.state = WorkflowState::AwaitingInput;
            self.preview_pending = true;
            Effect::OpenPreview
        }
    }

    /// Takes one message in. Returns what has to be done about it.
    pub fn update(&mut self, message: Message, db: bool) -> (effect: Effect)
        requires
            old(self).wf(),
        ensures
            final(self).wf(),
            final(self).model() == webcam_step(old(self).model(), message, db),
            effect@ == webcam_effect(old(self).model(), message, db),
    {
        match message {
            Message::ToggleWebcam(on) => {
                if on {
                    self.restart()
                } else {
                    self.is_webcam_on = false;
                    if !self.state.terminal() {
                        self.state = WorkflowState::Idle;
                    }
                    if self.arbiter.disable_preview() {
                        Effect::ClosePreview
                    } else {
                        Effect::Nothing
                    }
                }
            },
            Message::ResetWebcamSearch => {
                if self.state.terminal() {
                    self.restart()
                } else {
                    Effect::Nothing
                }
            },
            Message::PreviewOpened(opened) => {
                let waiting = match self.state {
                    WorkflowState::AwaitingInput => true,
                    _ => false,
                };
                self.preview_pending = false;
                if waiting && self.arbiter.preview_needs_device() {
                    self.arbiter.enable_preview(opened);
                    self.device_error = !opened;
                    Effect::Nothing
                } else if opened {
                    Effect::ClosePreview
                } else {
                    Effect::Nothing
                }
            },
            Message::TickWebcam => {
                let waiting = match self.state {
                    WorkflowState::AwaitingInput => true,
                    _ => false,
                };
                let capturing = match self.arbiter.state() {
                    ArbiterState::CaptureInFlight => true,
                    _ => false,
                };
                if self.is_webcam_on && waiting && !self.unknown_count.is_exhausted()
                    && !capturing && !self.preview_pending {
                    match self.arbiter.one_shot_capture() {
                        CaptureStart::ReleasePreviewThenCapture => Effect::CaptureFrame {
                            release_preview: true,
                        },
                        _ => Effect::CaptureFrame { release_preview: false },
                    }
                } else {
                    Effect::Nothing
                }
            },
            Message::WebcamFrameCaptured(path) => {
                if !self.arbiter.capture_done() {
                    return Effect::Nothing;
                }
                self.last_captured_frame = Some(path.clone());
                let waiting = match self.state {
                    WorkflowState::AwaitingInput => true,
                    _ => false,
                };
                if !waiting {
                    Effect::Nothing
                } else if path.as_str().is_empty() {
                    self.device_error = true;
                    self.preview_pending = true;
                    Effect::OpenPreview
                } else {
                    self.device_error = false;
                    self.state = WorkflowState::Requesting;
                    Effect::Send(Command::IdentifyImage(path).encode())
                }
            },
            Message::Identity(id) => {
                if self.state.is_awaiting_engine() {
                    if db {
                        self.state = WorkflowState::Identifying;
                        Effect::LookupRecord(parse_record_id(id.as_str()))
                    } else {
                        self.miss()
                    }
                } else {
                    Effect::Nothing
                }
            },
            Message::IdentityError(_) => {
                if self.state.busy() {
                    self.miss()
                } else {
                    Effect::Nothing
                }
            },
            Message::IdentityDataLoaded(record) => {
                match self.state {
                    WorkflowState::Identifying => {
                        let id = record.criminal_id;
                        self.is_webcam_on = false;
                        self.unknown_count.reset();
                        self.state = WorkflowState::Found(record);
                        if db {
                            Effect::LookupRecordWithPhotos(id)
                        } else {
                            Effect::Nothing
                        }
                    },
                    _ => Effect::Nothing,
                }
            },
            Message::IdentityDataLoadedWithPhotos(record, photos) => {
                if self.state.record().is_some() {
                    self.state = WorkflowState::Found(record);
                    let files = name_photo_files("temp_webcam_identify", photos);
                    assert(files_view(files@) =~= Seq::new(files@.len(), |i: int| files@[i]@));
                    Effect::StorePhotos(files)
                } else {
                    Effect::Nothing
                }
            },
            Message::PhotosStored(paths) => {
                if self.state.record().is_some() {
                    let mut photos: Vec<String> = Vec::new();
                    match &self.last_captured_frame {
                        Some(frame) => {
                            photos.push(frame.clone());
                        },
                        None => {},
                    }
                    let ghost head = photos@;
                    let mut rest = paths;
                    photos.append(&mut rest);
                    assert(texts(photos@) =~= texts(head) + texts(paths@));
                    assert(self.last_captured_frame is Some ==> texts(head) =~= seq![
                        self.last_captured_frame->0@,
                    ]);
                    assert(self.last_captured_frame is None ==> texts(head) + texts(paths@)
                        =~= texts(paths@));
                    self.suspect_photos = photos;
                    self.current_photo_index = 0;
                }
                Effect::Nothing
            },
            Message::NextImage => {
                self.current_photo_index = next_index(
                    self.current_photo_index,
                    self.suspect_photos.len(),
                );
                Effect::Nothing
            },
            Message::PrevImage => {
                self.current_photo_index = prev_index(
                    self.current_photo_index,
                    self.suspect_photos.len(),
                );
                Effect::Nothing
            },
            _ => Effect::Nothing,
        }
    }

    /// Takes in that the operator went to another screen.
    pub fn leave(&mut self) -> (effect: Effect)
        requires
            old(self).wf(),
        ensures
            final(self).wf(),
            final(self).model() == webcam_left(old(self).model()),
            effect@ == webcam_left_effect(old(self).model()),
    {
        self.is_webcam_on = false;
        self.state = WorkflowState::Idle;
        self.unknown_count.reset();
        self.device_error = false;
        self.preview_pending = false;
        self.last_captured_frame = None;
        self.suspect_photos = Vec::new();
        self.current_photo_index = 0;
        assert(texts(self.suspect_photos@) =~= Seq::<Seq<char>>::empty());
        if self.arbiter.disable_preview() {
            Effect::ClosePreview
        } else {
            Effect::Nothing
        }
    }

    /// Whether live scanning is switched on.
    pub fn is_webcam_on(&self) -> (b: bool)
        ensures
            b == self.model().on,
    {
        self.is_webcam_on
    }

    /// Where the identification stands.
    pub fn state(&self) -> (state: &WorkflowState)
        ensures
            *state == self.model().state,
    {
        &self.state
    }

    /// What the arbiter reports of the camera.
    pub fn device(&self) -> (s: ArbiterState)
        ensures
            s == self.model().arbiter,
    {
        self.arbiter.state()
    }

    /// Frames in a row that matched no one, never more than ten.
    pub fn unknown_count(&self) -> (n: u32)
        requires
            self.wf(),
        ensures
            n == self.model().attempts,
            n <= MAX_ATTEMPTS,
    {
        self.unknown_count.value()
    }

    /// Whether a frame is with the engine or the store.
    pub fn is_identifying(&self) -> (b: bool)
        ensures
            b == self.model().state.is_busy(),
    {
        self.state.busy()
    }

    /// Whether the search gave up.
    pub fn not_found(&self) -> (b: bool)
        ensures
            b == (self.model().state is NotFound),
    {
        match self.state {
            WorkflowState::NotFound(_) => true,
            _ => false,
        }
    }

    /// Whether the camera could not be opened or the last capture failed.
    pub fn device_error(&self) -> (b: bool)
        ensures
            b == self.model().device_error,
    {
        self.device_error
    }

    /// Whether the preview was asked for and the answer is not in yet.
    pub fn preview_pending(&self) -> (b: bool)
        ensures
            b == self.model().preview_pending,
    {
        self.preview_pending
    }

    /// The record that was found, if one was.
    pub fn identified_data(&self) -> (r: Option<&Model>)
        ensures
            match r {
                Some(m) => self.model().state == WorkflowState::Found(*m),
                None => !(self.model().state is Found),
            },
    {
        self.state.record()
    }

    /// The pictures shown of the person found.
    pub fn suspect_photos(&self) -> (paths: &Vec<String>)
        ensures
            texts(paths@) == self.model().photos,
    {
        &self.suspect_photos
    }

    /// The place of the picture on show.
    pub fn current_photo_index(&self) -> (i: usize)
        ensures
            i == self.model().photo_index,
    {
        self.current_photo_index
    }

    /// The path of the frame captured last.
    pub fn last_captured_frame(&self) -> (frame: &Option<String>)
        ensures
            opt_text(*frame) == self.model().last_frame,
    {
        &self.last_captured_frame
    }

    /// What the screen shows.
    pub fn view(&self) -> (shown: WebcamFindView)
        requires
            self.wf(),
        ensures
            webcam_shows(self.model(), shown),
    {
        let left = match &self.state {
            WorkflowState::Found(_) => match &self.last_captured_frame {
                Some(_) => WebcamSource::Viewer(
                    GlassImageViewer::new(
                        clone_strings(&self.suspect_photos),
                        self.current_photo_index,
                    ),
                ),
                None => WebcamSource::MatchFrameLost,
            },
            _ => match self.arbiter.state() {
                ArbiterState::PreviewOpen => WebcamSource::LiveFeed,
                _ => WebcamSource::Initiate,
            },
        };
        let status = match &self.state {
            WorkflowState::Requesting => WebcamStatus::Analyzing,
            WorkflowState::Identifying => WebcamStatus::Analyzing,
            WorkflowState::NotFound(reason) => WebcamStatus::Exhausted(*reason),
            WorkflowState::Found(record) => {
                let mut id_line = String::from_str("ID: ");
                append_decimal(&mut id_line, record.criminal_id as u64);
                let mut violations_line = String::from_str("Violations: ");
                append_decimal(&mut violations_line, record.no_of_crimes as u64);
                violations_line.append(" counts");
                WebcamStatus::Details(
                    WebcamDetails { name: record.name.clone(), id_line, violations_line },
                )
            },
            WorkflowState::AwaitingInput => WebcamStatus::Scanning(self.unknown_count.value() + 1),
            WorkflowState::Idle => WebcamStatus::Ready,
        };
        WebcamFindView { left, status, offers_restart: self.state.terminal() }
    }
}

} // verus!
