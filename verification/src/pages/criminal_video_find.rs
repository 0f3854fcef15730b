//! Identification from a video file.

use crate::components::image_viewer::{
    next_index, next_index_spec, prev_index, prev_index_spec, GlassImageViewer,
};
use crate::entities::criminal::Model;
use crate::pages::common::{
    clone_strings, files_view, name_photo_files, parse_record_id, photo_files, record_id,
};
use crate::pages::criminal_image_find::or_not_available;
use crate::protocol::{line_of, Command, CommandView};
use crate::text::{append_decimal, decimal, texts, u32_to_string};
use crate::workflow::{
    disciplined, lemma_one_answer_per_command, processed_in, NotFoundReason, Step, WorkflowState,
};
use crate::{opt_text, Effect, EffectView, FileKind, Message};
use vstd::prelude::*;

verus! {

/// The `file:` URL that the `url` crate writes for a path on this target
/// system, or `None` where it writes none (a path that is not absolute).
pub uninterp spec fn file_url_text(path: Seq<char>) -> Option<Seq<char>>;

/// `url::Url::from_file_path`, with the URL handed back as its text.
/// On one target system the text is a function of the path alone: the
/// percent-encoded path behind `file://`.
#[verifier::external_body]
fn file_url(path: &str) -> (url: Option<String>)
    ensures
        opt_text(url) == file_url_text(path@),
{
    match url::Url::from_file_path(path) {
        Ok(u) => Some(String::from(u)),
        Err(_) => None,
    }
}

/// The text that the `chrono` crate writes for the time `seconds` and
/// `nanos` nanoseconds after the Unix epoch, in UTC, or `None` where the
/// crate holds no such time: one beyond its years, or with a fraction that
/// is no fraction of that second.
pub uninterp spec fn utc_text(seconds: i64, nanos: u32) -> Option<Seq<char>>;

/// `chrono::DateTime::from_timestamp`, and the `to_string` of the time it
/// gives. The text is a function of the seconds and the nanoseconds alone:
/// the date, the time of day with its fraction, and the mark `UTC`.
#[verifier::external_body]
fn format_utc(seconds: i64, nanos: u32) -> (text: Option<String>)
    ensures
        opt_text(text) == utc_text(seconds, nanos),
{
    match chrono::DateTime::from_timestamp(seconds, nanos) {
        Some(time) => Some(time.to_string()),
        None => None,
    }
}

/// The screen as a mathematical value.
pub struct VideoFindModel {
    /// The path of the video that is open for playback.
    pub selected_video: Option<Seq<char>>,
    pub state: WorkflowState,
    /// The photographs on record of the person found.
    pub photos: Seq<Seq<char>>,
    /// The place of the photograph on show.
    pub photo_index: nat,
}

/// The directory that the photographs of the person found are written to.
pub open spec fn video_photo_dir() -> Seq<char> {
    "temp_identify"@
}

/// The screen as it is first shown.
pub open spec fn video_initial() -> VideoFindModel {
    VideoFindModel {
        selected_video: None,
        state: WorkflowState::Idle,
        photos: Seq::empty(),
        photo_index: 0,
    }
}

/// The index on show points into the photographs.
pub open spec fn video_wf(m: VideoFindModel) -> bool {
    &&& m.photos.len() == 0 ==> m.photo_index == 0
    &&& m.photos.len() > 0 ==> m.photo_index < m.photos.len()
}

/// The screen after the engine named someone: the store is asked for the
/// record and its photographs, or, if the store cannot be asked, the search
/// ends without a record. Outside a request the name is ignored.
pub open spec fn video_named(m: VideoFindModel, db: bool) -> VideoFindModel {
    if m.state is Requesting {
        VideoFindModel {
            state: if db {
                WorkflowState::Identifying
            } else {
                WorkflowState::NotFound(NotFoundReason::LookupError)
            },
            ..m
        }
    } else {
        m
    }
}

/// What the screen asks for when the engine named `id`.
pub open spec fn video_named_effect(m: VideoFindModel, id: Seq<char>, db: bool) -> EffectView {
    if m.state is Requesting && db {
        EffectView::LookupRecordWithPhotos(record_id(id))
    } else {
        EffectView::Nothing
    }
}

/// The screen after the engine matched no one or the store had no record:
/// the search ends. Outside an identification this is ignored.
pub open spec fn video_missed(m: VideoFindModel) -> VideoFindModel {
    if m.state.is_busy() {
        VideoFindModel { state: WorkflowState::NotFound(m.state.miss_reason()), ..m }
    } else {
        m
    }
}

/// The screen after the operator asked by hand that a video be identified:
/// the request is under way and the photographs of the last search are
/// gone, unless an identification is under way already.
pub open spec fn video_asked(m: VideoFindModel) -> VideoFindModel {
    if m.state.is_busy() {
        m
    } else {
        VideoFindModel {
            state: WorkflowState::Requesting,
            photos: Seq::empty(),
            photo_index: 0,
            ..m
        }
    }
}

/// What the screen asks for when the operator asked by hand that the video
/// at `path` be identified.
pub open spec fn video_asked_effect(m: VideoFindModel, path: Seq<char>) -> EffectView {
    if m.state.is_busy() {
        EffectView::Nothing
    } else {
        EffectView::Send(line_of(CommandView::IdentifyVideo(path)))
    }
}

/// What picking the file at `path` asks for: to open it by its URL, unless
/// an identification is under way or the path has no URL.
pub open spec fn video_selected_effect(
    m: VideoFindModel,
    path: Seq<char>,
    url: Option<Seq<char>>,
) -> EffectView {
    if m.state.is_busy() {
        EffectView::Nothing
    } else {
        match url {
            Some(u) => EffectView::OpenVideo { path, url: u },
            None => EffectView::Nothing,
        }
    }
}

/// The screen after `message`. `db` tells whether the store can be asked.
pub open spec fn video_step(m: VideoFindModel, message: Message, db: bool) -> VideoFindModel {
    match message {
        Message::OpenFilePicker => if m.state.is_busy() {
            m
        } else {
            VideoFindModel { state: WorkflowState::AwaitingInput, ..m }
        },
        Message::VideoOpened(path) => if m.state.is_busy() {
            m
        } else {
            VideoFindModel {
                selected_video: Some(path@),
                state: WorkflowState::Requesting,
                photos: Seq::empty(),
                photo_index: 0,
            }
        },
        Message::IdentifyCriminalVideo(_) => video_asked(m),
        Message::Identity(_) => video_named(m, db),
        Message::IdentityDataLoadedWithPhotos(record, _) => if m.state is Identifying {
            VideoFindModel {
                state: WorkflowState::Found(record),
                photos: Seq::empty(),
                photo_index: 0,
                ..m
            }
        } else {
            m
        },
        Message::PhotosStored(paths) => if m.state is Found {
            VideoFindModel { photos: texts(paths@), photo_index: 0, ..m }
        } else {
            m
        },
        Message::IdentityError(_) => video_missed(m),
        Message::NextImage => VideoFindModel {
            photo_index: next_index_spec(m.photo_index, m.photos.len()),
            ..m
        },
        Message::PrevImage => VideoFindModel {
            photo_index: prev_index_spec(m.photo_index, m.photos.len()),
            ..m
        },
        _ => m,
    }
}

/// What the screen asks for in answer to `message`.
pub open spec fn video_effect(m: VideoFindModel, message: Message, db: bool) -> EffectView {
    match message {
        Message::OpenFilePicker => if m.state.is_busy() {
            EffectView::Nothing
        } else {
            EffectView::PickFiles(FileKind::Videos)
        },
        Message::FilesSelected(paths) => if paths@.len() == 0 {
            EffectView::Nothing
        } else {
            video_selected_effect(m, paths@[0]@, file_url_text(paths@[0]@))
        },
        Message::VideoOpened(path) => if m.state.is_busy() {
            EffectView::Nothing
        } else {
            EffectView::Send(line_of(CommandView::IdentifyVideo(path@)))
        },
        Message::IdentifyCriminalVideo(path) => video_asked_effect(m, path@),
        Message::Identity(id) => video_named_effect(m, id@, db),
        Message::IdentityDataLoadedWithPhotos(_, photos) => if m.state is Identifying {
            EffectView::StorePhotos(photo_files(video_photo_dir(), photos@))
        } else {
            EffectView::Nothing
        },
        _ => EffectView::Nothing,
    }
}

/// Whether the step sends a command to the engine.
pub open spec fn video_sends(m: VideoFindModel, message: Message, db: bool) -> bool {
    video_effect(m, message, db) is Send
}

/// Whether the step takes in an answer of the engine.
pub open spec fn video_processes(m: VideoFindModel, message: Message) -> bool {
    m.state is Requesting && (message is Identity || message is IdentityError)
}

/// No message leaves the index on show pointing past the photographs.
pub proof fn lemma_video_step_wf(m: VideoFindModel, message: Message, db: bool)
    requires
        video_wf(m),
    ensures
        video_wf(video_step(m, message, db)),
{
}

/// Every step of the screen keeps the discipline of one request at a time.
pub proof fn lemma_video_step_disciplined(m: VideoFindModel, message: Message, db: bool)
    ensures
        disciplined(
            Step {
                awaiting_before: m.state.awaits_engine(),
                awaiting_after: video_step(m, message, db).state.awaits_engine(),
                sent: video_sends(m, message, db),
                processed: video_processes(m, message),
            },
        ),
{
}

/// The screen after taking `messages` in, in order.
pub open spec fn video_run(m: VideoFindModel, messages: Seq<Message>, db: bool) -> VideoFindModel
    decreases messages.len(),
{
    if messages.len() == 0 {
        m
    } else {
        video_step(video_run(m, messages.drop_last(), db), messages.last(), db)
    }
}

/// The traffic with the engine while the screen takes `messages` in.
pub open spec fn video_trace(m: VideoFindModel, messages: Seq<Message>, db: bool) -> Seq<Step> {
    Seq::new(
        messages.len(),
        |i: int|
            Step {
                awaiting_before: video_run(m, messages.take(i), db).state.awaits_engine(),
                awaiting_after: video_run(m, messages.take(i + 1), db).state.awaits_engine(),
                sent: video_sends(video_run(m, messages.take(i), db), messages[i], db),
                processed: video_processes(video_run(m, messages.take(i), db), messages[i]),
            },
    )
}

/// Single outstanding request: whatever messages arrive, between a command
/// that the screen sends and the next command it sends, it takes in at most
/// one answer of the engine, and it sends no command while one is
/// outstanding.
pub proof fn lemma_video_single_outstanding_request(
    m: VideoFindModel,
    messages: Seq<Message>,
    db: bool,
    first: int,
    next: int,
)
    requires
        0 <= first < next < messages.len(),
        video_trace(m, messages, db)[first].sent,
        video_trace(m, messages, db)[next].sent,
        forall|k: int| first < k < next ==> !(#[trigger] video_trace(m, messages, db)[k]).sent,
    ensures
        processed_in(video_trace(m, messages, db), first + 1, next) <= 1,
        !video_trace(m, messages, db)[next].awaiting_before,
{
    let t = video_trace(m, messages, db);
    assert forall|i: int| 0 <= i < t.len() implies disciplined(#[trigger] t[i]) by {
        let before = video_run(m, messages.take(i), db);
        lemma_video_step_disciplined(before, messages[i], db);
        assert(messages.take(i + 1).drop_last() =~= messages.take(i));
        assert(messages.take(i + 1).last() == messages[i]);
    }
    lemma_one_answer_per_command(t, first, next);
}

/// The left half of the screen.
#[derive(Debug, Clone, PartialEq, Eq)]
pub enum VideoSource {
    /// The photographs on record of the person found.
    Archive(GlassImageViewer),
    /// The video at this path, playing.
    Player(String),
    /// Nothing selected: the prompt to select a video.
    NoSource,
}

/// The fields shown of a record that was found.
#[derive(Debug, Clone, PartialEq, Eq)]
pub struct VideoDetails {
    pub criminal_id: String,
    pub name: String,
    pub fathers_name: String,
    pub history: String,
    /// The time of the arrest, written out in UTC.
    pub last_capture: String,
    pub last_known_location: String,
}

/// The right half of the screen.
#[derive(Debug, Clone, PartialEq, Eq)]
pub enum VideoStatus {
    /// The identification is under way.
    Scanning,
    /// The record that matched.
    Details(VideoDetails),
    /// No record matched, for this reason.
    NotFound(NotFoundReason),
    /// Nothing under way and nothing to show.
    AwaitingInput,
}

/// What the screen shows.
#[derive(Debug, Clone, PartialEq, Eq)]
pub struct VideoFindView {
    pub left: VideoSource,
    pub right: VideoStatus,
}

/// The text shown for a place of arrest that is not on record.
pub open spec fn or_unknown(place: Option<String>) -> Seq<char> {
    match place {
        Some(p) => p@,
        None => "Unknown"@,
    }
}

/// The text shown for a time that cannot be written out.
pub open spec fn or_blank(time: Option<Seq<char>>) -> Seq<char> {
    match time {
        Some(t) => t,
        None => Seq::empty(),
    }
}

/// Whether `d` holds what is shown of `record`, where `time` is the time of
/// the arrest written out: the id and the count of violations in base ten,
/// the names as they are, and a stand-in for whatever is not on record.
pub open spec fn is_details_of(d: VideoDetails, record: Model, time: Option<Seq<char>>) -> bool {
    &&& d.criminal_id@ == decimal(record.criminal_id as nat)
    &&& d.name@ == record.name@
    &&& d.fathers_name@ == or_not_available(record.fathers_name)
    &&& d.history@ == decimal(record.no_of_crimes as nat) + " known violations"@
    &&& d.last_capture@ == or_blank(time)
    &&& d.last_known_location@ == or_unknown(record.arrested_location)
}

/// Whether `shown` is what the screen `m` shows: on the left the
/// photographs of the person found, or else the video, or else the prompt
/// to select one; on the right the progress, the record, the failure, or
/// nothing yet.
pub open spec fn video_shows(m: VideoFindModel, shown: VideoFindView) -> bool {
    &&& match shown.left {
        VideoSource::Archive(viewer) => m.state is Found && m.photos.len() > 0 && viewer.paths()
            == m.photos && viewer.index() == m.photo_index,
        VideoSource::Player(path) => !(m.state is Found && m.photos.len() > 0)
            && m.selected_video == Some(path@),
        VideoSource::NoSource => !(m.state is Found && m.photos.len() > 0)
            && m.selected_video is None,
    }
    &&& match shown.right {
        VideoStatus::Scanning => m.state.is_busy(),
        VideoStatus::NotFound(reason) => m.state == WorkflowState::NotFound(reason),
        VideoStatus::Details(d) => match m.state {
            WorkflowState::Found(record) => is_details_of(
                d,
                record,
                utc_text(record.date_of_arrest, record.date_of_arrest_nanos),
            ),
            _ => false,
        },
        VideoStatus::AwaitingInput => m.state is Idle || m.state is AwaitingInput,
    }
}

/// What is shown of a record that was found, where `last_capture` is the
/// time of the arrest written out, if it can be.
pub fn video_details(record: &Model, last_capture: Option<String>) -> (d: VideoDetails)
    ensures
        is_details_of(d, *record, opt_text(last_capture)),
{
    let mut history = String::new();
    append_decimal(&mut history, record.no_of_crimes as u64);
    history.append(" known violations");
    assert(history@ =~= decimal(record.no_of_crimes as nat) + " known violations"@);
    VideoDetails {
        criminal_id: u32_to_string(record.criminal_id),
        name: record.name.clone(),
        fathers_name: match &record.fathers_name {
            Some(n) => n.clone(),
            None => String::from_str("N/A"),
        },
        history,
        last_capture: match last_capture {
            Some(t) => t,
            None => String::new(),
        },
        last_known_location: match &record.arrested_location {
            Some(p) => p.clone(),
            None => String::from_str("Unknown"),
        },
    }
}

/// The video identification screen.
#[derive(Debug)]
pub struct VideoFindPage {
    selected_video: Option<String>,
    state: WorkflowState,
    suspect_photos: Vec<String>,
    current_photo_index: usize,
}

impl Default for VideoFindPage {
    fn default() -> (page: Self)
        ensures
            page.wf(),
            page.model() == video_initial(),
    {
        let page = VideoFindPage {
            selected_video: None,
            state: WorkflowState::Idle,
            suspect_photos: Vec::new(),
            current_photo_index: 0,
        };
        assert(texts(page.suspect_photos@) =~= Seq::<Seq<char>>::empty());
        page
    }
}

impl VideoFindPage {
    /// The screen as a mathematical value.
    pub closed spec fn model(&self) -> VideoFindModel {
        VideoFindModel {
            selected_video: opt_text(self.selected_video),
            state: self.state,
            photos: texts(self.suspect_photos@),
            photo_index: self.current_photo_index as nat,
        }
    }

    /// The screen is in a state that its own steps can have led to.
    pub closed spec fn wf(&self) -> bool {
        video_wf(self.model())
    }

    /// What `wf` says of the model.
    pub proof fn lemma_wf(&self)
        requires
            self.wf(),
        ensures
            video_wf(self.model()),
    {
    }

    /// Takes in that the file at `path` was picked, where `url` is the URL
    /// written for that path. Asks for the video to be opened, unless an
    /// identification is under way or there is no URL.
    pub fn select_video(&mut self, path: String, url: Option<String>) -> (effect: Effect)
        requires
            old(self).wf(),
        ensures
            final(self).wf(),
            final(self).model() == old(self).model(),
            effect@ == video_selected_effect(old(self).model(), path@, opt_text(url)),
    {
        if self.state.busy() {
            Effect::Nothing
        } else {
            match url {
                Some(u) => Effect::OpenVideo { path, url: u },
                None => Effect::Nothing,
            }
        }
    }

    /// Takes one message in. Returns what has to be done about it.
    pub fn update(&mut self, message: Message, db: bool) -> (effect: Effect)
        requires
            old(self).wf(),
        ensures
            final(self).wf(),
            final(self).model() == video_step(old(self).model(), message, db),
            effect@ == video_effect(old(self).model(), message, db),
    {
        match message {
            Message::OpenFilePicker => {
                if self.state.busy() {
                    Effect::Nothing
                } else {
                    self.state = WorkflowState::AwaitingInput;
                    Effect::PickFiles(FileKind::Videos)
                }
            },
            Message::FilesSelected(paths) => {
                if paths.len() == 0 {
                    Effect::Nothing
                } else {
                    let path = paths[0].clone();
                    let url = file_url(path.as_str());
                    self.select_video(path, url)
                }
            },
            Message::VideoOpened(path) => {
                if self.state.busy() {
                    Effect::Nothing
                } else {
                    self.selected_video = Some(path.clone());
                    self.state = WorkflowState::Requesting;
                    self.suspect_photos = Vec::new();
                    self.current_photo_index = 0;
                    assert(texts(self.suspect_photos@) =~= Seq::<Seq<char>>::empty());
                    Effect::Send(Command::IdentifyVideo(path).encode())
                }
            },
            Message::IdentifyCriminalVideo(path) => {
                if self.state.busy() {
                    Effect::Nothing
                } else {
                    self.state = WorkflowState::Requesting;
                    self.suspect_photos = Vec::new();
                    self.current_photo_index = 0;
                    assert(texts(self.suspect_photos@) =~= Seq::<Seq<char>>::empty());
                    Effect::Send(Command::IdentifyVideo(path).encode())
                }
            },
            Message::Identity(id) => {
                if self.state.is_awaiting_engine() {
                    if db {
                        self.state = WorkflowState::Identifying;
                        Effect::LookupRecordWithPhotos(parse_record_id(id.as_str()))
                    } else {
                        self.state = WorkflowState::NotFound(NotFoundReason::LookupError);
                        Effect::Nothing
                    }
                } else {
                    Effect::Nothing
                }
            },
            Message::IdentityDataLoadedWithPhotos(record, photos) => {
                match self.state {
                    WorkflowState::Identifying => {
                        self.state = WorkflowState::Found(record);
                        self.suspect_photos = Vec::new();
                        self.current_photo_index = 0;
                        assert(texts(self.suspect_photos@) =~= Seq::<Seq<char>>::empty());
                        let files = name_photo_files("temp_identify", photos);
                        assert(files_view(files@) =~= Seq::new(files@.len(), |i: int| files@[i]@));
                        Effect::StorePhotos(files)
                    },
                    _ => Effect::Nothing,
                }
            },
            Message::PhotosStored(paths) => {
                if self.state.record().is_some() {
                    self.suspect_photos = paths;
                    self.current_photo_index = 0;
                }
                Effect::Nothing
            },
            Message::IdentityError(_) => {
                if self.state.busy() {
                    let reason = self.state.reason_of_miss();
                    self.state = WorkflowState::NotFound(reason);
                }
                Effect::Nothing
            },
            Message::NextImage => {
                self.current_photo_index = next_index(
                    self.current_photo_index,
                    self.suspect_photos.len(),
                );
                Effect::Nothing
            },
            Message::PrevImage => {
                self.current_photo_index = prev_index(
                    self.current_photo_index,
                    self.suspect_photos.len(),
                );
                Effect::Nothing
            },
            _ => Effect::Nothing,
        }
    }

    /// Forgets the video and whatever was asked or found.
    pub fn reset(&mut self)
        ensures
            final(self).wf(),
            final(self).model() == video_initial(),
    {
        self.selected_video = None;
        self.state = WorkflowState::Idle;
        self.suspect_photos = Vec::new();
        self.current_photo_index = 0;
        assert(texts(self.suspect_photos@) =~= Seq::<Seq<char>>::empty());
    }

    /// Where the identification stands.
    pub fn state(&self) -> (state: &WorkflowState)
        ensures
            *state == self.model().state,
    {
        &self.state
    }

    /// The path of the video that is open for playback.
    pub fn selected_video(&self) -> (path: &Option<String>)
        ensures
            opt_text(*path) == self.model().selected_video,
    {
        &self.selected_video
    }

    /// Whether the identification is under way.
    pub fn is_scanning(&self) -> (b: bool)
        ensures
            b == self.model().state.is_busy(),
    {
        self.state.busy()
    }

    /// Whether a record is on show.
    pub fn show_details(&self) -> (b: bool)
        ensures
            b == (self.model().state is Found),
    {
        self.state.record().is_some()
    }

    /// The record that was found, if one was.
    pub fn identified_data(&self) -> (r: Option<&Model>)
        ensures
            match r {
                Some(m) => self.model().state == WorkflowState::Found(*m),
                None => !(self.model().state is Found),
            },
    {
        self.state.record()
    }

    /// The photographs on record of the person found.
    pub fn suspect_photos(&self) -> (paths: &Vec<String>)
        ensures
            texts(paths@) == self.model().photos,
    {
        &self.suspect_photos
    }

    /// The place of the photograph on show.
    pub fn current_photo_index(&self) -> (i: usize)
        ensures
            i == self.model().photo_index,
    {
        self.current_photo_index
    }

    /// What the screen shows: on the left the photographs of the person
    /// found, or else the video, or else the prompt to select one; on the
    /// right the progress, the record, the failure, or nothing yet.
    pub fn view(&self) -> (shown: VideoFindView)
        ensures
            video_shows(self.model(), shown),
    {
        let found = self.state.record().is_some();
        let left = if found && self.suspect_photos.len() > 0 {
            VideoSource::Archive(
                GlassImageViewer::new(
                    clone_strings(&self.suspect_photos),
                    self.current_photo_index,
                ),
            )
        } else {
            match &self.selected_video {
                Some(path) => VideoSource::Player(path.clone()),
                None => VideoSource::NoSource,
            }
        };
        let right = match &self.state {
            WorkflowState::Requesting => VideoStatus::Scanning,
            WorkflowState::Identifying => VideoStatus::Scanning,
            WorkflowState::NotFound(reason) => VideoStatus::NotFound(*reason),
            WorkflowState::Found(record) => VideoStatus::Details(
                video_details(
                    record,
                    format_utc(record.date_of_arrest, record.date_of_arrest_nanos),
                ),
            ),
            _ => VideoStatus::AwaitingInput,
        };
        VideoFindView { left, right }
    }
}

} // verus!
