//! Identification from a still image.

use crate::components::image_viewer::GlassImageViewer;
use crate::entities::criminal::Model;
use crate::pages::common::{clone_strings, parse_record_id, record_id};
use crate::protocol::{line_of, Command, CommandView};
use crate::text::{decimal, texts, u32_to_string};
use crate::workflow::{
    disciplined, lemma_one_answer_per_command, processed_in, NotFoundReason, Step, WorkflowState,
};
use crate::{Effect, EffectView, FileKind, Message};
use vstd::prelude::*;

verus! {

/// The screen as a mathematical value.
pub struct ImageFindModel {
    /// The paths of the images on show.
    pub selected_image: Seq<Seq<char>>,
    pub state: WorkflowState,
}

/// The screen as it is first shown: no image, nothing asked.
pub open spec fn image_initial() -> ImageFindModel {
    ImageFindModel { selected_image: Seq::empty(), state: WorkflowState::Idle }
}

/// The screen after the engine named someone: the store is asked who that
/// is, or, if the store cannot be asked, the search ends without a record.
/// Outside a request the name is ignored.
pub open spec fn image_named(m: ImageFindModel, db: bool) -> ImageFindModel {
    if m.state is Requesting {
        ImageFindModel {
            state: if db {
                WorkflowState::Identifying
            } else {
                WorkflowState::NotFound(NotFoundReason::LookupError)
            },
            ..m
        }
    } else {
        m
    }
}

/// What the screen asks for when the engine named `id`.
pub open spec fn image_named_effect(m: ImageFindModel, id: Seq<char>, db: bool) -> EffectView {
    if m.state is Requesting && db {
        EffectView::LookupRecord(record_id(id))
    } else {
        EffectView::Nothing
    }
}

/// The screen after the engine matched no one or the store had no record:
/// the search ends. Outside an identification this is ignored.
pub open spec fn image_missed(m: ImageFindModel) -> ImageFindModel {
    if m.state.is_busy() {
        ImageFindModel { state: WorkflowState::NotFound(m.state.miss_reason()), ..m }
    } else {
        m
    }
}

/// The screen after the operator asked by hand that an image be
/// identified: the request is under way, unless an identification is under
/// way already. The images on show stay as they are.
pub open spec fn image_asked(m: ImageFindModel) -> ImageFindModel {
    if m.state.is_busy() {
        m
    } else {
        ImageFindModel { state: WorkflowState::Requesting, ..m }
    }
}

/// What the screen asks for when the operator asked by hand that the image
/// at `path` be identified.
pub open spec fn image_asked_effect(m: ImageFindModel, path: Seq<char>) -> EffectView {
    if m.state.is_busy() {
        EffectView::Nothing
    } else {
        EffectView::Send(line_of(CommandView::IdentifyImage(path)))
    }
}

/// The screen after `message`. A selection of files starts a request
/// unless one is under way or nothing was selected; what the engine and the
/// store say counts only while it is awaited; anything else changes
/// nothing. `db` tells whether the store can be asked.
pub open spec fn image_step(m: ImageFindModel, message: Message, db: bool) -> ImageFindModel {
    match message {
        Message::OpenFilePicker => if m.state.is_busy() {
            m
        } else {
            ImageFindModel { state: WorkflowState::AwaitingInput, ..m }
        },
        Message::FilesSelected(paths) => if m.state.is_busy() || paths@.len() == 0 {
            m
        } else {
            ImageFindModel { selected_image: texts(paths@), state: WorkflowState::Requesting }
        },
        Message::IdentifyCriminalImage(_) => image_asked(m),
        Message::Identity(_) => image_named(m, db),
        Message::IdentityDataLoaded(record) => if m.state is Identifying {
            ImageFindModel { state: WorkflowState::Found(record), ..m }
        } else {
            m
        },
        Message::IdentityError(_) => image_missed(m),
        _ => m,
    }
}

/// What the screen asks for in answer to `message`.
pub open spec fn image_effect(m: ImageFindModel, message: Message, db: bool) -> EffectView {
    match message {
        Message::OpenFilePicker => if m.state.is_busy() {
            EffectView::Nothing
        } else {
            EffectView::PickFiles(FileKind::Images)
        },
        Message::FilesSelected(paths) => if m.state.is_busy() || paths@.len() == 0 {
            EffectView::Nothing
        } else {
            EffectView::Send(line_of(CommandView::IdentifyImage(paths@[0]@)))
        },
        Message::IdentifyCriminalImage(path) => image_asked_effect(m, path@),
        Message::Identity(id) => image_named_effect(m, id@, db),
        _ => EffectView::Nothing,
    }
}

/// Whether the step sends a command to the engine.
pub open spec fn image_sends(m: ImageFindModel, message: Message, db: bool) -> bool {
    image_effect(m, message, db) is Send
}

/// Whether the step takes in an answer of the engine.
pub open spec fn image_processes(m: ImageFindModel, message: Message) -> bool {
    m.state is Requesting && (message is Identity || message is IdentityError)
}

/// Every step of the screen keeps the discipline of one request at a time:
/// it sends a command only when none is outstanding, and takes an answer in
/// only when one is.
pub proof fn lemma_image_step_disciplined(m: ImageFindModel, message: Message, db: bool)
    ensures
        disciplined(
            Step {
                awaiting_before: m.state.awaits_engine(),
                awaiting_after: image_step(m, message, db).state.awaits_engine(),
                sent: image_sends(m, message, db),
                processed: image_processes(m, message),
            },
        ),
{
}

/// The screen after taking `messages` in, in order.
pub open spec fn image_run(m: ImageFindModel, messages: Seq<Message>, db: bool) -> ImageFindModel
    decreases messages.len(),
{
    if messages.len() == 0 {
        m
    } else {
        image_step(image_run(m, messages.drop_last(), db), messages.last(), db)
    }
}

/// The traffic with the engine while the screen takes `messages` in: for
/// each message, whether a request was outstanding before and after it,
/// whether it made the screen send a command, and whether it was taken in
/// as the engine's answer.
pub open spec fn image_trace(m: ImageFindModel, messages: Seq<Message>, db: bool) -> Seq<Step> {
    Seq::new(
        messages.len(),
        |i: int|
            Step {
                awaiting_before: image_run(m, messages.take(i), db).state.awaits_engine(),
                awaiting_after: image_run(m, messages.take(i + 1), db).state.awaits_engine(),
                sent: image_sends(image_run(m, messages.take(i), db), messages[i], db),
                processed: image_processes(image_run(m, messages.take(i), db), messages[i]),
            },
    )
}

/// Single outstanding request: whatever messages arrive, between a command
/// that the screen sends and the next command it sends, it takes in at most
/// one answer of the engine, and it sends no command while one is
/// outstanding.
pub proof fn lemma_image_single_outstanding_request(
    m: ImageFindModel,
    messages: Seq<Message>,
    db: bool,
    first: int,
    next: int,
)
    requires
        0 <= first < next < messages.len(),
        image_trace(m, messages, db)[first].sent,
        image_trace(m, messages, db)[next].sent,
        forall|k: int| first < k < next ==> !(#[trigger] image_trace(m, messages, db)[k]).sent,
    ensures
        processed_in(image_trace(m, messages, db), first + 1, next) <= 1,
        !image_trace(m, messages, db)[next].awaiting_before,
{
    let t = image_trace(m, messages, db);
    assert forall|i: int| 0 <= i < t.len() implies disciplined(#[trigger] t[i]) by {
        let before = image_run(m, messages.take(i), db);
        lemma_image_step_disciplined(before, messages[i], db);
        assert(messages.take(i + 1).drop_last() =~= messages.take(i));
        assert(messages.take(i + 1).last() == messages[i]);
    }
    lemma_one_answer_per_command(t, first, next);
}

/// From a request that is with the engine, the screen goes on only when
/// the engine answers: no other message moves it, and a record is shown
/// only after the engine named someone and the store returned the record.
pub proof fn lemma_image_waits_for_engine(m: ImageFindModel, message: Message, db: bool)
    requires
        m.state is Requesting,
    ensures
        !(message is Identity || message is IdentityError) ==> image_step(m, message, db) == m,
        !(image_step(m, message, db).state is Found),
        image_step(m, message, db).state is Identifying ==> message is Identity,
{
}

/// The fields shown of a record that was found.
#[derive(Debug, Clone, PartialEq, Eq)]
pub struct ImageDetails {
    pub criminal_id: String,
    pub name: String,
    pub fathers_name: String,
    pub violations: String,
}

/// The left half of the screen.
#[derive(Debug, Clone, PartialEq, Eq)]
pub enum ImageSource {
    /// Nothing loaded: the prompt to upload an image.
    NoTarget,
    /// The selected images, the first on show.
    Viewer(GlassImageViewer),
}

/// The right half of the screen.
#[derive(Debug, Clone, PartialEq, Eq)]
pub enum ImageStatus {
    /// The identification is under way.
    Loading,
    /// No record matched, for this reason.
    NotFound(NotFoundReason),
    /// The record that matched.
    Details(ImageDetails),
    /// Nothing under way and nothing to show.
    AwaitingInput,
}

/// What the screen shows.
#[derive(Debug, Clone, PartialEq, Eq)]
pub struct ImageFindView {
    pub left: ImageSource,
    pub right: ImageStatus,
}

/// The text shown for a father's name that is not on record.
pub open spec fn or_not_available(name: Option<String>) -> Seq<char> {
    match name {
        Some(n) => n@,
        None => "N/A"@,
    }
}

/// Whether `shown` is what the screen `m` shows: on the left the selected
/// images, the first on show, or the prompt where there are none; on the
/// right the progress while the identification is under way, the failure or
/// the record once it has ended, and nothing before.
pub open spec fn image_shows(m: ImageFindModel, shown: ImageFindView) -> bool {
    &&& match shown.left {
        ImageSource::NoTarget => m.selected_image.len() == 0,
        ImageSource::Viewer(viewer) => m.selected_image.len() > 0 && viewer.paths()
            == m.selected_image && viewer.index() == 0,
    }
    &&& match shown.right {
        ImageStatus::Loading => m.state.is_busy(),
        ImageStatus::NotFound(reason) => m.state == WorkflowState::NotFound(reason),
        ImageStatus::Details(d) => match m.state {
            WorkflowState::Found(record) => d.criminal_id@ == decimal(record.criminal_id as nat)
                && d.name@ == record.name@ && d.fathers_name@ == or_not_available(
                record.fathers_name,
            ) && d.violations@ == decimal(record.no_of_crimes as nat),
            _ => false,
        },
        ImageStatus::AwaitingInput => m.state is Idle || m.state is AwaitingInput,
    }
}

/// The image identification screen.
#[derive(Debug)]
pub struct ImageFindPage {
    selected_image: Vec<String>,
    state: WorkflowState,
}

impl Default for ImageFindPage {
    fn default() -> (page: Self)
        ensures
            page.model() == image_initial(),
    {
        let page = ImageFindPage { selected_image: Vec::new(), state: WorkflowState::Idle };
        assert(texts(page.selected_image@) =~= Seq::<Seq<char>>::empty());
        page
    }
}

impl ImageFindPage {
    /// The screen as a mathematical value.
    pub closed spec fn model(&self) -> ImageFindModel {
        ImageFindModel { selected_image: texts(self.selected_image@), state: self.state }
    }

    /// Takes one message in. Returns what has to be done about it.
    pub fn update(&mut self, message: Message, db: bool) -> (effect: Effect)
        ensures
            final(self).model() == image_step(old(self).model(), message, db),
            effect@ == image_effect(old(self).model(), message, db),
    {
        match message {
            Message::OpenFilePicker => {
                if self.state.busy() {
                    Effect::Nothing
                } else {
                    self.state = WorkflowState::AwaitingInput;
                    Effect::PickFiles(FileKind::Images)
                }
            },
            Message::FilesSelected(paths) => {
                if self.state.busy() || paths.len() == 0 {
                    Effect::Nothing
                } else {
                    let first = paths[0].clone();
                    self.selected_image = paths;
                    self.state = WorkflowState::Requesting;
                    Effect::Send(Command::IdentifyImage(first).encode())
                }
            },
            Message::IdentifyCriminalImage(path) => {
                if self.state.busy() {
                    Effect::Nothing
                } else {
                    self.state = WorkflowState::Requesting;
                    Effect::Send(Command::IdentifyImage(path).encode())
                }
            },
            Message::Identity(id) => {
                if self.state.is_awaiting_engine() {
                    if db {
                        self.state = WorkflowState::Identifying;
                        Effect::LookupRecord(parse_record_id(id.as_str()))
                    } else {
                        self.state = WorkflowState::NotFound(NotFoundReason::LookupError);
                        Effect::Nothing
                    }
                } else {
                    Effect::Nothing
                }
            },
            Message::IdentityDataLoaded(record) => {
                match self.state {
                    WorkflowState::Identifying => {
                        self.state = WorkflowState::Found(record);
                    },
                    _ => {},
                }
                Effect::Nothing
            },
            Message::IdentityError(_) => {
                if self.state.busy() {
                    let reason = self.state.reason_of_miss();
                    self.state = WorkflowState::NotFound(reason);
                }
                Effect::Nothing
            },
            _ => Effect::Nothing,
        }
    }

    /// Forgets the images and whatever was asked or found.
    pub fn reset(&mut self)
        ensures
            final(self).model() == image_initial(),
    {
        self.selected_image = Vec::new();
        self.state = WorkflowState::Idle;
        assert(texts(self.selected_image@) =~= Seq::<Seq<char>>::empty());
    }

    /// Where the identification stands.
    pub fn state(&self) -> (state: &WorkflowState)
        ensures
            *state == self.model().state,
    {
        &self.state
    }

    /// The paths of the images on show.
    pub fn selected_image(&self) -> (paths: &Vec<String>)
        ensures
            texts(paths@) == self.model().selected_image,
    {
        &self.selected_image
    }

    /// Whether the identification is under way.
    pub fn is_identifying(&self) -> (b: bool)
        ensures
            b == self.model().state.is_busy(),
    {
        self.state.busy()
    }

    /// Whether a record is on show.
    pub fn show_details(&self) -> (b: bool)
        ensures
            b == (self.model().state is Found),
    {
        self.state.record().is_some()
    }

    /// Whether the search ended without a record.
    pub fn not_found(&self) -> (b: bool)
        ensures
            b == (self.model().state is NotFound),
    {
        match self.state {
            WorkflowState::NotFound(_) => true,
            _ => false,
        }
    }

    /// The record that was found, if one was.
    pub fn identified_data(&self) -> (r: Option<&Model>)
        ensures
            match r {
                Some(m) => self.model().state == WorkflowState::Found(*m),
                None => !(self.model().state is Found),
            },
    {
        self.state.record()
    }

    /// What the screen shows: on the left the selected images or the prompt
    /// to upload one; on the right the progress, the failure, the record, or
    /// nothing yet.
    pub fn view(&self) -> (shown: ImageFindView)
        ensures
            image_shows(self.model(), shown),
    {
        let left = if self.selected_image.len() == 0 {
            ImageSource::NoTarget
        } else {
            ImageSource::Viewer(GlassImageViewer::new(clone_strings(&self.selected_image), 0))
        };
        let right = match &self.state {
            WorkflowState::Requesting => ImageStatus::Loading,
            WorkflowState::Identifying => ImageStatus::Loading,
            WorkflowState::NotFound(reason) => ImageStatus::NotFound(*reason),
            WorkflowState::Found(record) => ImageStatus::Details(
                ImageDetails {
                    criminal_id: u32_to_string(record.criminal_id),
                    name: record.name.clone(),
                    fathers_name: match &record.fathers_name {
                        Some(n) => n.clone(),
                        None => String::from_str("N/A"),
                    },
                    violations: u32_to_string(record.no_of_crimes),
                },
            ),
            _ => ImageStatus::AwaitingInput,
        };
        ImageFindView { left, right }
    }
}

} // verus!
