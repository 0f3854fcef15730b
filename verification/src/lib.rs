//! The core of a face-recognition console: the line protocol of the
//! recognition engine, the identification workflows for still images, video
//! files and the live camera, the arbitration of the camera, and the
//! registry form. Every state machine here is a function from state and
//! message to next state and effect; whoever embeds the library carries the
//! effects out and reports back with messages.

use vstd::prelude::*;

pub mod application;
pub mod components;
pub mod entities;
pub mod pages;
pub mod protocol;
pub mod python_process;
pub mod python_wrapper;
pub mod text;
pub mod webcam_task;
pub mod workflow;

verus! {

/// The screens the operator can navigate between.
#[derive(Debug, Clone, Copy, PartialEq, Eq, Structural)]
pub enum Page {
    Dashboard,
    MainMenu,
    Registry,
    ImageFind,
    VideoFind,
    WebcamFind,
    SignIn,
}

/// Everything that can happen to the application: what the operator does,
/// what the engine says, and what comes back from the store, the camera
/// and the file system.
#[derive(Debug, PartialEq, Eq)]
pub enum Message {
    /// Nothing happened.
    Noop,
    /// Leave the current screen for another.
    GoTo(Page),
    /// The store returned a record together with its photographs.
    IdentityDataLoadedWithPhotos(entities::criminal::Model, Vec<entities::criminal_photo::Model>),
    /// The camera clock ticked.
    TickWebcam,
    /// Reserved for capturing on demand; it changes nothing.
    CaptureWebcamFrame,
    /// A capture ended; the text is the path of the saved frame, empty if
    /// the capture failed.
    WebcamFrameCaptured(String),
    /// The operator switched live scanning on or off.
    ToggleWebcam(bool),
    /// The operator restarted a live search that had ended.
    ResetWebcamSearch,
    /// The operator cleared the registry form.
    ResetForm,
    /// The store saved a new record under this id, with these photographs.
    DatabaseSaved(u32, Vec<String>),
    /// The operator typed in the name field; this is the whole field now.
    NameChanged(String),
    /// The operator typed in the field of the father's name.
    FathersNameChanged(String),
    /// The operator typed in the field of the number of violations.
    CrimesCountChanged(String),
    /// The operator typed in the field of the place of arrest.
    LocationChanged(String),
    /// The operator asked for the file picker.
    OpenFilePicker,
    /// The file picker closed with these paths; none if it was cancelled.
    FilesSelected(Vec<String>),
    /// The operator stepped to the next picture.
    NextImage,
    /// The operator stepped to the picture before.
    PrevImage,
    /// The operator submitted the registry form.
    SubmitForm,
    /// The connection to the store was made, or failed with this reason.
    DbConnected(Result<(), String>),
    /// A registration ended: the engine took note of the person saved under
    /// this id, or the store failed for this reason.
    SaveResult(Result<u32, String>),
    /// It is time to warm the engine up.
    InitializePython,
    /// The operator asks by hand that the image at this path be identified.
    IdentifyCriminalImage(String),
    /// The operator asks by hand that the video at this path be identified.
    IdentifyCriminalVideo(String),
    /// Free text to be read as a command for the engine.
    PythonInput(String),
    /// One line from the engine's output.
    PythonOutput(String),
    /// The engine named a person.
    Identity(String),
    /// The store returned the record that was looked up.
    IdentityDataLoaded(entities::criminal::Model),
    /// No match, or the lookup failed; the text says which.
    IdentityError(String),
    /// The attempt to open the camera for the preview ended; `true` if the
    /// device is now open.
    PreviewOpened(bool),
    /// The video file at this path was opened for playback.
    VideoOpened(String),
    /// Photographs were written to disk; these are the files that exist.
    PhotosStored(Vec<String>),
    /// A line could not be written to the engine, for this reason: the
    /// engine has exited.
    SendFailed(String),
}

/// What the file picker should offer.
#[derive(Debug, Clone, Copy, PartialEq, Eq, Structural)]
pub enum FileKind {
    /// `jpg`, `png`, `jpeg`.
    Images,
    /// `mp4`, `mkv`, `webm`, `avi`.
    Videos,
}

impl FileKind {
    /// The name under which the picker offers these files.
    pub fn label(self) -> (label: &'static str)
        ensures
            label@ == match self {
                FileKind::Images => "Images"@,
                FileKind::Videos => "Videos"@,
            },
    {
        match self {
            FileKind::Images => "Images",
            FileKind::Videos => "Videos",
        }
    }

    /// The file name extensions that the picker lets through.
    pub fn extensions(self) -> (extensions: Vec<&'static str>)
        ensures
            match self {
                FileKind::Images => extensions@.len() == 3 && extensions@[0]@ == "jpg"@
                    && extensions@[1]@ == "png"@ && extensions@[2]@ == "jpeg"@,
                FileKind::Videos => extensions@.len() == 4 && extensions@[0]@ == "mp4"@
                    && extensions@[1]@ == "mkv"@ && extensions@[2]@ == "webm"@ && extensions@[3]@
                    == "avi"@,
            },
    {
        let mut extensions: Vec<&'static str> = Vec::new();
        match self {
            FileKind::Images => {
                extensions.push("jpg");
                extensions.push("png");
                extensions.push("jpeg");
            },
            FileKind::Videos => {
                extensions.push("mp4");
                extensions.push("mkv");
                extensions.push("webm");
                extensions.push("avi");
            },
        }
        extensions
    }
}

/// A record to be written to the store.
#[derive(Debug, Clone, PartialEq, Eq)]
pub struct NewRecord {
    pub name: String,
    pub fathers_name: Option<String>,
    pub arrested_location: Option<String>,
    pub no_of_crimes: u32,
    /// Files whose contents are stored as the person's photographs.
    pub photo_paths: Vec<String>,
}

/// A photograph to be written to a file.
#[derive(Debug, Clone, PartialEq, Eq)]
pub struct PhotoFile {
    pub path: String,
    pub bytes: Vec<u8>,
}

/// What a state machine asks of its surroundings after a step.
#[derive(Debug, PartialEq, Eq)]
pub enum Effect {
    /// Nothing to do.
    Nothing,
    /// Write this line to the engine.
    Send(String),
    /// Open the file picker; answer with `FilesSelected`.
    PickFiles(FileKind),
    /// Look a record up; answer with `IdentityDataLoaded` or `IdentityError`.
    LookupRecord(u32),
    /// Look a record and its photographs up; answer with
    /// `IdentityDataLoadedWithPhotos` or `IdentityError`.
    LookupRecordWithPhotos(u32),
    /// Save a record and its photographs; answer with `DatabaseSaved` or
    /// `SaveResult`.
    SaveRecord(NewRecord),
    /// Write these files; answer with `PhotosStored`.
    StorePhotos(Vec<PhotoFile>),
    /// Open the video at `path` for playback, by its `url`; answer with
    /// `VideoOpened` if that worked.
    OpenVideo { path: String, url: String },
    /// Open the camera for the preview; answer with `PreviewOpened`.
    OpenPreview,
    /// Close the preview's hold on the camera.
    ClosePreview,
    /// Grab one frame, closing the preview first if told so; answer with
    /// `WebcamFrameCaptured`.
    CaptureFrame { release_preview: bool },
    /// Connect to the store at this address; answer with `DbConnected`.
    ConnectDb(String),
    /// After this many milliseconds, feed the message in.
    Delay(u64, Message),
    /// Log this line; it changes nothing.
    Log(String),
}

/// A file to be written, as a mathematical value.
pub struct PhotoFileView {
    pub path: Seq<char>,
    pub bytes: Seq<u8>,
}

/// A record to be written, as a mathematical value.
pub struct NewRecordView {
    pub name: Seq<char>,
    pub fathers_name: Option<Seq<char>>,
    pub arrested_location: Option<Seq<char>>,
    pub no_of_crimes: u32,
    pub photo_paths: Seq<Seq<char>>,
}

/// An effect as a mathematical value.
pub enum EffectView {
    Nothing,
    Send(Seq<char>),
    PickFiles(FileKind),
    LookupRecord(u32),
    LookupRecordWithPhotos(u32),
    SaveRecord(NewRecordView),
    StorePhotos(Seq<PhotoFileView>),
    OpenVideo { path: Seq<char>, url: Seq<char> },
    OpenPreview,
    ClosePreview,
    CaptureFrame { release_preview: bool },
    ConnectDb(Seq<char>),
    Delay(u64, Message),
    Log(Seq<char>),
}

/// The text of an optional string.
pub open spec fn opt_text(s: Option<String>) -> Option<Seq<char>> {
    match s {
        Some(t) => Some(t@),
        None => None,
    }
}

impl View for PhotoFile {
    type V = PhotoFileView;

    open spec fn view(&self) -> PhotoFileView {
        PhotoFileView { path: self.path@, bytes: self.bytes@ }
    }
}

impl View for NewRecord {
    type V = NewRecordView;

    open spec fn view(&self) -> NewRecordView {
        NewRecordView {
            name: self.name@,
            fathers_name: opt_text(self.fathers_name),
            arrested_location: opt_text(self.arrested_location),
            no_of_crimes: self.no_of_crimes,
            photo_paths: text::texts(self.photo_paths@),
        }
    }
}

impl View for Effect {
    type V = EffectView;

    open spec fn view(&self) -> EffectView {
        match self {
            Effect::Nothing => EffectView::Nothing,
            Effect::Send(line) => EffectView::Send(line@),
            Effect::PickFiles(kind) => EffectView::PickFiles(*kind),
            Effect::LookupRecord(id) => EffectView::LookupRecord(*id),
            Effect::LookupRecordWithPhotos(id) => EffectView::LookupRecordWithPhotos(*id),
            Effect::SaveRecord(r) => EffectView::SaveRecord(r@),
            Effect::StorePhotos(files) => EffectView::StorePhotos(
                Seq::new(files@.len(), |i: int| files@[i]@),
            ),
            Effect::OpenVideo { path, url } => EffectView::OpenVideo { path: path@, url: url@ },
            Effect::OpenPreview => EffectView::OpenPreview,
            Effect::ClosePreview => EffectView::ClosePreview,
            Effect::CaptureFrame { release_preview } => EffectView::CaptureFrame {
                release_preview: *release_preview,
            },
            Effect::ConnectDb(address) => EffectView::ConnectDb(address@),
            Effect::Delay(ms, m) => EffectView::Delay(*ms, *m),
            Effect::Log(line) => EffectView::Log(line@),
        }
    }
}

} // verus!
