//! The form that registers a person.

use crate::components::image_viewer::{
    next_index, next_index_spec, prev_index, prev_index_spec, GlassImageViewer,
};
use crate::pages::common::clone_strings;
use crate::protocol::{line_of, Command, CommandView};
use crate::text::{is_blank, is_blank_text, parse_u32, parse_u32_spec, texts};
use crate::{Effect, EffectView, Message, NewRecord, NewRecordView};
use vstd::prelude::*;

verus! {

/// The form as a mathematical value.
pub struct RegistryModel {
    pub name: Seq<char>,
    pub fathers_name: Seq<char>,
    /// The number of violations, as typed.
    pub no_of_crimes: Seq<char>,
    pub arrested_location: Seq<char>,
    /// The form was submitted without a name.
    pub name_error: bool,
    /// The photographs attached.
    pub selected_images: Seq<Seq<char>>,
    /// The place of the photograph on show.
    pub current_img_idx: nat,
    /// The record is with the store.
    pub is_saving: bool,
    pub save_success: bool,
}

/// The empty form.
pub open spec fn registry_initial() -> RegistryModel {
    RegistryModel {
        name: Seq::empty(),
        fathers_name: Seq::empty(),
        no_of_crimes: Seq::empty(),
        arrested_location: Seq::empty(),
        name_error: false,
        selected_images: Seq::empty(),
        current_img_idx: 0,
        is_saving: false,
        save_success: false,
    }
}

/// The index on show points into the photographs attached.
pub open spec fn registry_wf(m: RegistryModel) -> bool {
    &&& m.selected_images.len() == 0 ==> m.current_img_idx == 0
    &&& m.selected_images.len() > 0 ==> m.current_img_idx < m.selected_images.len()
}

/// A field that was left empty is not on record.
pub open spec fn if_filled(text: Seq<char>) -> Option<Seq<char>> {
    if text.len() == 0 {
        None
    } else {
        Some(text)
    }
}

/// The number of violations that goes on record: the number typed, or 1
/// where what was typed is no number.
pub open spec fn crimes_count(text: Seq<char>) -> u32 {
    match parse_u32_spec(text) {
        Some(n) => n,
        None => 1,
    }
}

/// The record that the form describes.
pub open spec fn record_of(m: RegistryModel) -> NewRecordView {
    NewRecordView {
        name: m.name,
        fathers_name: if_filled(m.fathers_name),
        arrested_location: if_filled(m.arrested_location),
        no_of_crimes: crimes_count(m.no_of_crimes),
        photo_paths: m.selected_images,
    }
}

/// Whether submitting the form sends the record to the store: only with a
/// name that is more than white space, and only if the store can be asked.
pub open spec fn submits(m: RegistryModel, db: bool) -> bool {
    !is_blank(m.name) && db
}

/// The form after the record was saved and the engine took note of it.
pub open spec fn registry_saved(m: RegistryModel) -> RegistryModel {
    RegistryModel { is_saving: false, save_success: true, ..m }
}

/// The form after `message`. `db` tells whether the store can be asked.
pub open spec fn registry_step(m: RegistryModel, message: Message, db: bool) -> RegistryModel {
    match message {
        Message::NameChanged(value) => RegistryModel { name: value@, name_error: false, ..m },
        Message::FathersNameChanged(value) => RegistryModel { fathers_name: value@, ..m },
        Message::CrimesCountChanged(value) => RegistryModel { no_of_crimes: value@, ..m },
        Message::LocationChanged(value) => RegistryModel { arrested_location: value@, ..m },
        Message::SubmitForm => if is_blank(m.name) {
            RegistryModel { name_error: true, ..m }
        } else if db {
            RegistryModel { is_saving: true, ..m }
        } else {
            m
        },
        Message::SaveResult(result) => if result is Ok {
            registry_saved(m)
        } else {
            m
        },
        Message::ResetForm => registry_initial(),
        Message::FilesSelected(paths) => RegistryModel {
            selected_images: texts(paths@),
            current_img_idx: 0,
            ..m
        },
        Message::NextImage => RegistryModel {
            current_img_idx: next_index_spec(m.current_img_idx, m.selected_images.len()),
            ..m
        },
        Message::PrevImage => RegistryModel {
            current_img_idx: prev_index_spec(m.current_img_idx, m.selected_images.len()),
            ..m
        },
        _ => m,
    }
}

/// What the form asks for in answer to `message`: a submitted form goes to
/// the store, and once the store has saved the record the engine is told
/// of the new person and the photographs.
pub open spec fn registry_effect(m: RegistryModel, message: Message, db: bool) -> EffectView {
    match message {
        Message::SubmitForm => if submits(m, db) {
            EffectView::SaveRecord(record_of(m))
        } else {
            EffectView::Nothing
        },
        Message::DatabaseSaved(id, paths) => EffectView::Send(
            line_of(CommandView::Add(id, texts(paths@))),
        ),
        _ => EffectView::Nothing,
    }
}

/// No message leaves the index on show pointing past the photographs.
pub proof fn lemma_registry_step_wf(m: RegistryModel, message: Message, db: bool)
    requires
        registry_wf(m),
    ensures
        registry_wf(registry_step(m, message, db)),
{
}

/// A form without a name never reaches the store: submitting it marks the
/// name and asks for nothing.
pub proof fn lemma_blank_name_is_refused(m: RegistryModel, db: bool)
    requires
        is_blank(m.name),
    ensures
        registry_effect(m, Message::SubmitForm, db) == EffectView::Nothing,
        registry_step(m, Message::SubmitForm, db).name_error,
        !registry_step(m, Message::SubmitForm, db).is_saving || m.is_saving,
{
}

/// The upper left of the form.
#[derive(Debug, Clone, PartialEq, Eq)]
pub enum RegistryImages {
    /// No photographs yet: the prompt to attach some.
    AttachPrompt,
    /// The photographs attached.
    Viewer(GlassImageViewer),
}

/// The button at the foot of the form.
#[derive(Debug, Clone, Copy, PartialEq, Eq, Structural)]
pub enum RegistryFooter {
    /// The record is with the store; the button does nothing.
    Saving,
    /// The record was saved; the button clears the form.
    SavedReset,
    /// The button submits the form.
    Save,
}

/// What the form shows.
#[derive(Debug, Clone, PartialEq, Eq)]
pub struct RegistryView {
    pub images: RegistryImages,
    /// The name field is marked as required.
    pub name_marked: bool,
    pub footer: RegistryFooter,
}

/// Whether `shown` is what the form `m` shows: the photographs attached,
/// the one at the current index on show, or the prompt where there are
/// none; the name marked after a submission without a name; and the button
/// that fits the state of the save.
pub open spec fn registry_shows(m: RegistryModel, shown: RegistryView) -> bool {
    &&& shown.name_marked == m.name_error
    &&& shown.footer == if m.is_saving {
        RegistryFooter::Saving
    } else if m.save_success {
        RegistryFooter::SavedReset
    } else {
        RegistryFooter::Save
    }
    &&& match shown.images {
        RegistryImages::AttachPrompt => m.selected_images.len() == 0,
        RegistryImages::Viewer(viewer) => m.selected_images.len() > 0 && viewer.paths()
            == m.selected_images && viewer.index() == m.current_img_idx,
    }
}

/// The registry form.
#[derive(Debug)]
pub struct RegistryPage {
    name: String,
    fathers_name: String,
    no_of_crimes: String,
    arrested_location: String,
    name_error: bool,
    selected_images: Vec<String>,
    current_img_idx: usize,
    is_saving: bool,
    save_success: bool,
}

impl Default for RegistryPage {
    fn default() -> (page: Self)
        ensures
            page.wf(),
            page.model() == registry_initial(),
    {
        let page = RegistryPage {
            name: String::new(),
            fathers_name: String::new(),
            no_of_crimes: String::new(),
            arrested_location: String::new(),
            name_error: false,
            selected_images: Vec::new(),
            current_img_idx: 0,
            is_saving: false,
            save_success: false,
        };
        assert(texts(page.selected_images@) =~= Seq::<Seq<char>>::empty());
        page
    }
}

fn filled(text: &String) -> (field: Option<String>)
    ensures
        crate::opt_text(field) == if_filled(text@),
{
    if text.as_str().is_empty() {
        None
    } else {
        Some(text.clone())
    }
}

impl RegistryPage {
    /// The form as a mathematical value.
    pub closed spec fn model(&self) -> RegistryModel {
        RegistryModel {
            name: self.name@,
            fathers_name: self.fathers_name@,
            no_of_crimes: self.no_of_crimes@,
            arrested_location: self.arrested_location@,
            name_error: self.name_error,
            selected_images: texts(self.selected_images@),
            current_img_idx: self.current_img_idx as nat,
            is_saving: self.is_saving,
            save_success: self.save_success,
        }
    }

    /// The form is in a state that its own steps can have led to.
    pub closed spec fn wf(&self) -> bool {
        registry_wf(self.model())
    }

    /// What `wf` says of the model.
    pub proof fn lemma_wf(&self)
        requires
            self.wf(),
        ensures
            registry_wf(self.model()),
    {
    }

    /// Takes one message in. Returns what has to be done about it.
    pub fn update(&mut self, message: Message, db: bool) -> (effect: Effect)
        requires
            old(self).wf(),
        ensures
            final(self).wf(),
            final(self).model() == registry_step(old(self).model(), message, db),
            effect@ == registry_effect(old(self).model(), message, db),
    {
        match message {
            Message::NameChanged(value) => {
                self.name = value;
                self.name_error = false;
                Effect::Nothing
            },
            Message::FathersNameChanged(value) => {
                self.fathers_name = value;
                Effect::Nothing
            },
            Message::CrimesCountChanged(value) => {
                self.no_of_crimes = value;
                Effect::Nothing
            },
            Message::LocationChanged(value) => {
                self.arrested_location = value;
                Effect::Nothing
            },
            Message::SubmitForm => {
                if is_blank_text(self.name.as_str()) {
                    self.name_error = true;
                    return Effect::Nothing;
                }
                if !db {
                    return Effect::Nothing;
                }
                self.is_saving = true;
                let record = NewRecord {
                    name: self.name.clone(),
                    fathers_name: filled(&self.fathers_name),
                    arrested_location: filled(&self.arrested_location),
                    no_of_crimes: match parse_u32(self.no_of_crimes.as_str()) {
                        Some(n) => n,
                        None => 1,
                    },
                    photo_paths: clone_strings(&self.selected_images),
                };
                Effect::SaveRecord(record)
            },
            Message::DatabaseSaved(id, paths) => {
                Effect::Send(Command::Add(id, paths).encode())
            },
            Message::SaveResult(result) => {
                match result {
                    Ok(_) => {
                        self.is_saving = false;
                        self.save_success = true;
                    },
                    Err(_) => {},
                }
                Effect::Nothing
            },
            Message::ResetForm => {
                *self = RegistryPage::default();
                Effect::Nothing
            },
            Message::FilesSelected(paths) => {
                self.selected_images = paths;
                self.current_img_idx = 0;
                Effect::Nothing
            },
            Message::NextImage => {
                self.current_img_idx = next_index(
                    self.current_img_idx,
                    self.selected_images.len(),
                );
                Effect::Nothing
            },
            Message::PrevImage => {
                self.current_img_idx = prev_index(
                    self.current_img_idx,
                    self.selected_images.len(),
                );
                Effect::Nothing
            },
            _ => Effect::Nothing,
        }
    }

    /// The name as typed.
    pub fn name(&self) -> (text: &String)
        ensures
            text@ == self.model().name,
    {
        &self.name
    }

    /// The father's name as typed.
    pub fn fathers_name(&self) -> (text: &String)
        ensures
            text@ == self.model().fathers_name,
    {
        &self.fathers_name
    }

    /// The number of violations as typed.
    pub fn no_of_crimes(&self) -> (text: &String)
        ensures
            text@ == self.model().no_of_crimes,
    {
        &self.no_of_crimes
    }

    /// The place of arrest as typed.
    pub fn arrested_location(&self) -> (text: &String)
        ensures
            text@ == self.model().arrested_location,
    {
        &self.arrested_location
    }

    /// Whether the form was submitted without a name.
    pub fn name_error(&self) -> (b: bool)
        ensures
            b == self.model().name_error,
    {
        self.name_error
    }

    /// The photographs attached.
    pub fn selected_images(&self) -> (paths: &Vec<String>)
        ensures
            texts(paths@) == self.model().selected_images,
    {
        &self.selected_images
    }

    /// The place of the photograph on show.
    pub fn current_img_idx(&self) -> (i: usize)
        ensures
            i == self.model().current_img_idx,
    {
        self.current_img_idx
    }

    /// Whether the record is with the store.
    pub fn is_saving(&self) -> (b: bool)
        ensures
            b == self.model().is_saving,
    {
        self.is_saving
    }

    /// Whether the record was saved.
    pub fn save_success(&self) -> (b: bool)
        ensures
            b == self.model().save_success,
    {
        self.save_success
    }

    /// What the form shows: the photographs or the prompt to attach some,
    /// the mark on the name field, and the button that fits the state of
    /// the save.
    pub fn view(&self) -> (shown: RegistryView)
        ensures
            registry_shows(self.model(), shown),
    {
        let images = if self.selected_images.len() == 0 {
            RegistryImages::AttachPrompt
        } else {
            RegistryImages::Viewer(
                GlassImageViewer::new(clone_strings(&self.selected_images), self.current_img_idx),
            )
        };
        let footer = if self.is_saving {
            RegistryFooter::Saving
        } else if self.save_success {
            RegistryFooter::SavedReset
        } else {
            RegistryFooter::Save
        };
        RegistryView { images, name_marked: self.name_error, footer }
    }
}

} // verus!
