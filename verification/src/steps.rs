//! The session as it runs: the state that the events change, and the work
//! that they leave to the shell.

use crate::message::{ImageStepMessage, ThemeType};
use crate::record::{records_view, texts_view, Properties};
use crate::scanner::{get_all_images, listed_images, DirectoryListing};
use crate::step::Step;
use crate::store::{init_json_obj, AnnotatedStore};
use crate::workflow::{step_order, WorkflowState};
use vstd::prelude::*;

verus! {

/// What the shell has to do after an event.
#[derive(Debug)]
pub enum Action {
    /// Nothing.
    Nothing,
    /// Let the annotator pick a folder, list it, and bring the outcome to
    /// `folder_chosen`.
    PickFolder,
    /// Merge these records into the store on disk.
    Export(AnnotatedStore),
}

/// The folder that the annotator picked, and what the shell found in it.
#[derive(Debug)]
pub struct FolderChoice {
    /// The folder.
    pub folder_path: String,
    /// Its entries.
    pub listing: DirectoryListing,
}

/// The steps and the place of the session among them.
#[derive(Debug)]
struct StepCursor {
    steps: Vec<Step>,
    current: usize,
}

impl StepCursor {
    #[verifier::type_invariant]
    spec fn on_a_step(self) -> bool {
        self.steps@ == step_order() && self.current < self.steps.len()
    }

    /// The cursor on the first step.
    fn new() -> (cursor: StepCursor)
        ensures
            cursor.steps@ == step_order(),
            cursor.current == 0,
    {
        let mut steps: Vec<Step> = Vec::new();
        steps.push(Step::WelcomeWithFolderChoose);
        steps.push(Step::Images);
        steps.push(Step::End);
        assert(steps@ =~= step_order());
        StepCursor { steps, current: 0 }
    }

    /// The step that the cursor is on.
    fn step(&self) -> (step: Step)
        ensures
            self.steps@ == step_order(),
            self.current < self.steps.len(),
            step == self.steps[self.current as int],
    {
        proof {
            use_type_invariant(self);
        }
        self.steps[self.current]
    }

    /// Moves the cursor to the next step.
    fn forward(&mut self)
        requires
            old(self).current + 1 < old(self).steps.len(),
        ensures
            final(self).steps == old(self).steps,
            final(self).current == old(self).current + 1,
    {
        proof {
            use_type_invariant(&*self);
        }
        self.current = self.current + 1;
    }

    /// Moves the cursor to the step before.
    fn backward(&mut self)
        requires
            old(self).current > 0,
        ensures
            final(self).steps == old(self).steps,
            final(self).current == old(self).current - 1,
    {
        proof {
            use_type_invariant(&*self);
        }
        self.current = self.current - 1;
    }
}

/// A session: its steps, the active folder with its images and their
/// records, the current image, and what the annotator is typing.
#[derive(Debug)]
pub struct Steps {
    cursor: StepCursor,
    folder_path: String,
    curr_idx: usize,
    all_images: Vec<String>,
    correct_items: Vec<Option<bool>>,
    json_obj: AnnotatedStore,
    new_message: String,
    incorrect_btn_clicked: bool,
    theme: ThemeType,
    folder_found: bool,
}

impl Steps {
    /// The session as a mathematical value.
    pub closed spec fn state(&self) -> WorkflowState {
        WorkflowState {
            steps: self.cursor.steps@,
            current: self.cursor.current,
            folder_path: self.folder_path@,
            all_images: texts_view(self.all_images@),
            curr_idx: self.curr_idx,
            correct_items: self.correct_items@,
            json_obj: self.json_obj@,
            new_message: self.new_message@,
            incorrect_btn_clicked: self.incorrect_btn_clicked,
            theme: self.theme,
            folder_found: self.folder_found,
        }
    }

    /// A session on its first step, with the given folder, images, labels and
    /// records, at the given image. The theme is the dark one, the
    /// comment entry is closed, nothing is typed, and no folder counts as
    /// chosen.
    pub fn new(
        folder_path: String,
        curr_idx: usize,
        all_images: Vec<String>,
        correct_items: Vec<Option<bool>>,
        json_obj: AnnotatedStore,
    ) -> (steps: Steps)
        ensures
            steps.state() == (WorkflowState {
                steps: step_order(),
                current: 0,
                folder_path: folder_path@,
                all_images: texts_view(all_images@),
                curr_idx,
                correct_items: correct_items@,
                json_obj: json_obj@,
                new_message: Seq::empty(),
                incorrect_btn_clicked: false,
                theme: ThemeType::Dark,
                folder_found: false,
            }),
    {
        Steps {
            cursor: StepCursor::new(),
            folder_path,
            curr_idx,
            all_images,
            correct_items,
            json_obj,
            new_message: String::new(),
            incorrect_btn_clicked: false,
            theme: ThemeType::Dark,
            folder_found: false,
        }
    }

    /// The reason recorded for the current image; the empty text where none
    /// is recorded.
    fn current_comment(&self) -> (text: String)
        ensures
            text@ == self.state().current_comment(),
    {
        match self.json_obj.get(&self.folder_path) {
            Some(records) => {
                if self.curr_idx < records.len() {
                    assert(records_view(records@)[self.curr_idx as int] == records[self.curr_idx as int]@);
                    match &records[self.curr_idx].comments {
                        Some(text) => text.clone(),
                        None => String::new(),
                    }
                } else {
                    String::new()
                }
            },
            None => String::new(),
        }
    }

    /// Applies an event of the images page to the session and says what is
    /// left for the shell to do.
    pub fn update(&mut self, msg: ImageStepMessage) -> (action: Action)
        ensures
            final(self).state() == old(self).state().after(msg),
            match msg {
                ImageStepMessage::ChooseFolderPath() => action is PickFolder,
                ImageStepMessage::Export() => action matches Action::Export(fragment)
                    && fragment@ == old(self).state().json_obj,
                _ => action is Nothing,
            },
    {
        let step = self.cursor.step();
        step.update(msg, self)
    }

    /// Takes up the outcome of the folder dialog.
    ///
    /// Without a choice no folder counts as chosen any more, and nothing else
    /// changes. With a choice the session starts afresh on the images of that
    /// folder: at the first image, every image unclassified and without a
    /// reason.
    pub fn folder_chosen(&mut self, choice: Option<FolderChoice>)
        ensures
            match choice {
                None => final(self).state() == old(self).state().choice_cancelled(),
                Some(chosen) => {
                    &&& final(self).state() == old(self).state().folder_opened(
                        chosen.folder_path@,
                        listed_images(chosen.listing),
                        final(self).state().json_obj,
                    )
                    &&& WorkflowState::is_fresh_store(
                        final(self).state().json_obj,
                        chosen.folder_path@,
                        listed_images(chosen.listing),
                    )
                },
            },
    {
        match choice {
            None => {
                self.folder_found = false;
            },
            Some(chosen) => {
                let images = get_all_images(&chosen.listing);
                let mut labels: Vec<Option<bool>> = Vec::new();
                let mut i: usize = 0;
                while i < images.len()
                    invariant
                        i <= images.len(),
                        labels.len() == i,
                        forall|j: int| 0 <= j < i ==> labels[j] == None::<bool>,
                    decreases images.len() - i,
                {
                    labels.push(None);
                    i += 1;
                }
                assert(labels@ =~= Seq::new(
                    listed_images(chosen.listing).len(),
                    |i: int| None::<bool>,
                ));
                self.json_obj = init_json_obj(chosen.folder_path.clone(), images.clone());
                self.folder_path = chosen.folder_path;
                self.all_images = images;
                self.correct_items = labels;
                self.curr_idx = 0;
                self.new_message = String::new();
                self.incorrect_btn_clicked = false;
                self.folder_found = true;
            },
        }
    }

    /// The step that the session is on.
    pub fn current_step(&self) -> (step: Step)
        ensures
            self.state().steps == step_order(),
            self.state().current < self.state().steps.len(),
            step == self.state().current_step(),
    {
        self.cursor.step()
    }

    /// The position of the current step among the steps.
    pub fn current(&self) -> (current: usize)
        ensures
            current == self.state().current,
    {
        self.cursor.current
    }

    /// The folder whose images are annotated.
    pub fn folder_path(&self) -> (folder_path: &String)
        ensures
            folder_path@ == self.state().folder_path,
    {
        &self.folder_path
    }

    /// The position of the current image.
    pub fn curr_idx(&self) -> (curr_idx: usize)
        ensures
            curr_idx == self.state().curr_idx,
    {
        self.curr_idx
    }

    /// The paths of the images of the folder.
    pub fn all_images(&self) -> (all_images: &Vec<String>)
        ensures
            texts_view(all_images@) == self.state().all_images,
    {
        &self.all_images
    }

    /// The path of the current image, where the current position is one of
    /// the list of images.
    pub fn current_image(&self) -> (path: Option<&String>)
        ensures
            path is Some <==> self.state().curr_idx < self.state().all_images.len(),
            path matches Some(p) ==> p@ == self.state().all_images[self.state().curr_idx as int],
    {
        if self.curr_idx < self.all_images.len() {
            Some(&self.all_images[self.curr_idx])
        } else {
            None
        }
    }

    /// The label on each image, by position.
    pub fn correct_items(&self) -> (correct_items: &Vec<Option<bool>>)
        ensures
            correct_items@ == self.state().correct_items,
    {
        &self.correct_items
    }

    /// The records of the folder, as they will be exported.
    pub fn json_obj(&self) -> (json_obj: &AnnotatedStore)
        ensures
            json_obj@ == self.state().json_obj,
    {
        &self.json_obj
    }

    /// The reason that the annotator is typing.
    pub fn new_message(&self) -> (new_message: &String)
        ensures
            new_message@ == self.state().new_message,
    {
        &self.new_message
    }

    /// Whether the comment entry is open.
    pub fn incorrect_btn_clicked(&self) -> (clicked: bool)
        ensures
            clicked == self.state().incorrect_btn_clicked,
    {
        self.incorrect_btn_clicked
    }

    /// The theme that the annotator picked on a page of the session.
    pub fn theme(&self) -> (theme: ThemeType)
        ensures
            theme == self.state().theme,
    {
        self.theme
    }

    /// Whether a folder has been chosen and the session may go on.
    pub fn folder_found(&self) -> (found: bool)
        ensures
            found == self.state().folder_found,
    {
        self.folder_found
    }

    /// Whether the annotator can go back to an earlier step.
    pub fn has_previous(&self) -> (can: bool)
        ensures
            can == self.state().has_previous(),
    {
        self.cursor.current > 0
    }

    /// Whether the annotator can go on to a next step.
    pub fn can_continue(&self) -> (can: bool)
        ensures
            can == self.state().can_continue(),
    {
        let step = self.cursor.step();
        self.cursor.current + 1 < self.cursor.steps.len() && step.can_continue()
    }

    /// Goes on to the next step, where there is one.
    pub fn advance(&mut self)
        ensures
            final(self).state() == old(self).state().advanced(),
    {
        if self.can_continue() {
            self.cursor.forward();
        }
    }

    /// Goes back to the step before, where there is one. Leaving the images
    /// for the welcome page gives the choice of the folder up.
    pub fn go_back(&mut self)
        ensures
            final(self).state() == old(self).state().gone_back(),
    {
        if self.has_previous() {
            let step = self.cursor.step();
            if step == Step::Images {
                self.folder_found = false;
            }
            self.cursor.backward();
        }
    }

    /// Whether an image follows the current one.
    pub fn is_next_image_available(&self) -> (available: bool)
        ensures
            available == self.state().is_next_image_available(),
    {
        self.all_images.len() > 0 && self.curr_idx < self.all_images.len() - 1
    }

    /// Whether an image comes before the current one.
    pub fn is_previous_image_available(&self) -> (available: bool)
        ensures
            available == self.state().is_previous_image_available(),
    {
        self.curr_idx != 0
    }

    /// The title of the current step's page.
    pub fn title(&self) -> (title: String)
        ensures
            self.state().current < self.state().steps.len(),
            title@ == self.state().current_step().spec_title(),
    {
        let step = self.cursor.step();
        step.title()
    }
}

impl Step {
    /// Applies an event of the images page to the session and says what is
    /// left for the shell to do. The events mean the same on every step.
    pub fn update(&self, msg: ImageStepMessage, session: &mut Steps) -> (action: Action)
        ensures
            final(session).state() == old(session).state().after(msg),
            match msg {
                ImageStepMessage::ChooseFolderPath() => action is PickFolder,
                ImageStepMessage::Export() => action matches Action::Export(fragment)
                    && fragment@ == old(session).state().json_obj,
                _ => action is Nothing,
            },
    {
        match msg {
            ImageStepMessage::Next() => {
                if session.curr_idx < usize::MAX {
                    session.curr_idx = session.curr_idx + 1;
                }
                session.incorrect_btn_clicked = false;
                session.new_message = String::new();
                Action::Nothing
            },
            ImageStepMessage::Previous() => {
                if session.curr_idx > 0 {
                    session.curr_idx = session.curr_idx - 1;
                }
                session.incorrect_btn_clicked = false;
                session.new_message = String::new();
                Action::Nothing
            },
            ImageStepMessage::MarkAsCorrect() => {
                if session.curr_idx < session.correct_items.len() {
                    session.correct_items.set(session.curr_idx, Some(true));
                    session.json_obj.set_annotation(&session.folder_path, session.curr_idx, Some(true));
                    session.json_obj.set_comment(&session.folder_path, session.curr_idx, None);
                    session.incorrect_btn_clicked = false;
                    session.new_message = String::new();
                }
                Action::Nothing
            },
            ImageStepMessage::MarkAsIncorrect() => {
                if session.curr_idx < session.correct_items.len() {
                    let reason = session.current_comment();
                    session.correct_items.set(session.curr_idx, Some(false));
                    session.json_obj.set_annotation(
                        &session.folder_path,
                        session.curr_idx,
                        Some(false),
                    );
                    session.incorrect_btn_clicked = true;
                    session.new_message = reason;
                }
                Action::Nothing
            },
            ImageStepMessage::ResetSelection() => {
                if session.curr_idx < session.correct_items.len() {
                    let reason = session.current_comment();
                    session.correct_items.set(session.curr_idx, None);
                    session.json_obj.set_annotation(&session.folder_path, session.curr_idx, None);
                    session.incorrect_btn_clicked = false;
                    session.new_message = reason;
                }
                Action::Nothing
            },
            ImageStepMessage::Export() => {
                let reason = session.current_comment();
                session.incorrect_btn_clicked = false;
                session.new_message = reason;
                Action::Export(session.json_obj.clone())
            },
            ImageStepMessage::CommentAdded(entered_comment) => {
                session.json_obj.set_comment(
                    &session.folder_path,
                    session.curr_idx,
                    Some(entered_comment),
                );
                session.incorrect_btn_clicked = false;
                session.new_message = String::new();
                Action::Nothing
            },
            ImageStepMessage::CommentType(entered_comment) => {
                session.new_message = entered_comment;
                Action::Nothing
            },
            ImageStepMessage::ChooseFolderPath() => Action::PickFolder,
            ImageStepMessage::ThemeChanged(theme) => {
                session.theme = theme;
                Action::Nothing
            },
        }
    }
}

} // verus!
