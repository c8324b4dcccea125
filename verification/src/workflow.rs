//! The state of a session as a mathematical value, and what each event makes
//! of it.

use crate::message::{ImageStepMessage, ThemeType};
use crate::record::PropertiesView;
use crate::step::Step;
use crate::store::{is_fresh_listing, with_annotation, with_comment, StoreMap};
use vstd::prelude::*;

verus! {

/// The steps of a session, in their order.
pub open spec fn step_order() -> Seq<Step> {
    seq![Step::WelcomeWithFolderChoose, Step::Images, Step::End]
}

/// The state of a session.
pub struct WorkflowState {
    /// The steps, in their order.
    pub steps: Seq<Step>,
    /// The position of the current step among the steps.
    pub current: usize,
    /// The active folder.
    pub folder_path: Seq<char>,
    /// The paths of the images of the folder.
    pub all_images: Seq<Seq<char>>,
    /// The position of the current image.
    pub curr_idx: usize,
    /// The label on each image, by position.
    pub correct_items: Seq<Option<bool>>,
    /// The records of the folder, as they will be exported.
    pub json_obj: StoreMap,
    /// The reason that the annotator is typing.
    pub new_message: Seq<char>,
    /// Whether the annotator has marked the current image incorrect and may
    /// now give a reason.
    pub incorrect_btn_clicked: bool,
    /// The theme that the annotator picked.
    pub theme: ThemeType,
    /// Whether a folder has been chosen and the session may go on.
    pub folder_found: bool,
}

impl WorkflowState {
    /// The current step.
    pub open spec fn current_step(self) -> Step
        recommends
            self.current < self.steps.len(),
    {
        self.steps[self.current as int]
    }

    /// Whether the annotator can go on to a next step.
    pub open spec fn can_continue(self) -> bool {
        self.current + 1 < self.steps.len() && self.current_step().spec_can_continue()
    }

    /// Whether the annotator can go back to an earlier step.
    pub open spec fn has_previous(self) -> bool {
        self.current > 0
    }

    /// The state after the annotator asked for the next step: the next step
    /// where there is one, else the state itself.
    pub open spec fn advanced(self) -> WorkflowState {
        if self.can_continue() {
            WorkflowState { current: (self.current + 1) as usize, ..self }
        } else {
            self
        }
    }

    /// The state after the annotator asked for the step before: that step
    /// where there is one, else the state itself. Leaving the images for the
    /// welcome page gives the choice of the folder up.
    pub open spec fn gone_back(self) -> WorkflowState {
        if self.has_previous() {
            WorkflowState {
                current: (self.current - 1) as usize,
                folder_found: self.folder_found && !(self.current < self.steps.len()
                    && self.current_step() == Step::Images),
                ..self
            }
        } else {
            self
        }
    }

    /// Whether an image follows the current one.
    pub open spec fn is_next_image_available(self) -> bool {
        self.curr_idx + 1 < self.all_images.len()
    }

    /// Whether an image comes before the current one.
    pub open spec fn is_previous_image_available(self) -> bool {
        self.curr_idx != 0
    }

    /// Whether there is an image at the current position to label.
    pub open spec fn has_current_item(self) -> bool {
        self.curr_idx < self.correct_items.len()
    }

    /// Whether the active folder has a record at the current position.
    pub open spec fn has_current_record(self) -> bool {
        self.json_obj.contains_key(self.folder_path) && self.curr_idx
            < self.json_obj[self.folder_path].len()
    }

    /// The record at the current position.
    pub open spec fn current_record(self) -> PropertiesView
        recommends
            self.has_current_record(),
    {
        self.json_obj[self.folder_path][self.curr_idx as int]
    }

    /// The reason recorded for the current image; the empty text where none
    /// is recorded.
    pub open spec fn current_comment(self) -> Seq<char> {
        if self.has_current_record() && self.current_record().comments.is_some() {
            self.current_record().comments.unwrap()
        } else {
            Seq::empty()
        }
    }

    /// The state after `Next`: one image further, unless that position could
    /// not be counted; the comment entry is closed and the draft dropped.
    pub open spec fn next(self) -> WorkflowState {
        WorkflowState {
            curr_idx: if self.curr_idx < usize::MAX {
                (self.curr_idx + 1) as usize
            } else {
                self.curr_idx
            },
            incorrect_btn_clicked: false,
            new_message: Seq::empty(),
            ..self
        }
    }

    /// The state after `Previous`: one image back, unless the current image
    /// is the first; the comment entry is closed and the draft dropped.
    pub open spec fn previous(self) -> WorkflowState {
        WorkflowState {
            curr_idx: if self.curr_idx > 0 {
                (self.curr_idx - 1) as usize
            } else {
                self.curr_idx
            },
            incorrect_btn_clicked: false,
            new_message: Seq::empty(),
            ..self
        }
    }

    /// The state after `MarkAsCorrect`: the current image counts as correct,
    /// the reason recorded for it is dropped, the comment entry is closed and
    /// the draft dropped. Without a current image nothing changes.
    pub open spec fn marked_correct(self) -> WorkflowState {
        if self.has_current_item() {
            WorkflowState {
                correct_items: self.correct_items.update(self.curr_idx as int, Some(true)),
                json_obj: with_comment(
                    with_annotation(
                        self.json_obj,
                        self.folder_path,
                        self.curr_idx as int,
                        Some(true),
                    ),
                    self.folder_path,
                    self.curr_idx as int,
                    None,
                ),
                incorrect_btn_clicked: false,
                new_message: Seq::empty(),
                ..self
            }
        } else {
            self
        }
    }

    /// The state after `MarkAsIncorrect`: the current image counts as
    /// incorrect and keeps the reason recorded for it; the comment entry is
    /// open, with that reason as the draft. Without a current image nothing
    /// changes.
    pub open spec fn marked_incorrect(self) -> WorkflowState {
        if self.has_current_item() {
            WorkflowState {
                correct_items: self.correct_items.update(self.curr_idx as int, Some(false)),
                json_obj: with_annotation(
                    self.json_obj,
                    self.folder_path,
                    self.curr_idx as int,
                    Some(false),
                ),
                incorrect_btn_clicked: true,
                new_message: self.current_comment(),
                ..self
            }
        } else {
            self
        }
    }

    /// The state after `ResetSelection`: the current image is unclassified
    /// again and keeps the reason recorded for it; the comment entry is
    /// closed, and the draft is that reason. Without a current image nothing
    /// changes.
    pub open spec fn selection_reset(self) -> WorkflowState {
        if self.has_current_item() {
            WorkflowState {
                correct_items: self.correct_items.update(self.curr_idx as int, None),
                json_obj: with_annotation(
                    self.json_obj,
                    self.folder_path,
                    self.curr_idx as int,
                    None,
                ),
                incorrect_btn_clicked: false,
                new_message: self.current_comment(),
                ..self
            }
        } else {
            self
        }
    }

    /// The state after `Export`: the records, the folder and the position
    /// are as before; the comment entry is closed, and the draft is the
    /// reason recorded for the current image.
    pub open spec fn export_requested(self) -> WorkflowState {
        WorkflowState {
            incorrect_btn_clicked: false,
            new_message: self.current_comment(),
            ..self
        }
    }

    /// The state after `CommentType`: the draft is the text, and nothing is
    /// recorded.
    pub open spec fn comment_typed(self, text: Seq<char>) -> WorkflowState {
        WorkflowState { new_message: text, ..self }
    }

    /// The state after `CommentAdded`: the text is recorded as the reason for
    /// the current image, where there is one; the comment entry is closed
    /// and the draft dropped.
    pub open spec fn comment_added(self, text: Seq<char>) -> WorkflowState {
        WorkflowState {
            json_obj: with_comment(
                self.json_obj,
                self.folder_path,
                self.curr_idx as int,
                Some(text),
            ),
            incorrect_btn_clicked: false,
            new_message: Seq::empty(),
            ..self
        }
    }

    /// The state after `ThemeChanged`.
    pub open spec fn theme_changed(self, theme: ThemeType) -> WorkflowState {
        WorkflowState { theme, ..self }
    }

    /// The state after an event of the images page. `ChooseFolderPath` only
    /// asks the shell to let the annotator pick a folder: the state changes
    /// when the shell brings the annotator's choice.
    pub open spec fn after(self, msg: ImageStepMessage) -> WorkflowState {
        match msg {
            ImageStepMessage::Previous() => self.previous(),
            ImageStepMessage::Next() => self.next(),
            ImageStepMessage::MarkAsCorrect() => self.marked_correct(),
            ImageStepMessage::MarkAsIncorrect() => self.marked_incorrect(),
            ImageStepMessage::ResetSelection() => self.selection_reset(),
            ImageStepMessage::Export() => self.export_requested(),
            ImageStepMessage::ChooseFolderPath() => self,
            ImageStepMessage::CommentAdded(text) => self.comment_added(text@),
            ImageStepMessage::CommentType(text) => self.comment_typed(text@),
            ImageStepMessage::ThemeChanged(theme) => self.theme_changed(theme),
        }
    }

    /// The state after the annotator left the folder dialog without a choice:
    /// no folder counts as chosen, and nothing else changes.
    pub open spec fn choice_cancelled(self) -> WorkflowState {
        WorkflowState { folder_found: false, ..self }
    }

    /// The state after the annotator chose a folder with the given images,
    /// for which `store` was made: the session starts at the first image,
    /// with the comment entry closed and no draft. The step and the theme
    /// stay.
    pub open spec fn folder_opened(
        self,
        folder_path: Seq<char>,
        images: Seq<Seq<char>>,
        store: StoreMap,
    ) -> WorkflowState {
        WorkflowState {
            folder_path,
            all_images: images,
            curr_idx: 0,
            correct_items: Seq::new(images.len(), |i: int| None::<bool>),
            json_obj: store,
            new_message: Seq::empty(),
            incorrect_btn_clicked: false,
            folder_found: true,
            ..self
        }
    }

    /// Whether `store` is the store that work on the folder starts with.
    pub open spec fn is_fresh_store(
        store: StoreMap,
        folder_path: Seq<char>,
        images: Seq<Seq<char>>,
    ) -> bool {
        store.dom() == set![folder_path] && is_fresh_listing(store[folder_path], images)
    }

    /// Whether the records, the labels and the list of images agree: the
    /// store holds the active folder and no other, with one record for
    /// each image, in order, that has the image's position, path and label.
    pub open spec fn synchronized(self) -> bool {
        &&& self.json_obj.dom() == set![self.folder_path]
        &&& self.json_obj[self.folder_path].len() == self.all_images.len()
        &&& self.correct_items.len() == self.all_images.len()
        &&& forall|i: int|
            0 <= i < self.all_images.len() ==> {
                &&& (#[trigger] self.json_obj[self.folder_path][i]).index == i
                &&& self.json_obj[self.folder_path][i].image_path == self.all_images[i]
                &&& self.json_obj[self.folder_path][i].annotation == self.correct_items[i]
            }
    }
}

/// A label given twice counts as given once: `MarkAsCorrect` on a state
/// that it has just produced changes nothing.
pub proof fn lemma_mark_correct_twice(state: WorkflowState)
    ensures
        state.marked_correct().marked_correct() == state.marked_correct(),
{
    let once = state.marked_correct();
    if state.has_current_item() {
        assert(once.correct_items.update(once.curr_idx as int, Some(true)) =~= once.correct_items);
        let folder = state.folder_path;
        let at = state.curr_idx as int;
        if state.json_obj.contains_key(folder) && at < state.json_obj[folder].len() {
            let marked = with_annotation(state.json_obj, folder, at, Some(true));
            assert(marked[folder][at].annotation == Some(true));
            assert(once.json_obj[folder][at].annotation == Some(true));
            assert(once.json_obj[folder][at].comments.is_none());
            assert(once.json_obj[folder].update(
                at,
                PropertiesView { annotation: Some(true), ..once.json_obj[folder][at] },
            ) =~= once.json_obj[folder]);
            assert(with_annotation(once.json_obj, folder, at, Some(true)) =~= once.json_obj);
            assert(once.json_obj[folder].update(
                at,
                PropertiesView { comments: None, ..once.json_obj[folder][at] },
            ) =~= once.json_obj[folder]);
            assert(with_comment(once.json_obj, folder, at, None) =~= once.json_obj);
        }
    }
}

/// Every label given twice leaves the label of the current image as one
/// application left it.
pub proof fn lemma_label_twice(state: WorkflowState, msg: ImageStepMessage)
    requires
        msg is MarkAsCorrect || msg is MarkAsIncorrect || msg is ResetSelection,
    ensures
        state.after(msg).after(msg).correct_items == state.after(msg).correct_items,
        state.after(msg).has_current_record() ==> state.after(msg).after(msg).has_current_record()
            && state.after(msg).after(msg).current_record().annotation == state.after(
            msg,
        ).current_record().annotation,
{
    let once = state.after(msg);
    let twice = once.after(msg);
    assert(twice.correct_items =~= once.correct_items);
}

/// `Previous` at the first image stays at the first image.
pub proof fn lemma_previous_at_first(state: WorkflowState)
    requires
        state.curr_idx == 0,
    ensures
        state.previous().curr_idx == 0,
        state.after(ImageStepMessage::Previous()).curr_idx == 0,
{
}

/// The events of the images page keep the records, the labels and the list
/// of images in agreement.
pub proof fn lemma_events_keep_synchronized(state: WorkflowState, msg: ImageStepMessage)
    requires
        state.synchronized(),
    ensures
        state.after(msg).synchronized(),
{
    let folder = state.folder_path;
    let at = state.curr_idx as int;
    let after = state.after(msg);
    match msg {
        ImageStepMessage::MarkAsCorrect() => {
            if state.has_current_item() {
                assert(after.json_obj.dom() =~= set![folder]);
            }
        },
        ImageStepMessage::MarkAsIncorrect() => {
            if state.has_current_item() {
                assert(after.json_obj.dom() =~= set![folder]);
            }
        },
        ImageStepMessage::ResetSelection() => {
            if state.has_current_item() {
                assert(after.json_obj.dom() =~= set![folder]);
            }
        },
        ImageStepMessage::CommentAdded(text) => {
            assert(after.json_obj.dom() =~= set![folder]);
        },
        _ => {},
    }
}

/// Going from step to step, and leaving the folder dialog without a choice,
/// keep the records, the labels and the list of images in agreement.
pub proof fn lemma_moves_keep_synchronized(state: WorkflowState)
    requires
        state.synchronized(),
    ensures
        state.advanced().synchronized(),
        state.gone_back().synchronized(),
        state.choice_cancelled().synchronized(),
{
}

/// The records that work on a folder starts with number its images from
/// zero without a gap, in the order of the list: the record at a position
/// has that position as its index and the path at that position as its path.
pub proof fn lemma_fresh_records_number_the_images(
    store: StoreMap,
    folder_path: Seq<char>,
    images: Seq<Seq<char>>,
    i: int,
)
    requires
        WorkflowState::is_fresh_store(store, folder_path, images),
        0 <= i < images.len(),
    ensures
        store[folder_path].len() == images.len(),
        store[folder_path][i].index == i,
        store[folder_path][i].image_path == images[i],
        store[folder_path][i].annotation.is_none(),
        store[folder_path][i].comments.is_none(),
{
}

/// A folder that has just been opened has its records, labels and list of
/// images in agreement, with every image unclassified.
pub proof fn lemma_opened_folder_is_synchronized(
    state: WorkflowState,
    folder_path: Seq<char>,
    images: Seq<Seq<char>>,
    store: StoreMap,
)
    requires
        WorkflowState::is_fresh_store(store, folder_path, images),
    ensures
        state.folder_opened(folder_path, images, store).synchronized(),
        state.folder_opened(folder_path, images, store).curr_idx == 0,
{
}

} // verus!
