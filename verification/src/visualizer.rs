//! The application: a session, the theme in which it is drawn, and the entry
//! point for the events of the shell.

use crate::message::{ImageStepMessage, Message, ThemeType};
use crate::page::{ImageProbe, NextControl, ViewDescription};
use crate::render::{can_show_images, is_page_of};
use crate::step::Step;
use crate::steps::{Action, FolderChoice, Steps};
use crate::store::init_json_obj;
use crate::workflow::{step_order, WorkflowState};
use vstd::prelude::*;

verus! {

/// The application.
#[derive(Debug)]
pub struct FolderVisualizer {
    steps: Steps,
    theme: ThemeType,
}

/// The control that leads to the next step: shown where there is a next
/// step, and of use once a folder has been chosen.
pub open spec fn next_control(state: WorkflowState) -> NextControl {
    if state.can_continue() {
        if state.folder_found {
            NextControl::Enabled
        } else {
            NextControl::Disabled
        }
    } else {
        NextControl::Hidden
    }
}

impl FolderVisualizer {
    /// The session of the application as a mathematical value.
    pub closed spec fn session(&self) -> WorkflowState {
        self.steps.state()
    }

    /// The theme in which the application is drawn.
    pub closed spec fn spec_theme(&self) -> ThemeType {
        self.theme
    }

    /// The application at its start: on the first step, in the dark theme,
    /// with no folder chosen. The folder under annotation is the one with
    /// the empty path, which has no images.
    pub fn new() -> (app: FolderVisualizer)
        ensures
            app.spec_theme() == ThemeType::Dark,
            app.session() == (WorkflowState {
                steps: step_order(),
                current: 0,
                folder_path: Seq::empty(),
                all_images: Seq::empty(),
                curr_idx: 0,
                correct_items: Seq::empty(),
                json_obj: app.session().json_obj,
                new_message: Seq::empty(),
                incorrect_btn_clicked: false,
                theme: ThemeType::Dark,
                folder_found: false,
            }),
            WorkflowState::is_fresh_store(app.session().json_obj, Seq::empty(), Seq::empty()),
            app.session().synchronized(),
    {
        let folder_path = String::new();
        let all_images: Vec<String> = Vec::new();
        let json_obj = init_json_obj(folder_path.clone(), all_images.clone());
        let steps_obj = Steps::new(folder_path, 0, all_images, Vec::new(), json_obj);
        assert(steps_obj.state().all_images =~= Seq::empty());
        assert(steps_obj.state().correct_items =~= Seq::empty());
        FolderVisualizer { steps: steps_obj, theme: ThemeType::Dark }
    }

    /// The title of the window: that of the current step's page.
    pub fn title(&self) -> (title: String)
        ensures
            self.session().current < self.session().steps.len(),
            title@ == self.session().current_step().spec_title(),
    {
        self.steps.title()
    }

    /// The session.
    pub fn steps(&self) -> (steps: &Steps)
        ensures
            steps.state() == self.session(),
    {
        &self.steps
    }

    /// The theme in which the application is drawn.
    pub fn theme(&self) -> (theme: ThemeType)
        ensures
            theme == self.spec_theme(),
    {
        self.theme
    }

    /// Applies an event and says what is left for the shell to do.
    ///
    /// The controls for the steps move the session a step back or forth. An
    /// event of a page goes to the session, and the application is then
    /// drawn in the session's theme. A theme picked for the application
    /// alone changes nothing of the session.
    pub fn update(&mut self, message: Message) -> (action: Action)
        ensures
            match message {
                Message::ThemeChanged(theme) => {
                    &&& final(self).session() == old(self).session()
                    &&& final(self).spec_theme() == theme
                    &&& action is Nothing
                },
                Message::BackPressed => {
                    &&& final(self).session() == old(self).session().gone_back()
                    &&& final(self).spec_theme() == old(self).spec_theme()
                    &&& action is Nothing
                },
                Message::NextPressed => {
                    &&& final(self).session() == old(self).session().advanced()
                    &&& final(self).spec_theme() == old(self).spec_theme()
                    &&& action is Nothing
                },
                Message::ImageStepMessage(step_msg) => {
                    &&& final(self).session() == old(self).session().after(step_msg)
                    &&& final(self).spec_theme() == final(self).session().theme
                    &&& match step_msg {
                        ImageStepMessage::ChooseFolderPath() => action is PickFolder,
                        ImageStepMessage::Export() => action matches Action::Export(fragment)
                            && fragment@ == old(self).session().json_obj,
                        _ => action is Nothing,
                    }
                },
            },
    {
        match message {
            Message::ThemeChanged(theme) => {
                self.theme = theme;
                Action::Nothing
            },
            Message::BackPressed => {
                self.steps.go_back();
                Action::Nothing
            },
            Message::NextPressed => {
                self.steps.advance();
                Action::Nothing
            },
            Message::ImageStepMessage(step_msg) => {
                let action = self.steps.update(step_msg);
                self.theme = self.steps.theme();
                action
            },
        }
    }

    /// Takes up the outcome of the folder dialog, as the session does.
    pub fn folder_chosen(&mut self, choice: Option<FolderChoice>)
        ensures
            final(self).spec_theme() == old(self).spec_theme(),
            match choice {
                None => final(self).session() == old(self).session().choice_cancelled(),
                Some(chosen) => {
                    &&& final(self).session() == old(self).session().folder_opened(
                        chosen.folder_path@,
                        crate::scanner::listed_images(chosen.listing),
                        final(self).session().json_obj,
                    )
                    &&& WorkflowState::is_fresh_store(
                        final(self).session().json_obj,
                        chosen.folder_path@,
                        crate::scanner::listed_images(chosen.listing),
                    )
                },
            },
    {
        self.steps.folder_chosen(choice);
    }

    /// Everything the shell draws: the page of the current step, and the
    /// controls for the steps. On the images step there has to be a current
    /// image, and the shell has to bring what it found out of its file.
    pub fn view(&self, probe: Option<ImageProbe>) -> (shown: ViewDescription)
        requires
            self.session().current < self.session().steps.len() && self.session().current_step()
                == Step::Images ==> probe is Some && can_show_images(self.session()),
        ensures
            self.session().current < self.session().steps.len(),
            is_page_of(shown.page, self.session().current_step(), self.session(), probe),
            shown.back == self.session().has_previous(),
            shown.next == next_control(self.session()),
    {
        let back = self.steps.has_previous();
        let next = if self.steps.can_continue() {
            if self.steps.folder_found() {
                NextControl::Enabled
            } else {
                NextControl::Disabled
            }
        } else {
            NextControl::Hidden
        };
        ViewDescription { page: self.steps.view(probe), back, next }
    }
}

} // verus!
