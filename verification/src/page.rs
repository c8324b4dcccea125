//! What the shell draws: the pages of the steps, described by plain values.

use crate::message::ThemeType;
use vstd::prelude::*;

verus! {

/// A heading.
#[derive(Debug)]
pub struct Heading {
    /// The words of the heading.
    pub title: String,
}

/// The page of the first step.
#[derive(Debug)]
pub struct WelcomePage {
    /// The theme that is marked as chosen.
    pub theme: ThemeType,
    /// Whether choosing a folder is the main thing to do on the page: it is
    /// until a folder has been chosen.
    pub select_is_primary: bool,
}

/// What is said of the label of the current image.
#[derive(PartialEq, Eq, Structural, Clone, Copy, Debug)]
pub enum Selection {
    /// There is no image at the current position.
    NoImage,
    /// The image counts as correct.
    Correct,
    /// The image counts as incorrect.
    Incorrect,
    /// The image is unclassified.
    NotSelected,
}

impl Selection {
    /// The selection that stands for the label at `index` of `labels`.
    pub open spec fn of(labels: Seq<Option<bool>>, index: int) -> Selection {
        if 0 <= index < labels.len() {
            match labels[index] {
                Some(true) => Selection::Correct,
                Some(false) => Selection::Incorrect,
                None => Selection::NotSelected,
            }
        } else {
            Selection::NoImage
        }
    }

    /// The selection in words.
    pub open spec fn spec_text(&self) -> Seq<char> {
        match *self {
            Selection::NoImage => "No Image"@,
            Selection::Correct => "Correct"@,
            Selection::Incorrect => "Incorrect"@,
            Selection::NotSelected => "Not selected yet"@,
        }
    }

    /// The selection in words.
    pub fn text(&self) -> (text: String)
        ensures
            text@ == self.spec_text(),
    {
        match self {
            Selection::NoImage => "No Image".to_string(),
            Selection::Correct => "Correct".to_string(),
            Selection::Incorrect => "Incorrect".to_string(),
            Selection::NotSelected => "Not selected yet".to_string(),
        }
    }
}

/// The facts shown beside the current image.
#[derive(Debug)]
pub struct InfoRow {
    /// The number of the current image, counted from one.
    pub current_item: usize,
    /// How many images the folder has.
    pub total_images: usize,
    /// The folder.
    pub folder_path: String,
    /// The file name of the current image.
    pub image_file_name: String,
    /// The label of the current image.
    pub selection: Selection,
    /// The theme in which the row is drawn.
    pub theme: ThemeType,
}

/// What takes the place of the image.
#[derive(Debug)]
pub enum ImageDisplay {
    /// The image at this path.
    Viewer(String),
    /// These words, which say why the image cannot be shown.
    Error(String),
}

/// The entry for the reason of an incorrect label.
#[derive(Debug)]
pub struct CommentEntry {
    /// The text in the entry.
    pub draft: String,
    /// The reason that is sent when the annotator confirms the entry; none
    /// where the draft may not be sent.
    pub submit: Option<String>,
}

/// The page of the images step.
#[derive(Debug)]
pub struct ImagesPage {
    /// The theme that is marked as chosen, and in which the page is drawn.
    pub theme: ThemeType,
    /// The image, or the words in its place.
    pub image: ImageDisplay,
    /// The comment entry, where it is open. It then stands in the place of
    /// the control that marks the image incorrect.
    pub comment_entry: Option<CommentEntry>,
    /// The facts shown beside the image.
    pub info: InfoRow,
    /// Whether the control for the image before is shown.
    pub previous: bool,
    /// Whether the control for the image after is shown.
    pub next: bool,
}

/// The page of a step.
#[derive(Debug)]
pub enum Page {
    Welcome(WelcomePage),
    Images(ImagesPage),
    End(Heading),
}

/// The control that leads to the next step.
#[derive(PartialEq, Eq, Structural, Clone, Copy, Debug)]
pub enum NextControl {
    /// There is no next step.
    Hidden,
    /// There is a next step, and no folder to go there with.
    Disabled,
    /// The annotator may go on.
    Enabled,
}

/// Everything the shell draws.
#[derive(Debug)]
pub struct ViewDescription {
    /// The page of the current step.
    pub page: Page,
    /// Whether the control that leads a step back is shown.
    pub back: bool,
    /// The control that leads to the next step.
    pub next: NextControl,
}

/// What the shell found out of the file of the current image.
#[derive(Debug)]
pub struct ImageProbe {
    /// The last part of the file's path.
    pub file_name: String,
    /// The first bytes of the file, or the reason why they could not be
    /// read.
    pub header: Result<Vec<u8>, String>,
}

} // verus!
