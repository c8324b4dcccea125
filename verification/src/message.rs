//! The events the shell dispatches into the workflow.

use vstd::prelude::*;

verus! {

/// The colour themes the annotator can choose from.
#[derive(PartialEq, Eq, Structural, Clone, Copy, Debug)]
pub enum ThemeType {
    Light,
    Dark,
    Custom,
}

/// An event raised on the page of the current step.
#[derive(Debug)]
pub enum ImageStepMessage {
    /// Go to the image before the current one.
    Previous(),
    /// Go to the image after the current one.
    Next(),
    /// Classify the current image as correct.
    MarkAsCorrect(),
    /// Classify the current image as incorrect and open the comment entry.
    MarkAsIncorrect(),
    /// Take the classification of the current image back.
    ResetSelection(),
    /// Write the labels of the active folder to the store on disk.
    Export(),
    /// Ask the annotator for a folder.
    ChooseFolderPath(),
    /// The annotator confirmed the given reason.
    CommentAdded(String),
    /// The annotator edited the reason; the text is the whole draft.
    CommentType(String),
    /// The annotator picked a theme.
    ThemeChanged(ThemeType),
}

/// An event of the application as a whole.
#[derive(Debug)]
pub enum Message {
    /// Go one step back.
    BackPressed,
    /// Go one step forward.
    NextPressed,
    /// An event of the current step's page.
    ImageStepMessage(ImageStepMessage),
    /// The annotator picked a theme.
    ThemeChanged(ThemeType),
}

impl Clone for ImageStepMessage {
    fn clone(&self) -> (copy: ImageStepMessage)
        ensures
            copy == *self,
    {
        match self {
            ImageStepMessage::Previous() => ImageStepMessage::Previous(),
            ImageStepMessage::Next() => ImageStepMessage::Next(),
            ImageStepMessage::MarkAsCorrect() => ImageStepMessage::MarkAsCorrect(),
            ImageStepMessage::MarkAsIncorrect() => ImageStepMessage::MarkAsIncorrect(),
            ImageStepMessage::ResetSelection() => ImageStepMessage::ResetSelection(),
            ImageStepMessage::Export() => ImageStepMessage::Export(),
            ImageStepMessage::ChooseFolderPath() => ImageStepMessage::ChooseFolderPath(),
            ImageStepMessage::CommentAdded(text) => ImageStepMessage::CommentAdded(text.clone()),
            ImageStepMessage::CommentType(text) => ImageStepMessage::CommentType(text.clone()),
            ImageStepMessage::ThemeChanged(theme) => ImageStepMessage::ThemeChanged(*theme),
        }
    }
}

impl Clone for Message {
    fn clone(&self) -> (copy: Message)
        ensures
            copy == *self,
    {
        match self {
            Message::BackPressed => Message::BackPressed,
            Message::NextPressed => Message::NextPressed,
            Message::ImageStepMessage(msg) => Message::ImageStepMessage(msg.clone()),
            Message::ThemeChanged(theme) => Message::ThemeChanged(*theme),
        }
    }
}

/// Decides whether a draft may be submitted as a reason, and in which form.
///
/// Every draft may, the empty one included: a reason is optional.
pub fn msg_check(msg: String) -> (checked: Option<String>)
    ensures
        checked == Some(msg),
{
    Some(msg)
}

} // verus!
