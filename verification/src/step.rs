//! The steps of the session, in the order the annotator walks through them.

use vstd::prelude::*;
use vstd::string::StringExecFns;

verus! {

/// One step of the session.
#[derive(PartialEq, Eq, Structural, Clone, Copy, Debug)]
pub enum Step {
    /// The annotator is welcomed and chooses a folder.
    WelcomeWithFolderChoose,
    /// The annotator goes through the images of the folder.
    Images,
    /// The session is over.
    End,
}

impl Step {
    /// Whether a step follows this one.
    pub open spec fn spec_can_continue(&self) -> bool {
        *self != Step::End
    }

    /// The title of the step's page.
    pub open spec fn spec_title(&self) -> Seq<char> {
        match *self {
            Step::WelcomeWithFolderChoose => "Welcome"@,
            Step::Images => "Images"@,
            Step::End => "End"@,
        }
    }

    /// Whether a step follows this one: true for every step but the last.
    #[verifier::when_used_as_spec(spec_can_continue)]
    pub fn can_continue(&self) -> (can: bool)
        ensures
            can == self.spec_can_continue(),
    {
        match self {
            Step::WelcomeWithFolderChoose => true,
            Step::Images => true,
            Step::End => false,
        }
    }

    /// The title of the step's page.
    pub fn title(&self) -> (title: String)
        ensures
            title@ == self.spec_title(),
    {
        match self {
            Step::WelcomeWithFolderChoose => String::from_str("Welcome"),
            Step::Images => String::from_str("Images"),
            Step::End => String::from_str("End"),
        }
    }
}

} // verus!
