//! The record kept of one image, and the records of one folder.

use vstd::prelude::*;
use vstd::std_specs::cmp::PartialEqSpecImpl;

verus! {

/// What is recorded of one image.
#[derive(Debug)]
pub struct Properties {
    /// The position of the image in its folder's list.
    pub index: usize,
    /// Where the image lies.
    pub image_path: String,
    /// The label: `Some(true)` for correct, `Some(false)` for incorrect,
    /// `None` while the image is unclassified.
    pub annotation: Option<bool>,
    /// The reason given for an incorrect label.
    pub comments: Option<String>,
    /// When the record was made.
    pub last_updated: Option<String>,
}

/// A record as a mathematical value.
pub struct PropertiesView {
    pub index: int,
    pub image_path: Seq<char>,
    pub annotation: Option<bool>,
    pub comments: Option<Seq<char>>,
    pub last_updated: Option<Seq<char>>,
}

/// The characters of an optional text.
pub open spec fn text_view(text: Option<String>) -> Option<Seq<char>> {
    match text {
        Some(t) => Some(t@),
        None => None,
    }
}

/// The characters of each of the texts.
pub open spec fn texts_view(texts: Seq<String>) -> Seq<Seq<char>> {
    texts.map_values(|t: String| t@)
}

impl View for Properties {
    type V = PropertiesView;

    open spec fn view(&self) -> PropertiesView {
        PropertiesView {
            index: self.index as int,
            image_path: self.image_path@,
            annotation: self.annotation,
            comments: text_view(self.comments),
            last_updated: text_view(self.last_updated),
        }
    }
}

/// A copy of an optional text.
fn clone_text(text: &Option<String>) -> (copy: Option<String>)
    ensures
        copy == *text,
{
    match text {
        Some(t) => Some(t.clone()),
        None => None,
    }
}

/// Whether two optional texts have the same characters, or are both absent.
fn same_text(a: &Option<String>, b: &Option<String>) -> (same: bool)
    ensures
        same == (text_view(*a) == text_view(*b)),
{
    match (a, b) {
        (Some(x), Some(y)) => *x == *y,
        (None, None) => true,
        _ => false,
    }
}

/// Whether two labels are the same.
fn same_label(a: &Option<bool>, b: &Option<bool>) -> (same: bool)
    ensures
        same == (*a == *b),
{
    match (a, b) {
        (Some(x), Some(y)) => *x == *y,
        (None, None) => true,
        _ => false,
    }
}

impl Clone for Properties {
    fn clone(&self) -> (copy: Properties)
        ensures
            copy == *self,
    {
        Properties {
            index: self.index,
            image_path: self.image_path.clone(),
            annotation: self.annotation,
            comments: clone_text(&self.comments),
            last_updated: clone_text(&self.last_updated),
        }
    }
}

impl PartialEq for Properties {
    /// Whether the two records say the same of the same image.
    fn eq(&self, other: &Properties) -> (same: bool) {
        self.index == other.index && self.image_path == other.image_path && same_label(
            &self.annotation,
            &other.annotation,
        ) && same_text(&self.comments, &other.comments) && same_text(
            &self.last_updated,
            &other.last_updated,
        )
    }
}

impl PartialEqSpecImpl for Properties {
    open spec fn obeys_eq_spec() -> bool {
        true
    }

    open spec fn eq_spec(&self, other: &Properties) -> bool {
        self@ == other@
    }
}

impl Eq for Properties {

}

impl Properties {
    /// The record of a freshly listed image: unclassified, without a reason,
    /// made at the time that `stamp` tells.
    pub fn new_record(index: usize, image_path: String, stamp: String) -> (record: Properties)
        ensures
            record@ == fresh_record(index as int, image_path@, stamp@),
    {
        Properties {
            index,
            image_path,
            annotation: None,
            comments: None,
            last_updated: Some(stamp),
        }
    }
}

/// The record of a freshly listed image.
pub open spec fn fresh_record(index: int, image_path: Seq<char>, stamp: Seq<char>) -> PropertiesView {
    PropertiesView {
        index,
        image_path,
        annotation: None,
        comments: None,
        last_updated: Some(stamp),
    }
}

/// A list of records as a sequence of mathematical values.
pub open spec fn records_view(records: Seq<Properties>) -> Seq<PropertiesView> {
    records.map_values(|p: Properties| p@)
}

/// Whether two lists hold the same records in the same order.
pub(crate) fn same_records(a: &Vec<Properties>, b: &Vec<Properties>) -> (same: bool)
    ensures
        same == (records_view(a@) == records_view(b@)),
{
    if a.len() != b.len() {
        assert(records_view(a@).len() != records_view(b@).len());
        return false;
    }
    let mut i: usize = 0;
    while i < a.len()
        invariant
            i <= a.len(),
            a.len() == b.len(),
            forall|j: int| 0 <= j < i ==> a[j]@ == b[j]@,
        decreases a.len() - i,
    {
        if !(a[i] == b[i]) {
            assert(records_view(a@)[i as int] != records_view(b@)[i as int]);
            return false;
        }
        i += 1;
    }
    assert(records_view(a@) =~= records_view(b@));
    true
}

/// The records of one folder.
#[derive(Debug)]
pub struct FolderAnnotations {
    /// The folder, which is the key of the entry.
    pub folder_path: String,
    /// One record for each image of the folder, in the order of the listing.
    pub records: Vec<Properties>,
}

impl Clone for FolderAnnotations {
    fn clone(&self) -> (copy: FolderAnnotations)
        ensures
            copy.folder_path == self.folder_path,
            copy.records@ == self.records@,
    {
        let records = self.records.clone();
        assert(records@ =~= self.records@);
        FolderAnnotations { folder_path: self.folder_path.clone(), records }
    }
}

} // verus!
