//! Which entries of a directory are the images to annotate.

use crate::record::texts_view;
use vstd::prelude::*;

verus! {

/// What the shell learned of an entry from its metadata.
#[derive(PartialEq, Eq, Structural, Clone, Copy, Debug)]
pub enum EntryStatus {
    /// A plain file.
    PlainFile,
    /// A directory.
    Directory,
    /// Neither a plain file nor a directory.
    Other,
    /// The metadata could not be read.
    Unreadable,
}

/// One entry of a directory.
#[derive(Debug)]
pub struct DirectoryEntry {
    /// Where the entry lies.
    pub path: String,
    /// What kind of entry it is.
    pub status: EntryStatus,
}

/// What the shell found when it listed a directory.
#[derive(Debug)]
pub enum DirectoryListing {
    /// The directory is not there or cannot be opened.
    Unreadable,
    /// The entries of the directory, in the order in which they were listed.
    Entries(Vec<DirectoryEntry>),
}

/// The path of the entry where the entry counts as an image: where it is a
/// plain file whose metadata could be read.
pub open spec fn image_of(entry: DirectoryEntry) -> Option<Seq<char>> {
    if entry.status == EntryStatus::PlainFile {
        Some(entry.path@)
    } else {
        None
    }
}

/// The rule by which an entry counts as an image, as a function.
pub open spec fn image_filter() -> spec_fn(DirectoryEntry) -> Option<Seq<char>> {
    |entry: DirectoryEntry| image_of(entry)
}

/// The paths of the images of a listing: those of its plain files, each once,
/// in the order of the listing; none where the directory could not be read.
pub open spec fn listed_images(listing: DirectoryListing) -> Seq<Seq<char>> {
    match listing {
        DirectoryListing::Unreadable => Seq::empty(),
        DirectoryListing::Entries(entries) => entries@.filter_map(image_filter()),
    }
}

/// The images of a directory, given its listing. The position of a path in
/// the result is the index of the image.
///
/// Directories are left out, and so are entries whose metadata could not be
/// read. A directory that could not be read has no images; that is no error.
pub fn get_all_images(listing: &DirectoryListing) -> (images: Vec<String>)
    ensures
        texts_view(images@) == listed_images(*listing),
{
    let mut output: Vec<String> = Vec::new();
    match listing {
        DirectoryListing::Unreadable => {
            assert(texts_view(output@) =~= Seq::<Seq<char>>::empty());
        },
        DirectoryListing::Entries(entries) => {
            let mut i: usize = 0;
            assert(texts_view(output@) =~= entries@.take(0).filter_map(image_filter()));
            while i < entries.len()
                invariant
                    i <= entries.len(),
                    texts_view(output@) == entries@.take(i as int).filter_map(image_filter()),
                decreases entries.len() - i,
            {
                proof {
                    entries@.lemma_filter_map_take_succ(image_filter(), i as int);
                }
                let ghost before = texts_view(output@);
                if entries[i].status == EntryStatus::PlainFile {
                    output.push(entries[i].path.clone());
                    assert(texts_view(output@) =~= before + seq![entries[i as int].path@]);
                } else {
                    assert(before + Seq::<Seq<char>>::empty() =~= before);
                }
                i += 1;
            }
            assert(entries@.take(entries.len() as int) =~= entries@);
        },
    }
    output
}

/// A path is among the images of a listing if and only if it is the path of
/// an entry that is a plain file.
pub proof fn lemma_images_are_the_plain_files(entries: Seq<DirectoryEntry>, path: Seq<char>)
    ensures
        entries.filter_map(image_filter()).contains(path) <==> exists|i: int|
            0 <= i < entries.len() && (#[trigger] entries[i]).status == EntryStatus::PlainFile
                && entries[i].path@ == path,
    decreases entries.len(),
{
    let images = entries.filter_map(image_filter());
    if entries.len() > 0 {
        let front = entries.drop_last();
        let last = entries.last();
        let earlier = front.filter_map(image_filter());
        lemma_images_are_the_plain_files(front, path);
        if images.contains(path) {
            let at = choose|at: int| 0 <= at < images.len() && images[at] == path;
            if at < earlier.len() {
                assert(earlier[at] == path);
                assert(earlier.contains(path));
                let i = choose|i: int|
                    0 <= i < front.len() && (#[trigger] front[i]).status == EntryStatus::PlainFile
                        && front[i].path@ == path;
                assert(entries[i].status == EntryStatus::PlainFile && entries[i].path@ == path);
            } else {
                assert(entries[entries.len() - 1].status == EntryStatus::PlainFile
                    && entries[entries.len() - 1].path@ == path);
            }
        }
        if exists|i: int|
            0 <= i < entries.len() && (#[trigger] entries[i]).status == EntryStatus::PlainFile
                && entries[i].path@ == path {
            let i = choose|i: int|
                0 <= i < entries.len() && (#[trigger] entries[i]).status == EntryStatus::PlainFile
                    && entries[i].path@ == path;
            if i < front.len() {
                assert(front[i].status == EntryStatus::PlainFile && front[i].path@ == path);
                let at = choose|at: int| 0 <= at < earlier.len() && earlier[at] == path;
                assert(images[at] == path);
            } else {
                assert(images[images.len() - 1] == path);
            }
        }
    }
}

} // verus!
