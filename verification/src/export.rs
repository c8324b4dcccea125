//! Writing the labels of a folder into the store on disk without losing
//! what the store holds for other folders.

use crate::store::{AnnotatedStore, StoreMap};
use vstd::prelude::*;

verus! {

/// What the shell found at the place where the store is kept.
#[derive(Debug)]
pub enum DiskStore {
    /// There is no file.
    Missing,
    /// There is a file, and it does not hold a store.
    Malformed,
    /// There is a file, and it holds this store.
    Stored(AnnotatedStore),
}

/// Why an export did not take place.
#[derive(PartialEq, Eq, Structural, Clone, Copy, Debug)]
pub enum ExportError {
    /// The file on disk does not hold a store, so nothing can be merged into
    /// it.
    MalformedStore,
}

impl ExportError {
    /// The error in words.
    pub open spec fn spec_message(&self) -> Seq<char> {
        match *self {
            ExportError::MalformedStore => "The store on disk cannot be read as a store"@,
        }
    }

    /// The error in words.
    pub fn message(&self) -> (text: String)
        ensures
            text@ == self.spec_message(),
    {
        match self {
            ExportError::MalformedStore => "The store on disk cannot be read as a store".to_string(),
        }
    }
}

impl DiskStore {
    /// The store that the file holds; none where there is no file.
    pub open spec fn stored(&self) -> Option<StoreMap> {
        match *self {
            DiskStore::Stored(store) => Some(store@),
            _ => None,
        }
    }
}

/// The store that is written when `fragment` is exported: the fragment itself
/// where there was no file; else what the file held, with each folder of the
/// fragment set to the fragment's records for it.
pub open spec fn exported(on_disk: Option<StoreMap>, fragment: StoreMap) -> StoreMap {
    match on_disk {
        Some(stored) => stored.union_prefer_right(fragment),
        None => fragment,
    }
}

/// The store to write when `json_obj` is exported, given what was found on
/// disk.
///
/// A missing file counts as an empty store. A file that holds no store fails
/// the export: nothing is to be written then, and `json_obj` is untouched.
pub fn load_json_and_update(on_disk: DiskStore, json_obj: &AnnotatedStore) -> (written: Result<
    AnnotatedStore,
    ExportError,
>)
    ensures
        on_disk is Malformed <==> written is Err,
        written is Err ==> written == Err::<AnnotatedStore, ExportError>(
            ExportError::MalformedStore,
        ),
        written matches Ok(store) ==> store@ == exported(on_disk.stored(), json_obj@),
{
    match on_disk {
        DiskStore::Missing => Ok(json_obj.clone()),
        DiskStore::Malformed => Err(ExportError::MalformedStore),
        DiskStore::Stored(stored) => {
            let mut merged = stored;
            merged.merge(json_obj);
            Ok(merged)
        },
    }
}

/// Exporting nothing after an export writes again what that export wrote.
pub proof fn lemma_export_round_trip(on_disk: Option<StoreMap>, fragment: StoreMap)
    ensures
        exported(Some(exported(on_disk, fragment)), Map::empty()) == exported(on_disk, fragment),
{
    let first = exported(on_disk, fragment);
    assert(first.union_prefer_right(Map::<Seq<char>, Seq<crate::record::PropertiesView>>::empty())
        =~= first);
}

/// Exporting the fragment of one folder leaves the records that the store on
/// disk has for any other folder as they are, and sets those of the
/// fragment's folder to the fragment's.
pub proof fn lemma_export_preserves_others(
    stored: StoreMap,
    fragment: StoreMap,
    touched: Seq<char>,
    other: Seq<char>,
)
    requires
        fragment.dom() == set![touched],
        stored.contains_key(other),
        other != touched,
    ensures
        exported(Some(stored), fragment).contains_key(other),
        exported(Some(stored), fragment)[other] == stored[other],
        exported(Some(stored), fragment).contains_key(touched),
        exported(Some(stored), fragment)[touched] == fragment[touched],
        exported(Some(stored), fragment).dom() == stored.dom().insert(touched),
{
    assert(exported(Some(stored), fragment).dom() =~= stored.dom().insert(touched));
}

} // verus!
