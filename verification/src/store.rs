//! The annotation store: for each folder, the records of its images.

use crate::clock::local_timestamp;
use crate::record::{records_view, same_records, text_view, texts_view, FolderAnnotations, Properties, PropertiesView};
use vstd::prelude::*;
use vstd::set_lib::lemma_subset_equality;
use vstd::std_specs::cmp::PartialEqSpecImpl;

verus! {

/// A store as a mathematical value: a map from folder paths to records.
pub type StoreMap = Map<Seq<char>, Seq<PropertiesView>>;

/// Whether no folder path occurs twice among the entries.
pub open spec fn distinct_folders(entries: Seq<FolderAnnotations>) -> bool {
    forall|i: int, j: int|
        0 <= i < j < entries.len() ==> entries[i].folder_path@ != entries[j].folder_path@
}

/// Whether one of the entries is for the folder.
pub open spec fn has_folder(entries: Seq<FolderAnnotations>, folder: Seq<char>) -> bool {
    exists|i: int| 0 <= i < entries.len() && #[trigger] entries[i].folder_path@ == folder
}

/// The position of an entry for the folder.
pub open spec fn folder_position(entries: Seq<FolderAnnotations>, folder: Seq<char>) -> int {
    choose|i: int| 0 <= i < entries.len() && #[trigger] entries[i].folder_path@ == folder
}

/// The map that a list of entries with distinct folder paths stands for.
pub open spec fn entries_map(entries: Seq<FolderAnnotations>) -> StoreMap {
    Map::new(
        |folder: Seq<char>| has_folder(entries, folder),
        |folder: Seq<char>| records_view(entries[folder_position(entries, folder)].records@),
    )
}

/// Whether two lists of entries hold the same folders with the same records,
/// position by position.
pub open spec fn same_entries(a: Seq<FolderAnnotations>, b: Seq<FolderAnnotations>) -> bool {
    &&& a.len() == b.len()
    &&& forall|i: int|
        0 <= i < a.len() ==> a[i].folder_path@ == (#[trigger] b[i]).folder_path@ && a[i].records@
            == b[i].records@
}

/// The store in which the record at `index` of `folder` has the label
/// `value`; the store itself where it has no such record.
pub open spec fn with_annotation(
    store: StoreMap,
    folder: Seq<char>,
    index: int,
    value: Option<bool>,
) -> StoreMap {
    if store.contains_key(folder) && 0 <= index < store[folder].len() {
        store.insert(
            folder,
            store[folder].update(
                index,
                PropertiesView { annotation: value, ..store[folder][index] },
            ),
        )
    } else {
        store
    }
}

/// The store in which the record at `index` of `folder` has the reason
/// `text`; the store itself where it has no such record.
pub open spec fn with_comment(
    store: StoreMap,
    folder: Seq<char>,
    index: int,
    text: Option<Seq<char>>,
) -> StoreMap {
    if store.contains_key(folder) && 0 <= index < store[folder].len() {
        store.insert(
            folder,
            store[folder].update(index, PropertiesView { comments: text, ..store[folder][index] }),
        )
    } else {
        store
    }
}

/// Whether the record is that of a freshly listed image at the given
/// position: unclassified, without a reason, with the time of its making.
pub open spec fn is_fresh_record(record: PropertiesView, index: int, path: Seq<char>) -> bool {
    &&& record.index == index
    &&& record.image_path == path
    &&& record.annotation.is_none()
    &&& record.comments.is_none()
    &&& record.last_updated.is_some()
}

/// Whether the records are those that a fresh listing of images starts
/// with: one for each path, in order, each numbered by its position.
pub open spec fn is_fresh_listing(records: Seq<PropertiesView>, paths: Seq<Seq<char>>) -> bool {
    &&& records.len() == paths.len()
    &&& forall|i: int|
        0 <= i < records.len() ==> is_fresh_record(#[trigger] records[i], i, paths[i])
}

/// Each entry of a list with distinct folder paths is found under its path.
pub proof fn lemma_entry_in_map(entries: Seq<FolderAnnotations>, i: int)
    requires
        distinct_folders(entries),
        0 <= i < entries.len(),
    ensures
        entries_map(entries).contains_key(entries[i].folder_path@),
        entries_map(entries)[entries[i].folder_path@] == records_view(entries[i].records@),
{
    let folder = entries[i].folder_path@;
    assert(has_folder(entries, folder));
    let j = folder_position(entries, folder);
    assert(0 <= j < entries.len() && entries[j].folder_path@ == folder);
    assert(i == j);
}

/// Lists that hold the same entries stand for the same map.
pub proof fn lemma_same_entries(a: Seq<FolderAnnotations>, b: Seq<FolderAnnotations>)
    requires
        distinct_folders(a),
        same_entries(a, b),
    ensures
        distinct_folders(b),
        entries_map(a) == entries_map(b),
{
    assert forall|i: int, j: int| 0 <= i < j < b.len() implies b[i].folder_path@
        != b[j].folder_path@ by {
        assert(a[i].folder_path@ == b[i].folder_path@);
        assert(a[j].folder_path@ == b[j].folder_path@);
    }
    assert forall|k: Seq<char>| has_folder(a, k) <==> has_folder(b, k) by {
        if has_folder(a, k) {
            let p = folder_position(a, k);
            assert(b[p].folder_path@ == k);
        }
        if has_folder(b, k) {
            let p = folder_position(b, k);
            assert(a[p].folder_path@ == k);
        }
    }
    assert forall|k: Seq<char>| has_folder(a, k) implies entries_map(a)[k] == entries_map(b)[k] by {
        let p = folder_position(a, k);
        assert(b[p].folder_path@ == k);
        lemma_entry_in_map(a, p);
        lemma_entry_in_map(b, p);
    }
    assert(entries_map(a) =~= entries_map(b));
}

/// Giving one entry other records changes the map at that entry's folder
/// and nowhere else.
pub proof fn lemma_replace_records(
    before: Seq<FolderAnnotations>,
    after: Seq<FolderAnnotations>,
    at: int,
)
    requires
        distinct_folders(before),
        0 <= at < before.len(),
        after.len() == before.len(),
        after[at].folder_path@ == before[at].folder_path@,
        forall|j: int|
            0 <= j < before.len() && j != at ==> before[j].folder_path@ == (
            #[trigger] after[j]).folder_path@ && before[j].records@ == after[j].records@,
    ensures
        distinct_folders(after),
        entries_map(after) == entries_map(before).insert(
            before[at].folder_path@,
            records_view(after[at].records@),
        ),
{
    let folder = before[at].folder_path@;
    let updated = entries_map(before).insert(folder, records_view(after[at].records@));
    assert forall|i: int, j: int| 0 <= i < j < after.len() implies after[i].folder_path@
        != after[j].folder_path@ by {
        assert(after[i].folder_path@ == before[i].folder_path@);
        assert(after[j].folder_path@ == before[j].folder_path@);
    }
    assert forall|k: Seq<char>| has_folder(after, k) <==> updated.contains_key(k) by {
        if has_folder(after, k) {
            let p = folder_position(after, k);
            assert(before[p].folder_path@ == k);
        }
        if has_folder(before, k) {
            let p = folder_position(before, k);
            assert(after[p].folder_path@ == k);
        }
        if k == folder {
            assert(after[at].folder_path@ == k);
        }
    }
    assert forall|k: Seq<char>| has_folder(after, k) implies entries_map(after)[k]
        == updated[k] by {
        let p = folder_position(after, k);
        lemma_entry_in_map(after, p);
        if p != at {
            assert(before[p].folder_path@ == k);
            lemma_entry_in_map(before, p);
        }
    }
    assert(entries_map(after) =~= updated);
}

/// A further entry for a folder that had none adds that folder to the map
/// and changes nothing else.
pub proof fn lemma_push_entry(before: Seq<FolderAnnotations>, entry: FolderAnnotations)
    requires
        distinct_folders(before),
        !has_folder(before, entry.folder_path@),
    ensures
        distinct_folders(before.push(entry)),
        entries_map(before.push(entry)) == entries_map(before).insert(
            entry.folder_path@,
            records_view(entry.records@),
        ),
{
    let after = before.push(entry);
    let folder = entry.folder_path@;
    let updated = entries_map(before).insert(folder, records_view(entry.records@));
    assert forall|i: int, j: int| 0 <= i < j < after.len() implies after[i].folder_path@
        != after[j].folder_path@ by {
        if j == before.len() {
            assert(before[i].folder_path@ != folder);
        }
    }
    assert forall|k: Seq<char>| has_folder(after, k) <==> updated.contains_key(k) by {
        if has_folder(after, k) {
            let p = folder_position(after, k);
            if p < before.len() {
                assert(before[p].folder_path@ == k);
            }
        }
        if has_folder(before, k) {
            let p = folder_position(before, k);
            assert(after[p].folder_path@ == k);
        }
        if k == folder {
            assert(after[before.len() as int].folder_path@ == k);
        }
    }
    assert forall|k: Seq<char>| has_folder(after, k) implies entries_map(after)[k]
        == updated[k] by {
        let p = folder_position(after, k);
        lemma_entry_in_map(after, p);
        if p < before.len() {
            assert(before[p].folder_path@ == k);
            lemma_entry_in_map(before, p);
        }
    }
    assert(entries_map(after) =~= updated);
}

/// A list of entries with distinct folder paths stands for a map with as
/// many folders as the list has entries.
pub proof fn lemma_entries_map_len(entries: Seq<FolderAnnotations>)
    requires
        distinct_folders(entries),
    ensures
        entries_map(entries).dom().finite(),
        entries_map(entries).dom().len() == entries.len(),
    decreases entries.len(),
{
    if entries.len() == 0 {
        assert(entries_map(entries).dom() =~= Set::<Seq<char>>::empty());
    } else {
        let front = entries.drop_last();
        let last = entries.last();
        assert(distinct_folders(front));
        assert(!has_folder(front, last.folder_path@)) by {
            if has_folder(front, last.folder_path@) {
                let p = folder_position(front, last.folder_path@);
                assert(entries[p].folder_path@ == entries[entries.len() - 1].folder_path@);
            }
        }
        lemma_entries_map_len(front);
        lemma_push_entry(front, last);
        assert(front.push(last) =~= entries);
        assert(entries_map(entries).dom() =~= entries_map(front).dom().insert(last.folder_path@));
    }
}

/// The map that comes of putting the entries into an empty store one after
/// the other: of two entries for one folder the later one stays.
pub open spec fn inserted_in_order(entries: Seq<FolderAnnotations>) -> StoreMap
    decreases entries.len(),
{
    if entries.len() == 0 {
        Map::empty()
    } else {
        inserted_in_order(entries.drop_last()).insert(
            entries.last().folder_path@,
            records_view(entries.last().records@),
        )
    }
}

/// A mapping from folder paths to the records of their images.
///
/// No two entries have the same folder path.
#[derive(Debug)]
pub struct AnnotatedStore {
    image_to_properties_map: Vec<FolderAnnotations>,
}

impl View for AnnotatedStore {
    type V = StoreMap;

    closed spec fn view(&self) -> StoreMap {
        entries_map(self.image_to_properties_map@)
    }
}

impl AnnotatedStore {
    #[verifier::type_invariant]
    spec fn well_formed(self) -> bool {
        distinct_folders(self.image_to_properties_map@)
    }

    /// A store without folders.
    pub fn new() -> (store: AnnotatedStore)
        ensures
            store@ == Map::<Seq<char>, Seq<PropertiesView>>::empty(),
    {
        let store = AnnotatedStore { image_to_properties_map: Vec::new() };
        assert(store@ =~= Map::<Seq<char>, Seq<PropertiesView>>::empty());
        store
    }

    /// The position of the entry for the folder among the entries, if there
    /// is one.
    fn position_in(entries: &Vec<FolderAnnotations>, folder_path: &String) -> (found: Option<
        usize,
    >)
        ensures
            match found {
                Some(i) => i < entries.len() && entries[i as int].folder_path@ == folder_path@,
                None => !has_folder(entries@, folder_path@),
            },
    {
        let mut i: usize = 0;
        while i < entries.len()
            invariant
                i <= entries.len(),
                forall|j: int| 0 <= j < i ==> entries[j].folder_path@ != folder_path@,
            decreases entries.len() - i,
        {
            if entries[i].folder_path == *folder_path {
                return Some(i);
            }
            i += 1;
        }
        None
    }

    /// The entries, taken out of the store, which is left empty.
    fn take_entries(&mut self) -> (entries: Vec<FolderAnnotations>)
        ensures
            distinct_folders(entries@),
            entries_map(entries@) == old(self)@,
    {
        let mut emptied = AnnotatedStore::new();
        core::mem::swap(self, &mut emptied);
        proof {
            use_type_invariant(&emptied);
        }
        emptied.image_to_properties_map
    }

    /// Whether the store has an entry for the folder.
    pub fn contains_key(&self, folder_path: &String) -> (found: bool)
        ensures
            found == self@.contains_key(folder_path@),
    {
        Self::position_in(&self.image_to_properties_map, folder_path).is_some()
    }

    /// The records of the folder, if the store has an entry for it.
    pub fn get(&self, folder_path: &String) -> (found: Option<&Vec<Properties>>)
        ensures
            match found {
                Some(records) => self@.contains_key(folder_path@) && self@[folder_path@]
                    == records_view(records@),
                None => !self@.contains_key(folder_path@),
            },
    {
        proof {
            use_type_invariant(self);
        }
        match Self::position_in(&self.image_to_properties_map, folder_path) {
            Some(i) => {
                proof {
                    lemma_entry_in_map(self.image_to_properties_map@, i as int);
                }
                Some(&self.image_to_properties_map[i].records)
            },
            None => None,
        }
    }

    /// Sets the records of the folder, in place of those it had, if any.
    /// The entries of the other folders stay as they are.
    pub fn insert(&mut self, folder_path: String, records: Vec<Properties>)
        ensures
            final(self)@ == old(self)@.insert(folder_path@, records_view(records@)),
    {
        let mut entries = self.take_entries();
        let ghost before = entries@;
        let entry = FolderAnnotations { folder_path, records };
        match Self::position_in(&entries, &entry.folder_path) {
            Some(i) => {
                entries.set(i, entry);
                proof {
                    lemma_replace_records(before, entries@, i as int);
                }
            },
            None => {
                proof {
                    lemma_push_entry(before, entry);
                }
                entries.push(entry);
            },
        }
        *self = AnnotatedStore { image_to_properties_map: entries };
    }

    /// Sets the label of the record at `index` of the folder. Where the
    /// store has no such record, nothing changes.
    pub fn set_annotation(&mut self, folder_path: &String, index: usize, value: Option<bool>)
        ensures
            final(self)@ == with_annotation(old(self)@, folder_path@, index as int, value),
    {
        let mut entries = self.take_entries();
        let ghost before = entries@;
        match Self::position_in(&entries, folder_path) {
            Some(i) => {
                proof {
                    lemma_entry_in_map(before, i as int);
                }
                if index < entries[i].records.len() {
                    entries[i].records[index].annotation = value;
                    proof {
                        lemma_replace_records(before, entries@, i as int);
                        assert(records_view(entries@[i as int].records@) =~= records_view(
                            before[i as int].records@,
                        ).update(
                            index as int,
                            PropertiesView {
                                annotation: value,
                                ..records_view(before[i as int].records@)[index as int]
                            },
                        ));
                    }
                }
            },
            None => {},
        }
        *self = AnnotatedStore { image_to_properties_map: entries };
    }

    /// Sets the reason of the record at `index` of the folder. Where the
    /// store has no such record, nothing changes. The label of the record
    /// plays no part.
    pub fn set_comment(&mut self, folder_path: &String, index: usize, text: Option<String>)
        ensures
            final(self)@ == with_comment(
                old(self)@,
                folder_path@,
                index as int,
                text_view(text),
            ),
    {
        let mut entries = self.take_entries();
        let ghost before = entries@;
        match Self::position_in(&entries, folder_path) {
            Some(i) => {
                proof {
                    lemma_entry_in_map(before, i as int);
                }
                if index < entries[i].records.len() {
                    entries[i].records[index].comments = text;
                    proof {
                        lemma_replace_records(before, entries@, i as int);
                        assert(records_view(entries@[i as int].records@) =~= records_view(
                            before[i as int].records@,
                        ).update(
                            index as int,
                            PropertiesView {
                                comments: text_view(text),
                                ..records_view(before[i as int].records@)[index as int]
                            },
                        ));
                    }
                }
            },
            None => {},
        }
        *self = AnnotatedStore { image_to_properties_map: entries };
    }

    /// How many folders the store has.
    pub fn len(&self) -> (count: usize)
        ensures
            self@.dom().finite(),
            count == self@.dom().len(),
    {
        proof {
            use_type_invariant(self);
            lemma_entries_map_len(self.image_to_properties_map@);
        }
        self.image_to_properties_map.len()
    }

    /// The entries of the store, one for each folder, in no order that
    /// callers may rely on.
    pub fn entries(&self) -> (entries: &Vec<FolderAnnotations>)
        ensures
            distinct_folders(entries@),
            entries_map(entries@) == self@,
    {
        proof {
            use_type_invariant(self);
        }
        &self.image_to_properties_map
    }

    /// The store that holds the entries. Of two entries for one folder the
    /// later one stays.
    pub fn from_entries(entries: &Vec<FolderAnnotations>) -> (store: AnnotatedStore)
        ensures
            store@ == inserted_in_order(entries@),
    {
        let mut store = AnnotatedStore::new();
        let mut i: usize = 0;
        while i < entries.len()
            invariant
                i <= entries.len(),
                store@ == inserted_in_order(entries@.take(i as int)),
            decreases entries.len() - i,
        {
            let entry = entries[i].clone();
            store.insert(entry.folder_path, entry.records);
            proof {
                assert(entries@.take(i + 1).drop_last() =~= entries@.take(i as int));
            }
            i += 1;
        }
        assert(entries@.take(entries.len() as int) =~= entries@);
        store
    }

    /// Takes over every entry of `other`: a folder that both stores have
    /// gets the records that `other` has for it, whole; a folder that only
    /// this store has keeps its records.
    pub fn merge(&mut self, other: &AnnotatedStore)
        ensures
            final(self)@ == old(self)@.union_prefer_right(other@),
    {
        let entries = other.entries();
        let ghost start = self@;
        let mut i: usize = 0;
        assert(self@ =~= start.union_prefer_right(entries_map(entries@.take(0))));
        while i < entries.len()
            invariant
                i <= entries.len(),
                distinct_folders(entries@),
                self@ == start.union_prefer_right(entries_map(entries@.take(i as int))),
            decreases entries.len() - i,
        {
            let entry = entries[i].clone();
            proof {
                let prefix = entries@.take(i as int);
                let folder = entries@[i as int].folder_path@;
                assert(distinct_folders(prefix));
                assert(!has_folder(prefix, folder)) by {
                    if has_folder(prefix, folder) {
                        let p = folder_position(prefix, folder);
                        assert(entries@[p].folder_path@ == entries@[i as int].folder_path@);
                    }
                }
                lemma_push_entry(prefix, entries@[i as int]);
                assert(prefix.push(entries@[i as int]) =~= entries@.take(i + 1));
                assert(start.union_prefer_right(entries_map(prefix)).insert(
                    folder,
                    records_view(entry.records@),
                ) =~= start.union_prefer_right(entries_map(entries@.take(i + 1))));
            }
            self.insert(entry.folder_path, entry.records);
            i += 1;
        }
        assert(entries@.take(entries.len() as int) =~= entries@);
    }

    /// A copy of the entries, one for one.
    fn copy_entries(entries: &Vec<FolderAnnotations>) -> (copy: Vec<FolderAnnotations>)
        ensures
            same_entries(entries@, copy@),
    {
        let mut copy: Vec<FolderAnnotations> = Vec::new();
        let mut i: usize = 0;
        while i < entries.len()
            invariant
                i <= entries.len(),
                copy.len() == i,
                forall|j: int|
                    0 <= j < i ==> entries[j].folder_path@ == (#[trigger] copy[j]).folder_path@
                        && entries[j].records@ == copy[j].records@,
            decreases entries.len() - i,
        {
            copy.push(entries[i].clone());
            i += 1;
        }
        copy
    }
}

impl Clone for AnnotatedStore {
    fn clone(&self) -> (copy: AnnotatedStore)
        ensures
            copy@ == self@,
    {
        let entries = Self::copy_entries(&self.image_to_properties_map);
        proof {
            use_type_invariant(self);
            lemma_same_entries(self.image_to_properties_map@, entries@);
        }
        AnnotatedStore { image_to_properties_map: entries }
    }
}

impl PartialEq for AnnotatedStore {
    /// Whether the two stores hold the same folders with the same records,
    /// in whatever order their entries lie.
    fn eq(&self, other: &AnnotatedStore) -> (same: bool) {
        proof {
            use_type_invariant(self);
            use_type_invariant(other);
            lemma_entries_map_len(self.image_to_properties_map@);
            lemma_entries_map_len(other.image_to_properties_map@);
        }
        if self.image_to_properties_map.len() != other.image_to_properties_map.len() {
            return false;
        }
        let mut i: usize = 0;
        while i < self.image_to_properties_map.len()
            invariant
                i <= self.image_to_properties_map.len(),
                distinct_folders(self.image_to_properties_map@),
                distinct_folders(other.image_to_properties_map@),
                forall|j: int|
                    0 <= j < i ==> other@.contains_key(
                        (#[trigger] self.image_to_properties_map[j]).folder_path@,
                    ) && other@[self.image_to_properties_map[j].folder_path@] == records_view(
                        self.image_to_properties_map[j].records@,
                    ),
            decreases self.image_to_properties_map.len() - i,
        {
            proof {
                lemma_entry_in_map(self.image_to_properties_map@, i as int);
            }
            let entry = &self.image_to_properties_map[i];
            match other.get(&entry.folder_path) {
                Some(records) => {
                    if !same_records(&entry.records, records) {
                        return false;
                    }
                },
                None => {
                    return false;
                },
            }
            i += 1;
        }
        proof {
            assert forall|k: Seq<char>| self@.contains_key(k) implies other@.contains_key(k)
                && self@[k] == other@[k] by {
                let p = folder_position(self.image_to_properties_map@, k);
                lemma_entry_in_map(self.image_to_properties_map@, p);
                assert(other@.contains_key(self.image_to_properties_map[p].folder_path@));
            }
            assert(self@.dom().subset_of(other@.dom()));
            lemma_subset_equality(self@.dom(), other@.dom());
            assert(self@ =~= other@);
        }
        true
    }
}

impl PartialEqSpecImpl for AnnotatedStore {
    open spec fn obeys_eq_spec() -> bool {
        true
    }

    open spec fn eq_spec(&self, other: &AnnotatedStore) -> bool {
        self@ == other@
    }
}

impl Eq for AnnotatedStore {

}

/// The store that work on a folder starts with: the folder alone, with one
/// record for each image, in the order of the paths. Each record is numbered
/// by its position, is unclassified, has no reason, and tells the time at
/// which it was made.
pub fn init_json_obj(folder_path: String, all_paths: Vec<String>) -> (store: AnnotatedStore)
    ensures
        store@.dom() == set![folder_path@],
        is_fresh_listing(store@[folder_path@], texts_view(all_paths@)),
{
    let mut records: Vec<Properties> = Vec::new();
    let mut idx: usize = 0;
    while idx < all_paths.len()
        invariant
            idx <= all_paths.len(),
            records.len() == idx,
            forall|i: int|
                0 <= i < idx ==> is_fresh_record((#[trigger] records[i])@, i, all_paths[i]@),
        decreases all_paths.len() - idx,
    {
        let stamp = local_timestamp();
        let record = Properties::new_record(idx, all_paths[idx].clone(), stamp);
        records.push(record);
        idx += 1;
    }
    let ghost folder = folder_path@;
    let ghost listed = records_view(records@);
    let mut store = AnnotatedStore::new();
    store.insert(folder_path, records);
    proof {
        assert(store@.dom() =~= set![folder]);
        assert(store@[folder] == listed);
        assert forall|i: int| 0 <= i < listed.len() implies is_fresh_record(
            #[trigger] listed[i],
            i,
            texts_view(all_paths@)[i],
        ) by {
            assert(is_fresh_record(records[i]@, i, all_paths[i]@));
        }
    }
    store
}

} // verus!
