//! Directory listings of the registry, and what they name: chains at the
//! root, path identifiers in the directory of paths.

use crate::text::{begins_with, ends_with, eq, starts_with_char, without_last};
use vstd::prelude::*;

verus! {

/// What an entry of a directory listing is.
#[derive(Debug, Clone, Copy, PartialEq, Eq, Structural)]
pub enum EntryKind {
    File,
    Directory,
}

/// One entry of a directory listing.
#[derive(Debug, PartialEq, Eq)]
pub struct DirectoryEntry {
    pub name: String,
    pub kind: EntryKind,
}

/// The mathematical content of [`DirectoryEntry`].
pub struct DirectoryEntryView {
    pub name: Seq<char>,
    pub kind: EntryKind,
}

impl DeepView for DirectoryEntry {
    type V = DirectoryEntryView;

    open spec fn deep_view(&self) -> DirectoryEntryView {
        DirectoryEntryView { name: self.name@, kind: self.kind }
    }
}

/// The entry stands for a chain: a directory whose name neither begins
/// with an underscore nor is the hosting service's own directory.
pub open spec fn is_chain(entry: DirectoryEntryView) -> bool {
    &&& entry.kind == EntryKind::Directory
    &&& !begins_with(entry.name, '_')
    &&& entry.name != ".github"@
}

/// The entry stands for a path: a file whose name does not begin with an
/// underscore and ends with `.json`.
pub open spec fn is_path_file(entry: DirectoryEntryView) -> bool {
    &&& entry.kind == EntryKind::File
    &&& !begins_with(entry.name, '_')
    &&& ".json"@.is_suffix_of(entry.name)
}

/// The identifier of the path that a file name stands for: the name
/// without its `.json`.
pub open spec fn path_id(name: Seq<char>) -> Seq<char> {
    name.subrange(0, name.len() - ".json"@.len())
}

/// The names of the chains in a listing, in the order of the listing.
pub open spec fn chain_names(entries: Seq<DirectoryEntryView>) -> Seq<Seq<char>> {
    entries.filter(|e: DirectoryEntryView| is_chain(e)).map_values(|e: DirectoryEntryView| e.name)
}

/// The identifiers of the paths in a listing, in the order of the listing.
pub open spec fn path_ids(entries: Seq<DirectoryEntryView>) -> Seq<Seq<char>> {
    entries.filter(|e: DirectoryEntryView| is_path_file(e)).map_values(
        |e: DirectoryEntryView| path_id(e.name),
    )
}

/// How `chain_names` grows with one more entry at the end of a listing.
pub proof fn lemma_chain_names_push(entries: Seq<DirectoryEntryView>, entry: DirectoryEntryView)
    ensures
        chain_names(entries.push(entry)) == if is_chain(entry) {
            chain_names(entries).push(entry.name)
        } else {
            chain_names(entries)
        },
{
    let keep = |e: DirectoryEntryView| is_chain(e);
    Seq::lemma_filter_push(entries, entry, keep);
}

/// How `path_ids` grows with one more entry at the end of a listing.
pub proof fn lemma_path_ids_push(entries: Seq<DirectoryEntryView>, entry: DirectoryEntryView)
    ensures
        path_ids(entries.push(entry)) == if is_path_file(entry) {
            path_ids(entries).push(path_id(entry.name))
        } else {
            path_ids(entries)
        },
{
    let keep = |e: DirectoryEntryView| is_path_file(e);
    Seq::lemma_filter_push(entries, entry, keep);
}

/// No chain name of a listing begins with an underscore, and none is
/// `.github`.
pub proof fn lemma_chain_names_are_chains(entries: Seq<DirectoryEntryView>)
    ensures
        forall|i: int|
            0 <= i < chain_names(entries).len() ==> {
                &&& !begins_with(#[trigger] chain_names(entries)[i], '_')
                &&& chain_names(entries)[i] != ".github"@
            },
{
    let keep = |e: DirectoryEntryView| is_chain(e);
    let kept = entries.filter(keep);
    assert forall|i: int| 0 <= i < chain_names(entries).len() implies {
        &&& !begins_with(#[trigger] chain_names(entries)[i], '_')
        &&& chain_names(entries)[i] != ".github"@
    } by {
        Seq::lemma_filter_pred(entries, keep, i);
    }
}

/// A path identifier ends with `.json` only where the file name that it
/// came from ended with `.json.json`: over a listing without such a path
/// file, no identifier ends with `.json`.
pub proof fn lemma_path_ids_have_no_suffix(entries: Seq<DirectoryEntryView>)
    requires
        forall|i: int|
            0 <= i < entries.len() && is_path_file(#[trigger] entries[i])
                ==> !".json.json"@.is_suffix_of(entries[i].name),
    ensures
        forall|i: int|
            0 <= i < path_ids(entries).len() ==> !".json"@.is_suffix_of(
                #[trigger] path_ids(entries)[i],
            ),
{
    let keep = |e: DirectoryEntryView| is_path_file(e);
    let kept = entries.filter(keep);
    assert forall|i: int| 0 <= i < path_ids(entries).len() implies !".json"@.is_suffix_of(
        #[trigger] path_ids(entries)[i],
    ) by {
        Seq::lemma_filter_pred(entries, keep, i);
        Seq::lemma_filter_contains_rev(entries, keep, kept[i]);
        if ".json"@.is_suffix_of(path_id(kept[i].name)) {
            lemma_double_suffix(kept[i].name);
        }
    }
}

/// A name that ends with `.json`, and still does once that is taken off,
/// ends with `.json.json`.
proof fn lemma_double_suffix(name: Seq<char>)
    requires
        ".json"@.is_suffix_of(name),
        ".json"@.is_suffix_of(path_id(name)),
    ensures
        ".json.json"@.is_suffix_of(name),
{
    reveal_strlit(".json");
    reveal_strlit(".json.json");
    let id = path_id(name);
    let n = name.len() as int;
    let tail = name.subrange(n - 10, n);
    assert forall|j: int| 0 <= j < 10 implies tail[j] == ".json.json"@[j] by {
        if j < 5 {
            assert(id.subrange(id.len() - 5, id.len() as int)[j] == ".json"@[j]);
        } else {
            assert(name.subrange(n - 5, n)[j - 5] == ".json"@[j - 5]);
        }
    }
}

/// The names of the chains in a listing, in the order of the listing.
pub fn chains_in(entries: &Vec<DirectoryEntry>) -> (names: Vec<String>)
    ensures
        names.deep_view() == chain_names(entries.deep_view()),
{
    let mut names: Vec<String> = Vec::new();
    let mut i: usize = 0;
    while i < entries.len()
        invariant
            i <= entries.len(),
            names.deep_view() == chain_names(entries.deep_view().take(i as int)),
        decreases entries.len() - i,
    {
        let entry = &entries[i];
        proof {
            let all = entries.deep_view();
            assert(all.take(i + 1) =~= all.take(i as int).push(entry.deep_view()));
            lemma_chain_names_push(all.take(i as int), entry.deep_view());
        }
        if entry.kind == EntryKind::Directory && !starts_with_char(entry.name.as_str(), '_') && !eq(
            entry.name.as_str(),
            ".github",
        ) {
            names.push(entry.name.clone());
        }
        i = i + 1;
    }
    assert(entries.deep_view().take(entries.len() as int) =~= entries.deep_view());
    names
}

/// The identifiers of the paths in a listing, in the order of the listing.
pub fn paths_in(entries: &Vec<DirectoryEntry>) -> (ids: Vec<String>)
    ensures
        ids.deep_view() == path_ids(entries.deep_view()),
{
    let mut ids: Vec<String> = Vec::new();
    let mut i: usize = 0;
    while i < entries.len()
        invariant
            i <= entries.len(),
            ids.deep_view() == path_ids(entries.deep_view().take(i as int)),
        decreases entries.len() - i,
    {
        let entry = &entries[i];
        proof {
            let all = entries.deep_view();
            assert(all.take(i + 1) =~= all.take(i as int).push(entry.deep_view()));
            lemma_path_ids_push(all.take(i as int), entry.deep_view());
        }
        if entry.kind == EntryKind::File && !starts_with_char(entry.name.as_str(), '_')
            && ends_with(entry.name.as_str(), ".json") {
            let suffix: usize = ".json".unicode_len();
            ids.push(without_last(entry.name.as_str(), suffix));
        }
        i = i + 1;
    }
    assert(entries.deep_view().take(entries.len() as int) =~= entries.deep_view());
    ids
}

} // verus!
