//! The script catalog: the ordered list of selectable scripts that a
//! directory listing yields.

use vstd::prelude::*;

use crate::paths::{display_name, file_name_of, is_script_path, path_is_script};

verus! {

/// One selectable script: where it lives and the name it is shown under.
/// Its ordinal position is its index in the catalog.
pub struct ScriptEntry {
    pub path: String,
    pub name: String,
}

/// The mathematical shape of a catalog entry.
#[verifier::ext_equal]
pub struct EntryView {
    pub path: Seq<char>,
    pub name: Seq<char>,
}

impl View for ScriptEntry {
    type V = EntryView;

    open spec fn view(&self) -> EntryView {
        EntryView { path: self.path@, name: self.name@ }
    }
}

/// The views of a sequence of entries.
pub open spec fn entries_view(entries: Seq<ScriptEntry>) -> Seq<EntryView> {
    entries.map_values(|e: ScriptEntry| e@)
}

/// The views of a sequence of path strings.
pub open spec fn path_views(paths: Seq<String>) -> Seq<Seq<char>> {
    paths.map_values(|p: String| p@)
}

/// The paths of a catalog, in order.
pub open spec fn catalog_paths(entries: Seq<EntryView>) -> Seq<Seq<char>> {
    entries.map_values(|e: EntryView| e.path)
}

/// The script paths among a listing, in listing order.
pub open spec fn script_paths(paths: Seq<Seq<char>>) -> Seq<Seq<char>> {
    paths.filter(|p: Seq<char>| is_script_path(p))
}

/// The catalog that a listing yields: its script paths in order, each
/// under its file name.
pub open spec fn built_catalog(paths: Seq<Seq<char>>) -> Seq<EntryView> {
    script_paths(paths).map_values(
        (|p: Seq<char>| EntryView { path: p, name: file_name_of(p) }),
    )
}

/// A well-formed catalog: every entry is a script file and is shown under
/// its file name.
pub open spec fn catalog_wf(entries: Seq<EntryView>) -> bool {
    forall|i: int|
        0 <= i < entries.len() ==> is_script_path(#[trigger] entries[i].path) && entries[i].name
            == file_name_of(entries[i].path)
}

/// The position of the first entry with the given path, if any.
pub open spec fn index_of_path(entries: Seq<EntryView>, path: Seq<char>) -> Option<int>
    decreases entries.len(),
{
    if entries.len() == 0 {
        None
    } else if entries[0].path == path {
        Some(0)
    } else {
        match index_of_path(entries.subrange(1, entries.len() as int), path) {
            Some(i) => Some(i + 1),
            None => None,
        }
    }
}

/// Whether some entry has the given path.
pub open spec fn contains_path(entries: Seq<EntryView>, path: Seq<char>) -> bool {
    index_of_path(entries, path) is Some
}

/// A forward scan that finds no match before `i`, and a match at `i` if
/// `i` is in range, pins down `index_of_path`.
proof fn lemma_index_of_path_scan(entries: Seq<EntryView>, path: Seq<char>, i: int)
    requires
        0 <= i <= entries.len(),
        forall|j: int| 0 <= j < i ==> (#[trigger] entries[j].path) != path,
        i < entries.len() ==> entries[i].path == path,
    ensures
        index_of_path(entries, path) == if i < entries.len() {
            Some(i)
        } else {
            Option::<int>::None
        },
    decreases entries.len(),
{
    if entries.len() == 0 {
    } else if entries[0].path == path {
        assert(i == 0);
    } else {
        let rest = entries.subrange(1, entries.len() as int);
        lemma_index_of_path_scan(rest, path, i - 1);
    }
}

/// Builds the catalog that a directory listing yields: the script files
/// among the listed paths, in listing order, each shown under its file
/// name. Paths that do not name a script file are dropped here.
pub fn build_catalog(paths: &Vec<String>) -> (entries: Vec<ScriptEntry>)
    ensures
        entries_view(entries@) == built_catalog(path_views(paths@)),
        catalog_wf(entries_view(entries@)),
{
    let mut entries: Vec<ScriptEntry> = Vec::new();
    let mut k: usize = 0;
    proof {
        assert(path_views(paths@.subrange(0, 0)) =~= Seq::<Seq<char>>::empty());
        reveal(Seq::filter);
        assert(entries_view(entries@) =~~= built_catalog(path_views(paths@.subrange(0, 0))));
    }
    while k < paths.len()
        invariant
            k <= paths.len(),
            entries_view(entries@) == built_catalog(path_views(paths@.subrange(0, k as int))),
            catalog_wf(entries_view(entries@)),
        decreases paths.len() - k,
    {
        let ghost prefix = path_views(paths@.subrange(0, k as int));
        let ghost next = path_views(paths@.subrange(0, k + 1 as int));
        proof {
            assert(paths@.subrange(0, k + 1 as int).drop_last() =~= paths@.subrange(0, k as int));
            assert(next.drop_last() =~= prefix);
            assert(next.last() == paths@[k as int]@);
            reveal(Seq::filter);
        }
        let p = &paths[k];
        if path_is_script(p.as_str()) {
            let name = display_name(p.as_str());
            let entry = ScriptEntry { path: p.clone(), name };
            let ghost before = entries@;
            entries.push(entry);
            proof {
                assert(script_paths(next) =~= script_paths(prefix).push(paths@[k as int]@));
                assert(entry@ =~= (EntryView {
                    path: paths@[k as int]@,
                    name: file_name_of(paths@[k as int]@),
                }));
                assert(entries_view(entries@) =~~= entries_view(before).push(entry@));
                assert(built_catalog(next) =~~= built_catalog(prefix).push(entry@));
            }
        } else {
            proof {
                assert(script_paths(next) =~= script_paths(prefix));
                assert(built_catalog(next) =~~= built_catalog(prefix));
            }
        }
        k = k + 1;
    }
    proof {
        assert(paths@.subrange(0, paths@.len() as int) =~= paths@);
    }
    entries
}

/// Finds the first catalog entry with the given path.
pub fn find_path(entries: &Vec<ScriptEntry>, path: &String) -> (r: Option<usize>)
    ensures
        r matches Some(i) ==> index_of_path(entries_view(entries@), path@) == Some(i as int),
        r is None ==> index_of_path(entries_view(entries@), path@) is None,
        r matches Some(i) ==> i < entries@.len(),
{
    let mut i: usize = 0;
    while i < entries.len()
        invariant
            i <= entries.len(),
            forall|j: int| 0 <= j < i ==> (#[trigger] entries_view(entries@)[j].path) != path@,
        decreases entries.len() - i,
    {
        if entries[i].path.eq(path) {
            proof {
                lemma_index_of_path_scan(entries_view(entries@), path@, i as int);
            }
            return Some(i);
        }
        i = i + 1;
    }
    proof {
        lemma_index_of_path_scan(entries_view(entries@), path@, entries@.len() as int);
    }
    None
}

/// The first listed script path that the old catalog did not hold: the
/// candidate for a script that was renamed rather than deleted.
pub open spec fn first_added_path(news: Seq<Seq<char>>, old_entries: Seq<EntryView>) -> Option<
    Seq<char>,
>
    decreases news.len(),
{
    if news.len() == 0 {
        None
    } else if is_script_path(news[0]) && !contains_path(old_entries, news[0]) {
        Some(news[0])
    } else {
        first_added_path(news.subrange(1, news.len() as int), old_entries)
    }
}

/// Like `lemma_index_of_path_scan`, for the forward scan over a listing.
proof fn lemma_first_added_scan(news: Seq<Seq<char>>, old_entries: Seq<EntryView>, i: int)
    requires
        0 <= i <= news.len(),
        forall|j: int|
            0 <= j < i ==> !(is_script_path(#[trigger] news[j]) && !contains_path(
                old_entries,
                news[j],
            )),
        i < news.len() ==> is_script_path(news[i]) && !contains_path(old_entries, news[i]),
    ensures
        first_added_path(news, old_entries) == if i < news.len() {
            Some(news[i])
        } else {
            Option::<Seq<char>>::None
        },
    decreases news.len(),
{
    if news.len() == 0 {
    } else if is_script_path(news[0]) && !contains_path(old_entries, news[0]) {
        assert(i == 0);
    } else {
        let rest = news.subrange(1, news.len() as int);
        lemma_first_added_scan(rest, old_entries, i - 1);
    }
}

/// Picks out of a fresh listing the first script path that the catalog
/// does not already hold. After a removal notice, this is the candidate
/// for the active script having been renamed to a new path.
pub fn rename_candidate(entries: &Vec<ScriptEntry>, new_paths: &Vec<String>) -> (r: Option<String>)
    ensures
        match r {
            Some(p) => first_added_path(path_views(new_paths@), entries_view(entries@)) == Some(
                p@,
            ),
            None => first_added_path(path_views(new_paths@), entries_view(entries@)) is None,
        },
{
    let mut i: usize = 0;
    while i < new_paths.len()
        invariant
            i <= new_paths.len(),
            forall|j: int|
                0 <= j < i ==> !(is_script_path(#[trigger] path_views(new_paths@)[j])
                    && !contains_path(entries_view(entries@), path_views(new_paths@)[j])),
        decreases new_paths.len() - i,
    {
        let p = &new_paths[i];
        if path_is_script(p.as_str()) {
            let found = find_path(entries, p);
            if found.is_none() {
                proof {
                    lemma_first_added_scan(
                        path_views(new_paths@),
                        entries_view(entries@),
                        i as int,
                    );
                }
                return Some(p.clone());
            }
        }
        i = i + 1;
    }
    proof {
        lemma_first_added_scan(path_views(new_paths@), entries_view(entries@), new_paths@.len() as int);
    }
    None
}

} // verus!
