//! Paths of script files: which paths count as scripts, their display
//! names, and the location of the scripts folder.

use vstd::prelude::*;

verus! {

/// A path names a script when its file name is a nonempty stem followed by
/// the `.koto` suffix. The character just before the suffix must not be a
/// separator, so a bare `.koto` file (a hidden file with no stem) does not
/// count.
pub open spec fn is_script_path(path: Seq<char>) -> bool {
    &&& path.len() >= 6
    &&& path.subrange(path.len() - 5, path.len() as int) == ".koto"@
    &&& path[path.len() - 6] != '/'
}

/// The file name of a path: everything after the last separator, or the
/// whole path when it holds no separator.
pub open spec fn file_name_of(path: Seq<char>) -> Seq<char>
    decreases path.len(),
{
    if path.len() == 0 || path.last() == '/' {
        Seq::empty()
    } else {
        file_name_of(path.drop_last()).push(path.last())
    }
}

/// When every character from `from` on is not a separator, and `from` sits
/// right after a separator or at the start, the file name is exactly the
/// suffix that starts at `from`.
proof fn lemma_file_name_suffix(path: Seq<char>, from: int)
    requires
        0 <= from <= path.len(),
        forall|j: int| from <= j < path.len() ==> path[j] != '/',
        from > 0 ==> path[from - 1] == '/',
    ensures
        file_name_of(path) == path.subrange(from, path.len() as int),
    decreases path.len() - from,
{
    if from == path.len() {
        if path.len() == 0 {
            assert(file_name_of(path) == Seq::<char>::empty());
        } else {
            assert(path.last() == '/');
        }
        assert(path.subrange(from, path.len() as int) =~= Seq::<char>::empty());
    } else {
        assert(path.last() != '/');
        let shorter = path.drop_last();
        if from == shorter.len() {
            lemma_file_name_suffix(shorter, from);
            assert(file_name_of(shorter) =~= Seq::<char>::empty());
        } else {
            lemma_file_name_suffix(shorter, from);
        }
        assert(file_name_of(path) == file_name_of(shorter).push(path.last()));
        assert(file_name_of(shorter) == shorter.subrange(from, shorter.len() as int));
        assert(shorter.subrange(from, shorter.len() as int).push(path.last()) =~= path.subrange(
            from,
            path.len() as int,
        ));
    }
}

/// Tests whether a path names a script file.
pub fn path_is_script(path: &str) -> (r: bool)
    ensures
        r == is_script_path(path@),
{
    proof {
        reveal_strlit(".koto");
    }
    let n = path.unicode_len();
    if n < 6 {
        return false;
    }
    if path.get_char(n - 6) == '/' {
        return false;
    }
    let r = path.get_char(n - 5) == '.' && path.get_char(n - 4) == 'k' && path.get_char(n - 3)
        == 'o' && path.get_char(n - 2) == 't' && path.get_char(n - 1) == 'o';
    proof {
        let tail = path@.subrange(n - 5, n as int);
        assert(tail.len() == 5);
        if r {
            assert(tail =~= ".koto"@);
        } else {
            assert(tail[0] == path@[n - 5]);
            assert(tail[1] == path@[n - 4]);
            assert(tail[2] == path@[n - 3]);
            assert(tail[3] == path@[n - 2]);
            assert(tail[4] == path@[n - 1]);
        }
    }
    r
}

/// The display name of a script: the part of its path after the last
/// separator.
pub fn display_name(path: &str) -> (name: String)
    ensures
        name@ == file_name_of(path@),
{
    let n = path.unicode_len();
    let mut from: usize = n;
    while from > 0 && path.get_char(from - 1) != '/'
        invariant
            from <= n,
            n == path@.len(),
            forall|j: int| from <= j < n ==> path@[j] != '/',
        decreases from,
    {
        from = from - 1;
    }
    proof {
        lemma_file_name_suffix(path@, from as int);
    }
    let name = path.substring_char(from, n);
    name.to_owned()
}

/// The scripts folder: the `.mep` directory under the user's home
/// directory.
pub fn get_scripts_folder_path(home: &str) -> (path: String)
    ensures
        path@ == home@ + "/.mep"@,
{
    let mut path = home.to_owned();
    path.append("/.mep");
    path
}

} // verus!
