//! Recursive discovery of annotation files in a directory tree.
//!
//! A directory tree is modelled by [`FsEntry`]: a file with a name, a
//! directory with a name and its listing, or an entry that could not
//! be read. [`find_annotation_files`] collects, in listing order, the
//! full path of every reachable file whose name ends in the
//! annotation extension; unreadable entries contribute nothing.

use vstd::prelude::*;

verus! {

broadcast use vstd::seq_lib::group_filter_ensures, Seq::filter_distributes_over_add;

/// One entry of a directory listing: a plain file, a sub-directory
/// with its own listing, or an entry that could not be read.
pub enum FsEntry {
    File { name: String },
    Dir { name: String, entries: Vec<FsEntry> },
    Unreadable,
}

/// The full path of a child named `name` inside the directory at `dir`.
pub open spec fn child_path(dir: Seq<char>, name: Seq<char>) -> Seq<char> {
    dir + seq!['/'] + name
}

/// Every file path under the listing `es` of the directory at `dir`,
/// in listing order. An unreadable entry contributes nothing.
pub open spec fn file_paths(es: Seq<FsEntry>, dir: Seq<char>) -> Seq<Seq<char>>
    decreases es,
{
    if es.len() == 0 {
        Seq::empty()
    } else {
        file_paths(es.drop_last(), dir) + entry_file_paths(es.last(), dir)
    }
}

/// The file paths that one entry of the directory at `dir` holds:
/// a file is its own path, a sub-directory holds the paths under it,
/// an unreadable entry holds none.
pub open spec fn entry_file_paths(e: FsEntry, dir: Seq<char>) -> Seq<Seq<char>>
    decreases e,
{
    match e {
        FsEntry::File { name } => seq![child_path(dir, name@)],
        FsEntry::Dir { name, entries } => file_paths(entries@, child_path(dir, name@)),
        FsEntry::Unreadable => Seq::empty(),
    }
}

/// What `find_annotation_files` returns for the tree `root` standing
/// at `root_path`: every reachable file path with the annotation
/// extension and no other, in listing order; the empty sequence where
/// `root` is not a directory.
pub open spec fn find_spec(root: FsEntry, root_path: Seq<char>) -> Seq<Seq<char>> {
    match root {
        FsEntry::Dir { name: _, entries } => file_paths(entries@, root_path).filter(
            |p: Seq<char>| has_annot_ext(p),
        ),
        _ => Seq::empty(),
    }
}

/// The annotation extension, a dot included: `.annot`.
pub open spec fn annot_suffix() -> Seq<char> {
    seq!['.', 'a', 'n', 'n', 'o', 't']
}

/// Holds when a path's last characters are the annotation extension.
pub open spec fn has_annot_ext(path: Seq<char>) -> bool {
    path.len() >= 6 && path.subrange(path.len() - 6, path.len() as int) == annot_suffix()
}

/// Decides whether a file path carries the annotation extension:
/// a case-sensitive, exact suffix match on `.annot`.
pub fn is_annotation_file(path: &str) -> (r: bool)
    ensures
        r == has_annot_ext(path@),
{
    let n = path.unicode_len();
    if n < 6 {
        return false;
    }
    let c0 = path.get_char(n - 6);
    let c1 = path.get_char(n - 5);
    let c2 = path.get_char(n - 4);
    let c3 = path.get_char(n - 3);
    let c4 = path.get_char(n - 2);
    let c5 = path.get_char(n - 1);
    let r = c0 == '.' && c1 == 'a' && c2 == 'n' && c3 == 'n' && c4 == 'o' && c5 == 't';
    proof {
        let s = path@.subrange(n - 6, n as int);
        assert(s.len() == 6);
        if r {
            assert(s =~= annot_suffix());
        } else {
            assert(s != annot_suffix()) by {
                if s == annot_suffix() {
                    assert(s[0] == '.' && s[1] == 'a' && s[2] == 'n' && s[3] == 'n' && s[4] == 'o'
                        && s[5] == 't');
                }
            }
        }
    }
    r
}

/// A member of a filtered sequence is a member of the sequence it was
/// filtered from.
proof fn lemma_filter_in_source<A>(s: Seq<A>, pred: spec_fn(A) -> bool, p: A)
    requires
        s.filter(pred).contains(p),
    ensures
        s.contains(p),
    decreases s.len(),
{
    reveal(Seq::filter);
    if s.len() > 0 {
        if pred(s.last()) && p == s.last() {
            assert(s[s.len() - 1] == p);
        } else {
            let k = choose|k: int|
                0 <= k < s.filter(pred).len() && s.filter(pred)[k] == p;
            assert(s.drop_last().filter(pred).contains(p)) by {
                if pred(s.last()) {
                    assert(s.filter(pred) == s.drop_last().filter(pred).push(s.last()));
                    assert(s.drop_last().filter(pred)[k] == p);
                } else {
                    assert(s.filter(pred) == s.drop_last().filter(pred));
                }
            }
            lemma_filter_in_source(s.drop_last(), pred, p);
            let j = choose|j: int| 0 <= j < s.drop_last().len() && s.drop_last()[j] == p;
            assert(s[j] == p);
        }
    }
}

/// The finder is exact: a path is returned if and only if it is a
/// reachable file path of the tree and carries the annotation
/// extension; a root that is not a directory yields no path at all.
pub proof fn lemma_find_exact(root: FsEntry, root_path: Seq<char>, p: Seq<char>)
    ensures
        find_spec(root, root_path).contains(p) <==> (root matches FsEntry::Dir {
            name: _,
            entries,
        } && file_paths(entries@, root_path).contains(p) && has_annot_ext(p)),
{
    let pred = |q: Seq<char>| has_annot_ext(q);
    match root {
        FsEntry::Dir { name: _, entries } => {
            let all = file_paths(entries@, root_path);
            if all.filter(pred).contains(p) {
                lemma_filter_in_source(all, pred, p);
                let k = choose|k: int|
                    0 <= k < all.filter(pred).len() && all.filter(pred)[k] == p;
                assert(pred(all.filter(pred)[k]));
            }
            if all.contains(p) && has_annot_ext(p) {
                let j = choose|j: int| 0 <= j < all.len() && all[j] == p;
                assert(pred(all[j]));
                assert(all.filter(pred).contains(all[j]));
            }
        }
        _ => {},
    }
}

/// Builds the full path of a child named `name` inside the directory
/// at `dir`, the components joined by a slash.
fn join_path(dir: &str, name: &str) -> (r: String)
    ensures
        r@ == child_path(dir@, name@),
{
    let mut p = dir.to_owned();
    p.append("/");
    p.append(name);
    proof {
        reveal_strlit("/");
        assert("/"@ =~= seq!['/']);
    }
    p
}

/// Walks the tree `root`, standing at `root_path`, depth first, and
/// collects the full path of every reachable file whose name ends in
/// the annotation extension: exactly the paths of `find_spec`, in
/// listing order. A `root` that is not a directory yields nothing,
/// and unreadable entries are skipped.
pub fn find_annotation_files(root: &FsEntry, root_path: &str) -> (r: Vec<String>)
    ensures
        r.deep_view() == find_spec(*root, root_path@),
    decreases *root,
{
    let mut out: Vec<String> = Vec::new();
    match root {
        FsEntry::Dir { name: _, entries } => {
            let ghost pred = |p: Seq<char>| has_annot_ext(p);
            let mut i: usize = 0;
            while i < entries.len()
                invariant
                    i <= entries.len(),
                    out.deep_view() == file_paths(entries@.take(i as int), root_path@).filter(
                        pred,
                    ),
                    pred == (|p: Seq<char>| has_annot_ext(p)),
                    *root is Dir && root->Dir_entries == *entries,
                decreases entries.len() - i,
            {
                let ghost prefix = entries@.take(i as int);
                proof {
                    assert(entries@.take(i + 1).drop_last() =~= prefix);
                    assert(entries@.take(i + 1).last() == entries@[i as int]);
                }
                let child = &entries[i];
                match child {
                    FsEntry::File { name } => {
                        let p = join_path(root_path, name.as_str());
                        let ghost out0 = out.deep_view();
                        if is_annotation_file(p.as_str()) {
                            out.push(p);
                            proof {
                                assert(out.deep_view() =~= out0 + seq![p@]);
                                assert(entry_file_paths(entries@[i as int], root_path@)
                                    =~= seq![p@]);
                                assert(seq![p@].filter(pred) =~= seq![p@]) by {
                                    reveal_with_fuel(Seq::filter, 2);
                                    assert(seq![p@].drop_last() =~= Seq::<Seq<char>>::empty());
                                }
                            }
                        } else {
                            proof {
                                assert(entry_file_paths(entries@[i as int], root_path@)
                                    =~= seq![p@]);
                                assert(seq![p@].filter(pred) =~= Seq::<Seq<char>>::empty()) by {
                                    reveal_with_fuel(Seq::filter, 2);
                                    assert(seq![p@].drop_last() =~= Seq::<Seq<char>>::empty());
                                }
                                assert(out.deep_view() =~= out0 + seq![p@].filter(pred));
                            }
                        }
                    }
                    FsEntry::Dir { name, entries: _ } => {
                        let p = join_path(root_path, name.as_str());
                        proof {
                            assert(root->Dir_entries == *entries);
                            assert(decreases_to!(*root => root->Dir_entries));
                            assert(decreases_to!(*entries => entries@));
                            assert(decreases_to!(entries@ => entries@[i as int]));
                            assert(decreases_to!(*root => entries@[i as int]));
                        }
                        let ghost out0 = out.deep_view();
                        let mut sub = find_annotation_files(child, p.as_str());
                        let ghost subv = sub.deep_view();
                        out.append(&mut sub);
                        proof {
                            assert(out.deep_view() =~= out0 + subv);
                            assert(entry_file_paths(entries@[i as int], root_path@).filter(pred)
                                == subv);
                        }
                    }
                    FsEntry::Unreadable => {
                        proof {
                            assert(entry_file_paths(entries@[i as int], root_path@).filter(pred)
                                =~= Seq::<Seq<char>>::empty());
                            assert(Seq::<Seq<char>>::empty().filter(pred)
                                =~= Seq::<Seq<char>>::empty()) by {
                                reveal_with_fuel(Seq::filter, 1);
                            }
                        }
                    }
                }
                i += 1;
            }
            proof {
                assert(entries@.take(entries@.len() as int) =~= entries@);
            }
        }
        _ => {},
    }
    out
}

} // verus!
