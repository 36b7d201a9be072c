//! Decisions of the publish step: whether anything changed, what to stage,
//! and the commit message.

use vstd::prelude::*;

use crate::text::{owned, trim, trimmed, views};

verus! {

/// Whether `git status --porcelain` reported anything.
pub fn has_changes(status: &str) -> (r: bool)
    ensures
        r == (trim(status@).len() > 0),
{
    let t = trimmed(status);
    t.unicode_len() > 0
}

/// The directories that are staged as a whole, deletions included.
pub open spec fn managed_dirs() -> Seq<Seq<char>> {
    seq!["src/data"@, "public/videos"@, "public/images"@]
}

pub fn managed_dir_list() -> (r: Vec<String>)
    ensures
        views(r@) == managed_dirs(),
{
    let mut r: Vec<String> = Vec::new();
    r.push(owned("src/data"));
    r.push(owned("public/videos"));
    r.push(owned("public/images"));
    assert(views(r@) =~= managed_dirs());
    r
}

/// Whether a path starts with one of the managed directories.
pub open spec fn is_covered(file: Seq<char>) -> bool {
    exists|i: int| 0 <= i < managed_dirs().len() && file.len() >= managed_dirs()[i].len()
        && #[trigger] file.take(managed_dirs()[i].len() as int) == managed_dirs()[i]
}

/// The paths that are not under a managed directory, in order.
pub open spec fn uncovered(files: Seq<Seq<char>>) -> Seq<Seq<char>>
    decreases files.len(),
{
    if files.len() == 0 {
        Seq::empty()
    } else if is_covered(files.last()) {
        uncovered(files.drop_last())
    } else {
        uncovered(files.drop_last()).push(files.last())
    }
}

fn starts_with(s: &str, prefix: &str) -> (r: bool)
    ensures
        r == (s@.len() >= prefix@.len() && s@.take(prefix@.len() as int) == prefix@),
{
    let n = prefix.unicode_len();
    if s.unicode_len() < n {
        return false;
    }
    let mut i: usize = 0;
    while i < n
        invariant
            n == prefix@.len() <= s@.len(),
            i <= n,
            forall|k: int| 0 <= k < i ==> s@[k] == prefix@[k],
        decreases n - i,
    {
        if s.get_char(i) != prefix.get_char(i) {
            assert(s@.take(n as int)[i as int] != prefix@[i as int]);
            return false;
        }
        i = i + 1;
    }
    assert(s@.take(n as int) =~= prefix@);
    true
}

fn covered(file: &str) -> (r: bool)
    ensures
        r == is_covered(file@),
{
    let dirs = managed_dir_list();
    let mut i: usize = 0;
    while i < dirs.len()
        invariant
            views(dirs@) == managed_dirs(),
            i <= dirs@.len(),
            forall|k: int| 0 <= k < i ==> !(file@.len() >= managed_dirs()[k].len()
                && #[trigger] file@.take(managed_dirs()[k].len() as int) == managed_dirs()[k]),
        decreases dirs@.len() - i,
    {
        assert(dirs@[i as int]@ == managed_dirs()[i as int]);
        if starts_with(file, dirs[i].as_str()) {
            return true;
        }
        i = i + 1;
    }
    false
}

/// The listed paths that must be staged one by one: those outside the
/// managed directories.
pub fn files_to_stage(files: &Vec<String>) -> (r: Vec<String>)
    ensures
        views(r@) == uncovered(views(files@)),
{
    let mut r: Vec<String> = Vec::new();
    let mut i: usize = 0;
    assert(views(files@).take(0) =~= Seq::<Seq<char>>::empty());
    while i < files.len()
        invariant
            i <= files@.len(),
            views(r@) == uncovered(views(files@).take(i as int)),
        decreases files@.len() - i,
    {
        assert(views(files@).take(i + 1).drop_last() =~= views(files@).take(i as int));
        assert(views(files@).take(i + 1).last() == files@[i as int]@);
        if !covered(files[i].as_str()) {
            r.push(files[i].clone());
            assert(views(r@) =~= uncovered(views(files@).take(i as int)).push(files@[i as int]@));
        }
        i = i + 1;
    }
    assert(views(files@).take(i as int) =~= views(files@));
    r
}

/// The commit message of a run stamped `stamp`.
pub fn commit_message(stamp: &str) -> (r: String)
    ensures
        r@ == "chore: sync product data from bitable ("@ + stamp@ + ")"@,
{
    let mut r = owned("chore: sync product data from bitable (");
    r.append(stamp);
    r.append(")");
    r
}

} // verus!
