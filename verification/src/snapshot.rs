//! Planning the output snapshot: which parent directories must exist before
//! the command runs, and which glob patterns the filesystem walker expands
//! after it exits so the store can capture exactly the declared outputs.

use vstd::prelude::*;
use vstd::string::StringExecFns;

use crate::request::RelPath;

verus! {

/// A relative path written out: its segments separated by `/`, with no
/// leading separator; the sandbox root is the empty text.
pub open spec fn path_chars(segs: Seq<Seq<char>>) -> Seq<char>
    decreases segs.len(),
{
    if segs.len() == 0 {
        Seq::empty()
    } else if segs.len() == 1 {
        segs[0]
    } else {
        path_chars(segs.drop_last()) + "/"@ + segs.last()
    }
}

/// `p` written out with `/` separators.
pub fn rel_path_string(p: &RelPath) -> (r: String)
    ensures
        r@ == path_chars(p@),
{
    let mut out = String::new();
    let n = p.segments.len();
    let mut i: usize = 0;
    while i < n
        invariant
            n == p.segments@.len(),
            i <= n,
            out@ == path_chars(p@.take(i as int)),
        decreases n - i,
    {
        if i > 0 {
            out.append("/");
        }
        out.append(p.segments[i].as_str());
        proof {
            assert(p@.take(i + 1).drop_last() =~= p@.take(i as int));
            assert(p@.take(i + 1).last() == p@[i as int]);
            if i == 0 {
                assert(p@.take(1)[0] == p@[0]);
            }
        }
        i += 1;
    }
    proof {
        assert(p@.take(n as int) =~= p@);
    }
    out
}

/// One pattern handed to the filesystem walker. `Path` names its path
/// literally; `Recursive` names the path together with all its descendants
/// (rendered with a trailing recursive wildcard). Expansion ignores
/// patterns that match nothing: a missing declared output is not an error
/// at this layer.
#[derive(Debug, Clone)]
pub enum OutputGlob {
    Path(RelPath),
    Recursive(RelPath),
}

/// How the declared outputs are captured: not at all — the canonical empty
/// snapshot — where nothing was declared, or by expanding a pattern list.
#[derive(Debug, Clone)]
pub enum SnapshotPlan {
    Empty,
    Expand(Vec<OutputGlob>),
}

/// The pattern list capturing the declared outputs: for every declared
/// output directory, the directory itself — so that an empty directory is
/// still captured — and all its descendants; and every declared output file
/// literally.
pub open spec fn globs_ok(files: Seq<RelPath>, dirs: Seq<RelPath>, r: Seq<OutputGlob>) -> bool {
    &&& r.len() == 2 * dirs.len() + files.len()
    &&& forall|i: int|
        0 <= i < dirs.len() ==> ((#[trigger] r[2 * i]) matches OutputGlob::Path(p) && p@ == dirs[i]@)
    &&& forall|i: int|
        0 <= i < dirs.len() ==> ((#[trigger] r[2 * i + 1]) matches OutputGlob::Recursive(p) && p@
            == dirs[i]@)
    &&& forall|j: int|
        0 <= j < files.len() ==> ((#[trigger] r[2 * dirs.len() + j]) matches OutputGlob::Path(p)
            && p@ == files[j]@)
}

/// The walker patterns for the declared output directories and files: each
/// directory contributes itself and its recursive descendants, each file
/// itself, in declaration order with directories first.
pub fn output_globs(files: &Vec<RelPath>, dirs: &Vec<RelPath>) -> (r: Vec<OutputGlob>)
    ensures
        globs_ok(files@, dirs@, r@),
{
    let mut r: Vec<OutputGlob> = Vec::new();
    let nd = dirs.len();
    let mut i: usize = 0;
    while i < nd
        invariant
            nd == dirs@.len(),
            i <= nd,
            r@.len() == 2 * i,
            forall|k: int|
                0 <= k < i ==> ((#[trigger] r@[2 * k]) matches OutputGlob::Path(p) && p@
                    == dirs@[k]@),
            forall|k: int|
                0 <= k < i ==> ((#[trigger] r@[2 * k + 1]) matches OutputGlob::Recursive(p) && p@
                    == dirs@[k]@),
        decreases nd - i,
    {
        let d = &dirs[i];
        r.push(OutputGlob::Path(d.clone()));
        r.push(OutputGlob::Recursive(d.clone()));
        i += 1;
    }
    let nf = files.len();
    let mut j: usize = 0;
    while j < nf
        invariant
            nd == dirs@.len(),
            nf == files@.len(),
            j <= nf,
            r@.len() == 2 * nd + j,
            forall|k: int|
                0 <= k < nd ==> ((#[trigger] r@[2 * k]) matches OutputGlob::Path(p) && p@
                    == dirs@[k]@),
            forall|k: int|
                0 <= k < nd ==> ((#[trigger] r@[2 * k + 1]) matches OutputGlob::Recursive(p) && p@
                    == dirs@[k]@),
            forall|k: int|
                0 <= k < j ==> ((#[trigger] r@[2 * nd + k]) matches OutputGlob::Path(p) && p@
                    == files@[k]@),
        decreases nf - j,
    {
        r.push(OutputGlob::Path(files[j].clone()));
        j += 1;
    }
    r
}

/// The text of one walker pattern: the path itself written out, or — for
/// the recursive descendants of a directory — the path with the trailing
/// recursive wildcard.
pub fn glob_pattern(g: &OutputGlob) -> (r: String)
    ensures
        (match g {
            OutputGlob::Path(p) => r@ == path_chars(p@),
            OutputGlob::Recursive(p) => r@ == path_chars(p@) + "/**"@,
        }),
{
    match g {
        OutputGlob::Path(p) => rel_path_string(p),
        OutputGlob::Recursive(p) => {
            let mut s = rel_path_string(p);
            s.append("/**");
            s
        },
    }
}

/// How to capture the outputs of a request declaring these files and
/// directories: where nothing at all was declared, expansion is skipped
/// entirely and the snapshot is the canonical empty one, whatever the
/// command wrote inside the sandbox; otherwise the walker expands the
/// pattern list of `output_globs`.
pub fn snapshot_plan(files: &Vec<RelPath>, dirs: &Vec<RelPath>) -> (r: SnapshotPlan)
    ensures
        (files@.len() == 0 && dirs@.len() == 0) <==> r is Empty,
        r matches SnapshotPlan::Expand(globs) ==> globs_ok(files@, dirs@, globs@),
{
    if files.is_empty() && dirs.is_empty() {
        SnapshotPlan::Empty
    } else {
        SnapshotPlan::Expand(output_globs(files, dirs))
    }
}

/// Whether some element of `v` has the view `p`.
fn contains_path(v: &Vec<RelPath>, p: &RelPath) -> (r: bool)
    ensures
        r <==> exists|i: int| 0 <= i < v@.len() && (#[trigger] v@[i])@ == p@,
{
    let n = v.len();
    let mut i: usize = 0;
    while i < n
        invariant
            n == v@.len(),
            i <= n,
            forall|k: int| 0 <= k < i ==> (#[trigger] v@[k])@ != p@,
        decreases n - i,
    {
        if &v[i] == p {
            return true;
        }
        i += 1;
    }
    false
}

/// Every parent a path in `s` contributes: the directory each path with at
/// least one segment sits in.
pub open spec fn has_parent_in(s: Seq<RelPath>, v: Seq<Seq<char>>) -> bool {
    exists|j: int| 0 <= j < s.len() && (#[trigger] s[j])@.len() >= 1 && v == s[j]@.drop_last()
}

/// Records the parent of `p` in `r`, once: where `p` has a parent not yet
/// listed, it is appended; everything already listed stays in place.
fn record_parent(r: &mut Vec<RelPath>, p: &RelPath)
    ensures
        old(r)@.len() <= final(r)@.len(),
        forall|k: int| 0 <= k < old(r)@.len() ==> final(r)@[k] == old(r)@[k],
        forall|k: int|
            old(r)@.len() <= k < final(r)@.len() ==> (#[trigger] final(r)@[k])@
                == p@.drop_last() && p@.len() >= 1,
        p@.len() >= 1 ==> exists|k: int|
            0 <= k < final(r)@.len() && (#[trigger] final(r)@[k])@ == p@.drop_last(),
        (forall|k: int, l: int| 0 <= k < l < old(r)@.len() ==> old(r)@[k]@ != old(r)@[l]@)
            ==> (forall|k: int, l: int|
            0 <= k < l < final(r)@.len() ==> final(r)@[k]@ != final(r)@[l]@),
{
    if let Some(parent) = p.parent() {
        if !contains_path(r, &parent) {
            r.push(parent);
            proof {
                assert(r@[r@.len() - 1]@ == p@.drop_last());
            }
        } else {
            proof {
                let k = choose|k: int| 0 <= k < r@.len() && (#[trigger] r@[k])@ == parent@;
                assert(r@[k]@ == p@.drop_last());
            }
        }
    }
}

/// The distinct parent directories that must exist inside the sandbox
/// before the command runs: for every declared output file and output
/// directory, the directory it sits in — the sandbox root, where the path
/// has a single segment — each listed once.
pub fn output_parent_dirs(files: &Vec<RelPath>, dirs: &Vec<RelPath>) -> (r: Vec<RelPath>)
    ensures
        forall|i: int|
            0 <= i < r@.len() ==> has_parent_in(files@ + dirs@, (#[trigger] r@[i])@),
        forall|v: Seq<Seq<char>>|
            has_parent_in(files@ + dirs@, v) ==> exists|i: int|
                0 <= i < r@.len() && (#[trigger] r@[i])@ == v,
        forall|i: int, j: int| 0 <= i < j < r@.len() ==> r@[i]@ != r@[j]@,
{
    let ghost all = files@ + dirs@;
    let mut r: Vec<RelPath> = Vec::new();
    let nf = files.len();
    let mut i: usize = 0;
    while i < nf
        invariant
            nf == files@.len(),
            i <= nf,
            all == files@ + dirs@,
            forall|k: int| 0 <= k < r@.len() ==> has_parent_in(all, (#[trigger] r@[k])@),
            forall|j: int|
                0 <= j < i && (#[trigger] files@[j])@.len() >= 1 ==> exists|k: int|
                    0 <= k < r@.len() && (#[trigger] r@[k])@ == files@[j]@.drop_last(),
            forall|k: int, l: int| 0 <= k < l < r@.len() ==> r@[k]@ != r@[l]@,
        decreases nf - i,
    {
        let ghost prev = r@;
        record_parent(&mut r, &files[i]);
        proof {
            assert(all[i as int] == files@[i as int]);
            assert forall|j2: int|
                0 <= j2 < i + 1 && (#[trigger] files@[j2])@.len() >= 1 implies exists|k: int|
                0 <= k < r@.len() && (#[trigger] r@[k])@ == files@[j2]@.drop_last() by {
                if j2 < i {
                    let k = choose|k: int| 0 <= k < prev.len() && (#[trigger] prev[k])@
                        == files@[j2]@.drop_last();
                    assert(r@[k] == prev[k]);
                }
            }
        }
        i += 1;
    }
    let nd = dirs.len();
    let mut j: usize = 0;
    while j < nd
        invariant
            nf == files@.len(),
            nd == dirs@.len(),
            j <= nd,
            all == files@ + dirs@,
            forall|k: int| 0 <= k < r@.len() ==> has_parent_in(all, (#[trigger] r@[k])@),
            forall|l: int|
                0 <= l < nf && (#[trigger] files@[l])@.len() >= 1 ==> exists|k: int|
                    0 <= k < r@.len() && (#[trigger] r@[k])@ == files@[l]@.drop_last(),
            forall|l: int|
                0 <= l < j && (#[trigger] dirs@[l])@.len() >= 1 ==> exists|k: int|
                    0 <= k < r@.len() && (#[trigger] r@[k])@ == dirs@[l]@.drop_last(),
            forall|k: int, l: int| 0 <= k < l < r@.len() ==> r@[k]@ != r@[l]@,
        decreases nd - j,
    {
        let ghost prev = r@;
        record_parent(&mut r, &dirs[j]);
        proof {
            assert(all[nf + j] == dirs@[j as int]);
            assert forall|l: int|
                0 <= l < nf && (#[trigger] files@[l])@.len() >= 1 implies exists|k: int|
                0 <= k < r@.len() && (#[trigger] r@[k])@ == files@[l]@.drop_last() by {
                let k = choose|k: int| 0 <= k < prev.len() && (#[trigger] prev[k])@
                    == files@[l]@.drop_last();
                assert(r@[k] == prev[k]);
            }
            assert forall|l: int|
                0 <= l < j + 1 && (#[trigger] dirs@[l])@.len() >= 1 implies exists|k: int|
                0 <= k < r@.len() && (#[trigger] r@[k])@ == dirs@[l]@.drop_last() by {
                if l < j {
                    let k = choose|k: int| 0 <= k < prev.len() && (#[trigger] prev[k])@
                        == dirs@[l]@.drop_last();
                    assert(r@[k] == prev[k]);
                }
            }
        }
        j += 1;
    }
    proof {
        assert forall|v: Seq<Seq<char>>| has_parent_in(files@ + dirs@, v) implies exists|i: int|
            0 <= i < r@.len() && (#[trigger] r@[i])@ == v by {
            let j = choose|j: int|
                0 <= j < (files@ + dirs@).len() && (#[trigger] (files@ + dirs@)[j])@.len() >= 1
                    && v == (files@ + dirs@)[j]@.drop_last();
            if j < nf {
                assert((files@ + dirs@)[j] == files@[j]);
            } else {
                assert((files@ + dirs@)[j] == dirs@[j - nf]);
            }
        }
    }
    r
}

} // verus!
