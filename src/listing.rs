use vstd::prelude::*;
use vstd::string::*;

verus! {

/// One entry of the working directory's listing, as the enumerator saw it.
pub struct DirCandidate {
    /// The entry's display path, relative to the working directory (`./name`).
    pub path: String,
    /// Whether the entry is a directory.
    pub is_dir: bool,
}

impl DirCandidate {
    pub fn new(path: String, is_dir: bool) -> (r: DirCandidate)
        ensures
            r.path@ == path@,
            r.is_dir == is_dir,
    {
        DirCandidate { path, is_dir }
    }
}

/// A display path `./<rest>` whose `<rest>` starts with a dot.
pub open spec fn hidden_path(p: Seq<char>) -> bool {
    p.len() >= 3 && p[0] == '.' && p[1] == '/' && p[2] == '.'
}

/// Whether an entry takes part in the run: a directory that is not hidden.
pub open spec fn kept(c: DirCandidate) -> bool {
    c.is_dir && !hidden_path(c.path@)
}

/// The paths of the entries that take part, in listing order.
pub open spec fn selection(cs: Seq<DirCandidate>) -> Seq<Seq<char>>
    decreases cs.len(),
{
    if cs.len() == 0 {
        Seq::empty()
    } else {
        let rest = selection(cs.drop_last());
        if kept(cs.last()) {
            rest.push(cs.last().path@)
        } else {
            rest
        }
    }
}

pub fn is_hidden(path: &str) -> (r: bool)
    ensures
        r == hidden_path(path@),
{
    let n = path.unicode_len();
    if n < 3 {
        return false;
    }
    path.get_char(0) == '.' && path.get_char(1) == '/' && path.get_char(2) == '.'
}

/// Keeps the directories of a listing that are not hidden, in listing order.
pub fn select_subdirectories(cands: &Vec<DirCandidate>) -> (r: Vec<String>)
    ensures
        r@.map_values(|s: String| s@) == selection(cands@),
{
    let mut r: Vec<String> = Vec::new();
    let mut i: usize = 0;
    while i < cands.len()
        invariant
            i <= cands@.len(),
            r@.map_values(|s: String| s@) == selection(cands@.subrange(0, i as int)),
        decreases cands@.len() - i,
    {
        let c = &cands[i];
        let keep = c.is_dir && !is_hidden(c.path.as_str());
        proof {
            let pre = cands@.subrange(0, i as int + 1);
            assert(pre.drop_last() =~= cands@.subrange(0, i as int));
            assert(pre.last() == cands@[i as int]);
        }
        if keep {
            r.push(c.path.clone());
        }
        i = i + 1;
        assert(r@.map_values(|s: String| s@) =~= selection(cands@.subrange(0, i as int)));
    }
    assert(cands@.subrange(0, cands@.len() as int) =~= cands@);
    r
}

/// Every path that a listing yields for the run is a directory of that
/// listing, and none of them is hidden.
pub proof fn lemma_selection_visible_directories(cs: Seq<DirCandidate>)
    ensures
        forall|k: int|
            0 <= k < selection(cs).len() ==> {
                &&& !hidden_path(#[trigger] selection(cs)[k])
                &&& exists|j: int| 0 <= j < cs.len() && cs[j].is_dir && cs[j].path@ == selection(cs)[k]
            },
    decreases cs.len(),
{
    if cs.len() > 0 {
        let init = cs.drop_last();
        lemma_selection_visible_directories(init);
        assert forall|k: int| 0 <= k < selection(cs).len() implies {
            &&& !hidden_path(#[trigger] selection(cs)[k])
            &&& exists|j: int| 0 <= j < cs.len() && cs[j].is_dir && cs[j].path@ == selection(cs)[k]
        } by {
            if k < selection(init).len() {
                let j = choose|j: int| 0 <= j < init.len() && init[j].is_dir && init[j].path@ == selection(init)[k];
                assert(cs[j] == init[j]);
            } else {
                assert(cs[cs.len() - 1] == cs.last());
            }
        }
    }
}

} // verus!
