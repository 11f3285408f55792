//! Runtime binary locator: builds the ordered list of places where the
//! language runtime may stand — the explicit override first, then each
//! search-path directory, then the fixed common locations — and picks
//! the first candidate that exists on disk. The locator never touches
//! the disk itself: the host probes each candidate and hands the
//! outcomes in.

use vstd::prelude::*;
use crate::paths::spec_join;
use crate::paths::join;
use crate::platform::OsFamily;

verus! {

/// The character sequences of a list of strings.
pub open spec fn views_of(v: Seq<String>) -> Seq<Seq<char>> {
    Seq::new(v.len(), |i: int| v[i]@)
}

/// The runtime binary name joined onto every directory of a list.
pub open spec fn joined_candidates(os: OsFamily, dirs: Seq<Seq<char>>) -> Seq<Seq<char>> {
    Seq::new(dirs.len(), |i: int| spec_join(os, dirs[i], os.spec_runtime_binary_name()))
}

/// The full candidate list, in search order: the explicit override if
/// one was supplied, then the runtime binary name joined onto each
/// search-path directory, then the fixed common locations.
pub open spec fn spec_candidates(
    os: OsFamily,
    override_path: Option<Seq<char>>,
    path_dirs: Seq<Seq<char>>,
) -> Seq<Seq<char>> {
    (match override_path {
        Some(p) => seq![p],
        None => Seq::<Seq<char>>::empty(),
    }) + joined_candidates(os, path_dirs) + os.spec_common_runtime_locations()
}

/// The position of the first candidate that exists, or nothing when
/// none does.
pub open spec fn spec_first_existing(present: Seq<bool>) -> Option<int>
    decreases present.len(),
{
    if present.len() == 0 {
        None
    } else if present[0] {
        Some(0int)
    } else {
        match spec_first_existing(present.drop_first()) {
            Some(i) => Some(i + 1),
            None => None,
        }
    }
}

/// The candidate the locator returns: the first whose probe succeeded.
pub open spec fn spec_locate(candidates: Seq<Seq<char>>, present: Seq<bool>) -> Option<
    Seq<char>,
> {
    match spec_first_existing(present) {
        Some(i) => if 0 <= i < candidates.len() {
            Some(candidates[i])
        } else {
            None
        },
        None => None,
    }
}

/// The first existing position is inside the list and is truly the
/// first: its probe succeeded and every earlier probe failed.
pub proof fn lemma_first_existing_is_first(present: Seq<bool>)
    ensures
        match spec_first_existing(present) {
            Some(i) => 0 <= i < present.len() && present[i] && (forall|j: int|
                0 <= j < i ==> !present[j]),
            None => forall|j: int| 0 <= j < present.len() ==> !present[j],
        },
    decreases present.len(),
{
    if present.len() > 0 && !present[0] {
        let rest = present.drop_first();
        lemma_first_existing_is_first(rest);
        match spec_first_existing(rest) {
            Some(i) => {
                assert(present[i + 1] == rest[i]);
                assert forall|j: int| 0 <= j < i + 1 implies !present[j] by {
                    if j > 0 {
                        assert(present[j] == rest[j - 1]);
                    }
                }
            },
            None => {
                assert forall|j: int| 0 <= j < present.len() implies !present[j] by {
                    if j > 0 {
                        assert(present[j] == rest[j - 1]);
                    }
                }
            },
        }
    }
}

/// When every probe among the first `i` failed, the search result is
/// the result over the remaining candidates, shifted back in place.
proof fn lemma_first_existing_skip(present: Seq<bool>, i: int)
    requires
        0 <= i <= present.len(),
        forall|j: int| 0 <= j < i ==> !present[j],
    ensures
        spec_first_existing(present) == match spec_first_existing(present.skip(i)) {
            Some(k) => Some(k + i),
            None => None::<int>,
        },
    decreases i,
{
    if i == 0 {
        assert(present.skip(0) =~= present);
    } else {
        lemma_first_existing_skip(present.drop_first(), i - 1);
        assert(present.drop_first().skip(i - 1) =~= present.skip(i));
    }
}

/// Builds the ordered candidate list for the runtime search. The host
/// supplies the override variable's value, if set, and the directories
/// of the executable search path, already split.
pub fn runtime_candidates(
    os: OsFamily,
    override_path: Option<String>,
    path_dirs: &Vec<String>,
) -> (r: Vec<String>)
    ensures
        views_of(r@) == spec_candidates(
            os,
            match override_path {
                Some(p) => Some(p@),
                None => None,
            },
            views_of(path_dirs@),
        ),
{
    let ghost ov: Option<Seq<char>> = match &override_path {
        Some(p) => Some(p@),
        None => None,
    };
    let ghost dirs = views_of(path_dirs@);
    let ghost full = spec_candidates(os, ov, dirs);
    let mut out: Vec<String> = Vec::new();
    match override_path {
        Some(p) => out.push(p),
        None => (),
    }
    let ghost head_len: int = match ov {
        Some(_) => 1int,
        None => 0int,
    };
    let name = os.runtime_binary_name();
    let mut i: usize = 0;
    while i < path_dirs.len()
        invariant
            i <= path_dirs.len(),
            name@ == os.spec_runtime_binary_name(),
            dirs == views_of(path_dirs@),
            full == spec_candidates(os, ov, dirs),
            head_len == (match ov {
                Some(_) => 1int,
                None => 0int,
            }),
            out@.len() == head_len + i,
            forall|j: int| 0 <= j < out@.len() ==> #[trigger] out@[j]@ == full[j],
        decreases path_dirs.len() - i,
    {
        let candidate = join(os, path_dirs[i].as_str(), name.as_str());
        proof {
            assert(full[head_len + i] == joined_candidates(os, dirs)[i as int]);
            assert(candidate@ == full[head_len + i]);
        }
        out.push(candidate);
        i = i + 1;
    }
    let tail = os.common_runtime_locations();
    let ghost mid_len: int = out@.len() as int;
    let mut k: usize = 0;
    while k < tail.len()
        invariant
            k <= tail@.len(),
            mid_len == head_len + dirs.len(),
            full == spec_candidates(os, ov, dirs),
            head_len == (match ov {
                Some(_) => 1int,
                None => 0int,
            }),
            full.len() == mid_len + tail@.len(),
            forall|j: int|
                0 <= j < tail@.len() ==> #[trigger] tail@[j]@
                    == os.spec_common_runtime_locations()[j],
            out@.len() == mid_len + k,
            forall|j: int| 0 <= j < out@.len() ==> #[trigger] out@[j]@ == full[j],
        decreases tail@.len() - k,
    {
        let next = tail[k].clone();
        proof {
            assert(full[mid_len + k] == os.spec_common_runtime_locations()[k as int]);
        }
        out.push(next);
        k = k + 1;
    }
    proof {
        assert forall|j: int| 0 <= j < full.len() implies views_of(out@)[j] == full[j] by {
            assert(out@[j]@ == full[j]);
        }
        assert(views_of(out@) =~= full);
    }
    out
}

/// Picks the first candidate whose probe found it on disk. `present[i]`
/// reports whether `candidates[i]` exists; absence of every candidate
/// is reported as `None`, not as an error.
pub fn locate(candidates: &Vec<String>, present: &Vec<bool>) -> (r: Option<String>)
    requires
        candidates@.len() == present@.len(),
    ensures
        match r {
            Some(p) => spec_locate(views_of(candidates@), present@) == Some(p@),
            None => spec_locate(views_of(candidates@), present@) is None,
        },
{
    let n = candidates.len();
    let mut i: usize = 0;
    while i < n
        invariant
            i <= n,
            n == candidates@.len(),
            n == present@.len(),
            forall|j: int| 0 <= j < i ==> !present@[j],
        decreases n - i,
    {
        if present[i] {
            proof {
                lemma_first_existing_skip(present@, i as int);
                assert(present@.skip(i as int)[0] == present@[i as int]);
                assert(spec_first_existing(present@) == Some(i as int));
            }
            return Some(candidates[i].clone());
        }
        i = i + 1;
    }
    proof {
        lemma_first_existing_skip(present@, n as int);
        assert(present@.skip(n as int).len() == 0);
    }
    None
}

/// Law: an explicit override whose probe failed is rejected, and the
/// search falls through to the candidates after it unchanged.
pub proof fn lemma_override_rejected(candidates: Seq<Seq<char>>, present: Seq<bool>)
    requires
        candidates.len() == present.len(),
        present.len() >= 1,
        !present[0],
    ensures
        spec_locate(candidates, present) == spec_locate(
            candidates.drop_first(),
            present.drop_first(),
        ),
{
    lemma_first_existing_is_first(present.drop_first());
}

/// Law: with no override and a search path of two directories where
/// only the second probe succeeds, the binary joined onto the second
/// directory is returned, whatever stands after it in the list.
pub proof fn lemma_second_path_dir_wins(
    os: OsFamily,
    first_dir: Seq<char>,
    second_dir: Seq<char>,
    present: Seq<bool>,
)
    requires
        present.len() == spec_candidates(os, None, seq![first_dir, second_dir]).len(),
        !present[0],
        present[1],
    ensures
        spec_locate(spec_candidates(os, None, seq![first_dir, second_dir]), present) == Some(
            spec_join(os, second_dir, os.spec_runtime_binary_name()),
        ),
{
    let cands = spec_candidates(os, None, seq![first_dir, second_dir]);
    let rest = present.drop_first();
    assert(cands.len() >= 2);
    assert(rest.len() >= 1);
    assert(rest[0] == present[1]);
    assert(spec_first_existing(rest) == Some(0int));
    assert(spec_first_existing(present) == Some(1int));
    assert(cands[1] == spec_join(os, second_dir, os.spec_runtime_binary_name()));
}

} // verus!
