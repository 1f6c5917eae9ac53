use vstd::prelude::*;

verus! {

/// The "add" action: record a visit of `path` now.
pub struct Add {
    pub path: String,
}

/// The "fetch" action: list identifiers by score.
pub struct Fetch {
    /// List the lowest score first.
    pub asc: bool,
    /// Keep only this many of the best scored identifiers.
    pub limit: Option<usize>,
    /// Print each score beside its identifier.
    pub with_score: bool,
    /// Asks for last-visit order; listings are by score all the same.
    pub sort_by_last_visit: bool,
}

/// The "remove-not-exists" action: drop identifiers whose path is gone.
pub struct RemoveNotExists;

/// Rows in the order they are shown: the store lists them best first, and
/// an ascending listing shows them reversed.
pub fn display_order<T>(rows: Vec<T>, asc: bool) -> (r: Vec<T>)
    ensures
        r@ == (if asc { rows@.reverse() } else { rows@ }),
{
    if !asc {
        return rows;
    }
    let ghost orig = rows@;
    let mut rest = rows;
    let mut r: Vec<T> = Vec::new();
    while rest.len() > 0
        invariant
            rest@ == orig.take(rest@.len() as int),
            rest@.len() + r@.len() == orig.len(),
            forall|i: int| 0 <= i < r@.len() ==> #[trigger] r@[i] == orig[orig.len() - 1 - i],
        decreases rest.len(),
    {
        let ghost before = rest@;
        let x = rest.pop().unwrap();
        proof {
            assert(before == orig.take(before.len() as int));
            assert(x == orig[before.len() - 1]);
            assert(rest@ =~= orig.take(rest@.len() as int));
        }
        r.push(x);
    }
    assert(r@ =~= orig.reverse());
    r
}

/// The identifiers, in order, whose path was found not to exist:
/// `exists[i]` tells whether `paths[i]` exists.
pub open spec fn missing_paths(paths: Seq<String>, exists: Seq<bool>) -> Seq<Seq<char>>
    decreases paths.len(),
{
    if paths.len() == 0 {
        Seq::empty()
    } else {
        let rest = missing_paths(paths.drop_last(), exists);
        if exists[paths.len() - 1] {
            rest
        } else {
            rest.push(paths.last()@)
        }
    }
}

/// Selects for removal each listed identifier whose path no longer exists.
pub fn paths_to_remove(paths: &Vec<String>, exists: &Vec<bool>) -> (r: Vec<String>)
    requires
        paths@.len() == exists@.len(),
    ensures
        r@.map_values(|s: String| s@) == missing_paths(paths@, exists@),
{
    let mut r: Vec<String> = Vec::new();
    let mut i: usize = 0;
    while i < paths.len()
        invariant
            i <= paths@.len(),
            paths@.len() == exists@.len(),
            r@.map_values(|s: String| s@) == missing_paths(paths@.take(i as int), exists@),
        decreases paths.len() - i,
    {
        assert(paths@.take(i as int + 1).drop_last() =~= paths@.take(i as int));
        if !exists[i] {
            let p = paths[i].clone();
            let ghost before = r@;
            r.push(p);
            assert(r@.map_values(|s: String| s@) =~= before.map_values(|s: String| s@).push(p@));
        }
        i = i + 1;
    }
    assert(paths@.take(paths@.len() as int) =~= paths@);
    r
}

} // verus!
