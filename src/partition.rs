use vstd::prelude::*;
use crate::manifest::{Dependence, DependencePath, Dependencies, Git, deps_of};

verus! {

/// The git records of `d`, in the order in which they occur.
pub open spec fn git_deps(d: Seq<Dependence>) -> Seq<Git>
    decreases d.len(),
{
    if d.len() == 0 {
        Seq::empty()
    } else {
        let rest = git_deps(d.drop_last());
        match d.last() {
            Dependence::Git(g) => rest.push(g),
            Dependence::Path(_) => rest,
        }
    }
}

/// The paths of the local entries of `d`, in the order in which they occur.
pub open spec fn local_deps(d: Seq<Dependence>) -> Seq<String>
    decreases d.len(),
{
    if d.len() == 0 {
        Seq::empty()
    } else {
        let rest = local_deps(d.drop_last());
        match d.last() {
            Dependence::Git(_) => rest,
            Dependence::Path(p) => rest.push(p.path),
        }
    }
}

/// Splits a dependency list into its git records and its local paths, each
/// in the order of the source list. An absent list gives two empty lists.
pub fn partition(deps: Option<Dependencies>) -> (r: (Vec<Git>, Vec<String>))
    ensures
        r.0@ == git_deps(deps_of(deps)),
        r.1@ == local_deps(deps_of(deps)),
{
    let mut gits: Vec<Git> = Vec::new();
    let mut locals: Vec<String> = Vec::new();
    match deps {
        None => {},
        Some(list) => {
            let ghost all = list.deps@;
            for dep in it: list.deps.into_iter()
                invariant
                    it.seq() == all,
                    gits@ == git_deps(all.take(it.index() as int)),
                    locals@ == local_deps(all.take(it.index() as int)),
            {
                proof {
                    let pre = all.take(it.index() + 1);
                    assert(pre.drop_last() == all.take(it.index() as int));
                }
                match dep {
                    Dependence::Git(g) => gits.push(g),
                    Dependence::Path(p) => locals.push(p.path),
                }
            }
            proof {
                assert(all.take(all.len() as int) == all);
            }
        },
    }
    (gits, locals)
}

/// Git records as dependency entries.
pub open spec fn git_entries(gs: Seq<Git>) -> Seq<Dependence> {
    gs.map_values(|g: Git| Dependence::Git(g))
}

/// Local paths as dependency entries.
pub open spec fn path_entries(ps: Seq<String>) -> Seq<Dependence> {
    ps.map_values(|p: String| Dependence::Path(DependencePath { path: p }))
}

/// Whether a dependency entry is a git record.
pub open spec fn is_git(e: Dependence) -> bool {
    e is Git
}

/// Whether a dependency entry is a local path.
pub open spec fn is_path(e: Dependence) -> bool {
    e is Path
}

/// The split loses and duplicates nothing: taken back as entries, the git
/// records are exactly the git entries of `d` and the local paths exactly its
/// path entries, each in the order of `d`, and together they hold the same
/// entries as `d`, counted with multiplicity.
pub proof fn partition_is_total(d: Seq<Dependence>)
    ensures
        git_entries(git_deps(d)) == d.filter(|e: Dependence| is_git(e)),
        path_entries(local_deps(d)) == d.filter(|e: Dependence| is_path(e)),
        git_entries(git_deps(d)).to_multiset().add(path_entries(local_deps(d)).to_multiset())
            == d.to_multiset(),
    decreases d.len(),
{
    broadcast use vstd::seq_lib::group_to_multiset_ensures, vstd::multiset::group_multiset_axioms;
    reveal(Seq::filter);
    if d.len() == 0 {
        assert(git_entries(git_deps(d)) =~= d.filter(|e: Dependence| is_git(e)));
        assert(path_entries(local_deps(d)) =~= d.filter(|e: Dependence| is_path(e)));
        assert(git_entries(git_deps(d)).to_multiset().add(path_entries(local_deps(d)).to_multiset())
            =~= d.to_multiset());
    } else {
        let rest = d.drop_last();
        let e = d.last();
        partition_is_total(rest);
        assert(rest.push(e) == d);
        let gr = git_entries(git_deps(rest));
        let pr = path_entries(local_deps(rest));
        match e {
            Dependence::Git(g) => {
                assert(git_entries(git_deps(d)) =~= gr.push(e));
                assert(path_entries(local_deps(d)) =~= pr);
                assert(git_entries(git_deps(d)).to_multiset().add(path_entries(local_deps(d)).to_multiset())
                    =~= d.to_multiset());
            },
            Dependence::Path(p) => {
                assert(git_entries(git_deps(d)) =~= gr);
                assert(path_entries(local_deps(d)) =~= pr.push(e));
                assert(git_entries(git_deps(d)).to_multiset().add(path_entries(local_deps(d)).to_multiset())
                    =~= d.to_multiset());
            },
        }
    }
}

/// An absent or empty dependency list splits into two empty lists.
pub proof fn partition_of_nothing(d: Option<Dependencies>)
    requires
        d is None || d->Some_0.deps@.len() == 0,
    ensures
        git_deps(deps_of(d)) == Seq::<Git>::empty(),
        local_deps(deps_of(d)) == Seq::<String>::empty(),
{
}

/// The two lists together are as long as the source list.
pub proof fn partition_keeps_count(d: Seq<Dependence>)
    ensures
        git_deps(d).len() + local_deps(d).len() == d.len(),
    decreases d.len(),
{
    if d.len() > 0 {
        partition_keeps_count(d.drop_last());
    }
}

} // verus!
