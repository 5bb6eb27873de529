//! Selection of the library to package from the workspace's metadata: the
//! first workspace package that declares a static-library build product, and
//! exactly its static-library targets. No such package is a fatal
//! configuration error.

use vstd::prelude::*;

use crate::error::PodError;
use crate::strutil::contains_string;

verus! {

/// One build product declared by a package.
pub struct TargetInfo {
    pub name: String,
    pub kinds: Vec<String>,
}

/// One package of the loaded workspace metadata.
pub struct PackageInfo {
    pub name: String,
    pub in_workspace: bool,
    pub targets: Vec<TargetInfo>,
}

/// Whether a target declares the static-library kind.
pub open spec fn is_staticlib(t: TargetInfo) -> bool {
    contains_string(t.kinds@, "staticlib"@)
}

/// Whether a package is a workspace member with a static-library target.
pub open spec fn eligible(p: PackageInfo) -> bool {
    p.in_workspace && exists|i: int| 0 <= i < p.targets@.len() && is_staticlib(#[trigger] p.targets@[i])
}

/// The indices of a package's static-library targets, in declaration order.
pub open spec fn staticlib_indices(ts: Seq<TargetInfo>) -> Seq<usize>
    decreases ts.len(),
{
    if ts.len() == 0 {
        Seq::empty()
    } else {
        staticlib_indices(ts.drop_last()) + (if is_staticlib(ts.last()) {
            seq![(ts.len() - 1) as usize]
        } else {
            Seq::empty()
        })
    }
}

/// The library selection: which package to build and which of its targets
/// are static libraries.
pub struct SelectedLibs {
    pub package_index: usize,
    pub target_indices: Vec<usize>,
}

fn target_is_staticlib(t: &TargetInfo) -> (r: bool)
    ensures
        r == is_staticlib(*t),
{
    crate::strutil::vec_contains_str(&t.kinds, "staticlib")
}

fn staticlib_targets(p: &PackageInfo) -> (r: Vec<usize>)
    ensures
        r@ == staticlib_indices(p.targets@),
        p.targets@.len() <= usize::MAX,
{
    let mut out: Vec<usize> = Vec::new();
    let mut i: usize = 0;
    while i < p.targets.len()
        invariant
            i <= p.targets@.len(),
            out@ == staticlib_indices(p.targets@.subrange(0, i as int)),
        decreases p.targets@.len() - i,
    {
        proof {
            let ts = p.targets@;
            assert(ts.subrange(0, i + 1 as int).drop_last() =~= ts.subrange(0, i as int));
            assert(ts.subrange(0, i + 1 as int).last() == ts[i as int]);
        }
        if target_is_staticlib(&p.targets[i]) {
            out.push(i);
            proof {
                assert(out@ =~= staticlib_indices(p.targets@.subrange(0, i + 1 as int)));
            }
        } else {
            proof {
                assert(out@ =~= staticlib_indices(p.targets@.subrange(0, i + 1 as int)));
            }
        }
        i += 1;
    }
    proof {
        assert(p.targets@.subrange(0, p.targets@.len() as int) =~= p.targets@);
    }
    out
}

/// Every index listed by `staticlib_indices` names a static-library target.
pub proof fn lemma_staticlib_indices_sound(ts: Seq<TargetInfo>)
    requires
        ts.len() <= usize::MAX,
    ensures
        forall|k: int|
            0 <= k < staticlib_indices(ts).len() ==> (#[trigger] staticlib_indices(ts)[k]) < ts.len()
                && is_staticlib(ts[staticlib_indices(ts)[k] as int]),
    decreases ts.len(),
{
    if ts.len() > 0 {
        let s0 = ts.drop_last();
        lemma_staticlib_indices_sound(s0);
        assert forall|k: int|
            0 <= k < staticlib_indices(ts).len() implies (#[trigger] staticlib_indices(ts)[k])
            < ts.len() && is_staticlib(ts[staticlib_indices(ts)[k] as int]) by {
            if k < staticlib_indices(s0).len() {
                assert(staticlib_indices(ts)[k] == staticlib_indices(s0)[k]);
                assert(s0[staticlib_indices(s0)[k] as int] == ts[staticlib_indices(s0)[k] as int]);
            } else {
                assert(staticlib_indices(ts)[k] == (ts.len() - 1) as usize);
            }
        }
    }
}

/// Picks the library to package: the first workspace package with a
/// static-library target, with exactly those targets' indices; the error
/// when no package qualifies.
pub fn derive_manifest(packages: &Vec<PackageInfo>) -> (r: Result<SelectedLibs, PodError>)
    ensures
        match r {
            Ok(s) => {
                &&& s.package_index < packages@.len()
                &&& eligible(packages@[s.package_index as int])
                &&& forall|j: int| 0 <= j < s.package_index ==> !eligible(#[trigger] packages@[j])
                &&& s.target_indices@ == staticlib_indices(
                    packages@[s.package_index as int].targets@,
                )
            },
            Err(e) => e == PodError::NoStaticLibTargets && forall|j: int|
                0 <= j < packages@.len() ==> !eligible(#[trigger] packages@[j]),
        },
{
    let mut i: usize = 0;
    while i < packages.len()
        invariant
            i <= packages@.len(),
            forall|j: int| 0 <= j < i ==> !eligible(#[trigger] packages@[j]),
        decreases packages@.len() - i,
    {
        if packages[i].in_workspace {
            let idxs = staticlib_targets(&packages[i]);
            if idxs.len() > 0 {
                proof {
                    lemma_staticlib_indices_sound(packages@[i as int].targets@);
                    assert(is_staticlib(
                        packages@[i as int].targets@[staticlib_indices(
                            packages@[i as int].targets@,
                        )[0] as int],
                    ));
                }
                return Ok(SelectedLibs { package_index: i, target_indices: idxs });
            }
            proof {
                lemma_staticlib_indices_complete(packages@[i as int].targets@);
            }
        }
        i += 1;
    }
    Err(PodError::NoStaticLibTargets)
}

/// A package whose static-library index list is empty has no static-library
/// target.
proof fn lemma_staticlib_indices_complete(ts: Seq<TargetInfo>)
    requires
        staticlib_indices(ts).len() == 0,
    ensures
        forall|i: int| 0 <= i < ts.len() ==> !is_staticlib(#[trigger] ts[i]),
    decreases ts.len(),
{
    if ts.len() > 0 {
        let s0 = ts.drop_last();
        assert(staticlib_indices(s0).len() <= staticlib_indices(ts).len());
        lemma_staticlib_indices_complete(s0);
        assert(!is_staticlib(ts.last()));
        assert forall|i: int| 0 <= i < ts.len() implies !is_staticlib(#[trigger] ts[i]) by {
            if i < ts.len() - 1 {
                assert(s0[i] == ts[i]);
            }
        }
    }
}

} // verus!
