//! The artifact collector's plan (one native-compiler run per in-scope
//! triple, then the collected static libraries copied into their per-target
//! slots) and the full pipeline plan: build, collect, synthesize, merge,
//! assemble. The compile phase wholly precedes synthesis and merging, so the
//! fail-fast runner proves that a compiler failure on any target stops the
//! run before any synthesis or merge step is issued.

use vstd::prelude::*;

use crate::cargo::normalized_cargo_args;
use crate::cmd::views;
use crate::error::PodError;
use crate::frameworks::{
    ffi_plan, lemma_ffi_plan_no_compile, lemma_safe_plan_no_compile, lemma_steps_view_concat,
    safe_plan, triple_dir,
};
use crate::matrix::{build_order_spec, BuildTarget, Triple};
use crate::names::{lib_file, lib_file_spec, sys_name, sys_name_spec};
use crate::steps::{
    is_compile_step, is_synth_step, lemma_no_compile_concat, lemma_no_synth_concat, no_compile,
    no_synth, steps_view, Runner, Step, StepV,
};
use crate::strutil::{contains_string, joined, path_join};
use crate::tree::clone_path;

verus! {

/// The compile phase: per triple, the per-target output slot and one
/// native-compiler run.
pub open spec fn static_build_steps(
    package_dir: Seq<char>,
    dist: Seq<char>,
    cargo_args: Seq<Seq<char>>,
    ts: Seq<Triple>,
) -> Seq<StepV>
    decreases ts.len(),
{
    if ts.len() == 0 {
        Seq::empty()
    } else {
        static_build_steps(package_dir, dist, cargo_args, ts.drop_last()) + seq![
            StepV::CreateDir { path: triple_dir(dist, ts.last()) },
            StepV::CargoBuild { dir: package_dir, triple: ts.last().str_spec(), cargo_args },
        ]
    }
}

/// The toolchain's per-target output location of one library's static
/// library.
pub open spec fn release_lib_path(target_dir: Seq<char>, t: Triple, name: Seq<char>) -> Seq<
    char,
> {
    joined(joined(joined(target_dir, t.str_spec()), "release"@), lib_file_spec(sys_name_spec(name)))
}

/// The collection steps for one triple: each library's static library copied
/// into the per-target slot.
pub open spec fn lib_copies_for_triple(
    target_dir: Seq<char>,
    dist: Seq<char>,
    t: Triple,
    names: Seq<Seq<char>>,
) -> Seq<StepV>
    decreases names.len(),
{
    if names.len() == 0 {
        Seq::empty()
    } else {
        lib_copies_for_triple(target_dir, dist, t, names.drop_last()) + seq![
            StepV::CopyFile {
                from: release_lib_path(target_dir, t, names.last()),
                to: joined(triple_dir(dist, t), lib_file_spec(sys_name_spec(names.last()))),
            },
        ]
    }
}

/// The whole collection phase, triple by triple.
pub open spec fn lib_copy_steps(
    target_dir: Seq<char>,
    dist: Seq<char>,
    ts: Seq<Triple>,
    names: Seq<Seq<char>>,
) -> Seq<StepV>
    decreases ts.len(),
{
    if ts.len() == 0 {
        Seq::empty()
    } else {
        lib_copy_steps(target_dir, dist, ts.drop_last(), names) + lib_copies_for_triple(
            target_dir,
            dist,
            ts.last(),
            names,
        )
    }
}

/// The compile-and-collect plan under a selection.
pub open spec fn static_libs_plan(
    package_dir: Seq<char>,
    target_dir: Seq<char>,
    dist: Seq<char>,
    names: Seq<Seq<char>>,
    cargo_args: Seq<Seq<char>>,
    sel: BuildTarget,
) -> Seq<StepV> {
    static_build_steps(package_dir, dist, cargo_args, build_order_spec(sel)) + lib_copy_steps(
        target_dir,
        dist,
        build_order_spec(sel),
        names,
    )
}

/// Plans the compile-and-collect phase: normalizes the caller's build
/// arguments (rejecting an explicit target flag), then one native-compiler
/// run per in-scope triple and one copy per (triple, library) into
/// `<out>/<triple>/lib<library>.a`.
pub fn build_static_libs(
    cargo_args: Vec<String>,
    package_dir: &str,
    target_dir: &str,
    dist_dir: &str,
    lib_names: &Vec<String>,
    sel: &BuildTarget,
) -> (r: Result<Vec<Step>, PodError>)
    ensures
        match r {
            Ok(v) => !contains_string(cargo_args@, "--target"@) && steps_view(v@)
                == static_libs_plan(
                package_dir@,
                target_dir@,
                dist_dir@,
                views(lib_names@),
                normalized_cargo_args(cargo_args@),
                *sel,
            ),
            Err(e) => contains_string(cargo_args@, "--target"@) && e
                == PodError::TargetFlagNotAllowed,
        },
{
    let ghost orig_args = cargo_args@;
    let args = match crate::cargo::prepare_cargo_args(cargo_args) {
        Ok(a) => a,
        Err(e) => {
            return Err(e);
        },
    };
    let ts = crate::matrix::build_order(sel);
    let mut v: Vec<Step> = Vec::new();
    let mut i: usize = 0;
    while i < ts.len()
        invariant
            i <= ts@.len(),
            ts@ == build_order_spec(*sel),
            views(args@) == normalized_cargo_args(orig_args),
            steps_view(v@) == static_build_steps(package_dir@, dist_dir@, views(args@), ts@.subrange(
                0,
                i as int,
            )),
        decreases ts@.len() - i,
    {
        let ghost before = v@;
        let t = ts[i];
        v.push(Step::CreateDir { path: path_join(dist_dir, t.as_str()) });
        v.push(
            Step::CargoBuild {
                dir: String::from_str(package_dir),
                triple: String::from_str(t.as_str()),
                cargo_args: clone_path(&args),
            },
        );
        proof {
            assert(ts@.subrange(0, i + 1 as int).drop_last() =~= ts@.subrange(0, i as int));
            assert(ts@.subrange(0, i + 1 as int).last() == ts@[i as int]);
            assert(steps_view(v@) =~= static_build_steps(
                package_dir@,
                dist_dir@,
                views(args@),
                ts@.subrange(0, i + 1 as int),
            ));
        }
        i += 1;
    }
    proof {
        assert(ts@.subrange(0, ts@.len() as int) =~= ts@);
    }
    let mut i: usize = 0;
    let ghost build_part = steps_view(v@);
    while i < ts.len()
        invariant
            i <= ts@.len(),
            ts@ == build_order_spec(*sel),
            steps_view(v@) == build_part + lib_copy_steps(target_dir@, dist_dir@, ts@.subrange(
                0,
                i as int,
            ), views(lib_names@)),
        decreases ts@.len() - i,
    {
        let t = ts[i];
        let mut j: usize = 0;
        while j < lib_names.len()
            invariant
                i < ts@.len(),
                j <= lib_names@.len(),
                ts@ == build_order_spec(*sel),
                t == ts@[i as int],
                steps_view(v@) == build_part + lib_copy_steps(target_dir@, dist_dir@, ts@.subrange(
                    0,
                    i as int,
                ), views(lib_names@)) + lib_copies_for_triple(
                    target_dir@,
                    dist_dir@,
                    t,
                    views(lib_names@).subrange(0, j as int),
                ),
            decreases lib_names@.len() - j,
        {
            let lf = lib_file(sys_name(lib_names[j].as_str()).as_str());
            let from = path_join(
                path_join(path_join(target_dir, t.as_str()).as_str(), "release").as_str(),
                lf.as_str(),
            );
            let to = path_join(path_join(dist_dir, t.as_str()).as_str(), lf.as_str());
            let ghost fromv = from@;
            let ghost tov = to@;
            let ghost before = v@;
            v.push(Step::CopyFile { from, to });
            proof {
                let nv = views(lib_names@);
                assert(nv[j as int] == lib_names@[j as int]@);
                assert(nv.subrange(0, j + 1 as int).drop_last() =~= nv.subrange(0, j as int));
                assert(nv.subrange(0, j + 1 as int).last() == nv[j as int]);
                let x = StepV::CopyFile {
                    from: release_lib_path(target_dir@, t, nv[j as int]),
                    to: joined(triple_dir(dist_dir@, t), lib_file_spec(sys_name_spec(nv[j as int]))),
                };
                assert(fromv == release_lib_path(target_dir@, t, nv[j as int]));
                assert(tov == joined(
                    triple_dir(dist_dir@, t),
                    lib_file_spec(sys_name_spec(nv[j as int])),
                ));
                assert(lib_copies_for_triple(target_dir@, dist_dir@, t, nv.subrange(0, j + 1 as int))
                    == lib_copies_for_triple(target_dir@, dist_dir@, t, nv.subrange(0, j as int))
                    + seq![x]);
                assert(steps_view(v@) =~= steps_view(before).push(x));
                assert(steps_view(before).push(x) =~= build_part + lib_copy_steps(
                    target_dir@,
                    dist_dir@,
                    ts@.subrange(0, i as int),
                    nv,
                ) + lib_copies_for_triple(target_dir@, dist_dir@, t, nv.subrange(0, j + 1 as int)));
            }
            j += 1;
        }
        proof {
            let nv = views(lib_names@);
            assert(nv.subrange(0, nv.len() as int) =~= nv);
            assert(ts@.subrange(0, i + 1 as int).drop_last() =~= ts@.subrange(0, i as int));
            assert(ts@.subrange(0, i + 1 as int).last() == ts@[i as int]);
        }
        i += 1;
    }
    proof {
        assert(ts@.subrange(0, ts@.len() as int) =~= ts@);
    }
    Ok(v)
}

/// The full pipeline plan: compile and collect, then per-target bundle
/// synthesis, then variant merges, then umbrella assembly.
pub open spec fn full_plan(
    package_dir: Seq<char>,
    target_dir: Seq<char>,
    dist: Seq<char>,
    names: Seq<Seq<char>>,
    cargo_args: Seq<Seq<char>>,
    sel: BuildTarget,
) -> Seq<StepV> {
    static_libs_plan(package_dir, target_dir, dist, names, cargo_args, sel) + ffi_plan(
        joined(package_dir, "headers"@),
        dist,
        names,
        sel,
    ) + safe_plan(dist, names, sel)
}

/// Plans one whole run: the compile-and-collect phase with normalized build
/// arguments, the interface-bundle phase, and the wrapper-bundle phase with
/// merges and umbrella assemblies. Rejects an explicit target flag among the
/// caller's build arguments.
pub fn build(
    cargo_args: Vec<String>,
    package_dir: &str,
    target_dir: &str,
    dist_dir: &str,
    lib_names: &Vec<String>,
    sel: &BuildTarget,
) -> (r: Result<Vec<Step>, PodError>)
    ensures
        match r {
            Ok(v) => !contains_string(cargo_args@, "--target"@) && steps_view(v@) == full_plan(
                package_dir@,
                target_dir@,
                dist_dir@,
                views(lib_names@),
                normalized_cargo_args(cargo_args@),
                *sel,
            ),
            Err(e) => contains_string(cargo_args@, "--target"@) && e
                == PodError::TargetFlagNotAllowed,
        },
{
    let mut v = match build_static_libs(
        cargo_args,
        package_dir,
        target_dir,
        dist_dir,
        lib_names,
        sel,
    ) {
        Ok(v) => v,
        Err(e) => {
            return Err(e);
        },
    };
    let ghost vbefore = v@;
    let mut ffi = crate::frameworks::build_ffi_frameworks(package_dir, dist_dir, lib_names, sel);
    let ghost ffiv = ffi@;
    v.append(&mut ffi);
    proof {
        lemma_steps_view_concat(vbefore, ffiv);
    }
    let ghost after_ffi = v@;
    let mut safe = crate::frameworks::build_safe_frameworks(dist_dir, lib_names, sel);
    let ghost safev = safe@;
    v.append(&mut safe);
    proof {
        lemma_steps_view_concat(after_ffi, safev);
    }
    Ok(v)
}

/// The compile phase holds no synthesis or merge step.
proof fn lemma_static_build_no_synth(
    package_dir: Seq<char>,
    dist: Seq<char>,
    cargo_args: Seq<Seq<char>>,
    ts: Seq<Triple>,
)
    ensures
        no_synth(static_build_steps(package_dir, dist, cargo_args, ts)),
    decreases ts.len(),
{
    if ts.len() > 0 {
        lemma_static_build_no_synth(package_dir, dist, cargo_args, ts.drop_last());
        lemma_no_synth_concat(
            static_build_steps(package_dir, dist, cargo_args, ts.drop_last()),
            seq![
                StepV::CreateDir { path: triple_dir(dist, ts.last()) },
                StepV::CargoBuild { dir: package_dir, triple: ts.last().str_spec(), cargo_args },
            ],
        );
    }
}

/// The collection phase holds no synthesis or merge step.
proof fn lemma_lib_copies_no_synth(
    target_dir: Seq<char>,
    dist: Seq<char>,
    t: Triple,
    names: Seq<Seq<char>>,
)
    ensures
        no_synth(lib_copies_for_triple(target_dir, dist, t, names)),
    decreases names.len(),
{
    if names.len() > 0 {
        lemma_lib_copies_no_synth(target_dir, dist, t, names.drop_last());
        lemma_no_synth_concat(
            lib_copies_for_triple(target_dir, dist, t, names.drop_last()),
            seq![
                StepV::CopyFile {
                    from: release_lib_path(target_dir, t, names.last()),
                    to: joined(triple_dir(dist, t), lib_file_spec(sys_name_spec(names.last()))),
                },
            ],
        );
    }
}

proof fn lemma_lib_copy_steps_no_synth(
    target_dir: Seq<char>,
    dist: Seq<char>,
    ts: Seq<Triple>,
    names: Seq<Seq<char>>,
)
    ensures
        no_synth(lib_copy_steps(target_dir, dist, ts, names)),
    decreases ts.len(),
{
    if ts.len() > 0 {
        lemma_lib_copy_steps_no_synth(target_dir, dist, ts.drop_last(), names);
        lemma_lib_copies_no_synth(target_dir, dist, ts.last(), names);
        lemma_no_synth_concat(
            lib_copy_steps(target_dir, dist, ts.drop_last(), names),
            lib_copies_for_triple(target_dir, dist, ts.last(), names),
        );
    }
}

/// In the full plan, every native-compiler step precedes every synthesis or
/// merge step: the compile-and-collect phase holds no synthesis step, and
/// the synthesis and merge phases hold no compile step.
pub proof fn lemma_plan_phases(
    package_dir: Seq<char>,
    target_dir: Seq<char>,
    dist: Seq<char>,
    names: Seq<Seq<char>>,
    cargo_args: Seq<Seq<char>>,
    sel: BuildTarget,
)
    ensures
        forall|i: int, j: int|
            0 <= i < j < full_plan(package_dir, target_dir, dist, names, cargo_args, sel).len()
                && is_compile_step(
                #[trigger] full_plan(package_dir, target_dir, dist, names, cargo_args, sel)[j],
            ) ==> !is_synth_step(
                #[trigger] full_plan(package_dir, target_dir, dist, names, cargo_args, sel)[i],
            ),
{
    let plan = full_plan(package_dir, target_dir, dist, names, cargo_args, sel);
    let stat = static_libs_plan(package_dir, target_dir, dist, names, cargo_args, sel);
    let rest = ffi_plan(joined(package_dir, "headers"@), dist, names, sel) + safe_plan(
        dist,
        names,
        sel,
    );
    lemma_static_build_no_synth(package_dir, dist, cargo_args, build_order_spec(sel));
    lemma_lib_copy_steps_no_synth(target_dir, dist, build_order_spec(sel), names);
    lemma_no_synth_concat(
        static_build_steps(package_dir, dist, cargo_args, build_order_spec(sel)),
        lib_copy_steps(target_dir, dist, build_order_spec(sel), names),
    );
    lemma_ffi_plan_no_compile(joined(package_dir, "headers"@), dist, names, sel);
    lemma_safe_plan_no_compile(dist, names, sel);
    lemma_no_compile_concat(
        ffi_plan(joined(package_dir, "headers"@), dist, names, sel),
        safe_plan(dist, names, sel),
    );
    assert forall|i: int, j: int|
        0 <= i < j < plan.len() && is_compile_step(#[trigger] plan[j]) implies !is_synth_step(
        #[trigger] plan[i],
    ) by {
        if j < stat.len() {
            assert(plan[i] == stat[i]);
        } else {
            assert(plan[j] == rest[j - stat.len()]);
            assert(!is_compile_step(plan[j]));
        }
    }
}

/// Fail-fast over the full plan: when the runner stands at a native-compiler
/// step — in particular when that step just failed and the run is frozen —
/// no bundle-synthesis or merge step has been issued, for any target.
pub proof fn lemma_fail_fast_no_synth_issued(
    r: Runner,
    package_dir: Seq<char>,
    target_dir: Seq<char>,
    dist: Seq<char>,
    names: Seq<Seq<char>>,
    cargo_args: Seq<Seq<char>>,
    sel: BuildTarget,
)
    requires
        r.wf(),
        steps_view(r.steps@) == full_plan(package_dir, target_dir, dist, names, cargo_args, sel),
        r.pos < r.steps@.len(),
        is_compile_step((r.steps@[r.pos as int])@),
    ensures
        forall|k: int| 0 <= k < r.issued().len() ==> !is_synth_step(#[trigger] r.issued()[k]),
{
    let plan = full_plan(package_dir, target_dir, dist, names, cargo_args, sel);
    lemma_plan_phases(package_dir, target_dir, dist, names, cargo_args, sel);
    assert forall|k: int| 0 <= k < r.issued().len() implies !is_synth_step(
        #[trigger] r.issued()[k],
    ) by {
        assert(r.issued()[k] == plan[k]);
        assert(plan[r.pos as int] == (r.steps@[r.pos as int])@);
        assert(is_compile_step(plan[r.pos as int]));
    }
}

} // verus!
