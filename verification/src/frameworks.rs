//! The bundle-synthesis and merge phases of the pipeline, as step plans: for
//! each library and in-scope target one interface bundle and one wrapper
//! bundle, then per merged variant one platform-level bundle (universal
//! binary plus unioned sidecar directories), and per library one umbrella
//! container per bundle kind.

use vstd::prelude::*;

use crate::bundle::{
    empty_modulemap, empty_modulemap_text, ffi_modulemap, ffi_modulemap_text, private_modulemap,
    private_modulemap_text,
};
use crate::cmd::views;
use crate::matrix::{BuildTarget, Triple, Variant};
use crate::names::{
    ffi_module_name, ffi_module_name_spec, framework_name, framework_name_spec, lib_file,
    lib_file_spec, module_name, module_name_spec, sys_name, sys_name_spec,
};
use crate::steps::{
    is_compile_step, lemma_no_compile_concat, no_compile, steps_view, Step, StepV,
};
use crate::strutil::{concat2, joined, path_join};

verus! {

pub proof fn lemma_steps_view_concat(a: Seq<Step>, b: Seq<Step>)
    ensures
        steps_view(a + b) == steps_view(a) + steps_view(b),
{
    assert(steps_view(a + b) =~= steps_view(a) + steps_view(b));
}

/// The per-target slot of a triple under the output directory.
pub open spec fn triple_dir(dist: Seq<char>, t: Triple) -> Seq<char> {
    joined(dist, t.str_spec())
}

/// The synthesis steps of one interface bundle: skeleton, verbatim public
/// headers, the collected static library as the binary, and the public
/// module descriptor.
pub open spec fn ffi_target_steps(
    headers_src: Seq<char>,
    dist: Seq<char>,
    name: Seq<char>,
    t: Triple,
) -> Seq<StepV> {
    let sys = sys_name_spec(name);
    let modn = ffi_module_name_spec(name);
    let td = triple_dir(dist, t);
    let fw = joined(td, framework_name_spec(modn));
    seq![
        StepV::CreateDir { path: fw },
        StepV::CreateDir { path: joined(fw, "Headers"@) },
        StepV::CreateDir { path: joined(fw, "Modules"@) },
        StepV::CopyDir { from: headers_src, to: joined(fw, "Headers"@) },
        StepV::CopyFile { from: joined(td, lib_file_spec(sys)), to: joined(fw, modn) },
        StepV::WriteFile {
            path: joined(joined(fw, "Modules"@), "module.modulemap"@),
            contents: ffi_modulemap_text(modn, sys),
        },
    ]
}

fn ffi_target_steps_exec(headers_src: &str, dist: &str, name: &str, t: Triple) -> (r: Vec<Step>)
    ensures
        steps_view(r@) == ffi_target_steps(headers_src@, dist@, name@, t),
{
    let sys = sys_name(name);
    let modn = ffi_module_name(name);
    let td = path_join(dist, t.as_str());
    let fwn = framework_name(modn.as_str());
    let fw = path_join(td.as_str(), fwn.as_str());
    let mut v: Vec<Step> = Vec::new();
    v.push(Step::CreateDir { path: fw.clone() });
    v.push(Step::CreateDir { path: path_join(fw.as_str(), "Headers") });
    v.push(Step::CreateDir { path: path_join(fw.as_str(), "Modules") });
    v.push(
        Step::CopyDir { from: String::from_str(headers_src), to: path_join(fw.as_str(), "Headers") },
    );
    v.push(
        Step::CopyFile {
            from: path_join(td.as_str(), lib_file(sys.as_str()).as_str()),
            to: path_join(fw.as_str(), modn.as_str()),
        },
    );
    let modules = path_join(fw.as_str(), "Modules");
    v.push(
        Step::WriteFile {
            path: path_join(modules.as_str(), "module.modulemap"),
            contents: ffi_modulemap(modn.as_str(), sys.as_str()),
        },
    );
    proof {
        assert(steps_view(v@) =~= ffi_target_steps(headers_src@, dist@, name@, t));
    }
    v
}

/// The interface-bundle synthesis steps over a list of triples, in order.
pub open spec fn ffi_targets_steps(
    headers_src: Seq<char>,
    dist: Seq<char>,
    name: Seq<char>,
    ts: Seq<Triple>,
) -> Seq<StepV>
    decreases ts.len(),
{
    if ts.len() == 0 {
        Seq::empty()
    } else {
        ffi_targets_steps(headers_src, dist, name, ts.drop_last()) + ffi_target_steps(
            headers_src,
            dist,
            name,
            ts.last(),
        )
    }
}

/// The merge steps of the simulator variant of one interface bundle: the
/// combined binary, then headers and module descriptors taken from the first
/// contributing target.
pub open spec fn ffi_ios_merge_steps(dist: Seq<char>, name: Seq<char>) -> Seq<StepV> {
    let modn = ffi_module_name_spec(name);
    let fwn = framework_name_spec(modn);
    let out = joined(joined(dist, "ios-simulator"@), fwn);
    let sim = joined(joined(dist, "aarch64-apple-ios-sim"@), fwn);
    let x86 = joined(joined(dist, "x86_64-apple-ios"@), fwn);
    seq![
        StepV::CreateDir { path: out },
        StepV::RunLipo {
            inputs: seq![joined(sim, modn), joined(x86, modn)],
            output: joined(out, modn),
        },
        StepV::CopyDir { from: joined(sim, "Headers"@), to: joined(out, "Headers"@) },
        StepV::CopyDir { from: joined(sim, "Modules"@), to: joined(out, "Modules"@) },
    ]
}

/// The merge steps of the universal desktop variant of one interface bundle.
pub open spec fn ffi_macos_merge_steps(dist: Seq<char>, name: Seq<char>) -> Seq<StepV> {
    let modn = ffi_module_name_spec(name);
    let fwn = framework_name_spec(modn);
    let out = joined(joined(dist, "macos-universal"@), fwn);
    let arm = joined(joined(dist, "aarch64-apple-darwin"@), fwn);
    let x86 = joined(joined(dist, "x86_64-apple-darwin"@), fwn);
    seq![
        StepV::CreateDir { path: out },
        StepV::RunLipo {
            inputs: seq![joined(arm, modn), joined(x86, modn)],
            output: joined(out, modn),
        },
        StepV::CopyDir { from: joined(arm, "Headers"@), to: joined(out, "Headers"@) },
        StepV::CopyDir { from: joined(arm, "Modules"@), to: joined(out, "Modules"@) },
    ]
}

/// Builds the four merge steps shared by both merge shapes: the combined
/// binary from the two contributing bundles, then the two sidecar copies.
fn merge_steps_exec(
    dist: &str,
    variant_dir: &str,
    src1_triple: &str,
    src2_triple: &str,
    headers_dir: &str,
    modn: &str,
    copy_modules_from_both: bool,
) -> (r: Vec<Step>)
    ensures
        steps_view(r@) == merge_steps_spec(
            dist@,
            variant_dir@,
            src1_triple@,
            src2_triple@,
            headers_dir@,
            modn@,
            copy_modules_from_both,
        ),
{
    let fwn = framework_name(modn);
    let out = path_join(path_join(dist, variant_dir).as_str(), fwn.as_str());
    let src1 = path_join(path_join(dist, src1_triple).as_str(), fwn.as_str());
    let src2 = path_join(path_join(dist, src2_triple).as_str(), fwn.as_str());
    let mut inputs: Vec<String> = Vec::new();
    inputs.push(path_join(src1.as_str(), modn));
    inputs.push(path_join(src2.as_str(), modn));
    proof {
        assert(views(inputs@) =~= seq![
            joined(joined(joined(dist@, src1_triple@), framework_name_spec(modn@)), modn@),
            joined(joined(joined(dist@, src2_triple@), framework_name_spec(modn@)), modn@),
        ]);
    }
    let mut v: Vec<Step> = Vec::new();
    v.push(Step::CreateDir { path: out.clone() });
    v.push(Step::RunLipo { inputs, output: path_join(out.as_str(), modn) });
    v.push(
        Step::CopyDir {
            from: path_join(src1.as_str(), headers_dir),
            to: path_join(out.as_str(), headers_dir),
        },
    );
    if copy_modules_from_both {
        v.push(
            Step::CopyDir {
                from: path_join(src2.as_str(), "Modules"),
                to: path_join(out.as_str(), "Modules"),
            },
        );
    }
    v.push(
        Step::CopyDir {
            from: path_join(src1.as_str(), "Modules"),
            to: path_join(out.as_str(), "Modules"),
        },
    );
    proof {
        assert(steps_view(v@) =~= merge_steps_spec(
            dist@,
            variant_dir@,
            src1_triple@,
            src2_triple@,
            headers_dir@,
            modn@,
            copy_modules_from_both,
        ));
    }
    v
}

/// The shared shape of a two-target merge: combined binary at the variant's
/// bundle path, headers from the first source, module descriptors from both
/// sources (second then first) or from the first alone.
pub open spec fn merge_steps_spec(
    dist: Seq<char>,
    variant_dir: Seq<char>,
    src1_triple: Seq<char>,
    src2_triple: Seq<char>,
    headers_dir: Seq<char>,
    modn: Seq<char>,
    copy_modules_from_both: bool,
) -> Seq<StepV> {
    let fwn = framework_name_spec(modn);
    let out = joined(joined(dist, variant_dir), fwn);
    let src1 = joined(joined(dist, src1_triple), fwn);
    let src2 = joined(joined(dist, src2_triple), fwn);
    seq![
        StepV::CreateDir { path: out },
        StepV::RunLipo {
            inputs: seq![joined(src1, modn), joined(src2, modn)],
            output: joined(out, modn),
        },
        StepV::CopyDir { from: joined(src1, headers_dir), to: joined(out, headers_dir) },
    ] + (if copy_modules_from_both {
        seq![StepV::CopyDir { from: joined(src2, "Modules"@), to: joined(out, "Modules"@) }]
    } else {
        Seq::empty()
    }) + seq![StepV::CopyDir { from: joined(src1, "Modules"@), to: joined(out, "Modules"@) }]
}

/// The interface-bundle phase for one library: per-target synthesis, then
/// the in-scope merges.
pub open spec fn ffi_lib_steps(
    headers_src: Seq<char>,
    dist: Seq<char>,
    name: Seq<char>,
    sel: BuildTarget,
) -> Seq<StepV> {
    ffi_targets_steps(headers_src, dist, name, sel.triples_spec()) + (if sel.is_ios_spec() {
        ffi_ios_merge_steps(dist, name)
    } else {
        Seq::empty()
    }) + (if sel.is_macos_spec() {
        ffi_macos_merge_steps(dist, name)
    } else {
        Seq::empty()
    })
}

fn ffi_lib_steps_exec(headers_src: &str, dist: &str, name: &str, sel: &BuildTarget) -> (r: Vec<
    Step,
>)
    ensures
        steps_view(r@) == ffi_lib_steps(headers_src@, dist@, name@, *sel),
{
    let mut v: Vec<Step> = Vec::new();
    let ts = sel.triples();
    let mut i: usize = 0;
    while i < ts.len()
        invariant
            i <= ts@.len(),
            ts@ == sel.triples_spec(),
            steps_view(v@) == ffi_targets_steps(headers_src@, dist@, name@, ts@.subrange(
                0,
                i as int,
            )),
        decreases ts@.len() - i,
    {
        let ghost before = v@;
        let mut part = ffi_target_steps_exec(headers_src, dist, name, ts[i]);
        let ghost partv = part@;
        v.append(&mut part);
        proof {
            lemma_steps_view_concat(before, partv);
            assert(ts@.subrange(0, i + 1 as int).drop_last() =~= ts@.subrange(0, i as int));
            assert(ts@.subrange(0, i + 1 as int).last() == ts@[i as int]);
        }
        i += 1;
    }
    proof {
        assert(ts@.subrange(0, ts@.len() as int) =~= ts@);
    }
    let modn = ffi_module_name(name);
    if sel.is_ios() {
        let ghost before = v@;
        let mut part = merge_steps_exec(
            dist,
            "ios-simulator",
            "aarch64-apple-ios-sim",
            "x86_64-apple-ios",
            "Headers",
            modn.as_str(),
            false,
        );
        let ghost partv = part@;
        v.append(&mut part);
        proof {
            lemma_steps_view_concat(before, partv);
            assert(steps_view(partv) =~= ffi_ios_merge_steps(dist@, name@));
        }
    }
    if sel.is_macos() {
        let ghost before = v@;
        let mut part = merge_steps_exec(
            dist,
            "macos-universal",
            "aarch64-apple-darwin",
            "x86_64-apple-darwin",
            "Headers",
            modn.as_str(),
            false,
        );
        let ghost partv = part@;
        v.append(&mut part);
        proof {
            lemma_steps_view_concat(before, partv);
            assert(steps_view(partv) =~= ffi_macos_merge_steps(dist@, name@));
        }
    }
    proof {
        assert(steps_view(v@) =~= ffi_lib_steps(headers_src@, dist@, name@, *sel));
    }
    v
}

/// The whole interface-bundle phase, one library after another.
pub open spec fn ffi_plan(
    headers_src: Seq<char>,
    dist: Seq<char>,
    names: Seq<Seq<char>>,
    sel: BuildTarget,
) -> Seq<StepV>
    decreases names.len(),
{
    if names.len() == 0 {
        Seq::empty()
    } else {
        ffi_plan(headers_src, dist, names.drop_last(), sel) + ffi_lib_steps(
            headers_src,
            dist,
            names.last(),
            sel,
        )
    }
}

/// Plans the interface-bundle phase: for each library and in-scope target a
/// bundle with the public headers verbatim, the collected static library as
/// binary, and a module descriptor declaring header and link name; then the
/// in-scope merged variants of those bundles.
pub fn build_ffi_frameworks(
    package_dir: &str,
    dist_dir: &str,
    lib_names: &Vec<String>,
    sel: &BuildTarget,
) -> (r: Vec<Step>)
    ensures
        steps_view(r@) == ffi_plan(
            joined(package_dir@, "headers"@),
            dist_dir@,
            views(lib_names@),
            *sel,
        ),
{
    let headers_src = path_join(package_dir, "headers");
    let mut v: Vec<Step> = Vec::new();
    let mut i: usize = 0;
    while i < lib_names.len()
        invariant
            i <= lib_names@.len(),
            headers_src@ == joined(package_dir@, "headers"@),
            steps_view(v@) == ffi_plan(headers_src@, dist_dir@, views(lib_names@).subrange(
                0,
                i as int,
            ), *sel),
        decreases lib_names@.len() - i,
    {
        let ghost before = v@;
        let mut part = ffi_lib_steps_exec(headers_src.as_str(), dist_dir, lib_names[i].as_str(), sel);
        let ghost partv = part@;
        v.append(&mut part);
        proof {
            lemma_steps_view_concat(before, partv);
            let nv = views(lib_names@);
            assert(nv.subrange(0, i + 1 as int).drop_last() =~= nv.subrange(0, i as int));
            assert(nv.subrange(0, i + 1 as int).last() == nv[i as int]);
        }
        i += 1;
    }
    proof {
        assert(views(lib_names@).subrange(0, lib_names@.len() as int) =~= views(lib_names@));
    }
    v
}

/// The synthesis steps of one wrapper bundle for one target: duplicate the
/// interface bundle, demote its headers, retarget its binary, write the
/// fresh descriptors, compile and embed the interface-language object, file
/// the per-architecture module sidecars, and delete the transient outputs.
pub open spec fn safe_target_steps(dist: Seq<char>, name: Seq<char>, t: Triple) -> Seq<StepV> {
    let sys = sys_name_spec(name);
    let ffim = ffi_module_name_spec(name);
    let modn = module_name_spec(name);
    let td = triple_dir(dist, t);
    let ffifw = joined(td, framework_name_spec(ffim));
    let fw = joined(td, framework_name_spec(modn));
    let modules = joined(fw, "Modules"@);
    let smp = joined(modules, modn + ".swiftmodule"@);
    let arch = t.arch_spec();
    seq![
        StepV::CreateDir { path: fw },
        StepV::CopyDir { from: ffifw, to: fw },
        StepV::Rename { from: joined(fw, "Headers"@), to: joined(fw, "PrivateHeaders"@) },
        StepV::Rename { from: joined(fw, ffim), to: joined(fw, modn) },
        StepV::WriteFile {
            path: joined(modules, "module.modulemap"@),
            contents: empty_modulemap_text(modn),
        },
        StepV::WriteFile {
            path: joined(modules, "module.private.modulemap"@),
            contents: private_modulemap_text(modn, sys),
        },
        StepV::RunSwiftc { triple: t.str_spec(), module_name: modn, frameworks_path: td },
        StepV::RunAr { archive: joined(fw, modn), object: modn + ".o"@ },
        StepV::CreateDir { path: smp },
        StepV::Rename { from: modn + ".swiftdoc"@, to: joined(smp, arch + ".swiftdoc"@) },
        StepV::Rename { from: modn + ".swiftmodule"@, to: joined(smp, arch + ".swiftmodule"@) },
        StepV::Rename {
            from: modn + ".swiftsourceinfo"@,
            to: joined(smp, arch + ".swiftsourceinfo"@),
        },
        StepV::Rename { from: modn + ".abi.json"@, to: joined(smp, arch + ".abi.json"@) },
        StepV::Rename { from: modn + ".swiftinterface"@, to: joined(smp, arch + ".swiftinterface"@) },
        StepV::RemoveFile { path: modn + ".o"@ },
        StepV::RemoveFile { path: modn + ".private.swiftinterface"@ },
    ]
}

fn safe_target_steps_exec(dist: &str, name: &str, t: Triple) -> (r: Vec<Step>)
    ensures
        steps_view(r@) == safe_target_steps(dist@, name@, t),
{
    let sys = sys_name(name);
    let ffim = ffi_module_name(name);
    let modn = module_name(name);
    let td = path_join(dist, t.as_str());
    let ffifwn = framework_name(ffim.as_str());
    let fwn = framework_name(modn.as_str());
    let ffifw = path_join(td.as_str(), ffifwn.as_str());
    let fw = path_join(td.as_str(), fwn.as_str());
    let modules = path_join(fw.as_str(), "Modules");
    let smp = path_join(modules.as_str(), concat2(modn.as_str(), ".swiftmodule").as_str());
    let arch = t.arch();
    let mut v: Vec<Step> = Vec::new();
    v.push(Step::CreateDir { path: fw.clone() });
    v.push(Step::CopyDir { from: ffifw, to: fw.clone() });
    v.push(
        Step::Rename {
            from: path_join(fw.as_str(), "Headers"),
            to: path_join(fw.as_str(), "PrivateHeaders"),
        },
    );
    v.push(
        Step::Rename {
            from: path_join(fw.as_str(), ffim.as_str()),
            to: path_join(fw.as_str(), modn.as_str()),
        },
    );
    v.push(
        Step::WriteFile {
            path: path_join(modules.as_str(), "module.modulemap"),
            contents: empty_modulemap(modn.as_str()),
        },
    );
    v.push(
        Step::WriteFile {
            path: path_join(modules.as_str(), "module.private.modulemap"),
            contents: private_modulemap(modn.as_str(), sys.as_str()),
        },
    );
    v.push(
        Step::RunSwiftc {
            triple: String::from_str(t.as_str()),
            module_name: modn.clone(),
            frameworks_path: td.clone(),
        },
    );
    v.push(
        Step::RunAr {
            archive: path_join(fw.as_str(), modn.as_str()),
            object: concat2(modn.as_str(), ".o"),
        },
    );
    v.push(Step::CreateDir { path: smp.clone() });
    v.push(
        Step::Rename {
            from: concat2(modn.as_str(), ".swiftdoc"),
            to: path_join(smp.as_str(), concat2(arch, ".swiftdoc").as_str()),
        },
    );
    v.push(
        Step::Rename {
            from: concat2(modn.as_str(), ".swiftmodule"),
            to: path_join(smp.as_str(), concat2(arch, ".swiftmodule").as_str()),
        },
    );
    v.push(
        Step::Rename {
            from: concat2(modn.as_str(), ".swiftsourceinfo"),
            to: path_join(smp.as_str(), concat2(arch, ".swiftsourceinfo").as_str()),
        },
    );
    v.push(
        Step::Rename {
            from: concat2(modn.as_str(), ".abi.json"),
            to: path_join(smp.as_str(), concat2(arch, ".abi.json").as_str()),
        },
    );
    v.push(
        Step::Rename {
            from: concat2(modn.as_str(), ".swiftinterface"),
            to: path_join(smp.as_str(), concat2(arch, ".swiftinterface").as_str()),
        },
    );
    v.push(Step::RemoveFile { path: concat2(modn.as_str(), ".o") });
    v.push(Step::RemoveFile { path: concat2(modn.as_str(), ".private.swiftinterface") });
    proof {
        assert(steps_view(v@) =~= safe_target_steps(dist@, name@, t));
    }
    v
}

/// The wrapper-bundle synthesis steps over a list of triples, in order.
pub open spec fn safe_targets_steps(dist: Seq<char>, name: Seq<char>, ts: Seq<Triple>) -> Seq<
    StepV,
>
    decreases ts.len(),
{
    if ts.len() == 0 {
        Seq::empty()
    } else {
        safe_targets_steps(dist, name, ts.drop_last()) + safe_target_steps(dist, name, ts.last())
    }
}

/// The simulator merge of one wrapper bundle: combined binary, private
/// headers from the first source, module descriptors unioned from both
/// sources (the first source's files win at shared paths).
pub open spec fn safe_ios_merge_steps(dist: Seq<char>, name: Seq<char>) -> Seq<StepV> {
    merge_steps_spec(
        dist,
        "ios-simulator"@,
        "aarch64-apple-ios-sim"@,
        "x86_64-apple-ios"@,
        "PrivateHeaders"@,
        module_name_spec(name),
        true,
    )
}

/// The universal desktop merge of one wrapper bundle.
pub open spec fn safe_macos_merge_steps(dist: Seq<char>, name: Seq<char>) -> Seq<StepV> {
    merge_steps_spec(
        dist,
        "macos-universal"@,
        "aarch64-apple-darwin"@,
        "x86_64-apple-darwin"@,
        "PrivateHeaders"@,
        module_name_spec(name),
        true,
    )
}

/// The merged-variant bundle paths handed to one umbrella assembly, in
/// variant order.
pub open spec fn umbrella_paths(dist: Seq<char>, module: Seq<char>, vs: Seq<Variant>) -> Seq<
    Seq<char>,
>
    decreases vs.len(),
{
    if vs.len() == 0 {
        Seq::empty()
    } else {
        umbrella_paths(dist, module, vs.drop_last()) + seq![
            joined(joined(dist, vs.last().str_spec()), framework_name_spec(module)),
        ]
    }
}

fn umbrella_paths_exec(dist: &str, module: &str, sel: &BuildTarget) -> (r: Vec<String>)
    ensures
        views(r@) == umbrella_paths(dist@, module@, sel.variants_spec()),
{
    let vs = sel.framework_targets();
    let fwn = framework_name(module);
    let mut r: Vec<String> = Vec::new();
    let mut i: usize = 0;
    while i < vs.len()
        invariant
            i <= vs@.len(),
            vs@ == sel.variants_spec(),
            fwn@ == framework_name_spec(module@),
            views(r@) == umbrella_paths(dist@, module@, vs@.subrange(0, i as int)),
        decreases vs@.len() - i,
    {
        let ghost before = r@;
        r.push(path_join(path_join(dist, vs[i].as_str()).as_str(), fwn.as_str()));
        proof {
            assert(vs@.subrange(0, i + 1 as int).drop_last() =~= vs@.subrange(0, i as int));
            assert(vs@.subrange(0, i + 1 as int).last() == vs@[i as int]);
            assert(views(r@) =~= views(before).push(
                joined(joined(dist@, vs@[i as int].str_spec()), framework_name_spec(module@)),
            ));
        }
        i += 1;
    }
    proof {
        assert(vs@.subrange(0, vs@.len() as int) =~= vs@);
    }
    r
}

/// The two umbrella assemblies for one library: one per bundle kind, each
/// over exactly the in-scope merged variants.
pub open spec fn umbrella_steps(dist: Seq<char>, name: Seq<char>, sel: BuildTarget) -> Seq<StepV> {
    seq![
        StepV::RunXcodebuild {
            name: module_name_spec(name),
            paths: umbrella_paths(dist, module_name_spec(name), sel.variants_spec()),
            output: dist,
        },
        StepV::RunXcodebuild {
            name: ffi_module_name_spec(name),
            paths: umbrella_paths(dist, ffi_module_name_spec(name), sel.variants_spec()),
            output: dist,
        },
    ]
}

/// The wrapper-bundle phase for one library: per-target synthesis, the
/// in-scope merges, then both umbrella assemblies.
pub open spec fn safe_lib_steps(dist: Seq<char>, name: Seq<char>, sel: BuildTarget) -> Seq<StepV> {
    safe_targets_steps(dist, name, sel.triples_spec()) + (if sel.is_ios_spec() {
        safe_ios_merge_steps(dist, name)
    } else {
        Seq::empty()
    }) + (if sel.is_macos_spec() {
        safe_macos_merge_steps(dist, name)
    } else {
        Seq::empty()
    }) + umbrella_steps(dist, name, sel)
}

fn safe_lib_steps_exec(dist: &str, name: &str, sel: &BuildTarget) -> (r: Vec<Step>)
    ensures
        steps_view(r@) == safe_lib_steps(dist@, name@, *sel),
{
    let mut v: Vec<Step> = Vec::new();
    let ts = sel.triples();
    let mut i: usize = 0;
    while i < ts.len()
        invariant
            i <= ts@.len(),
            ts@ == sel.triples_spec(),
            steps_view(v@) == safe_targets_steps(dist@, name@, ts@.subrange(0, i as int)),
        decreases ts@.len() - i,
    {
        let ghost before = v@;
        let mut part = safe_target_steps_exec(dist, name, ts[i]);
        let ghost partv = part@;
        v.append(&mut part);
        proof {
            lemma_steps_view_concat(before, partv);
            assert(ts@.subrange(0, i + 1 as int).drop_last() =~= ts@.subrange(0, i as int));
            assert(ts@.subrange(0, i + 1 as int).last() == ts@[i as int]);
        }
        i += 1;
    }
    proof {
        assert(ts@.subrange(0, ts@.len() as int) =~= ts@);
    }
    let modn = module_name(name);
    if sel.is_ios() {
        let ghost before = v@;
        let mut part = merge_steps_exec(
            dist,
            "ios-simulator",
            "aarch64-apple-ios-sim",
            "x86_64-apple-ios",
            "PrivateHeaders",
            modn.as_str(),
            true,
        );
        let ghost partv = part@;
        v.append(&mut part);
        proof {
            lemma_steps_view_concat(before, partv);
        }
    }
    if sel.is_macos() {
        let ghost before = v@;
        let mut part = merge_steps_exec(
            dist,
            "macos-universal",
            "aarch64-apple-darwin",
            "x86_64-apple-darwin",
            "PrivateHeaders",
            modn.as_str(),
            true,
        );
        let ghost partv = part@;
        v.append(&mut part);
        proof {
            lemma_steps_view_concat(before, partv);
        }
    }
    let ffim = ffi_module_name(name);
    let mod_paths = umbrella_paths_exec(dist, modn.as_str(), sel);
    let ffi_paths = umbrella_paths_exec(dist, ffim.as_str(), sel);
    let ghost before = v@;
    v.push(
        Step::RunXcodebuild {
            name: modn,
            paths: mod_paths,
            output: String::from_str(dist),
        },
    );
    v.push(
        Step::RunXcodebuild {
            name: ffim,
            paths: ffi_paths,
            output: String::from_str(dist),
        },
    );
    proof {
        assert(steps_view(v@) =~= steps_view(before) + umbrella_steps(dist@, name@, *sel));
        assert(steps_view(v@) =~= safe_lib_steps(dist@, name@, *sel));
    }
    v
}

/// The whole wrapper-bundle phase, one library after another.
pub open spec fn safe_plan(dist: Seq<char>, names: Seq<Seq<char>>, sel: BuildTarget) -> Seq<StepV>
    decreases names.len(),
{
    if names.len() == 0 {
        Seq::empty()
    } else {
        safe_plan(dist, names.drop_last(), sel) + safe_lib_steps(dist, names.last(), sel)
    }
}

/// Plans the wrapper-bundle phase: for each library and in-scope target the
/// wrapper bundle derived from the interface bundle, then the in-scope
/// merged variants, then one umbrella container per bundle kind.
pub fn build_safe_frameworks(dist_dir: &str, lib_names: &Vec<String>, sel: &BuildTarget) -> (r: Vec<
    Step,
>)
    ensures
        steps_view(r@) == safe_plan(dist_dir@, views(lib_names@), *sel),
{
    let mut v: Vec<Step> = Vec::new();
    let mut i: usize = 0;
    while i < lib_names.len()
        invariant
            i <= lib_names@.len(),
            steps_view(v@) == safe_plan(dist_dir@, views(lib_names@).subrange(0, i as int), *sel),
        decreases lib_names@.len() - i,
    {
        let ghost before = v@;
        let mut part = safe_lib_steps_exec(dist_dir, lib_names[i].as_str(), sel);
        let ghost partv = part@;
        v.append(&mut part);
        proof {
            lemma_steps_view_concat(before, partv);
            let nv = views(lib_names@);
            assert(nv.subrange(0, i + 1 as int).drop_last() =~= nv.subrange(0, i as int));
            assert(nv.subrange(0, i + 1 as int).last() == nv[i as int]);
        }
        i += 1;
    }
    proof {
        assert(views(lib_names@).subrange(0, lib_names@.len() as int) =~= views(lib_names@));
    }
    v
}

/// No step of the interface-bundle phase runs the native compiler.
pub proof fn lemma_ffi_plan_no_compile(
    headers_src: Seq<char>,
    dist: Seq<char>,
    names: Seq<Seq<char>>,
    sel: BuildTarget,
)
    ensures
        no_compile(ffi_plan(headers_src, dist, names, sel)),
    decreases names.len(),
{
    if names.len() > 0 {
        lemma_ffi_plan_no_compile(headers_src, dist, names.drop_last(), sel);
        lemma_ffi_lib_no_compile(headers_src, dist, names.last(), sel);
        lemma_no_compile_concat(
            ffi_plan(headers_src, dist, names.drop_last(), sel),
            ffi_lib_steps(headers_src, dist, names.last(), sel),
        );
    }
}

proof fn lemma_ffi_lib_no_compile(
    headers_src: Seq<char>,
    dist: Seq<char>,
    name: Seq<char>,
    sel: BuildTarget,
)
    ensures
        no_compile(ffi_lib_steps(headers_src, dist, name, sel)),
{
    lemma_ffi_targets_no_compile(headers_src, dist, name, sel.triples_spec());
    let a = ffi_targets_steps(headers_src, dist, name, sel.triples_spec());
    let b = if sel.is_ios_spec() {
        ffi_ios_merge_steps(dist, name)
    } else {
        Seq::empty()
    };
    let c = if sel.is_macos_spec() {
        ffi_macos_merge_steps(dist, name)
    } else {
        Seq::empty()
    };
    lemma_no_compile_concat(a, b);
    lemma_no_compile_concat(a + b, c);
}

proof fn lemma_ffi_targets_no_compile(
    headers_src: Seq<char>,
    dist: Seq<char>,
    name: Seq<char>,
    ts: Seq<Triple>,
)
    ensures
        no_compile(ffi_targets_steps(headers_src, dist, name, ts)),
    decreases ts.len(),
{
    if ts.len() > 0 {
        lemma_ffi_targets_no_compile(headers_src, dist, name, ts.drop_last());
        lemma_no_compile_concat(
            ffi_targets_steps(headers_src, dist, name, ts.drop_last()),
            ffi_target_steps(headers_src, dist, name, ts.last()),
        );
    }
}

/// No step of the wrapper-bundle phase runs the native compiler.
pub proof fn lemma_safe_plan_no_compile(dist: Seq<char>, names: Seq<Seq<char>>, sel: BuildTarget)
    ensures
        no_compile(safe_plan(dist, names, sel)),
    decreases names.len(),
{
    if names.len() > 0 {
        lemma_safe_plan_no_compile(dist, names.drop_last(), sel);
        lemma_safe_lib_no_compile(dist, names.last(), sel);
        lemma_no_compile_concat(
            safe_plan(dist, names.drop_last(), sel),
            safe_lib_steps(dist, names.last(), sel),
        );
    }
}

proof fn lemma_safe_lib_no_compile(dist: Seq<char>, name: Seq<char>, sel: BuildTarget)
    ensures
        no_compile(safe_lib_steps(dist, name, sel)),
{
    lemma_safe_targets_no_compile(dist, name, sel.triples_spec());
    let a = safe_targets_steps(dist, name, sel.triples_spec());
    let b = if sel.is_ios_spec() {
        safe_ios_merge_steps(dist, name)
    } else {
        Seq::empty()
    };
    let c = if sel.is_macos_spec() {
        safe_macos_merge_steps(dist, name)
    } else {
        Seq::empty()
    };
    let d = umbrella_steps(dist, name, sel);
    lemma_no_compile_concat(a, b);
    lemma_no_compile_concat(a + b, c);
    lemma_no_compile_concat(a + b + c, d);
}

proof fn lemma_safe_targets_no_compile(dist: Seq<char>, name: Seq<char>, ts: Seq<Triple>)
    ensures
        no_compile(safe_targets_steps(dist, name, ts)),
    decreases ts.len(),
{
    if ts.len() > 0 {
        lemma_safe_targets_no_compile(dist, name, ts.drop_last());
        lemma_no_compile_concat(
            safe_targets_steps(dist, name, ts.drop_last()),
            safe_target_steps(dist, name, ts.last()),
        );
    }
}

} // verus!
