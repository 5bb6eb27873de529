use cargo_pod::frameworks::{build_ffi_frameworks, build_safe_frameworks};
use cargo_pod::matrix::BuildTarget;
use cargo_pod::plan::{build, build_static_libs};
use cargo_pod::steps::{Runner, Step};

fn names(ns: &[&str]) -> Vec<String> {
    ns.iter().map(|s| s.to_string()).collect()
}

fn is_compile(s: &Step) -> bool {
    matches!(s, Step::CargoBuild { .. })
}

fn is_synth(s: &Step) -> bool {
    matches!(
        s,
        Step::CopyDir { .. }
            | Step::Rename { .. }
            | Step::WriteFile { .. }
            | Step::RemoveFile { .. }
            | Step::RunSwiftc { .. }
            | Step::RunAr { .. }
            | Step::RunLipo { .. }
            | Step::RunXcodebuild { .. }
    )
}

#[test]
fn static_plan_builds_then_collects() {
    let plan = build_static_libs(
        vec![],
        "/pkg",
        "/pkg/target",
        "dist",
        &names(&["my-lib"]),
        &BuildTarget::MacOS,
    )
    .unwrap();
    // Two triples: one slot + one compile each, then one copy each.
    assert_eq!(plan.len(), 6);
    match &plan[0] {
        Step::CreateDir { path } => assert_eq!(path, "dist/x86_64-apple-darwin"),
        _ => panic!("expected a slot for the first triple"),
    }
    match &plan[1] {
        Step::CargoBuild { dir, triple, cargo_args } => {
            assert_eq!(dir, "/pkg");
            assert_eq!(triple, "x86_64-apple-darwin");
            assert_eq!(cargo_args, &vec!["--release".to_string(), "--lib".to_string()]);
        },
        _ => panic!("expected a compile for the first triple"),
    }
    match &plan[4] {
        Step::CopyFile { from, to } => {
            assert_eq!(from, "/pkg/target/x86_64-apple-darwin/release/libmy_lib.a");
            assert_eq!(to, "dist/x86_64-apple-darwin/libmy_lib.a");
        },
        _ => panic!("expected the first collection copy"),
    }
}

#[test]
fn static_plan_rejects_target_flag() {
    let r = build_static_libs(
        vec!["--target".to_string()],
        "/pkg",
        "/t",
        "dist",
        &names(&["l"]),
        &BuildTarget::Both,
    );
    assert!(r.is_err());
}

#[test]
fn desktop_scenario_one_universal_variant_per_module() {
    // Desktop-only selection with two architectures: exactly one merged
    // variant (the universal one) and one umbrella per module referencing it.
    let plan = build_safe_frameworks("dist", &names(&["my-lib"]), &BuildTarget::MacOS);
    let lipos: Vec<&Step> = plan.iter().filter(|s| matches!(s, Step::RunLipo { .. })).collect();
    assert_eq!(lipos.len(), 1);
    match lipos[0] {
        Step::RunLipo { inputs, output } => {
            assert_eq!(
                inputs,
                &vec![
                    "dist/aarch64-apple-darwin/MyLib.framework/MyLib".to_string(),
                    "dist/x86_64-apple-darwin/MyLib.framework/MyLib".to_string(),
                ]
            );
            assert_eq!(output, "dist/macos-universal/MyLib.framework/MyLib");
        },
        _ => unreachable!(),
    }
    let umbrellas: Vec<&Step> =
        plan.iter().filter(|s| matches!(s, Step::RunXcodebuild { .. })).collect();
    assert_eq!(umbrellas.len(), 2);
    match umbrellas[0] {
        Step::RunXcodebuild { name, paths, output } => {
            assert_eq!(name, "MyLib");
            assert_eq!(paths, &vec!["dist/macos-universal/MyLib.framework".to_string()]);
            assert_eq!(output, "dist");
        },
        _ => unreachable!(),
    }
    match umbrellas[1] {
        Step::RunXcodebuild { name, paths, .. } => {
            assert_eq!(name, "MyLibFfi");
            assert_eq!(paths, &vec!["dist/macos-universal/MyLibFfi.framework".to_string()]);
        },
        _ => unreachable!(),
    }
}

#[test]
fn mobile_scenario_device_and_simulator_variants() {
    // Mobile-only selection: the simulator variant is combined from its two
    // architectures, the device variant is degenerate (no combination), and
    // the umbrella references exactly these two.
    let plan = build_safe_frameworks("dist", &names(&["my-lib"]), &BuildTarget::Ios);
    let lipos: Vec<&Step> = plan.iter().filter(|s| matches!(s, Step::RunLipo { .. })).collect();
    assert_eq!(lipos.len(), 1);
    match lipos[0] {
        Step::RunLipo { inputs, output } => {
            assert_eq!(
                inputs,
                &vec![
                    "dist/aarch64-apple-ios-sim/MyLib.framework/MyLib".to_string(),
                    "dist/x86_64-apple-ios/MyLib.framework/MyLib".to_string(),
                ]
            );
            assert_eq!(output, "dist/ios-simulator/MyLib.framework/MyLib");
        },
        _ => unreachable!(),
    }
    match plan.iter().find(|s| matches!(s, Step::RunXcodebuild { .. })).unwrap() {
        Step::RunXcodebuild { name, paths, .. } => {
            assert_eq!(name, "MyLib");
            assert_eq!(
                paths,
                &vec![
                    "dist/aarch64-apple-ios/MyLib.framework".to_string(),
                    "dist/ios-simulator/MyLib.framework".to_string(),
                ]
            );
        },
        _ => unreachable!(),
    }
}

#[test]
fn wrapper_synthesis_demotes_headers_and_retargets_binary() {
    let plan = build_safe_frameworks("dist", &names(&["my-lib"]), &BuildTarget::MacOS);
    let renames: Vec<(&String, &String)> = plan
        .iter()
        .filter_map(|s| match s {
            Step::Rename { from, to } => Some((from, to)),
            _ => None,
        })
        .collect();
    assert!(renames.iter().any(|(f, t)| f.as_str()
        == "dist/aarch64-apple-darwin/MyLib.framework/Headers"
        && t.as_str() == "dist/aarch64-apple-darwin/MyLib.framework/PrivateHeaders"));
    assert!(renames.iter().any(|(f, t)| f.as_str()
        == "dist/aarch64-apple-darwin/MyLib.framework/MyLibFfi"
        && t.as_str() == "dist/aarch64-apple-darwin/MyLib.framework/MyLib"));
    assert!(renames.iter().any(|(f, t)| f.as_str() == "MyLib.swiftdoc"
        && t.as_str() == "dist/x86_64-apple-darwin/MyLib.framework/Modules/MyLib.swiftmodule/x86_64.swiftdoc"));
    // The transient object and the stray interface file are deleted.
    assert!(plan.iter().any(|s| matches!(s, Step::RemoveFile { path } if path == "MyLib.o")));
    assert!(plan.iter().any(
        |s| matches!(s, Step::RemoveFile { path } if path == "MyLib.private.swiftinterface")
    ));
}

#[test]
fn ffi_synthesis_writes_descriptor_and_copies_headers() {
    let plan = build_ffi_frameworks("/pkg", "dist", &names(&["my-lib"]), &BuildTarget::MacOS);
    assert!(plan.iter().any(|s| matches!(
        s,
        Step::CopyDir { from, to } if from == "/pkg/headers"
            && to == "dist/aarch64-apple-darwin/MyLibFfi.framework/Headers"
    )));
    assert!(plan.iter().any(|s| matches!(
        s,
        Step::CopyFile { from, to } if from == "dist/aarch64-apple-darwin/libmy_lib.a"
            && to == "dist/aarch64-apple-darwin/MyLibFfi.framework/MyLibFfi"
    )));
    assert!(plan.iter().any(|s| matches!(
        s,
        Step::WriteFile { path, contents }
            if path == "dist/aarch64-apple-darwin/MyLibFfi.framework/Modules/module.modulemap"
            && contents
                == "framework module MyLibFfi {\n    header \"my_lib.h\"\n    link \"MyLibFfi\"\n}"
    )));
}

#[test]
fn compiler_failure_aborts_before_any_synthesis() {
    // A simulated compiler failure on the first target: the runner freezes,
    // no synthesis or merge step has been issued for any target, and no
    // further step is ever issued.
    let plan =
        build(vec![], "/pkg", "/t", "dist", &names(&["my-lib"]), &BuildTarget::Both).unwrap();
    let mut runner = Runner::new(plan);
    let mut issued: usize = 0;
    loop {
        let failed_now = match runner.next() {
            Some(step) => {
                issued += 1;
                assert!(!is_synth(step), "synthesis step issued before a compile failure");
                is_compile(step)
            },
            None => panic!("plan ended before any compile step"),
        };
        if failed_now {
            runner.report(false);
            break;
        }
        runner.report(true);
    }
    assert_eq!(issued, 2);
    assert!(runner.next().is_none(), "a failed run issued another step");
}
