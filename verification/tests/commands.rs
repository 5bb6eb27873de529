use cargo_pod::cargo::{build, prepare_cargo_args};
use cargo_pod::cmd::{lipo, Ar, MinVersions, Swiftc, Xcodebuild};
use cargo_pod::error::PodError;

#[test]
fn lipo_arguments() {
    let items = vec!["a/bin".to_string(), "b/bin".to_string()];
    let args = lipo(&items, "out/bin");
    assert_eq!(args, vec!["-create", "-output", "out/bin", "a/bin", "b/bin"]);
}

#[test]
fn xcodebuild_arguments() {
    let paths = vec!["dist/macos-universal/M.framework".to_string()];
    let args = Xcodebuild::create_xcframework_frameworks("M", &paths, "dist");
    assert_eq!(
        args,
        vec![
            "-create-xcframework",
            "-output",
            "dist/M.xcframework",
            "-framework",
            "dist/macos-universal/M.framework",
        ]
    );
}

#[test]
fn archive_insert_arguments() {
    assert_eq!(Ar::insert("fw/M", "M.o"), vec!["q", "fw/M", "M.o"]);
}

#[test]
fn swiftc_invocation_arguments() {
    let files = vec!["bindings/a.swift".to_string()];
    let inv = Swiftc::build(
        "aarch64-apple-darwin",
        &MinVersions::default(),
        "MyLib",
        "/sdk/MacOSX.sdk",
        "dist/aarch64-apple-darwin",
        &files,
    )
    .unwrap();
    assert_eq!(inv.object_name, "MyLib.o");
    assert_eq!(
        inv.emit_object,
        vec![
            "-emit-library",
            "-emit-object",
            "-static",
            "-sdk",
            "/sdk/MacOSX.sdk",
            "-target",
            "arm64-apple-macosx10.10",
            "-module-name",
            "MyLib",
            "-o",
            "MyLib.o",
            "-F",
            "dist/aarch64-apple-darwin",
            "bindings/a.swift",
        ]
    );
    assert_eq!(
        inv.emit_module,
        vec![
            "-emit-module",
            "-static",
            "-sdk",
            "/sdk/MacOSX.sdk",
            "-enable-library-evolution",
            "-emit-parseable-module-interface",
            "-target",
            "arm64-apple-macosx10.10",
            "-module-name",
            "MyLib",
            "-F",
            "dist/aarch64-apple-darwin",
            "bindings/a.swift",
        ]
    );
}

#[test]
fn swiftc_rejects_unsupported_triple() {
    let files: Vec<String> = vec![];
    assert!(Swiftc::build("sparc-sun-solaris", &MinVersions::default(), "M", "/sdk", "d", &files)
        .is_none());
}

#[test]
fn cargo_build_arguments() {
    let args = vec!["--release".to_string()];
    let inv = build("/pkg", "x86_64-apple-ios", &args, false);
    assert_eq!(inv.dir, "/pkg");
    assert_eq!(inv.args, vec!["build", "--release", "--target", "x86_64-apple-ios"]);
    let inv = build("/pkg", "x86_64-apple-ios", &args, true);
    assert_eq!(
        inv.args,
        vec!["+nightly", "build", "-Z", "build-std", "--release", "--target", "x86_64-apple-ios"]
    );
}

#[test]
fn cargo_args_reject_explicit_target() {
    let r = prepare_cargo_args(vec!["--target".to_string(), "x".to_string()]);
    assert_eq!(r, Err(PodError::TargetFlagNotAllowed));
}

#[test]
fn cargo_args_default_to_release_lib() {
    let r = prepare_cargo_args(vec!["--features".to_string(), "extra".to_string()]).unwrap();
    assert_eq!(r, vec!["--features", "extra", "--release", "--lib"]);
    let r = prepare_cargo_args(vec!["--release".to_string(), "--lib".to_string()]).unwrap();
    assert_eq!(r, vec!["--release", "--lib"]);
    let r = prepare_cargo_args(vec!["--lib".to_string()]).unwrap();
    assert_eq!(r, vec!["--lib", "--release"]);
}

#[test]
fn error_messages() {
    assert_eq!(
        PodError::TargetFlagNotAllowed.message(),
        "Do not pass --target to the cargo args, we handle that!"
    );
    assert_eq!(PodError::NoStaticLibTargets.message(), "No lib crates found!");
    assert_eq!(
        PodError::BadRepoUrl { url: "x".to_string() }.message(),
        "Could not parse the repo url x"
    );
}
