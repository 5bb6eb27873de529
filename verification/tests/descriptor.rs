use cargo_pod::meta::{config, pod_name, Config};
use cargo_pod::names::{ffi_module_name, lib_file, module_name, sys_name};
use cargo_pod::podspec::{escape_apos, Podspec};
use cargo_pod::workspace::{derive_manifest, PackageInfo, TargetInfo};

fn sample_podspec() -> Podspec {
    Podspec::from_package(
        "my-lib",
        Some("A small library".to_string()),
        "1.2.3",
        &vec!["Jo Doe <jo@doe.se>".to_string()],
        Some("MIT".to_string()),
        Some("https://github.com/owner/my-lib.git".to_string()),
    )
}

#[test]
fn name_derivation() {
    assert_eq!(sys_name("my-lib"), "my_lib");
    assert_eq!(lib_file("my_lib"), "libmy_lib.a");
    assert_eq!(module_name("my-lib"), "MyLib");
    assert_eq!(ffi_module_name("my-lib"), "MyLibFfi");
}

#[test]
fn escaping_apostrophes() {
    assert_eq!(escape_apos("it's"), "it\\'s");
    assert_eq!(escape_apos("''"), "\\'\\'");
    assert_eq!(escape_apos("plain"), "plain");
    assert_eq!(escape_apos(""), "");
}

#[test]
fn podspec_from_package_fields() {
    let p = sample_podspec();
    assert_eq!(p.name, "MyLib");
    assert_eq!(p.summary, "A small library");
    assert_eq!(p.version, "1.2.3");
    assert_eq!(p.authors, vec![("Jo Doe".to_string(), "jo@doe.se".to_string())]);
    assert_eq!(p.license, "MIT");
    assert_eq!(p.homepage, "https://github.com/owner/my-lib.git");
    assert_eq!(
        p.source.http,
        "https://github.com/owner/my-lib/releases/download/v#{spec.version}/cargo-pod.tgz"
    );
    assert_eq!(p.source_files, vec!["src/**/*".to_string()]);
    assert_eq!(p.macos.deployment_target, "10.10");
    assert_eq!(p.ios.deployment_target, "8.0");
    assert_eq!(p.vendored_frameworks, vec!["dist/MyLib.xcframework".to_string()]);
    assert!(p.pod_target_xcconfig.is_empty());
}

#[test]
fn podspec_author_fallbacks() {
    let p = Podspec::from_package("x", None, "0.1.0", &vec![], None, None);
    assert_eq!(p.authors, vec![("Unknown".to_string(), "<EMAIL>".to_string())]);
    assert_eq!(p.summary, "UNKNOWN");
    assert_eq!(p.license, "UNKNOWN");
    assert_eq!(p.homepage, "UNKNOWN");
    assert_eq!(p.source.http, "UNKNOWN");
    let p = Podspec::from_package(
        "x",
        None,
        "0.1.0",
        &vec!["No Email".to_string()],
        None,
        Some("https://example.com/elsewhere".to_string()),
    );
    assert_eq!(p.authors, vec![("No Email".to_string(), "".to_string())]);
    assert_eq!(p.source.http, "UNKNOWN");
}

#[test]
fn podspec_link_flags_accumulate() {
    let mut p = sample_podspec();
    p.disable_bitcode();
    p.add_target("my-lib");
    p.add_target("other-lib");
    assert_eq!(
        p.pod_target_xcconfig,
        vec![
            ("ENABLE_BITCODE".to_string(), "NO".to_string()),
            ("OTHER_LDFLAGS".to_string(), "-lmy_lib -lother_lib".to_string()),
        ]
    );
}

#[test]
fn podspec_exact_text() {
    let mut p = sample_podspec();
    p.disable_bitcode();
    p.add_target("my-lib");
    let lines = vec![
        "Pod::Spec.new { |spec|",
        "  spec.name = 'MyLib'",
        "  spec.version = '1.2.3'",
        "  spec.summary = 'A small library'",
        "  spec.authors = {",
        "    'Jo Doe' => 'jo@doe.se',",
        "  }",
        "  spec.license = { :type => 'MIT' }",
        "  spec.homepage = 'https://github.com/owner/my-lib.git'",
        "  spec.macos.deployment_target = '10.10'",
        "  spec.ios.deployment_target = '8.0'",
        "  spec.pod_target_xcconfig = {",
        "    'ENABLE_BITCODE' => 'NO',",
        "    'OTHER_LDFLAGS' => '-lmy_lib',",
        "  }",
        "  spec.macos.vendored_libraries = ['dist/MyLib.xcframework']",
        "  spec.source_files = ['src/**/*']",
        "  spec.source = {",
        "    :http => 'https://github.com/owner/my-lib/releases/download/v#{spec.version}/cargo-pod.tgz',",
        "  }",
        "}",
        "",
    ];
    assert_eq!(p.to_text(), lines.join("\n"));
}

#[test]
fn config_resolution() {
    let c = config(None);
    assert!(c.name.is_none());
    assert!(c.features.is_empty());
    let c = config(Some(Config { name: Some("Named".to_string()), features: vec![] }));
    assert_eq!(c.name, Some("Named".to_string()));
    assert_eq!(pod_name(Some("Override".to_string()), Some("Conf".to_string()), "pkg"), "Override");
    assert_eq!(pod_name(None, Some("Conf".to_string()), "pkg"), "Conf");
    assert_eq!(pod_name(None, None, "my-pkg"), "MyPkg");
}

fn target(name: &str, kinds: &[&str]) -> TargetInfo {
    TargetInfo { name: name.to_string(), kinds: kinds.iter().map(|s| s.to_string()).collect() }
}

#[test]
fn workspace_selection_picks_first_staticlib_package() {
    let packages = vec![
        PackageInfo {
            name: "bin-only".to_string(),
            in_workspace: true,
            targets: vec![target("bin-only", &["bin"])],
        },
        PackageInfo {
            name: "outside".to_string(),
            in_workspace: false,
            targets: vec![target("outside", &["staticlib"])],
        },
        PackageInfo {
            name: "lib".to_string(),
            in_workspace: true,
            targets: vec![
                target("lib", &["staticlib", "cdylib"]),
                target("helper", &["bin"]),
                target("lib2", &["staticlib"]),
            ],
        },
    ];
    let s = derive_manifest(&packages).unwrap();
    assert_eq!(s.package_index, 2);
    assert_eq!(s.target_indices, vec![0, 2]);
}

#[test]
fn workspace_without_staticlib_is_an_error() {
    let packages = vec![PackageInfo {
        name: "bin".to_string(),
        in_workspace: true,
        targets: vec![target("bin", &["bin"])],
    }];
    assert!(derive_manifest(&packages).is_err());
}
