use cargo_pod::cmd::{current_arch, current_sdk, current_triple, MinVersions};
use cargo_pod::matrix::{BuildTarget, Triple, Variant};

#[test]
fn selection_from_flags() {
    assert_eq!(BuildTarget::select(false, false), BuildTarget::Both);
    assert_eq!(BuildTarget::select(true, true), BuildTarget::Both);
    assert_eq!(BuildTarget::select(true, false), BuildTarget::Ios);
    assert_eq!(BuildTarget::select(false, true), BuildTarget::MacOS);
}

#[test]
fn family_predicates() {
    assert!(BuildTarget::Both.is_ios() && BuildTarget::Both.is_macos());
    assert!(BuildTarget::Ios.is_ios() && !BuildTarget::Ios.is_macos());
    assert!(!BuildTarget::MacOS.is_ios() && BuildTarget::MacOS.is_macos());
}

#[test]
fn triples_per_selection() {
    let ios: Vec<&str> = BuildTarget::Ios.triples().iter().map(|t| t.as_str()).collect();
    assert_eq!(ios, vec!["aarch64-apple-ios", "aarch64-apple-ios-sim", "x86_64-apple-ios"]);
    let mac: Vec<&str> = BuildTarget::MacOS.triples().iter().map(|t| t.as_str()).collect();
    assert_eq!(mac, vec!["aarch64-apple-darwin", "x86_64-apple-darwin"]);
    let both: Vec<&str> = BuildTarget::Both.triples().iter().map(|t| t.as_str()).collect();
    assert_eq!(both.len(), 5);
}

#[test]
fn desktop_selection_has_one_universal_variant() {
    let vs = BuildTarget::MacOS.framework_targets();
    assert_eq!(vs.len(), 1);
    assert_eq!(vs[0], Variant::MacosUniversal);
    assert_eq!(vs[0].as_str(), "macos-universal");
    let members = vs[0].members();
    assert_eq!(members, vec![Triple::Aarch64Darwin, Triple::X8664Darwin]);
}

#[test]
fn mobile_selection_has_device_and_simulator_variants() {
    let vs = BuildTarget::Ios.framework_targets();
    assert_eq!(vs.len(), 2);
    assert_eq!(vs[0], Variant::IosDevice);
    assert_eq!(vs[1], Variant::IosSimulator);
    assert_eq!(vs[0].members(), vec![Triple::Aarch64Ios]);
    assert_eq!(vs[1].members(), vec![Triple::Aarch64IosSim, Triple::X8664Ios]);
}

#[test]
fn every_triple_parses_back() {
    for t in BuildTarget::Both.triples() {
        assert_eq!(Triple::parse(t.as_str()), Some(t));
    }
    assert_eq!(Triple::parse("riscv64gc-unknown-linux-gnu"), None);
    assert_eq!(Triple::parse(""), None);
}

#[test]
fn sdk_resolution_total_over_supported() {
    assert_eq!(current_sdk("aarch64-apple-darwin"), Some("macosx"));
    assert_eq!(current_sdk("x86_64-apple-darwin"), Some("macosx"));
    assert_eq!(current_sdk("aarch64-apple-ios"), Some("iphoneos"));
    assert_eq!(current_sdk("aarch64-apple-ios-sim"), Some("iphonesimulator"));
    assert_eq!(current_sdk("x86_64-apple-ios"), Some("iphonesimulator"));
    assert_eq!(current_sdk("wasm32-unknown-unknown"), None);
    assert_eq!(current_sdk("aarch64-apple"), None);
}

#[test]
fn deployment_triple_resolution() {
    let mv = MinVersions::default();
    assert_eq!(mv.ios, "10.0");
    assert_eq!(mv.macos, "10.10");
    assert_eq!(
        current_triple("aarch64-apple-darwin", &mv),
        Some("arm64-apple-macosx10.10".to_string())
    );
    assert_eq!(current_triple("aarch64-apple-ios", &mv), Some("arm64-apple-ios10.0".to_string()));
    assert_eq!(
        current_triple("aarch64-apple-ios-sim", &mv),
        Some("arm64-apple-ios10.0-simulator".to_string())
    );
    assert_eq!(
        current_triple("x86_64-apple-darwin", &mv),
        Some("x86_64-apple-macosx10.10".to_string())
    );
    assert_eq!(
        current_triple("x86_64-apple-ios", &mv),
        Some("x86_64-apple-ios10.0-simulator".to_string())
    );
    assert_eq!(current_triple("armv7-unknown-linux", &mv), None);
}

#[test]
fn deployment_triple_honours_configured_versions() {
    let mv = MinVersions { ios: "13.0".to_string(), macos: "11.0".to_string() };
    assert_eq!(
        current_triple("aarch64-apple-darwin", &mv),
        Some("arm64-apple-macosx11.0".to_string())
    );
    assert_eq!(
        current_triple("x86_64-apple-ios", &mv),
        Some("x86_64-apple-ios13.0-simulator".to_string())
    );
}

#[test]
fn arch_from_triple_prefix() {
    assert_eq!(current_arch("aarch64-apple-ios"), Some("arm64"));
    assert_eq!(current_arch("x86_64-apple-darwin"), Some("x86_64"));
    assert_eq!(current_arch("powerpc-apple-darwin"), None);
    assert_eq!(Triple::Aarch64IosSim.arch(), "arm64");
    assert_eq!(Triple::X8664Ios.arch(), "x86_64");
}
