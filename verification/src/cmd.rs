//! Resolution of a target triple to the toolchain's SDK name, deployment
//! triple and architecture name, and the exact argument lists of the external
//! tools the pipeline invokes: the universal-binary combiner, the umbrella
//! assembler, the interface-language compiler, and the archive-insert tool.
//! The crate only plans these invocations; a driver runs them.

use vstd::prelude::*;

use crate::matrix::Triple;
use crate::strutil::{concat2, concat3, has_prefix, is_prefix, path_join, str_eq, joined};

verus! {

/// The element-wise character sequences of a sequence of strings.
pub open spec fn views(v: Seq<String>) -> Seq<Seq<char>> {
    v.map_values(|s: String| s@)
}

/// Pushes a copy of each element of `src` onto `dst`.
pub fn extend_strings(dst: &mut Vec<String>, src: &Vec<String>)
    ensures
        final(dst)@ == old(dst)@ + src@,
{
    let mut i: usize = 0;
    while i < src.len()
        invariant
            i <= src@.len(),
            dst@ == old(dst)@ + src@.subrange(0, i as int),
        decreases src@.len() - i,
    {
        dst.push(src[i].clone());
        proof {
            assert(old(dst)@ + src@.subrange(0, i + 1 as int) =~= (old(dst)@ + src@.subrange(
                0,
                i as int,
            )).push(src@[i as int]));
        }
        i += 1;
    }
    proof {
        assert(old(dst)@ + src@.subrange(0, src@.len() as int) =~= old(dst)@ + src@);
    }
}

/// The architecture name embedded in a triple, read from its prefix.
pub open spec fn arch_name(s: Seq<char>) -> Option<Seq<char>> {
    if is_prefix("aarch64-"@, s) {
        Some("arm64"@)
    } else if is_prefix("x86_64-"@, s) {
        Some("x86_64"@)
    } else {
        None
    }
}

/// The architecture directory name for a triple's module sidecar files;
/// `None` exactly when the triple starts with no supported architecture.
pub fn current_arch(triple: &str) -> (r: Option<&'static str>)
    ensures
        match r {
            Some(a) => arch_name(triple@) == Some(a@),
            None => arch_name(triple@) is None,
        },
{
    if has_prefix(triple, "aarch64-") {
        Some("arm64")
    } else if has_prefix(triple, "x86_64-") {
        Some("x86_64")
    } else {
        None
    }
}

/// On every supported triple, the prefix-based architecture resolution
/// agrees with the triple table's architecture name.
pub proof fn lemma_arch_of_supported(t: Triple)
    ensures
        arch_name(t.str_spec()) == Some(t.arch_spec()),
{
    reveal_strlit("aarch64-");
    reveal_strlit("x86_64-");
    let s = t.str_spec();
    match t {
        Triple::Aarch64Darwin => {
            reveal_strlit("aarch64-apple-darwin");
            assert(s.subrange(0, 8) =~= "aarch64-"@);
        },
        Triple::Aarch64Ios => {
            reveal_strlit("aarch64-apple-ios");
            assert(s.subrange(0, 8) =~= "aarch64-"@);
        },
        Triple::Aarch64IosSim => {
            reveal_strlit("aarch64-apple-ios-sim");
            assert(s.subrange(0, 8) =~= "aarch64-"@);
        },
        Triple::X8664Darwin => {
            reveal_strlit("x86_64-apple-darwin");
            assert(!is_prefix("aarch64-"@, s)) by {
                if is_prefix("aarch64-"@, s) {
                    assert(s.subrange(0, 8)[0] == s[0]);
                }
            }
            assert(s.subrange(0, 7) =~= "x86_64-"@);
        },
        Triple::X8664Ios => {
            reveal_strlit("x86_64-apple-ios");
            assert(!is_prefix("aarch64-"@, s)) by {
                if is_prefix("aarch64-"@, s) {
                    assert(s.subrange(0, 8)[0] == s[0]);
                }
            }
            assert(s.subrange(0, 7) =~= "x86_64-"@);
        },
    }
}

/// The SDK name the toolchain needs for a triple; `None` exactly on
/// unsupported triples.
pub open spec fn sdk_name(s: Seq<char>) -> Option<Seq<char>> {
    if s == "aarch64-apple-darwin"@ || s == "x86_64-apple-darwin"@ {
        Some("macosx"@)
    } else if s == "aarch64-apple-ios"@ {
        Some("iphoneos"@)
    } else if s == "aarch64-apple-ios-sim"@ || s == "x86_64-apple-ios"@ {
        Some("iphonesimulator"@)
    } else {
        None
    }
}

/// The SDK name for a supported triple, as handed to the SDK locator.
pub fn current_sdk(triple: &str) -> (r: Option<&'static str>)
    ensures
        match r {
            Some(x) => sdk_name(triple@) == Some(x@),
            None => sdk_name(triple@) is None,
        },
{
    if str_eq(triple, "aarch64-apple-darwin") || str_eq(triple, "x86_64-apple-darwin") {
        Some("macosx")
    } else if str_eq(triple, "aarch64-apple-ios") {
        Some("iphoneos")
    } else if str_eq(triple, "aarch64-apple-ios-sim") || str_eq(triple, "x86_64-apple-ios") {
        Some("iphonesimulator")
    } else {
        None
    }
}

/// The configurable minimum OS version per platform family, embedded in the
/// deployment triple.
#[derive(Clone, Debug)]
pub struct MinVersions {
    pub ios: String,
    pub macos: String,
}

impl Default for MinVersions {
    /// The default minimum OS versions.
    fn default() -> (r: Self)
        ensures
            r.ios@ == "10.0"@,
            r.macos@ == "10.10"@,
    {
        MinVersions { ios: String::from_str("10.0"), macos: String::from_str("10.10") }
    }
}

/// The deployment triple handed to the interface-language compiler: a pure
/// string template per supported triple with the minimum OS version embedded;
/// `None` exactly on unsupported triples.
pub open spec fn swift_triple_name(s: Seq<char>, ios_min: Seq<char>, macos_min: Seq<char>) -> Option<
    Seq<char>,
> {
    if s == "aarch64-apple-darwin"@ {
        Some("arm64-apple-macosx"@ + macos_min)
    } else if s == "aarch64-apple-ios"@ {
        Some("arm64-apple-ios"@ + ios_min)
    } else if s == "aarch64-apple-ios-sim"@ {
        Some("arm64-apple-ios"@ + ios_min + "-simulator"@)
    } else if s == "x86_64-apple-darwin"@ {
        Some("x86_64-apple-macosx"@ + macos_min)
    } else if s == "x86_64-apple-ios"@ {
        Some("x86_64-apple-ios"@ + ios_min + "-simulator"@)
    } else {
        None
    }
}

/// The deployment triple for a supported triple under the given minimum OS
/// versions.
pub fn current_triple(triple: &str, min_versions: &MinVersions) -> (r: Option<String>)
    ensures
        match r {
            Some(x) => swift_triple_name(triple@, min_versions.ios@, min_versions.macos@) == Some(
                x@,
            ),
            None => swift_triple_name(triple@, min_versions.ios@, min_versions.macos@) is None,
        },
{
    if str_eq(triple, "aarch64-apple-darwin") {
        Some(concat2("arm64-apple-macosx", min_versions.macos.as_str()))
    } else if str_eq(triple, "aarch64-apple-ios") {
        Some(concat2("arm64-apple-ios", min_versions.ios.as_str()))
    } else if str_eq(triple, "aarch64-apple-ios-sim") {
        Some(concat3("arm64-apple-ios", min_versions.ios.as_str(), "-simulator"))
    } else if str_eq(triple, "x86_64-apple-darwin") {
        Some(concat2("x86_64-apple-macosx", min_versions.macos.as_str()))
    } else if str_eq(triple, "x86_64-apple-ios") {
        Some(concat3("x86_64-apple-ios", min_versions.ios.as_str(), "-simulator"))
    } else {
        None
    }
}

/// Target resolution is total over the supported triples and fails on all
/// others: the SDK name and the deployment triple exist exactly for the
/// supported spellings. Both are pure functions of the identifier (and the
/// configured minimum versions), so resolution is deterministic.
pub proof fn lemma_resolution_total(s: Seq<char>, ios_min: Seq<char>, macos_min: Seq<char>)
    ensures
        Triple::supported(s) <==> sdk_name(s) is Some,
        Triple::supported(s) <==> swift_triple_name(s, ios_min, macos_min) is Some,
{
    if Triple::supported(s) {
        let t = choose|t: Triple| t.str_spec() == s;
        match t {
            Triple::Aarch64Darwin => {},
            Triple::X8664Darwin => {},
            Triple::Aarch64Ios => {},
            Triple::Aarch64IosSim => {},
            Triple::X8664Ios => {},
        }
    }
    if sdk_name(s) is Some {
        if s == "aarch64-apple-darwin"@ {
            assert(Triple::Aarch64Darwin.str_spec() == s);
        } else if s == "x86_64-apple-darwin"@ {
            assert(Triple::X8664Darwin.str_spec() == s);
        } else if s == "aarch64-apple-ios"@ {
            assert(Triple::Aarch64Ios.str_spec() == s);
        } else if s == "aarch64-apple-ios-sim"@ {
            assert(Triple::Aarch64IosSim.str_spec() == s);
        } else {
            assert(Triple::X8664Ios.str_spec() == s);
        }
    }
    if swift_triple_name(s, ios_min, macos_min) is Some {
        if s == "aarch64-apple-darwin"@ {
            assert(Triple::Aarch64Darwin.str_spec() == s);
        } else if s == "aarch64-apple-ios"@ {
            assert(Triple::Aarch64Ios.str_spec() == s);
        } else if s == "aarch64-apple-ios-sim"@ {
            assert(Triple::Aarch64IosSim.str_spec() == s);
        } else if s == "x86_64-apple-darwin"@ {
            assert(Triple::X8664Darwin.str_spec() == s);
        } else {
            assert(Triple::X8664Ios.str_spec() == s);
        }
    }
}

/// The arguments of one universal-binary combiner invocation: the per-target
/// binaries in `items` are combined into one binary at `output_path`.
pub fn lipo(items: &Vec<String>, output_path: &str) -> (r: Vec<String>)
    ensures
        views(r@) == seq!["-create"@, "-output"@, output_path@] + views(items@),
{
    let mut args: Vec<String> = Vec::new();
    args.push(String::from_str("-create"));
    args.push(String::from_str("-output"));
    args.push(String::from_str(output_path));
    extend_strings(&mut args, items);
    proof {
        assert(views(args@) =~= seq!["-create"@, "-output"@, output_path@] + views(items@));
    }
    args
}

/// The trailing `-framework <path>` argument pairs of an umbrella-assembler
/// invocation, one pair per merged bundle.
pub open spec fn framework_args(paths: Seq<Seq<char>>) -> Seq<Seq<char>>
    decreases paths.len(),
{
    if paths.len() == 0 {
        Seq::empty()
    } else {
        framework_args(paths.drop_last()) + seq!["-framework"@, paths.last()]
    }
}

/// The umbrella assembler.
pub struct Xcodebuild;

impl Xcodebuild {
    /// The arguments of one umbrella-assembler invocation: it aggregates the
    /// merged bundles at `paths` into one container named after `name` under
    /// `output_path`.
    pub fn create_xcframework_frameworks(name: &str, paths: &Vec<String>, output_path: &str) -> (r:
        Vec<String>)
        ensures
            views(r@) == seq!["-create-xcframework"@, "-output"@, joined(
                output_path@,
                name@ + ".xcframework"@,
            )] + framework_args(views(paths@)),
    {
        let mut args: Vec<String> = Vec::new();
        args.push(String::from_str("-create-xcframework"));
        args.push(String::from_str("-output"));
        args.push(path_join(output_path, concat2(name, ".xcframework").as_str()));
        let ghost head = views(args@);
        proof {
            assert(head =~= seq!["-create-xcframework"@, "-output"@, joined(
                output_path@,
                name@ + ".xcframework"@,
            )]);
        }
        let mut i: usize = 0;
        while i < paths.len()
            invariant
                i <= paths@.len(),
                views(args@) == head + framework_args(views(paths@).subrange(0, i as int)),
            decreases paths@.len() - i,
        {
            let ghost before = args@;
            args.push(String::from_str("-framework"));
            args.push(paths[i].clone());
            proof {
                let pv = views(paths@);
                assert(pv.subrange(0, i + 1 as int).drop_last() =~= pv.subrange(0, i as int));
                assert(pv.subrange(0, i + 1 as int).last() == pv[i as int]);
                assert(framework_args(pv.subrange(0, i + 1 as int)) == framework_args(
                    pv.subrange(0, i as int),
                ) + seq!["-framework"@, pv[i as int]]);
                assert(views(args@) =~= views(before).push("-framework"@).push(pv[i as int]));
                assert(views(before).push("-framework"@).push(pv[i as int]) =~= head
                    + framework_args(pv.subrange(0, i + 1 as int)));
            }
            i += 1;
        }
        proof {
            assert(views(paths@).subrange(0, paths@.len() as int) =~= views(paths@));
        }
        args
    }
}

/// One interface-language compiler run, planned: the two command argument
/// lists and the relocatable object file the first of them produces.
pub struct SwiftcInvocation {
    pub emit_object: Vec<String>,
    pub emit_module: Vec<String>,
    pub object_name: String,
}

/// The arguments of the compiler run that emits the relocatable object.
pub open spec fn swiftc_object_args(
    sdk: Seq<char>,
    swift_triple: Seq<char>,
    module_name: Seq<char>,
    object_name: Seq<char>,
    frameworks_path: Seq<char>,
    swift_files: Seq<Seq<char>>,
) -> Seq<Seq<char>> {
    seq![
        "-emit-library"@,
        "-emit-object"@,
        "-static"@,
        "-sdk"@,
        sdk,
        "-target"@,
        swift_triple,
        "-module-name"@,
        module_name,
        "-o"@,
        object_name,
        "-F"@,
        frameworks_path,
    ] + swift_files
}

/// The arguments of the compiler run that emits the module sidecar files.
pub open spec fn swiftc_module_args(
    sdk: Seq<char>,
    swift_triple: Seq<char>,
    module_name: Seq<char>,
    frameworks_path: Seq<char>,
    swift_files: Seq<Seq<char>>,
) -> Seq<Seq<char>> {
    seq![
        "-emit-module"@,
        "-static"@,
        "-sdk"@,
        sdk,
        "-enable-library-evolution"@,
        "-emit-parseable-module-interface"@,
        "-target"@,
        swift_triple,
        "-module-name"@,
        module_name,
        "-F"@,
        frameworks_path,
    ] + swift_files
}

/// The interface-language compiler.
pub struct Swiftc;

impl Swiftc {
    /// Plans the two compiler runs for one target: one emitting a relocatable
    /// object named `<module>.o`, one emitting the module sidecar files.
    /// `sdk_path` is the SDK location the SDK locator reported for the
    /// triple's SDK name. `None` exactly on unsupported triples.
    pub fn build(
        triple: &str,
        min_versions: &MinVersions,
        module_name: &str,
        sdk_path: &str,
        frameworks_path: &str,
        swift_files: &Vec<String>,
    ) -> (r: Option<SwiftcInvocation>)
        ensures
            match r {
                Some(inv) => {
                    let st = swift_triple_name(triple@, min_versions.ios@, min_versions.macos@);
                    &&& st is Some
                    &&& inv.object_name@ == module_name@ + ".o"@
                    &&& views(inv.emit_object@) == swiftc_object_args(
                        sdk_path@,
                        st->0,
                        module_name@,
                        module_name@ + ".o"@,
                        frameworks_path@,
                        views(swift_files@),
                    )
                    &&& views(inv.emit_module@) == swiftc_module_args(
                        sdk_path@,
                        st->0,
                        module_name@,
                        frameworks_path@,
                        views(swift_files@),
                    )
                },
                None => swift_triple_name(triple@, min_versions.ios@, min_versions.macos@) is None,
            },
    {
        let swift_triple = match current_triple(triple, min_versions) {
            Some(x) => x,
            None => {
                return None;
            },
        };
        let object_name = concat2(module_name, ".o");

        let mut emit_object: Vec<String> = Vec::new();
        emit_object.push(String::from_str("-emit-library"));
        emit_object.push(String::from_str("-emit-object"));
        emit_object.push(String::from_str("-static"));
        emit_object.push(String::from_str("-sdk"));
        emit_object.push(String::from_str(sdk_path));
        emit_object.push(String::from_str("-target"));
        emit_object.push(swift_triple.clone());
        emit_object.push(String::from_str("-module-name"));
        emit_object.push(String::from_str(module_name));
        emit_object.push(String::from_str("-o"));
        emit_object.push(object_name.clone());
        emit_object.push(String::from_str("-F"));
        emit_object.push(String::from_str(frameworks_path));
        extend_strings(&mut emit_object, swift_files);

        let mut emit_module: Vec<String> = Vec::new();
        emit_module.push(String::from_str("-emit-module"));
        emit_module.push(String::from_str("-static"));
        emit_module.push(String::from_str("-sdk"));
        emit_module.push(String::from_str(sdk_path));
        emit_module.push(String::from_str("-enable-library-evolution"));
        emit_module.push(String::from_str("-emit-parseable-module-interface"));
        emit_module.push(String::from_str("-target"));
        emit_module.push(swift_triple.clone());
        emit_module.push(String::from_str("-module-name"));
        emit_module.push(String::from_str(module_name));
        emit_module.push(String::from_str("-F"));
        emit_module.push(String::from_str(frameworks_path));
        extend_strings(&mut emit_module, swift_files);

        proof {
            let st = swift_triple_name(triple@, min_versions.ios@, min_versions.macos@);
            assert(views(emit_object@) =~= swiftc_object_args(
                sdk_path@,
                st->0,
                module_name@,
                module_name@ + ".o"@,
                frameworks_path@,
                views(swift_files@),
            ));
            assert(views(emit_module@) =~= swiftc_module_args(
                sdk_path@,
                st->0,
                module_name@,
                frameworks_path@,
                views(swift_files@),
            ));
        }
        Some(SwiftcInvocation { emit_object, emit_module, object_name })
    }
}

/// The archive-insert tool.
pub struct Ar;

impl Ar {
    /// The arguments of one archive-insert invocation: quick-appends the
    /// object at `input` to the archive at `path`.
    pub fn insert(path: &str, input: &str) -> (r: Vec<String>)
        ensures
            views(r@) == seq!["q"@, path@, input@],
    {
        let mut args: Vec<String> = Vec::new();
        args.push(String::from_str("q"));
        args.push(String::from_str(path));
        args.push(String::from_str(input));
        proof {
            assert(views(args@) =~= seq!["q"@, path@, input@]);
        }
        args
    }
}

} // verus!
