//! Planning of native-compiler invocations: the exact argument list of one
//! `cargo build` per target triple, and the normalization of caller-supplied
//! build arguments (library-only, optimized by default; an explicit target
//! flag is a usage error, the pipeline owns target selection).

use vstd::prelude::*;

use crate::cmd::views;
use crate::error::PodError;
use crate::strutil::contains_string;

verus! {

/// One planned native-compiler run: the working directory and the argument
/// list.
pub struct CargoInvocation {
    pub dir: String,
    pub args: Vec<String>,
}

/// The argument list of one native-compiler run for `triple`.
pub open spec fn cargo_build_args(triple: Seq<char>, cargo_args: Seq<Seq<char>>, is_nightly: bool) -> Seq<
    Seq<char>,
> {
    (if is_nightly {
        seq!["+nightly"@, "build"@, "-Z"@, "build-std"@]
    } else {
        seq!["build"@]
    }) + cargo_args + seq!["--target"@, triple]
}

/// Plans one native-compiler run in `dir` for `triple` with the given
/// (already normalized) build arguments.
pub fn build(dir: &str, triple: &str, cargo_args: &Vec<String>, is_nightly: bool) -> (r:
    CargoInvocation)
    ensures
        r.dir@ == dir@,
        views(r.args@) == cargo_build_args(triple@, views(cargo_args@), is_nightly),
{
    let mut args: Vec<String> = Vec::new();
    if is_nightly {
        args.push(String::from_str("+nightly"));
        args.push(String::from_str("build"));
        args.push(String::from_str("-Z"));
        args.push(String::from_str("build-std"));
    } else {
        args.push(String::from_str("build"));
    }
    crate::cmd::extend_strings(&mut args, cargo_args);
    args.push(String::from_str("--target"));
    args.push(String::from_str(triple));
    proof {
        assert(views(args@) =~= cargo_build_args(triple@, views(cargo_args@), is_nightly));
    }
    CargoInvocation { dir: String::from_str(dir), args }
}

/// The normalized build arguments: the caller's, with `--release` and
/// `--lib` appended when absent.
pub open spec fn normalized_cargo_args(cargo_args: Seq<String>) -> Seq<Seq<char>> {
    views(cargo_args) + (if contains_string(cargo_args, "--release"@) {
        Seq::<Seq<char>>::empty()
    } else {
        seq!["--release"@]
    }) + (if contains_string(cargo_args, "--lib"@) {
        Seq::<Seq<char>>::empty()
    } else {
        seq!["--lib"@]
    })
}

/// Normalizes caller-supplied build arguments: rejects an explicit target
/// flag, and defaults the build to library-only and optimized unless the
/// caller already said so.
pub fn prepare_cargo_args(cargo_args: Vec<String>) -> (r: Result<Vec<String>, PodError>)
    ensures
        match r {
            Ok(v) => !contains_string(cargo_args@, "--target"@) && views(v@)
                == normalized_cargo_args(cargo_args@),
            Err(e) => contains_string(cargo_args@, "--target"@) && e
                == PodError::TargetFlagNotAllowed,
        },
{
    if crate::strutil::vec_contains_str(&cargo_args, "--target") {
        return Err(PodError::TargetFlagNotAllowed);
    }
    let has_release = crate::strutil::vec_contains_str(&cargo_args, "--release");
    let has_lib = crate::strutil::vec_contains_str(&cargo_args, "--lib");
    let ghost orig = cargo_args@;
    let mut args = cargo_args;
    if !has_release {
        args.push(String::from_str("--release"));
    }
    if !has_lib {
        args.push(String::from_str("--lib"));
    }
    proof {
        assert(views(args@) =~= normalized_cargo_args(orig));
    }
    Ok(args)
}

} // verus!
