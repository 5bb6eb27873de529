//! The argument lists of the example-program build: header import flags,
//! link flags derived from discovered static libraries, and the compiler
//! invocation that links the example against the built artifacts.

use vstd::prelude::*;

use crate::cmd::{extend_strings, views};
use crate::strutil::concat3;

verus! {

/// One `-import-objc-header <path>` pair per discovered header.
pub open spec fn header_args_spec(headers: Seq<Seq<char>>) -> Seq<Seq<char>>
    decreases headers.len(),
{
    if headers.len() == 0 {
        Seq::empty()
    } else {
        header_args_spec(headers.drop_last()) + seq!["-import-objc-header"@, headers.last()]
    }
}

pub fn header_args(headers: &Vec<String>) -> (r: Vec<String>)
    ensures
        views(r@) == header_args_spec(views(headers@)),
{
    let mut out: Vec<String> = Vec::new();
    let mut i: usize = 0;
    while i < headers.len()
        invariant
            i <= headers@.len(),
            views(out@) == header_args_spec(views(headers@).subrange(0, i as int)),
        decreases headers@.len() - i,
    {
        let ghost before = out@;
        out.push(String::from_str("-import-objc-header"));
        out.push(headers[i].clone());
        proof {
            let hv = views(headers@);
            assert(hv.subrange(0, i + 1 as int).drop_last() =~= hv.subrange(0, i as int));
            assert(hv.subrange(0, i + 1 as int).last() == hv[i as int]);
            assert(views(out@) =~= views(before) + seq!["-import-objc-header"@, hv[i as int]]);
        }
        i += 1;
    }
    proof {
        assert(views(headers@).subrange(0, headers@.len() as int) =~= views(headers@));
    }
    out
}

/// The link flag for one library file stem: `-l` and the stem with its
/// three-character `lib` prefix dropped (a shorter stem contributes nothing).
pub open spec fn lib_arg_spec(stem: Seq<char>) -> Seq<char> {
    "-l"@ + (if stem.len() >= 3 {
        stem.skip(3)
    } else {
        Seq::empty()
    })
}

pub open spec fn lib_args_spec(stems: Seq<Seq<char>>) -> Seq<Seq<char>>
    decreases stems.len(),
{
    if stems.len() == 0 {
        Seq::empty()
    } else {
        lib_args_spec(stems.drop_last()) + seq![lib_arg_spec(stems.last())]
    }
}

/// The link flags for the discovered static libraries' file stems.
pub fn lib_args(stems: &Vec<String>) -> (r: Vec<String>)
    ensures
        views(r@) == lib_args_spec(views(stems@)),
{
    let mut out: Vec<String> = Vec::new();
    let mut i: usize = 0;
    while i < stems.len()
        invariant
            i <= stems@.len(),
            views(out@) == lib_args_spec(views(stems@).subrange(0, i as int)),
        decreases stems@.len() - i,
    {
        let ghost before = out@;
        let stem = &stems[i];
        let slen = stem.as_str().unicode_len();
        let arg: String = if slen >= 3 {
            crate::strutil::concat2("-l", stem.as_str().substring_char(3, slen))
        } else {
            String::from_str("-l")
        };
        proof {
            if slen < 3 {
                assert(arg@ =~= lib_arg_spec(stem@));
            } else {
                assert(stem@.subrange(3, slen as int) =~= stem@.skip(3));
            }
        }
        out.push(arg);
        proof {
            let sv = views(stems@);
            assert(sv.subrange(0, i + 1 as int).drop_last() =~= sv.subrange(0, i as int));
            assert(sv.subrange(0, i + 1 as int).last() == sv[i as int]);
            assert(views(out@) =~= views(before) + seq![lib_arg_spec(sv[i as int])]);
        }
        i += 1;
    }
    proof {
        assert(views(stems@).subrange(0, stems@.len() as int) =~= views(stems@));
    }
    out
}

/// The per-architecture artifact directory the example links against.
pub fn example_dist_dir(arch: &str) -> (r: String)
    ensures
        r@ == "dist/"@ + arch@ + "-apple-darwin"@,
{
    concat3("dist/", arch, "-apple-darwin")
}

/// The whole compiler invocation of the example: the example's sources, the
/// wrapper sources, the header imports, the library search path, the link
/// flags, and the output binary.
pub open spec fn example_swiftc_args_spec(
    swift_example: Seq<Seq<char>>,
    swift_src: Seq<Seq<char>>,
    headers: Seq<Seq<char>>,
    dist_dir: Seq<char>,
    libs: Seq<Seq<char>>,
    out_bin: Seq<char>,
) -> Seq<Seq<char>> {
    swift_example + swift_src + headers + seq!["-L"@, dist_dir] + libs + seq!["-o"@, out_bin]
}

pub fn example_swiftc_args(
    swift_example: &Vec<String>,
    swift_src: &Vec<String>,
    headers: &Vec<String>,
    dist_dir: &str,
    libs: &Vec<String>,
    out_bin: &str,
) -> (r: Vec<String>)
    ensures
        views(r@) == example_swiftc_args_spec(
            views(swift_example@),
            views(swift_src@),
            views(headers@),
            dist_dir@,
            views(libs@),
            out_bin@,
        ),
{
    let mut out: Vec<String> = Vec::new();
    extend_strings(&mut out, swift_example);
    extend_strings(&mut out, swift_src);
    extend_strings(&mut out, headers);
    out.push(String::from_str("-L"));
    out.push(String::from_str(dist_dir));
    extend_strings(&mut out, libs);
    out.push(String::from_str("-o"));
    out.push(String::from_str(out_bin));
    proof {
        assert(views(out@) =~= example_swiftc_args_spec(
            views(swift_example@),
            views(swift_src@),
            views(headers@),
            dist_dir@,
            views(libs@),
            out_bin@,
        ));
    }
    out
}

} // verus!
