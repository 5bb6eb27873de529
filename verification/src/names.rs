//! Derivation of the module, framework and library file names used across
//! the output layout, from a library's build-product name.

use vstd::prelude::*;

use crate::strutil::{concat2, replace_char, replaced};

verus! {

/// The camel-case conversion of a string, as the case-conversion crate
/// computes it; a function of the characters alone.
pub uninterp spec fn camel_of(s: Seq<char>) -> Seq<char>;

/// Relies on heck's `CamelCase::to_camel_case` for `str`: the conversion is
/// deterministic and depends on the input characters alone.
#[verifier::external_body]
pub(crate) fn to_camel_case(s: &str) -> (r: String)
    ensures
        r@ == camel_of(s@),
{
    heck::CamelCase::to_camel_case(s)
}

/// The library's system name: its build-product name with dashes replaced
/// by underscores.
pub open spec fn sys_name_spec(name: Seq<char>) -> Seq<char> {
    replaced(name, '-', '_')
}

pub fn sys_name(name: &str) -> (r: String)
    ensures
        r@ == sys_name_spec(name@),
{
    replace_char(name, '-', '_')
}

/// The interface (low-level) module's name: the system name with an `_ffi`
/// suffix, camel-cased.
pub open spec fn ffi_module_name_spec(name: Seq<char>) -> Seq<char> {
    camel_of(sys_name_spec(name) + "_ffi"@)
}

pub fn ffi_module_name(name: &str) -> (r: String)
    ensures
        r@ == ffi_module_name_spec(name@),
{
    let sys = sys_name(name);
    let with_suffix = concat2(sys.as_str(), "_ffi");
    to_camel_case(with_suffix.as_str())
}

/// The wrapper (high-level) module's name: the system name camel-cased.
pub open spec fn module_name_spec(name: Seq<char>) -> Seq<char> {
    camel_of(sys_name_spec(name))
}

pub fn module_name(name: &str) -> (r: String)
    ensures
        r@ == module_name_spec(name@),
{
    let sys = sys_name(name);
    to_camel_case(sys.as_str())
}

/// A module's framework directory name.
pub open spec fn framework_name_spec(module: Seq<char>) -> Seq<char> {
    module + ".framework"@
}

pub fn framework_name(module: &str) -> (r: String)
    ensures
        r@ == framework_name_spec(module@),
{
    concat2(module, ".framework")
}

/// The static library file name for a system name.
pub open spec fn lib_file_spec(sys: Seq<char>) -> Seq<char> {
    "lib"@ + sys + ".a"@
}

pub fn lib_file(sys: &str) -> (r: String)
    ensures
        r@ == lib_file_spec(sys@),
{
    crate::strutil::concat3("lib", sys, ".a")
}

} // verus!
