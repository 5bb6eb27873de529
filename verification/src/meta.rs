//! The per-package pod configuration read from the package's extra metadata,
//! and how the pod's name is chosen from it.

use vstd::prelude::*;

use crate::names::camel_of;
use crate::podspec::opt_view;

verus! {

/// The pod section of a package's extra metadata.
pub struct Config {
    pub name: Option<String>,
    pub features: Vec<String>,
}

impl Default for Config {
    /// The configuration of a package without a pod section.
    fn default() -> (r: Config)
        ensures
            r.name is None,
            r.features@.len() == 0,
    {
        Config { name: None, features: Vec::new() }
    }
}

/// The configuration in force: the package's pod section, or the default
/// when the package has none (or its metadata did not parse).
pub fn config(pod: Option<Config>) -> (r: Config)
    ensures
        match pod {
            Some(c) => r == c,
            None => r.name is None && r.features@.len() == 0,
        },
{
    match pod {
        Some(c) => c,
        None => Config::default(),
    }
}

/// The pod's name: an explicit override wins, then the configured name, then
/// the package name camel-cased.
pub open spec fn pod_name_spec(
    override_name: Option<Seq<char>>,
    config_name: Option<Seq<char>>,
    package_name: Seq<char>,
) -> Seq<char> {
    match override_name {
        Some(n) => n,
        None => match config_name {
            Some(n) => n,
            None => camel_of(package_name),
        },
    }
}

pub fn pod_name(override_name: Option<String>, config_name: Option<String>, package_name: &str) -> (r:
    String)
    ensures
        r@ == pod_name_spec(opt_view(override_name), opt_view(config_name), package_name@),
{
    match override_name {
        Some(n) => n,
        None => match config_name {
            Some(n) => n,
            None => crate::names::to_camel_case(package_name),
        },
    }
}

} // verus!
