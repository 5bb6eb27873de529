//! The parsed command line as plain data: one argument record per
//! subcommand. The flag parser in the driver fills these in.

use vstd::prelude::*;

verus! {

pub struct BuildArgs {
    pub is_macos: bool,
    pub is_ios: bool,
    pub cargo_args: Vec<String>,
    pub manifest_path: Option<String>,
}

pub struct InitArgs {
    pub name: Option<String>,
    pub repo: Option<String>,
    pub subtree_url: Option<String>,
    pub subtree_branch: Option<String>,
    pub manifest_path: Option<String>,
}

pub struct PublishArgs {
    pub token: Option<String>,
    pub url: Option<String>,
    pub tag: Option<String>,
    pub force: bool,
}

pub struct UpdateArgs {
    pub manifest_path: Option<String>,
}

pub struct BundleArgs {
    pub manifest_path: Option<String>,
}

pub struct ExampleArgs {
    pub example_args: Vec<String>,
}

pub enum Command {
    Init(InitArgs),
    Build(BuildArgs),
    Bundle(BundleArgs),
    Publish(PublishArgs),
    Update(UpdateArgs),
    Example(ExampleArgs),
}

/// The whole parsed invocation.
pub struct Args {
    pub help: bool,
    pub command: Option<Command>,
}

} // verus!
