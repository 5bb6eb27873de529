//! The vendoring flows around the packaged crate: planting the crate as a
//! version-control subtree, pulling it up to date, and packing the
//! distributable archive. All of it is planned as steps; the driver runs the
//! processes and reads the directory.

use vstd::prelude::*;

use crate::cmd::{extend_strings, views};
use crate::steps::{steps_view, Step, StepV};

verus! {

/// Whether a directory entry belongs in the distributable archive: the
/// descriptor file, license files and readme files, as the fixed glob set
/// (`*.podspec`, `LICENSE`, `LICENSE*`, `README`, `README*`) matches the
/// entry's path.
pub uninterp spec fn bundle_match(path: Seq<char>) -> bool;

/// Relies on `globset::GlobSet::is_match` over the five fixed patterns
/// above: the verdict depends on the path alone.
#[verifier::external_body]
fn is_bundle_file(path: &str) -> (r: bool)
    ensures
        r == bundle_match(path@),
{
    let mut builder = globset::GlobSetBuilder::new();
    builder.add(globset::Glob::new("*.podspec").unwrap());
    builder.add(globset::Glob::new("LICENSE").unwrap());
    builder.add(globset::Glob::new("LICENSE*").unwrap());
    builder.add(globset::Glob::new("README").unwrap());
    builder.add(globset::Glob::new("README*").unwrap());
    let set = builder.build().unwrap();
    set.is_match(path)
}

/// The entries that belong in the archive, in directory order.
pub open spec fn bundle_files_spec(names: Seq<Seq<char>>) -> Seq<Seq<char>>
    decreases names.len(),
{
    if names.len() == 0 {
        Seq::empty()
    } else {
        bundle_files_spec(names.drop_last()) + (if bundle_match(names.last()) {
            seq![names.last()]
        } else {
            Seq::empty()
        })
    }
}

/// Keeps the directory entries that belong in the archive.
pub fn bundle_files(names: &Vec<String>) -> (r: Vec<String>)
    ensures
        views(r@) == bundle_files_spec(views(names@)),
{
    let mut out: Vec<String> = Vec::new();
    let mut i: usize = 0;
    while i < names.len()
        invariant
            i <= names@.len(),
            views(out@) == bundle_files_spec(views(names@).subrange(0, i as int)),
        decreases names@.len() - i,
    {
        proof {
            let nv = views(names@);
            assert(nv.subrange(0, i + 1 as int).drop_last() =~= nv.subrange(0, i as int));
            assert(nv.subrange(0, i + 1 as int).last() == nv[i as int]);
        }
        let ghost before = out@;
        if is_bundle_file(names[i].as_str()) {
            out.push(names[i].clone());
            proof {
                assert(views(out@) =~= views(before) + seq![views(names@)[i as int]]);
            }
        } else {
            proof {
                assert(views(out@) =~= bundle_files_spec(views(names@).subrange(0, i + 1 as int)));
            }
        }
        i += 1;
    }
    proof {
        assert(views(names@).subrange(0, names@.len() as int) =~= views(names@));
    }
    out
}

/// The archiving invocation: the archive's name, the matched files, then the
/// source and artifact directories.
pub fn bundle_tar_args(files: &Vec<String>) -> (r: Vec<String>)
    ensures
        views(r@) == seq!["zcvf"@, "cargo-pod.tgz"@] + views(files@) + seq!["src"@, "dist"@],
{
    let mut out: Vec<String> = Vec::new();
    out.push(String::from_str("zcvf"));
    out.push(String::from_str("cargo-pod.tgz"));
    extend_strings(&mut out, files);
    out.push(String::from_str("src"));
    out.push(String::from_str("dist"));
    proof {
        assert(views(out@) =~= seq!["zcvf"@, "cargo-pod.tgz"@] + views(files@) + seq![
            "src"@,
            "dist"@,
        ]);
    }
    out
}

/// The branch in force: the caller's, or the default.
pub open spec fn or_main(branch: Option<Seq<char>>) -> Seq<char> {
    match branch {
        Some(b) => b,
        None => "main"@,
    }
}

/// The steps that plant the crate as a subtree: on a repository without
/// commits, first an ignore entry (only when the ignore file is absent) and
/// an initial commit; then the remote, the subtree itself, and a recorded
/// remote committed alongside.
pub open spec fn init_subtree_plan(
    url: Seq<char>,
    branch: Option<Seq<char>>,
    has_commits: bool,
    gitignore_exists: bool,
) -> Seq<StepV> {
    (if !has_commits {
        (if !gitignore_exists {
            seq![StepV::AppendFile { path: ".gitignore"@, contents: "dist/\n"@ }]
        } else {
            Seq::empty()
        }) + seq![
            StepV::RunGit { args: seq!["init"@] },
            StepV::RunGit { args: seq!["reset"@] },
            StepV::RunGit { args: seq!["add"@, ".gitignore"@] },
            StepV::RunGit { args: seq!["commit"@, "-m"@, "Initial commit"@] },
        ]
    } else {
        Seq::empty()
    }) + seq![
        StepV::RunGit { args: seq!["remote"@, "add"@, "-f"@, "crate"@, url] },
        StepV::RunGit {
            args: seq![
                "subtree"@,
                "add"@,
                "--prefix"@,
                "crate"@,
                "crate"@,
                or_main(branch),
                "--squash"@,
            ],
        },
        StepV::WriteFile { path: ".crate-remote"@, contents: url },
        StepV::RunGit { args: seq!["add"@, ".crate-remote"@] },
        StepV::RunGit { args: seq!["commit"@, "-m"@, "Add .crate-remote"@] },
    ]
}

/// Plans the subtree-planting flow.
pub fn init_subtree(
    url: &str,
    branch: &Option<String>,
    has_commits: bool,
    gitignore_exists: bool,
) -> (r: Vec<Step>)
    ensures
        steps_view(r@) == init_subtree_plan(
            url@,
            crate::podspec::opt_view(*branch),
            has_commits,
            gitignore_exists,
        ),
{
    let mut v: Vec<Step> = Vec::new();
    if !has_commits {
        if !gitignore_exists {
            v.push(
                Step::AppendFile {
                    path: String::from_str(".gitignore"),
                    contents: String::from_str("dist/\n"),
                },
            );
        }
        let mut a1: Vec<String> = Vec::new();
        a1.push(String::from_str("init"));
        proof {
            assert(views(a1@) =~= seq!["init"@]);
        }
        v.push(Step::RunGit { args: a1 });
        let mut a2: Vec<String> = Vec::new();
        a2.push(String::from_str("reset"));
        proof {
            assert(views(a2@) =~= seq!["reset"@]);
        }
        v.push(Step::RunGit { args: a2 });
        let mut a3: Vec<String> = Vec::new();
        a3.push(String::from_str("add"));
        a3.push(String::from_str(".gitignore"));
        proof {
            assert(views(a3@) =~= seq!["add"@, ".gitignore"@]);
        }
        v.push(Step::RunGit { args: a3 });
        let mut a4: Vec<String> = Vec::new();
        a4.push(String::from_str("commit"));
        a4.push(String::from_str("-m"));
        a4.push(String::from_str("Initial commit"));
        proof {
            assert(views(a4@) =~= seq!["commit"@, "-m"@, "Initial commit"@]);
        }
        v.push(Step::RunGit { args: a4 });
    }
    let mut b1: Vec<String> = Vec::new();
    b1.push(String::from_str("remote"));
    b1.push(String::from_str("add"));
    b1.push(String::from_str("-f"));
    b1.push(String::from_str("crate"));
    b1.push(String::from_str(url));
    proof {
        assert(views(b1@) =~= seq!["remote"@, "add"@, "-f"@, "crate"@, url@]);
    }
    v.push(Step::RunGit { args: b1 });
    let mut b2: Vec<String> = Vec::new();
    b2.push(String::from_str("subtree"));
    b2.push(String::from_str("add"));
    b2.push(String::from_str("--prefix"));
    b2.push(String::from_str("crate"));
    b2.push(String::from_str("crate"));
    match branch {
        Some(b) => b2.push(b.clone()),
        None => b2.push(String::from_str("main")),
    }
    b2.push(String::from_str("--squash"));
    proof {
        assert(views(b2@) =~= seq!["subtree"@, "add"@, "--prefix"@, "crate"@, "crate"@, or_main(crate::podspec::opt_view(*branch)), "--squash"@]);
    }
    v.push(Step::RunGit { args: b2 });
    v.push(
        Step::WriteFile { path: String::from_str(".crate-remote"), contents: String::from_str(url) },
    );
    let mut b3: Vec<String> = Vec::new();
    b3.push(String::from_str("add"));
    b3.push(String::from_str(".crate-remote"));
    proof {
        assert(views(b3@) =~= seq!["add"@, ".crate-remote"@]);
    }
    v.push(Step::RunGit { args: b3 });
    let mut b4: Vec<String> = Vec::new();
    b4.push(String::from_str("commit"));
    b4.push(String::from_str("-m"));
    b4.push(String::from_str("Add .crate-remote"));
    proof {
        assert(views(b4@) =~= seq!["commit"@, "-m"@, "Add .crate-remote"@]);
    }
    v.push(Step::RunGit { args: b4 });
    proof {
        assert(steps_view(v@) =~= init_subtree_plan(
            url@,
            crate::podspec::opt_view(*branch),
            has_commits,
            gitignore_exists,
        ));
    }
    v
}

/// The step that pulls the subtree up to date from the recorded remote.
pub open spec fn update_plan(remote: Seq<char>) -> Seq<StepV> {
    seq![
        StepV::RunGit {
            args: seq![
                "subtree"@,
                "pull"@,
                "--prefix"@,
                "crate"@,
                remote,
                "main"@,
                "--squash"@,
            ],
        },
    ]
}

/// Plans the subtree update from the recorded remote (already trimmed).
pub fn update(remote: &str) -> (r: Vec<Step>)
    ensures
        steps_view(r@) == update_plan(remote@),
{
    let mut a: Vec<String> = Vec::new();
    a.push(String::from_str("subtree"));
    a.push(String::from_str("pull"));
    a.push(String::from_str("--prefix"));
    a.push(String::from_str("crate"));
    a.push(String::from_str(remote));
    a.push(String::from_str("main"));
    a.push(String::from_str("--squash"));
    proof {
        assert(views(a@) =~= seq!["subtree"@, "pull"@, "--prefix"@, "crate"@, remote@, "main"@, "--squash"@]);
    }
    let mut v: Vec<Step> = Vec::new();
    v.push(Step::RunGit { args: a });
    proof {
        assert(steps_view(v@) =~= update_plan(remote@));
    }
    v
}

} // verus!
