use cargo_pod::error::PodError;
use cargo_pod::example::{example_dist_dir, example_swiftc_args, header_args, lib_args};
use cargo_pod::publish::{
    auth_header_value, publish_preflight, release_url, releases_url, repo_tail, select_release,
    upload_url_head, u32_string, ReleaseInfo,
};
use cargo_pod::steps::Step;
use cargo_pod::subtree::{bundle_files, bundle_tar_args, init_subtree, update};

fn strs(v: &[&str]) -> Vec<String> {
    v.iter().map(|s| s.to_string()).collect()
}

#[test]
fn preflight_requires_token_and_tag() {
    assert_eq!(publish_preflight(&None, &None), Err(PodError::MissingToken));
    assert_eq!(
        publish_preflight(&Some("t".to_string()), &None),
        Err(PodError::MissingTag)
    );
    assert_eq!(publish_preflight(&Some("t".to_string()), &Some("v1".to_string())), Ok(()));
}

#[test]
fn repo_tail_shapes() {
    assert_eq!(repo_tail("git@github.com:owner/repo.git"), Ok("owner/repo".to_string()));
    assert_eq!(repo_tail("https://github.com/owner/repo.git"), Ok("owner/repo".to_string()));
    assert!(repo_tail("ssh://elsewhere/owner/repo").is_err());
    assert!(repo_tail("git@github-no-colon").is_err());
}

#[test]
fn release_selection_takes_first_matching_tag() {
    let releases = vec![
        ReleaseInfo {
            url: "u1".to_string(),
            upload_url: "up1".to_string(),
            id: 11,
            tag_name: "v0.9".to_string(),
        },
        ReleaseInfo {
            url: "u2".to_string(),
            upload_url: "up2".to_string(),
            id: 22,
            tag_name: "v1.0".to_string(),
        },
        ReleaseInfo {
            url: "u3".to_string(),
            upload_url: "up3".to_string(),
            id: 33,
            tag_name: "v1.0".to_string(),
        },
    ];
    assert_eq!(select_release(&releases, "v1.0"), 22);
    assert_eq!(select_release(&releases, "v2.0"), 0);
}

#[test]
fn upload_url_template_head() {
    assert_eq!(
        upload_url_head("https://uploads.example/assets{?name,label}"),
        Some("https://uploads.example/assets".to_string())
    );
    assert_eq!(upload_url_head("https://uploads.example/assets"), None);
}

#[test]
fn request_strings() {
    assert_eq!(auth_header_value("abc"), "token abc");
    assert_eq!(u32_string(0), "0");
    assert_eq!(u32_string(7), "7");
    assert_eq!(u32_string(10), "10");
    assert_eq!(u32_string(90210), "90210");
    assert_eq!(releases_url("o/r"), "https://api.github.com/repos/o/r/releases");
    assert_eq!(release_url("o/r", 42), "https://api.github.com/repos/o/r/releases/42");
}

#[test]
fn archive_selection_and_invocation() {
    let files = bundle_files(&strs(&[
        "MyLib.podspec",
        "LICENSE",
        "LICENSE-APACHE",
        "README.md",
        "Cargo.toml",
        "notes.txt",
    ]));
    assert_eq!(files, strs(&["MyLib.podspec", "LICENSE", "LICENSE-APACHE", "README.md"]));
    let args = bundle_tar_args(&files);
    assert_eq!(
        args,
        strs(&[
            "zcvf",
            "cargo-pod.tgz",
            "MyLib.podspec",
            "LICENSE",
            "LICENSE-APACHE",
            "README.md",
            "src",
            "dist",
        ])
    );
}

fn git_args(s: &Step) -> Option<&Vec<String>> {
    match s {
        Step::RunGit { args } => Some(args),
        _ => None,
    }
}

#[test]
fn subtree_plan_on_fresh_repository() {
    let plan = init_subtree("https://example.com/crate.git", &None, false, false);
    assert_eq!(plan.len(), 10);
    assert!(matches!(
        &plan[0],
        Step::AppendFile { path, contents } if path == ".gitignore" && contents == "dist/\n"
    ));
    assert_eq!(git_args(&plan[1]).unwrap(), &strs(&["init"]));
    assert_eq!(git_args(&plan[2]).unwrap(), &strs(&["reset"]));
    assert_eq!(git_args(&plan[3]).unwrap(), &strs(&["add", ".gitignore"]));
    assert_eq!(git_args(&plan[4]).unwrap(), &strs(&["commit", "-m", "Initial commit"]));
    assert_eq!(
        git_args(&plan[5]).unwrap(),
        &strs(&["remote", "add", "-f", "crate", "https://example.com/crate.git"])
    );
    assert_eq!(
        git_args(&plan[6]).unwrap(),
        &strs(&["subtree", "add", "--prefix", "crate", "crate", "main", "--squash"])
    );
    assert!(matches!(
        &plan[7],
        Step::WriteFile { path, contents }
            if path == ".crate-remote" && contents == "https://example.com/crate.git"
    ));
    assert_eq!(git_args(&plan[8]).unwrap(), &strs(&["add", ".crate-remote"]));
    assert_eq!(git_args(&plan[9]).unwrap(), &strs(&["commit", "-m", "Add .crate-remote"]));
}

#[test]
fn subtree_plan_on_existing_repository() {
    let plan = init_subtree("u", &Some("develop".to_string()), true, true);
    assert_eq!(plan.len(), 5);
    assert_eq!(
        git_args(&plan[1]).unwrap(),
        &strs(&["subtree", "add", "--prefix", "crate", "crate", "develop", "--squash"])
    );
}

#[test]
fn subtree_update_plan() {
    let plan = update("https://example.com/crate.git");
    assert_eq!(plan.len(), 1);
    assert_eq!(
        git_args(&plan[0]).unwrap(),
        &strs(&[
            "subtree",
            "pull",
            "--prefix",
            "crate",
            "https://example.com/crate.git",
            "main",
            "--squash",
        ])
    );
}

#[test]
fn example_argument_lists() {
    assert_eq!(
        header_args(&strs(&["src/a.h", "src/b.h"])),
        strs(&["-import-objc-header", "src/a.h", "-import-objc-header", "src/b.h"])
    );
    assert_eq!(lib_args(&strs(&["libmy_lib", "libx"])), strs(&["-lmy_lib", "-lx"]));
    assert_eq!(lib_args(&strs(&["ab"])), strs(&["-l"]));
    assert_eq!(example_dist_dir("aarch64"), "dist/aarch64-apple-darwin");
    let args = example_swiftc_args(
        &strs(&["example/main.swift"]),
        &strs(&["src/lib.swift"]),
        &strs(&["-import-objc-header", "src/a.h"]),
        "dist/aarch64-apple-darwin",
        &strs(&["-lmy_lib"]),
        "/tmp/example-bin",
    );
    assert_eq!(
        args,
        strs(&[
            "example/main.swift",
            "src/lib.swift",
            "-import-objc-header",
            "src/a.h",
            "-L",
            "dist/aarch64-apple-darwin",
            "-lmy_lib",
            "-o",
            "/tmp/example-bin",
        ])
    );
}
