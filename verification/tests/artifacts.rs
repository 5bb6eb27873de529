use cargo_pod::bundle::{
    empty_modulemap, ffi_modulemap, interface_bundle, private_modulemap, rename_first,
    wrapper_from_interface,
};
use cargo_pod::tree::{merge, DirTree, FileEntry};

fn path(parts: &[&str]) -> Vec<String> {
    parts.iter().map(|s| s.to_string()).collect()
}

fn tree(files: &[(&[&str], &str)]) -> DirTree {
    let mut t = DirTree { entries: Vec::new() };
    for (p, data) in files {
        t.entries.push(FileEntry { path: path(p), data: data.as_bytes().to_vec() });
    }
    t
}

fn get_str(t: &DirTree, p: &[&str]) -> Option<String> {
    t.get(&path(p)).map(|d| String::from_utf8(d.clone()).unwrap())
}

#[test]
fn insert_and_get() {
    let mut t = DirTree { entries: Vec::new() };
    t.insert(path(&["a", "b"]), b"one".to_vec());
    assert_eq!(get_str(&t, &["a", "b"]), Some("one".to_string()));
    assert_eq!(t.get(&path(&["a", "c"])), None);
    t.insert(path(&["a", "b"]), b"two".to_vec());
    assert_eq!(t.file_count(), 1);
    assert_eq!(get_str(&t, &["a", "b"]), Some("two".to_string()));
}

#[test]
fn union_prefers_later_source() {
    let mut a = tree(&[(&["shared"], "from-a"), (&["only-a"], "a")]);
    let b = tree(&[(&["shared"], "from-b"), (&["only-b"], "b")]);
    a.union_from(&b);
    assert_eq!(get_str(&a, &["shared"]), Some("from-b".to_string()));
    assert_eq!(get_str(&a, &["only-a"]), Some("a".to_string()));
    assert_eq!(get_str(&a, &["only-b"]), Some("b".to_string()));
    assert_eq!(a.file_count(), 3);
}

#[test]
fn merge_is_idempotent_at_content_level() {
    let s1 = tree(&[(&["Modules", "module.modulemap"], "m"), (&["PrivateHeaders", "h.h"], "x")]);
    let s2 = tree(&[(&["Modules", "module.modulemap"], "m"), (&["extra"], "y")]);
    let sources = vec![s1, s2];
    let mut once = merge(&sources);
    let count = once.file_count();
    let seen: Vec<Option<String>> = vec![
        get_str(&once, &["Modules", "module.modulemap"]),
        get_str(&once, &["PrivateHeaders", "h.h"]),
        get_str(&once, &["extra"]),
    ];
    // Repeating the copies over the already-merged result changes nothing.
    for s in &sources {
        once.union_from(s);
    }
    assert_eq!(once.file_count(), count);
    assert_eq!(
        vec![
            get_str(&once, &["Modules", "module.modulemap"]),
            get_str(&once, &["PrivateHeaders", "h.h"]),
            get_str(&once, &["extra"]),
        ],
        seen
    );
}

#[test]
fn interface_bundle_layout() {
    let headers = tree(&[(&["my_lib.h"], "int f();")]);
    let b = interface_bundle(&headers, &b"BIN".to_vec(), "MyLibFfi", "my_lib");
    assert_eq!(b.file_count(), 3);
    assert_eq!(get_str(&b, &["Headers", "my_lib.h"]), Some("int f();".to_string()));
    assert_eq!(get_str(&b, &["MyLibFfi"]), Some("BIN".to_string()));
    assert_eq!(
        get_str(&b, &["Modules", "module.modulemap"]),
        Some(
            "framework module MyLibFfi {\n    header \"my_lib.h\"\n    link \"MyLibFfi\"\n}"
                .to_string()
        )
    );
}

#[test]
fn modulemap_texts() {
    assert_eq!(
        ffi_modulemap("M", "m"),
        "framework module M {\n    header \"m.h\"\n    link \"M\"\n}"
    );
    assert_eq!(empty_modulemap("M"), "framework module M {\n}");
    assert_eq!(
        private_modulemap("M", "m"),
        "framework module M_Private {\n    header \"m.h\"\n    link \"M\"\n}"
    );
}

#[test]
fn wrapper_rename_preserves_files() {
    let headers = tree(&[(&["my_lib.h"], "int f();"), (&["extra", "e.h"], "int g();")]);
    let interface = interface_bundle(&headers, &b"BIN".to_vec(), "MyLibFfi", "my_lib");
    let renamed = rename_first(&rename_first(&interface, "Headers", "PrivateHeaders"), "MyLibFfi", "MyLib");
    // Same file count, same contents, paths renamed and nothing else changed.
    assert_eq!(renamed.file_count(), interface.file_count());
    assert_eq!(get_str(&renamed, &["PrivateHeaders", "my_lib.h"]), Some("int f();".to_string()));
    assert_eq!(
        get_str(&renamed, &["PrivateHeaders", "extra", "e.h"]),
        Some("int g();".to_string())
    );
    assert_eq!(get_str(&renamed, &["MyLib"]), Some("BIN".to_string()));
    assert_eq!(renamed.get(&path(&["Headers", "my_lib.h"])), None);
    assert_eq!(renamed.get(&path(&["MyLibFfi"])), None);
    // Untouched paths stay where they were.
    assert_eq!(
        get_str(&renamed, &["Modules", "module.modulemap"]),
        get_str(&interface, &["Modules", "module.modulemap"])
    );
}

#[test]
fn wrapper_bundle_layout() {
    let headers = tree(&[(&["my_lib.h"], "int f();")]);
    let interface = interface_bundle(&headers, &b"BIN".to_vec(), "MyLibFfi", "my_lib");
    let w = wrapper_from_interface(&interface, "MyLibFfi", "MyLib", "my_lib");
    assert_eq!(w.file_count(), 4);
    assert_eq!(get_str(&w, &["PrivateHeaders", "my_lib.h"]), Some("int f();".to_string()));
    assert_eq!(get_str(&w, &["MyLib"]), Some("BIN".to_string()));
    assert_eq!(
        get_str(&w, &["Modules", "module.modulemap"]),
        Some("framework module MyLib {\n}".to_string())
    );
    assert_eq!(
        get_str(&w, &["Modules", "module.private.modulemap"]),
        Some(
            "framework module MyLib_Private {\n    header \"my_lib.h\"\n    link \"MyLib\"\n}"
                .to_string()
        )
    );
    assert_eq!(w.get(&path(&["Headers", "my_lib.h"])), None);
}
