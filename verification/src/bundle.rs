//! Bundle synthesis on the tree model: the per-target interface bundle
//! layout, the module descriptor texts, and the derivation of the wrapper
//! bundle from the interface bundle (headers demoted to private, binary
//! retargeted, fresh public and private descriptors).

use vstd::prelude::*;
use vstd::utf8::encode_utf8;

use crate::cmd::views;
use crate::strutil::str_eq;
use crate::tree::{
    clone_bytes, clone_path, entries_map, paths_distinct, tree_view, DirTree, Entry, FileEntry,
};

verus! {

/// The module descriptor of an interface bundle: declares the public header
/// and the link name.
pub open spec fn ffi_modulemap_text(mod_name: Seq<char>, sys_name: Seq<char>) -> Seq<char> {
    "framework module "@ + mod_name + " {\n    header \""@ + sys_name + ".h\"\n    link \""@
        + mod_name + "\"\n}"@
}

pub fn ffi_modulemap(mod_name: &str, sys_name: &str) -> (r: String)
    ensures
        r@ == ffi_modulemap_text(mod_name@, sys_name@),
{
    let mut s = String::from_str("framework module ");
    s.append(mod_name);
    s.append(" {\n    header \"");
    s.append(sys_name);
    s.append(".h\"\n    link \"");
    s.append(mod_name);
    s.append("\"\n}");
    s
}

/// The wrapper bundle's public module descriptor: intentionally empty, the
/// wrapper's public surface is opaque at this layer.
pub open spec fn empty_modulemap_text(mod_name: Seq<char>) -> Seq<char> {
    "framework module "@ + mod_name + " {\n}"@
}

pub fn empty_modulemap(mod_name: &str) -> (r: String)
    ensures
        r@ == empty_modulemap_text(mod_name@),
{
    let mut s = String::from_str("framework module ");
    s.append(mod_name);
    s.append(" {\n}");
    s
}

/// The wrapper bundle's private module descriptor: references the demoted
/// header and the link name.
pub open spec fn private_modulemap_text(mod_name: Seq<char>, sys_name: Seq<char>) -> Seq<char> {
    "framework module "@ + mod_name + "_Private {\n    header \""@ + sys_name
        + ".h\"\n    link \""@ + mod_name + "\"\n}"@
}

pub fn private_modulemap(mod_name: &str, sys_name: &str) -> (r: String)
    ensures
        r@ == private_modulemap_text(mod_name@, sys_name@),
{
    let mut s = String::from_str("framework module ");
    s.append(mod_name);
    s.append("_Private {\n    header \"");
    s.append(sys_name);
    s.append(".h\"\n    link \"");
    s.append(mod_name);
    s.append("\"\n}");
    s
}

/// `p` with a leading component `from` renamed to `to`; other paths are
/// untouched.
pub open spec fn rename_path(p: Seq<Seq<char>>, from: Seq<char>, to: Seq<char>) -> Seq<
    Seq<char>,
> {
    if p.len() > 0 && p[0] == from {
        p.update(0, to)
    } else {
        p
    }
}

/// Every entry of `v` with its leading path component renamed.
pub open spec fn rename_entries(v: Seq<Entry>, from: Seq<char>, to: Seq<char>) -> Seq<Entry> {
    v.map_values(|e: Entry| (rename_path(e.0, from, to), e.1))
}

/// Renames a leading path component.
fn rename_path_exec(p: &Vec<String>, from: &str, to: &str) -> (r: Vec<String>)
    ensures
        views(r@) == rename_path(views(p@), from@, to@),
{
    if p.len() > 0 && str_eq(p[0].as_str(), from) {
        let mut out: Vec<String> = Vec::new();
        out.push(String::from_str(to));
        let mut k: usize = 1;
        while k < p.len()
            invariant
                1 <= k <= p@.len(),
                p@.len() > 0,
                views(p@)[0] == from@,
                views(out@) == views(p@).update(0, to@).subrange(0, k as int),
            decreases p@.len() - k,
        {
            out.push(p[k].clone());
            proof {
                let target = views(p@).update(0, to@);
                assert(target.subrange(0, k + 1 as int) =~= target.subrange(0, k as int).push(
                    views(p@)[k as int],
                ));
                assert(views(out@) =~= target.subrange(0, k + 1 as int));
            }
            k += 1;
        }
        proof {
            let target = views(p@).update(0, to@);
            assert(target.subrange(0, target.len() as int) =~= target);
        }
        out
    } else {
        clone_path(p)
    }
}

/// The tree with every leading component `from` renamed to `to`: the
/// headers-demotion and binary-retargeting step of wrapper derivation.
pub fn rename_first(t: &DirTree, from: &str, to: &str) -> (r: DirTree)
    ensures
        r@ == rename_entries(t@, from@, to@),
{
    let mut entries: Vec<FileEntry> = Vec::new();
    let mut i: usize = 0;
    while i < t.entries.len()
        invariant
            i <= t@.len(),
            t@.len() == t.entries@.len(),
            tree_view(entries@) == rename_entries(t@, from@, to@).subrange(
                0,
                i as int,
            ),
        decreases t@.len() - i,
    {
        proof {
            assert(t@[i as int] == t.entries@[i as int]@);
            assert(rename_entries(t@, from@, to@)[i as int] == (
                rename_path(t@[i as int].0, from@, to@),
                t@[i as int].1,
            ));
        }
        let path = rename_path_exec(&t.entries[i].path, from, to);
        let data = clone_bytes(&t.entries[i].data);
        let ghost pview = views(path@);
        let ghost dview = data@;
        let ghost before = entries@;
        entries.push(FileEntry { path, data });
        proof {
            let rv = rename_entries(t@, from@, to@);
            assert(tree_view(before).len() == i);
            let e = entries@[i as int];
            assert(e@ == (pview, dview));
            assert(e@ == rv[i as int]);
            assert(tree_view(entries@) =~= tree_view(before).push(e@));
            assert(rv.subrange(0, i + 1 as int) =~= rv.subrange(0, i as int).push(rv[i as int]));
        }
        i += 1;
    }
    let r = DirTree { entries };
    proof {
        assert(rename_entries(t@, from@, to@).subrange(
            0,
            rename_entries(t@, from@, to@).len() as int,
        ) =~= rename_entries(t@, from@, to@));
    }
    r
}

/// Whether no entry of `v` has `c` as its leading path component.
pub open spec fn no_top_component(v: Seq<Entry>, c: Seq<char>) -> bool {
    forall|i: int| 0 <= i < v.len() ==> ((#[trigger] v[i].0).len() == 0 || v[i].0[0] != c)
}

/// Renaming a leading component, where no path already starts with the new
/// name, is a bijection on paths: the file count is unchanged, every file
/// keeps its content at its renamed path, and nothing else appears.
pub proof fn lemma_rename_preserves(v: Seq<Entry>, from: Seq<char>, to: Seq<char>)
    requires
        paths_distinct(v),
        no_top_component(v, to),
    ensures
        rename_entries(v, from, to).len() == v.len(),
        paths_distinct(rename_entries(v, from, to)),
        no_top_component(rename_entries(v, from, to), from) || from == to,
        forall|p: Seq<Seq<char>>| #[trigger]
            entries_map(v).contains_key(p) ==> entries_map(
                rename_entries(v, from, to),
            ).contains_key(rename_path(p, from, to)) && entries_map(rename_entries(v, from, to))[
                rename_path(p, from, to)
            ] == entries_map(v)[p],
        forall|q: Seq<Seq<char>>| #[trigger]
            entries_map(rename_entries(v, from, to)).contains_key(q) ==> exists|p: Seq<Seq<char>>|
                entries_map(v).contains_key(p) && q == rename_path(p, from, to),
{
    let rv = rename_entries(v, from, to);
    assert forall|i: int, j: int| 0 <= i < j < rv.len() implies rv[i].0 != rv[j].0 by {
        if rv[i].0 == rv[j].0 {
            assert(rv[i].0 == rename_path(v[i].0, from, to));
            assert(rv[j].0 == rename_path(v[j].0, from, to));
            assert(v[i].0.len() == 0 || v[i].0[0] != to);
            assert(v[j].0.len() == 0 || v[j].0[0] != to);
            lemma_rename_path_injective(v[i].0, v[j].0, from, to);
        }
    }
    assert forall|i: int|
        0 <= i < rv.len() implies ((#[trigger] rv[i].0).len() == 0 || rv[i].0[0] != from || from
        == to) by {
        if v[i].0.len() > 0 && v[i].0[0] == from {
            assert(rv[i].0[0] == to);
        }
    }
    lemma_entries_map_dom_index_all(v);
    lemma_entries_map_dom_index_all(rv);
    assert forall|p: Seq<Seq<char>>| #[trigger]
        entries_map(v).contains_key(p) implies entries_map(rv).contains_key(
        rename_path(p, from, to),
    ) && entries_map(rv)[rename_path(p, from, to)] == entries_map(v)[p] by {
        let i = choose|i: int| 0 <= i < v.len() && v[i].0 == p;
        assert(rv[i].0 == rename_path(p, from, to) && rv[i].1 == v[i].1);
    }
    assert forall|q: Seq<Seq<char>>| #[trigger]
        entries_map(rv).contains_key(q) implies exists|p: Seq<Seq<char>>|
        entries_map(v).contains_key(p) && q == rename_path(p, from, to) by {
        let i = choose|i: int| 0 <= i < rv.len() && rv[i].0 == q;
        assert(entries_map(v).contains_key(v[i].0) && q == rename_path(v[i].0, from, to));
    }
}

/// Folds the domain and image facts of `entries_map` for distinct paths.
proof fn lemma_entries_map_dom_index_all(v: Seq<Entry>)
    requires
        paths_distinct(v),
    ensures
        forall|p: Seq<Seq<char>>| #[trigger]
            entries_map(v).contains_key(p) <==> crate::tree::has_path(v, p),
        forall|i: int|
            0 <= i < v.len() ==> entries_map(v).contains_key(#[trigger] v[i].0) && entries_map(
                v,
            )[v[i].0] == v[i].1,
{
    crate::tree::lemma_entries_map_dom(v);
    crate::tree::lemma_entries_map_index(v);
}

/// Renaming a leading component is injective when no path already starts
/// with the new name.
proof fn lemma_rename_path_injective(
    p1: Seq<Seq<char>>,
    p2: Seq<Seq<char>>,
    from: Seq<char>,
    to: Seq<char>,
)
    requires
        p1.len() == 0 || p1[0] != to,
        p2.len() == 0 || p2[0] != to,
        rename_path(p1, from, to) == rename_path(p2, from, to),
    ensures
        p1 == p2,
{
    let r1 = rename_path(p1, from, to);
    let r2 = rename_path(p2, from, to);
    let c1 = p1.len() > 0 && p1[0] == from;
    let c2 = p2.len() > 0 && p2[0] == from;
    if c1 && c2 {
        assert(r1 == p1.update(0, to));
        assert(r2 == p2.update(0, to));
        assert(p1.len() == p2.len());
        assert forall|k: int| 0 <= k < p1.len() implies p1[k] == p2[k] by {
            if k == 0 {
                assert(p1[0] == from && p2[0] == from);
            } else {
                assert(p1.update(0, to)[k] == p1[k]);
                assert(p2.update(0, to)[k] == p2[k]);
                assert(p1.update(0, to)[k] == p2.update(0, to)[k]);
            }
        }
        assert(p1 =~= p2);
    } else if c1 && !c2 {
        assert(r1[0] == to);
        assert(r2 == p2);
        assert(r2.len() > 0 ==> r2[0] != to);
    } else if !c1 && c2 {
        assert(r2[0] == to);
        assert(r1 == p1);
        assert(r1.len() > 0 ==> r1[0] != to);
    } else {
    }
}

/// Every entry of `v` placed under one new leading component.
pub open spec fn prefix_entries(v: Seq<Entry>, c: Seq<char>) -> Seq<Entry> {
    v.map_values(|e: Entry| (seq![c] + e.0, e.1))
}

/// The view of a freshly synthesized interface bundle: the public headers
/// verbatim under `Headers`, the module descriptor declaring the header and
/// link name, and the collected static library as the bundle's binary.
pub open spec fn interface_bundle_view(
    headers: Seq<Entry>,
    binary: Seq<u8>,
    mod_name: Seq<char>,
    sys_name: Seq<char>,
) -> Seq<Entry> {
    prefix_entries(headers, "Headers"@) + seq![
        (seq!["Modules"@, "module.modulemap"@], encode_utf8(ffi_modulemap_text(mod_name, sys_name))),
        (seq![mod_name], binary),
    ]
}

/// Synthesizes one interface bundle for a (library, target) pair from the
/// library's public header set and its collected static library.
pub fn interface_bundle(headers: &DirTree, binary: &Vec<u8>, mod_name: &str, sys_name: &str) -> (r:
    DirTree)
    ensures
        r@ == interface_bundle_view(headers@, binary@, mod_name@, sys_name@),
{
    let mut entries: Vec<FileEntry> = Vec::new();
    let ghost target = interface_bundle_view(headers@, binary@, mod_name@, sys_name@);
    let mut i: usize = 0;
    while i < headers.entries.len()
        invariant
            i <= headers@.len(),
            headers@.len() == headers.entries@.len(),
            target == interface_bundle_view(headers@, binary@, mod_name@, sys_name@),
            tree_view(entries@) == prefix_entries(headers@, "Headers"@).subrange(
                0,
                i as int,
            ),
        decreases headers@.len() - i,
    {
        proof {
            assert(headers@[i as int] == headers.entries@[i as int]@);
            assert(prefix_entries(headers@, "Headers"@)[i as int] == (
                seq!["Headers"@] + headers@[i as int].0,
                headers@[i as int].1,
            ));
        }
        let mut path: Vec<String> = Vec::new();
        path.push(String::from_str("Headers"));
        let rest = clone_path(&headers.entries[i].path);
        crate::cmd::extend_strings(&mut path, &rest);
        let data = clone_bytes(&headers.entries[i].data);
        proof {
            assert(views(path@) =~= seq!["Headers"@] + headers@[i as int].0);
        }
        let ghost pview = views(path@);
        let ghost dview = data@;
        let ghost before = entries@;
        entries.push(FileEntry { path, data });
        proof {
            let pe = prefix_entries(headers@, "Headers"@);
            assert(tree_view(before).len() == i);
            let e = entries@[i as int];
            assert(e@ == (pview, dview));
            assert(e@ == pe[i as int]);
            assert(tree_view(entries@) =~= tree_view(before).push(e@));
            assert(pe.subrange(0, i + 1 as int) =~= pe.subrange(0, i as int).push(pe[i as int]));
        }
        i += 1;
    }
    proof {
        assert(prefix_entries(headers@, "Headers"@).subrange(
            0,
            prefix_entries(headers@, "Headers"@).len() as int,
        ) =~= prefix_entries(headers@, "Headers"@));
    }
    let mut mm_path: Vec<String> = Vec::new();
    mm_path.push(String::from_str("Modules"));
    mm_path.push(String::from_str("module.modulemap"));
    proof {
        assert(views(mm_path@) =~= seq!["Modules"@, "module.modulemap"@]);
    }
    let mm_text = ffi_modulemap(mod_name, sys_name);
    entries.push(FileEntry { path: mm_path, data: mm_text.as_str().as_bytes_vec() });
    let mut bin_path: Vec<String> = Vec::new();
    bin_path.push(String::from_str(mod_name));
    proof {
        assert(views(bin_path@) =~= seq![mod_name@]);
    }
    entries.push(FileEntry { path: bin_path, data: clone_bytes(binary) });
    let r = DirTree { entries };
    proof {
        assert(r@ =~= target);
    }
    r
}

/// The two renames of wrapper derivation composed: headers demoted to
/// private, then the embedded binary retargeted to the wrapper's own name.
pub open spec fn wrapper_renamed(v: Seq<Entry>, ffi_mod: Seq<char>, mod_name: Seq<char>) -> Seq<
    Entry,
> {
    rename_entries(rename_entries(v, "Headers"@, "PrivateHeaders"@), ffi_mod, mod_name)
}

/// The headers demotion and binary retargeting of wrapper derivation
/// preserve the file set exactly: the file count is unchanged and every file
/// keeps its byte content, found at its renamed path; nothing else appears.
pub proof fn lemma_wrapper_rename_preserves(v: Seq<Entry>, ffi_mod: Seq<char>, mod_name: Seq<char>)
    requires
        paths_distinct(v),
        no_top_component(v, "PrivateHeaders"@),
        no_top_component(v, mod_name),
        mod_name != "PrivateHeaders"@,
    ensures
        wrapper_renamed(v, ffi_mod, mod_name).len() == v.len(),
        paths_distinct(wrapper_renamed(v, ffi_mod, mod_name)),
        forall|p: Seq<Seq<char>>| #[trigger]
            entries_map(v).contains_key(p) ==> entries_map(
                wrapper_renamed(v, ffi_mod, mod_name),
            ).contains_key(
                rename_path(rename_path(p, "Headers"@, "PrivateHeaders"@), ffi_mod, mod_name),
            ) && entries_map(wrapper_renamed(v, ffi_mod, mod_name))[
                rename_path(rename_path(p, "Headers"@, "PrivateHeaders"@), ffi_mod, mod_name)
            ] == entries_map(v)[p],
        forall|q: Seq<Seq<char>>| #[trigger]
            entries_map(wrapper_renamed(v, ffi_mod, mod_name)).contains_key(q) ==> exists|
                p: Seq<Seq<char>>,
            |
                entries_map(v).contains_key(p) && q == rename_path(
                    rename_path(p, "Headers"@, "PrivateHeaders"@),
                    ffi_mod,
                    mod_name,
                ),
{
    let mid = rename_entries(v, "Headers"@, "PrivateHeaders"@);
    lemma_rename_preserves(v, "Headers"@, "PrivateHeaders"@);
    assert forall|i: int|
        0 <= i < mid.len() implies ((#[trigger] mid[i].0).len() == 0 || mid[i].0[0]
        != mod_name) by {
        if v[i].0.len() > 0 && v[i].0[0] == "Headers"@ {
            assert(mid[i].0[0] == "PrivateHeaders"@);
        } else {
            assert(mid[i].0 == v[i].0);
        }
    }
    lemma_rename_preserves(mid, ffi_mod, mod_name);
}

/// Derives the wrapper bundle from one interface bundle: duplicates the
/// tree, demotes `Headers` to `PrivateHeaders`, retargets the embedded
/// binary from the interface module's name to the wrapper's, then writes the
/// wrapper's empty public descriptor and its private descriptor. The module
/// sidecar files and the embedded object are produced by the planned
/// compiler and archive steps, not here.
pub fn wrapper_from_interface(interface: &DirTree, ffi_mod: &str, mod_name: &str, sys_name: &str) -> (r:
    DirTree)
    requires
        interface.wf(),
        no_top_component(interface@, "PrivateHeaders"@),
        no_top_component(interface@, mod_name@),
        mod_name@ != "PrivateHeaders"@,
    ensures
        r.wf(),
        r.as_map() == entries_map(wrapper_renamed(interface@, ffi_mod@, mod_name@)).insert(
            seq!["Modules"@, "module.modulemap"@],
            encode_utf8(empty_modulemap_text(mod_name@)),
        ).insert(
            seq!["Modules"@, "module.private.modulemap"@],
            encode_utf8(private_modulemap_text(mod_name@, sys_name@)),
        ),
{
    proof {
        lemma_wrapper_rename_preserves(interface@, ffi_mod@, mod_name@);
    }
    let t1 = rename_first(interface, "Headers", "PrivateHeaders");
    let mut t2 = rename_first(&t1, ffi_mod, mod_name);
    let mut mm_path: Vec<String> = Vec::new();
    mm_path.push(String::from_str("Modules"));
    mm_path.push(String::from_str("module.modulemap"));
    proof {
        assert(views(mm_path@) =~= seq!["Modules"@, "module.modulemap"@]);
    }
    let mm_text = empty_modulemap(mod_name);
    t2.insert(mm_path, mm_text.as_str().as_bytes_vec());
    let mut pm_path: Vec<String> = Vec::new();
    pm_path.push(String::from_str("Modules"));
    pm_path.push(String::from_str("module.private.modulemap"));
    proof {
        assert(views(pm_path@) =~= seq!["Modules"@, "module.private.modulemap"@]);
    }
    let pm_text = private_modulemap(mod_name, sys_name);
    t2.insert(pm_path, pm_text.as_str().as_bytes_vec());
    t2
}

} // verus!
