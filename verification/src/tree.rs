//! A value-level model of a directory-shaped artifact: a flat list of files,
//! each a component path with byte content. Bundles, merged bundles and their
//! union/derivation rules are stated over this model; the driver mirrors the
//! planned steps onto the real output tree.
//!
//! A tree is viewed as a sequence of `(path, data)` pairs and, through
//! `as_map`, as a finite map from paths to contents; unioning prefers the
//! later source, which is exactly the silent-overwrite behaviour of copying
//! one directory over another.

use vstd::prelude::*;

use crate::cmd::views;

verus! {

/// The view of one file: its path components and its content bytes.
pub type Entry = (Seq<Seq<char>>, Seq<u8>);

/// One file of a directory tree.
pub struct FileEntry {
    pub path: Vec<String>,
    pub data: Vec<u8>,
}

impl View for FileEntry {
    type V = Entry;

    open spec fn view(&self) -> Entry {
        (views(self.path@), self.data@)
    }
}

/// A directory tree as a flat list of files.
pub struct DirTree {
    pub entries: Vec<FileEntry>,
}

/// The views of an entry list.
pub open spec fn tree_view(entries: Seq<FileEntry>) -> Seq<Entry> {
    entries.map_values(|e: FileEntry| e@)
}

impl View for DirTree {
    type V = Seq<Entry>;

    open spec fn view(&self) -> Seq<Entry> {
        tree_view(self.entries@)
    }
}

/// Whether some entry of `s` has path `p`.
pub open spec fn has_path(s: Seq<Entry>, p: Seq<Seq<char>>) -> bool {
    exists|i: int| 0 <= i < s.len() && s[i].0 == p
}

/// Pairwise-distinct paths: each file occurs once.
pub open spec fn paths_distinct(s: Seq<Entry>) -> bool {
    forall|i: int, j: int| 0 <= i < j < s.len() ==> s[i].0 != s[j].0
}

/// The map from path to content described by an entry list; a later entry
/// for the same path wins.
pub open spec fn entries_map(s: Seq<Entry>) -> Map<Seq<Seq<char>>, Seq<u8>>
    decreases s.len(),
{
    if s.len() == 0 {
        Map::empty()
    } else {
        entries_map(s.drop_last()).insert(s.last().0, s.last().1)
    }
}

/// The keys of `entries_map` are exactly the paths of the entries.
pub proof fn lemma_entries_map_dom(s: Seq<Entry>)
    ensures
        forall|p: Seq<Seq<char>>| #[trigger] entries_map(s).contains_key(p) <==> has_path(s, p),
    decreases s.len(),
{
    if s.len() > 0 {
        let s0 = s.drop_last();
        lemma_entries_map_dom(s0);
        assert forall|p: Seq<Seq<char>>| #[trigger]
            entries_map(s).contains_key(p) <==> has_path(s, p) by {
            if entries_map(s).contains_key(p) {
                if p == s.last().0 {
                    assert(s[s.len() - 1].0 == p);
                } else {
                    assert(entries_map(s0).contains_key(p));
                    assert(has_path(s0, p));
                    let i = choose|i: int| 0 <= i < s0.len() && s0[i].0 == p;
                    assert(s0[i] == s[i]);
                    assert(s[i].0 == p);
                }
                assert(has_path(s, p));
            }
            if has_path(s, p) {
                let i = choose|i: int| 0 <= i < s.len() && s[i].0 == p;
                if i < s.len() - 1 {
                    assert(s0[i] == s[i]);
                    assert(s0[i].0 == p);
                    assert(has_path(s0, p));
                    assert(entries_map(s0).contains_key(p));
                } else {
                    assert(p == s.last().0);
                }
                assert(entries_map(s).contains_key(p));
            }
        }
    }
}

/// Under distinct paths, each entry's content is its path's image in the map.
pub proof fn lemma_entries_map_index(s: Seq<Entry>)
    requires
        paths_distinct(s),
    ensures
        forall|i: int|
            0 <= i < s.len() ==> entries_map(s).contains_key(#[trigger] s[i].0) && entries_map(
                s,
            )[s[i].0] == s[i].1,
    decreases s.len(),
{
    if s.len() > 0 {
        let s0 = s.drop_last();
        lemma_entries_map_index(s0);
        assert forall|i: int|
            0 <= i < s.len() implies entries_map(s).contains_key(#[trigger] s[i].0)
            && entries_map(s)[s[i].0] == s[i].1 by {
            if i < s.len() - 1 {
                assert(s0[i].0 == s[i].0 && s0[i].1 == s[i].1);
                assert(s[i].0 != s.last().0);
            }
        }
    }
}

/// Updating one entry in place, keeping its path, is a map insert.
proof fn lemma_entries_map_update(s: Seq<Entry>, i: int, e: Entry)
    requires
        paths_distinct(s),
        0 <= i < s.len(),
        e.0 == s[i].0,
    ensures
        entries_map(s.update(i, e)) == entries_map(s).insert(e.0, e.1),
    decreases s.len(),
{
    let su = s.update(i, e);
    if i == s.len() - 1 {
        assert(su.drop_last() =~= s.drop_last());
        assert(entries_map(su) == entries_map(s.drop_last()).insert(e.0, e.1));
        assert(entries_map(s.drop_last()).insert(s.last().0, s.last().1).insert(e.0, e.1)
            =~= entries_map(s.drop_last()).insert(e.0, e.1));
    } else {
        let s0 = s.drop_last();
        assert(su.drop_last() =~= s0.update(i, e));
        assert(su.last() == s.last());
        lemma_entries_map_update(s0, i, e);
        assert(entries_map(su) == entries_map(s0).insert(e.0, e.1).insert(
            s.last().0,
            s.last().1,
        ));
        assert(e.0 != s.last().0);
        assert(entries_map(s0).insert(e.0, e.1).insert(s.last().0, s.last().1) =~= entries_map(
            s0,
        ).insert(s.last().0, s.last().1).insert(e.0, e.1));
    }
}

/// Clones a component path.
pub fn clone_path(v: &Vec<String>) -> (r: Vec<String>)
    ensures
        r@ == v@,
{
    let mut out: Vec<String> = Vec::new();
    let mut i: usize = 0;
    while i < v.len()
        invariant
            i <= v@.len(),
            out@ == v@.subrange(0, i as int),
        decreases v@.len() - i,
    {
        out.push(v[i].clone());
        proof {
            assert(v@.subrange(0, i + 1 as int) =~= v@.subrange(0, i as int).push(v@[i as int]));
        }
        i += 1;
    }
    proof {
        assert(v@.subrange(0, v@.len() as int) =~= v@);
    }
    out
}

/// Clones content bytes.
pub fn clone_bytes(v: &Vec<u8>) -> (r: Vec<u8>)
    ensures
        r@ == v@,
{
    let mut out: Vec<u8> = Vec::new();
    let mut i: usize = 0;
    while i < v.len()
        invariant
            i <= v@.len(),
            out@ == v@.subrange(0, i as int),
        decreases v@.len() - i,
    {
        out.push(v[i]);
        proof {
            assert(v@.subrange(0, i + 1 as int) =~= v@.subrange(0, i as int).push(v@[i as int]));
        }
        i += 1;
    }
    proof {
        assert(v@.subrange(0, v@.len() as int) =~= v@);
    }
    out
}

/// Component-wise path equality.
pub fn path_eq(a: &Vec<String>, b: &Vec<String>) -> (r: bool)
    ensures
        r == (views(a@) == views(b@)),
{
    if a.len() != b.len() {
        proof {
            assert(views(a@).len() != views(b@).len());
        }
        return false;
    }
    let mut i: usize = 0;
    while i < a.len()
        invariant
            a@.len() == b@.len(),
            i <= a@.len(),
            forall|j: int| 0 <= j < i ==> views(a@)[j] == views(b@)[j],
        decreases a@.len() - i,
    {
        if !crate::strutil::str_eq(a[i].as_str(), b[i].as_str()) {
            proof {
                assert(views(a@)[i as int] != views(b@)[i as int]);
            }
            return false;
        }
        i += 1;
    }
    proof {
        assert(views(a@) =~= views(b@));
    }
    true
}

/// The map of all sources unioned in order onto `base`; a later source's
/// file wins over an earlier one's at the same path.
pub open spec fn merged_onto(
    base: Map<Seq<Seq<char>>, Seq<u8>>,
    sources: Seq<Seq<Entry>>,
) -> Map<Seq<Seq<char>>, Seq<u8>>
    decreases sources.len(),
{
    if sources.len() == 0 {
        base
    } else {
        merged_onto(base, sources.drop_last()).union_prefer_right(
            entries_map(sources.last()),
        )
    }
}

/// The content of a merged bundle: all sources unioned in order.
pub open spec fn merged_map(sources: Seq<Seq<Entry>>) -> Map<Seq<Seq<char>>, Seq<u8>> {
    merged_onto(Map::empty(), sources)
}

impl DirTree {
    /// Each file occurs once.
    pub open spec fn wf(self) -> bool {
        paths_distinct(self@)
    }

    /// The tree as a map from path to content.
    pub open spec fn as_map(self) -> Map<Seq<Seq<char>>, Seq<u8>> {
        entries_map(self@)
    }

    /// The empty tree.
    pub fn new() -> (r: DirTree)
        ensures
            r@ == Seq::<Entry>::empty(),
            r.as_map() == Map::<Seq<Seq<char>>, Seq<u8>>::empty(),
            r.wf(),
    {
        let r = DirTree { entries: Vec::new() };
        proof {
            assert(r@ =~= Seq::<Entry>::empty());
        }
        r
    }

    /// The index of the entry at `path`, if any.
    fn find(&self, path: &Vec<String>) -> (r: Option<usize>)
        ensures
            match r {
                Some(i) => i < self@.len() && self@[i as int].0 == views(path@),
                None => !has_path(self@, views(path@)),
            },
    {
        let mut i: usize = 0;
        while i < self.entries.len()
            invariant
                i <= self@.len(),
                self@.len() == self.entries@.len(),
                forall|j: int| 0 <= j < i ==> self@[j].0 != views(path@),
            decreases self@.len() - i,
        {
            if path_eq(&self.entries[i].path, path) {
                return Some(i);
            }
            i += 1;
        }
        None
    }

    /// The content at `path`, if the tree holds that file.
    pub fn get(&self, path: &Vec<String>) -> (r: Option<&Vec<u8>>)
        requires
            self.wf(),
        ensures
            match r {
                Some(d) => self.as_map().contains_key(views(path@)) && d@ == self.as_map()[views(
                    path@,
                )],
                None => !self.as_map().contains_key(views(path@)),
            },
    {
        proof {
            lemma_entries_map_dom(self@);
            lemma_entries_map_index(self@);
        }
        match self.find(path) {
            Some(i) => Some(&self.entries[i].data),
            None => None,
        }
    }

    /// The number of files.
    pub fn file_count(&self) -> (r: usize)
        ensures
            r == self@.len(),
    {
        self.entries.len()
    }

    /// Writes `data` at `path`, overwriting a file already there.
    pub fn insert(&mut self, path: Vec<String>, data: Vec<u8>)
        requires
            old(self).wf(),
        ensures
            final(self).wf(),
            final(self).as_map() == old(self).as_map().insert(views(path@), data@),
    {
        let entry = FileEntry { path, data };
        match self.find(&entry.path) {
            Some(i) => {
                proof {
                    lemma_entries_map_update(self@, i as int, entry@);
                    assert(self@.update(i as int, entry@) =~= self.entries@.update(
                        i as int,
                        entry,
                    ).map_values(|e: FileEntry| e@));
                }
                self.entries.set(i, entry);
            },
            None => {
                proof {
                    assert(self@.push(entry@) =~= self.entries@.push(entry).map_values(
                        |e: FileEntry| e@,
                    ));
                    assert(self@.push(entry@).drop_last() =~= self@);
                }
                self.entries.push(entry);
            },
        }
    }

    /// Copies every file of `src` into this tree; a file of `src` wins over
    /// one already here at the same path.
    pub fn union_from(&mut self, src: &DirTree)
        requires
            old(self).wf(),
            src.wf(),
        ensures
            final(self).wf(),
            final(self).as_map() == old(self).as_map().union_prefer_right(src.as_map()),
    {
        let mut i: usize = 0;
        while i < src.entries.len()
            invariant
                i <= src@.len(),
                src@.len() == src.entries@.len(),
                self.wf(),
                self.as_map() == old(self).as_map().union_prefer_right(
                    entries_map(src@.subrange(0, i as int)),
                ),
            decreases src@.len() - i,
        {
            let path = clone_path(&src.entries[i].path);
            let data = clone_bytes(&src.entries[i].data);
            proof {
                assert(views(path@) == src@[i as int].0 && data@ == src@[i as int].1);
            }
            let ghost before = self.as_map();
            self.insert(path, data);
            proof {
                let pre = src@.subrange(0, i as int);
                let post = src@.subrange(0, i + 1 as int);
                assert(post.drop_last() =~= pre);
                assert(entries_map(post) == entries_map(pre).insert(
                    src@[i as int].0,
                    src@[i as int].1,
                ));
                vstd::map_lib::lemma_union_insert_right(
                    old(self).as_map(),
                    entries_map(pre),
                    src@[i as int].0,
                    src@[i as int].1,
                );
            }
            i += 1;
        }
        proof {
            assert(src@.subrange(0, src@.len() as int) =~= src@);
        }
    }
}

/// The sequence of tree views of a vector of trees.
pub open spec fn tree_views(v: Seq<DirTree>) -> Seq<Seq<Entry>> {
    v.map_values(|t: DirTree| t@)
}

/// Unions the sources, in order, into one merged tree: the explicit
/// compose-bundle operation behind merged-bundle construction. A later
/// source's file silently wins at a shared path, so the result is only
/// meaningful when shared paths carry identical content.
pub fn merge(sources: &Vec<DirTree>) -> (r: DirTree)
    requires
        forall|i: int| 0 <= i < sources@.len() ==> (#[trigger] sources@[i]).wf(),
    ensures
        r.wf(),
        r.as_map() == merged_map(tree_views(sources@)),
{
    let mut out = DirTree::new();
    let mut i: usize = 0;
    while i < sources.len()
        invariant
            i <= sources@.len(),
            forall|k: int| 0 <= k < sources@.len() ==> (#[trigger] sources@[k]).wf(),
            out.wf(),
            out.as_map() == merged_map(tree_views(sources@).subrange(0, i as int)),
        decreases sources@.len() - i,
    {
        out.union_from(&sources[i]);
        proof {
            let tv = tree_views(sources@);
            assert(tv.subrange(0, i + 1 as int).drop_last() =~= tv.subrange(0, i as int));
            assert(tv.subrange(0, i + 1 as int).last() == sources@[i as int]@);
        }
        i += 1;
    }
    proof {
        assert(tree_views(sources@).subrange(0, sources@.len() as int) =~= tree_views(sources@));
    }
    out
}

/// Unioning in order onto a base is the base unioned with the sources'
/// merged content.
proof fn lemma_merged_onto_union(base: Map<Seq<Seq<char>>, Seq<u8>>, sources: Seq<Seq<Entry>>)
    ensures
        merged_onto(base, sources) == base.union_prefer_right(merged_map(sources)),
    decreases sources.len(),
{
    if sources.len() == 0 {
        assert(base.union_prefer_right(Map::empty()) =~= base);
    } else {
        let s0 = sources.drop_last();
        let last = entries_map(sources.last());
        lemma_merged_onto_union(base, s0);
        lemma_merged_onto_union(Map::empty(), s0);
        assert(Map::empty().union_prefer_right(merged_map(s0)) =~= merged_map(s0));
        assert(base.union_prefer_right(merged_map(s0)).union_prefer_right(last)
            =~= base.union_prefer_right(merged_map(s0).union_prefer_right(last)));
    }
}

/// Merging a merged variant is idempotent at the content level: copying the
/// same contributing bundles, in the same order, over the already-merged
/// result leaves the file set and every file's content unchanged.
pub proof fn lemma_merge_idempotent(sources: Seq<Seq<Entry>>)
    ensures
        merged_onto(merged_map(sources), sources) == merged_map(sources),
{
    let m = merged_map(sources);
    lemma_merged_onto_union(m, sources);
    assert(m.union_prefer_right(m) =~= m);
}

} // verus!
