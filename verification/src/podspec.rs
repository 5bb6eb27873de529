//! The packaging descriptor written for a library: its fields, how they are
//! derived from the package's manifest data, and its exact textual form.
//! Key/value tables keep insertion order and unique keys.

use vstd::prelude::*;

use crate::cmd::views;
use crate::names::camel_of;
use crate::strutil::{concat2, push_char, str_eq};

verus! {

/// Where the packaged archive is downloaded from.
pub struct Source {
    pub http: String,
}

/// Per-platform-family deployment settings.
#[non_exhaustive]
pub struct OsSubspec {
    pub deployment_target: String,
}

/// The packaging descriptor of one library.
#[non_exhaustive]
pub struct Podspec {
    pub name: String,
    pub summary: String,
    pub version: String,
    pub authors: Vec<(String, String)>,
    pub license: String,
    pub homepage: String,
    pub source: Source,
    pub source_files: Vec<String>,
    pub macos: OsSubspec,
    pub ios: OsSubspec,
    pub vendored_frameworks: Vec<String>,
    pub pod_target_xcconfig: Vec<(String, String)>,
    pub prepare_command: Option<String>,
    pub preserve_paths: Vec<String>,
}

/// The element-wise views of a key/value table.
pub open spec fn pair_views(s: Seq<(String, String)>) -> Seq<(Seq<char>, Seq<char>)> {
    s.map_values(|p: (String, String)| (p.0@, p.1@))
}

/// Pairwise-distinct keys.
pub open spec fn keys_distinct(s: Seq<(Seq<char>, Seq<char>)>) -> bool {
    forall|i: int, j: int| 0 <= i < j < s.len() ==> s[i].0 != s[j].0
}

/// `s` with `v` stored under `k`: the first entry with key `k` keeps its
/// place and takes the new value; a fresh key is appended.
pub open spec fn upsert_pairs(
    s: Seq<(Seq<char>, Seq<char>)>,
    k: Seq<char>,
    v: Seq<char>,
) -> Seq<(Seq<char>, Seq<char>)>
    decreases s.len(),
{
    if s.len() == 0 {
        seq![(k, v)]
    } else if s.first().0 == k {
        seq![(k, v)] + s.drop_first()
    } else {
        seq![s.first()] + upsert_pairs(s.drop_first(), k, v)
    }
}

/// `s` with `suffix` appended to the value under `k`; a fresh key is
/// appended with `fresh` as its value.
pub open spec fn append_value_pairs(
    s: Seq<(Seq<char>, Seq<char>)>,
    k: Seq<char>,
    suffix: Seq<char>,
    fresh: Seq<char>,
) -> Seq<(Seq<char>, Seq<char>)>
    decreases s.len(),
{
    if s.len() == 0 {
        seq![(k, fresh)]
    } else if s.first().0 == k {
        seq![(k, s.first().1 + suffix)] + s.drop_first()
    } else {
        seq![s.first()] + append_value_pairs(s.drop_first(), k, suffix, fresh)
    }
}

/// The index of the first entry with key `k`, if any.
fn find_key(v: &Vec<(String, String)>, k: &str) -> (r: Option<usize>)
    ensures
        match r {
            Some(i) => i < v@.len() && (v@[i as int].0)@ == k@ && forall|j: int|
                0 <= j < i ==> (#[trigger] v@[j].0)@ != k@,
            None => forall|j: int| 0 <= j < v@.len() ==> (#[trigger] v@[j].0)@ != k@,
        },
{
    let mut i: usize = 0;
    while i < v.len()
        invariant
            i <= v@.len(),
            forall|j: int| 0 <= j < i ==> (#[trigger] v@[j].0)@ != k@,
        decreases v@.len() - i,
    {
        if str_eq(v[i].0.as_str(), k) {
            return Some(i);
        }
        i += 1;
    }
    None
}

/// Updating the first entry carrying `k` realizes `upsert_pairs`.
proof fn lemma_upsert_at(s: Seq<(Seq<char>, Seq<char>)>, i: int, k: Seq<char>, v: Seq<char>)
    requires
        0 <= i < s.len(),
        s[i].0 == k,
        forall|j: int| 0 <= j < i ==> s[j].0 != k,
    ensures
        upsert_pairs(s, k, v) == s.update(i, (k, v)),
    decreases s.len(),
{
    if i == 0 {
        assert(upsert_pairs(s, k, v) =~= s.update(0, (k, v)));
    } else {
        let s0 = s.drop_first();
        assert forall|j: int| 0 <= j < i - 1 implies s0[j].0 != k by {
            assert(s0[j] == s[j + 1]);
        }
        lemma_upsert_at(s0, i - 1, k, v);
        assert(upsert_pairs(s, k, v) == seq![s.first()] + s0.update(i - 1, (k, v)));
        assert(seq![s.first()] + s0.update(i - 1, (k, v)) =~= s.update(i, (k, v)));
    }
}

/// Appending a fresh key realizes `upsert_pairs`.
proof fn lemma_upsert_fresh(s: Seq<(Seq<char>, Seq<char>)>, k: Seq<char>, v: Seq<char>)
    requires
        forall|j: int| 0 <= j < s.len() ==> s[j].0 != k,
    ensures
        upsert_pairs(s, k, v) == s.push((k, v)),
    decreases s.len(),
{
    if s.len() == 0 {
        assert(upsert_pairs(s, k, v) =~= s.push((k, v)));
    } else {
        let s0 = s.drop_first();
        assert forall|j: int| 0 <= j < s0.len() implies s0[j].0 != k by {
            assert(s0[j] == s[j + 1]);
        }
        lemma_upsert_fresh(s0, k, v);
        assert(seq![s.first()] + s0.push((k, v)) =~= s.push((k, v)));
    }
}

/// Updating the first entry carrying `k` realizes `append_value_pairs`.
proof fn lemma_append_value_at(
    s: Seq<(Seq<char>, Seq<char>)>,
    i: int,
    k: Seq<char>,
    suffix: Seq<char>,
    fresh: Seq<char>,
)
    requires
        0 <= i < s.len(),
        s[i].0 == k,
        forall|j: int| 0 <= j < i ==> s[j].0 != k,
    ensures
        append_value_pairs(s, k, suffix, fresh) == s.update(i, (k, s[i].1 + suffix)),
    decreases s.len(),
{
    if i == 0 {
        assert(append_value_pairs(s, k, suffix, fresh) =~= s.update(0, (k, s[0].1 + suffix)));
    } else {
        let s0 = s.drop_first();
        assert forall|j: int| 0 <= j < i - 1 implies s0[j].0 != k by {
            assert(s0[j] == s[j + 1]);
        }
        lemma_append_value_at(s0, i - 1, k, suffix, fresh);
        assert(seq![s.first()] + s0.update(i - 1, (k, s0[i - 1].1 + suffix)) =~= s.update(
            i,
            (k, s[i].1 + suffix),
        ));
    }
}

/// Appending a fresh key realizes `append_value_pairs`.
proof fn lemma_append_value_fresh(
    s: Seq<(Seq<char>, Seq<char>)>,
    k: Seq<char>,
    suffix: Seq<char>,
    fresh: Seq<char>,
)
    requires
        forall|j: int| 0 <= j < s.len() ==> s[j].0 != k,
    ensures
        append_value_pairs(s, k, suffix, fresh) == s.push((k, fresh)),
    decreases s.len(),
{
    if s.len() == 0 {
        assert(append_value_pairs(s, k, suffix, fresh) =~= s.push((k, fresh)));
    } else {
        let s0 = s.drop_first();
        assert forall|j: int| 0 <= j < s0.len() implies s0[j].0 != k by {
            assert(s0[j] == s[j + 1]);
        }
        lemma_append_value_fresh(s0, k, suffix, fresh);
        assert(seq![s.first()] + s0.push((k, fresh)) =~= s.push((k, fresh)));
    }
}

/// Stores `val` under `key`, overwriting the first entry with that key and
/// keeping its place, or appending a fresh entry.
pub fn upsert(table: &mut Vec<(String, String)>, key: &str, val: String)
    ensures
        pair_views(final(table)@) == upsert_pairs(pair_views(old(table)@), key@, val@),
{
    let ghost oldv = pair_views(table@);
    match find_key(table, key) {
        Some(i) => {
            proof {
                assert forall|j: int| 0 <= j < i implies oldv[j].0 != key@ by {
                    assert(oldv[j] == ((table@[j].0)@, (table@[j].1)@));
                }
                lemma_upsert_at(oldv, i as int, key@, val@);
            }
            table.set(i, (String::from_str(key), val));
            proof {
                assert(pair_views(table@) =~= oldv.update(i as int, (key@, val@)));
            }
        },
        None => {
            proof {
                assert forall|j: int| 0 <= j < oldv.len() implies oldv[j].0 != key@ by {
                    assert(oldv[j] == ((table@[j].0)@, (table@[j].1)@));
                }
                lemma_upsert_fresh(oldv, key@, val@);
            }
            table.push((String::from_str(key), val));
            proof {
                assert(pair_views(table@) =~= oldv.push((key@, val@)));
            }
        },
    }
}

impl Podspec {
    /// Adds one library's link flag: appends ` -l<sys>` to the linker-flags
    /// setting, or creates the setting as `-l<sys>`.
    pub fn add_target(&mut self, target_name: &str)
        ensures
            pair_views(final(self).pod_target_xcconfig@) == append_value_pairs(
                pair_views(old(self).pod_target_xcconfig@),
                "OTHER_LDFLAGS"@,
                " -l"@ + crate::names::sys_name_spec(target_name@),
                "-l"@ + crate::names::sys_name_spec(target_name@),
            ),
            final(self).name == old(self).name,
            final(self).summary == old(self).summary,
            final(self).version == old(self).version,
            final(self).authors == old(self).authors,
            final(self).license == old(self).license,
            final(self).homepage == old(self).homepage,
            final(self).source.http == old(self).source.http,
            final(self).source_files == old(self).source_files,
            final(self).macos.deployment_target == old(self).macos.deployment_target,
            final(self).ios.deployment_target == old(self).ios.deployment_target,
            final(self).vendored_frameworks == old(self).vendored_frameworks,
            final(self).prepare_command == old(self).prepare_command,
            final(self).preserve_paths == old(self).preserve_paths,
    {
        let sys = crate::names::sys_name(target_name);
        let ghost oldv = pair_views(self.pod_target_xcconfig@);
        match find_key(&self.pod_target_xcconfig, "OTHER_LDFLAGS") {
            Some(i) => {
                proof {
                    assert forall|j: int| 0 <= j < i implies oldv[j].0 != "OTHER_LDFLAGS"@ by {
                        assert(oldv[j] == ((self.pod_target_xcconfig@[j].0)@, (
                        self.pod_target_xcconfig@[j].1)@));
                    }
                    lemma_append_value_at(
                        oldv,
                        i as int,
                        "OTHER_LDFLAGS"@,
                        " -l"@ + sys@,
                        "-l"@ + sys@,
                    );
                }
                let appended = concat2(
                    self.pod_target_xcconfig[i].1.as_str(),
                    concat2(" -l", sys.as_str()).as_str(),
                );
                self.pod_target_xcconfig.set(i, (String::from_str("OTHER_LDFLAGS"), appended));
                proof {
                    assert(pair_views(self.pod_target_xcconfig@) =~= oldv.update(
                        i as int,
                        ("OTHER_LDFLAGS"@, oldv[i as int].1 + (" -l"@ + sys@)),
                    ));
                }
            },
            None => {
                proof {
                    assert forall|j: int| 0 <= j < oldv.len() implies oldv[j].0
                        != "OTHER_LDFLAGS"@ by {
                        assert(oldv[j] == ((self.pod_target_xcconfig@[j].0)@, (
                        self.pod_target_xcconfig@[j].1)@));
                    }
                    lemma_append_value_fresh(oldv, "OTHER_LDFLAGS"@, " -l"@ + sys@, "-l"@ + sys@);
                }
                self.pod_target_xcconfig.push(
                    (String::from_str("OTHER_LDFLAGS"), concat2("-l", sys.as_str())),
                );
                proof {
                    assert(pair_views(self.pod_target_xcconfig@) =~= oldv.push(
                        ("OTHER_LDFLAGS"@, "-l"@ + sys@),
                    ));
                }
            },
        }
    }

    /// Switches the bitcode setting off.
    pub fn disable_bitcode(&mut self)
        ensures
            pair_views(final(self).pod_target_xcconfig@) == upsert_pairs(
                pair_views(old(self).pod_target_xcconfig@),
                "ENABLE_BITCODE"@,
                "NO"@,
            ),
            final(self).name == old(self).name,
            final(self).authors == old(self).authors,
            final(self).vendored_frameworks == old(self).vendored_frameworks,
            final(self).source.http == old(self).source.http,
    {
        upsert(&mut self.pod_target_xcconfig, "ENABLE_BITCODE", String::from_str("NO"));
    }
}

/// `s` with every apostrophe backslash-escaped.
pub open spec fn escaped(s: Seq<char>) -> Seq<char>
    decreases s.len(),
{
    if s.len() == 0 {
        Seq::empty()
    } else {
        escaped(s.drop_last()) + (if s.last() == '\'' {
            seq!['\\', '\'']
        } else {
            seq![s.last()]
        })
    }
}

/// Backslash-escapes apostrophes for embedding in a single-quoted string.
pub fn escape_apos(input: &str) -> (r: String)
    ensures
        r@ == escaped(input@),
{
    let len = input.unicode_len();
    let mut out = String::new();
    let mut i: usize = 0;
    while i < len
        invariant
            len == input@.len(),
            i <= len,
            out@ == escaped(input@.subrange(0, i as int)),
        decreases len - i,
    {
        let c = input.get_char(i);
        if c == '\'' {
            push_char(&mut out, '\\');
            push_char(&mut out, '\'');
        } else {
            push_char(&mut out, c);
        }
        proof {
            let pre = input@.subrange(0, i as int);
            let post = input@.subrange(0, i + 1 as int);
            assert(post.drop_last() =~= pre);
            assert(post.last() == input@[i as int]);
            if input@[i as int] == '\'' {
                assert(out@ =~= escaped(pre) + seq!['\\', '\'']);
            } else {
                assert(out@ =~= escaped(pre) + seq![input@[i as int]]);
            }
        }
        i += 1;
    }
    proof {
        assert(input@.subrange(0, len as int) =~= input@);
    }
    out
}

/// One table rendered as indented `'key' => 'value',` lines, apostrophes
/// escaped.
pub open spec fn pairs_text(pairs: Seq<(Seq<char>, Seq<char>)>) -> Seq<char>
    decreases pairs.len(),
{
    if pairs.len() == 0 {
        Seq::empty()
    } else {
        pairs_text(pairs.drop_last()) + "    '"@ + escaped(pairs.last().0) + "' => '"@ + escaped(
            pairs.last().1,
        ) + "',\n"@
    }
}

fn render_pairs(pairs: &Vec<(String, String)>) -> (r: String)
    ensures
        r@ == pairs_text(pair_views(pairs@)),
{
    let mut out = String::new();
    let mut i: usize = 0;
    while i < pairs.len()
        invariant
            i <= pairs@.len(),
            out@ == pairs_text(pair_views(pairs@).subrange(0, i as int)),
        decreases pairs@.len() - i,
    {
        proof {
            let pv = pair_views(pairs@);
            assert(pv[i as int] == ((pairs@[i as int].0)@, (pairs@[i as int].1)@));
            assert(pv.subrange(0, i + 1 as int).drop_last() =~= pv.subrange(0, i as int));
            assert(pv.subrange(0, i + 1 as int).last() == pv[i as int]);
        }
        out.append("    '");
        out.append(escape_apos(pairs[i].0.as_str()).as_str());
        out.append("' => '");
        out.append(escape_apos(pairs[i].1.as_str()).as_str());
        out.append("',\n");
        i += 1;
    }
    proof {
        let pv = pair_views(pairs@);
        assert(pv.subrange(0, pv.len() as int) =~= pv);
    }
    out
}

/// Items joined with a quoted separator, for a single-quoted list.
pub open spec fn join_quoted(items: Seq<Seq<char>>) -> Seq<char>
    decreases items.len(),
{
    if items.len() == 0 {
        Seq::empty()
    } else if items.len() == 1 {
        items.last()
    } else {
        join_quoted(items.drop_last()) + "', '"@ + items.last()
    }
}

fn render_join(items: &Vec<String>) -> (r: String)
    ensures
        r@ == join_quoted(views(items@)),
{
    let mut out = String::new();
    let mut i: usize = 0;
    while i < items.len()
        invariant
            i <= items@.len(),
            out@ == join_quoted(views(items@).subrange(0, i as int)),
        decreases items@.len() - i,
    {
        proof {
            let iv = views(items@);
            assert(iv[i as int] == items@[i as int]@);
            assert(iv.subrange(0, i + 1 as int).drop_last() =~= iv.subrange(0, i as int));
            assert(iv.subrange(0, i + 1 as int).last() == iv[i as int]);
        }
        if i > 0 {
            out.append("', '");
        } else {
            proof {
                assert(out@ =~= Seq::<char>::empty());
            }
        }
        out.append(items[i].as_str());
        i += 1;
    }
    proof {
        let iv = views(items@);
        assert(iv.subrange(0, iv.len() as int) =~= iv);
    }
    out
}

/// The linker-settings block, present only when the table is non-empty.
pub open spec fn xcconfig_segment(p: Podspec) -> Seq<char> {
    if pair_views(p.pod_target_xcconfig@).len() == 0 {
        Seq::empty()
    } else {
        "  spec.pod_target_xcconfig = {\n"@ + pairs_text(pair_views(p.pod_target_xcconfig@))
            + "  }\n"@
    }
}

/// The preserved-paths line, present only when the list is non-empty.
pub open spec fn preserve_segment(p: Podspec) -> Seq<char> {
    if views(p.preserve_paths@).len() == 0 {
        Seq::empty()
    } else {
        "  spec.preserve_paths = ['"@ + join_quoted(views(p.preserve_paths@)) + "']\n"@
    }
}

/// The vendored-artifacts line, present only when the list is non-empty.
pub open spec fn vendored_segment(p: Podspec) -> Seq<char> {
    if views(p.vendored_frameworks@).len() == 0 {
        Seq::empty()
    } else {
        "  spec.macos.vendored_libraries = ['"@ + join_quoted(views(p.vendored_frameworks@))
            + "']\n"@
    }
}

/// The source-files line, present only when the list is non-empty.
pub open spec fn source_files_segment(p: Podspec) -> Seq<char> {
    if views(p.source_files@).len() == 0 {
        Seq::empty()
    } else {
        "  spec.source_files = ['"@ + join_quoted(views(p.source_files@)) + "']\n"@
    }
}

/// The exact textual form of the descriptor.
pub open spec fn podspec_text(p: Podspec) -> Seq<char> {
    "Pod::Spec.new { |spec|\n"@ + "  spec.name = '"@ + escaped(p.name@) + "'\n"@
        + "  spec.version = '"@ + escaped(p.version@) + "'\n"@ + "  spec.summary = '"@ + escaped(
        p.summary@,
    ) + "'\n"@ + "  spec.authors = {\n"@ + pairs_text(pair_views(p.authors@)) + "  }\n"@
        + "  spec.license = { :type => '"@ + escaped(p.license@) + "' }\n"@
        + "  spec.homepage = '"@ + escaped(p.homepage@) + "'\n"@
        + "  spec.macos.deployment_target = '"@ + p.macos.deployment_target@ + "'\n"@
        + "  spec.ios.deployment_target = '"@ + p.ios.deployment_target@ + "'\n"@
        + xcconfig_segment(p) + preserve_segment(p) + vendored_segment(p) + source_files_segment(p)
        + "  spec.source = {\n"@ + "    :http => '"@ + p.source.http@ + "',\n"@ + "  }\n"@ + "}\n"@
}

impl Podspec {
    /// Renders the descriptor in its exact textual form.
    pub fn to_text(&self) -> (r: String)
        ensures
            r@ == podspec_text(*self),
    {
        let mut s = String::from_str("Pod::Spec.new { |spec|\n");
        s.append("  spec.name = '");
        s.append(escape_apos(self.name.as_str()).as_str());
        s.append("'\n");
        s.append("  spec.version = '");
        s.append(escape_apos(self.version.as_str()).as_str());
        s.append("'\n");
        s.append("  spec.summary = '");
        s.append(escape_apos(self.summary.as_str()).as_str());
        s.append("'\n");
        s.append("  spec.authors = {\n");
        s.append(render_pairs(&self.authors).as_str());
        s.append("  }\n");
        s.append("  spec.license = { :type => '");
        s.append(escape_apos(self.license.as_str()).as_str());
        s.append("' }\n");
        s.append("  spec.homepage = '");
        s.append(escape_apos(self.homepage.as_str()).as_str());
        s.append("'\n");
        s.append("  spec.macos.deployment_target = '");
        s.append(self.macos.deployment_target.as_str());
        s.append("'\n");
        s.append("  spec.ios.deployment_target = '");
        s.append(self.ios.deployment_target.as_str());
        s.append("'\n");
        let xc_seg: String = if self.pod_target_xcconfig.len() > 0 {
            let mut t = String::from_str("  spec.pod_target_xcconfig = {\n");
            t.append(render_pairs(&self.pod_target_xcconfig).as_str());
            t.append("  }\n");
            t
        } else {
            String::new()
        };
        proof {
            assert(xc_seg@ =~= xcconfig_segment(*self));
        }
        s.append(xc_seg.as_str());
        let pp_seg: String = if self.preserve_paths.len() > 0 {
            let mut t = String::from_str("  spec.preserve_paths = ['");
            t.append(render_join(&self.preserve_paths).as_str());
            t.append("']\n");
            t
        } else {
            String::new()
        };
        proof {
            assert(pp_seg@ =~= preserve_segment(*self));
        }
        s.append(pp_seg.as_str());
        let vf_seg: String = if self.vendored_frameworks.len() > 0 {
            let mut t = String::from_str("  spec.macos.vendored_libraries = ['");
            t.append(render_join(&self.vendored_frameworks).as_str());
            t.append("']\n");
            t
        } else {
            String::new()
        };
        proof {
            assert(vf_seg@ =~= vendored_segment(*self));
        }
        s.append(vf_seg.as_str());
        let sf_seg: String = if self.source_files.len() > 0 {
            let mut t = String::from_str("  spec.source_files = ['");
            t.append(render_join(&self.source_files).as_str());
            t.append("']\n");
            t
        } else {
            String::new()
        };
        proof {
            assert(sf_seg@ =~= source_files_segment(*self));
        }
        s.append(sf_seg.as_str());
        s.append("  spec.source = {\n");
        s.append("    :http => '");
        s.append(self.source.http.as_str());
        s.append("',\n");
        s.append("  }\n");
        s.append("}\n");
        proof {
            assert(s@ =~= podspec_text(*self));
        }
        s
    }
}

/// What the author-line pattern `^\s*(.+?)(?: <(.+?)>)?\s*$` captures on a
/// line: the name group and the address group, each absent when it did not
/// participate; `None` when the line does not match.
pub uninterp spec fn author_capture(line: Seq<char>) -> Option<(Option<Seq<char>>, Option<Seq<char>>)>;

/// Relies on `regex::Regex::captures` with the author-line pattern
/// `^\s*(.+?)(?: <(.+?)>)?\s*$`: the captures depend on the line alone.
#[verifier::external_body]
fn capture_author(line: &str) -> (r: Option<(Option<String>, Option<String>)>)
    ensures
        match r {
            Some(c) => author_capture(line@) matches Some(s) && opt_view(c.0) == s.0 && opt_view(
                c.1,
            ) == s.1,
            None => author_capture(line@) is None,
        },
{
    let re = regex::Regex::new(r"^\s*(.+?)(?: <(.+?)>)?\s*$").unwrap();
    re.captures(line).map(
        |cap| {
            (
                cap.get(1).map(|x| x.as_str().to_string()),
                cap.get(2).map(|x| x.as_str().to_string()),
            )
        },
    )
}

/// The view of an optional string.
pub open spec fn opt_view(o: Option<String>) -> Option<Seq<char>> {
    match o {
        Some(s) => Some(s@),
        None => None,
    }
}

/// What the repository pattern `^https://github\.com/(.*?)/(.*?)(?:\.git)?/?$`
/// captures on a URL: the owner and repository groups; `None` when the URL
/// does not match.
pub uninterp spec fn github_capture(url: Seq<char>) -> Option<(Option<Seq<char>>, Option<Seq<char>>)>;

/// Relies on `regex::Regex::captures` with the repository pattern
/// `^https://github\.com/(.*?)/(.*?)(?:\.git)?/?$`: the captures depend on
/// the URL alone.
#[verifier::external_body]
fn capture_github_repo(url: &str) -> (r: Option<(Option<String>, Option<String>)>)
    ensures
        match r {
            Some(c) => github_capture(url@) matches Some(s) && opt_view(c.0) == s.0 && opt_view(
                c.1,
            ) == s.1,
            None => github_capture(url@) is None,
        },
{
    let re = regex::Regex::new(r"^https://github\.com/(.*?)/(.*?)(?:\.git)?/?$").unwrap();
    re.captures(url).map(
        |cap| {
            (
                cap.get(1).map(|x| x.as_str().to_string()),
                cap.get(2).map(|x| x.as_str().to_string()),
            )
        },
    )
}

/// One parsed author line folded into the table: a matching line stores the
/// address under the name (absent groups read as empty); a line that does
/// not match is skipped.
pub open spec fn fold_author(
    table: Seq<(Seq<char>, Seq<char>)>,
    line: Seq<char>,
) -> Seq<(Seq<char>, Seq<char>)> {
    match author_capture(line) {
        Some(c) => upsert_pairs(table, or_empty(c.0), or_empty(c.1)),
        None => table,
    }
}

pub open spec fn or_empty(o: Option<Seq<char>>) -> Seq<char> {
    match o {
        Some(s) => s,
        None => Seq::empty(),
    }
}

/// The author table derived from the manifest's author lines, in order.
pub open spec fn authors_from(lines: Seq<Seq<char>>) -> Seq<(Seq<char>, Seq<char>)>
    decreases lines.len(),
{
    if lines.len() == 0 {
        Seq::empty()
    } else {
        fold_author(authors_from(lines.drop_last()), lines.last())
    }
}

/// The download URL derived from the repository field: the release-archive
/// template when the URL names a repository on the expected host, otherwise
/// a placeholder.
pub open spec fn source_url(repo: Option<Seq<char>>) -> Seq<char> {
    match repo {
        Some(u) => match github_capture(u) {
            Some(c) => match (c.0, c.1) {
                (Some(owner), Some(name)) => "https://github.com/"@ + owner + "/"@ + name
                    + "/releases/download/v#{spec.version}/cargo-pod.tgz"@,
                _ => "UNKNOWN"@,
            },
            None => "UNKNOWN"@,
        },
        None => "UNKNOWN"@,
    }
}

pub open spec fn or_unknown(o: Option<Seq<char>>) -> Seq<char> {
    match o {
        Some(s) => s,
        None => "UNKNOWN"@,
    }
}

impl Podspec {
    /// Derives the descriptor from a package's manifest data: the name
    /// camel-cased, authors parsed line by line (with a placeholder when
    /// none parse), the download URL derived from the repository field, the
    /// default deployment targets, and the umbrella container among the
    /// vendored artifacts.
    pub fn from_package(
        name: &str,
        description: Option<String>,
        version: &str,
        author_lines: &Vec<String>,
        license: Option<String>,
        repository: Option<String>,
    ) -> (r: Podspec)
        ensures
            r.name@ == camel_of(name@),
            r.summary@ == or_unknown(opt_view(description)),
            r.version@ == version@,
            pair_views(r.authors@) == (if authors_from(views(author_lines@)).len() == 0 {
                seq![("Unknown"@, "<EMAIL>"@)]
            } else {
                authors_from(views(author_lines@))
            }),
            r.license@ == or_unknown(opt_view(license)),
            r.homepage@ == or_unknown(opt_view(repository)),
            r.source.http@ == source_url(opt_view(repository)),
            views(r.source_files@) == seq!["src/**/*"@],
            r.macos.deployment_target@ == "10.10"@,
            r.ios.deployment_target@ == "8.0"@,
            views(r.vendored_frameworks@) == seq!["dist/"@ + camel_of(name@) + ".xcframework"@],
            pair_views(r.pod_target_xcconfig@) == Seq::<(Seq<char>, Seq<char>)>::empty(),
            r.prepare_command is None,
            views(r.preserve_paths@) == Seq::<Seq<char>>::empty(),
    {
        let mut authors: Vec<(String, String)> = Vec::new();
        proof {
            assert(pair_views(authors@) =~= Seq::<(Seq<char>, Seq<char>)>::empty());
        }
        let mut i: usize = 0;
        while i < author_lines.len()
            invariant
                i <= author_lines@.len(),
                pair_views(authors@) == authors_from(views(author_lines@).subrange(0, i as int)),
            decreases author_lines@.len() - i,
        {
            proof {
                let lv = views(author_lines@);
                assert(lv[i as int] == author_lines@[i as int]@);
                assert(lv.subrange(0, i + 1 as int).drop_last() =~= lv.subrange(0, i as int));
                assert(lv.subrange(0, i + 1 as int).last() == lv[i as int]);
            }
            match capture_author(author_lines[i].as_str()) {
                Some(c) => {
                    let aname = match c.0 {
                        Some(s) => s,
                        None => String::new(),
                    };
                    let email = match c.1 {
                        Some(s) => s,
                        None => String::new(),
                    };
                    upsert(&mut authors, aname.as_str(), email);
                },
                None => {},
            }
            i += 1;
        }
        proof {
            let lv = views(author_lines@);
            assert(lv.subrange(0, lv.len() as int) =~= lv);
        }
        if authors.len() == 0 {
            proof {
                assert(pair_views(authors@).len() == 0);
            }
            upsert(&mut authors, "Unknown", String::from_str("<EMAIL>"));
            proof {
                assert(pair_views(authors@) =~= seq![("Unknown"@, "<EMAIL>"@)]);
            }
        }
        let source_http: String = match &repository {
            Some(repo) => match capture_github_repo(repo.as_str()) {
                Some(c) => match (c.0, c.1) {
                    (Some(owner), Some(rname)) => crate::strutil::concat5(
                        "https://github.com/",
                        owner.as_str(),
                        "/",
                        rname.as_str(),
                        "/releases/download/v#{spec.version}/cargo-pod.tgz",
                    ),
                    _ => String::from_str("UNKNOWN"),
                },
                None => String::from_str("UNKNOWN"),
            },
            None => String::from_str("UNKNOWN"),
        };
        let camel = crate::names::to_camel_case(name);
        let mut source_files: Vec<String> = Vec::new();
        source_files.push(String::from_str("src/**/*"));
        proof {
            assert(views(source_files@) =~= seq!["src/**/*"@]);
        }
        let mut vendored: Vec<String> = Vec::new();
        vendored.push(
            crate::strutil::concat3("dist/", camel.as_str(), ".xcframework"),
        );
        proof {
            assert(views(vendored@) =~= seq!["dist/"@ + camel_of(name@) + ".xcframework"@]);
        }
        let summary = match description {
            Some(d) => d,
            None => String::from_str("UNKNOWN"),
        };
        let lic = match license {
            Some(l) => l,
            None => String::from_str("UNKNOWN"),
        };
        let homepage = match repository {
            Some(u) => u,
            None => String::from_str("UNKNOWN"),
        };
        let r = Podspec {
            name: camel,
            summary,
            version: String::from_str(version),
            authors,
            license: lic,
            homepage,
            source: Source { http: source_http },
            source_files,
            macos: OsSubspec { deployment_target: String::from_str("10.10") },
            ios: OsSubspec { deployment_target: String::from_str("8.0") },
            vendored_frameworks: vendored,
            pod_target_xcconfig: Vec::new(),
            prepare_command: None,
            preserve_paths: Vec::new(),
        };
        proof {
            assert(pair_views(r.pod_target_xcconfig@) =~= Seq::<(Seq<char>, Seq<char>)>::empty());
            assert(views(r.preserve_paths@) =~= Seq::<Seq<char>>::empty());
        }
        r
    }
}

} // verus!
