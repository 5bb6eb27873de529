//! The decisions of the release flow: validating its inputs, reading the
//! repository's short name out of its URL, picking the release that carries a
//! tag, and shaping the request strings. The network calls themselves are
//! performed by the driver, which hands their results back as plain values.

use vstd::prelude::*;

use crate::error::PodError;
use crate::strutil::{concat2, concat3, is_prefix};

verus! {

/// One release as the hosting service reports it.
pub struct ReleaseInfo {
    pub url: String,
    pub upload_url: String,
    pub id: u32,
    pub tag_name: String,
}

/// The release flow needs an access token and a tag name before anything
/// else happens.
pub fn publish_preflight(token: &Option<String>, tag: &Option<String>) -> (r: Result<(), PodError>)
    ensures
        match r {
            Ok(_) => token is Some && tag is Some,
            Err(e) => (token is None && e == PodError::MissingToken) || (token is Some
                && tag is None && e == PodError::MissingTag),
        },
{
    if token.is_none() {
        return Err(PodError::MissingToken);
    }
    if tag.is_none() {
        return Err(PodError::MissingTag);
    }
    Ok(())
}

/// The index of the first occurrence of `c` in `s`.
pub open spec fn first_index_of(s: Seq<char>, c: char) -> Option<int>
    decreases s.len(),
{
    if s.len() == 0 {
        None
    } else if s.first() == c {
        Some(0)
    } else {
        match first_index_of(s.drop_first(), c) {
            Some(i) => Some(i + 1),
            None => None,
        }
    }
}

/// The first occurrence is a real occurrence, and nothing before it is one.
pub proof fn lemma_first_index_of(s: Seq<char>, c: char)
    ensures
        match first_index_of(s, c) {
            Some(i) => 0 <= i < s.len() && s[i] == c && forall|j: int| 0 <= j < i ==> s[j] != c,
            None => forall|j: int| 0 <= j < s.len() ==> s[j] != c,
        },
    decreases s.len(),
{
    if s.len() > 0 && s.first() != c {
        let s0 = s.drop_first();
        lemma_first_index_of(s0, c);
        match first_index_of(s0, c) {
            Some(i) => {
                assert(s0[i] == s[i + 1]);
                assert forall|j: int| 0 <= j < i + 1 implies s[j] != c by {
                    if j > 0 {
                        assert(s0[j - 1] == s[j]);
                    }
                }
            },
            None => {
                assert forall|j: int| 0 <= j < s.len() implies s[j] != c by {
                    if j > 0 {
                        assert(s0[j - 1] == s[j]);
                    }
                }
            },
        }
    }
}

/// Finds the first occurrence of `c`.
fn find_char(s: &str, c: char) -> (r: Option<usize>)
    ensures
        match r {
            Some(i) => first_index_of(s@, c) == Some(i as int),
            None => first_index_of(s@, c) is None,
        },
{
    let len = s.unicode_len();
    let mut i: usize = 0;
    while i < len
        invariant
            len == s@.len(),
            i <= len,
            forall|j: int| 0 <= j < i ==> s@[j] != c,
        decreases len - i,
    {
        if s.get_char(i) == c {
            proof {
                lemma_first_index_of(s@, c);
                match first_index_of(s@, c) {
                    Some(k) => {
                        if k < i as int {
                            assert(s@[k] != c);
                        }
                        if k > i as int {
                            assert(s@[i as int] != c);
                        }
                    },
                    None => {
                        assert(s@[i as int] != c);
                    },
                }
            }
            return Some(i);
        }
        i += 1;
    }
    proof {
        lemma_first_index_of(s@, c);
        if first_index_of(s@, c) is Some {
            let k = first_index_of(s@, c)->0;
            assert(s@[k] != c);
        }
    }
    None
}

/// The repository's `owner/name` tail, before dropping the `.git` suffix:
/// after the first colon of a `git@github…` URL, or after the host prefix of
/// an `https://github.com/…` URL; absent otherwise, or when the former has
/// no colon.
pub open spec fn repo_tail_full(u: Seq<char>) -> Option<Seq<char>> {
    if is_prefix("git@github"@, u) {
        match first_index_of(u, ':') {
            Some(i) => Some(u.subrange(i + 1, u.len() as int)),
            None => None,
        }
    } else if is_prefix("https://github.com/"@, u) {
        Some(u.subrange("https://github.com/"@.len() as int, u.len() as int))
    } else {
        None
    }
}

/// Reads the repository's short name out of its URL, dropping the four
/// trailing characters of the `.git` suffix; the error names the URL when it
/// has neither expected shape or its tail is shorter than the suffix.
pub fn repo_tail(repo_url: &str) -> (r: Result<String, PodError>)
    ensures
        match r {
            Ok(h) => repo_tail_full(repo_url@) matches Some(t) && t.len() >= 4 && h@ == t.subrange(
                0,
                t.len() - 4,
            ),
            Err(e) => (e matches PodError::BadRepoUrl { url } && url@ == repo_url@) && (
            repo_tail_full(repo_url@) is None || repo_tail_full(repo_url@)->0.len() < 4),
        },
{
    let len = repo_url.unicode_len();
    let tail: Option<String> = if crate::strutil::has_prefix(repo_url, "git@github") {
        match find_char(repo_url, ':') {
            Some(i) => {
                proof {
                    lemma_first_index_of(repo_url@, ':');
                }
                Some(String::from_str(repo_url.substring_char(i + 1, len)))
            },
            None => None,
        }
    } else if crate::strutil::has_prefix(repo_url, "https://github.com/") {
        let plen = "https://github.com/".unicode_len();
        Some(String::from_str(repo_url.substring_char(plen, len)))
    } else {
        None
    };
    match tail {
        Some(t) => {
            let tlen = t.as_str().unicode_len();
            if tlen >= 4 {
                Ok(String::from_str(t.as_str().substring_char(0, tlen - 4)))
            } else {
                Err(PodError::BadRepoUrl { url: String::from_str(repo_url) })
            }
        },
        None => Err(PodError::BadRepoUrl { url: String::from_str(repo_url) }),
    }
}

/// The identifier of the first release carrying `tag`; zero when none does.
pub open spec fn first_release_id(rs: Seq<ReleaseInfo>, tag: Seq<char>) -> u32
    decreases rs.len(),
{
    if rs.len() == 0 {
        0u32
    } else if rs.first().tag_name@ == tag {
        rs.first().id
    } else {
        first_release_id(rs.drop_first(), tag)
    }
}

/// A prefix without the tag passes the search on.
proof fn lemma_first_release_id_at(rs: Seq<ReleaseInfo>, tag: Seq<char>, i: int)
    requires
        0 <= i < rs.len(),
        rs[i].tag_name@ == tag,
        forall|j: int| 0 <= j < i ==> (#[trigger] rs[j]).tag_name@ != tag,
    ensures
        first_release_id(rs, tag) == rs[i].id,
    decreases rs.len(),
{
    if i > 0 {
        let s0 = rs.drop_first();
        assert forall|j: int| 0 <= j < i - 1 implies (#[trigger] s0[j]).tag_name@ != tag by {
            assert(s0[j] == rs[j + 1]);
        }
        lemma_first_release_id_at(s0, tag, i - 1);
    }
}

proof fn lemma_first_release_id_none(rs: Seq<ReleaseInfo>, tag: Seq<char>)
    requires
        forall|j: int| 0 <= j < rs.len() ==> (#[trigger] rs[j]).tag_name@ != tag,
    ensures
        first_release_id(rs, tag) == 0u32,
    decreases rs.len(),
{
    if rs.len() > 0 {
        let s0 = rs.drop_first();
        assert forall|j: int| 0 <= j < s0.len() implies (#[trigger] s0[j]).tag_name@ != tag by {
            assert(s0[j] == rs[j + 1]);
        }
        lemma_first_release_id_none(s0, tag);
    }
}

/// The identifier of the first release carrying `tag`, zero when none does:
/// the flow deletes or refuses an existing release by this identifier.
pub fn select_release(releases: &Vec<ReleaseInfo>, tag: &str) -> (r: u32)
    ensures
        r == first_release_id(releases@, tag@),
{
    let mut i: usize = 0;
    while i < releases.len()
        invariant
            i <= releases@.len(),
            forall|j: int| 0 <= j < i ==> (#[trigger] releases@[j]).tag_name@ != tag@,
        decreases releases@.len() - i,
    {
        if crate::strutil::str_eq(releases[i].tag_name.as_str(), tag) {
            proof {
                lemma_first_release_id_at(releases@, tag@, i as int);
            }
            return releases[i].id;
        }
        i += 1;
    }
    proof {
        lemma_first_release_id_none(releases@, tag@);
    }
    0
}

/// The upload URL's usable head: everything before its first brace, where
/// the service's URL template begins; absent when there is no brace.
pub fn upload_url_head(upload_url: &str) -> (r: Option<String>)
    ensures
        match r {
            Some(h) => first_index_of(upload_url@, '{') matches Some(i) && h@
                == upload_url@.subrange(0, i),
            None => first_index_of(upload_url@, '{') is None,
        },
{
    let len = upload_url.unicode_len();
    match find_char(upload_url, '{') {
        Some(i) => {
            proof {
                lemma_first_index_of(upload_url@, '{');
            }
            Some(String::from_str(upload_url.substring_char(0, i)))
        },
        None => None,
    }
}

/// The authorization header's value for a token.
pub fn auth_header_value(token: &str) -> (r: String)
    ensures
        r@ == "token "@ + token@,
{
    concat2("token ", token)
}

/// The decimal digits of `n`.
pub open spec fn dec_digits(n: nat) -> Seq<char>
    decreases n,
{
    if n < 10 {
        seq![digit_char(n)]
    } else {
        dec_digits(n / 10) + seq![digit_char(n % 10)]
    }
}

pub open spec fn digit_char(d: nat) -> char {
    if d == 0 {
        '0'
    } else if d == 1 {
        '1'
    } else if d == 2 {
        '2'
    } else if d == 3 {
        '3'
    } else if d == 4 {
        '4'
    } else if d == 5 {
        '5'
    } else if d == 6 {
        '6'
    } else if d == 7 {
        '7'
    } else if d == 8 {
        '8'
    } else {
        '9'
    }
}

/// Renders an identifier in decimal.
pub fn u32_string(n: u32) -> (r: String)
    ensures
        r@ == dec_digits(n as nat),
    decreases n,
{
    let d = n % 10;
    let c: char = match d {
        0 => '0',
        1 => '1',
        2 => '2',
        3 => '3',
        4 => '4',
        5 => '5',
        6 => '6',
        7 => '7',
        8 => '8',
        _ => '9',
    };
    proof {
        assert(c == digit_char((n % 10) as nat));
    }
    if n < 10 {
        let mut s = String::new();
        crate::strutil::push_char(&mut s, c);
        proof {
            assert(s@ =~= seq![digit_char(n as nat)]);
        }
        s
    } else {
        let mut s = u32_string(n / 10);
        crate::strutil::push_char(&mut s, c);
        proof {
            assert(dec_digits((n / 10) as nat).push(digit_char((n % 10) as nat)) =~= dec_digits(
                n as nat,
            ));
        }
        s
    }
}

/// The releases collection URL of a repository.
pub fn releases_url(tail: &str) -> (r: String)
    ensures
        r@ == "https://api.github.com/repos/"@ + tail@ + "/releases"@,
{
    concat3("https://api.github.com/repos/", tail, "/releases")
}

/// The URL of one release of a repository.
pub fn release_url(tail: &str, id: u32) -> (r: String)
    ensures
        r@ == "https://api.github.com/repos/"@ + tail@ + "/releases/"@ + dec_digits(id as nat),
{
    let base = concat3("https://api.github.com/repos/", tail, "/releases/");
    concat2(base.as_str(), u32_string(id).as_str())
}

} // verus!
