//! Path and token decomposition on plain strings: slash-separated path
//! segments, whitespace-separated tag tokens, filename extensions, and the
//! normal components of a file's containing directory.

use vstd::prelude::*;
use vstd::string::*;

verus! {

/// Whether `c` is a blank that separates tag tokens.
pub open spec fn is_ws(c: char) -> bool {
    c == ' ' || c == '\t' || c == '\n' || c == '\r'
}

/// The separator class used when splitting: path segments split at `/`,
/// tag tokens split at blanks.
pub open spec fn sep_pred(by_slash: bool) -> spec_fn(char) -> bool {
    if by_slash {
        (|c: char| c == '/')
    } else {
        (|c: char| is_ws(c))
    }
}

/// The length of the leading run of non-separator characters of `s`.
pub open spec fn token_head_len(s: Seq<char>, sep: spec_fn(char) -> bool) -> int
    decreases s.len(),
{
    if s.len() == 0 || sep(s[0]) {
        0
    } else {
        1 + token_head_len(s.skip(1), sep)
    }
}

pub proof fn lemma_token_head_len_bounds(s: Seq<char>, sep: spec_fn(char) -> bool)
    ensures
        0 <= token_head_len(s, sep) <= s.len(),
        s.len() > 0 && !sep(s[0]) ==> token_head_len(s, sep) >= 1,
    decreases s.len(),
{
    if s.len() == 0 || sep(s[0]) {
    } else {
        lemma_token_head_len_bounds(s.skip(1), sep);
    }
}

/// The maximal non-empty runs of non-separator characters of `s`, in order.
pub open spec fn tokens(s: Seq<char>, sep: spec_fn(char) -> bool) -> Seq<Seq<char>>
    decreases s.len(),
    via tokens_decreases
{
    if s.len() == 0 {
        Seq::empty()
    } else if sep(s[0]) {
        tokens(s.skip(1), sep)
    } else {
        seq![s.take(token_head_len(s, sep))] + tokens(s.skip(token_head_len(s, sep)), sep)
    }
}

#[via_fn]
proof fn tokens_decreases(s: Seq<char>, sep: spec_fn(char) -> bool) {
    lemma_token_head_len_bounds(s, sep);
}

/// Dropping one leading separator leaves the tokens unchanged.
pub proof fn lemma_tokens_skip_sep(s: Seq<char>, sep: spec_fn(char) -> bool, i: int)
    requires
        0 <= i < s.len(),
        sep(s[i]),
    ensures
        tokens(s.skip(i), sep) == tokens(s.skip(i + 1), sep),
{
    assert(s.skip(i).skip(1) =~= s.skip(i + 1));
}

/// If the characters from the start of `s` up to `k` are non-separators and
/// position `k` (if inside `s`) holds a separator, then the leading token
/// run is exactly `k` characters long.
pub proof fn lemma_token_head_len_is(s: Seq<char>, sep: spec_fn(char) -> bool, k: int)
    requires
        0 <= k <= s.len(),
        forall|m: int| 0 <= m < k ==> !sep(s[m]),
        k < s.len() ==> sep(s[k]),
    ensures
        token_head_len(s, sep) == k,
    decreases k,
{
    if k == 0 {
    } else {
        assert(!sep(s[0]));
        let t = s.skip(1);
        assert forall|m: int| 0 <= m < k - 1 implies !sep(t[m]) by {
            assert(t[m] == s[m + 1]);
        }
        assert(k - 1 < t.len() ==> sep(t[k - 1]));
        lemma_token_head_len_is(t, sep, k - 1);
    }
}

/// At the start of a token run of length `k`, the tokens are that run
/// followed by the tokens of the rest.
pub proof fn lemma_tokens_at_token_start(s: Seq<char>, sep: spec_fn(char) -> bool, i: int, j: int)
    requires
        0 <= i < j <= s.len(),
        forall|m: int| i <= m < j ==> !sep(s[m]),
        j < s.len() ==> sep(s[j]),
    ensures
        tokens(s.skip(i), sep) == seq![s.subrange(i, j)] + tokens(s.skip(j), sep),
{
    let t = s.skip(i);
    assert forall|m: int| 0 <= m < j - i implies !sep(t[m]) by {
        assert(t[m] == s[m + i]);
    }
    assert(j - i < t.len() ==> sep(t[j - i]));
    lemma_token_head_len_is(t, sep, j - i);
    assert(t.len() > 0 && !sep(t[0]));
    assert(tokens(t, sep) == seq![t.take(j - i)] + tokens(t.skip(j - i), sep));
    assert(t.take(j - i) =~= s.subrange(i, j));
    assert(t.skip(j - i) =~= s.skip(j));
}

fn is_sep_char(c: char, by_slash: bool) -> (r: bool)
    ensures
        r == sep_pred(by_slash)(c),
{
    if by_slash {
        c == '/'
    } else {
        c == ' ' || c == '\t' || c == '\n' || c == '\r'
    }
}

/// Split `s` into its maximal non-empty runs of non-separator characters.
fn split_by(s: &str, by_slash: bool) -> (r: Vec<String>)
    ensures
        r.deep_view() == tokens(s@, sep_pred(by_slash)),
{
    let ghost sep = sep_pred(by_slash);
    let n = s.unicode_len();
    let mut acc: Vec<String> = Vec::new();
    let mut i: usize = 0;
    proof {
        assert(s@.skip(0) =~= s@);
        assert(acc.deep_view() + tokens(s@, sep) =~~= tokens(s@, sep));
    }
    while i < n
        invariant
            n == s@.len(),
            i <= n,
            acc.deep_view() + tokens(s@.skip(i as int), sep) == tokens(s@, sep),
            sep == sep_pred(by_slash),
        decreases n - i,
    {
        let c = s.get_char(i);
        if is_sep_char(c, by_slash) {
            proof {
                lemma_tokens_skip_sep(s@, sep, i as int);
            }
            i = i + 1;
        } else {
            let start = i;
            let mut j = i + 1;
            loop
                invariant
                    n == s@.len(),
                    start < j <= n,
                    start == i,
                    forall|m: int| start <= m < j ==> !sep(s@[m]),
                    sep == sep_pred(by_slash),
                ensures
                    start < j <= n,
                    forall|m: int| start <= m < j ==> !sep(s@[m]),
                    j == n || sep(s@[j as int]),
                decreases n - j,
            {
                if j == n {
                    break ;
                }
                let c2 = s.get_char(j);
                if is_sep_char(c2, by_slash) {
                    break ;
                }
                j = j + 1;
            }
            let tok = s.substring_char(start, j);
            let ghost pre = acc.deep_view();
            acc.push(tok.to_owned());
            proof {
                lemma_tokens_at_token_start(s@, sep, start as int, j as int);
                assert(acc.deep_view() =~~= pre.push(s@.subrange(start as int, j as int)));
                assert(acc.deep_view() + tokens(s@.skip(j as int), sep) =~~= tokens(s@, sep));
            }
            i = j;
        }
    }
    proof {
        assert(s@.skip(n as int) =~= Seq::<char>::empty());
        assert(acc.deep_view() =~~= tokens(s@, sep));
    }
    acc
}

/// Split `s` at blanks into its non-empty tokens, in order.
pub fn split_whitespace_tokens(s: &str) -> (r: Vec<String>)
    ensures
        r.deep_view() == tokens(s@, sep_pred(false)),
{
    split_by(s, false)
}

/// Whether `p` is a prefix of `s`.
pub open spec fn has_prefix(s: Seq<char>, p: Seq<char>) -> bool {
    s.len() >= p.len() && s.take(p.len() as int) == p
}

/// Whether `s` starts with `p`.
pub fn str_starts_with(s: &str, p: &str) -> (r: bool)
    ensures
        r == has_prefix(s@, p@),
{
    let n = s.unicode_len();
    let m = p.unicode_len();
    if n < m {
        return false;
    }
    let mut i: usize = 0;
    while i < m
        invariant
            m <= n,
            n == s@.len(),
            m == p@.len(),
            i <= m,
            forall|k: int| 0 <= k < i ==> s@[k] == p@[k],
        decreases m - i,
    {
        if s.get_char(i) != p.get_char(i) {
            assert(s@.take(m as int)[i as int] != p@[i as int]);
            return false;
        }
        i = i + 1;
    }
    assert(s@.take(m as int) =~= p@);
    true
}

/// The index of the last occurrence of `c` in `s`, or -1 if `c` does not
/// occur.
pub open spec fn last_index_of(s: Seq<char>, c: char) -> int
    decreases s.len(),
{
    if s.len() == 0 {
        -1
    } else if s[s.len() - 1] == c {
        s.len() - 1
    } else {
        last_index_of(s.drop_last(), c)
    }
}

/// A position that holds `c` with no later occurrence of `c` is the last
/// occurrence; -1 with no occurrence at all means `c` never occurs.
pub proof fn lemma_last_index_of_is(s: Seq<char>, c: char, k: int)
    requires
        -1 <= k < s.len(),
        k >= 0 ==> s[k] == c,
        forall|m: int| k < m < s.len() ==> s[m] != c,
    ensures
        last_index_of(s, c) == k,
    decreases s.len(),
{
    if s.len() == 0 {
    } else if s[s.len() - 1] == c {
        assert(k == s.len() - 1);
    } else {
        assert(k < s.len() - 1);
        let t = s.drop_last();
        assert forall|m: int| k < m < t.len() implies t[m] != c by {
            assert(t[m] == s[m]);
        }
        lemma_last_index_of_is(t, c, k);
    }
}

/// Find the last occurrence of `c` in `s`.
fn rfind_char(s: &str, c: char) -> (r: Option<usize>)
    ensures
        match r {
            Some(k) => k == last_index_of(s@, c) && k < s@.len(),
            None => last_index_of(s@, c) == -1,
        },
{
    let n = s.unicode_len();
    let mut j = n;
    loop
        invariant
            n == s@.len(),
            j <= n,
            forall|m: int| j <= m < n ==> s@[m] != c,
        ensures
            j <= n,
            forall|m: int| j <= m < n ==> s@[m] != c,
            j > 0 ==> s@[j - 1] == c,
        decreases j,
    {
        if j == 0 {
            break ;
        }
        let c2 = s.get_char(j - 1);
        if c2 == c {
            break ;
        }
        j = j - 1;
    }
    if j == 0 {
        proof {
            lemma_last_index_of_is(s@, c, -1);
        }
        None
    } else {
        proof {
            lemma_last_index_of_is(s@, c, j - 1);
        }
        Some(j - 1)
    }
}

/// The part of `path` before its last slash; empty if `path` has no slash.
pub open spec fn parent_of(path: Seq<char>) -> Seq<char> {
    let k = last_index_of(path, '/');
    if k >= 0 {
        path.take(k)
    } else {
        Seq::empty()
    }
}

/// The part of `path` after its last slash: the filename, possibly empty.
pub open spec fn filename_of(path: Seq<char>) -> Seq<char> {
    path.skip(last_index_of(path, '/') + 1)
}

/// The filename extension of `path`: what follows the last dot of the
/// filename, provided that dot is not the filename's first character.
pub open spec fn extension_of(path: Seq<char>) -> Option<Seq<char>> {
    let f = filename_of(path);
    let d = last_index_of(f, '.');
    if d > 0 {
        Some(f.skip(d + 1))
    } else {
        None
    }
}

/// A directory component that names an actual folder: non-empty and
/// neither the current-directory nor the parent-directory reference.
pub open spec fn is_normal_component(c: Seq<char>) -> bool {
    c.len() > 0 && c != seq!['.'] && c != seq!['.', '.']
}

pub open spec fn normal_pred() -> spec_fn(Seq<char>) -> bool {
    |c: Seq<char>| is_normal_component(c)
}

/// The normal components of the directory that contains `path`: the
/// slash-separated segments before the last slash, with empty, `.` and
/// `..` segments dropped.
pub open spec fn parent_components_of(path: Seq<char>) -> Seq<Seq<char>> {
    tokens(parent_of(path), sep_pred(true)).filter(normal_pred())
}

fn is_normal_component_exec(c: &str) -> (r: bool)
    ensures
        r == is_normal_component(c@),
{
    let n = c.unicode_len();
    if n == 0 {
        proof {
            assert(c@ =~= Seq::<char>::empty());
        }
        false
    } else if n == 1 {
        let r = c.get_char(0) != '.';
        proof {
            if c@[0] == '.' {
                assert(c@ =~= seq!['.']);
            } else {
                assert(c@ != seq!['.']);
                assert(c@.len() != 2);
            }
        }
        r
    } else if n == 2 {
        let r = !(c.get_char(0) == '.' && c.get_char(1) == '.');
        proof {
            if c@[0] == '.' && c@[1] == '.' {
                assert(c@ =~= seq!['.', '.']);
            } else {
                assert(c@ != seq!['.', '.']);
                assert(c@.len() != 1);
            }
        }
        r
    } else {
        proof {
            assert(c@.len() != 1 && c@.len() != 2);
        }
        true
    }
}

/// The filename extension of `path`, if it has one.
pub fn file_extension(path: &str) -> (r: Option<String>)
    ensures
        r.deep_view() == extension_of(path@),
{
    let n = path.unicode_len();
    let fname: &str = match rfind_char(path, '/') {
        Some(k) => path.substring_char(k + 1, n),
        None => path,
    };
    proof {
        assert(fname@ =~= filename_of(path@));
    }
    let m = fname.unicode_len();
    match rfind_char(fname, '.') {
        Some(d) if d > 0 => {
            let ext = fname.substring_char(d + 1, m);
            proof {
                assert(ext@ =~= filename_of(path@).skip(last_index_of(filename_of(path@), '.')
                    + 1));
            }
            Some(ext.to_owned())
        },
        _ => None,
    }
}

/// The normal components of the directory that contains `path`, in order.
pub fn parent_components(path: &str) -> (r: Vec<String>)
    ensures
        r.deep_view() == parent_components_of(path@),
{
    let parent: &str = match rfind_char(path, '/') {
        Some(k) => path.substring_char(0, k),
        None => "",
    };
    proof {
        reveal_strlit("");
        assert(parent@ =~= parent_of(path@));
    }
    let segs = split_by(parent, true);
    let ghost all = segs.deep_view();
    let mut out: Vec<String> = Vec::new();
    let mut i: usize = 0;
    while i < segs.len()
        invariant
            all == segs.deep_view(),
            i <= segs.len(),
            all.len() == segs.len(),
            out.deep_view() == all.take(i as int).filter(normal_pred()),
        decreases segs.len() - i,
    {
        proof {
            reveal(Seq::filter);
            assert(all.take(i as int + 1).drop_last() =~~= all.take(i as int));
            assert(all.take(i as int + 1).last() == all[i as int]);
        }
        let keep = is_normal_component_exec(segs[i].as_str());
        if keep {
            let ghost pre = out.deep_view();
            out.push(segs[i].clone());
            proof {
                assert(out.deep_view() =~~= pre.push(all[i as int]));
            }
        }
        i = i + 1;
    }
    proof {
        assert(all.take(segs.len() as int) =~~= all);
        assert(out.deep_view() =~~= parent_components_of(path@));
    }
    out
}

} // verus!
