//! Auto-tag resolution: the tags a file receives from the configured
//! folder-to-tag rules, derived from the normal components of its
//! containing directory. All matching rules contribute; tags are kept in
//! order of first appearance and never repeated.

use vstd::prelude::*;
use vstd::string::*;
use crate::paths::{parent_components, parent_components_of, sep_pred, split_whitespace_tokens,
    tokens};
use crate::settings::AutoTagRule;

verus! {

/// Append to `acc` each element of `ts`, in order, that `acc` does not
/// already hold.
pub open spec fn append_new(acc: Seq<Seq<char>>, ts: Seq<Seq<char>>) -> Seq<Seq<char>>
    decreases ts.len(),
{
    if ts.len() == 0 {
        acc
    } else if acc.contains(ts[0]) {
        append_new(acc, ts.skip(1))
    } else {
        append_new(acc.push(ts[0]), ts.skip(1))
    }
}

/// Fold the rules over `acc`: each rule whose folder occurs among the
/// components contributes its blank-separated tag tokens, new ones only.
pub open spec fn resolve_from(
    acc: Seq<Seq<char>>,
    comps: Seq<Seq<char>>,
    rules: Seq<AutoTagRule>,
) -> Seq<Seq<char>>
    decreases rules.len(),
{
    if rules.len() == 0 {
        acc
    } else {
        let acc2 = if comps.contains(rules[0].folder@) {
            append_new(acc, tokens(rules[0].tags@, sep_pred(false)))
        } else {
            acc
        };
        resolve_from(acc2, comps, rules.skip(1))
    }
}

/// The tags resolved for a file at `path`: for each rule, in configuration
/// order, whose folder equals some normal component of the file's
/// containing directory, the rule's tag tokens in order, each kept only at
/// its first appearance.
pub open spec fn resolve_tags(path: Seq<char>, rules: Seq<AutoTagRule>) -> Seq<Seq<char>> {
    resolve_from(Seq::empty(), parent_components_of(path), rules)
}

/// No element of `s` appears twice.
pub open spec fn distinct_seqs(s: Seq<Seq<char>>) -> bool {
    forall|i: int, j: int| 0 <= i < j < s.len() ==> s[i] != s[j]
}

fn vec_contains_string(v: &Vec<String>, t: &String) -> (r: bool)
    ensures
        r == v.deep_view().contains(t@),
{
    let mut i: usize = 0;
    while i < v.len()
        invariant
            i <= v.len(),
            v.deep_view().len() == v.len(),
            forall|m: int| 0 <= m < i ==> v.deep_view()[m] != t@,
        decreases v.len() - i,
    {
        if v[i].eq(t) {
            assert(v.deep_view()[i as int] == t@);
            return true;
        }
        i = i + 1;
    }
    assert(forall|m: int| 0 <= m < v.deep_view().len() ==> v.deep_view()[m] != t@);
    false
}

/// Resolve the auto tags for the file at `path` against `rules`: each rule
/// whose folder equals a normal component of the containing directory
/// contributes its blank-separated tags, de-duplicated, in order of first
/// appearance.
pub fn tags_for_path(path: &str, rules: &[AutoTagRule]) -> (r: Vec<String>)
    ensures
        r.deep_view() == resolve_tags(path@, rules@),
        distinct_seqs(r.deep_view()),
{
    let comps = parent_components(path);
    let ghost gcomps = parent_components_of(path@);
    let mut out: Vec<String> = Vec::new();
    let mut i: usize = 0;
    proof {
        assert(rules@.skip(0) =~= rules@);
        assert(out.deep_view() =~~= Seq::<Seq<char>>::empty());
    }
    while i < rules.len()
        invariant
            i <= rules.len(),
            comps.deep_view() == gcomps,
            resolve_from(out.deep_view(), gcomps, rules@.skip(i as int)) == resolve_tags(
                path@,
                rules@,
            ),
            distinct_seqs(out.deep_view()),
        decreases rules.len() - i,
    {
        let ghost rest = rules@.skip(i as int);
        proof {
            assert(rest[0] == rules@[i as int]);
            assert(rest.skip(1) =~= rules@.skip(i as int + 1));
        }
        let matched = vec_contains_string(&comps, &rules[i].folder);
        if matched {
            let toks = split_whitespace_tokens(rules[i].tags.as_str());
            let ghost gtoks = tokens(rules@[i as int].tags@, sep_pred(false));
            let ghost out_before = out.deep_view();
            let mut k: usize = 0;
            proof {
                assert(gtoks.skip(0) =~= gtoks);
            }
            while k < toks.len()
                invariant
                    k <= toks.len(),
                    toks.deep_view() == gtoks,
                    gtoks.len() == toks.len(),
                    append_new(out.deep_view(), gtoks.skip(k as int)) == append_new(
                        out_before,
                        gtoks,
                    ),
                    distinct_seqs(out.deep_view()),
                decreases toks.len() - k,
            {
                proof {
                    assert(gtoks.skip(k as int)[0] == gtoks[k as int]);
                    assert(gtoks.skip(k as int).skip(1) =~= gtoks.skip(k as int + 1));
                }
                let dup = vec_contains_string(&out, &toks[k]);
                if !dup {
                    let ghost pre = out.deep_view();
                    out.push(toks[k].clone());
                    proof {
                        assert(out.deep_view() =~~= pre.push(gtoks[k as int]));
                    }
                }
                k = k + 1;
            }
            proof {
                assert(gtoks.skip(toks.len() as int) =~= Seq::<Seq<char>>::empty());
            }
        }
        i = i + 1;
    }
    proof {
        assert(rules@.skip(rules@.len() as int) =~= Seq::<AutoTagRule>::empty());
    }
    out
}

/// Law: resolved tags are de-duplicated — no tag appears twice, even when
/// several rules contribute it.
pub proof fn lemma_resolve_tags_distinct(path: Seq<char>, rules: Seq<AutoTagRule>)
    ensures
        distinct_seqs(resolve_tags(path, rules)),
{
    lemma_resolve_from_distinct(Seq::empty(), parent_components_of(path), rules);
}

proof fn lemma_append_new_distinct(acc: Seq<Seq<char>>, ts: Seq<Seq<char>>)
    requires
        distinct_seqs(acc),
    ensures
        distinct_seqs(append_new(acc, ts)),
    decreases ts.len(),
{
    if ts.len() == 0 {
    } else if acc.contains(ts[0]) {
        lemma_append_new_distinct(acc, ts.skip(1));
    } else {
        let acc2 = acc.push(ts[0]);
        assert forall|i: int, j: int| 0 <= i < j < acc2.len() implies acc2[i] != acc2[j] by {
            if j == acc2.len() - 1 {
                assert(acc2[j] == ts[0]);
                assert(acc2[i] == acc[i]);
                if acc[i] == ts[0] {
                    assert(acc.contains(ts[0]));
                }
            }
        }
        lemma_append_new_distinct(acc2, ts.skip(1));
    }
}

proof fn lemma_resolve_from_distinct(
    acc: Seq<Seq<char>>,
    comps: Seq<Seq<char>>,
    rules: Seq<AutoTagRule>,
)
    requires
        distinct_seqs(acc),
    ensures
        distinct_seqs(resolve_from(acc, comps, rules)),
    decreases rules.len(),
{
    if rules.len() == 0 {
    } else {
        if comps.contains(rules[0].folder@) {
            lemma_append_new_distinct(acc, tokens(rules[0].tags@, sep_pred(false)));
            lemma_resolve_from_distinct(
                append_new(acc, tokens(rules[0].tags@, sep_pred(false))),
                comps,
                rules.skip(1),
            );
        } else {
            lemma_resolve_from_distinct(acc, comps, rules.skip(1));
        }
    }
}

proof fn lemma_seq_push_contains(acc: Seq<Seq<char>>, y: Seq<char>, x: Seq<char>)
    requires
        acc.contains(x) || x == y,
    ensures
        acc.push(y).contains(x),
{
    if x == y {
        assert(acc.push(y)[acc.len() as int] == x);
    } else {
        let k = choose|k: int| 0 <= k < acc.len() && acc[k] == x;
        assert(acc.push(y)[k] == x);
    }
}

proof fn lemma_append_new_contains(acc: Seq<Seq<char>>, ts: Seq<Seq<char>>, x: Seq<char>)
    requires
        acc.contains(x) || ts.contains(x),
    ensures
        append_new(acc, ts).contains(x),
    decreases ts.len(),
{
    if ts.len() == 0 {
        assert(acc.contains(x));
    } else {
        let acc2 = if acc.contains(ts[0]) {
            acc
        } else {
            acc.push(ts[0])
        };
        if x == ts[0] || acc.contains(x) {
            lemma_seq_push_contains(acc, ts[0], x);
            assert(acc2.contains(x));
            lemma_append_new_contains(acc2, ts.skip(1), x);
        } else {
            let k = choose|k: int| 0 <= k < ts.len() && ts[k] == x;
            assert(k >= 1);
            assert(ts.skip(1)[k - 1] == x);
            assert(ts.skip(1).contains(x));
            lemma_append_new_contains(acc2, ts.skip(1), x);
        }
    }
}

proof fn lemma_resolve_from_keeps(
    acc: Seq<Seq<char>>,
    comps: Seq<Seq<char>>,
    rules: Seq<AutoTagRule>,
    x: Seq<char>,
)
    requires
        acc.contains(x),
    ensures
        resolve_from(acc, comps, rules).contains(x),
    decreases rules.len(),
{
    if rules.len() == 0 {
    } else {
        if comps.contains(rules[0].folder@) {
            let acc2 = append_new(acc, tokens(rules[0].tags@, sep_pred(false)));
            lemma_append_new_contains(acc, tokens(rules[0].tags@, sep_pred(false)), x);
            lemma_resolve_from_keeps(acc2, comps, rules.skip(1), x);
        } else {
            lemma_resolve_from_keeps(acc, comps, rules.skip(1), x);
        }
    }
}

proof fn lemma_resolve_from_complete(
    acc: Seq<Seq<char>>,
    comps: Seq<Seq<char>>,
    rules: Seq<AutoTagRule>,
    i: int,
    t: Seq<char>,
)
    requires
        0 <= i < rules.len(),
        comps.contains(rules[i].folder@),
        tokens(rules[i].tags@, sep_pred(false)).contains(t),
    ensures
        resolve_from(acc, comps, rules).contains(t),
    decreases rules.len(),
{
    if i == 0 {
        let acc2 = append_new(acc, tokens(rules[0].tags@, sep_pred(false)));
        lemma_append_new_contains(acc, tokens(rules[0].tags@, sep_pred(false)), t);
        lemma_resolve_from_keeps(acc2, comps, rules.skip(1), t);
    } else {
        assert(rules.skip(1)[i - 1] == rules[i]);
        if comps.contains(rules[0].folder@) {
            let acc2 = append_new(acc, tokens(rules[0].tags@, sep_pred(false)));
            lemma_resolve_from_complete(acc2, comps, rules.skip(1), i - 1, t);
        } else {
            lemma_resolve_from_complete(acc, comps, rules.skip(1), i - 1, t);
        }
    }
}

/// Law: no matching rule is short-circuited — every tag token of every
/// rule whose folder equals some normal component of the file's containing
/// directory appears among the resolved tags.
pub proof fn lemma_resolve_tags_complete(
    path: Seq<char>,
    rules: Seq<AutoTagRule>,
    i: int,
    t: Seq<char>,
)
    requires
        0 <= i < rules.len(),
        parent_components_of(path).contains(rules[i].folder@),
        tokens(rules[i].tags@, sep_pred(false)).contains(t),
    ensures
        resolve_tags(path, rules).contains(t),
{
    lemma_resolve_from_complete(Seq::empty(), parent_components_of(path), rules, i, t);
}

} // verus!
