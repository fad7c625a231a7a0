//! JSON framing for the request bodies the agent sends: string escaping,
//! string literals, and the exact bodies of the upload-slot, tag-attach
//! and date-attach requests.

use vstd::prelude::*;
use vstd::string::*;
use crate::hashing::{hex_char, hex_char_str};

verus! {

/// Relies on std's String::push: the string grows by exactly the one
/// character.
#[verifier::external_body]
fn push_char(s: &mut String, c: char)
    ensures
        final(s)@ == old(s)@.push(c),
{
    s.push(c);
}

/// The escape of one character inside a JSON string literal: quote and
/// backslash get a backslash, control characters become a \u00XX escape,
/// and every other character stands as itself.
pub open spec fn esc_char(c: char) -> Seq<char> {
    if c == '"' {
        seq!['\\', '"']
    } else if c == '\\' {
        seq!['\\', '\\']
    } else if (c as u32) < 32 {
        seq!['\\', 'u', '0', '0', hex_char(((c as u32) / 16) as u128), hex_char(
            ((c as u32) % 16) as u128,
        )]
    } else {
        seq![c]
    }
}

/// `s` escaped for the inside of a JSON string literal.
pub open spec fn json_escaped(s: Seq<char>) -> Seq<char>
    decreases s.len(),
{
    if s.len() == 0 {
        Seq::empty()
    } else {
        json_escaped(s.drop_last()) + esc_char(s.last())
    }
}

/// `s` as a JSON string literal, quotes included.
pub open spec fn json_string(s: Seq<char>) -> Seq<char> {
    seq!['"'] + json_escaped(s) + seq!['"']
}

/// Escape `s` for the inside of a JSON string literal.
pub fn json_escape(s: &str) -> (r: String)
    ensures
        r@ == json_escaped(s@),
{
    let n = s.unicode_len();
    let mut out = String::new();
    let mut i: usize = 0;
    proof {
        assert(s@.take(0) =~= Seq::<char>::empty());
    }
    while i < n
        invariant
            n == s@.len(),
            i <= n,
            out@ == json_escaped(s@.take(i as int)),
        decreases n - i,
    {
        proof {
            assert(s@.take(i as int + 1).drop_last() =~= s@.take(i as int));
            assert(s@.take(i as int + 1).last() == s@[i as int]);
        }
        let c = s.get_char(i);
        if c == '"' {
            proof {
                reveal_strlit("\\\"");
            }
            out.append("\\\"");
            assert(out@ =~= json_escaped(s@.take(i as int + 1)));
        } else if c == '\\' {
            proof {
                reveal_strlit("\\\\");
            }
            out.append("\\\\");
            assert(out@ =~= json_escaped(s@.take(i as int + 1)));
        } else if (c as u32) < 32 {
            proof {
                reveal_strlit("\\u00");
            }
            out.append("\\u00");
            let code: u32 = c as u32;
            out.append(hex_char_str((code / 16) as u128));
            out.append(hex_char_str((code % 16) as u128));
            assert(out@ =~= json_escaped(s@.take(i as int + 1)));
        } else {
            push_char(&mut out, c);
            assert(out@ =~= json_escaped(s@.take(i as int + 1)));
        }
        i = i + 1;
    }
    proof {
        assert(s@.take(n as int) =~= s@);
    }
    out
}

/// Render `s` as a JSON string literal, quotes included.
pub fn json_quote(s: &str) -> (r: String)
    ensures
        r@ == json_string(s@),
{
    proof {
        reveal_strlit("\"");
    }
    let mut out = String::from_str("\"");
    let esc = json_escape(s);
    out.append(esc.as_str());
    out.append("\"");
    proof {
        assert(out@ =~= json_string(s@));
    }
    out
}

/// The JSON body of the upload-slot request for the file named `id`.
pub open spec fn filename_body(id: Seq<char>) -> Seq<char> {
    "{\"filename\":"@ + json_string(id) + "}"@
}

/// Build the upload-slot request body naming `id`.
pub fn filename_body_exec(id: &str) -> (r: String)
    ensures
        r@ == filename_body(id@),
{
    let mut out = String::from_str("{\"filename\":");
    let q = json_quote(id);
    out.append(q.as_str());
    out.append("}");
    proof {
        assert(out@ =~= filename_body(id@));
    }
    out
}

/// The comma-separated JSON string literals of `ts`, in order.
pub open spec fn json_string_items(ts: Seq<Seq<char>>) -> Seq<char>
    decreases ts.len(),
{
    if ts.len() == 0 {
        Seq::empty()
    } else if ts.len() == 1 {
        json_string(ts[0])
    } else {
        json_string_items(ts.drop_last()) + seq![','] + json_string(ts.last())
    }
}

/// The JSON body of the tag-attach request.
pub open spec fn tags_body(tags: Seq<Seq<char>>) -> Seq<char> {
    "{\"tags\":["@ + json_string_items(tags) + "]}"@
}

/// Build the tag-attach request body for `tags`.
pub fn tags_body_exec(tags: &Vec<String>) -> (r: String)
    ensures
        r@ == tags_body(tags.deep_view()),
{
    let ghost ts = tags.deep_view();
    let mut out = String::from_str("{\"tags\":[");
    let mut items = String::new();
    let mut i: usize = 0;
    proof {
        assert(ts.take(0) =~= Seq::<Seq<char>>::empty());
    }
    while i < tags.len()
        invariant
            ts == tags.deep_view(),
            ts.len() == tags.len(),
            i <= tags.len(),
            items@ == json_string_items(ts.take(i as int)),
        decreases tags.len() - i,
    {
        proof {
            assert(ts.take(i as int + 1).drop_last() =~= ts.take(i as int));
            assert(ts.take(i as int + 1).last() == ts[i as int]);
        }
        if i > 0 {
            proof {
                reveal_strlit(",");
            }
            items.append(",");
        }
        let q = json_quote(tags[i].as_str());
        items.append(q.as_str());
        proof {
            if i == 0 {
                assert(ts.take(1).len() == 1);
                assert(items@ =~= json_string_items(ts.take(i as int + 1)));
            } else {
                assert(items@ =~= json_string_items(ts.take(i as int + 1)));
            }
        }
        i = i + 1;
    }
    proof {
        assert(ts.take(tags@.len() as int) =~= ts);
    }
    out.append(items.as_str());
    out.append("]}");
    proof {
        assert(out@ =~= tags_body(ts));
    }
    out
}

/// The JSON body of the date-attach request: one named date value.
pub open spec fn dates_body(name: Seq<char>, value: Seq<char>) -> Seq<char> {
    "{\"dates\":[{\"name\":"@ + json_string(name) + ",\"value\":"@ + json_string(value) + "}]}"@
}

/// Build the date-attach request body carrying one named date value.
pub fn dates_body_exec(name: &str, value: &str) -> (r: String)
    ensures
        r@ == dates_body(name@, value@),
{
    let mut out = String::from_str("{\"dates\":[{\"name\":");
    let qn = json_quote(name);
    out.append(qn.as_str());
    out.append(",\"value\":");
    let qv = json_quote(value);
    out.append(qv.as_str());
    out.append("}]}");
    proof {
        assert(out@ =~= dates_body(name@, value@));
    }
    out
}

} // verus!
