//! The stable encoding of the mapping list: a JSON array of two-element
//! arrays, `[["digest","url"], ...]`, with the string escaping JSON
//! requires. The spec functions here are the documented wire format; the
//! renderer is proved to produce exactly that text.

use vstd::prelude::*;

use crate::digest::hex_digit;
use crate::text::push_char;

verus! {

/// One character of a JSON string body: quote and backslash are escaped,
/// control characters take the six-character `\u00..` form, and every other
/// character stands as itself.
pub open spec fn json_escaped_char(c: char) -> Seq<char> {
    if c == '"' {
        seq!['\\', '"']
    } else if c == '\\' {
        seq!['\\', '\\']
    } else if (c as u32) < 32 {
        seq![
            '\\',
            'u',
            '0',
            '0',
            hex_digit((c as u32 / 16) as u8),
            hex_digit((c as u32 % 16) as u8),
        ]
    } else {
        seq![c]
    }
}

/// A string's characters, each escaped.
pub open spec fn json_escaped(s: Seq<char>) -> Seq<char>
    decreases s.len(),
{
    if s.len() == 0 {
        Seq::empty()
    } else {
        json_escaped(s.drop_last()) + json_escaped_char(s.last())
    }
}

/// A JSON string: the escaped text in double quotes.
pub open spec fn json_string(s: Seq<char>) -> Seq<char> {
    seq!['"'] + json_escaped(s) + seq!['"']
}

/// One mapping as a two-element JSON array: `["digest","url"]`.
pub open spec fn json_pair(d: Seq<char>, u: Seq<char>) -> Seq<char> {
    seq!['['] + json_string(d) + seq![','] + json_string(u) + seq![']']
}

/// The comma-separated pairs, in order.
pub open spec fn json_mappings_inner(ms: Seq<(Seq<char>, Seq<char>)>) -> Seq<char>
    decreases ms.len(),
{
    if ms.len() == 0 {
        Seq::empty()
    } else if ms.len() == 1 {
        json_pair(ms[0].0, ms[0].1)
    } else {
        json_mappings_inner(ms.drop_last()) + seq![','] + json_pair(ms.last().0, ms.last().1)
    }
}

/// The full mapping list on the wire: a JSON array of pairs.
pub open spec fn json_mappings(ms: Seq<(Seq<char>, Seq<char>)>) -> Seq<char> {
    seq!['['] + json_mappings_inner(ms) + seq![']']
}

/// The view of a list of owned (digest, URL) pairs.
pub open spec fn pair_views(ms: Seq<(String, String)>) -> Seq<(Seq<char>, Seq<char>)> {
    ms.map_values(|p: (String, String)| (p.0@, p.1@))
}

/// Appends one escaped character.
fn push_json_escaped_char(out: &mut String, c: char)
    ensures
        final(out)@ == old(out)@ + json_escaped_char(c),
{
    if c == '"' {
        push_char(out, '\\');
        push_char(out, '"');
        proof {
            assert(out@ =~= old(out)@ + json_escaped_char(c));
        }
    } else if c == '\\' {
        push_char(out, '\\');
        push_char(out, '\\');
        proof {
            assert(out@ =~= old(out)@ + json_escaped_char(c));
        }
    } else {
        let v = c as u32;
        if v < 32 {
            push_char(out, '\\');
            push_char(out, 'u');
            push_char(out, '0');
            push_char(out, '0');
            push_char(out, crate::digest::hex_char((v / 16) as u8));
            push_char(out, crate::digest::hex_char((v % 16) as u8));
            proof {
                assert(out@ =~= old(out)@ + json_escaped_char(c));
            }
        } else {
            push_char(out, c);
            proof {
                assert(out@ =~= old(out)@ + json_escaped_char(c));
            }
        }
    }
}

/// Appends a JSON string: quote, escaped text, quote.
fn push_json_string(out: &mut String, s: &str)
    ensures
        final(out)@ == old(out)@ + json_string(s@),
{
    push_char(out, '"');
    let n = s.unicode_len();
    let mut i: usize = 0;
    while i < n
        invariant
            n == s@.len(),
            i <= n,
            out@ == old(out)@ + seq!['"'] + json_escaped(s@.take(i as int)),
        decreases n - i,
    {
        let c = s.get_char(i);
        push_json_escaped_char(out, c);
        proof {
            let taken = s@.take(i as int + 1);
            assert(taken.drop_last() =~= s@.take(i as int));
            assert(taken.last() == s@[i as int]);
            assert(out@ =~= old(out)@ + seq!['"'] + json_escaped(taken));
        }
        i += 1;
    }
    push_char(out, '"');
    proof {
        assert(s@.take(s@.len() as int) =~= s@);
        assert(out@ =~= old(out)@ + json_string(s@));
    }
}

/// Appends one `["digest","url"]` pair.
fn push_json_pair(out: &mut String, d: &str, u: &str)
    ensures
        final(out)@ == old(out)@ + json_pair(d@, u@),
{
    push_char(out, '[');
    push_json_string(out, d);
    push_char(out, ',');
    push_json_string(out, u);
    push_char(out, ']');
    proof {
        assert(out@ =~= old(out)@ + json_pair(d@, u@));
    }
}

/// Renders the mapping list exactly as `json_mappings` states it.
pub fn render_mappings(ms: &Vec<(String, String)>) -> (r: String)
    ensures
        r@ == json_mappings(pair_views(ms@)),
{
    let mut out = String::new();
    push_char(&mut out, '[');
    let n = ms.len();
    let mut i: usize = 0;
    while i < n
        invariant
            n == ms@.len(),
            i <= n,
            out@ == seq!['['] + json_mappings_inner(pair_views(ms@).take(i as int)),
        decreases n - i,
    {
        if i > 0 {
            push_char(&mut out, ',');
        }
        push_json_pair(&mut out, ms[i].0.as_str(), ms[i].1.as_str());
        proof {
            let views = pair_views(ms@);
            let taken = views.take(i as int + 1);
            assert(taken.drop_last() =~= views.take(i as int));
            assert(taken.last() == views[i as int]);
            assert(views[i as int] == (ms@[i as int].0@, ms@[i as int].1@));
            if i == 0 {
                assert(out@ =~= seq!['['] + json_mappings_inner(taken));
            } else {
                assert(out@ =~= seq!['['] + json_mappings_inner(taken));
            }
        }
        i += 1;
    }
    push_char(&mut out, ']');
    proof {
        assert(pair_views(ms@).take(ms@.len() as int) =~= pair_views(ms@));
        assert(out@ =~= json_mappings(pair_views(ms@)));
    }
    out
}

} // verus!
