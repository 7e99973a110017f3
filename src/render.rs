//! The greeting text: a fixed prefix and the decoded entries laid out one
//! per line, as a pretty debug dump of a map shows them.
use vstd::prelude::*;
use vstd::string::*;
use crate::decode::entries_view;

verus! {

/// The characters of `s` written as a Rust debug string literal: in double
/// quotes, with escapes.
pub uninterp spec fn debug_quoted(s: Seq<char>) -> Seq<char>;

/// Relies on `<str as Debug>::fmt`: the result depends on the characters
/// of `s` alone.
#[verifier::external_body]
fn quote_debug(s: &str) -> (r: String)
    ensures
        r@ == debug_quoted(s@),
{
    format!("{:?}", s)
}

/// The text every greeting starts with.
pub open spec fn greeting_prefix() -> Seq<char> {
    "Here we go!! "@
}

/// One entry of the dump, key and value already quoted.
pub open spec fn entry_line(key: Seq<char>, value: Seq<char>) -> Seq<char> {
    "    "@ + key + ": "@ + value + ",\n"@
}

/// The lines of all entries, in their order.
pub open spec fn entry_lines(e: Seq<(Seq<char>, Seq<char>)>) -> Seq<char>
    decreases e.len(),
{
    if e.len() == 0 {
        Seq::empty()
    } else {
        entry_lines(e.drop_last()) + entry_line(e.last().0, e.last().1)
    }
}

/// The greeting for entries whose keys and values are already quoted: the
/// prefix, then `{}` where there are none, else `{`, one line per entry and
/// `}`.
pub open spec fn greeting_layout(e: Seq<(Seq<char>, Seq<char>)>) -> Seq<char> {
    if e.len() == 0 {
        greeting_prefix() + "{}"@
    } else {
        greeting_prefix() + "{\n"@ + entry_lines(e) + "}"@
    }
}

/// Each key and each value quoted as a debug string literal.
pub open spec fn quoted_entries(e: Seq<(Seq<char>, Seq<char>)>) -> Seq<(Seq<char>, Seq<char>)> {
    e.map_values(|p: (Seq<char>, Seq<char>)| (debug_quoted(p.0), debug_quoted(p.1)))
}

/// The greeting for decoded entries.
pub open spec fn greeting_text(e: Seq<(Seq<char>, Seq<char>)>) -> Seq<char> {
    greeting_layout(quoted_entries(e))
}

/// The line of each entry stands inside the lines of all entries; returns
/// where it starts.
proof fn lemma_line_within_lines(q: Seq<(Seq<char>, Seq<char>)>, i: int) -> (at: int)
    requires
        0 <= i < q.len(),
    ensures
        0 <= at,
        at + entry_line(q[i].0, q[i].1).len() <= entry_lines(q).len(),
        entry_lines(q).subrange(at, at + entry_line(q[i].0, q[i].1).len())
            == entry_line(q[i].0, q[i].1),
    decreases q.len(),
{
    let front = entry_lines(q.drop_last());
    let line = entry_line(q[i].0, q[i].1);
    if i == q.len() - 1 {
        assert(entry_lines(q).subrange(front.len() as int, (front.len() + line.len()) as int) =~= line);
        front.len() as int
    } else {
        let at = lemma_line_within_lines(q.drop_last(), i);
        assert(q.drop_last()[i] == q[i]);
        assert(entry_lines(q).subrange(at, at + line.len()) =~= front.subrange(at, at + line.len()));
        at
    }
}

/// A greeting is never empty, starts with the prefix, and shows every
/// decoded entry, key and value quoted, on a line of its own; returns where
/// the line of entry `i` starts.
pub proof fn lemma_greeting_shows_entry(e: Seq<(Seq<char>, Seq<char>)>, i: int) -> (at: int)
    requires
        0 <= i < e.len(),
    ensures
        greeting_text(e).len() > 0,
        greeting_text(e).take(greeting_prefix().len() as int) == greeting_prefix(),
        0 <= at,
        at + entry_line(debug_quoted(e[i].0), debug_quoted(e[i].1)).len() <= greeting_text(e).len(),
        greeting_text(e).subrange(
            at,
            at + entry_line(debug_quoted(e[i].0), debug_quoted(e[i].1)).len(),
        ) == entry_line(debug_quoted(e[i].0), debug_quoted(e[i].1)),
{
    reveal_strlit("Here we go!! ");
    let q = quoted_entries(e);
    let line = entry_line(debug_quoted(e[i].0), debug_quoted(e[i].1));
    assert(q[i] == (debug_quoted(e[i].0), debug_quoted(e[i].1)));
    let inner = lemma_line_within_lines(q, i);
    let head = greeting_prefix() + "{\n"@;
    let g = greeting_text(e);
    assert(g == head + entry_lines(q) + "}"@);
    assert(g.take(greeting_prefix().len() as int) =~= greeting_prefix());
    let at = head.len() + inner;
    assert(g.subrange(at, at + line.len()) =~= entry_lines(q).subrange(inner, inner + line.len()));
    at
}

/// Lays out entries whose keys and values are already quoted.
pub fn layout_greeting(quoted: &Vec<(String, String)>) -> (r: String)
    ensures
        r@ == greeting_layout(entries_view(quoted@)),
{
    let ghost e = entries_view(quoted@);
    let mut out = String::from_str("Here we go!! ");
    if quoted.len() == 0 {
        out.append("{}");
        return out;
    }
    out.append("{\n");
    let mut i: usize = 0;
    while i < quoted.len()
        invariant
            i <= quoted.len(),
            e == entries_view(quoted@),
            out@ == greeting_prefix() + "{\n"@ + entry_lines(e.take(i as int)),
        decreases quoted.len() - i,
    {
        let (key, value) = &quoted[i];
        out.append("    ");
        out.append(key.as_str());
        out.append(": ");
        out.append(value.as_str());
        out.append(",\n");
        proof {
            assert(e.take(i + 1).drop_last() =~= e.take(i as int));
            assert(out@ =~= greeting_prefix() + "{\n"@ + entry_lines(e.take(i + 1)));
        }
        i = i + 1;
    }
    assert(e.take(quoted.len() as int) =~= e);
    out.append("}");
    out
}

/// Quotes every key and value of `entries` and lays out the greeting.
pub fn render_greeting(entries: &Vec<(String, String)>) -> (r: String)
    ensures
        r@ == greeting_text(entries_view(entries@)),
{
    let mut quoted: Vec<(String, String)> = Vec::new();
    let mut i: usize = 0;
    while i < entries.len()
        invariant
            i <= entries.len(),
            quoted@.len() == i,
            entries_view(quoted@) =~= quoted_entries(entries_view(entries@)).take(i as int),
        decreases entries.len() - i,
    {
        let (key, value) = &entries[i];
        let qk = quote_debug(key.as_str());
        let qv = quote_debug(value.as_str());
        quoted.push((qk, qv));
        i = i + 1;
    }
    assert(quoted_entries(entries_view(entries@)).take(entries.len() as int)
        =~= quoted_entries(entries_view(entries@)));
    layout_greeting(&quoted)
}

} // verus!
