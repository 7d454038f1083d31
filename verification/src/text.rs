//! Cell text: Unicode scalar values, joining of text nodes, trimming.

use vstd::prelude::*;
use vstd::string::*;

verus! {

/// Whether `c` carries the Unicode `White_Space` property, as std's
/// `char::is_whitespace` decides it.
pub uninterp spec fn white_space(c: char) -> bool;

/// Calls `char::is_whitespace`. Trusted: the answer is the `White_Space`
/// property of `c`, which this library names `white_space` and does not
/// spell out.
#[verifier::external_body]
fn is_whitespace(c: char) -> (b: bool)
    ensures
        b == white_space(c),
{
    c.is_whitespace()
}

/// `s` without its leading white space.
pub open spec fn trim_start(s: Seq<char>) -> Seq<char>
    decreases s.len(),
{
    if s.len() > 0 && white_space(s[0]) {
        trim_start(s.drop_first())
    } else {
        s
    }
}

/// `s` without its trailing white space.
pub open spec fn trim_end(s: Seq<char>) -> Seq<char>
    decreases s.len(),
{
    if s.len() > 0 && white_space(s.last()) {
        trim_end(s.drop_last())
    } else {
        s
    }
}

/// `s` without leading and trailing white space.
pub open spec fn trimmed(s: Seq<char>) -> Seq<char> {
    trim_end(trim_start(s))
}

/// The text nodes of an element, concatenated in document order.
pub open spec fn joined(nodes: Seq<Seq<char>>) -> Seq<char> {
    nodes.flatten()
}

/// What a cell says: all text under it, concatenated, then trimmed.
pub open spec fn cell_text(nodes: Seq<Seq<char>>) -> Seq<char> {
    trimmed(joined(nodes))
}

/// The scalar values of `s`, in order.
pub fn chars_of(s: &str) -> (v: Vec<char>)
    ensures
        v@ == s@,
{
    let mut v: Vec<char> = Vec::new();
    for c in it: s.chars()
        invariant
            v@ == it.seq().take(it.index()),
            it.seq() == s@,
    {
        v.push(c);
    }
    v
}

/// Whether two strings hold the same text.
pub fn same_text(a: &str, b: &str) -> (r: bool)
    ensures
        r == (a@ == b@),
{
    a.to_owned() == b.to_owned()
}

/// Removes leading and trailing white space.
pub fn trim<'a>(s: &'a str) -> (r: &'a str)
    ensures
        r@ == trimmed(s@),
{
    let chars = chars_of(s);
    let mut start: usize = 0;
    assert(s@.skip(0) == s@);
    while start < chars.len() && is_whitespace(chars[start])
        invariant
            start <= chars.len(),
            chars@ == s@,
            trim_start(s@) == trim_start(s@.skip(start as int)),
        decreases chars.len() - start,
    {
        assert(s@.skip(start as int).drop_first() == s@.skip(start as int + 1));
        start += 1;
    }
    let ghost kept = s@.skip(start as int);
    assert(trim_start(s@) == kept);
    let mut end: usize = chars.len();
    assert(s@.subrange(start as int, end as int) == kept);
    while end > start && is_whitespace(chars[end - 1])
        invariant
            start <= end <= chars.len(),
            chars@ == s@,
            trim_end(kept) == trim_end(s@.subrange(start as int, end as int)),
        decreases end - start,
    {
        assert(s@.subrange(start as int, end as int).drop_last() == s@.subrange(
            start as int,
            end as int - 1,
        ));
        end -= 1;
    }
    s.substring_char(start, end)
}

/// Concatenates the text nodes of an element.
pub fn join(nodes: &Vec<String>) -> (r: String)
    ensures
        r@ == joined(nodes.deep_view()),
{
    let mut r = String::new();
    let mut i: usize = 0;
    while i < nodes.len()
        invariant
            i <= nodes.len(),
            r@ == nodes.deep_view().take(i as int).flatten_alt(),
        decreases nodes.len() - i,
    {
        assert(nodes.deep_view().take(i as int + 1).drop_last() == nodes.deep_view().take(
            i as int,
        ));
        r.append(nodes[i].as_str());
        i += 1;
    }
    proof {
        assert(nodes.deep_view().take(i as int) == nodes.deep_view());
        nodes.deep_view().lemma_flatten_and_flatten_alt_are_equivalent();
    }
    r
}

/// The text of a cell: its text nodes concatenated, white space at both
/// ends removed.
pub fn collect_text(nodes: &Vec<String>) -> (r: String)
    ensures
        r@ == cell_text(nodes.deep_view()),
{
    let all = join(nodes);
    trim(all.as_str()).to_owned()
}

} // verus!
