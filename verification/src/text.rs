//! Building blocks for text: quoting and joining.

use vstd::prelude::*;

verus! {

/// `s` between two single quotes. What stands inside is taken as it is: a
/// quote within `s` is not escaped.
pub open spec fn quoted(s: Seq<char>) -> Seq<char> {
    seq!['\''] + s + seq!['\'']
}

/// The parts in their order, with `sep` between each two neighbours: nothing
/// before the first part and nothing after the last.
pub open spec fn joined(parts: Seq<Seq<char>>, sep: Seq<char>) -> Seq<char>
    decreases parts.len(),
{
    if parts.len() == 0 {
        Seq::empty()
    } else if parts.len() == 1 {
        parts[0]
    } else {
        joined(parts.drop_last(), sep) + sep + parts.last()
    }
}

/// What each string of `v` holds, in the order of `v`.
pub open spec fn texts(v: Seq<String>) -> Seq<Seq<char>> {
    v.map_values(|s: String| s@)
}

/// `String::push`. Taken on trust: it puts the character behind those that
/// the string holds already, and changes none of them.
pub assume_specification[ String::push ](s: &mut String, ch: char)
    ensures
        final(s)@ == old(s)@.push(ch),
;

/// Wraps `x` in single quotes.
pub fn quote(x: &str) -> (s: String)
    ensures
        s@ == quoted(x@),
{
    proof {
        reveal_strlit("'");
    }
    let mut s = String::from_str("'");
    s.append(x);
    s.append("'");
    s
}

/// Joins `parts` with `sep` between them.
pub fn join(parts: &Vec<String>, sep: &str) -> (s: String)
    ensures
        s@ == joined(texts(parts@), sep@),
{
    let mut s = String::new();
    let mut i: usize = 0;
    while i < parts.len()
        invariant
            i <= parts.len(),
            s@ == joined(texts(parts@).take(i as int), sep@),
        decreases parts.len() - i,
    {
        let ghost done = texts(parts@).take(i as int);
        let ghost next = texts(parts@).take(i + 1);
        assert(next.drop_last() == done);
        if i > 0 {
            s.append(sep);
        }
        s.append(parts[i].as_str());
        i = i + 1;
    }
    assert(texts(parts@).take(parts.len() as int) == texts(parts@));
    s
}

} // verus!
