//! Query strings: pairs separated by `&`, in each pair a name, `=` and a
//! value. Nothing is decoded.

use vstd::prelude::*;
use vstd::string::StrSliceExecFns;

verus! {

/// The first position from `from` up to but not including `to` at which
/// `text` holds `c`, or `to` if there is none.
pub open spec fn first_at(text: Seq<char>, c: char, from: int, to: int) -> int
    decreases to - from,
{
    if from >= to {
        to
    } else if text[from] == c {
        from
    } else {
        first_at(text, c, from + 1, to)
    }
}

/// The value of the pair `text[from..to]` if the pair is for `name`: the
/// pair holds an `=`, `name` stands before the first one, and the value
/// runs from there to the next `=` or to the end of the pair.
pub open spec fn pair_value(text: Seq<char>, name: Seq<char>, from: int, to: int) -> Option<
    Seq<char>,
> {
    let eq = first_at(text, '=', from, to);
    if eq < to && text.subrange(from, eq) == name {
        Some(text.subrange(eq + 1, first_at(text, '=', eq + 1, to)))
    } else {
        None
    }
}

/// The value of the first pair for `name` among the pairs that start at
/// or after `from`.
pub open spec fn param_from(text: Seq<char>, name: Seq<char>, from: int) -> Option<Seq<char>>
    decreases text.len() - from,
    via param_from_decreases
{
    if from > text.len() {
        None
    } else {
        let end = first_at(text, '&', from, text.len() as int);
        match pair_value(text, name, from, end) {
            Some(value) => Some(value),
            None => if end < text.len() {
                param_from(text, name, end + 1)
            } else {
                None
            },
        }
    }
}

/// The value of the first pair for `name` in the query string `text`.
pub open spec fn param(text: Seq<char>, name: Seq<char>) -> Option<Seq<char>> {
    param_from(text, name, 0)
}

/// `first_at` stays within its bounds.
pub proof fn lemma_first_at_bounds(text: Seq<char>, c: char, from: int, to: int)
    requires
        from <= to,
    ensures
        from <= first_at(text, c, from, to) <= to,
    decreases to - from,
{
    if from < to && text[from] != c {
        lemma_first_at_bounds(text, c, from + 1, to);
    }
}

#[via_fn]
proof fn param_from_decreases(text: Seq<char>, name: Seq<char>, from: int) {
    if from <= text.len() {
        lemma_first_at_bounds(text, '&', from, text.len() as int);
    }
}

/// The characters of `text`.
fn chars_of(text: &str) -> (r: Vec<char>)
    ensures
        r@ == text@,
{
    let mut out: Vec<char> = Vec::new();
    for c in it: text.chars()
        invariant
            out@ == it.seq().take(it.index() as int),
            it.seq() == text@,
    {
        out.push(c);
    }
    out
}

/// Finds `c` in `text[from..to]`.
fn find(text: &Vec<char>, c: char, from: usize, to: usize) -> (r: usize)
    requires
        from <= to <= text.len(),
    ensures
        r == first_at(text@, c, from as int, to as int),
        from <= r <= to,
{
    let mut i: usize = from;
    while i < to
        invariant
            from <= i <= to <= text.len(),
            first_at(text@, c, from as int, to as int) == first_at(text@, c, i as int, to as int),
        decreases to - i,
    {
        if text[i] == c {
            return i;
        }
        i = i + 1;
    }
    i
}

/// Whether `text[from..to]` is `name`.
fn same(text: &Vec<char>, from: usize, to: usize, name: &Vec<char>) -> (r: bool)
    requires
        from <= to <= text.len(),
    ensures
        r == (text@.subrange(from as int, to as int) == name@),
{
    if to - from != name.len() {
        return false;
    }
    let mut i: usize = 0;
    while i < name.len()
        invariant
            from <= to <= text.len(),
            to - from == name.len(),
            i <= name.len(),
            forall|j: int| 0 <= j < i ==> text@[from + j] == name@[j],
        decreases name.len() - i,
    {
        if text[from + i] != name[i] {
            assert(text@.subrange(from as int, to as int)[i as int] != name@[i as int]);
            return false;
        }
        i = i + 1;
    }
    assert(text@.subrange(from as int, to as int) =~= name@);
    true
}

/// The value of the first pair for `name` in the query string `query`.
pub fn query_param(query: &str, name: &str) -> (r: Option<String>)
    ensures
        match param(query@, name@) {
            Some(value) => r matches Some(found) && found@ == value,
            None => r is None,
        },
{
    let text = chars_of(query);
    let wanted = chars_of(name);
    let mut from: usize = 0;
    loop
        invariant
            text@ == query@,
            wanted@ == name@,
            from <= text.len(),
            param(query@, name@) == param_from(query@, name@, from as int),
        decreases text.len() - from,
    {
        let end = find(&text, '&', from, text.len());
        let eq = find(&text, '=', from, end);
        if eq < end && same(&text, from, eq, &wanted) {
            let stop = find(&text, '=', eq + 1, end);
            return Some(query.substring_char(eq + 1, stop).to_owned());
        }
        if end >= text.len() {
            return None;
        }
        from = end + 1;
    }
}

} // verus!
