//! Where a request came from, as proxies report it.
//!
//! A proxy names the client in `X-Real-IP`, or in `X-Forwarded-For` as the
//! first entry of a comma-separated list. This module picks the texts that
//! may hold the client's address; reading an address out of a text is left
//! to the caller.

use vstd::prelude::*;
use vstd::std_specs::iter::IteratorSpec;
use vstd::string::StrSliceExecFns;

verus! {

/// Whether a character is white space, as Unicode defines it.
pub open spec fn is_space(c: char) -> bool {
    ||| '\u{9}' <= c <= '\u{d}'
    ||| c == ' '
    ||| c == '\u{85}'
    ||| c == '\u{a0}'
    ||| c == '\u{1680}'
    ||| '\u{2000}' <= c <= '\u{200a}'
    ||| c == '\u{2028}'
    ||| c == '\u{2029}'
    ||| c == '\u{202f}'
    ||| c == '\u{205f}'
    ||| c == '\u{3000}'
}

/// Whether a character is white space.
pub fn is_whitespace(c: char) -> (space: bool)
    ensures
        space == is_space(c),
{
    ('\u{9}' <= c && c <= '\u{d}') || c == ' ' || c == '\u{85}' || c == '\u{a0}' || c
        == '\u{1680}' || ('\u{2000}' <= c && c <= '\u{200a}') || c == '\u{2028}' || c
        == '\u{2029}' || c == '\u{202f}' || c == '\u{205f}' || c == '\u{3000}'
}

/// `end` is where the first entry of a comma-separated list ends: at the
/// first comma, or at the end of the list if it has none.
pub open spec fn is_entry_end(list: Seq<char>, end: int) -> bool {
    &&& 0 <= end <= list.len()
    &&& forall|i: int| 0 <= i < end ==> list[i] != ','
    &&& end < list.len() ==> list[end] == ','
}

/// `from` and `to` bound what is left of `text[..end]` when the white space
/// at both of its ends is taken away.
pub open spec fn is_trimmed(text: Seq<char>, end: int, from: int, to: int) -> bool {
    &&& 0 <= from <= to <= end <= text.len()
    &&& forall|i: int| 0 <= i < from ==> is_space(text[i])
    &&& forall|i: int| to <= i < end ==> is_space(text[i])
    &&& from < to ==> !is_space(text[from]) && !is_space(text[to - 1])
}

/// `entry` is the first entry of the list, without the white space around
/// it.
pub open spec fn is_first_entry(list: Seq<char>, entry: Seq<char>) -> bool {
    exists|end: int, from: int, to: int|
        is_entry_end(list, end) && is_trimmed(list, end, from, to) && entry == list.subrange(
            from,
            to,
        )
}

/// A list has one first entry only.
pub proof fn first_entry_is_unique(list: Seq<char>, a: Seq<char>, b: Seq<char>)
    requires
        is_first_entry(list, a),
        is_first_entry(list, b),
    ensures
        a == b,
{
    let (end_a, from_a, to_a) = choose|end: int, from: int, to: int|
        is_entry_end(list, end) && is_trimmed(list, end, from, to) && a == list.subrange(from, to);
    let (end_b, from_b, to_b) = choose|end: int, from: int, to: int|
        is_entry_end(list, end) && is_trimmed(list, end, from, to) && b == list.subrange(from, to);
    assert(end_a == end_b) by {
        if end_a < end_b {
            assert(list[end_a] == ',');
        }
        if end_b < end_a {
            assert(list[end_b] == ',');
        }
    }
    if from_a < to_a && from_b < to_b {
        assert(from_a == from_b) by {
            if from_a < from_b {
                assert(is_space(list[from_a]));
            }
            if from_b < from_a {
                assert(is_space(list[from_b]));
            }
        }
        assert(to_a == to_b) by {
            if to_a < to_b {
                assert(is_space(list[to_b - 1]));
            }
            if to_b < to_a {
                assert(is_space(list[to_a - 1]));
            }
        }
    } else if from_a < to_a {
        // b is empty, so everything before the end is white space
        assert(is_space(list[from_a])) by {
            if from_a < from_b {
            } else {
                assert(to_b <= from_a < end_b);
            }
        }
    } else if from_b < to_b {
        assert(is_space(list[from_b])) by {
            if from_b < from_a {
            } else {
                assert(to_a <= from_b < end_a);
            }
        }
    } else {
        assert(a =~= b);
    }
}

/// The first entry of a comma-separated list, without the white space
/// around it. A list without a comma is its own first entry.
pub fn first_forwarded<'a>(list: &'a str) -> (entry: &'a str)
    ensures
        is_first_entry(list@, entry@),
{
    let total = list.unicode_len();
    let mut i: usize = 0;
    let mut closed = false;
    let mut end: usize = 0;
    let mut found = false;
    let mut from: usize = 0;
    let mut to: usize = 0;
    for c in chars: list.chars()
        invariant
            total == list@.len(),
            chars.seq() == list@,
            i == chars.index(),
            i <= total,
            !closed ==> end == i && forall|k: int| 0 <= k < i ==> list@[k] != ',',
            closed ==> end < i && is_entry_end(list@, end as int),
            found ==> is_trimmed(list@, end as int, from as int, to as int) && from < to,
            !found ==> from == 0 && to == 0 && forall|k: int| 0 <= k < end ==> is_space(
                list@[k],
            ),
    {
        assert(c == list@[i as int]);
        if !closed {
            if c == ',' {
                closed = true;
            } else {
                if !is_whitespace(c) {
                    if !found {
                        from = i;
                        found = true;
                    }
                    to = i + 1;
                }
                end = i + 1;
            }
        }
        i += 1;
    }
    proof {
        assert(is_entry_end(list@, end as int));
        assert(is_trimmed(list@, end as int, from as int, to as int));
    }
    list.substring_char(from, to)
}

/// The texts that may hold the client's address, the most trusted first:
/// what `X-Real-IP` holds, as it is, and then the first entry of what
/// `X-Forwarded-For` holds. A header that is absent gives no candidate.
pub fn address_candidates<'a>(real_ip: Option<&'a str>, forwarded_for: Option<&'a str>) -> (found:
    Vec<&'a str>)
    ensures
        found@.len() == (if real_ip is Some { 1int } else { 0int }) + (if forwarded_for is Some {
            1int
        } else {
            0int
        }),
        real_ip matches Some(text) ==> found@[0]@ == text@,
        forwarded_for matches Some(list) ==> is_first_entry(list@, found@[found@.len() - 1]@),
{
    let mut found: Vec<&'a str> = Vec::new();
    if let Some(text) = real_ip {
        found.push(text);
    }
    if let Some(list) = forwarded_for {
        found.push(first_forwarded(list));
    }
    found
}

/// `at` is the position of the first candidate that could be read as an
/// address.
pub open spec fn is_first_readable(readable: Seq<bool>, at: int) -> bool {
    &&& 0 <= at < readable.len()
    &&& readable[at]
    &&& forall|i: int| 0 <= i < at ==> !readable[i]
}

/// Which candidate names the client, given for each candidate in turn
/// whether it could be read as an address: the first that could, and none
/// where no candidate could.
pub fn first_readable(readable: &[bool]) -> (found: Option<usize>)
    ensures
        match found {
            Some(at) => is_first_readable(readable@, at as int),
            None => forall|i: int| 0 <= i < readable@.len() ==> !readable@[i],
        },
{
    let mut at: usize = 0;
    while at < readable.len()
        invariant
            at <= readable@.len(),
            forall|i: int| 0 <= i < at ==> !readable@[i],
        decreases readable@.len() - at,
    {
        if readable[at] {
            return Some(at);
        }
        at += 1;
    }
    None
}

} // verus!
