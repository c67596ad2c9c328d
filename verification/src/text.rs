//! String comparison and search for the rest of the crate.

use vstd::prelude::*;
use vstd::string::StringSliceAdditionalSpecFns;

verus! {

/// `str`'s own `==` from the standard library: two string slices are equal
/// exactly when they hold the same characters.
pub assume_specification[ <str as PartialEq>::eq ](a: &str, b: &str) -> (same: bool)
    ensures
        same == (a@ == b@),
;

/// The bytes that a text is stored as: its UTF-8 encoding.
pub open spec fn bytes_of(text: Seq<char>) -> Seq<u8> {
    vstd::utf8::encode_utf8(text)
}

/// The bytes of `needle` stand in `haystack` from position `at` on.
pub open spec fn occurs_at(needle: Seq<u8>, haystack: Seq<u8>, at: int) -> bool {
    0 <= at && at + needle.len() <= haystack.len() && haystack.subrange(
        at,
        at + needle.len(),
    ) == needle
}

/// The bytes of `needle` stand somewhere in `haystack`, one after another.
pub open spec fn occurs_in(needle: Seq<u8>, haystack: Seq<u8>) -> bool {
    exists|at: int| occurs_at(needle, haystack, at)
}

/// Whether `needle` stands in `haystack` at `at`, byte by byte.
fn matches_at(needle: &[u8], haystack: &[u8], at: usize) -> (found: bool)
    requires
        at + needle@.len() <= haystack@.len(),
    ensures
        found == occurs_at(needle@, haystack@, at as int),
{
    let total: usize = haystack.len();
    let mut i: usize = 0;
    while i < needle.len()
        invariant
            i <= needle@.len(),
            at + needle@.len() <= haystack@.len() == total,
            forall|k: int| 0 <= k < i ==> haystack@[at + k] == needle@[k],
        decreases needle@.len() - i,
    {
        if haystack[at + i] != needle[i] {
            proof {
                let window = haystack@.subrange(at as int, at + needle@.len());
                assert(window[i as int] == haystack@[at + i]);
            }
            return false;
        }
        i += 1;
    }
    proof {
        let window = haystack@.subrange(at as int, at + needle@.len());
        assert(window =~= needle@);
    }
    true
}

/// Whether `needle` occurs in `haystack`. The empty text occurs everywhere.
pub fn contains(haystack: &str, needle: &str) -> (found: bool)
    ensures
        found == occurs_in(bytes_of(needle@), bytes_of(haystack@)),
{
    let hay = haystack.as_bytes();
    let pin = needle.as_bytes();
    if pin.len() > hay.len() {
        assert forall|at: int| !occurs_at(pin@, hay@, at) by {}
        return false;
    }
    let last: usize = hay.len() - pin.len();
    let mut at: usize = 0;
    loop
        invariant
            hay@ == haystack.spec_bytes(),
            pin@ == needle.spec_bytes(),
            last == hay@.len() - pin@.len(),
            at <= last,
            forall|k: int| 0 <= k < at ==> !occurs_at(pin@, hay@, k),
        decreases last - at,
    {
        if matches_at(pin, hay, at) {
            assert(occurs_at(pin@, hay@, at as int));
            return true;
        }
        if at == last {
            assert forall|k: int| !occurs_at(pin@, hay@, k) by {
                if 0 <= k && k + pin@.len() <= hay@.len() {
                    assert(k <= at);
                }
            }
            return false;
        }
        at += 1;
    }
}

/// Whether `text` begins with `prefix`, character by character.
pub fn starts_with(text: &str, prefix: &str) -> (found: bool)
    ensures
        found == prefix@.is_prefix_of(text@),
{
    let wanted = prefix.unicode_len();
    if wanted > text.unicode_len() {
        return false;
    }
    let mut i: usize = 0;
    while i < wanted
        invariant
            wanted == prefix@.len(),
            wanted <= text@.len(),
            i <= wanted,
            forall|k: int| 0 <= k < i ==> text@[k] == prefix@[k],
        decreases wanted - i,
    {
        if text.get_char(i) != prefix.get_char(i) {
            assert(text@.subrange(0, prefix@.len() as int)[i as int] != prefix@[i as int]);
            return false;
        }
        i += 1;
    }
    assert(text@.subrange(0, prefix@.len() as int) =~= prefix@);
    true
}

} // verus!
