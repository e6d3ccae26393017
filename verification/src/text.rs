//! Small operations on text, stated over the characters of a string.

use vstd::prelude::*;

verus! {

/// `needle` occurs in `text` as a contiguous run of characters.
pub open spec fn occurs_in(needle: Seq<char>, text: Seq<char>) -> bool {
    exists|at: int| occurs_at(needle, text, at)
}

/// `needle` occurs in `text` starting at position `at`.
pub open spec fn occurs_at(needle: Seq<char>, text: Seq<char>, at: int) -> bool {
    0 <= at && at + needle.len() <= text.len() && text.subrange(at, at + needle.len()) == needle
}

/// The characters of an optional string.
pub open spec fn optional_text(text: Option<String>) -> Option<Seq<char>> {
    match text {
        Some(s) => Some(s@),
        None => None,
    }
}

/// The characters of `s`, in order.
pub fn chars_of(s: &str) -> (chars: Vec<char>)
    ensures
        chars@ == s@,
{
    let mut chars: Vec<char> = Vec::new();
    for c in it: s.chars()
        invariant
            it.seq() == s@,
            chars@ == s@.take(it.index()),
    {
        chars.push(c);
    }
    chars
}

/// Whether two strings hold the same characters.
pub fn same_text(a: &str, b: &str) -> (same: bool)
    ensures
        same == (a@ == b@),
{
    let left = chars_of(a);
    let right = chars_of(b);
    if left.len() != right.len() {
        return false;
    }
    let mut i: usize = 0;
    while i < left.len()
        invariant
            i <= left.len(),
            left.len() == right.len(),
            left@ == a@,
            right@ == b@,
            forall|j: int| 0 <= j < i ==> left@[j] == right@[j],
        decreases left.len() - i,
    {
        if left[i] != right[i] {
            return false;
        }
        i += 1;
    }
    assert(a@ =~= b@);
    true
}

/// Whether `text` begins with `prefix`. Only the first characters of `text`
/// are compared, so the cost beyond measuring `text` depends on `prefix` alone.
pub fn begins_with(text: &str, prefix: &str) -> (begins: bool)
    ensures
        begins == prefix@.is_prefix_of(text@),
{
    let wanted = prefix.unicode_len();
    if text.unicode_len() < wanted {
        return false;
    }
    let mut i: usize = 0;
    while i < wanted
        invariant
            i <= wanted,
            wanted == prefix@.len(),
            wanted <= text@.len(),
            forall|j: int| 0 <= j < i ==> text@[j] == prefix@[j],
        decreases wanted - i,
    {
        if text.get_char(i) != prefix.get_char(i) {
            assert(text@.subrange(0, wanted as int)[i as int] != prefix@[i as int]);
            return false;
        }
        i += 1;
    }
    assert(prefix@ =~= text@.subrange(0, wanted as int));
    true
}

/// What is left of `text` after its first `count` characters.
pub fn after(text: &str, count: usize) -> (rest: &str)
    requires
        count <= text@.len(),
    ensures
        rest@ == text@.skip(count as int),
{
    let length = text.unicode_len();
    text.substring_char(count, length)
}

/// Whether `pin` stands in `hay` at position `at`.
fn stands_at(hay: &Vec<char>, pin: &Vec<char>, at: usize) -> (stands: bool)
    requires
        at + pin.len() <= hay.len(),
    ensures
        stands == occurs_at(pin@, hay@, at as int),
{
    let mut i: usize = 0;
    while i < pin.len()
        invariant
            at + pin.len() <= hay.len(),
            i <= pin.len(),
            forall|j: int| 0 <= j < i ==> hay@[at + j] == pin@[j],
        decreases pin.len() - i,
    {
        if hay[at + i] != pin[i] {
            assert(hay@.subrange(at as int, at + pin@.len())[i as int] != pin@[i as int]);
            return false;
        }
        i += 1;
    }
    assert(hay@.subrange(at as int, at + pin@.len()) =~= pin@);
    true
}

/// Whether `needle` occurs somewhere in `text`.
pub fn contains(text: &str, needle: &str) -> (found: bool)
    ensures
        found == occurs_in(needle@, text@),
{
    let hay = chars_of(text);
    let pin = chars_of(needle);
    if hay.len() < pin.len() {
        return false;
    }
    let last: usize = hay.len() - pin.len();
    let mut at: usize = 0;
    loop
        invariant
            hay@ == text@,
            pin@ == needle@,
            last == hay.len() - pin.len(),
            at <= last,
            forall|k: int| 0 <= k < at ==> !occurs_at(needle@, text@, k),
        decreases last - at,
    {
        if stands_at(&hay, &pin, at) {
            return true;
        }
        if at == last {
            return false;
        }
        at += 1;
    }
}

} // verus!
