//! Character-level operations on strings.

use vstd::prelude::*;
use vstd::string::*;

verus! {

/// `String::push`: appends the given character to the end of the string.
pub assume_specification[ String::push ](s: &mut String, c: char)
    ensures
        final(s)@ == old(s)@.push(c),
;

/// Whether `needle` stands in `text` as a run of consecutive characters.
pub open spec fn contains_text(text: Seq<char>, needle: Seq<char>) -> bool {
    exists|at: int| occurs_at(text, needle, at)
}

/// Whether `needle` stands in `text` at position `at`.
pub open spec fn occurs_at(text: Seq<char>, needle: Seq<char>, at: int) -> bool {
    0 <= at <= text.len() - needle.len() && text.subrange(at, at + needle.len()) == needle
}

/// The characters of `text`, in order.
pub fn chars_of(text: &str) -> (chars: Vec<char>)
    ensures
        chars@ == text@,
{
    let mut chars: Vec<char> = Vec::new();
    for c in it: text.chars()
        invariant
            chars@ == it.seq().take(it.index() as int),
            it.seq() == text@,
    {
        chars.push(c);
    }
    chars
}

/// Where `c` first stands in `text`, if it does.
pub fn find_char(text: &str, c: char) -> (at: Option<usize>)
    ensures
        match at {
            Some(i) => text@.index_of_first(c) == Some(i as int),
            None => text@.index_of_first(c) is None,
        },
{
    let chars = chars_of(text);
    proof {
        text@.index_of_first_ensures(c);
    }
    for i in 0..chars.len()
        invariant
            chars@ == text@,
            forall|j: int| 0 <= j < i ==> text@[j] != c,
            match text@.index_of_first(c) {
                Some(k) => 0 <= k < text@.len() && text@[k] == c && forall|j: int|
                    0 <= j < k ==> text@[j] != c,
                None => !text@.contains(c),
            },
    {
        if chars[i] == c {
            return Some(i);
        }
    }
    None
}

/// Whether two texts hold the same characters.
pub fn same_text(a: &str, b: &str) -> (same: bool)
    ensures
        same == (a@ == b@),
{
    let x = chars_of(a);
    let y = chars_of(b);
    if x.len() != y.len() {
        return false;
    }
    for i in 0..x.len()
        invariant
            x@ == a@,
            y@ == b@,
            x.len() == y.len(),
            forall|j: int| 0 <= j < i ==> x@[j] == y@[j],
    {
        if x[i] != y[i] {
            return false;
        }
    }
    assert(a@ =~= b@);
    true
}

/// Whether `needle` stands anywhere in `text`.
pub fn has_text(text: &str, needle: &str) -> (found: bool)
    ensures
        found == contains_text(text@, needle@),
{
    let hay = chars_of(text);
    let pin = chars_of(needle);
    if pin.len() > hay.len() {
        return false;
    }
    let last: usize = hay.len() - pin.len();
    let mut at: usize = 0;
    while at <= last
        invariant
            hay@ == text@,
            pin@ == needle@,
            last == hay.len() - pin.len(),
            at <= last + 1,
            forall|k: int| 0 <= k < at ==> !occurs_at(text@, needle@, k),
        decreases last + 1 - at,
    {
        let mut i: usize = 0;
        while i < pin.len() && hay[at + i] == pin[i]
            invariant
                hay@ == text@,
                pin@ == needle@,
                last == hay.len() - pin.len(),
                at <= last,
                i <= pin.len(),
                forall|j: int| 0 <= j < i ==> text@[at + j] == needle@[j],
            decreases pin.len() - i,
        {
            i += 1;
        }
        if i == pin.len() {
            assert(text@.subrange(at as int, at + needle@.len()) =~= needle@);
            assert(occurs_at(text@, needle@, at as int));
            return true;
        }
        assert(!occurs_at(text@, needle@, at as int)) by {
            assert(text@.subrange(at as int, at + needle@.len())[i as int] == text@[at + i]);
        }
        if at == last {
            return false;
        }
        at += 1;
    }
    false
}

/// A text holds another one exactly where it falls into something before, the
/// other text, and something behind.
pub proof fn contained_text_stands_between(text: Seq<char>, needle: Seq<char>)
    ensures
        contains_text(text, needle) <==> exists|before: Seq<char>, after: Seq<char>|
            text == #[trigger] (before + needle + after),
{
    if contains_text(text, needle) {
        let at = choose|at: int| occurs_at(text, needle, at);
        let before = text.take(at);
        let after = text.skip(at + needle.len());
        assert(text =~= before + text.subrange(at, at + needle.len()) + after);
        assert(text == before + needle + after);
    }
    if exists|before: Seq<char>, after: Seq<char>| text == #[trigger] (before + needle + after) {
        let (before, after) = choose|before: Seq<char>, after: Seq<char>|
            text == #[trigger] (before + needle + after);
        assert(text.subrange(before.len() as int, before.len() as int + needle.len()) =~= needle);
        assert(occurs_at(text, needle, before.len() as int));
    }
}

/// A search finds what stands anywhere in a text, and nothing else.
pub proof fn searches_find_what_stands_between(text: &str, needle: &str, found: bool)
    requires
        call_ensures(has_text, (text, needle), found),
    ensures
        found <==> exists|before: Seq<char>, after: Seq<char>|
            text@ == #[trigger] (before + needle@ + after),
{
    contained_text_stands_between(text@, needle@);
}

} // verus!
