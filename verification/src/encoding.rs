//! Base64, as credentials are encoded in.

use base64::engine::general_purpose;
use base64::Engine;
use vstd::prelude::*;

verus! {

/// The digits of base64, from 0 to 63.
pub open spec fn base64_alphabet() -> Seq<char> {
    "ABCDEFGHIJKLMNOPQRSTUVWXYZabcdefghijklmnopqrstuvwxyz0123456789+/"@
}

/// The byte at a position, and 0 behind the end.
pub open spec fn byte_at(bytes: Seq<u8>, at: int) -> int {
    if 0 <= at < bytes.len() {
        bytes[at] as int
    } else {
        0
    }
}

/// Three bytes from a position on, as one number.
pub open spec fn triple_at(bytes: Seq<u8>, at: int) -> int {
    byte_at(bytes, at) * 65536 + byte_at(bytes, at + 1) * 256 + byte_at(bytes, at + 2)
}

/// The base64 digit at a position: four digits of six bits each stand for
/// three bytes.
pub open spec fn digit_at(bytes: Seq<u8>, at: int) -> int {
    let triple = triple_at(bytes, at / 4 * 3);
    if at % 4 == 0 {
        triple / 262144
    } else if at % 4 == 1 {
        triple / 4096 % 64
    } else if at % 4 == 2 {
        triple / 64 % 64
    } else {
        triple % 64
    }
}

/// Bytes in base64, with the standard alphabet and filled up with `=` to a
/// multiple of four characters.
pub open spec fn base64_text(bytes: Seq<u8>) -> Seq<char> {
    Seq::new(
        ((bytes.len() + 2) / 3 * 4) as nat,
        |at: int|
            if 6 * at < 8 * bytes.len() {
                base64_alphabet()[digit_at(bytes, at)]
            } else {
                '='
            },
    )
}

/// `Engine::encode_string` of the engine `general_purpose::STANDARD`: appends
/// the bytes to the text in base64, with the standard alphabet and padding.
#[verifier::external_body]
pub(crate) fn encode_base64(bytes: &[u8], text: &mut String)
    ensures
        final(text)@ == old(text)@ + base64_text(bytes@),
{
    general_purpose::STANDARD.encode_string(bytes, text);
}

proof fn lemma_digits_in_range(bytes: Seq<u8>, at: int)
    requires
        0 <= at,
    ensures
        0 <= digit_at(bytes, at) < 64,
{
    let start = at / 4 * 3;
    assert(0 <= byte_at(bytes, start) < 256);
    assert(0 <= byte_at(bytes, start + 1) < 256);
    assert(0 <= byte_at(bytes, start + 2) < 256);
}

proof fn lemma_alphabet_distinct()
    ensures
        base64_alphabet().len() == 64,
        forall|i: int| 0 <= i < 64 ==> #[trigger] base64_alphabet()[i] != '=',
        forall|i: int, j: int|
            0 <= i < 64 && 0 <= j < 64 && #[trigger] base64_alphabet()[i]
                == #[trigger] base64_alphabet()[j] ==> i == j,
{
    reveal_strlit("ABCDEFGHIJKLMNOPQRSTUVWXYZabcdefghijklmnopqrstuvwxyz0123456789+/");
}

proof fn lemma_digits_behind_the_end(bytes: Seq<u8>, at: int)
    requires
        8 * bytes.len() <= 6 * at,
        at < (bytes.len() + 2) / 3 * 4,
    ensures
        digit_at(bytes, at) == 0,
{
    let start = at / 4 * 3;
    let first = byte_at(bytes, start);
    let second = byte_at(bytes, start + 1);
    assert(byte_at(bytes, start + 2) == 0);
    if at % 4 == 2 {
        assert(second == 0);
        assert((first * 65536) / 64 % 64 == 0) by {
            assert(first * 65536 == (first * 1024) * 64);
            assert((first * 1024) % 64 == 0);
        }
    } else {
        assert(at % 4 == 3);
        assert((first * 65536 + second * 256) % 64 == 0);
    }
}

proof fn lemma_four_digits(number: int)
    requires
        0 <= number,
    ensures
        number == number / 262144 * 262144 + number / 4096 % 64 * 4096 + number / 64 % 64 * 64
            + number % 64,
{
    let high = number / 64;
    let higher = high / 64;
    assert(number == high * 64 + number % 64);
    assert(high == higher * 64 + high % 64);
    assert(higher == number / 4096);
    assert(higher / 64 == number / 262144);
    assert(higher == higher / 64 * 64 + higher % 64);
}

proof fn lemma_triple_from_digits(bytes: Seq<u8>, group: int)
    requires
        0 <= group,
    ensures
        triple_at(bytes, 3 * group) == digit_at(bytes, 4 * group) * 262144 + digit_at(
            bytes,
            4 * group + 1,
        ) * 4096 + digit_at(bytes, 4 * group + 2) * 64 + digit_at(bytes, 4 * group + 3),
{
    assert((4 * group) / 4 * 3 == 3 * group);
    assert((4 * group + 1) / 4 * 3 == 3 * group);
    assert((4 * group + 2) / 4 * 3 == 3 * group);
    assert((4 * group + 3) / 4 * 3 == 3 * group);
    lemma_four_digits(triple_at(bytes, 3 * group));
}

/// Base64 loses nothing: bytes that read the same in base64 are the same.
pub proof fn base64_is_injective(a: Seq<u8>, b: Seq<u8>)
    requires
        base64_text(a) == base64_text(b),
    ensures
        a == b,
{
    lemma_alphabet_distinct();
    lemma_same_length(a, b);
    lemma_same_length(b, a);
    let text = base64_text(a);
    assert forall|k: int| 0 <= k < a.len() implies a[k] == b[k] by {
        let group = k / 3;
        assert forall|at: int| 4 * group <= at < 4 * group + 4 implies digit_at(a, at) == digit_at(
            b,
            at,
        ) by {
            assert(at < text.len());
            if 6 * at < 8 * a.len() {
                lemma_digits_in_range(a, at);
                lemma_digits_in_range(b, at);
                assert(text[at] == base64_alphabet()[digit_at(a, at)]);
                assert(base64_text(b)[at] == base64_alphabet()[digit_at(b, at)]);
            } else {
                lemma_digits_behind_the_end(a, at);
                lemma_digits_behind_the_end(b, at);
            }
        }
        lemma_triple_from_digits(a, group);
        lemma_triple_from_digits(b, group);
        let start = 3 * group;
        assert(triple_at(a, start) == triple_at(b, start));
        assert(byte_at(a, start) == byte_at(b, start));
        assert(byte_at(a, start + 1) == byte_at(b, start + 1));
        assert(byte_at(a, start + 2) == byte_at(b, start + 2));
        assert(k == start || k == start + 1 || k == start + 2);
    }
    assert(a =~= b);
}

proof fn lemma_same_length(a: Seq<u8>, b: Seq<u8>)
    requires
        base64_text(a) == base64_text(b),
    ensures
        a.len() >= b.len(),
{
    lemma_alphabet_distinct();
    if a.len() < b.len() {
        let at = (4 * a.len() + 2) / 3;
        assert(base64_text(a).len() == base64_text(b).len());
        assert(at < base64_text(b).len());
        lemma_digits_in_range(b, at as int);
        assert(base64_text(a)[at as int] == '=');
        assert(base64_text(b)[at as int] == base64_alphabet()[digit_at(b, at as int)]);
    }
}

} // verus!
