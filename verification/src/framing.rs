//! How hub messages are packed into the text messages of a WebSocket.

use vstd::prelude::*;
use vstd::string::*;

verus! {

/// The character that ends each hub message.
pub const RECORD_SEPARATOR: char = '\u{1e}';

/// The stretches of a text between one separator and the next, empty ones
/// included.
pub open spec fn segments(text: Seq<char>) -> Seq<Seq<char>>
    decreases text.len(),
{
    if text.len() == 0 {
        seq![Seq::<char>::empty()]
    } else {
        let before = segments(text.drop_last());
        if text.last() == RECORD_SEPARATOR {
            before.push(Seq::<char>::empty())
        } else {
            before.drop_last().push(before.last().push(text.last()))
        }
    }
}

/// Whether a stretch holds anything.
pub open spec fn non_empty() -> spec_fn(Seq<char>) -> bool {
    |part: Seq<char>| part.len() > 0
}

/// The hub messages in a text.
pub open spec fn text_messages(text: Seq<char>) -> Seq<Seq<char>> {
    segments(text).filter(non_empty())
}

/// The hub messages in a text: what stands between its separators, without the
/// empty stretches.
pub fn split_text(text: &str) -> (messages: Vec<String>)
    ensures
        messages.deep_view() == text_messages(text@),
{
    let mut messages: Vec<String> = Vec::new();
    let mut current = String::new();
    let ghost mut seen: Seq<Seq<char>> = seq![Seq::<char>::empty()];
    proof {
        reveal(Seq::filter);
        assert(seen.drop_last() =~= Seq::<Seq<char>>::empty());
        assert(messages.deep_view() =~= Seq::<Seq<char>>::empty());
    }
    for c in it: text.chars()
        invariant
            it.seq() == text@,
            seen == segments(text@.take(it.index() as int)),
            seen.len() > 0,
            seen.last() == current@,
            messages.deep_view() == seen.drop_last().filter(non_empty()),
    {
        let ghost read = text@.take(it.index() as int);
        let ghost before = seen;
        let ghost kept = messages.deep_view();
        proof {
            assert(text@.take(it.index() + 1) =~= read.push(c));
            assert(read.push(c).drop_last() =~= read);
            reveal(Seq::filter);
        }
        if c == RECORD_SEPARATOR {
            proof {
                seen = before.push(Seq::<char>::empty());
                assert(seen.drop_last() =~= before);
                assert(before.drop_last().push(before.last()) =~= before);
            }
            if !current.as_str().is_empty() {
                messages.push(current);
                assert(messages.deep_view() =~= kept.push(before.last()));
            }
            current = String::new();
        } else {
            current.push(c);
            proof {
                seen = before.drop_last().push(current@);
                assert(seen.drop_last() =~= before.drop_last());
            }
        }
    }
    assert(text@.take(text@.len() as int) =~= text@);
    let ghost kept = messages.deep_view();
    assert(text_messages(text@) == if current@.len() > 0 {
        kept.push(current@)
    } else {
        kept
    }) by {
        reveal(Seq::filter);
    }
    if !current.as_str().is_empty() {
        messages.push(current);
        assert(messages.deep_view() =~= kept.push(current@));
    }
    messages
}

/// The stretches put back together, with a separator between each two.
pub open spec fn joined(parts: Seq<Seq<char>>) -> Seq<char>
    decreases parts.len(),
{
    if parts.len() == 0 {
        Seq::empty()
    } else if parts.len() == 1 {
        parts[0]
    } else {
        joined(parts.drop_last()).push(RECORD_SEPARATOR) + parts.last()
    }
}

/// The text that carries hub messages: each one with a separator behind it.
pub open spec fn framed(messages: Seq<Seq<char>>) -> Seq<char>
    decreases messages.len(),
{
    if messages.len() == 0 {
        Seq::empty()
    } else {
        framed(messages.drop_last()) + messages.last().push(RECORD_SEPARATOR)
    }
}

/// Whether a text can travel as one hub message: it is not empty and holds no
/// separator.
pub open spec fn is_message(text: Seq<char>) -> bool {
    text.len() > 0 && !text.contains(RECORD_SEPARATOR)
}

/// Splitting loses nothing: the stretches of a text, joined again, are the
/// text. None of them holds a separator, so there is none left to strip.
pub proof fn segments_partition_the_text(text: Seq<char>)
    ensures
        segments(text).len() > 0,
        joined(segments(text)) == text,
        forall|i: int|
            0 <= i < segments(text).len() ==> !(#[trigger] segments(text)[i]).contains(
                RECORD_SEPARATOR,
            ),
    decreases text.len(),
{
    if text.len() > 0 {
        let rest = text.drop_last();
        let before = segments(rest);
        let c = text.last();
        segments_partition_the_text(rest);
        assert(text =~= rest.push(c));
        if c == RECORD_SEPARATOR {
            let parts = before.push(Seq::<char>::empty());
            assert(parts.drop_last() =~= before);
            assert(joined(parts) =~= joined(before).push(c));
        } else {
            let longer = before.last().push(c);
            let parts = before.drop_last().push(longer);
            assert(parts.drop_last() =~= before.drop_last());
            if before.len() == 1 {
                assert(joined(parts) == longer);
            }
            assert(joined(parts) =~= joined(before).push(c));
            assert forall|i: int| 0 <= i < parts.len() implies !(
            #[trigger] parts[i]).contains(RECORD_SEPARATOR) by {
                if i == parts.len() - 1 {
                    assert(!before[before.len() - 1].contains(RECORD_SEPARATOR));
                    if longer.contains(RECORD_SEPARATOR) {
                        let k = choose|k: int|
                            0 <= k < longer.len() && longer[k] == RECORD_SEPARATOR;
                        assert(before.last()[k] == RECORD_SEPARATOR);
                    }
                } else {
                    assert(parts[i] == before[i]);
                }
            }
        }
    }
}

/// What is received as hub messages are whole messages: none is empty, and
/// none holds a separator.
pub proof fn received_are_messages(text: Seq<char>, i: int)
    requires
        0 <= i < text_messages(text).len(),
    ensures
        is_message(text_messages(text)[i]),
{
    let all = segments(text);
    let message = text_messages(text)[i];
    segments_partition_the_text(text);
    all.lemma_filter_pred(non_empty(), i);
    assert(text_messages(text).contains(message));
    all.lemma_filter_contains_rev(non_empty(), message);
    let k = choose|k: int| 0 <= k < all.len() && all[k] == message;
    assert(!all[k].contains(RECORD_SEPARATOR));
}

proof fn lemma_segments_extend(text: Seq<char>, more: Seq<char>)
    requires
        !more.contains(RECORD_SEPARATOR),
    ensures
        segments(text + more) == segments(text).drop_last().push(segments(text).last() + more),
    decreases more.len(),
{
    segments_partition_the_text(text);
    let parts = segments(text);
    if more.len() == 0 {
        assert(text + more =~= text);
        assert(parts.last() + more =~= parts.last());
        assert(parts =~= parts.drop_last().push(parts.last()));
    } else {
        let less = more.drop_last();
        let c = more.last();
        assert(less.push(c) =~= more);
        assert(more[more.len() - 1] == c);
        assert(!less.contains(RECORD_SEPARATOR)) by {
            if less.contains(RECORD_SEPARATOR) {
                let k = choose|k: int| 0 <= k < less.len() && less[k] == RECORD_SEPARATOR;
                assert(more[k] == RECORD_SEPARATOR);
            }
        }
        lemma_segments_extend(text, less);
        assert((text + more).drop_last() =~= text + less);
        let before = segments(text + less);
        assert(before.drop_last() =~= parts.drop_last());
        assert(before.last().push(c) =~= parts.last() + more);
    }
}

proof fn lemma_segments_of_framed(messages: Seq<Seq<char>>)
    requires
        forall|i: int| 0 <= i < messages.len() ==> is_message(#[trigger] messages[i]),
    ensures
        segments(framed(messages)) == messages.push(Seq::<char>::empty()),
    decreases messages.len(),
{
    if messages.len() == 0 {
        assert(segments(framed(messages)) =~= messages.push(Seq::<char>::empty()));
    } else {
        let rest = messages.drop_last();
        let last = messages.last();
        lemma_segments_of_framed(rest);
        assert(is_message(messages[messages.len() - 1]));
        lemma_segments_extend(framed(rest), last);
        let parts = segments(framed(rest));
        assert(parts.drop_last() =~= rest);
        assert(parts.last() + last =~= last);
        let text = framed(rest) + last;
        assert(segments(text) =~= messages);
        assert(framed(messages) =~= text.push(RECORD_SEPARATOR));
        assert(text.push(RECORD_SEPARATOR).drop_last() =~= text);
    }
}

proof fn lemma_filter_keeps_all(parts: Seq<Seq<char>>)
    requires
        forall|i: int| 0 <= i < parts.len() ==> (#[trigger] parts[i]).len() > 0,
    ensures
        parts.filter(non_empty()) == parts,
    decreases parts.len(),
{
    reveal(Seq::filter);
    if parts.len() > 0 {
        assert forall|i: int| 0 <= i < parts.drop_last().len() implies (
        #[trigger] parts.drop_last()[i]).len() > 0 by {
            assert(parts.drop_last()[i] == parts[i]);
        }
        lemma_filter_keeps_all(parts.drop_last());
        assert(parts[parts.len() - 1].len() > 0);
        assert(parts.drop_last().push(parts.last()) =~= parts);
    } else {
        assert(parts.filter(non_empty()) =~= parts);
    }
}

/// What is received is what was sent: hub messages that were framed and put
/// into one text come out of it again, all of them and in order.
pub proof fn framed_messages_come_back(messages: Seq<Seq<char>>)
    requires
        forall|i: int| 0 <= i < messages.len() ==> is_message(#[trigger] messages[i]),
    ensures
        text_messages(framed(messages)) == messages,
{
    lemma_segments_of_framed(messages);
    assert forall|i: int| 0 <= i < messages.len() implies (#[trigger] messages[i]).len() > 0 by {
        assert(is_message(messages[i]));
    }
    lemma_filter_keeps_all(messages);
    let parts = messages.push(Seq::<char>::empty());
    assert(parts.drop_last() =~= messages);
    reveal(Seq::filter);
}

/// A last hub message is received whether or not a separator follows it.
pub proof fn last_separator_is_optional(messages: Seq<Seq<char>>, last: Seq<char>)
    requires
        forall|i: int| 0 <= i < messages.len() ==> is_message(#[trigger] messages[i]),
        is_message(last),
    ensures
        text_messages(framed(messages) + last) == messages.push(last),
{
    lemma_segments_of_framed(messages);
    lemma_segments_extend(framed(messages), last);
    let parts = messages.push(Seq::<char>::empty());
    assert(parts.drop_last() =~= messages);
    assert(parts.last() + last =~= last);
    let all = messages.push(last);
    assert forall|i: int| 0 <= i < all.len() implies (#[trigger] all[i]).len() > 0 by {
        if i < messages.len() {
            assert(is_message(messages[i]));
        }
    }
    lemma_filter_keeps_all(all);
}

proof fn lemma_segments_around_separator(before: Seq<char>, after: Seq<char>)
    ensures
        segments(before.push(RECORD_SEPARATOR) + after) == segments(before) + segments(after),
    decreases after.len(),
{
    let text = before.push(RECORD_SEPARATOR) + after;
    segments_partition_the_text(before);
    if after.len() == 0 {
        assert(text =~= before.push(RECORD_SEPARATOR));
        assert(text.drop_last() =~= before);
        assert(segments(text) =~= segments(before) + segments(after));
    } else {
        let less = after.drop_last();
        lemma_segments_around_separator(before, less);
        segments_partition_the_text(less);
        assert(text.drop_last() =~= before.push(RECORD_SEPARATOR) + less);
        assert(text.last() == after.last());
        assert(segments(text) =~= segments(before) + segments(after));
    }
}

/// A separator ends one hub message and begins the next, wherever it stands:
/// a text brings what the part before a separator brings, then what the part
/// behind it brings.
pub proof fn separators_part_messages(
    before: &str,
    after: &str,
    text: &str,
    first: Vec<String>,
    second: Vec<String>,
    all: Vec<String>,
)
    requires
        text@ == before@.push('\u{1e}') + after@,
        call_ensures(split_text, (before,), first),
        call_ensures(split_text, (after,), second),
        call_ensures(split_text, (text,), all),
    ensures
        all.deep_view() == first.deep_view() + second.deep_view(),
{
    lemma_segments_around_separator(before@, after@);
    Seq::filter_distributes_over_add(segments(before@), segments(after@), non_empty());
}

/// A text without a separator is one hub message, and an empty one is none.
pub proof fn text_without_separator_is_one_message(text: &str, messages: Vec<String>)
    requires
        !text@.contains('\u{1e}'),
        call_ensures(split_text, (text,), messages),
    ensures
        messages.deep_view() == if text@.len() == 0 {
            Seq::empty()
        } else {
            seq![text@]
        },
{
    let none = Seq::<char>::empty();
    lemma_segments_extend(none, text@);
    assert(none + text@ =~= text@);
    assert(segments(text@) =~= seq![text@]);
    reveal(Seq::filter);
    let parts = seq![text@];
    assert(parts.drop_last() =~= Seq::<Seq<char>>::empty());
    assert(parts.drop_last().filter(non_empty()) =~= Seq::<Seq<char>>::empty());
    assert(parts.last() == text@);
    if text@.len() > 0 {
        assert(non_empty()(text@));
        assert(parts.filter(non_empty()) =~= parts);
    }
}

} // verus!
