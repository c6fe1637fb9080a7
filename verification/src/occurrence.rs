//! Occurrences of a pattern in a text, and a way to show that a piece of
//! markup occurs nowhere in a text put together from parts.

use crate::escape::{escaped, lemma_escaped_has_no_markup};
use vstd::prelude::*;

verus! {

/// Whether `pattern` stands in `text` at position `at`.
pub open spec fn occurs_at(text: Seq<char>, pattern: Seq<char>, at: int) -> bool {
    0 <= at && at + pattern.len() <= text.len() && text.subrange(at, at + pattern.len())
        == pattern
}

/// Whether `pattern` stands anywhere in `text`.
pub open spec fn occurs_in(text: Seq<char>, pattern: Seq<char>) -> bool {
    exists|at: int| occurs_at(text, pattern, at)
}

/// Whether what follows position `at` of `text`, within `text`, departs
/// from `pattern` somewhere after its first character.
pub open spec fn departs_at(text: Seq<char>, pattern: Seq<char>, at: int) -> bool {
    exists|j: int|
        0 < j < pattern.len() && at + j < text.len() && #[trigger] pattern[j] != text[at + j]
}

/// Whether every `<` of `text` starts something that departs from `pattern`
/// within `text`. Texts of this kind can be joined without `pattern`
/// appearing across a seam.
pub open spec fn tags_depart(text: Seq<char>, pattern: Seq<char>) -> bool {
    forall|i: int| 0 <= i < text.len() && #[trigger] text[i] == '<' ==> departs_at(text, pattern, i)
}

/// A pattern occurs in every text that holds it between two others.
pub proof fn lemma_occurs_between(before: Seq<char>, pattern: Seq<char>, after: Seq<char>)
    ensures
        occurs_in(before + pattern + after, pattern),
{
    let text = before + pattern + after;
    let at = before.len() as int;
    assert(text.subrange(at, at + pattern.len()) =~= pattern);
    assert(occurs_at(text, pattern, at));
}

/// A pattern that occurs in a text occurs in the text with more after it.
pub proof fn lemma_occurs_with_more_after(text: Seq<char>, after: Seq<char>, pattern: Seq<char>)
    requires
        occurs_in(text, pattern),
    ensures
        occurs_in(text + after, pattern),
{
    let at = choose|at: int| occurs_at(text, pattern, at);
    assert((text + after).subrange(at, at + pattern.len()) =~= text.subrange(
        at,
        at + pattern.len(),
    ));
    assert(occurs_at(text + after, pattern, at));
}

/// A pattern that occurs in a text occurs in the text with more before it.
pub proof fn lemma_occurs_with_more_before(before: Seq<char>, text: Seq<char>, pattern: Seq<char>)
    requires
        occurs_in(text, pattern),
    ensures
        occurs_in(before + text, pattern),
{
    let at = choose|at: int| occurs_at(text, pattern, at);
    let moved = before.len() + at;
    assert((before + text).subrange(moved, moved + pattern.len()) =~= text.subrange(
        at,
        at + pattern.len(),
    ));
    assert(occurs_at(before + text, pattern, moved));
}

/// Two texts whose tags depart from a pattern join to a text whose tags
/// depart from it.
pub proof fn lemma_joined_tags_depart(first: Seq<char>, second: Seq<char>, pattern: Seq<char>)
    requires
        tags_depart(first, pattern),
        tags_depart(second, pattern),
    ensures
        tags_depart(first + second, pattern),
{
    let joined = first + second;
    assert forall|i: int| 0 <= i < joined.len() && #[trigger] joined[i] == '<' implies departs_at(
        joined,
        pattern,
        i,
    ) by {
        if i < first.len() {
            assert(first[i] == '<');
            let j = choose|j: int|
                0 < j < pattern.len() && i + j < first.len() && #[trigger] pattern[j] != first[i
                    + j];
            assert(joined[i + j] == first[i + j]);
        } else {
            let k = i - first.len();
            assert(second[k] == '<');
            let j = choose|j: int|
                0 < j < pattern.len() && k + j < second.len() && #[trigger] pattern[j] != second[k
                    + j];
            assert(joined[i + j] == second[k + j]);
        }
    }
}

/// The tags of an escaped text depart from every pattern, as it has none.
pub proof fn lemma_escaped_tags_depart(text: Seq<char>, pattern: Seq<char>)
    ensures
        tags_depart(escaped(text), pattern),
{
    lemma_escaped_has_no_markup(text);
}

/// A pattern that starts with `<` occurs nowhere in a text whose tags
/// depart from it.
pub proof fn lemma_departing_text_lacks(text: Seq<char>, pattern: Seq<char>)
    requires
        pattern.len() > 0,
        pattern[0] == '<',
        tags_depart(text, pattern),
    ensures
        !occurs_in(text, pattern),
{
    assert forall|at: int| !occurs_at(text, pattern, at) by {
        if occurs_at(text, pattern, at) {
            let found = text.subrange(at, at + pattern.len());
            assert(text[at] == found[0]);
            let j = choose|j: int|
                0 < j < pattern.len() && at + j < text.len() && #[trigger] pattern[j] != text[at
                    + j];
            assert(text[at + j] == found[j]);
        }
    }
}

} // verus!
