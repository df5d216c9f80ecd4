//! Splitting dropped text into words.
//!
//! The viewer works on the raw bytes of the dropped file. Both separators
//! (space and line feed) are ASCII bytes, and in UTF-8 an ASCII byte never
//! occurs inside the encoding of another character, so splitting the bytes
//! is the same as splitting the decoded text. Empty segments are kept, as a
//! literal split keeps them: two adjacent separators yield an empty word.

use vstd::prelude::*;

verus! {

pub const SPACE_BYTE: u8 = 32;

pub const NEWLINE_BYTE: u8 = 10;

/// A byte that separates words: a space or a line feed.
pub open spec fn is_separator(b: u8) -> bool {
    b == SPACE_BYTE || b == NEWLINE_BYTE
}

/// The words of `s`, in order: maximal runs of non-separator bytes, with
/// empty runs kept. The empty text has one empty word, as a literal split
/// of an empty string does.
pub open spec fn spec_split_words(s: Seq<u8>) -> Seq<Seq<u8>>
    decreases s.len(),
{
    if s.len() == 0 {
        seq![Seq::empty()]
    } else {
        let prefix = spec_split_words(s.drop_last());
        if is_separator(s.last()) {
            prefix.push(Seq::empty())
        } else {
            prefix.update(prefix.len() - 1, prefix.last().push(s.last()))
        }
    }
}

/// How many separator bytes `s` holds.
pub open spec fn spec_separator_count(s: Seq<u8>) -> nat
    decreases s.len(),
{
    if s.len() == 0 {
        0
    } else {
        spec_separator_count(s.drop_last()) + if is_separator(s.last()) {
            1nat
        } else {
            0nat
        }
    }
}

/// Splitting never loses or invents words: a text always splits into one
/// word more than it has separators, so the word count agrees with any
/// literal split on the same separators.
pub proof fn lemma_split_words_count(s: Seq<u8>)
    ensures
        spec_split_words(s).len() == spec_separator_count(s) + 1,
    decreases s.len(),
{
    if s.len() > 0 {
        lemma_split_words_count(s.drop_last());
    }
}

/// No split word holds a separator: every space and line feed of the text
/// ends a word, none is kept inside one.
pub proof fn lemma_split_words_no_separators(s: Seq<u8>)
    ensures
        forall|i: int, j: int|
            0 <= i < spec_split_words(s).len() && 0 <= j < spec_split_words(s)[i].len()
                ==> !is_separator(#[trigger] spec_split_words(s)[i][j]),
    decreases s.len(),
{
    if s.len() > 0 {
        lemma_split_words_no_separators(s.drop_last());
        lemma_split_words_count(s.drop_last());
        let prefix = spec_split_words(s.drop_last());
        let whole = spec_split_words(s);
        if is_separator(s.last()) {
            assert forall|i: int, j: int|
                0 <= i < whole.len() && 0 <= j < whole[i].len() implies !is_separator(
                whole[i][j],
            ) by {
                assert(i < prefix.len());
                assert(whole[i] == prefix[i]);
            }
        } else {
            assert forall|i: int, j: int|
                0 <= i < whole.len() && 0 <= j < whole[i].len() implies !is_separator(
                whole[i][j],
            ) by {
                if i == prefix.len() - 1 {
                    assert(whole[i] == prefix.last().push(s.last()));
                    assert(prefix[i] == prefix.last());
                    if j < prefix.last().len() {
                        assert(whole[i][j] == prefix.last()[j]);
                    } else {
                        assert(whole[i][j] == s.last());
                    }
                } else {
                    assert(whole[i] == prefix[i]);
                }
            }
        }
    }
}

/// Whether `bytes` is a well-formed UTF-8 encoding. What that takes is the
/// UTF-8 standard's business; the crate only needs the answer, so the
/// predicate is left without a definition and a trusted wrapper supplies it.
pub uninterp spec fn is_valid_utf8(bytes: Seq<u8>) -> bool;

/// Relies on std::str::from_utf8: its documentation says it returns `Ok`
/// exactly when the input is well-formed UTF-8, a property of the bytes
/// alone.
#[verifier::external_body]
pub(crate) fn utf8_check(bytes: &Vec<u8>) -> (r: bool)
    ensures
        r == is_valid_utf8(bytes@),
{
    std::str::from_utf8(bytes.as_slice()).is_ok()
}

/// The views of a sequence of byte vectors.
pub open spec fn words_view(words: Seq<Vec<u8>>) -> Seq<Seq<u8>> {
    words.map_values(|w: Vec<u8>| w@)
}

/// Splits `text` into words on spaces and line feeds, keeping empty
/// segments.
pub fn split_words(text: &Vec<u8>) -> (words: Vec<Vec<u8>>)
    ensures
        words_view(words@) == spec_split_words(text@),
{
    let mut words: Vec<Vec<u8>> = Vec::new();
    let mut current: Vec<u8> = Vec::new();
    let mut i: usize = 0;
    while i < text.len()
        invariant
            i <= text.len(),
            words_view(words@).push(current@) =~= spec_split_words(text@.take(i as int)),
        decreases text.len() - i,
    {
        let b = text[i];
        proof {
            assert(text@.take(i + 1).drop_last() =~= text@.take(i as int));
            assert(text@.take(i + 1).last() == text@[i as int]);
            lemma_split_words_count(text@.take(i as int));
        }
        let ghost prev_words = words@;
        let ghost prev_current = current@;
        if b == SPACE_BYTE || b == NEWLINE_BYTE {
            words.push(current);
            current = Vec::new();
            proof {
                assert(words_view(words@) =~= words_view(prev_words).push(prev_current));
            }
        } else {
            current.push(b);
            proof {
                assert(spec_split_words(text@.take(i + 1)) =~= words_view(words@).push(
                    current@,
                ));
            }
        }
        i = i + 1;
    }
    proof {
        assert(text@.take(text@.len() as int) =~= text@);
    }
    let ghost prev_words = words@;
    let ghost prev_current = current@;
    words.push(current);
    proof {
        assert(words_view(words@) =~= words_view(prev_words).push(prev_current));
    }
    words
}

} // verus!
