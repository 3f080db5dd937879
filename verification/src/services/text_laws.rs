//! How sentences lie in the text that they are cut from.
use vstd::prelude::*;

use crate::services::text_aggregator::{
    boundary_after, boundary_at, rest_after, sentences, unfinished,
};
use crate::text::{is_space, trimmed, trimmed_end, trimmed_start};

verus! {

/// Whether a text is nothing but whitespace.
pub open spec fn blank(s: Seq<char>) -> bool {
    forall|i: int| 0 <= i < s.len() ==> is_space(#[trigger] s[i])
}

/// Whether a character ends a sentence.
pub open spec fn ends_sentence(c: char) -> bool {
    c == '.' || c == '!' || c == '?'
}

/// Whether a character parts sentences: blank, tab, line feed, form feed or
/// carriage return.
pub open spec fn parts_sentences(c: char) -> bool {
    c == ' ' || c == '\t' || c == '\n' || c as u32 == 12 || c == '\r'
}

/// Whether a sentence lies at position `k` of a text, with nothing but
/// whitespace before it, and the text goes on behind it as behind a sentence: not
/// at all, or with a character that parts sentences.
pub open spec fn lies_at(s: Seq<char>, k: int, sentence: Seq<char>) -> bool {
    &&& 0 <= k <= k + sentence.len() <= s.len()
    &&& blank(s.take(k))
    &&& s.subrange(k, k + sentence.len()) == sentence
    &&& k + sentence.len() == s.len() || parts_sentences(s[k + sentence.len()])
}

/// Whether a text is made of these sentences and this rest, in order, with
/// nothing but whitespace before each of them.
pub open spec fn laid_out(s: Seq<char>, parts: Seq<Seq<char>>, rest: Seq<char>) -> bool
    decreases parts.len(),
{
    if parts.len() == 0 {
        exists|k: int| 0 <= k <= s.len() && blank(#[trigger] s.take(k)) && s.skip(k) == rest
    } else {
        exists|k: int| #[trigger]
            lies_at(s, k, parts[0]) && laid_out(
                s.skip(k + parts[0].len()),
                parts.skip(1),
                rest,
            )
    }
}

/// A text without leading whitespace is the text behind a run of whitespace, and
/// does not begin with any.
proof fn lemma_start_is_cut(s: Seq<char>) -> (k: int)
    ensures
        0 <= k <= s.len(),
        blank(s.take(k)),
        trimmed_start(s) == s.skip(k),
        k < s.len() ==> !is_space(s[k]),
    decreases s.len(),
{
    if s.len() > 0 && is_space(s[0]) {
        let j = lemma_start_is_cut(s.skip(1));
        assert(s.skip(1).skip(j) =~= s.skip(j + 1));
        assert forall|i: int| 0 <= i < j + 1 implies is_space(#[trigger] s.take(j + 1)[i]) by {
            if i > 0 {
                assert(is_space(s.skip(1).take(j)[i - 1]));
            }
        }
        j + 1
    } else {
        assert(s.skip(0) =~= s);
        0
    }
}

proof fn lemma_end_is_cut(s: Seq<char>) -> (n: int)
    ensures
        0 <= n <= s.len(),
        blank(s.skip(n)),
        trimmed_end(s) == s.take(n),
        n > 0 ==> !is_space(s[n - 1]),
    decreases s.len(),
{
    if s.len() > 0 && is_space(s.last()) {
        let n = lemma_end_is_cut(s.drop_last());
        assert(s.drop_last().take(n) =~= s.take(n));
        assert forall|i: int| 0 <= i < s.skip(n).len() implies is_space(#[trigger] s.skip(n)[i]) by {
            if i < s.len() - 1 - n {
                assert(is_space(s.drop_last().skip(n)[i]));
            }
        }
        n
    } else {
        assert(s.take(s.len() as int) =~= s);
        s.len() as int
    }
}

/// Whether a text is what is left of another once whitespace, all of it and
/// nothing else, is cut off both its ends.
pub open spec fn cut_from(whole: Seq<char>, text: Seq<char>) -> bool {
    &&& exists|k: int, n: int|
        0 <= k <= n <= whole.len() && #[trigger] whole.subrange(k, n) == text && blank(
            whole.take(k),
        ) && blank(whole.skip(n))
    &&& text.len() > 0 ==> !is_space(text[0]) && !is_space(text.last())
}

/// A text from which nothing is left is nothing but whitespace.
pub proof fn lemma_nothing_is_cut_from_whitespace(whole: Seq<char>, text: Seq<char>)
    requires
        cut_from(whole, text),
    ensures
        text.len() == 0 <==> blank(whole),
{
    let (k, n) = choose|k: int, n: int|
        0 <= k <= n <= whole.len() && #[trigger] whole.subrange(k, n) == text && blank(
            whole.take(k),
        ) && blank(whole.skip(n));
    if text.len() == 0 {
        assert forall|i: int| 0 <= i < whole.len() implies is_space(#[trigger] whole[i]) by {
            if i < k {
                assert(is_space(whole.take(k)[i]));
            } else {
                assert(is_space(whole.skip(n)[i - n]));
            }
        }
    } else {
        assert(text[0] == whole[k]);
    }
}

/// To trim a text is to cut whitespace off both its ends, all of it and nothing
/// else.
pub proof fn lemma_trimming_cuts_the_ends(s: Seq<char>)
    ensures
        cut_from(s, trimmed(s)),
        exists|k: int, n: int|
            0 <= k <= n <= s.len() && #[trigger] s.subrange(k, n) == trimmed(s) && blank(s.take(k))
                && blank(s.skip(n)),
        trimmed(s).len() > 0 ==> !is_space(trimmed(s)[0]) && !is_space(trimmed(s).last()),
{
    let n = lemma_end_is_cut(s);
    let k = lemma_start_is_cut(s.take(n));
    assert(s.subrange(k, n) =~= s.take(n).skip(k));
    assert(s.take(n).take(k) =~= s.take(k));
    if k < n {
        assert(s.take(n)[k] == s[k]);
        assert(trimmed(s).last() == s[n - 1]);
    }
}

proof fn lemma_first_boundary(s: Seq<char>, from: int)
    requires
        0 <= from,
    ensures
        match boundary_after(s, from) {
            Some(p) => from < p && boundary_at(s, p) && forall|q: int|
                from < q < p ==> !boundary_at(s, q),
            None => forall|q: int| from < q ==> !boundary_at(s, q),
        },
    decreases s.len() - from,
{
    if from < s.len() && !boundary_at(s, from + 1) {
        lemma_first_boundary(s, from + 1);
    }
}

/// Every text is made of its sentences and its unfinished rest, character by
/// character, with nothing but whitespace left out before them; and each sentence
/// ends where the text ends or whitespace follows.
pub proof fn lemma_text_is_made_of_its_sentences(s: Seq<char>)
    ensures
        laid_out(s, sentences(s), unfinished(s)),
    decreases s.len(),
{
    lemma_first_boundary(s, 0);
    match boundary_after(s, 0) {
        Some(p) => {
            let head = s.take(p);
            let n = lemma_end_is_cut(head);
            assert(head[p - 1] == s[p - 1]);
            assert(!is_space(s[p - 1]));
            assert(n == p) by {
                if n < p {
                    assert(is_space(head.skip(n)[p - 1 - n]));
                }
            }
            assert(head.take(n) =~= head);
            let k = lemma_start_is_cut(head);
            assert(k < p) by {
                if k == p {
                    assert(is_space(head.take(k)[p - 1]));
                }
            }
            let first = trimmed(head);
            assert(first =~= s.subrange(k, p));
            assert(head.take(k) =~= s.take(k));
            assert(lies_at(s, k, first));
            let tail = s.skip(p);
            let j = lemma_start_is_cut(tail);
            let rest = rest_after(s, p);
            assert(rest.len() < s.len());
            lemma_text_is_made_of_its_sentences(rest);
            lemma_blank_before(tail, j, sentences(rest), unfinished(rest));
            assert(sentences(s) =~= seq![first] + sentences(rest));
            assert(sentences(s).skip(1) =~= sentences(rest));
            assert(s.skip(k + first.len()) =~= tail);
            assert(unfinished(s) == unfinished(rest));
            assert(lies_at(s, k, sentences(s)[0]) && laid_out(
                s.skip(k + sentences(s)[0].len()),
                sentences(s).skip(1),
                unfinished(s),
            ));
        },
        None => {
            assert(sentences(s).len() == 0 && unfinished(s) == s);
            assert(blank(s.take(0)));
            assert(s.skip(0) =~= s);
        },
    }
}

/// Whitespace before a text does not matter to how it is made.
proof fn lemma_blank_before(s: Seq<char>, j: int, parts: Seq<Seq<char>>, rest: Seq<char>)
    requires
        0 <= j <= s.len(),
        blank(s.take(j)),
        laid_out(s.skip(j), parts, rest),
    ensures
        laid_out(s, parts, rest),
{
    let t = s.skip(j);
    if parts.len() == 0 {
        let k = choose|k: int|
            0 <= k <= t.len() && blank(#[trigger] t.take(k)) && t.skip(k) == rest;
        lemma_blanks_join(s, j, k);
        assert(t.skip(k) =~= s.skip(j + k));
        assert(blank(s.take(j + k)));
    } else {
        let k = choose|k: int| #[trigger]
            lies_at(t, k, parts[0]) && laid_out(t.skip(k + parts[0].len()), parts.skip(1), rest);
        lemma_blanks_join(s, j, k);
        let n = parts[0].len();
        assert(s.subrange(j + k, j + k + n) =~= t.subrange(k, k + n));
        assert(t.skip(k + n) =~= s.skip(j + k + n));
        assert(lies_at(s, j + k, parts[0]));
    }
}

proof fn lemma_blanks_join(s: Seq<char>, j: int, k: int)
    requires
        0 <= j <= s.len(),
        0 <= k <= s.len() - j,
        blank(s.take(j)),
        blank(s.skip(j).take(k)),
    ensures
        blank(s.take(j + k)),
{
    assert forall|i: int| 0 <= i < j + k implies is_space(#[trigger] s.take(j + k)[i]) by {
        if i < j {
            assert(is_space(s.take(j)[i]));
        } else {
            assert(is_space(s.skip(j).take(k)[i - j]));
        }
    }
}

/// Each sentence ends in `.`, `!` or `?`, and none of these inside it is followed
/// by whitespace that parts sentences.
pub proof fn lemma_sentences_are_whole(s: Seq<char>, i: int)
    requires
        0 <= i < sentences(s).len(),
    ensures
        ({
            let sentence = sentences(s)[i];
            &&& sentence.len() > 0
            &&& ends_sentence(sentence.last())
            &&& forall|k: int|
                0 <= k < sentence.len() - 1 && ends_sentence(#[trigger] sentence[k])
                    ==> !parts_sentences(sentence[k + 1])
        }),
    decreases s.len(),
{
    lemma_first_boundary(s, 0);
    let p = boundary_after(s, 0)->0;
    let head = s.take(p);
    let n = lemma_end_is_cut(head);
    assert(head[p - 1] == s[p - 1]);
    assert(n == p) by {
        if n < p {
            assert(is_space(head.skip(n)[p - 1 - n]));
        }
    }
    assert(head.take(n) =~= head);
    let j = lemma_start_is_cut(head);
    assert(j < p) by {
        if j == p {
            assert(is_space(head.take(j)[p - 1]));
        }
    }
    let first = trimmed(head);
    let rest = rest_after(s, p);
    assert(sentences(s) =~= seq![first] + sentences(rest));
    let tail_start = lemma_start_is_cut(s.skip(p));
    if i == 0 {
        assert(first == head.skip(j));
        assert forall|k: int| 0 <= k < first.len() - 1 && ends_sentence(#[trigger] first[k]) implies
            !parts_sentences(first[k + 1]) by {
            assert(!boundary_at(s, j + k + 1));
        }
    } else {
        lemma_sentences_are_whole(rest, i - 1);
    }
}

/// What is left unfinished holds no end of a sentence: no `.`, `!` or `?` in it
/// is its last character or followed by whitespace that parts sentences.
pub proof fn lemma_rest_is_unfinished(s: Seq<char>)
    ensures
        forall|k: int|
            0 <= k < unfinished(s).len() && ends_sentence(#[trigger] unfinished(s)[k]) ==> k + 1
                < unfinished(s).len() && !parts_sentences(unfinished(s)[k + 1]),
    decreases s.len(),
{
    lemma_first_boundary(s, 0);
    match boundary_after(s, 0) {
        Some(p) => {
            let j = lemma_start_is_cut(s.skip(p));
            lemma_rest_is_unfinished(rest_after(s, p));
            assert(unfinished(s) == unfinished(rest_after(s, p)));
        },
        None => {
            assert(unfinished(s) == s);
            assert forall|k: int| 0 <= k < s.len() && ends_sentence(#[trigger] s[k]) implies k + 1
                < s.len() && !parts_sentences(s[k + 1]) by {
                assert(!boundary_at(s, k + 1));
            }
        },
    }
}

} // verus!
