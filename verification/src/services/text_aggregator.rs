//! Aggregation of streaming text into segments for speech synthesis.
use vstd::prelude::*;
use vstd::string::*;

use crate::text::{
    chars_of, is_space, skip_leading, trim_range, trimmed, trimmed_end, trimmed_start,
};

verus! {

/// Mode for text aggregation in speech synthesis.
#[derive(Debug, Clone, Copy, PartialEq, Eq, Structural)]
pub enum TextAggregationMode {
    /// Buffer text until a sentence boundary is detected.
    Sentence,
    /// Yield each token immediately.
    Token,
}

/// A completed segment of text.
#[derive(Debug, Clone)]
pub struct AggregatedText {
    pub text: String,
    pub aggregated_by: String,
}

/// The characters of an [`AggregatedText`].
pub struct AggregatedTextView {
    pub text: Seq<char>,
    pub aggregated_by: Seq<char>,
}

impl View for AggregatedText {
    type V = AggregatedTextView;

    open spec fn view(&self) -> AggregatedTextView {
        AggregatedTextView { text: self.text@, aggregated_by: self.aggregated_by@ }
    }
}

/// The segments in a list.
pub open spec fn segments_of(list: Seq<AggregatedText>) -> Seq<AggregatedTextView> {
    list.map_values(|a: AggregatedText| a@)
}

/// Aggregates streaming text tokens into complete segments.
///
/// In `Sentence` mode, buffers text and yields when a sentence boundary
/// (`.`, `!`, `?` followed by whitespace or the end of the input) is detected.
/// In `Token` mode, yields each text immediately.
#[derive(Debug)]
pub struct SimpleTextAggregator {
    mode: TextAggregationMode,
    buffer: Vec<char>,
}

/// Punctuation that can end a sentence.
pub open spec fn is_terminator(c: char) -> bool {
    c == '.' || c == '!' || c == '?'
}

/// The ASCII whitespace characters: space, tab, line feed, form feed, carriage
/// return.
pub open spec fn is_ascii_space(c: char) -> bool {
    c == ' ' || c == '\t' || c == '\n' || c as u32 == 0x0C || c == '\r'
}

/// Whether a sentence ends right before position `pos` of the text.
pub open spec fn boundary_at(s: Seq<char>, pos: int) -> bool {
    &&& 0 < pos <= s.len()
    &&& is_terminator(s[pos - 1])
    &&& pos == s.len() || is_ascii_space(s[pos])
}

/// The first sentence boundary after position `from`.
pub open spec fn boundary_after(s: Seq<char>, from: int) -> Option<int>
    decreases s.len() - from,
{
    if from >= s.len() {
        None
    } else if boundary_at(s, from + 1) {
        Some(from + 1)
    } else {
        boundary_after(s, from + 1)
    }
}

/// What is left of a text behind a boundary, without leading whitespace.
pub open spec fn rest_after(s: Seq<char>, pos: int) -> Seq<char> {
    trimmed_start(s.skip(pos))
}

proof fn lemma_trimmed_start_len(s: Seq<char>)
    ensures
        trimmed_start(s).len() <= s.len(),
    decreases s.len(),
{
    if s.len() > 0 && is_space(s[0]) {
        lemma_trimmed_start_len(s.skip(1));
    }
}

proof fn lemma_boundary_after(s: Seq<char>, from: int)
    requires
        0 <= from,
    ensures
        match boundary_after(s, from) {
            Some(p) => from < p && boundary_at(s, p) && forall|q: int|
                from < q < p ==> !boundary_at(s, q),
            None => forall|q: int| from < q ==> !boundary_at(s, q),
        },
    decreases s.len() - from,
{
    if from < s.len() && !boundary_at(s, from + 1) {
        lemma_boundary_after(s, from + 1);
    }
}

/// The complete sentences of a text, each without surrounding whitespace.
pub open spec fn sentences(s: Seq<char>) -> Seq<Seq<char>>
    decreases s.len() via sentences_decreases
{
    match boundary_after(s, 0) {
        Some(p) => {
            let rest = sentences(rest_after(s, p));
            if trimmed(s.take(p)).len() > 0 {
                seq![trimmed(s.take(p))] + rest
            } else {
                rest
            }
        },
        None => Seq::empty(),
    }
}

#[via_fn]
proof fn sentences_decreases(s: Seq<char>) {
    lemma_boundary_after(s, 0);
    if let Some(p) = boundary_after(s, 0) {
        lemma_trimmed_start_len(s.skip(p));
    }
}

/// The part of a text behind its last complete sentence.
pub open spec fn unfinished(s: Seq<char>) -> Seq<char>
    decreases s.len() via unfinished_decreases
{
    match boundary_after(s, 0) {
        Some(p) => unfinished(rest_after(s, p)),
        None => s,
    }
}

#[via_fn]
proof fn unfinished_decreases(s: Seq<char>) {
    lemma_boundary_after(s, 0);
    if let Some(p) = boundary_after(s, 0) {
        lemma_trimmed_start_len(s.skip(p));
    }
}

/// Segments made of the given texts, all aggregated in one way.
pub open spec fn labelled(texts: Seq<Seq<char>>, by: Seq<char>) -> Seq<AggregatedTextView> {
    texts.map_values(|t: Seq<char>| AggregatedTextView { text: t, aggregated_by: by })
}

fn is_ascii_whitespace(c: char) -> (r: bool)
    ensures
        r == is_ascii_space(c),
{
    c == ' ' || c == '\t' || c == '\n' || c as u32 == 0x0C || c == '\r'
}

impl SimpleTextAggregator {
    /// The text that waits for the end of its sentence.
    pub closed spec fn pending(&self) -> Seq<char> {
        self.buffer@
    }

    /// The aggregation mode.
    pub closed spec fn mode_of(&self) -> TextAggregationMode {
        self.mode
    }

    pub fn new(mode: TextAggregationMode) -> (r: Self)
        ensures
            r.mode_of() == mode,
            r.pending() == Seq::<char>::empty(),
    {
        Self { mode, buffer: Vec::new() }
    }

    /// Returns the aggregation mode.
    pub fn mode(&self) -> (r: TextAggregationMode)
        ensures
            r == self.mode_of(),
    {
        self.mode
    }

    /// Process incoming text and return any complete segments.
    pub fn process(&mut self, text: &str) -> (r: Vec<AggregatedText>)
        ensures
            final(self).mode_of() == old(self).mode_of(),
            match old(self).mode_of() {
                TextAggregationMode::Token => {
                    &&& final(self).pending() == old(self).pending()
                    &&& segments_of(r@) == labelled(
                        if text@.len() == 0 {
                            Seq::empty()
                        } else {
                            seq![text@]
                        },
                        "token"@,
                    )
                },
                TextAggregationMode::Sentence => {
                    &&& final(self).pending() == unfinished(old(self).pending() + text@)
                    &&& segments_of(r@) == labelled(
                        sentences(old(self).pending() + text@),
                        "sentence"@,
                    )
                },
            },
    {
        match self.mode {
            TextAggregationMode::Token => {
                let mut out: Vec<AggregatedText> = Vec::new();
                if !text.is_empty() {
                    out.push(
                        AggregatedText { text: text.to_owned(), aggregated_by: "token".to_owned() },
                    );
                }
                proof {
                    let texts = if text@.len() == 0 {
                        Seq::empty()
                    } else {
                        seq![text@]
                    };
                    assert(segments_of(out@) =~= labelled(texts, "token"@));
                }
                out
            },
            TextAggregationMode::Sentence => {
                let mut chars = chars_of(text);
                self.buffer.append(&mut chars);
                self.extract_sentences()
            },
        }
    }

    /// Flush any remaining buffered text as a final segment.
    pub fn flush(&mut self) -> (r: Option<AggregatedText>)
        ensures
            final(self).mode_of() == old(self).mode_of(),
            final(self).pending() == Seq::<char>::empty(),
            trimmed(old(self).pending()).len() == 0 ==> r is None,
            trimmed(old(self).pending()).len() > 0 ==> r is Some && r->0@ == (AggregatedTextView {
                text: trimmed(old(self).pending()),
                aggregated_by: "sentence"@,
            }),
    {
        let n: usize = self.buffer.len();
        proof {
            assert(self.buffer@.subrange(0, n as int) =~= self.buffer@);
        }
        let text = trim_range(&self.buffer, 0, n);
        self.buffer.clear();
        if text.as_str().is_empty() {
            return None;
        }
        Some(AggregatedText { text, aggregated_by: "sentence".to_owned() })
    }

    /// Reset the aggregator, discarding any buffered text.
    pub fn reset(&mut self)
        ensures
            final(self).mode_of() == old(self).mode_of(),
            final(self).pending() == Seq::<char>::empty(),
    {
        self.buffer.clear();
    }

    /// Extract complete sentences from the buffer.
    pub fn extract_sentences(&mut self) -> (r: Vec<AggregatedText>)
        ensures
            final(self).mode_of() == old(self).mode_of(),
            final(self).pending() == unfinished(old(self).pending()),
            segments_of(r@) == labelled(sentences(old(self).pending()), "sentence"@),
    {
        let mut results: Vec<AggregatedText> = Vec::new();
        let ghost whole = self.buffer@;
        proof {
            assert(labelled(Seq::empty(), "sentence"@) + labelled(sentences(whole), "sentence"@)
                =~= labelled(sentences(whole), "sentence"@));
            assert(segments_of(results@) =~= labelled(Seq::empty(), "sentence"@));
        }
        loop
            invariant
                self.mode == old(self).mode,
                unfinished(self.buffer@) == unfinished(whole),
                segments_of(results@) + labelled(sentences(self.buffer@), "sentence"@) == labelled(
                    sentences(whole),
                    "sentence"@,
                ),
            ensures
                boundary_after(self.buffer@, 0) is None,
            decreases self.buffer@.len(),
        {
            match self.find_sentence_boundary() {
                Some(pos) => {
                    let ghost before = self.buffer@;
                    let ghost done = segments_of(results@);
                    let n: usize = self.buffer.len();
                    let sentence = trim_range(&self.buffer, 0, pos);
                    let start: usize = skip_leading(&self.buffer, pos, n);
                    self.buffer = self.buffer.split_off(start);
                    proof {
                        assert(before.subrange(0, pos as int) =~= before.take(pos as int));
                        assert(before.subrange(pos as int, n as int) =~= before.skip(pos as int));
                        assert(self.buffer@ =~= rest_after(before, pos as int));
                        lemma_trimmed_start_len(before.skip(pos as int));
                        assert(labelled(seq![sentence@] + sentences(self.buffer@), "sentence"@)
                            =~= labelled(seq![sentence@], "sentence"@) + labelled(
                            sentences(self.buffer@),
                            "sentence"@,
                        ));
                    }
                    if !sentence.as_str().is_empty() {
                        let ghost text = sentence@;
                        results.push(
                            AggregatedText { text: sentence, aggregated_by: "sentence".to_owned() },
                        );
                        proof {
                            assert(segments_of(results@) =~= done + labelled(
                                seq![text],
                                "sentence"@,
                            ));
                            assert(segments_of(results@) + labelled(
                                sentences(self.buffer@),
                                "sentence"@,
                            ) =~= done + labelled(sentences(before), "sentence"@));
                        }
                    }
                },
                None => break,
            }
        }
        proof {
            assert(labelled(sentences(self.buffer@), "sentence"@) =~= Seq::empty());
            assert(segments_of(results@) + Seq::<AggregatedTextView>::empty() =~= segments_of(
                results@,
            ));
        }
        results
    }

    /// Find a sentence boundary: `.`, `!`, or `?` followed by whitespace or end
    /// of buffer. Returns the position behind it, counted in characters.
    pub fn find_sentence_boundary(&self) -> (r: Option<usize>)
        ensures
            match r {
                Some(p) => boundary_after(self.pending(), 0) == Some(p as int) && 0 < p
                    <= self.pending().len(),
                None => boundary_after(self.pending(), 0) is None,
            },
    {
        let n: usize = self.buffer.len();
        let mut i: usize = 0;
        while i < n
            invariant
                i <= n == self.buffer@.len(),
                boundary_after(self.buffer@, 0) == boundary_after(self.buffer@, i as int),
            decreases n - i,
        {
            let c: char = self.buffer[i];
            if c == '.' || c == '!' || c == '?' {
                let end: usize = i + 1;
                if end >= n || is_ascii_whitespace(self.buffer[end]) {
                    return Some(end);
                }
            }
            i = i + 1;
        }
        None
    }
}

/// The characters of a text that are not whitespace.
pub open spec fn solid(s: Seq<char>) -> Seq<char>
    decreases s.len(),
{
    if s.len() == 0 {
        s
    } else if is_space(s.last()) {
        solid(s.drop_last())
    } else {
        solid(s.drop_last()).push(s.last())
    }
}

/// Texts put one behind the other.
pub open spec fn joined(texts: Seq<Seq<char>>) -> Seq<char>
    decreases texts.len(),
{
    if texts.len() == 0 {
        Seq::empty()
    } else {
        texts[0] + joined(texts.skip(1))
    }
}

pub(crate) proof fn lemma_solid_concat(a: Seq<char>, b: Seq<char>)
    ensures
        solid(a + b) == solid(a) + solid(b),
    decreases b.len(),
{
    if b.len() == 0 {
        assert(a + b =~= a);
        assert(solid(a) + solid(b) =~= solid(a));
    } else {
        assert((a + b).drop_last() =~= a + b.drop_last());
        lemma_solid_concat(a, b.drop_last());
        assert((solid(a) + solid(b.drop_last())).push(b.last()) =~= solid(a) + solid(
            b.drop_last(),
        ).push(b.last()));
    }
}

proof fn lemma_solid_trimmed_start(s: Seq<char>)
    ensures
        solid(trimmed_start(s)) == solid(s),
    decreases s.len(),
{
    if s.len() > 0 && is_space(s[0]) {
        lemma_solid_trimmed_start(s.skip(1));
        assert(s =~= seq![s[0]] + s.skip(1));
        lemma_solid_concat(seq![s[0]], s.skip(1));
        reveal_with_fuel(solid, 2);
        assert(solid(seq![s[0]]) =~= Seq::<char>::empty());
        assert(Seq::<char>::empty() + solid(s.skip(1)) =~= solid(s.skip(1)));
    }
}

pub(crate) proof fn lemma_solid_trimmed(s: Seq<char>)
    ensures
        solid(trimmed(s)) == solid(s),
    decreases s.len(),
{
    lemma_solid_trimmed_start(trimmed_end(s));
    lemma_solid_trimmed_end(s);
}

proof fn lemma_solid_trimmed_end(s: Seq<char>)
    ensures
        solid(trimmed_end(s)) == solid(s),
    decreases s.len(),
{
    if s.len() > 0 && is_space(s.last()) {
        lemma_solid_trimmed_end(s.drop_last());
    }
}

/// Sentence aggregation loses nothing but whitespace: the sentences and the
/// unfinished rest hold, in order, every other character of the text.
pub proof fn lemma_sentences_lose_only_whitespace(s: Seq<char>)
    ensures
        solid(joined(sentences(s))) + solid(unfinished(s)) == solid(s),
    decreases s.len(),
{
    lemma_boundary_after(s, 0);
    match boundary_after(s, 0) {
        Some(p) => {
            let head = trimmed(s.take(p));
            let rest = rest_after(s, p);
            lemma_trimmed_start_len(s.skip(p));
            lemma_sentences_lose_only_whitespace(rest);
            lemma_solid_trimmed(s.take(p));
            lemma_solid_trimmed_start(s.skip(p));
            assert(s =~= s.take(p) + s.skip(p));
            lemma_solid_concat(s.take(p), s.skip(p));
            if head.len() > 0 {
                assert(sentences(s).skip(1) =~= sentences(rest));
                lemma_solid_concat(head, joined(sentences(rest)));
                assert(solid(head) + solid(joined(sentences(rest))) + solid(unfinished(rest))
                    =~= solid(head) + (solid(joined(sentences(rest))) + solid(unfinished(rest))));
            } else {
                assert(solid(head) + solid(s.skip(p)) =~= solid(s.skip(p)));
            }
        },
        None => {
            assert(solid(Seq::<char>::empty()) + solid(s) =~= solid(s));
        },
    }
}

/// What stays behind after aggregation holds no complete sentence.
pub proof fn lemma_unfinished_has_no_boundary(s: Seq<char>)
    ensures
        forall|pos: int| !boundary_at(unfinished(s), pos),
        sentences(unfinished(s)) == Seq::<Seq<char>>::empty(),
        unfinished(unfinished(s)) == unfinished(s),
    decreases s.len(),
{
    lemma_boundary_after(s, 0);
    if let Some(p) = boundary_after(s, 0) {
        lemma_trimmed_start_len(s.skip(p));
        lemma_unfinished_has_no_boundary(rest_after(s, p));
    }
}

proof fn lemma_trimmed_ends(s: Seq<char>)
    requires
        s.len() > 0,
        !is_space(s.last()),
    ensures
        trimmed_start(s).len() > 0,
        trimmed_start(s).last() == s.last(),
        !is_space(trimmed_start(s)[0]),
    decreases s.len(),
{
    if is_space(s[0]) {
        lemma_trimmed_ends(s.skip(1));
    }
}

/// A text without leading whitespace is what follows some position in it.
proof fn lemma_trimmed_start_skips(s: Seq<char>) -> (from: int)
    ensures
        0 <= from <= s.len(),
        trimmed_start(s) == s.skip(from),
    decreases s.len(),
{
    if s.len() > 0 && is_space(s[0]) {
        let rest = lemma_trimmed_start_skips(s.skip(1));
        assert(s.skip(1).skip(rest) =~= s.skip(rest + 1));
        rest + 1
    } else {
        assert(s.skip(0) =~= s);
        0
    }
}

/// Whether no `.`, `!` or `?` inside a text is followed by ASCII whitespace.
pub open spec fn undivided(s: Seq<char>) -> bool {
    forall|k: int|
        0 <= k < s.len() - 1 && is_terminator(#[trigger] s[k]) ==> !is_ascii_space(s[k + 1])
}

/// Every sentence is non-empty, has no whitespace at either end, ends in `.`,
/// `!` or `?`, and holds no other sentence end.
pub proof fn lemma_sentences_are_trimmed(s: Seq<char>)
    ensures
        forall|i: int|
            0 <= i < sentences(s).len() ==> {
                &&& (#[trigger] sentences(s)[i]).len() > 0
                &&& !is_space(sentences(s)[i][0])
                &&& is_terminator(sentences(s)[i].last())
                &&& undivided(sentences(s)[i])
            },
    decreases s.len(),
{
    lemma_boundary_after(s, 0);
    if let Some(p) = boundary_after(s, 0) {
        lemma_trimmed_start_len(s.skip(p));
        lemma_sentences_are_trimmed(rest_after(s, p));
        assert(s.take(p).last() == s[p - 1]);
        lemma_trimmed_ends(s.take(p));
        let head = trimmed(s.take(p));
        let from = lemma_trimmed_start_skips(s.take(p));
        assert(head == s.take(p).skip(from));
        assert forall|k: int| 0 <= k < head.len() - 1 && is_terminator(#[trigger] head[k]) implies
            !is_ascii_space(head[k + 1]) by {
            assert(!boundary_at(s, from + k + 1));
        }
        assert(sentences(s) =~= seq![head] + sentences(rest_after(s, p)));
    }
}

proof fn lemma_trimmed_end_lead(c: char, s: Seq<char>)
    requires
        is_space(c),
    ensures
        trimmed(seq![c] + s) == trimmed(s),
    decreases s.len(),
{
    let t = seq![c] + s;
    if s.len() == 0 {
        reveal_with_fuel(trimmed_end, 2);
        assert(t.drop_last() =~= s);
    } else if is_space(s.last()) {
        assert(t.drop_last() =~= seq![c] + s.drop_last());
        lemma_trimmed_end_lead(c, s.drop_last());
    } else {
        assert(t.skip(1) =~= s);
    }
}

/// Leading whitespace makes no difference to the sentences of a text, nor to
/// what is flushed of it.
proof fn lemma_leading_whitespace(s: Seq<char>)
    ensures
        sentences(trimmed_start(s)) == sentences(s),
        trimmed(unfinished(trimmed_start(s))) == trimmed(unfinished(s)),
    decreases s.len(),
{
    if s.len() > 0 && is_space(s[0]) {
        let t = s.skip(1);
        lemma_leading_whitespace(t);
        lemma_boundary_after(s, 0);
        lemma_boundary_after(t, 0);
        assert(s =~= seq![s[0]] + t);
        assert(!boundary_at(s, 1));
        assert forall|q: int| 0 < q implies boundary_at(t, q) == #[trigger] boundary_at(s, q + 1) by {
            if q <= t.len() {
                assert(t[q - 1] == s[q]);
                if q < t.len() {
                    assert(t[q] == s[q + 1]);
                }
            }
        }
        match boundary_after(t, 0) {
            Some(p) => {
                assert(boundary_at(s, p + 1));
                assert forall|q: int| 0 < q < p + 1 implies !boundary_at(s, q) by {
                    if q > 1 {
                        assert(boundary_at(t, q - 1) == boundary_at(s, q - 1 + 1));
                    }
                }
                assert(boundary_after(s, 0) == Some(p + 1));
                assert(s.take(p + 1) =~= seq![s[0]] + t.take(p));
                lemma_trimmed_end_lead(s[0], t.take(p));
                assert(s.skip(p + 1) =~= t.skip(p));
            },
            None => {
                assert(boundary_after(s, 0) is None) by {
                    if let Some(p) = boundary_after(s, 0) {
                        assert(boundary_at(t, p - 1) == boundary_at(s, p - 1 + 1));
                    }
                }
                lemma_trimmed_end_lead(s[0], t);
            },
        }
    }
}

proof fn lemma_trimmed_start_concat(s: Seq<char>, b: Seq<char>)
    ensures
        trimmed_start(s).len() > 0 ==> trimmed_start(s + b) == trimmed_start(s) + b,
        trimmed_start(s).len() == 0 ==> trimmed_start(s + b) == trimmed_start(b),
    decreases s.len(),
{
    if s.len() > 0 && is_space(s[0]) {
        assert((s + b).skip(1) =~= s.skip(1) + b);
        lemma_trimmed_start_concat(s.skip(1), b);
    } else if s.len() == 0 {
        assert(s + b =~= b);
    }
}

proof fn lemma_cut(s: Seq<char>, b: Seq<char>)
    requires
        s.len() == 0 || !is_terminator(s.last()),
    ensures
        sentences(s + b) == sentences(s) + sentences(unfinished(s) + b),
        trimmed(unfinished(s + b)) == trimmed(unfinished(unfinished(s) + b)),
    decreases s.len(),
{
    lemma_boundary_after(s, 0);
    lemma_boundary_after(s + b, 0);
    match boundary_after(s, 0) {
        Some(p) => {
            assert(p < s.len()) by {
                if p == s.len() {
                    assert(s[p - 1] == s.last());
                }
            }
            let all = s + b;
            assert forall|q: int| 0 < q <= p implies boundary_at(all, q) == #[trigger] boundary_at(s, q)
                by {
                assert(all[q - 1] == s[q - 1] && all[q] == s[q]);
            }
            assert(boundary_at(all, p) == boundary_at(s, p));
            let found = boundary_after(all, 0);
            assert(found is Some && found->0 <= p);
            assert(boundary_at(all, found->0) == boundary_at(s, found->0));
            assert(found == Some(p));
            assert(all.take(p) =~= s.take(p));
            assert(all.skip(p) =~= s.skip(p) + b);
            let rest = rest_after(s, p);
            lemma_trimmed_start_len(s.skip(p));
            lemma_trimmed_start_concat(s.skip(p), b);
            let head = if trimmed(s.take(p)).len() > 0 {
                seq![trimmed(s.take(p))]
            } else {
                Seq::empty()
            };
            assert(sentences(s) =~= head + sentences(rest));
            assert(sentences(all) =~= head + sentences(rest_after(all, p)));
            if rest.len() > 0 {
                let from = lemma_trimmed_start_skips(s.skip(p));
                assert(rest.last() == s.last());
                lemma_cut(rest, b);
                assert(sentences(all) =~= sentences(s) + sentences(unfinished(s) + b));
            } else {
                lemma_leading_whitespace(b);
                lemma_boundary_after(rest, 0);
                assert(unfinished(s) =~= Seq::empty());
                assert(unfinished(s) + b =~= b);
                assert(sentences(rest) =~= Seq::empty());
                assert(sentences(all) =~= sentences(s) + sentences(unfinished(s) + b));
            }
        },
        None => {
            assert(sentences(s) + sentences(s + b) =~= sentences(s + b));
        },
    }
}

/// Where a stream is cut into texts makes no difference in sentence mode, unless
/// the cut falls right behind a `.`, `!` or `?`: the texts `a` and `b` one after
/// the other complete the sentences that `a + b` completes at once, and leave
/// the same text to be flushed. What waits at first is what an aggregator can
/// hold: a text without a sentence end.
pub proof fn lemma_cuts_do_not_matter(pending: Seq<char>, a: Seq<char>, b: Seq<char>)
    requires
        unfinished(pending) == pending,
        a.len() == 0 || !is_terminator(a.last()),
    ensures
        sentences(pending + a) + sentences(unfinished(pending + a) + b) == sentences(
            pending + (a + b),
        ),
        trimmed(unfinished(unfinished(pending + a) + b)) == trimmed(
            unfinished(pending + (a + b)),
        ),
{
    assert(pending + a + b =~= pending + (a + b));
    if a.len() == 0 {
        assert(pending + a =~= pending);
        lemma_unfinished_has_no_boundary(pending);
        if pending.len() > 0 {
            assert(!boundary_at(pending, pending.len() as int));
        }
    } else {
        assert((pending + a).last() == a.last());
    }
    lemma_cut(pending + a, b);
}

} // verus!
