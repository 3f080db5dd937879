//! Text aggregation.
use pipecat::services::text_aggregator::{SimpleTextAggregator, TextAggregationMode};
use pipecat::text::{count_words, decimal, hexadecimal, is_whitespace, trim};

#[test]
fn sentence_mode_single_sentence() {
    let mut agg = SimpleTextAggregator::new(TextAggregationMode::Sentence);
    let results = agg.process("Hello world. ");
    assert_eq!(results.len(), 1);
    assert_eq!(results[0].text, "Hello world.");
    assert_eq!(results[0].aggregated_by, "sentence");
}

#[test]
fn sentence_mode_multi_sentence() {
    let mut agg = SimpleTextAggregator::new(TextAggregationMode::Sentence);
    let results = agg.process("First sentence. Second sentence! Third? ");
    assert_eq!(results.len(), 3);
    assert_eq!(results[0].text, "First sentence.");
    assert_eq!(results[1].text, "Second sentence!");
    assert_eq!(results[2].text, "Third?");
}

#[test]
fn sentence_mode_partial_then_complete() {
    let mut agg = SimpleTextAggregator::new(TextAggregationMode::Sentence);

    let r1 = agg.process("Hello wo");
    assert!(r1.is_empty());

    let r2 = agg.process("rld. How");
    assert_eq!(r2.len(), 1);
    assert_eq!(r2[0].text, "Hello world.");

    let r3 = agg.process(" are you? ");
    assert_eq!(r3.len(), 1);
    assert_eq!(r3[0].text, "How are you?");
}

#[test]
fn sentence_mode_flush_remainder() {
    let mut agg = SimpleTextAggregator::new(TextAggregationMode::Sentence);
    agg.process("Hello world");

    let flushed = agg.flush();
    assert!(flushed.is_some());
    assert_eq!(flushed.unwrap().text, "Hello world");
}

#[test]
fn sentence_mode_flush_empty() {
    let mut agg = SimpleTextAggregator::new(TextAggregationMode::Sentence);
    assert!(agg.flush().is_none());
}

#[test]
fn sentence_mode_flush_after_complete_sentence() {
    let mut agg = SimpleTextAggregator::new(TextAggregationMode::Sentence);
    let results = agg.process("Done. ");
    assert_eq!(results.len(), 1);
    assert!(agg.flush().is_none());
}

#[test]
fn token_mode_passthrough() {
    let mut agg = SimpleTextAggregator::new(TextAggregationMode::Token);
    let results = agg.process("Hello");
    assert_eq!(results.len(), 1);
    assert_eq!(results[0].text, "Hello");
    assert_eq!(results[0].aggregated_by, "token");
}

#[test]
fn token_mode_empty_input() {
    let mut agg = SimpleTextAggregator::new(TextAggregationMode::Token);
    let results = agg.process("");
    assert!(results.is_empty());
}

#[test]
fn reset_clears_buffer() {
    let mut agg = SimpleTextAggregator::new(TextAggregationMode::Sentence);
    agg.process("partial");
    agg.reset();
    assert!(agg.flush().is_none());
}

#[test]
fn abbreviations_not_split() {
    let mut agg = SimpleTextAggregator::new(TextAggregationMode::Sentence);
    let results = agg.process("Dr.Smith is here. ");
    assert_eq!(results.len(), 1);
    assert_eq!(results[0].text, "Dr.Smith is here.");
}

#[test]
fn end_of_text_ends_a_sentence() {
    let mut agg = SimpleTextAggregator::new(TextAggregationMode::Sentence);
    assert_eq!(agg.mode(), TextAggregationMode::Sentence);
    let results = agg.process("\u{a0}Grüße aus Köln!\n Und");
    assert_eq!(results.len(), 1);
    assert_eq!(results[0].text, "Grüße aus Köln!");
    assert_eq!(agg.find_sentence_boundary(), None);
    let results = agg.process(" mehr?");
    assert_eq!(results[0].text, "Und mehr?");
}

#[test]
fn only_whitespace_is_lost() {
    let text = "One.  Two!\tThree?\n\nFour";
    let mut agg = SimpleTextAggregator::new(TextAggregationMode::Sentence);
    let mut parts: Vec<String> = agg.process(text).into_iter().map(|s| s.text).collect();
    parts.push(agg.flush().unwrap().text);
    let solid = |s: &str| s.chars().filter(|c| !c.is_whitespace()).collect::<String>();
    assert_eq!(solid(&parts.concat()), solid(text));
}

#[test]
fn cuts_do_not_matter_but_behind_terminators() {
    let text = "Dr.No. \u{a0} 3.5 km!  Is it? Well";
    let chars: Vec<char> = text.chars().collect();
    let run = |pieces: &[String]| -> (Vec<String>, Option<String>) {
        let mut agg = SimpleTextAggregator::new(TextAggregationMode::Sentence);
        let mut texts = Vec::new();
        for piece in pieces {
            texts.extend(agg.process(piece).into_iter().map(|s| s.text));
        }
        (texts, agg.flush().map(|s| s.text))
    };
    let whole = run(&[text.to_string()]);
    assert_eq!(whole.0, vec!["Dr.No.", "3.5 km!", "Is it?"]);
    for cut in 0..=chars.len() {
        let (a, b): (String, String) =
            (chars[..cut].iter().collect(), chars[cut..].iter().collect());
        if !a.ends_with(['.', '!', '?']) {
            assert_eq!(run(&[a, b]), whole, "cut at {cut}");
        }
    }
    assert_ne!(run(&["Dr.".to_string(), "No. x".to_string()]), run(&["Dr.No. x".to_string()]));
}

#[test]
fn whitespace_agrees_with_unicode() {
    for n in 0..=0x10FFFFu32 {
        if let Some(c) = char::from_u32(n) {
            assert_eq!(is_whitespace(c), c.is_whitespace(), "{n:x}");
        }
    }
}

#[test]
fn text_helpers() {
    for s in ["", " a b ", "\u{2003}x\u{85}", "one two\nthree", "ünï cödé"] {
        assert_eq!(trim(s), s.trim());
        assert_eq!(count_words(s), s.split_whitespace().count());
    }
    for n in [0u64, 7, 10, 99, 12345678901234567890] {
        assert_eq!(decimal(n), format!("{n}"));
    }
    for n in [0u128, 255, u128::MAX, 0x0123456789abcdef] {
        assert_eq!(hexadecimal(n, 32), format!("{n:032x}"));
    }
}
