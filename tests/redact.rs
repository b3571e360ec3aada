use redactor::quotes::{bucket_length, generate_shakespeare, quote_bucket, quote_from_offset};
use redactor::redact::{
    capitalize, generate_redacted, render_redacted, Closing, EmojiDraw, Mark, Misspelling,
    Punctuation, Typo, WordDraw,
};

fn words() -> Vec<String> {
    ["apple", "river", "stone", "light", "window", "garden"].iter().map(|s| s.to_string()).collect()
}

fn emojis() -> Vec<String> {
    vec!["smile".to_string(), "wave".to_string()]
}

fn plain(word: usize) -> WordDraw {
    WordDraw { word, misspelling: None, capitalize: false, punctuation: None, emoji: None }
}

#[test]
fn capitalize_uppercases_first_character() {
    assert_eq!(capitalize("hello"), "Hello");
    assert_eq!(capitalize(""), "");
    assert_eq!(capitalize("ßa"), "SSa");
    assert_eq!(capitalize("élan"), "Élan");
}

#[test]
fn rendering_follows_the_draws() {
    let mut first = plain(0);
    first.capitalize = true;
    first.punctuation = Some(Punctuation { mark: Mark::Comma, repeats: 2 });
    let mut second = plain(1);
    second.capitalize = true;
    second.emoji = Some(EmojiDraw { index: 1, before: true });
    second.punctuation = Some(Punctuation { mark: Mark::Exclamation, repeats: 1 });
    let mut third = plain(2);
    third.capitalize = true;
    third.misspelling = Some(Misspelling { typo: Typo::Double, pos: 1 });
    let closing = Closing { mark: Mark::Question, ellipsis: Some(false) };
    let text = render_redacted(&words(), &emojis(), &vec![first, second, third], closing);
    assert_eq!(text, "Apple, river :wave:!! Sttone?...");
}

#[test]
fn rendering_keeps_a_closed_sentence() {
    let mut d = plain(3);
    d.punctuation = Some(Punctuation { mark: Mark::Period, repeats: 0 });
    d.emoji = Some(EmojiDraw { index: 0, before: false });
    d.misspelling = Some(Misspelling { typo: Typo::Replace('x'), pos: 0 });
    let mut e = plain(4);
    e.punctuation = Some(Punctuation { mark: Mark::Question, repeats: 0 });
    e.misspelling = Some(Misspelling { typo: Typo::Drop, pos: 5 });
    let closing = Closing { mark: Mark::Period, ellipsis: Some(true) };
    let text = render_redacted(&words(), &emojis(), &vec![d, e], closing);
    assert_eq!(text, "...xight. :smile: windo?");
}

fn word_tokens(text: &str) -> usize {
    text.split_whitespace().filter(|t| !t.starts_with(':')).count()
}

#[test]
fn filler_has_four_to_nineteen_words() {
    for _ in 0..2000 {
        let text = generate_redacted(&words(), &emojis());
        let n = word_tokens(&text);
        assert!((4..=19).contains(&n), "{n} words in {text:?}");
        assert!(text.ends_with(['.', '!', '?']), "{text:?}");
    }
}

#[test]
fn filler_punctuation_follows_its_weights() {
    // Each run of one mark followed by a space is one drawn mark after a word.
    let mut counts = [0usize; 4];
    for _ in 0..10000 {
        let text: Vec<char> = generate_redacted(&words(), &emojis()).chars().collect();
        for i in 0..text.len().saturating_sub(1) {
            let slot = match text[i] {
                '.' => 0,
                ',' => 1,
                '!' => 2,
                '?' => 3,
                _ => continue,
            };
            if text[i + 1] == ' ' {
                counts[slot] += 1;
            }
        }
    }
    let total: usize = counts.iter().sum();
    let weights = [70.0, 15.0, 10.0, 5.0];
    for (count, weight) in counts.iter().zip(weights) {
        let share = *count as f64 * 100.0 / total as f64;
        assert!((share - weight).abs() < 3.0, "{counts:?}");
    }
}

#[test]
fn buckets_by_original_length() {
    assert_eq!(quote_bucket(0), 100);
    assert_eq!(quote_bucket(100), 100);
    assert_eq!(quote_bucket(101), 300);
    assert_eq!(quote_bucket(300), 300);
    assert_eq!(quote_bucket(301), 2000);
    assert_eq!(quote_bucket(10000), 2000);
}

fn corpus() -> Vec<u8> {
    let mut c = String::from("THE QUOTES\n\nHAMLET.\nTo be, or not to be.\n\n");
    c.push_str("MACBETH.\n");
    c.push_str(&"Tomorrow, and tomorrow. ".repeat(10));
    c.push_str("\n\nLEAR.\n");
    c.push_str(&"Nothing will come of nothing. ".repeat(100));
    c.push_str("\n\nPUCK.\nLord, what fools these mortals be!\n\n");
    c.into_bytes()
}

#[test]
fn quote_after_a_header_line() {
    let c = corpus();
    assert_eq!(quote_from_offset(0, &c, 0).as_deref(), Some("To be, or not to be."));
    assert_eq!(quote_from_offset(0, &c, 12), None);
    let macbeth = c.windows(7).position(|w| w == b"MACBETH").unwrap();
    assert_eq!(quote_from_offset(0, &c, macbeth - 3), None);
    assert_eq!(quote_from_offset(200, &c, macbeth - 3).unwrap().len(), 240);
}

#[test]
fn quotes_fit_their_bucket() {
    let c = corpus();
    for length in [0usize, 100, 101, 300, 301, 10000] {
        for _ in 0..50 {
            let q = generate_shakespeare(length, &c).unwrap();
            assert!(!q.is_empty());
            assert!(q.len() <= quote_bucket(length), "{length}: {q:?}");
        }
    }
}

#[test]
fn corpus_without_quotes_gives_none() {
    assert_eq!(generate_shakespeare(10, &vec![]), None);
    assert_eq!(generate_shakespeare(10, &b"no headers here\nat all\n".to_vec()), None);
}

#[test]
fn quote_skips_blank_lines_after_its_header() {
    let c = b"x\nPUCK.\n\nLord, what fools.\n\n".to_vec();
    assert_eq!(quote_from_offset(0, &c, 0).as_deref(), Some("Lord, what fools."));
}

#[test]
fn quotes_are_measured_in_utf8_bytes() {
    let mut c = b"x\nPUCK.\n".to_vec();
    c.extend(std::iter::repeat(0xE9u8).take(60));
    c.extend(b"\n\n");
    assert_eq!(quote_from_offset(0, &c, 0), None);
    assert_eq!(quote_from_offset(101, &c, 0), Some("\u{e9}".repeat(60)));
}

#[test]
fn message_length_counts_bytes() {
    assert_eq!(quote_bucket(bucket_length(&"\u{e9}".repeat(60))), 300);
    assert_eq!(quote_bucket(bucket_length(&"a".repeat(60))), 100);
    assert_eq!(quote_bucket(bucket_length(&"\u{e9}".repeat(400))), 2000);
}
