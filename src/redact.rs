//! Filler text that looks like chat: random words with the odd misspelling,
//! capitals at sentence starts, punctuation and emoji tokens.
//!
//! The text is a function of the random draws (`render_redacted`); the generator
//! makes the draws with the weights of the redaction style.
use crate::random::{random_below, random_ratio};
use crate::text::{from_chars, to_chars};
use vstd::prelude::*;

verus! {

/// What `char::to_uppercase` makes of a character.
pub uninterp spec fn upper_of(c: char) -> Seq<char>;

/// Relies on `char::to_uppercase`: the character's upper-case mapping.
#[verifier::external_body]
fn uppercase(c: char) -> (r: String)
    ensures
        r@ == upper_of(c),
{
    c.to_uppercase().collect()
}

/// `s` with its first character in upper case.
pub open spec fn capitalized(s: Seq<char>) -> Seq<char> {
    if s.len() == 0 {
        s
    } else {
        upper_of(s[0]) + s.drop_first()
    }
}

pub fn capitalize(s: &str) -> (r: String)
    ensures
        r@ == capitalized(s@),
{
    let n = s.unicode_len();
    if n == 0 {
        return String::new();
    }
    let mut r = uppercase(s.get_char(0));
    r.append(s.substring_char(1, n));
    assert(s@.subrange(1, n as int) =~= s@.drop_first());
    r
}

#[derive(Clone, Copy, Debug, PartialEq, Eq, Structural)]
pub enum Mark {
    Period,
    Comma,
    Exclamation,
    Question,
}

pub open spec fn mark_char(m: Mark) -> char {
    match m {
        Mark::Period => '.',
        Mark::Comma => ',',
        Mark::Exclamation => '!',
        Mark::Question => '?',
    }
}

fn mark_text(m: Mark) -> (r: &'static str)
    ensures
        r@ == seq![mark_char(m)],
{
    match m {
        Mark::Period => {
            proof {
                reveal_strlit(".");
            }
            "."
        },
        Mark::Comma => {
            proof {
                reveal_strlit(",");
            }
            ","
        },
        Mark::Exclamation => {
            proof {
                reveal_strlit("!");
            }
            "!"
        },
        Mark::Question => {
            proof {
                reveal_strlit("?");
            }
            "?"
        },
    }
}

/// A one-character slip of the keyboard.
#[derive(Clone, Copy, Debug, PartialEq, Eq)]
pub enum Typo {
    /// The character is typed twice.
    Double,
    /// The character is left out.
    Drop,
    /// The character is replaced by another.
    Replace(char),
}

#[derive(Clone, Copy, Debug, PartialEq, Eq)]
pub struct Misspelling {
    pub typo: Typo,
    /// The character's place in the word.
    pub pos: usize,
}

#[derive(Clone, Copy, Debug, PartialEq, Eq)]
pub struct Punctuation {
    pub mark: Mark,
    /// How many more times the mark is written (a comma is never repeated).
    pub repeats: u8,
}

#[derive(Clone, Copy, Debug, PartialEq, Eq)]
pub struct EmojiDraw {
    /// The emoji's place in the emoji list.
    pub index: usize,
    /// Whether the token goes before the word's punctuation.
    pub before: bool,
}

/// The random choices for one word.
#[derive(Clone, Copy, Debug, PartialEq, Eq)]
pub struct WordDraw {
    /// The word's place in the word list.
    pub word: usize,
    pub misspelling: Option<Misspelling>,
    /// Whether the word is capitalized, if capitals are allowed at this point.
    pub capitalize: bool,
    pub punctuation: Option<Punctuation>,
    pub emoji: Option<EmojiDraw>,
}

/// The random choices made after the last word.
#[derive(Clone, Copy, Debug, PartialEq, Eq)]
pub struct Closing {
    /// The mark added when the text does not already end a sentence.
    pub mark: Mark,
    /// An ellipsis: `Some(true)` before the text, `Some(false)` after it.
    pub ellipsis: Option<bool>,
}

/// The text so far and what the next word sees of it.
pub struct Rendering {
    pub text: Seq<char>,
    /// Capitals are allowed until a word is capitalized or a comma is written,
    /// and again after a sentence-ending mark.
    pub can_capitalize: bool,
    /// Words since the last sentence-ending mark.
    pub sentence_length: nat,
}

pub open spec fn misspelled(w: Seq<char>, m: Option<Misspelling>) -> Seq<char> {
    match m {
        None => w,
        Some(m) => if m.pos < w.len() {
            match m.typo {
                Typo::Double => w.insert(m.pos as int, w[m.pos as int]),
                Typo::Drop => w.remove(m.pos as int),
                Typo::Replace(c) => w.update(m.pos as int, c),
            }
        } else {
            w
        },
    }
}

pub open spec fn repeated(c: char, n: nat) -> Seq<char>
    decreases n,
{
    if n == 0 {
        Seq::<char>::empty()
    } else {
        repeated(c, (n - 1) as nat).push(c)
    }
}

pub open spec fn punctuation_text(p: Option<Punctuation>) -> Seq<char> {
    match p {
        None => Seq::<char>::empty(),
        Some(p) => repeated(
            mark_char(p.mark),
            if p.mark == Mark::Comma {
                1
            } else {
                (1 + p.repeats) as nat
            },
        ),
    }
}

pub open spec fn emoji_token(emojis: Seq<String>, e: EmojiDraw) -> Seq<char> {
    " :"@ + emojis[e.index as int]@ + ":"@
}

pub open spec fn initial_rendering() -> Rendering {
    Rendering { text: Seq::<char>::empty(), can_capitalize: true, sentence_length: 0 }
}

/// Adds one word: a space unless it is the first, the word (misspelled, and
/// capitalized when the draw says so and capitals are allowed), then the emoji
/// token before or after the punctuation.
pub open spec fn render_word(
    words: Seq<String>,
    emojis: Seq<String>,
    st: Rendering,
    d: WordDraw,
) -> Rendering {
    let base = misspelled(words[d.word as int]@, d.misspelling);
    let cap = st.can_capitalize && d.capitalize;
    let word = if cap {
        capitalized(base)
    } else {
        base
    };
    let sep = if st.text.len() == 0 {
        Seq::<char>::empty()
    } else {
        seq![' ']
    };
    let before = match d.emoji {
        Some(e) => if e.before {
            emoji_token(emojis, e)
        } else {
            Seq::<char>::empty()
        },
        None => Seq::<char>::empty(),
    };
    let after = match d.emoji {
        Some(e) => if e.before {
            Seq::<char>::empty()
        } else {
            emoji_token(emojis, e)
        },
        None => Seq::<char>::empty(),
    };
    let ends_sentence = d.punctuation is Some && d.punctuation->Some_0.mark != Mark::Comma;
    Rendering {
        text: st.text + sep + word + before + punctuation_text(d.punctuation) + after,
        can_capitalize: if d.punctuation is Some {
            ends_sentence
        } else {
            st.can_capitalize && !cap
        },
        sentence_length: if ends_sentence {
            0
        } else {
            st.sentence_length + 1
        },
    }
}

pub open spec fn render_words(words: Seq<String>, emojis: Seq<String>, ds: Seq<WordDraw>) -> Rendering
    decreases ds.len(),
{
    if ds.len() == 0 {
        initial_rendering()
    } else {
        render_word(words, emojis, render_words(words, emojis, ds.drop_last()), ds.last())
    }
}

pub open spec fn ends_sentence(t: Seq<char>) -> bool {
    t.len() > 0 && (t.last() == '.' || t.last() == '!' || t.last() == '?')
}

/// Ends the last sentence when it is open, then adds the ellipsis, if any.
pub open spec fn finished_text(t: Seq<char>, c: Closing) -> Seq<char> {
    let closed = if ends_sentence(t) {
        t
    } else {
        t.push(mark_char(c.mark))
    };
    match c.ellipsis {
        None => closed,
        Some(at_start) => if at_start {
            "..."@ + closed
        } else {
            closed + "..."@
        },
    }
}

/// The filler text that the draws make.
pub open spec fn redacted_text(
    words: Seq<String>,
    emojis: Seq<String>,
    ds: Seq<WordDraw>,
    c: Closing,
) -> Seq<char> {
    finished_text(render_words(words, emojis, ds).text, c)
}

/// Whether a draw picks existing words and emojis.
pub open spec fn draw_fits(d: WordDraw, n_words: nat, n_emojis: nat) -> bool {
    &&& d.word < n_words
    &&& (d.emoji is Some ==> d.emoji->Some_0.index < n_emojis)
}

pub open spec fn draws_fit(ds: Seq<WordDraw>, n_words: nat, n_emojis: nat) -> bool {
    forall|i: int| 0 <= i < ds.len() ==> draw_fits(#[trigger] ds[i], n_words, n_emojis)
}

fn misspell(w: &str, m: Option<Misspelling>) -> (r: String)
    ensures
        r@ == misspelled(w@, m),
{
    match m {
        None => w.to_owned(),
        Some(m) => {
            let mut v = to_chars(w);
            if m.pos < v.len() {
                match m.typo {
                    Typo::Double => {
                        let c = v[m.pos];
                        v.insert(m.pos, c);
                    },
                    Typo::Drop => {
                        v.remove(m.pos);
                    },
                    Typo::Replace(c) => {
                        v.set(m.pos, c);
                    },
                }
            }
            from_chars(&v)
        },
    }
}

fn push_punctuation(text: &mut String, p: Option<Punctuation>)
    ensures
        final(text)@ == old(text)@ + punctuation_text(p),
{
    match p {
        None => {
            assert(old(text)@ + Seq::<char>::empty() =~= old(text)@);
        },
        Some(p) => {
            let count: u16 = if p.mark == Mark::Comma {
                1
            } else {
                1 + p.repeats as u16
            };
            let ghost start = text@;
            let mark = mark_text(p.mark);
            let mut k: u16 = 0;
            while k < count
                invariant
                    k <= count,
                    mark@ == seq![mark_char(p.mark)],
                    text@ == start + repeated(mark_char(p.mark), k as nat),
                decreases count - k,
            {
                text.append(mark);
                proof {
                    assert(start + repeated(mark_char(p.mark), (k + 1) as nat) =~= start + repeated(
                        mark_char(p.mark),
                        k as nat,
                    ) + seq![mark_char(p.mark)]);
                }
                k = k + 1;
            }
        },
    }
}

fn push_emoji(text: &mut String, emojis: &Vec<String>, e: EmojiDraw)
    requires
        e.index < emojis@.len(),
    ensures
        final(text)@ == old(text)@ + emoji_token(emojis@, e),
{
    text.append(" :");
    text.append(emojis[e.index].as_str());
    text.append(":");
    assert(final(text)@ =~= old(text)@ + emoji_token(emojis@, e));
}

/// Adds one word to the text, as `render_word` says.
fn render_word_into(
    words: &Vec<String>,
    emojis: &Vec<String>,
    text: &mut String,
    can_capitalize: &mut bool,
    sentence_length: &mut u64,
    d: WordDraw,
)
    requires
        draw_fits(d, words@.len(), emojis@.len()),
        *old(sentence_length) < u64::MAX,
    ensures
        render_word(
            words@,
            emojis@,
            Rendering {
                text: old(text)@,
                can_capitalize: *old(can_capitalize),
                sentence_length: *old(sentence_length) as nat,
            },
            d,
        ) == (Rendering {
            text: final(text)@,
            can_capitalize: *final(can_capitalize),
            sentence_length: *final(sentence_length) as nat,
        }),
{
    let base = misspell(words[d.word].as_str(), d.misspelling);
    let cap = *can_capitalize && d.capitalize;
    let word = if cap {
        capitalize(base.as_str())
    } else {
        base
    };
    if text.unicode_len() > 0 {
        text.append(" ");
    }
    text.append(word.as_str());
    if let Some(e) = d.emoji {
        if e.before {
            push_emoji(text, emojis, e);
        }
    }
    push_punctuation(text, d.punctuation);
    if let Some(e) = d.emoji {
        if !e.before {
            push_emoji(text, emojis, e);
        }
    }
    if cap {
        *can_capitalize = false;
    }
    *sentence_length = *sentence_length + 1;
    if let Some(p) = d.punctuation {
        *can_capitalize = p.mark != Mark::Comma;
        if p.mark != Mark::Comma {
            *sentence_length = 0;
        }
    }
    proof {
        reveal_strlit(" ");
        let st = Rendering {
            text: old(text)@,
            can_capitalize: *old(can_capitalize),
            sentence_length: *old(sentence_length) as nat,
        };
        let r = render_word(words@, emojis@, st, d);
        assert(r.text =~= text@);
    }
}

/// Ends the text, as `finished_text` says.
fn finish(text: String, c: Closing) -> (r: String)
    ensures
        r@ == finished_text(text@, c),
{
    let mut text = text;
    let n = text.unicode_len();
    let mut closed = false;
    if n > 0 {
        let last = text.as_str().get_char(n - 1);
        closed = last == '.' || last == '!' || last == '?';
    }
    if !closed {
        let m = mark_text(c.mark);
        text.append(m);
    }
    proof {
        reveal_strlit("...");
    }
    match c.ellipsis {
        None => text,
        Some(at_start) => {
            if at_start {
                let mut t = "...".to_owned();
                t.append(text.as_str());
                t
            } else {
                text.append("...");
                text
            }
        },
    }
}

/// The filler text that the draws make, as `redacted_text` says.
pub fn render_redacted(
    words: &Vec<String>,
    emojis: &Vec<String>,
    draws: &Vec<WordDraw>,
    closing: Closing,
) -> (r: String)
    requires
        draws_fit(draws@, words@.len(), emojis@.len()),
    ensures
        r@ == redacted_text(words@, emojis@, draws@, closing),
{
    let mut text = String::new();
    let mut can_capitalize = true;
    let mut sentence_length: u64 = 0;
    let mut i: usize = 0;
    while i < draws.len()
        invariant
            i <= draws@.len(),
            draws_fit(draws@, words@.len(), emojis@.len()),
            sentence_length <= i,
            render_words(words@, emojis@, draws@.take(i as int)) == (Rendering {
                text: text@,
                can_capitalize,
                sentence_length: sentence_length as nat,
            }),
        decreases draws@.len() - i,
    {
        assert(draws@.take(i as int + 1).drop_last() =~= draws@.take(i as int));
        assert(draws_fit(draws@, words@.len(), emojis@.len()) ==> draw_fits(draws@[i as int], words@.len(), emojis@.len()));
        render_word_into(words, emojis, &mut text, &mut can_capitalize, &mut sentence_length, draws[i]);
        i = i + 1;
    }
    assert(draws@.take(i as int) =~= draws@);
    finish(text, closing)
}

/// A lower-case ASCII letter at random.
fn random_letter() -> (r: char) {
    let k = random_below(26);
    ((97 + k) as u8) as char
}

/// The random choices for the next word, given what the text so far allows.
fn draw_word(words: &Vec<String>, emojis: &Vec<String>, can_capitalize: bool, sentence_length: u64) -> (r: WordDraw)
    requires
        words@.len() > 0,
        emojis@.len() > 0,
        sentence_length < 40,
    ensures
        draw_fits(r, words@.len(), emojis@.len()),
{
    let word = random_below(words.len());
    let mut misspelling = None;
    if random_ratio(3, 100) {
        let n = words[word].unicode_len();
        if n > 0 {
            let pos = random_below(n);
            let k = random_below(3);
            let typo = if k == 0 {
                Typo::Double
            } else if k == 1 {
                Typo::Drop
            } else {
                Typo::Replace(random_letter())
            };
            misspelling = Some(Misspelling { typo, pos });
        }
    }
    let capitalize = can_capitalize && random_ratio(
        if sentence_length == 0 {
            19
        } else {
            8
        },
        100,
    );
    let mut punctuation = None;
    if random_ratio(15 + 2 * (sentence_length as u32 + 1), 100) {
        let roll = random_below(100);
        let mark = if roll <= 70 {
            Mark::Period
        } else if roll <= 85 {
            Mark::Comma
        } else if roll <= 95 {
            Mark::Exclamation
        } else {
            Mark::Question
        };
        let mut repeats: u8 = 0;
        if mark != Mark::Comma && random_ratio(3, 10) {
            repeats = 1;
            if random_ratio(2, 10) {
                repeats = 2;
            }
        }
        punctuation = Some(Punctuation { mark, repeats });
    }
    let mut emoji = None;
    if random_ratio(5, 100) {
        let index = random_below(emojis.len());
        emoji = Some(EmojiDraw { index, before: random_ratio(2, 5) });
    }
    WordDraw { word, misspelling, capitalize, punctuation, emoji }
}

/// The random choices after the last word.
fn draw_closing() -> (r: Closing)
    ensures
        r.mark != Mark::Comma,
{
    let roll = random_below(100);
    let mark = if roll <= 80 {
        Mark::Period
    } else if roll <= 90 {
        Mark::Exclamation
    } else {
        Mark::Question
    };
    let ellipsis = if random_ratio(1, 10) {
        Some(random_ratio(1, 2))
    } else {
        None
    };
    Closing { mark, ellipsis }
}

/// Whether `t` is filler text of 4 to 19 words of `words`: the text that some
/// fitting draws make, closed by a sentence-ending mark.
pub open spec fn is_filler(words: Seq<String>, emojis: Seq<String>, t: Seq<char>) -> bool {
    exists|ds: Seq<WordDraw>, c: Closing|
        {
            &&& 4 <= ds.len() <= 19
            &&& draws_fit(ds, words.len(), emojis.len())
            &&& c.mark != Mark::Comma
            &&& t == redacted_text(words, emojis, ds, c)
        }
}

/// Filler text of 4 to 19 words of `words`: the text that some fitting draws make.
pub fn generate_redacted(words: &Vec<String>, emojis: &Vec<String>) -> (r: String)
    requires
        words@.len() > 0,
        emojis@.len() > 0,
    ensures
        is_filler(words@, emojis@, r@),
{
    let word_count = 4 + random_below(16);
    let mut text = String::new();
    let mut can_capitalize = true;
    let mut sentence_length: u64 = 0;
    let ghost mut ds: Seq<WordDraw> = Seq::empty();
    let mut i: usize = 0;
    while i < word_count
        invariant
            4 <= word_count <= 19,
            i <= word_count,
            ds.len() == i,
            words@.len() > 0,
            emojis@.len() > 0,
            draws_fit(ds, words@.len(), emojis@.len()),
            sentence_length <= i,
            render_words(words@, emojis@, ds) == (Rendering {
                text: text@,
                can_capitalize,
                sentence_length: sentence_length as nat,
            }),
        decreases word_count - i,
    {
        let d = draw_word(words, emojis, can_capitalize, sentence_length);
        render_word_into(words, emojis, &mut text, &mut can_capitalize, &mut sentence_length, d);
        proof {
            assert(ds.push(d).drop_last() =~= ds);
            ds = ds.push(d);
        }
        i = i + 1;
    }
    let c = draw_closing();
    let r = finish(text, c);
    assert(4 <= ds.len() <= 19 && draws_fit(ds, words@.len(), emojis@.len()) && c.mark != Mark::Comma
        && r@ == redacted_text(words@, emojis@, ds, c));
    r
}

} // verus!
