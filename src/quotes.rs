//! Replacement text drawn from a corpus of quotations: a quote is the paragraph
//! that follows a header line written in capitals and ending in a period.
use crate::random::random_below;
use crate::text::from_chars;
use vstd::prelude::*;
use vstd::utf8::encode_utf8;

verus! {

/// How many random places are tried before the extractor gives up.
pub const MAX_QUOTE_ATTEMPTS: u32 = 10000;

pub const NEWLINE: u8 = 10;

pub const PERIOD: u8 = 46;

/// The longest quote that may replace a message of `length` characters.
pub open spec fn bucket(length: nat) -> nat {
    if length <= 100 {
        100
    } else if length <= 300 {
        300
    } else {
        2000
    }
}

pub fn quote_bucket(length: usize) -> (r: usize)
    ensures
        r == bucket(length as nat),
{
    if length <= 100 {
        100
    } else if length <= 300 {
        300
    } else {
        2000
    }
}

/// The first line feed at or after `i`, or the end.
pub open spec fn line_end(c: Seq<u8>, i: int) -> int
    decreases c.len() - i,
{
    if i >= c.len() {
        c.len() as int
    } else if c[i] == NEWLINE {
        i
    } else {
        line_end(c, i + 1)
    }
}

/// The first byte at or after `i` that is not a line feed, or the end.
pub open spec fn skip_newlines(c: Seq<u8>, i: int) -> int
    decreases c.len() - i,
{
    if i >= c.len() {
        c.len() as int
    } else if c[i] != NEWLINE {
        i
    } else {
        skip_newlines(c, i + 1)
    }
}

/// The first blank line (two line feeds) at or after `i`, or the end.
pub open spec fn paragraph_end(c: Seq<u8>, i: int) -> int
    decreases c.len() - i,
{
    if i + 1 >= c.len() {
        c.len() as int
    } else if c[i] == NEWLINE && c[i + 1] == NEWLINE {
        i
    } else {
        paragraph_end(c, i + 1)
    }
}

pub open spec fn is_header_byte(b: u8) -> bool {
    (65 <= b && b <= 90) || b == PERIOD
}

/// Whether `c[s..e]` is a header line: capitals and periods, ending in a period.
pub open spec fn is_header(c: Seq<u8>, s: int, e: int) -> bool {
    &&& 0 <= s < e <= c.len()
    &&& forall|k: int| s <= k < e ==> is_header_byte(#[trigger] c[k])
    &&& c[e - 1] == PERIOD
}

/// The quote found from `offset`: move to the start of the next line, past any
/// blank lines; if that line is a header, the quote runs from the line after it to
/// the next blank line, leaving out the blank lines before it. Given as the range
/// of its bytes.
pub open spec fn quote_at(c: Seq<u8>, offset: int) -> Option<(int, int)> {
    let nl = line_end(c, offset + 1);
    if nl >= c.len() {
        None
    } else {
        let s = skip_newlines(c, nl);
        let he = line_end(c, s);
        if he < c.len() && is_header(c, s, he) {
            let qs = skip_newlines(c, he + 1);
            Some((qs, paragraph_end(c, qs)))
        } else {
            None
        }
    }
}

/// The length of `t` in UTF-8 bytes.
pub open spec fn byte_len(t: Seq<char>) -> nat {
    encode_utf8(t).len()
}

/// Each character takes one to four bytes.
pub proof fn lemma_byte_len_bounds(t: Seq<char>)
    ensures
        t.len() <= byte_len(t) <= 4 * t.len(),
    decreases t.len(),
{
    if t.len() > 0 {
        lemma_byte_len_bounds(t.drop_first());
    }
}

/// Lengths with the same bucket admit the same quotes.
pub proof fn lemma_same_bucket(c: Seq<u8>, a: nat, b: nat)
    requires
        bucket(a) == bucket(b),
    ensures
        forall|o: int| #[trigger] fitting_quote(c, o, a) == fitting_quote(c, o, b),
        forall|t: Seq<char>| is_quote_for(c, a, t) <==> #[trigger] is_quote_for(c, b, t),
        fits_everywhere(c, a) <==> fits_everywhere(c, b),
{
    assert forall|o: int| #[trigger] fitting_quote(c, o, a) == fitting_quote(c, o, b) by {}
    assert forall|t: Seq<char>| is_quote_for(c, a, t) <==> #[trigger] is_quote_for(c, b, t) by {
        if is_quote_for(c, a, t) {
            let o = choose|o: int| 0 <= o < c.len() && fitting_quote(c, o, a) == Some(t);
            assert(fitting_quote(c, o, b) == Some(t));
        }
        if is_quote_for(c, b, t) {
            let o = choose|o: int| 0 <= o < c.len() && fitting_quote(c, o, b) == Some(t);
            assert(fitting_quote(c, o, a) == Some(t));
        }
    }
    if fits_everywhere(c, a) {
        assert forall|o: int| 0 <= o < c.len() implies (#[trigger] fitting_quote(c, o, b)) is Some by {
            assert(fitting_quote(c, o, a) is Some);
        }
    }
    if fits_everywhere(c, b) {
        assert forall|o: int| 0 <= o < c.len() implies (#[trigger] fitting_quote(c, o, a)) is Some by {
            assert(fitting_quote(c, o, b) is Some);
        }
    }
}

/// The length, in the sense of `bucket`, of a message: its UTF-8 byte count, or
/// its character count where that already exceeds 300.
pub fn bucket_length(t: &str) -> (r: usize)
    ensures
        bucket(r as nat) == bucket(byte_len(t@)),
{
    let n = t.unicode_len();
    proof {
        lemma_byte_len_bounds(t@);
    }
    if n > 300 {
        n
    } else {
        t.len()
    }
}

/// Bytes read as characters, one each (Latin-1).
pub open spec fn latin1(b: Seq<u8>) -> Seq<char> {
    b.map_values(|x: u8| x as char)
}

fn find_line_end(c: &Vec<u8>, i: usize) -> (r: usize)
    requires
        i <= c@.len(),
    ensures
        r == line_end(c@, i as int),
{
    let mut j = i;
    while j < c.len() && c[j] != NEWLINE
        invariant
            i <= j <= c@.len(),
            line_end(c@, j as int) == line_end(c@, i as int),
        decreases c@.len() - j,
    {
        j = j + 1;
    }
    j
}

fn find_non_newline(c: &Vec<u8>, i: usize) -> (r: usize)
    requires
        i <= c@.len(),
    ensures
        r == skip_newlines(c@, i as int),
        r <= c@.len(),
{
    let mut j = i;
    while j < c.len() && c[j] == NEWLINE
        invariant
            i <= j <= c@.len(),
            skip_newlines(c@, j as int) == skip_newlines(c@, i as int),
        decreases c@.len() - j,
    {
        j = j + 1;
    }
    j
}

fn find_paragraph_end(c: &Vec<u8>, i: usize) -> (r: usize)
    requires
        i <= c@.len(),
    ensures
        r == paragraph_end(c@, i as int),
{
    let n = c.len();
    let mut j = i;
    while j < n && j + 1 < n && !(c[j] == NEWLINE && c[j + 1] == NEWLINE)
        invariant
            n == c@.len(),
            i <= j <= c@.len(),
            paragraph_end(c@, j as int) == paragraph_end(c@, i as int),
        decreases c@.len() - j,
    {
        j = j + 1;
    }
    if j >= n || j + 1 >= n {
        n
    } else {
        j
    }
}

fn check_header(c: &Vec<u8>, s: usize, e: usize) -> (r: bool)
    requires
        s <= e <= c@.len(),
    ensures
        r == is_header(c@, s as int, e as int),
{
    if s >= e || c[e - 1] != PERIOD {
        return false;
    }
    let mut k = s;
    while k < e
        invariant
            s <= k <= e <= c@.len(),
            forall|m: int| s <= m < k ==> is_header_byte(#[trigger] c@[m]),
        decreases e - k,
    {
        let b = c[k];
        if !((65 <= b && b <= 90) || b == PERIOD) {
            return false;
        }
        k = k + 1;
    }
    true
}

/// The byte range of the quote found from `offset`, as `quote_at` says.
pub fn find_quote(c: &Vec<u8>, offset: usize) -> (r: Option<(usize, usize)>)
    requires
        offset < c@.len(),
    ensures
        r is None <==> quote_at(c@, offset as int) is None,
        r matches Some((s, e)) ==> quote_at(c@, offset as int) == Some((s as int, e as int)) && s
            <= e <= c@.len(),
{
    let n = c.len();
    let nl = find_line_end(c, offset + 1);
    if nl >= c.len() {
        return None;
    }
    let s = find_non_newline(c, nl);
    let he = find_line_end(c, s);
    proof {
        lemma_line_end_bounds(c@, s as int);
    }
    if he < c.len() && check_header(c, s, he) {
        let qs = find_non_newline(c, he + 1);
        proof {
            lemma_skip_newlines_bounds(c@, he as int + 1);
        }
        let e = find_paragraph_end(c, qs);
        proof {
            lemma_paragraph_end_bounds(c@, qs as int);
        }
        Some((qs, e))
    } else {
        None
    }
}

proof fn lemma_line_end_bounds(c: Seq<u8>, i: int)
    requires
        0 <= i <= c.len(),
    ensures
        i <= line_end(c, i) <= c.len(),
    decreases c.len() - i,
{
    if i < c.len() && c[i] != NEWLINE {
        lemma_line_end_bounds(c, i + 1);
    }
}

proof fn lemma_skip_newlines_bounds(c: Seq<u8>, i: int)
    requires
        0 <= i <= c.len(),
    ensures
        i <= skip_newlines(c, i) <= c.len(),
    decreases c.len() - i,
{
    if i < c.len() && c[i] == NEWLINE {
        lemma_skip_newlines_bounds(c, i + 1);
    }
}

/// A quote's range lies within the corpus.
pub proof fn lemma_quote_at_bounds(c: Seq<u8>, offset: int)
    requires
        0 <= offset < c.len(),
    ensures
        quote_at(c, offset) matches Some((s, e)) ==> 0 <= s <= e <= c.len(),
{
    lemma_line_end_bounds(c, offset + 1);
    let nl = line_end(c, offset + 1);
    if nl < c.len() {
        lemma_skip_newlines_bounds(c, nl);
        let s = skip_newlines(c, nl);
        lemma_line_end_bounds(c, s);
        let he = line_end(c, s);
        if he < c.len() {
            lemma_skip_newlines_bounds(c, he + 1);
            lemma_paragraph_end_bounds(c, skip_newlines(c, he + 1));
        }
    }
}

proof fn lemma_paragraph_end_bounds(c: Seq<u8>, i: int)
    requires
        0 <= i <= c.len(),
    ensures
        i <= paragraph_end(c, i) <= c.len(),
    decreases c.len() - i,
{
    if i + 1 < c.len() && !(c[i] == NEWLINE && c[i + 1] == NEWLINE) {
        lemma_paragraph_end_bounds(c, i + 1);
    }
}

/// The text of `c[s..e]`, one character per byte.
fn latin1_text(c: &Vec<u8>, s: usize, e: usize) -> (r: String)
    requires
        s <= e <= c@.len(),
    ensures
        r@ == latin1(c@.subrange(s as int, e as int)),
{
    let mut chars: Vec<char> = Vec::new();
    let mut k = s;
    while k < e
        invariant
            s <= k <= e <= c@.len(),
            chars@ == latin1(c@.subrange(s as int, k as int)),
        decreases e - k,
    {
        chars.push(c[k] as char);
        proof {
            assert(latin1(c@.subrange(s as int, k + 1)) =~= latin1(c@.subrange(s as int, k as int)).push(
                c@[k as int] as char,
            ));
        }
        k = k + 1;
    }
    from_chars(&chars)
}

/// Whether the quote found from `offset` is not empty and its text fits, in UTF-8
/// bytes, the bucket of `length`; if so its text.
pub open spec fn fitting_quote(c: Seq<u8>, offset: int, length: nat) -> Option<Seq<char>> {
    match quote_at(c, offset) {
        Some((s, e)) => {
            let t = latin1(c.subrange(s, e));
            if 0 < t.len() && byte_len(t) <= bucket(length) {
                Some(t)
            } else {
                None
            }
        },
        None => None,
    }
}

/// The quote found from `offset`, when it is not empty and fits the bucket of
/// `length`.
pub fn quote_from_offset(length: usize, quotes: &Vec<u8>, offset: usize) -> (r: Option<String>)
    requires
        offset < quotes@.len(),
    ensures
        r is Some <==> fitting_quote(quotes@, offset as int, length as nat) is Some,
        r is Some ==> r->Some_0@ == fitting_quote(quotes@, offset as int, length as nat)->Some_0,
{
    match find_quote(quotes, offset) {
        Some((s, e)) => {
            assert(latin1(quotes@.subrange(s as int, e as int)).len() == e - s);
            proof {
                lemma_byte_len_bounds(latin1(quotes@.subrange(s as int, e as int)));
            }
            if s < e && e - s <= quote_bucket(length) {
                let t = latin1_text(quotes, s, e);
                let bytes = t.as_str().len();
                if bytes <= quote_bucket(length) {
                    Some(t)
                } else {
                    None
                }
            } else {
                None
            }
        },
        None => None,
    }
}

/// Whether `t` is a quote of the corpus, found from some place, that fits the
/// bucket of `length`.
pub open spec fn is_quote_for(c: Seq<u8>, length: nat, t: Seq<char>) -> bool {
    exists|offset: int| 0 <= offset < c.len() && fitting_quote(c, offset, length) == Some(t)
}

/// Whether every place of the corpus yields a fitting quote.
pub open spec fn fits_everywhere(c: Seq<u8>, length: nat) -> bool {
    &&& c.len() > 0
    &&& forall|o: int| 0 <= o < c.len() ==> (#[trigger] fitting_quote(c, o, length)) is Some
}

/// A quote of the corpus that replaces a message of `length` UTF-8 bytes: random
/// places are tried until one yields a quote that fits, at most
/// `MAX_QUOTE_ATTEMPTS` times; `None` when none did.
pub fn generate_shakespeare(length: usize, quotes: &Vec<u8>) -> (r: Option<String>)
    ensures
        r is Some ==> is_quote_for(quotes@, length as nat, r->Some_0@),
        r is Some ==> 0 < r->Some_0@.len() && byte_len(r->Some_0@) <= bucket(length as nat),
        fits_everywhere(quotes@, length as nat) ==> r is Some,
{
    if quotes.len() == 0 {
        return None;
    }
    let mut attempt: u32 = 0;
    while attempt < MAX_QUOTE_ATTEMPTS
        invariant
            quotes@.len() > 0,
            fits_everywhere(quotes@, length as nat) ==> attempt == 0,
        decreases MAX_QUOTE_ATTEMPTS - attempt,
    {
        let offset = random_below(quotes.len());
        assert(fits_everywhere(quotes@, length as nat) ==> fitting_quote(quotes@, offset as int, length as nat) is Some);
        if let Some(q) = quote_from_offset(length, quotes, offset) {
            proof {
                lemma_quote_at_bounds(quotes@, offset as int);
            }
            return Some(q);
        }
        attempt = attempt + 1;
    }
    None
}

} // verus!
