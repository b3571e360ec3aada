//! Character-level text helpers: whitespace, decimal numbers and line splitting.
use vstd::prelude::*;

verus! {

/// The characters with Unicode's `White_Space` property.
pub open spec fn is_white_space(c: char) -> bool {
    ||| ('\u{9}' <= c && c <= '\u{d}')
    ||| c == ' '
    ||| c == '\u{85}'
    ||| c == '\u{a0}'
    ||| c == '\u{1680}'
    ||| ('\u{2000}' <= c && c <= '\u{200a}')
    ||| c == '\u{2028}'
    ||| c == '\u{2029}'
    ||| c == '\u{202f}'
    ||| c == '\u{205f}'
    ||| c == '\u{3000}'
}

/// `s` without its leading whitespace.
pub open spec fn trim_start(s: Seq<char>) -> Seq<char>
    decreases s.len(),
{
    if s.len() > 0 && is_white_space(s[0]) {
        trim_start(s.drop_first())
    } else {
        s
    }
}

/// `s` without its trailing whitespace.
pub open spec fn trim_end(s: Seq<char>) -> Seq<char>
    decreases s.len(),
{
    if s.len() > 0 && is_white_space(s.last()) {
        trim_end(s.drop_last())
    } else {
        s
    }
}

/// `s` without leading and trailing whitespace.
pub open spec fn trimmed(s: Seq<char>) -> Seq<char> {
    trim_end(trim_start(s))
}

pub open spec fn is_digit(c: char) -> bool {
    '0' <= c && c <= '9'
}

/// The number that a run of decimal digits writes.
pub open spec fn digits_value(s: Seq<char>) -> nat
    decreases s.len(),
{
    if s.len() == 0 {
        0
    } else {
        digits_value(s.drop_last()) * 10 + ((s.last() as nat) - ('0' as nat)) as nat
    }
}

/// `s` without one leading `+`.
pub open spec fn unsigned_part(s: Seq<char>) -> Seq<char> {
    if s.len() > 0 && s[0] == '+' {
        s.drop_first()
    } else {
        s
    }
}

pub open spec fn all_digits(d: Seq<char>) -> bool {
    forall|i: int| 0 <= i < d.len() ==> is_digit(#[trigger] d[i])
}

/// The `u64` that `s` writes in decimal: an optional `+`, then at least one digit and
/// nothing else, with a value that fits.
pub open spec fn decimal_u64(s: Seq<char>) -> Option<u64> {
    let d = unsigned_part(s);
    if d.len() > 0 && all_digits(d) && digits_value(d) <= u64::MAX {
        Some(digits_value(d) as u64)
    } else {
        None
    }
}

pub open spec fn digit_char(d: nat) -> char {
    (('0' as nat) + d) as char
}

/// The decimal writing of `n`, without sign or leading zeros.
pub open spec fn decimal_text(n: nat) -> Seq<char>
    decreases n,
{
    if n < 10 {
        seq![digit_char(n)]
    } else {
        decimal_text(n / 10).push(digit_char(n % 10))
    }
}

/// The pieces of `s` between line feeds (an empty `s` is one empty piece).
pub open spec fn split_lines(s: Seq<char>) -> Seq<Seq<char>>
    decreases s.len(),
{
    if s.len() == 0 {
        seq![Seq::<char>::empty()]
    } else if s.last() == '\n' {
        split_lines(s.drop_last()).push(Seq::<char>::empty())
    } else {
        let p = split_lines(s.drop_last());
        p.update(p.len() - 1, p.last().push(s.last()))
    }
}

pub proof fn lemma_split_lines_nonempty(s: Seq<char>)
    ensures
        split_lines(s).len() >= 1,
    decreases s.len(),
{
    if s.len() > 0 {
        lemma_split_lines_nonempty(s.drop_last());
    }
}

/// Relies on `str::chars`: the characters of `s`, in order.
#[verifier::external_body]
pub(crate) fn to_chars(s: &str) -> (r: Vec<char>)
    ensures
        r@ == s@,
{
    s.chars().collect()
}

/// Relies on `String`'s `FromIterator<&char>`: the text of the characters, in order.
#[verifier::external_body]
pub(crate) fn from_chars(v: &Vec<char>) -> (r: String)
    ensures
        r@ == v@,
{
    v.iter().collect()
}

/// Whether `c` has Unicode's `White_Space` property.
fn white_space(c: char) -> (r: bool)
    ensures
        r == is_white_space(c),
{
    ('\u{9}' <= c && c <= '\u{d}') || c == ' ' || c == '\u{85}' || c == '\u{a0}' || c == '\u{1680}'
        || ('\u{2000}' <= c && c <= '\u{200a}') || c == '\u{2028}' || c == '\u{2029}' || c
        == '\u{202f}' || c == '\u{205f}' || c == '\u{3000}'
}

/// `s` without leading and trailing whitespace.
pub(crate) fn trim(s: &str) -> (r: &str)
    ensures
        r@ == trimmed(s@),
{
    let chars = to_chars(s);
    let n = chars.len();
    let mut i: usize = 0;
    assert(s@.subrange(0, n as int) =~= s@);
    while i < n && white_space(chars[i])
        invariant
            n == s@.len(),
            chars@ == s@,
            i <= n,
            trim_start(s@) == trim_start(s@.subrange(i as int, n as int)),
        decreases n - i,
    {
        assert(s@.subrange(i as int, n as int).drop_first() =~= s@.subrange(i as int + 1, n as int));
        i = i + 1;
    }
    assert(trim_start(s@) == s@.subrange(i as int, n as int));
    let mut j: usize = n;
    while j > i && white_space(chars[j - 1])
        invariant
            n == s@.len(),
            chars@ == s@,
            i <= j <= n,
            trim_end(s@.subrange(i as int, n as int)) == trim_end(s@.subrange(i as int, j as int)),
        decreases j,
    {
        assert(s@.subrange(i as int, j as int).drop_last() =~= s@.subrange(i as int, j - 1));
        j = j - 1;
    }
    s.substring_char(i, j)
}

/// A prefix of a run of digits writes no more than the whole run.
proof fn lemma_digits_value_prefix(s: Seq<char>, i: int)
    requires
        0 <= i <= s.len(),
    ensures
        digits_value(s.take(i)) <= digits_value(s),
    decreases s.len(),
{
    if i < s.len() {
        assert(s.take(i) =~= s.drop_last().take(i));
        lemma_digits_value_prefix(s.drop_last(), i);
    } else {
        assert(s.take(i) =~= s);
    }
}

/// The `u64` that `s` writes in decimal, as `decimal_u64` says.
pub(crate) fn parse_u64(s: &str) -> (r: Option<u64>)
    ensures
        r == decimal_u64(s@),
{
    let chars = to_chars(s);
    let n = chars.len();
    let start: usize = if n > 0 && chars[0] == '+' {
        1
    } else {
        0
    };
    let ghost d = unsigned_part(s@);
    assert(d =~= chars@.subrange(start as int, n as int));
    if start >= n {
        return None;
    }
    let mut v: u64 = 0;
    let mut i: usize = start;
    while i < n
        invariant
            start <= i <= n,
            n == chars@.len(),
            d == chars@.subrange(start as int, n as int),
            d == unsigned_part(s@),
            v as nat == digits_value(d.take(i - start)),
            forall|k: int| 0 <= k < i - start ==> is_digit(#[trigger] d[k]),
        decreases n - i,
    {
        let c = chars[i];
        assert(d[i - start] == c);
        if !('0' <= c && c <= '9') {
            assert(!is_digit(d[i - start]));
            assert(!all_digits(d));
            assert(decimal_u64(s@) is None);
            return None;
        }
        let val = (c as u32 - 48) as u64;
        assert(d.take(i - start + 1).drop_last() =~= d.take(i - start));
        assert(d.take(i - start + 1).last() == c);
        assert(('0' as nat) == 48);
        assert(val == (c as nat) - ('0' as nat));
        assert(digits_value(d.take(i - start + 1)) == digits_value(d.take(i - start)) * 10 + val);
        if v > (u64::MAX - val) / 10 {
            assert(v * 10 + val > u64::MAX) by (nonlinear_arith)
                requires
                    v > (u64::MAX - val) / 10,
                    val <= 9,
            ;
            proof {
                if all_digits(d) {
                    lemma_digits_value_prefix(d, i - start + 1);
                }
                assert(decimal_u64(s@) is None);
            }
            return None;
        }
        v = v * 10 + val;
        i = i + 1;
    }
    assert(d.take(i - start) =~= d);
    Some(v)
}

/// The decimal digit character of `d`.
fn digit(d: u64) -> (r: char)
    requires
        d < 10,
    ensures
        r == digit_char(d as nat),
{
    let c = (48 + d as u8) as char;
    assert(c == digit_char(d as nat));
    c
}

/// The decimal writing of `n`.
pub(crate) fn decimal(n: u64) -> (r: String)
    ensures
        r@ == decimal_text(n as nat),
{
    let mut m = n;
    let mut tail: Vec<char> = Vec::new();
    while m >= 10
        invariant
            decimal_text(n as nat) == decimal_text(m as nat) + tail@,
        decreases m,
    {
        let c = digit(m % 10);
        let ghost old_tail = tail@;
        tail.insert(0, c);
        assert(decimal_text(m as nat) == decimal_text((m / 10) as nat).push(c));
        assert(decimal_text((m / 10) as nat).push(c) + old_tail =~= decimal_text((m / 10) as nat) + tail@);
        m = m / 10;
    }
    let c = digit(m);
    let ghost old_tail = tail@;
    tail.insert(0, c);
    assert(seq![c] + old_tail =~= tail@);
    from_chars(&tail)
}

/// The ids written one per line in `lines`, each line trimmed; a blank line is
/// skipped when `skip_blank` holds and is an error otherwise; a line that is not a
/// decimal `u64` is an error.
pub open spec fn ids_of_lines(lines: Seq<Seq<char>>, skip_blank: bool) -> Option<Seq<u64>>
    decreases lines.len(),
{
    if lines.len() == 0 {
        Some(Seq::<u64>::empty())
    } else {
        let line = trimmed(lines.last());
        match ids_of_lines(lines.drop_last(), skip_blank) {
            None => None,
            Some(before) => if skip_blank && line.len() == 0 {
                Some(before)
            } else {
                match decimal_u64(line) {
                    Some(id) => Some(before.push(id)),
                    None => None,
                }
            },
        }
    }
}

/// The first line of `lines` that `ids_of_lines` refuses.
pub open spec fn first_bad_line(lines: Seq<Seq<char>>, skip_blank: bool) -> Seq<char>
    decreases lines.len(),
{
    if lines.len() == 0 {
        Seq::<char>::empty()
    } else if ids_of_lines(lines.drop_last(), skip_blank) is None {
        first_bad_line(lines.drop_last(), skip_blank)
    } else {
        lines.last()
    }
}

/// Reads one id per line of `chars`, as `ids_of_lines` says; the error holds the
/// first line that is not an id.
pub(crate) fn parse_id_lines(chars: &Vec<char>, skip_blank: bool) -> (r: Result<Vec<u64>, String>)
    ensures
        r is Ok <==> ids_of_lines(split_lines(chars@), skip_blank) is Some,
        r is Ok ==> r->Ok_0@ == ids_of_lines(split_lines(chars@), skip_blank)->Some_0,
        r matches Err(line) ==> line@ == first_bad_line(split_lines(chars@), skip_blank),
{
    let mut ids: Vec<u64> = Vec::new();
    let mut cur: Vec<char> = Vec::new();
    let ghost mut done: Seq<Seq<char>> = Seq::empty();
    let n = chars.len();
    let mut i: usize = 0;
    while i < n
        invariant
            n == chars@.len(),
            i <= n,
            done.push(cur@) == split_lines(chars@.take(i as int)),
            ids_of_lines(done, skip_blank) == Some(ids@),
        decreases n - i,
    {
        let c = chars[i];
        proof {
            assert(chars@.take(i as int + 1).drop_last() =~= chars@.take(i as int));
            assert(chars@.take(i as int + 1).last() == c);
        }
        if c == '\n' {
            let line = from_chars(&cur);
            let t = trim(line.as_str());
            proof {
                assert(done.push(cur@).drop_last() =~= done);
            }
            if !(skip_blank && t.unicode_len() == 0) {
                match parse_u64(t) {
                    Some(id) => {
                        ids.push(id);
                    },
                    None => {
                        proof {
                            lemma_split_lines_prefix(chars@, i as int + 1);
                            lemma_split_lines_nonempty(chars@.take(i as int + 1));
                            assert(chars@.take(i as int + 1).last() == '\n');
                            let q = split_lines(chars@.take(i as int + 1));
                            assert(q == done.push(cur@).push(Seq::<char>::empty()));
                            assert forall|k: int| 0 <= k < done.push(cur@).len() implies split_lines(
                                chars@,
                            )[k] == done.push(cur@)[k] by {
                                assert(q[k] == done.push(cur@)[k]);
                            }
                            lemma_ids_of_lines_none_extends(done.push(cur@), skip_blank, split_lines(chars@));
                        }
                        return Err(line);
                    },
                }
            }
            proof {
                assert(done.push(cur@).last() == cur@);
                done = done.push(cur@);
            }
            cur = Vec::new();
            proof {
                assert(done.push(cur@) =~= split_lines(chars@.take(i as int + 1)));
            }
        } else {
            let ghost p = done.push(cur@);
            cur.push(c);
            proof {
                assert(done.push(cur@) =~= p.update(p.len() - 1, p.last().push(c)));
            }
        }
        i = i + 1;
    }
    proof {
        assert(chars@.take(n as int) =~= chars@);
        assert(done.push(cur@).drop_last() =~= done);
        assert(done.push(cur@).last() == cur@);
    }
    let line = from_chars(&cur);
    let t = trim(line.as_str());
    if !(skip_blank && t.unicode_len() == 0) {
        match parse_u64(t) {
            Some(id) => {
                ids.push(id);
            },
            None => {
                return Err(line);
            },
        }
    }
    Ok(ids)
}

/// The lines of a prefix of `s`, but its last, are lines of `s`.
pub proof fn lemma_split_lines_prefix(s: Seq<char>, j: int)
    requires
        0 <= j <= s.len(),
    ensures
        split_lines(s.take(j)).len() <= split_lines(s).len(),
        forall|k: int|
            0 <= k < split_lines(s.take(j)).len() - 1 ==> split_lines(s)[k] == #[trigger] split_lines(
                s.take(j),
            )[k],
    decreases s.len(),
{
    if j == s.len() {
        assert(s.take(j) =~= s);
    } else {
        assert(s.take(j) =~= s.drop_last().take(j));
        lemma_split_lines_prefix(s.drop_last(), j);
        lemma_split_lines_nonempty(s.drop_last());
    }
}

/// Once the ids of some first lines are missing, those of all lines are, and the
/// first refused line is the same.
pub proof fn lemma_ids_of_lines_none_extends(prefix: Seq<Seq<char>>, skip_blank: bool, lines: Seq<Seq<char>>)
    requires
        ids_of_lines(prefix, skip_blank) is None,
        prefix.len() <= lines.len(),
        forall|k: int| 0 <= k < prefix.len() ==> lines[k] == prefix[k],
    ensures
        ids_of_lines(lines, skip_blank) is None,
        first_bad_line(lines, skip_blank) == first_bad_line(prefix, skip_blank),
    decreases lines.len(),
{
    if lines.len() > prefix.len() {
        lemma_ids_of_lines_none_extends(prefix, skip_blank, lines.drop_last());
    } else {
        assert(lines =~= prefix);
    }
}

} // verus!
