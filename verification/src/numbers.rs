//! Reading whole numbers out of edit boxes the way the standard library
//! does: surrounding whitespace trimmed, an optional `+`, ASCII digits, and
//! nothing that would overflow a `u64`.

use vstd::prelude::*;
use crate::textutil::{chars_of, decimal, digit_char};

verus! {

/// Unicode `White_Space`, which `str::trim` strips.
pub open spec fn is_ws(c: char) -> bool {
    ||| ('\u{9}' <= c && c <= '\u{d}')
    ||| c == ' '
    ||| c == '\u{85}'
    ||| c == '\u{a0}'
    ||| c == '\u{1680}'
    ||| ('\u{2000}' <= c && c <= '\u{200a}')
    ||| c == '\u{2028}'
    ||| c == '\u{2029}'
    ||| c == '\u{202f}'
    ||| c == '\u{205f}'
    ||| c == '\u{3000}'
}

/// `s` without its leading whitespace.
pub open spec fn trim_start(s: Seq<char>) -> Seq<char>
    decreases s.len(),
{
    if s.len() > 0 && is_ws(s[0]) {
        trim_start(s.drop_first())
    } else {
        s
    }
}

/// `s` without its trailing whitespace.
pub open spec fn trim_end(s: Seq<char>) -> Seq<char>
    decreases s.len(),
{
    if s.len() > 0 && is_ws(s.last()) {
        trim_end(s.drop_last())
    } else {
        s
    }
}

/// `s` without surrounding whitespace (`str::trim`).
pub open spec fn trimmed(s: Seq<char>) -> Seq<char> {
    trim_end(trim_start(s))
}

/// Whether `c` is an ASCII digit.
pub open spec fn is_digit(c: char) -> bool {
    '0' <= c && c <= '9'
}

/// The value of a digit character.
pub open spec fn digit_value(c: char) -> nat {
    (c as nat - '0' as nat) as nat
}

/// The value of a run of digits.
pub open spec fn digits_value(s: Seq<char>) -> nat
    decreases s.len(),
{
    if s.len() == 0 {
        0
    } else {
        digits_value(s.drop_last()) * 10 + digit_value(s.last())
    }
}

/// Whether every character is an ASCII digit.
pub open spec fn all_digits(s: Seq<char>) -> bool {
    forall|i: int| 0 <= i < s.len() ==> is_digit(#[trigger] s[i])
}

/// `u64::from_str`: an optional `+`, then at least one ASCII digit, with a
/// value that fits.
pub open spec fn parse_u64(s: Seq<char>) -> Option<u64> {
    let body = if s.len() > 0 && s[0] == '+' { s.drop_first() } else { s };
    if body.len() == 0 || !all_digits(body) || digits_value(body) > u64::MAX {
        None
    } else {
        Some(digits_value(body) as u64)
    }
}

/// A box's whole number: trimmed, then parsed.
pub open spec fn number_of(s: Seq<char>) -> Option<u64> {
    parse_u64(trimmed(s))
}

pub(crate) fn is_ws_char(c: char) -> (ws: bool)
    ensures
        ws == is_ws(c),
{
    ('\u{9}' <= c && c <= '\u{d}') || c == ' ' || c == '\u{85}' || c == '\u{a0}' || c == '\u{1680}'
        || ('\u{2000}' <= c && c <= '\u{200a}') || c == '\u{2028}' || c == '\u{2029}'
        || c == '\u{202f}' || c == '\u{205f}' || c == '\u{3000}'
}

proof fn lemma_trim_start_skip(s: Seq<char>, i: int)
    requires
        0 <= i <= s.len(),
        forall|k: int| 0 <= k < i ==> is_ws(#[trigger] s[k]),
    ensures
        trim_start(s) == trim_start(s.skip(i)),
    decreases i,
{
    if i > 0 {
        assert(s.drop_first().skip(i - 1) =~= s.skip(i));
        lemma_trim_start_skip(s.drop_first(), i - 1);
    } else {
        assert(s.skip(0) =~= s);
    }
}

proof fn lemma_trim_end_take(s: Seq<char>, j: int)
    requires
        0 <= j <= s.len(),
        forall|k: int| j <= k < s.len() ==> is_ws(#[trigger] s[k]),
    ensures
        trim_end(s) == trim_end(s.take(j)),
    decreases s.len() - j,
{
    if j < s.len() {
        assert(s.drop_last().take(j) =~= s.take(j));
        lemma_trim_end_take(s.drop_last(), j);
    } else {
        assert(s.take(j) =~= s);
    }
}

/// The bounds of the trimmed part of `s[lo..hi]`.
pub(crate) fn trim_range(s: &Vec<char>, lo: usize, hi: usize) -> (b: (usize, usize))
    requires
        lo <= hi <= s@.len(),
    ensures
        lo <= b.0 <= b.1 <= hi,
        s@.subrange(b.0 as int, b.1 as int) == trimmed(s@.subrange(lo as int, hi as int)),
{
    let ghost w = s@.subrange(lo as int, hi as int);
    let mut i: usize = lo;
    while i < hi && is_ws_char(s[i])
        invariant
            lo <= i <= hi <= s@.len(),
            w == s@.subrange(lo as int, hi as int),
            forall|k: int| 0 <= k < i - lo ==> is_ws(#[trigger] w[k]),
        decreases hi - i,
    {
        assert(w[i - lo] == s@[i as int]);
        i = i + 1;
    }
    proof {
        lemma_trim_start_skip(w, i - lo);
    }
    let mut j: usize = hi;
    while j > i && is_ws_char(s[j - 1])
        invariant
            lo <= i <= j <= hi <= s@.len(),
            w == s@.subrange(lo as int, hi as int),
            forall|k: int| j - lo <= k < w.len() ==> is_ws(#[trigger] w[k]),
        decreases j,
    {
        assert(w[j - 1 - lo] == s@[j - 1]);
        j = j - 1;
    }
    proof {
        let rest = w.skip(i - lo);
        if i < hi {
            assert(rest[0] == s@[i as int]);
            assert(!is_ws(rest[0]));
        }
        assert(trim_start(rest) == rest);
        assert forall|k: int| j - i <= k < rest.len() implies is_ws(#[trigger] rest[k]) by {
            assert(rest[k] == w[i - lo + k]);
        }
        lemma_trim_end_take(rest, (j - i) as int);
        let t = rest.take((j - i) as int);
        if t.len() > 0 {
            assert(t.last() == s@[j - 1]);
        }
        assert(trim_end(t) == t);
        assert(s@.subrange(i as int, j as int) =~= t);
    }
    (i, j)
}

proof fn lemma_digits_value_grows(s: Seq<char>, i: int)
    requires
        0 <= i <= s.len(),
    ensures
        digits_value(s.take(i)) <= digits_value(s),
    decreases s.len() - i,
{
    if i < s.len() {
        lemma_digits_value_grows(s.drop_last(), i);
        assert(s.drop_last().take(i) =~= s.take(i));
        if i == s.len() - 1 {
            assert(s.take(i) =~= s.drop_last());
        }
    } else {
        assert(s.take(i) =~= s);
    }
}

/// Parses `s[lo..hi]` as `u64::from_str` does.
fn parse_range(s: &Vec<char>, lo: usize, hi: usize) -> (v: Option<u64>)
    requires
        lo <= hi <= s@.len(),
    ensures
        v == parse_u64(s@.subrange(lo as int, hi as int)),
{
    let ghost whole = s@.subrange(lo as int, hi as int);
    let mut start = lo;
    if start < hi && s[start] == '+' {
        start = start + 1;
    }
    let ghost body = s@.subrange(start as int, hi as int);
    assert(body =~= (if whole.len() > 0 && whole[0] == '+' { whole.drop_first() } else { whole }));
    if start == hi {
        return None;
    }
    let mut acc: u64 = 0;
    let mut i: usize = start;
    while i < hi
        invariant
            lo <= start <= i <= hi <= s@.len(),
            body == s@.subrange(start as int, hi as int),
            whole == s@.subrange(lo as int, hi as int),
            body == (if whole.len() > 0 && whole[0] == '+' { whole.drop_first() } else { whole }),
            body.len() > 0,
            all_digits(body.take(i - start)),
            acc as nat == digits_value(body.take(i - start)),
        decreases hi - i,
    {
        let c = s[i];
        let ghost next = body.take(i - start + 1);
        assert(next.drop_last() =~= body.take(i - start));
        assert(next.last() == c);
        if !('0' <= c && c <= '9') {
            assert(!all_digits(body)) by {
                assert(body[i - start] == c);
            }
            return None;
        }
        let d = (c as u32 - '0' as u32) as u64;
        assert(d as nat == digit_value(c));
        if acc > (u64::MAX - d) / 10 {
            proof {
                assert(acc * 10 + d > u64::MAX) by (nonlinear_arith)
                    requires
                        acc > (u64::MAX - d) / 10,
                        d <= 9,
                ;
                assert(digits_value(next) == acc * 10 + d);
                lemma_digits_value_grows(body, i - start + 1);
            }
            return None;
        }
        assert(acc * 10 + d <= u64::MAX) by (nonlinear_arith)
            requires
                acc <= (u64::MAX - d) / 10,
                d <= 9,
        ;
        acc = acc * 10 + d;
        i = i + 1;
        assert(all_digits(next));
    }
    assert(body.take(i - start) =~= body);
    Some(acc)
}

/// A whole number from a box's text, or nothing if it does not hold one:
/// `text.trim().parse::<u64>().ok()`.
pub fn number(text: &str) -> (v: Option<u64>)
    ensures
        v == number_of(text@),
{
    let chars = chars_of(text);
    let (lo, hi) = trim_range(&chars, 0, chars.len());
    assert(chars@.subrange(0, chars@.len() as int) =~= chars@);
    parse_range(&chars, lo, hi)
}

/// A positive count typed into a box (the holdings to price, the amount to
/// walk a route with), or nothing when the box holds anything else or zero.
pub fn positive_count(text: &str) -> (v: Option<u64>)
    ensures
        v == (match number_of(text@) {
            Some(n) => if n > 0 { Some(n) } else { None },
            None => None,
        }),
{
    match number(text) {
        Some(n) => if n > 0 { Some(n) } else { None },
        None => None,
    }
}


/// `s.split(',')`: the pieces between commas, empty ones included.
pub open spec fn split_commas(s: Seq<char>) -> Seq<Seq<char>>
    decreases s.len(),
{
    if s.len() == 0 {
        seq![Seq::<char>::empty()]
    } else {
        let head = split_commas(s.drop_last());
        if s.last() == ',' {
            head.push(Seq::<char>::empty())
        } else {
            head.update(head.len() - 1, head.last().push(s.last()))
        }
    }
}

proof fn lemma_split_nonempty(s: Seq<char>)
    ensures
        split_commas(s).len() >= 1,
    decreases s.len(),
{
    if s.len() > 0 {
        lemma_split_nonempty(s.drop_last());
    }
}

/// The sizes read from the pieces: empty pieces skipped, anything that is
/// not a positive whole number refusing the whole list.
pub open spec fn sizes_from(parts: Seq<Seq<char>>) -> Option<Seq<u64>>
    decreases parts.len(),
{
    if parts.len() == 0 {
        Some(Seq::empty())
    } else {
        match sizes_from(parts.drop_last()) {
            None => None,
            Some(acc) => {
                let piece = trimmed(parts.last());
                if piece.len() == 0 {
                    Some(acc)
                } else {
                    match parse_u64(piece) {
                        Some(v) => if v > 0 { Some(acc.push(v)) } else { None },
                        None => None,
                    }
                }
            },
        }
    }
}

/// The convert ladder from its box: comma-separated positive whole numbers,
/// blanks ignored, at least one.
pub open spec fn sizes_of(s: Seq<char>) -> Option<Seq<u64>> {
    match sizes_from(split_commas(s)) {
        Some(list) => if list.len() > 0 { Some(list) } else { None },
        None => None,
    }
}

/// Piece `p` of `s` lies within `s[..bound]` and spells `part`.
spec fn piece_spells(s: Seq<char>, p: (usize, usize), part: Seq<char>, bound: int) -> bool {
    p.0 <= p.1 <= bound && bound <= s.len() && s.subrange(p.0 as int, p.1 as int) == part
}

proof fn lemma_split_step(s: Seq<char>, i: int)
    requires
        0 <= i < s.len(),
    ensures
        split_commas(s.take(i + 1)) == if s[i] == ',' {
            split_commas(s.take(i)).push(Seq::<char>::empty())
        } else {
            split_commas(s.take(i)).update(
                split_commas(s.take(i)).len() - 1,
                split_commas(s.take(i)).last().push(s[i]),
            )
        },
{
    assert(s.take(i + 1).drop_last() =~= s.take(i));
    assert(s.take(i + 1).last() == s[i]);
}

/// The pieces of `s` between commas, as index ranges.
fn comma_pieces(s: &Vec<char>) -> (pieces: Vec<(usize, usize)>)
    ensures
        pieces@.len() == split_commas(s@).len(),
        forall|k: int| 0 <= k < pieces@.len() ==> #[trigger] piece_spells(s@, pieces@[k], split_commas(s@)[k], s@.len() as int),
{
    let mut pieces: Vec<(usize, usize)> = Vec::new();
    let mut start: usize = 0;
    let mut i: usize = 0;
    while i < s.len()
        invariant
            start <= i <= s@.len(),
            pieces@.len() + 1 == split_commas(s@.take(i as int)).len(),
            forall|k: int| 0 <= k < pieces@.len() ==> #[trigger] piece_spells(s@, pieces@[k], split_commas(s@.take(i as int))[k], i as int),
            s@.subrange(start as int, i as int) == split_commas(s@.take(i as int)).last(),
        decreases s.len() - i,
    {
        let ghost before = split_commas(s@.take(i as int));
        let ghost old_pieces = pieces@;
        proof {
            lemma_split_nonempty(s@.take(i as int));
            lemma_split_step(s@, i as int);
        }
        let ghost after = split_commas(s@.take(i + 1));
        if s[i] == ',' {
            pieces.push((start, i));
            start = i + 1;
            assert(s@.subrange(start as int, i + 1) =~= Seq::<char>::empty());
            assert forall|k: int| 0 <= k < pieces@.len() implies #[trigger] piece_spells(s@, pieces@[k], after[k], i + 1) by {
                if k < old_pieces.len() {
                    assert(pieces@[k] == old_pieces[k]);
                    assert(piece_spells(s@, old_pieces[k], before[k], i as int));
                }
            }
        } else {
            assert(s@.subrange(start as int, i + 1) =~= s@.subrange(start as int, i as int).push(s@[i as int]));
            assert forall|k: int| 0 <= k < pieces@.len() implies #[trigger] piece_spells(s@, pieces@[k], after[k], i + 1) by {
                assert(piece_spells(s@, old_pieces[k], before[k], i as int));
                assert(after[k] == before[k]);
            }
        }
        i = i + 1;
    }
    assert(s@.take(i as int) =~= s@);
    proof {
        lemma_split_nonempty(s@);
    }
    let ghost last_start = start;
    pieces.push((start, i));
    assert forall|k: int| 0 <= k < pieces@.len() implies #[trigger] piece_spells(s@, pieces@[k], split_commas(s@)[k], s@.len() as int) by {
        if k < pieces@.len() - 1 {
            assert(piece_spells(s@, pieces@[k], split_commas(s@.take(i as int))[k], i as int));
        }
    }
    pieces
}

/// The convert ladder from its box's text: the comma-separated pieces,
/// trimmed, blanks skipped; `None` if any piece is not a positive whole
/// number or nothing is left.
pub fn sizes(text: &str) -> (list: Option<Vec<u64>>)
    ensures
        match sizes_of(text@) {
            Some(l) => list.is_some() && list.unwrap()@ == l,
            None => list.is_none(),
        },
{
    let chars = chars_of(text);
    let pieces = comma_pieces(&chars);
    let ghost parts = split_commas(chars@);
    let mut out: Vec<u64> = Vec::new();
    let mut k: usize = 0;
    while k < pieces.len()
        invariant
            k <= pieces@.len(),
            parts == split_commas(chars@),
            chars@ == text@,
            pieces@.len() == parts.len(),
            forall|m: int| 0 <= m < pieces@.len() ==> #[trigger] piece_spells(chars@, pieces@[m], parts[m], chars@.len() as int),
            sizes_from(parts.take(k as int)) == Some(out@),
        decreases pieces.len() - k,
    {
        let (lo, hi) = pieces[k];
        assert(piece_spells(chars@, pieces@[k as int], parts[k as int], chars@.len() as int));
        assert(chars@.subrange(lo as int, hi as int) == parts[k as int]);
        assert(parts.take(k + 1).drop_last() =~= parts.take(k as int));
        assert(parts.take(k + 1).last() == parts[k as int]);
        let (a, b) = trim_range(&chars, lo, hi);
        if a < b {
            match parse_range(&chars, a, b) {
                Some(v) => {
                    if v == 0 {
                        proof { lemma_sizes_refusal_sticks(parts, k as int + 1); }
                        return None;
                    }
                    out.push(v);
                },
                None => {
                    proof { lemma_sizes_refusal_sticks(parts, k as int + 1); }
                    return None;
                },
            }
        }
        k = k + 1;
    }
    assert(parts.take(k as int) =~= parts);
    if out.len() == 0 {
        None
    } else {
        Some(out)
    }
}

/// Once a prefix of the pieces refuses, the whole list refuses.
proof fn lemma_sizes_refusal_sticks(parts: Seq<Seq<char>>, i: int)
    requires
        0 <= i <= parts.len(),
        sizes_from(parts.take(i)) is None,
    ensures
        sizes_from(parts) is None,
    decreases parts.len() - i,
{
    if i < parts.len() {
        let next = parts.take(i + 1);
        assert(next.drop_last() =~= parts.take(i));
        lemma_sizes_refusal_sticks(parts, i + 1);
    } else {
        assert(parts.take(i) =~= parts);
    }
}


/// A text with a non-whitespace character does not trim to nothing.
pub proof fn lemma_trimmed_keeps(s: Seq<char>, i: int)
    requires
        0 <= i < s.len(),
        !is_ws(s[i]),
    ensures
        trimmed(s).len() > 0,
{
    lemma_trim_start_keeps(s, i);
    let t = trim_start(s);
    lemma_trim_end_nonempty(t);
}

proof fn lemma_trim_start_keeps(s: Seq<char>, i: int)
    requires
        0 <= i < s.len(),
        !is_ws(s[i]),
    ensures
        trim_start(s).len() > 0,
        !is_ws(trim_start(s)[0]),
    decreases s.len(),
{
    if is_ws(s[0]) {
        assert(i > 0);
        assert(s.drop_first()[i - 1] == s[i]);
        lemma_trim_start_keeps(s.drop_first(), i - 1);
    }
}

proof fn lemma_trim_end_nonempty(t: Seq<char>)
    requires
        t.len() > 0,
        !is_ws(t[0]),
    ensures
        trim_end(t).len() > 0,
    decreases t.len(),
{
    if t.len() > 1 && is_ws(t.last()) {
        assert(t.drop_last()[0] == t[0]);
        lemma_trim_end_nonempty(t.drop_last());
    }
}

/// A text of whitespace only trims to nothing.
pub proof fn lemma_all_ws_trims_to_nothing(s: Seq<char>)
    requires
        forall|k: int| 0 <= k < s.len() ==> is_ws(#[trigger] s[k]),
    ensures
        trimmed(s).len() == 0,
    decreases s.len(),
{
    if s.len() > 0 {
        assert forall|k: int| 0 <= k < s.drop_first().len() implies is_ws(#[trigger] s.drop_first()[k]) by {
            assert(s.drop_first()[k] == s[k + 1]);
        }
        lemma_all_ws_trims_to_nothing(s.drop_first());
    }
}


proof fn lemma_digit_char(d: nat)
    requires
        d < 10,
    ensures
        is_digit(digit_char(d)),
        digit_value(digit_char(d)) == d,
        !is_ws(digit_char(d)),
        digit_char(d) != '+',
        digit_char(d) != ',',
{
}

/// A numeral is a non-empty run of digits spelling its value.
pub proof fn lemma_decimal_digits(n: nat)
    ensures
        decimal(n).len() >= 1,
        all_digits(decimal(n)),
        digits_value(decimal(n)) == n,
        forall|k: int| 0 <= k < decimal(n).len() ==> !is_ws(#[trigger] decimal(n)[k]) && decimal(n)[k] != ',',
    decreases n,
{
    if n < 10 {
        lemma_digit_char(n);
        assert(decimal(n).drop_last() =~= Seq::<char>::empty());
        assert(digits_value(decimal(n)) == digits_value(Seq::<char>::empty()) * 10 + digit_value(digit_char(n)));
    } else {
        lemma_decimal_digits(n / 10);
        lemma_digit_char(n % 10);
        let s = decimal(n);
        assert(s.drop_last() =~= decimal(n / 10));
        assert(forall|k: int| 0 <= k < decimal(n / 10).len() ==> s[k] == decimal(n / 10)[k]);
        assert(s.last() == digit_char(n % 10));
        assert(digits_value(s) == digits_value(decimal(n / 10)) * 10 + digit_value(digit_char(n % 10)));
        assert(n == (n / 10) * 10 + n % 10);
    }
}

/// A numeral trims to itself and reads back as its value.
pub proof fn lemma_number_of_decimal(n: nat)
    requires
        n <= u64::MAX,
    ensures
        trim_start(decimal(n)) == decimal(n),
        trim_end(decimal(n)) == decimal(n),
        trimmed(decimal(n)) == decimal(n),
        parse_u64(decimal(n)) == Some(n as u64),
        number_of(decimal(n)) == Some(n as u64),
{
    lemma_decimal_digits(n);
    let s = decimal(n);
    assert(!is_ws(s[0]));
    assert(trim_start(s) == s);
    assert(!is_ws(s.last()));
    assert(trim_end(s) == s);
    assert(s[0] != '+') by {
        assert(is_digit(s[0]));
    }
}

/// Text without commas extends the last piece of a split.
pub proof fn lemma_split_append_plain(s: Seq<char>, t: Seq<char>)
    requires
        forall|k: int| 0 <= k < t.len() ==> #[trigger] t[k] != ',',
    ensures
        split_commas(s).len() >= 1,
        split_commas(s + t) == split_commas(s).update(split_commas(s).len() - 1, split_commas(s).last() + t),
    decreases t.len(),
{
    lemma_split_nonempty(s);
    if t.len() == 0 {
        assert(s + t =~= s);
        assert(split_commas(s).last() + t =~= split_commas(s).last());
        assert(split_commas(s).update(split_commas(s).len() - 1, split_commas(s).last())
            =~= split_commas(s));
    } else {
        let u = t.drop_last();
        assert forall|k: int| 0 <= k < u.len() implies #[trigger] u[k] != ',' by {
            assert(u[k] == t[k]);
        }
        lemma_split_append_plain(s, u);
        assert((s + t).drop_last() =~= s + u);
        assert((s + t).last() == t.last());
        let head = split_commas(s + u);
        assert(head.last() =~= split_commas(s).last() + u);
        assert((split_commas(s).last() + u).push(t.last()) =~= split_commas(s).last() + t);
        assert(split_commas(s + t) =~= split_commas(s).update(split_commas(s).len() - 1, split_commas(s).last() + t));
    }
}

/// A comma closes the last piece and opens an empty one.
pub proof fn lemma_split_after_comma(s: Seq<char>)
    ensures
        split_commas(s.push(',')) == split_commas(s).push(Seq::<char>::empty()),
{
    assert(s.push(',').drop_last() =~= s);
}

/// `text` without surrounding whitespace (`str::trim`), as a new string.
pub fn trim_text(text: &str) -> (out: String)
    ensures
        out@ == trimmed(text@),
{
    let chars = chars_of(text);
    let (lo, hi) = trim_range(&chars, 0, chars.len());
    assert(chars@.subrange(0, chars@.len() as int) =~= chars@);
    let mut out = String::new();
    let mut i: usize = lo;
    while i < hi
        invariant
            lo <= i <= hi <= chars@.len(),
            out@ == chars@.subrange(lo as int, i as int),
        decreases hi - i,
    {
        crate::textutil::push_char(&mut out, chars[i]);
        assert(chars@.subrange(lo as int, i + 1) =~= chars@.subrange(lo as int, i as int).push(chars@[i as int]));
        i = i + 1;
    }
    out
}

} // verus!
