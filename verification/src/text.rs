//! Small verified helpers on text: decimal rendering and prefix handling.

use vstd::prelude::*;
use vstd::string::*;

verus! {

/// The character that stands for the decimal digit `d` (meaningful for `d < 10`).
pub open spec fn digit_char(d: nat) -> char {
    if d == 0 {
        '0'
    } else if d == 1 {
        '1'
    } else if d == 2 {
        '2'
    } else if d == 3 {
        '3'
    } else if d == 4 {
        '4'
    } else if d == 5 {
        '5'
    } else if d == 6 {
        '6'
    } else if d == 7 {
        '7'
    } else if d == 8 {
        '8'
    } else {
        '9'
    }
}

/// The decimal numeral of `n`, most significant digit first, without leading zeros.
pub open spec fn decimal(n: nat) -> Seq<char>
    decreases n,
{
    if n < 10 {
        seq![digit_char(n)]
    } else {
        decimal(n / 10).push(digit_char(n % 10))
    }
}

/// The one-character text of a single decimal digit.
fn digit_text(d: u64) -> (text: &'static str)
    requires
        d < 10,
    ensures
        text@ == seq![digit_char(d as nat)],
{
    proof {
        reveal_strlit("0");
        reveal_strlit("1");
        reveal_strlit("2");
        reveal_strlit("3");
        reveal_strlit("4");
        reveal_strlit("5");
        reveal_strlit("6");
        reveal_strlit("7");
        reveal_strlit("8");
        reveal_strlit("9");
    }
    let text = if d == 0 {
        "0"
    } else if d == 1 {
        "1"
    } else if d == 2 {
        "2"
    } else if d == 3 {
        "3"
    } else if d == 4 {
        "4"
    } else if d == 5 {
        "5"
    } else if d == 6 {
        "6"
    } else if d == 7 {
        "7"
    } else if d == 8 {
        "8"
    } else {
        "9"
    };
    assert(text@ =~= seq![digit_char(d as nat)]);
    text
}

/// Renders `n` as a decimal numeral.
pub fn decimal_text(n: u64) -> (text: String)
    ensures
        text@ == decimal(n as nat),
    decreases n,
{
    if n < 10 {
        String::from_str(digit_text(n))
    } else {
        let mut text = decimal_text(n / 10);
        text.append(digit_text(n % 10));
        assert(text@ =~= decimal(n as nat));
        text
    }
}

/// Whether two texts hold the same characters.
pub fn same_text(left: &str, right: &str) -> (same: bool)
    ensures
        same == (left@ == right@),
{
    let left_owned = String::from_str(left);
    let right_owned = String::from_str(right);
    left_owned == right_owned
}

/// Whether `pattern` stands in `text` at character `at`.
fn stands_at(text: &str, at: usize, pattern: &str, text_len: usize, pattern_len: usize) -> (yes:
    bool)
    requires
        text_len == text@.len(),
        pattern_len == pattern@.len(),
        at <= text_len,
    ensures
        yes == pattern@.is_prefix_of(text@.skip(at as int)),
{
    if text_len - at < pattern_len {
        return false;
    }
    let mut k: usize = 0;
    while k < pattern_len
        invariant
            k <= pattern_len,
            at + pattern_len <= text_len,
            text_len == text@.len(),
            pattern_len == pattern@.len(),
            forall|j: int| 0 <= j < k ==> text@[at + j] == pattern@[j],
        decreases pattern_len - k,
    {
        if text.get_char(at + k) != pattern.get_char(k) {
            assert(text@.skip(at as int).subrange(0, pattern@.len() as int)[k as int]
                != pattern@[k as int]);
            return false;
        }
        k += 1;
    }
    assert(pattern@ =~= text@.skip(at as int).subrange(0, pattern@.len() as int));
    true
}

/// What is left of `text` once `prefix` is taken from its front; `None`
/// where `text` does not start with `prefix`.
pub open spec fn without_prefix(text: Seq<char>, prefix: Seq<char>) -> Option<Seq<char>> {
    if prefix.is_prefix_of(text) {
        Some(text.skip(prefix.len() as int))
    } else {
        None
    }
}

/// Takes `prefix` from the front of `text`.
pub fn strip_prefix<'a>(text: &'a str, prefix: &str) -> (rest: Option<&'a str>)
    ensures
        match rest {
            Some(found) => without_prefix(text@, prefix@) == Some(found@),
            None => without_prefix(text@, prefix@) is None,
        },
{
    let text_len: usize = text.unicode_len();
    let prefix_len: usize = prefix.unicode_len();
    assert(text@.skip(0) =~= text@);
    if stands_at(text, 0, prefix, text_len, prefix_len) {
        Some(text.substring_char(prefix_len, text_len))
    } else {
        None
    }
}

/// `text` with every occurrence of `from` replaced by `to`, the
/// occurrences taken from the left and not overlapping. An empty `from`
/// occurs nowhere: the text stays as it is.
pub open spec fn replaced(text: Seq<char>, from: Seq<char>, to: Seq<char>) -> Seq<char>
    decreases text.len(),
{
    if from.len() == 0 || text.len() < from.len() {
        text
    } else if from.is_prefix_of(text) {
        to + replaced(text.skip(from.len() as int), from, to)
    } else {
        seq![text[0]] + replaced(text.skip(1), from, to)
    }
}

/// One step of `replaced`, at character `at` of `text`: a match is replaced
/// and skipped, any other character is kept.
proof fn lemma_replaced_step(text: Seq<char>, at: int, from: Seq<char>, to: Seq<char>)
    requires
        0 <= at < text.len(),
        from.len() > 0,
    ensures
        from.is_prefix_of(text.skip(at)) ==> at + from.len() <= text.len() && replaced(
            text.skip(at),
            from,
            to,
        ) == to + replaced(text.skip(at + from.len()), from, to),
        !from.is_prefix_of(text.skip(at)) ==> replaced(text.skip(at), from, to) == text.subrange(
            at,
            at + 1,
        ) + replaced(text.skip(at + 1), from, to),
{
    let rest = text.skip(at);
    assert(rest.skip(1) =~= text.skip(at + 1));
    assert(seq![rest[0]] =~= text.subrange(at, at + 1));
    if from.is_prefix_of(rest) {
        assert(rest.skip(from.len() as int) =~= text.skip(at + from.len()));
    } else if rest.len() < from.len() {
        assert(rest.skip(1).len() < from.len());
        assert(rest =~= seq![rest[0]] + rest.skip(1));
    }
}

/// `text` with every occurrence of `from` replaced by `to`; with an empty
/// `from`, `text` as it is. The work grows with the square of the length of
/// `text`: it is meant for short texts.
pub fn replace_all(text: &str, from: &str, to: &str) -> (out: String)
    ensures
        out@ == replaced(text@, from@, to@),
{
    let text_len: usize = text.unicode_len();
    let from_len: usize = from.unicode_len();
    if from_len == 0 {
        return String::from_str(text);
    }
    let mut out = String::new();
    let mut at: usize = 0;
    assert(text@.skip(0) =~= text@);
    while at < text_len
        invariant
            at <= text_len,
            text_len == text@.len(),
            from_len == from@.len(),
            from_len > 0,
            out@ + replaced(text@.skip(at as int), from@, to@) == replaced(text@, from@, to@),
        decreases text_len - at,
    {
        proof {
            lemma_replaced_step(text@, at as int, from@, to@);
        }
        if stands_at(text, at, from, text_len, from_len) {
            out.append(to);
            at += from_len;
        } else {
            out.append(text.substring_char(at, at + 1));
            at += 1;
        }
        assert(out@ + replaced(text@.skip(at as int), from@, to@) =~= replaced(
            text@,
            from@,
            to@,
        ));
    }
    assert(text@.skip(at as int).len() == 0);
    assert(out@ =~= out@ + replaced(text@.skip(at as int), from@, to@));
    out
}

} // verus!
