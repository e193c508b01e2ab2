//! Decimal rendering of numbers, shared by labels, summaries and messages.

use vstd::prelude::*;
use vstd::string::StrSliceExecFns;
use vstd::string::StringExecFns;

verus! {
/// The character that writes the digit `d`.
pub open spec fn digit_char(d: nat) -> char {
    if d == 0 {
        '0'
    } else if d == 1 {
        '1'
    } else if d == 2 {
        '2'
    } else if d == 3 {
        '3'
    } else if d == 4 {
        '4'
    } else if d == 5 {
        '5'
    } else if d == 6 {
        '6'
    } else if d == 7 {
        '7'
    } else if d == 8 {
        '8'
    } else {
        '9'
    }
}

/// The decimal numeral of `n`: no sign, no leading zero, `"0"` for zero.
pub open spec fn decimal(n: nat) -> Seq<char>
    decreases n,
{
    if n < 10 {
        seq![digit_char(n)]
    } else {
        decimal(n / 10).push(digit_char(n % 10))
    }
}

/// The one-character literal for a digit.
fn digit_str(d: u64) -> (s: &'static str)
    requires
        d < 10,
    ensures
        s@ == seq![digit_char(d as nat)],
{
    proof {
        reveal_strlit("0");
        reveal_strlit("1");
        reveal_strlit("2");
        reveal_strlit("3");
        reveal_strlit("4");
        reveal_strlit("5");
        reveal_strlit("6");
        reveal_strlit("7");
        reveal_strlit("8");
        reveal_strlit("9");
    }
    let s = if d == 0 {
        "0"
    } else if d == 1 {
        "1"
    } else if d == 2 {
        "2"
    } else if d == 3 {
        "3"
    } else if d == 4 {
        "4"
    } else if d == 5 {
        "5"
    } else if d == 6 {
        "6"
    } else if d == 7 {
        "7"
    } else if d == 8 {
        "8"
    } else {
        "9"
    };
    s
}

/// Writes `n` in decimal.
pub fn decimal_string(n: u64) -> (s: String)
    ensures
        s@ == decimal(n as nat),
    decreases n,
{
    if n < 10 {
        String::from_str(digit_str(n))
    } else {
        let mut s = decimal_string(n / 10);
        s.append(digit_str(n % 10));
        s
    }
}

/// Whether two texts hold the same characters.
pub fn same_text(a: &str, b: &str) -> (same: bool)
    ensures
        same == (a@ == b@),
{
    let left = String::from_str(a);
    let right = String::from_str(b);
    left == right
}

/// The texts as characters.
pub open spec fn text_views(texts: Seq<String>) -> Seq<Seq<char>> {
    texts.map_values(|t: String| t@)
}

/// Whether `c` is white space, as `char::is_whitespace` has it: the
/// characters with the Unicode property `White_Space`.
pub uninterp spec fn is_whitespace(c: char) -> bool;

/// `char::is_whitespace` of std. What it returns is named, not spelled out.
pub assume_specification[ char::is_whitespace ](c: char) -> (white: bool)
    ensures
        white == is_whitespace(c),
;

/// The words of a text: its longest runs of characters that are no white
/// space, in order.
pub open spec fn words(text: Seq<char>) -> Seq<Seq<char>>
    decreases text.len(),
{
    if text.len() == 0 {
        Seq::empty()
    } else {
        let before = words(text.drop_last());
        if is_whitespace(text.last()) {
            before
        } else if text.len() >= 2 && !is_whitespace(text[text.len() - 2]) && before.len() > 0 {
            before.drop_last().push(before.last().push(text.last()))
        } else {
            before.push(seq![text.last()])
        }
    }
}

/// A text has no more words than characters.
pub proof fn lemma_words_bounded(text: Seq<char>)
    ensures
        words(text).len() <= text.len(),
    decreases text.len(),
{
    if text.len() > 0 {
        lemma_words_bounded(text.drop_last());
    }
}

/// What the words of the first `end` characters are, given the words that
/// ended before `start` and a word that runs from `start` to `end`.
proof fn lemma_words_with_open_word(text: Seq<char>, start: int, end: int)
    requires
        0 <= start < end <= text.len(),
        start > 0 ==> is_whitespace(text[start - 1]),
        forall|k: int| start <= k < end ==> !is_whitespace(#[trigger] text[k]),
    ensures
        words(text.take(end)) == words(text.take(start)).push(text.subrange(start, end)),
    decreases end - start,
{
    let upto = text.take(end);
    assert(upto.drop_last() =~= text.take(end - 1));
    if end - 1 == start {
        assert(text.subrange(start, end) =~= seq![text[start]]);
    } else {
        lemma_words_with_open_word(text, start, end - 1);
        assert(text.subrange(start, end - 1).push(text[end - 1]) =~= text.subrange(start, end));
    }
}

/// Splits a text into its words.
pub fn split_words(text: &str) -> (found: Vec<String>)
    ensures
        text_views(found@) == words(text@),
{
    let n = text.unicode_len();
    let mut found: Vec<String> = Vec::new();
    let mut start: usize = 0;
    let mut in_word: bool = false;
    let mut i: usize = 0;
    while i < n
        invariant
            0 <= i <= n,
            n == text@.len(),
            in_word ==> start < i,
            !in_word ==> start == i,
            start > 0 ==> is_whitespace(text@[start - 1]),
            forall|k: int| start <= k < i ==> !is_whitespace(#[trigger] text@[k]),
            text_views(found@) == words(text@.take(start as int)),
        decreases n - i,
    {
        let c = text.get_char(i);
        if c.is_whitespace() {
            if in_word {
                proof {
                    lemma_words_with_open_word(text@, start as int, i as int);
                }
                let ghost before = text_views(found@);
                found.push(String::from_str(text.substring_char(start, i)));
                assert(text_views(found@) =~= before.push(
                    text@.subrange(start as int, i as int),
                ));
                in_word = false;
            }
            proof {
                assert(text@.take(i + 1).drop_last() =~= text@.take(i as int));
            }
            start = i + 1;
        } else {
            in_word = true;
        }
        i = i + 1;
    }
    if in_word {
        proof {
            lemma_words_with_open_word(text@, start as int, n as int);
        }
        let ghost before = text_views(found@);
        found.push(String::from_str(text.substring_char(start, n)));
        assert(text_views(found@) =~= before.push(
            text@.subrange(start as int, n as int),
        ));
    }
    assert(text@.take(n as int) =~= text@);
    found
}

/// The pieces of a text between the separators `sep`: one more piece than
/// there are separators, empty pieces included.
pub open spec fn pieces(text: Seq<char>, sep: char) -> Seq<Seq<char>>
    decreases text.len(),
{
    if text.len() == 0 {
        seq![Seq::<char>::empty()]
    } else {
        let before = pieces(text.drop_last(), sep);
        if text.last() == sep {
            before.push(Seq::<char>::empty())
        } else {
            before.drop_last().push(before.last().push(text.last()))
        }
    }
}

/// What the pieces of the first `end` characters are, where the last piece
/// began at `start`.
proof fn lemma_pieces_with_open_piece(text: Seq<char>, sep: char, start: int, end: int)
    requires
        0 <= start <= end <= text.len(),
        start > 0 ==> text[start - 1] == sep,
        forall|k: int| start <= k < end ==> #[trigger] text[k] != sep,
    ensures
        pieces(text.take(end), sep).len() >= 1,
        pieces(text.take(end), sep).last() == text.subrange(start, end),
        pieces(text.take(end), sep).drop_last() == if start == 0 {
            Seq::<Seq<char>>::empty()
        } else {
            pieces(text.take(start - 1), sep)
        },
    decreases end - start,
{
    let upto = text.take(end);
    if end == start {
        if start > 0 {
            assert(upto.drop_last() =~= text.take(start - 1));
            let before = pieces(text.take(start - 1), sep);
        }
    } else {
        lemma_pieces_with_open_piece(text, sep, start, end - 1);
        assert(upto.drop_last() =~= text.take(end - 1));
        let before = pieces(text.take(end - 1), sep);
        assert(before.drop_last().push(before.last().push(text[end - 1])).drop_last()
            =~= before.drop_last());
    }
}

/// Splits a text at every `sep`.
pub fn split_on(text: &str, sep: char) -> (found: Vec<String>)
    ensures
        text_views(found@) == pieces(text@, sep),
{
    let n = text.unicode_len();
    let mut found: Vec<String> = Vec::new();
    let mut start: usize = 0;
    let mut i: usize = 0;
    while i < n
        invariant
            0 <= start <= i <= n,
            n == text@.len(),
            start > 0 ==> text@[start - 1] == sep,
            forall|k: int| start <= k < i ==> #[trigger] text@[k] != sep,
            text_views(found@) == if start == 0 {
                Seq::<Seq<char>>::empty()
            } else {
                pieces(text@.take(start - 1), sep)
            },
        decreases n - i,
    {
        let c = text.get_char(i);
        if c == sep {
            proof {
                lemma_pieces_with_open_piece(text@, sep, start as int, i as int);
            }
            let ghost before = text_views(found@);
            found.push(String::from_str(text.substring_char(start, i)));
            assert(text_views(found@) =~= before.push(
                text@.subrange(start as int, i as int),
            ));
            start = i + 1;
        }
        i = i + 1;
    }
    proof {
        lemma_pieces_with_open_piece(text@, sep, start as int, n as int);
        assert(text@.take(n as int) =~= text@);
        let done = pieces(text@, sep);
        assert(done.drop_last().push(done.last()) =~= done);
    }
    found.push(String::from_str(text.substring_char(start, n)));
    found
}

/// Whether `c` is one of the digits `0` to `9`.
pub open spec fn is_digit(c: char) -> bool {
    '0' <= c <= '9'
}

/// Whether a text is a numeral: one digit or more, and nothing else.
pub open spec fn is_numeral(text: Seq<char>) -> bool {
    text.len() > 0 && forall|i: int| 0 <= i < text.len() ==> is_digit(#[trigger] text[i])
}

/// The number that a run of digits writes. Leading zeros do not count.
pub open spec fn numeral_value(text: Seq<char>) -> nat
    decreases text.len(),
{
    if text.len() == 0 {
        0
    } else {
        numeral_value(text.drop_last()) * 10 + (text.last() as nat - '0' as nat) as nat
    }
}

/// The number a text writes, where it is a numeral of a number up to
/// `limit`.
pub open spec fn number_up_to(text: Seq<char>, limit: nat) -> Option<nat> {
    if is_numeral(text) && numeral_value(text) <= limit {
        Some(numeral_value(text))
    } else {
        None
    }
}

/// A longer numeral writes no smaller a number.
proof fn lemma_numeral_value_grows(text: Seq<char>, n: int)
    requires
        0 <= n <= text.len(),
    ensures
        numeral_value(text.take(n)) <= numeral_value(text),
    decreases text.len(),
{
    if n < text.len() {
        assert(text.take(n) =~= text.drop_last().take(n));
        lemma_numeral_value_grows(text.drop_last(), n);
    } else {
        assert(text.take(n) =~= text);
    }
}

/// Reads a number up to `limit` that is written in digits alone: no sign,
/// no space.
pub fn parse_number(text: &str, limit: u64) -> (number: Option<u64>)
    ensures
        match number {
            Some(n) => number_up_to(text@, limit as nat) == Some(n as nat),
            None => number_up_to(text@, limit as nat) is None,
        },
{
    let n = text.unicode_len();
    if n == 0 {
        return None;
    }
    let mut value: u64 = 0;
    let mut i: usize = 0;
    while i < n
        invariant
            0 <= i <= n,
            n == text@.len(),
            forall|k: int| 0 <= k < i ==> is_digit(#[trigger] text@[k]),
            value == numeral_value(text@.take(i as int)),
            value <= limit,
        decreases n - i,
    {
        let c = text.get_char(i);
        if !('0' <= c && c <= '9') {
            return None;
        }
        let digit = (c as u32 - '0' as u32) as u64;
        proof {
            assert(text@.take(i + 1).drop_last() =~= text@.take(i as int));
            lemma_numeral_value_grows(text@, i + 1);
        }
        if digit > limit {
            return None;
        }
        if value > (limit - digit) / 10 {
            assert(numeral_value(text@.take(i + 1)) > limit) by (nonlinear_arith)
                requires
                    value > (limit - digit) / 10,
                    digit <= limit,
                    numeral_value(text@.take(i + 1)) == value * 10 + digit,
            ;
            return None;
        }
        value = value * 10 + digit;
        i = i + 1;
    }
    assert(text@.take(n as int) =~= text@);
    Some(value)
}

/// The small letter for a capital of `A` to `Z`; any other character as it
/// is.
pub open spec fn ascii_lower(c: char) -> char {
    if 'A' <= c <= 'Z' {
        ((c as u32) + 32) as char
    } else {
        c
    }
}

/// Whether two texts are the same but for the case of the letters `A` to
/// `Z`.
pub open spec fn same_ignoring_ascii_case(a: Seq<char>, b: Seq<char>) -> bool {
    a.len() == b.len() && forall|i: int| 0 <= i < a.len() ==> ascii_lower(#[trigger] a[i]) == ascii_lower(b[i])
}

/// The small letter for a capital of `A` to `Z`.
fn to_ascii_lower(c: char) -> (lower: char)
    ensures
        lower == ascii_lower(c),
{
    if 'A' <= c && c <= 'Z' {
        char_from_code(c as u32 + 32)
    } else {
        c
    }
}

/// The character with this code, for the codes of the small letters.
fn char_from_code(code: u32) -> (c: char)
    requires
        97 <= code <= 122,
    ensures
        c == code as char,
{
    code as u8 as char
}

/// Whether two texts are the same but for the case of the letters `A` to
/// `Z`.
pub fn eq_ignoring_ascii_case(a: &str, b: &str) -> (same: bool)
    ensures
        same == same_ignoring_ascii_case(a@, b@),
{
    let n = a.unicode_len();
    if n != b.unicode_len() {
        return false;
    }
    let mut i: usize = 0;
    while i < n
        invariant
            0 <= i <= n,
            n == a@.len(),
            n == b@.len(),
            forall|k: int| 0 <= k < i ==> ascii_lower(#[trigger] a@[k]) == ascii_lower(b@[k]),
        decreases n - i,
    {
        if to_ascii_lower(a.get_char(i)) != to_ascii_lower(b.get_char(i)) {
            return false;
        }
        i = i + 1;
    }
    true
}

/// How one text stands to another in the order of the dictionary.
#[derive(Debug, Clone, Copy, PartialEq, Eq, Structural)]
pub enum TextOrder {
    Before,
    Same,
    After,
}

/// The order of two texts: that of their first characters that differ, by
/// code point; where one text begins the other, the shorter comes first.
pub open spec fn text_order(a: Seq<char>, b: Seq<char>) -> TextOrder
    decreases a.len(),
{
    if a.len() == 0 {
        if b.len() == 0 {
            TextOrder::Same
        } else {
            TextOrder::Before
        }
    } else if b.len() == 0 {
        TextOrder::After
    } else if a[0] < b[0] {
        TextOrder::Before
    } else if a[0] > b[0] {
        TextOrder::After
    } else {
        text_order(a.skip(1), b.skip(1))
    }
}

/// Two texts are in the order `Same` just when they are the same text.
pub proof fn lemma_text_order_same(a: Seq<char>, b: Seq<char>)
    ensures
        text_order(a, b) == TextOrder::Same <==> a == b,
    decreases a.len(),
{
    if a.len() > 0 && b.len() > 0 && a[0] == b[0] {
        lemma_text_order_same(a.skip(1), b.skip(1));
        if a.skip(1) == b.skip(1) {
            assert(a =~= seq![a[0]] + a.skip(1));
            assert(b =~= seq![b[0]] + b.skip(1));
        }
    } else if a.len() == 0 && b.len() == 0 {
        assert(a =~= b);
    }
}

/// Finds the order of two texts.
pub fn order_texts(a: &str, b: &str) -> (order: TextOrder)
    ensures
        order == text_order(a@, b@),
{
    let n = a.unicode_len();
    let m = b.unicode_len();
    let mut i: usize = 0;
    assert(a@.skip(0) =~= a@);
    assert(b@.skip(0) =~= b@);
    while i < n && i < m
        invariant
            0 <= i <= n,
            i <= m,
            n == a@.len(),
            m == b@.len(),
            text_order(a@, b@) == text_order(a@.skip(i as int), b@.skip(i as int)),
        decreases n - i,
    {
        let x = a.get_char(i);
        let y = b.get_char(i);
        proof {
            assert(a@.skip(i as int).skip(1) =~= a@.skip(i + 1));
            assert(b@.skip(i as int).skip(1) =~= b@.skip(i + 1));
        }
        if x < y {
            return TextOrder::Before;
        }
        if x > y {
            return TextOrder::After;
        }
        i = i + 1;
    }
    if i < m {
        TextOrder::Before
    } else if i < n {
        TextOrder::After
    } else {
        TextOrder::Same
    }
}

} // verus!
