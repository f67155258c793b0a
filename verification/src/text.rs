//! Text.

use vstd::prelude::*;

verus! {

/// Whether two texts are the same.
pub fn same_text(a: &str, b: &str) -> (same: bool)
    ensures
        same == (a@ == b@),
{
    a.to_owned() == b.to_owned()
}

/// A character with the Unicode property `White_Space`.
pub open spec fn white_space(c: char) -> bool {
    ||| '\u{9}' <= c <= '\u{d}'
    ||| c == '\u{20}'
    ||| c == '\u{85}'
    ||| c == '\u{a0}'
    ||| c == '\u{1680}'
    ||| '\u{2000}' <= c <= '\u{200a}'
    ||| c == '\u{2028}'
    ||| c == '\u{2029}'
    ||| c == '\u{202f}'
    ||| c == '\u{205f}'
    ||| c == '\u{3000}'
}

/// `text` without the white space at its ends.
pub open spec fn without_ends(text: Seq<char>) -> Seq<char>
    decreases text.len(),
{
    if text.len() == 0 {
        text
    } else if white_space(text[0]) {
        without_ends(text.drop_first())
    } else if white_space(text.last()) {
        without_ends(text.drop_last())
    } else {
        text
    }
}

/// Whether a character has the Unicode property `White_Space`.
fn is_white_space(c: char) -> (answer: bool)
    ensures
        answer == white_space(c),
{
    ('\u{9}' <= c && c <= '\u{d}') || c == '\u{20}' || c == '\u{85}' || c == '\u{a0}' || c
        == '\u{1680}' || ('\u{2000}' <= c && c <= '\u{200a}') || c == '\u{2028}' || c == '\u{2029}'
        || c == '\u{202f}' || c == '\u{205f}' || c == '\u{3000}'
}

/// `text` without the white space at its ends.
pub(crate) fn trimmed(text: &str) -> (rest: String)
    ensures
        rest@ == without_ends(text@),
{
    let len: usize = text.unicode_len();
    let mut start: usize = 0;
    assert(text@.subrange(0, len as int) =~= text@);
    while start < len && is_white_space(text.get_char(start))
        invariant
            start <= len,
            len == text@.len(),
            without_ends(text@) == without_ends(text@.subrange(start as int, len as int)),
        decreases len - start,
    {
        assert(text@.subrange(start as int, len as int).drop_first() =~= text@.subrange(
            start + 1,
            len as int,
        ));
        start = start + 1;
    }
    let mut end: usize = len;
    while start < end && is_white_space(text.get_char(end - 1))
        invariant
            start <= end <= len,
            len == text@.len(),
            start < end ==> !white_space(text@[start as int]),
            without_ends(text@) == without_ends(text@.subrange(start as int, end as int)),
        decreases end,
    {
        let ghost part = text@.subrange(start as int, end as int);
        assert(part[0] == text@[start as int]);
        assert(part.drop_last() =~= text@.subrange(start as int, end - 1));
        end = end - 1;
    }
    let ghost part = text@.subrange(start as int, end as int);
    assert(start < end ==> part[0] == text@[start as int] && part.last() == text@[end - 1]);
    text.substring_char(start, end).to_owned()
}

/// What is left has no white space at its ends, and leaves nothing more out.
pub proof fn law_trimming_is_done_once(text: Seq<char>)
    ensures
        without_ends(without_ends(text)) == without_ends(text),
        without_ends(text).len() > 0 ==> !white_space(without_ends(text)[0]) && !white_space(
            without_ends(text).last(),
        ),
    decreases text.len(),
{
    if text.len() > 0 {
        if white_space(text[0]) {
            law_trimming_is_done_once(text.drop_first());
        } else if white_space(text.last()) {
            law_trimming_is_done_once(text.drop_last());
        }
    }
}

/// The digit of `n`, below ten.
pub open spec fn digit(n: nat) -> char {
    if n == 0 {
        '0'
    } else if n == 1 {
        '1'
    } else if n == 2 {
        '2'
    } else if n == 3 {
        '3'
    } else if n == 4 {
        '4'
    } else if n == 5 {
        '5'
    } else if n == 6 {
        '6'
    } else if n == 7 {
        '7'
    } else if n == 8 {
        '8'
    } else {
        '9'
    }
}

/// `n` in decimal, without leading zeroes.
pub open spec fn decimal(n: nat) -> Seq<char>
    decreases n,
{
    if n < 10 {
        seq![digit(n)]
    } else {
        decimal(n / 10).push(digit(n % 10))
    }
}

fn digit_text(n: u64) -> (text: &'static str)
    requires
        n < 10,
    ensures
        text@ == seq![digit(n as nat)],
{
    proof {
        reveal_strlit("0");
        reveal_strlit("1");
        reveal_strlit("2");
        reveal_strlit("3");
        reveal_strlit("4");
        reveal_strlit("5");
        reveal_strlit("6");
        reveal_strlit("7");
        reveal_strlit("8");
        reveal_strlit("9");
    }
    if n == 0 {
        "0"
    } else if n == 1 {
        "1"
    } else if n == 2 {
        "2"
    } else if n == 3 {
        "3"
    } else if n == 4 {
        "4"
    } else if n == 5 {
        "5"
    } else if n == 6 {
        "6"
    } else if n == 7 {
        "7"
    } else if n == 8 {
        "8"
    } else {
        "9"
    }
}

/// `n` in decimal.
pub fn decimal_text(n: u64) -> (text: String)
    ensures
        text@ == decimal(n as nat),
    decreases n,
{
    if n < 10 {
        digit_text(n).to_owned()
    } else {
        let mut text = decimal_text(n / 10);
        text.append(digit_text(n % 10));
        assert(text@ =~= decimal(n as nat));
        text
    }
}

/// A number in decimal starts with a zero only if it is zero.
pub proof fn law_no_leading_zeroes(n: nat)
    ensures
        decimal(n).len() >= 1,
        decimal(n)[0] == '0' <==> n == 0,
    decreases n,
{
    if n >= 10 {
        law_no_leading_zeroes(n / 10);
    }
}

proof fn lemma_digits_differ(a: nat, b: nat)
    requires
        a < 10,
        b < 10,
        digit(a) == digit(b),
    ensures
        a == b,
{
}

/// Different numbers have different decimals.
pub proof fn law_decimals_differ(a: nat, b: nat)
    requires
        decimal(a) == decimal(b),
    ensures
        a == b,
    decreases a,
{
    law_no_leading_zeroes(a / 10);
    law_no_leading_zeroes(b / 10);
    if a >= 10 && b >= 10 {
        assert(decimal(a).drop_last() =~= decimal(a / 10));
        assert(decimal(b).drop_last() =~= decimal(b / 10));
        assert(decimal(a).last() == digit(a % 10));
        assert(decimal(b).last() == digit(b % 10));
        lemma_digits_differ(a % 10, b % 10);
        law_decimals_differ(a / 10, b / 10);
    } else if a < 10 && b >= 10 {
        assert(decimal(b).len() >= 2);
    } else if a >= 10 && b < 10 {
        assert(decimal(a).len() >= 2);
    } else {
        assert(decimal(a)[0] == digit(a) && decimal(b)[0] == digit(b));
        lemma_digits_differ(a, b);
    }
}

/// What a digit is worth.
pub open spec fn digit_worth(c: char) -> int {
    c as int - '0' as int
}

/// What a text of decimal digits is worth, read from the left.
pub open spec fn worth(text: Seq<char>) -> int
    decreases text.len(),
{
    if text.len() == 0 {
        0
    } else {
        10 * worth(text.drop_last()) + digit_worth(text.last())
    }
}

/// A number is what its decimals are worth, and each of them is a digit.
pub proof fn law_decimals_read_back(n: nat)
    ensures
        worth(decimal(n)) == n,
        forall|k: int| 0 <= k < decimal(n).len() ==> '0' <= #[trigger] decimal(n)[k] <= '9',
    decreases n,
{
    let text = decimal(n);
    if n < 10 {
        assert(text.drop_last() =~= Seq::<char>::empty());
        assert(worth(text.drop_last()) == 0);
        assert(digit_worth(digit(n)) == n);
    } else {
        law_decimals_read_back(n / 10);
        assert(text.drop_last() =~= decimal(n / 10));
        assert(digit_worth(digit(n % 10)) == n % 10);
        let less = decimal(n / 10);
        assert forall|k: int| 0 <= k < text.len() implies '0' <= #[trigger] text[k] <= '9' by {
            if k < less.len() {
                assert(text[k] == less[k]);
            }
        }
    }
}

/// Trimming takes white space off the ends and nothing else: what is left is a part of
/// the text, and all before it and after it is white space. A text without white space
/// at its ends stays.
pub proof fn law_trimming_takes_white_space(text: Seq<char>) -> (span: (int, int))
    ensures
        0 <= span.0 <= span.1 <= text.len(),
        without_ends(text) == text.subrange(span.0, span.1),
        forall|k: int| 0 <= k < span.0 ==> white_space(#[trigger] text[k]),
        forall|k: int| span.1 <= k < text.len() ==> white_space(#[trigger] text[k]),
        text.len() > 0 && !white_space(text[0]) && !white_space(text.last()) ==> without_ends(text)
            == text,
    decreases text.len(),
{
    if text.len() == 0 {
        assert(text.subrange(0, 0) =~= text);
        (0, 0)
    } else if white_space(text[0]) {
        let rest = text.drop_first();
        let (start, end) = law_trimming_takes_white_space(rest);
        assert(rest.subrange(start, end) =~= text.subrange(start + 1, end + 1));
        assert forall|k: int| 0 <= k < start + 1 implies white_space(#[trigger] text[k]) by {
            if k > 0 {
                assert(white_space(rest[k - 1]));
            }
        }
        assert forall|k: int| end + 1 <= k < text.len() implies white_space(#[trigger] text[k]) by {
            assert(white_space(rest[k - 1]));
        }
        (start + 1, end + 1)
    } else if white_space(text.last()) {
        let rest = text.drop_last();
        let (start, end) = law_trimming_takes_white_space(rest);
        assert(rest.subrange(start, end) =~= text.subrange(start, end));
        assert forall|k: int| 0 <= k < start implies white_space(#[trigger] text[k]) by {
            assert(white_space(rest[k]));
        }
        assert forall|k: int| end <= k < text.len() implies white_space(#[trigger] text[k]) by {
            if k < rest.len() {
                assert(white_space(rest[k]));
            }
        }
        (start, end)
    } else {
        assert(text.subrange(0, text.len() as int) =~= text);
        (0, text.len() as int)
    }
}

/// Blanks, tabs and line breaks are white space; digits, letters, signs and points
/// are not, so no part of a number is ever trimmed off.
pub proof fn law_numbers_are_not_white_space(c: char)
    ensures
        c == ' ' || c == '\t' || c == '\n' || c == '\r' ==> white_space(c),
        '!' <= c <= '~' ==> !white_space(c),
{
}

} // verus!
