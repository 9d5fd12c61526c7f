//! Views of optional text and bytes, and the trimming of text.

use vstd::prelude::*;
use vstd::string::*;
use vstd::utf8::*;

verus! {

/// The bytes that an attempt produced, if it produced any.
pub open spec fn bytes_of(attempt: Option<Vec<u8>>) -> Option<Seq<u8>> {
    match attempt {
        Some(bytes) => Some(bytes@),
        None => None,
    }
}

/// The text that an attempt produced, if it produced any.
pub open spec fn text_of(attempt: Option<String>) -> Option<Seq<char>> {
    match attempt {
        Some(text) => Some(text@),
        None => None,
    }
}

/// Whether `std` counts `c` as white space, which it does by Unicode's
/// `White_Space`.
pub uninterp spec fn white_space(c: char) -> bool;

/// `char::is_whitespace` tells whether a character is white space by
/// Unicode's `White_Space`.
#[verifier::external_body]
fn is_white_space(c: char) -> (white: bool)
    ensures
        white == white_space(c),
{
    c.is_whitespace()
}

/// `text` without the white space it begins with.
pub open spec fn trim_start(text: Seq<char>) -> Seq<char>
    decreases text.len(),
{
    if text.len() > 0 && white_space(text.first()) {
        trim_start(text.drop_first())
    } else {
        text
    }
}

/// `text` without the white space it ends with.
pub open spec fn trim_end(text: Seq<char>) -> Seq<char>
    decreases text.len(),
{
    if text.len() > 0 && white_space(text.last()) {
        trim_end(text.drop_last())
    } else {
        text
    }
}

/// `text` without the white space it begins and ends with.
pub open spec fn trimmed(text: Seq<char>) -> Seq<char> {
    trim_end(trim_start(text))
}

/// Text whose first `start` characters are white space, and whose next one
/// is not, begins its trimmed rest at `start`.
proof fn lemma_trim_start(text: Seq<char>, start: int)
    requires
        0 <= start <= text.len(),
        forall|i: int| 0 <= i < start ==> white_space(#[trigger] text[i]),
        start < text.len() ==> !white_space(text[start]),
    ensures
        trim_start(text) == text.subrange(start, text.len() as int),
    decreases start,
{
    if start == 0 {
        assert(text.subrange(0, text.len() as int) =~= text);
    } else {
        let rest = text.drop_first();
        assert forall|i: int| 0 <= i < start - 1 implies white_space(#[trigger] rest[i]) by {
            assert(rest[i] == text[i + 1]);
        }
        lemma_trim_start(rest, start - 1);
        assert(rest.subrange(start - 1, rest.len() as int) =~= text.subrange(
            start,
            text.len() as int,
        ));
    }
}

/// Text whose characters from `end` on are white space, and whose one
/// before is not, ends its trimmed rest at `end`.
proof fn lemma_trim_end(text: Seq<char>, end: int)
    requires
        0 <= end <= text.len(),
        forall|i: int| end <= i < text.len() ==> white_space(#[trigger] text[i]),
        0 < end ==> !white_space(text[end - 1]),
    ensures
        trim_end(text) == text.subrange(0, end),
    decreases text.len() - end,
{
    if end == text.len() {
        assert(text.subrange(0, end) =~= text);
    } else {
        let rest = text.drop_last();
        lemma_trim_end(rest, end);
        assert(rest.subrange(0, end) =~= text.subrange(0, end));
    }
}

/// Text has no more characters than its UTF-8 encoding has bytes.
proof fn lemma_chars_fit_in_bytes(text: Seq<char>)
    ensures
        text.len() <= encode_utf8(text).len(),
    decreases text.len(),
{
    if text.len() > 0 {
        lemma_chars_fit_in_bytes(text.drop_first());
    }
}

/// The text without the white space it begins and ends with.
pub fn trim(text: &str) -> (kept: String)
    ensures
        kept@ == trimmed(text@),
{
    let size = text.as_bytes().len();
    proof {
        lemma_chars_fit_in_bytes(text@);
    }
    let mut start: usize = 0;
    let mut end: usize = 0;
    let mut seen: usize = 0;
    let mut leading: bool = true;
    for c in it: text.chars()
        invariant
            it.seq() == text@,
            text@.len() <= size,
            seen == it.index(),
            leading ==> start == seen && end == 0,
            leading ==> forall|i: int| 0 <= i < seen ==> white_space(#[trigger] text@[i]),
            !leading ==> {
                &&& start < end <= seen
                &&& forall|i: int| 0 <= i < start ==> white_space(#[trigger] text@[i])
                &&& !white_space(text@[start as int])
                &&& !white_space(text@[end - 1])
                &&& forall|i: int| end <= i < seen ==> white_space(#[trigger] text@[i])
            },
    {
        let white = is_white_space(c);
        if leading {
            if white {
                start = start + 1;
            } else {
                leading = false;
                end = seen + 1;
            }
        } else if !white {
            end = seen + 1;
        }
        seen = seen + 1;
    }
    if leading {
        proof {
            lemma_trim_start(text@, text@.len() as int);
            assert(text@.subrange(text@.len() as int, text@.len() as int) =~= Seq::<char>::empty());
        }
        String::new()
    } else {
        proof {
            lemma_trim_start(text@, start as int);
            let rest = text@.subrange(start as int, text@.len() as int);
            lemma_trim_end(rest, end - start);
            assert(rest.subrange(0, end - start) =~= text@.subrange(start as int, end as int));
        }
        text.substring_char(start, end).to_owned()
    }
}

/// The decimal digit of a number below ten.
pub open spec fn digit(d: nat) -> char
    recommends
        d < 10,
{
    if d == 0 {
        '0'
    } else if d == 1 {
        '1'
    } else if d == 2 {
        '2'
    } else if d == 3 {
        '3'
    } else if d == 4 {
        '4'
    } else if d == 5 {
        '5'
    } else if d == 6 {
        '6'
    } else if d == 7 {
        '7'
    } else if d == 8 {
        '8'
    } else {
        '9'
    }
}

/// A number in decimal digits, without leading zeros.
pub open spec fn decimal_text(n: nat) -> Seq<char>
    decreases n,
{
    if n < 10 {
        seq![digit(n)]
    } else {
        decimal_text(n / 10).push(digit(n % 10))
    }
}

/// The decimal digit of a number below ten, as text.
fn digit_text(d: usize) -> (text: &'static str)
    requires
        d < 10,
    ensures
        text@ == seq![digit(d as nat)],
{
    proof {
        reveal_strlit("0");
        reveal_strlit("1");
        reveal_strlit("2");
        reveal_strlit("3");
        reveal_strlit("4");
        reveal_strlit("5");
        reveal_strlit("6");
        reveal_strlit("7");
        reveal_strlit("8");
        reveal_strlit("9");
    }
    let text = if d == 0 {
        "0"
    } else if d == 1 {
        "1"
    } else if d == 2 {
        "2"
    } else if d == 3 {
        "3"
    } else if d == 4 {
        "4"
    } else if d == 5 {
        "5"
    } else if d == 6 {
        "6"
    } else if d == 7 {
        "7"
    } else if d == 8 {
        "8"
    } else {
        "9"
    };
    assert(text@ =~= seq![digit(d as nat)]);
    text
}

/// A number in decimal digits, without leading zeros.
pub fn decimal(n: usize) -> (text: String)
    ensures
        text@ == decimal_text(n as nat),
{
    let mut text = String::from_str(digit_text(n % 10));
    let mut rest: usize = n / 10;
    assert(decimal_text(n as nat) =~= (if rest > 0 {
        decimal_text(rest as nat) + text@
    } else {
        text@
    }));
    while rest > 0
        invariant
            decimal_text(n as nat) == (if rest > 0 {
                decimal_text(rest as nat) + text@
            } else {
                text@
            }),
        decreases rest,
    {
        let ghost before = text@;
        let ghost upper = rest as nat;
        text = String::from_str(digit_text(rest % 10)).concat(text.as_str());
        rest = rest / 10;
        assert(decimal_text(upper) + before =~= (if rest > 0 {
            decimal_text(rest as nat) + text@
        } else {
            text@
        }));
    }
    text
}

} // verus!
