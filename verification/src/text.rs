//! Reading and writing plain text: blank strings, decimal numbers, substring search.

use vstd::prelude::*;
use vstd::string::*;

verus! {

/// The characters with the Unicode property `White_Space`.
pub open spec fn is_white_space(c: char) -> bool {
    ||| '\u{9}' <= c <= '\u{d}'
    ||| c == '\u{20}'
    ||| c == '\u{85}'
    ||| c == '\u{a0}'
    ||| c == '\u{1680}'
    ||| '\u{2000}' <= c <= '\u{200a}'
    ||| c == '\u{2028}'
    ||| c == '\u{2029}'
    ||| c == '\u{202f}'
    ||| c == '\u{205f}'
    ||| c == '\u{3000}'
}

/// Nothing but white space.
pub open spec fn is_blank(text: Seq<char>) -> bool {
    forall|i: int| 0 <= i < text.len() ==> is_white_space(#[trigger] text[i])
}

/// The character of one decimal digit.
pub open spec fn digit_char(digit: nat) -> char {
    if digit == 0 {
        '0'
    } else if digit == 1 {
        '1'
    } else if digit == 2 {
        '2'
    } else if digit == 3 {
        '3'
    } else if digit == 4 {
        '4'
    } else if digit == 5 {
        '5'
    } else if digit == 6 {
        '6'
    } else if digit == 7 {
        '7'
    } else if digit == 8 {
        '8'
    } else {
        '9'
    }
}

/// `number` written in decimal, without leading zeros.
pub open spec fn decimal_text(number: nat) -> Seq<char>
    decreases number,
{
    if number < 10 {
        seq![digit_char(number)]
    } else {
        decimal_text(number / 10).push(digit_char(number % 10))
    }
}

/// `pattern` stands in `text` at position `at`.
pub open spec fn occurs_at(text: Seq<char>, pattern: Seq<char>, at: int) -> bool {
    &&& 0 <= at
    &&& at + pattern.len() <= text.len()
    &&& text.subrange(at, at + pattern.len()) == pattern
}

/// `at` is the first position at which `pattern` stands in `text`.
pub open spec fn first_occurs_at(text: Seq<char>, pattern: Seq<char>, at: int) -> bool {
    &&& occurs_at(text, pattern, at)
    &&& forall|earlier: int| 0 <= earlier < at ==> !occurs_at(text, pattern, earlier)
}

/// `pattern` stands somewhere in `text`.
pub open spec fn contains_text(text: Seq<char>, pattern: Seq<char>) -> bool {
    exists|at: int| occurs_at(text, pattern, at)
}

/// `text` from the first occurrence of `pattern` on.
pub open spec fn from_first(text: Seq<char>, pattern: Seq<char>) -> Seq<char>
    recommends
        contains_text(text, pattern),
{
    text.skip(choose|at: int| first_occurs_at(text, pattern, at))
}

/// A pattern has at most one first position, and `from_first` starts there.
pub proof fn lemma_first_is_unique(text: Seq<char>, pattern: Seq<char>, at: int)
    requires
        first_occurs_at(text, pattern, at),
    ensures
        contains_text(text, pattern),
        from_first(text, pattern) == text.skip(at),
        forall|other: int| first_occurs_at(text, pattern, other) ==> other == at,
{
}

/// A pattern that occurs has a first position.
pub proof fn lemma_first_exists(text: Seq<char>, pattern: Seq<char>, at: int) -> (first: int)
    requires
        occurs_at(text, pattern, at),
    ensures
        first_occurs_at(text, pattern, first),
        first <= at,
    decreases at,
{
    if exists|earlier: int| 0 <= earlier < at && occurs_at(text, pattern, earlier) {
        let earlier = choose|earlier: int|
            0 <= earlier < at && occurs_at(text, pattern, earlier);
        lemma_first_exists(text, pattern, earlier)
    } else {
        at
    }
}

fn white_space(c: char) -> (answer: bool)
    ensures
        answer == is_white_space(c),
{
    ('\u{9}' <= c && c <= '\u{d}') || c == '\u{20}' || c == '\u{85}' || c == '\u{a0}' || c
        == '\u{1680}' || ('\u{2000}' <= c && c <= '\u{200a}') || c == '\u{2028}' || c == '\u{2029}'
        || c == '\u{202f}' || c == '\u{205f}' || c == '\u{3000}'
}

/// The characters of `text`, in order.
pub(crate) fn characters(text: &str) -> (list: Vec<char>)
    ensures
        list@ == text@,
{
    let mut list: Vec<char> = Vec::new();
    for c in iter: text.chars()
        invariant
            iter.seq() == text@,
            list@ == text@.take(iter.index() as int),
    {
        assert(text@.take(iter.index() as int + 1) =~= text@.take(iter.index() as int).push(
            text@[iter.index() as int],
        ));
        list.push(c);
    }
    assert(text@.take(text@.len() as int) =~= text@);
    list
}

/// Whether `text` holds nothing but white space.
pub fn blank(text: &str) -> (answer: bool)
    ensures
        answer == is_blank(text@),
{
    let list = characters(text);
    let mut at: usize = 0;
    while at < list.len()
        invariant
            at <= list.len(),
            list@ == text@,
            forall|i: int| 0 <= i < at ==> is_white_space(#[trigger] text@[i]),
        decreases list.len() - at,
    {
        if !white_space(list[at]) {
            return false;
        }
        at += 1;
    }
    true
}

fn digit(number: usize) -> (text: &'static str)
    requires
        number < 10,
    ensures
        text@ == seq![digit_char(number as nat)],
{
    proof {
        reveal_strlit("0");
        reveal_strlit("1");
        reveal_strlit("2");
        reveal_strlit("3");
        reveal_strlit("4");
        reveal_strlit("5");
        reveal_strlit("6");
        reveal_strlit("7");
        reveal_strlit("8");
        reveal_strlit("9");
    }
    match number {
        0 => "0",
        1 => "1",
        2 => "2",
        3 => "3",
        4 => "4",
        5 => "5",
        6 => "6",
        7 => "7",
        8 => "8",
        _ => "9",
    }
}

/// `number` in decimal.
pub(crate) fn decimal(number: usize) -> (text: String)
    ensures
        text@ == decimal_text(number as nat),
    decreases number,
{
    if number < 10 {
        digit(number).to_owned()
    } else {
        let mut text = decimal(number / 10);
        text.append(digit(number % 10));
        assert(text@ =~= decimal_text((number / 10) as nat).push(digit_char((number % 10) as nat)));
        text
    }
}

/// Whether `pattern` stands in `text` at position `at`.
fn matches_at(text: &Vec<char>, pattern: &Vec<char>, at: usize) -> (answer: bool)
    requires
        at + pattern.len() <= text.len(),
    ensures
        answer == occurs_at(text@, pattern@, at as int),
{
    let mut i: usize = 0;
    while i < pattern.len()
        invariant
            i <= pattern.len(),
            at + pattern.len() <= text.len(),
            forall|j: int| 0 <= j < i ==> text@[at + j] == #[trigger] pattern@[j],
        decreases pattern.len() - i,
    {
        if text[at + i] != pattern[i] {
            proof {
                if occurs_at(text@, pattern@, at as int) {
                    let part = text@.subrange(at as int, at + pattern@.len());
                    assert(part[i as int] == text@[at + i]);
                }
            }
            return false;
        }
        i += 1;
    }
    assert(text@.subrange(at as int, at + pattern@.len()) =~= pattern@);
    true
}

/// Whether `text` starts with `pattern`.
pub(crate) fn starts_with(text: &Vec<char>, pattern: &Vec<char>) -> (answer: bool)
    ensures
        answer == pattern@.is_prefix_of(text@),
{
    if pattern.len() > text.len() {
        return false;
    }
    let answer = matches_at(text, pattern, 0);
    assert(answer == pattern@.is_prefix_of(text@));
    answer
}

/// The first position at which `pattern` stands in `text`.
pub(crate) fn find(text: &Vec<char>, pattern: &Vec<char>) -> (found: Option<usize>)
    ensures
        match found {
            Some(at) => first_occurs_at(text@, pattern@, at as int),
            None => !contains_text(text@, pattern@),
        },
{
    let mut at: usize = 0;
    while at <= text.len() && pattern.len() <= text.len() - at
        invariant
            at <= text.len() + 1,
            forall|earlier: int| 0 <= earlier < at ==> !occurs_at(text@, pattern@, earlier),
        decreases text.len() + 1 - at,
    {
        if matches_at(text, pattern, at) {
            return Some(at);
        }
        if at == text.len() {
            return None;
        }
        at += 1;
    }
    None
}

/// Two texts, one after the other.
pub(crate) fn join(first: &str, second: &str) -> (text: String)
    ensures
        text@ == first@ + second@,
{
    let mut text = first.to_owned();
    text.append(second);
    text
}

/// Three texts, one after the other.
pub(crate) fn join_three(first: &str, second: &str, third: &str) -> (text: String)
    ensures
        text@ == first@ + second@ + third@,
{
    let mut text = join(first, second);
    text.append(third);
    text
}

/// Blankness goes by the character: no text is blank that holds a character which is no white
/// space, however it is put together.
pub proof fn lemma_blank_goes_by_character(first: Seq<char>, second: Seq<char>, c: char)
    ensures
        is_blank(seq![]),
        is_blank(seq![c]) <==> is_white_space(c),
        is_blank(first + second) <==> is_blank(first) && is_blank(second),
{
    let whole = first + second;
    assert(seq![c][0] == c);
    assert forall|i: int| 0 <= i < first.len() implies whole[i] == #[trigger] first[i] by {}
    assert forall|i: int| 0 <= i < second.len() implies whole[first.len() + i]
        == #[trigger] second[i] by {}
    if is_blank(whole) {
        assert forall|i: int| 0 <= i < first.len() implies is_white_space(#[trigger] first[i]) by {
            assert(is_white_space(whole[i]));
        }
        assert forall|i: int| 0 <= i < second.len() implies is_white_space(
            #[trigger] second[i],
        ) by {
            assert(is_white_space(whole[first.len() + i]));
        }
    }
    if is_blank(first) && is_blank(second) {
        assert forall|i: int| 0 <= i < whole.len() implies is_white_space(#[trigger] whole[i]) by {
            if i < first.len() {
                assert(whole[i] == first[i]);
            } else {
                assert(whole[i] == second[i - first.len()]);
            }
        }
    }
}

/// The number that a text of decimal digits stands for.
pub open spec fn decimal_value(digits: Seq<char>) -> int
    decreases digits.len(),
{
    if digits.len() == 0 {
        0
    } else {
        decimal_value(digits.drop_last()) * 10 + (digits.last() as int - '0' as int)
    }
}

/// A number in decimal reads back as the number, holds nothing but digits, and has no leading
/// zero.
pub proof fn lemma_decimal_reads_back(number: nat)
    ensures
        decimal_value(decimal_text(number)) == number,
        decimal_text(number).len() > 0,
        forall|i: int|
            0 <= i < decimal_text(number).len() ==> '0' <= #[trigger] decimal_text(number)[i]
                <= '9',
        number > 0 ==> decimal_text(number)[0] != '0',
    decreases number,
{
    let text = decimal_text(number);
    if number < 10 {
        assert(text.drop_last() =~= seq![]);
        assert(decimal_value(text.drop_last()) == 0);
        assert(text.last() == digit_char(number));
    } else {
        let front = decimal_text(number / 10);
        lemma_decimal_reads_back(number / 10);
        assert(text.drop_last() =~= front);
        assert(text.last() == digit_char(number % 10));
        assert forall|i: int| 0 <= i < text.len() implies '0' <= #[trigger] text[i] <= '9' by {
            if i < front.len() {
                assert(text[i] == front[i]);
            }
        }
        assert(text[0] == front[0]);
    }
}

/// A pattern occurs at a position exactly if the text reads as what stands before it, the
/// pattern, and what stands behind it.
pub proof fn lemma_occurrence_splits_the_text(text: Seq<char>, pattern: Seq<char>, at: int)
    ensures
        occurs_at(text, pattern, at) <==> {
            &&& 0 <= at <= text.len() - pattern.len()
            &&& text == text.take(at) + pattern + text.skip(at + pattern.len())
        },
{
    if 0 <= at <= text.len() - pattern.len() {
        let split = text.take(at) + pattern + text.skip(at + pattern.len());
        if occurs_at(text, pattern, at) {
            assert forall|i: int| 0 <= i < text.len() implies text[i] == #[trigger] split[i] by {
                if at <= i < at + pattern.len() {
                    assert(text.subrange(at, at + pattern.len())[i - at] == pattern[i - at]);
                }
            }
            assert(text =~= split);
        }
        if text == split {
            assert(text.subrange(at, at + pattern.len()) =~= pattern);
        }
    }
}

/// A pattern that stands between two texts is found there, and what follows the first place where
/// it stands is the pattern and the text behind it.
pub proof fn lemma_from_first_starts_at_the_pattern(
    before: Seq<char>,
    pattern: Seq<char>,
    behind: Seq<char>,
)
    ensures
        contains_text(before + pattern + behind, pattern),
        (forall|at: int|
            0 <= at < before.len() ==> !occurs_at(before + pattern + behind, pattern, at))
            ==> from_first(before + pattern + behind, pattern) == pattern + behind,
{
    let text = before + pattern + behind;
    let at = before.len() as int;
    assert(text.subrange(at, at + pattern.len()) =~= pattern);
    assert(occurs_at(text, pattern, at));
    if forall|earlier: int| 0 <= earlier < before.len() ==> !occurs_at(text, pattern, earlier) {
        assert(first_occurs_at(text, pattern, at));
        lemma_first_is_unique(text, pattern, at);
        assert(text.skip(at) =~= pattern + behind);
    }
}

/// The code points of the characters that are white space, in ascending order.
pub open spec fn white_space_code_points() -> Seq<int> {
    seq![
        0x9, 0xa, 0xb, 0xc, 0xd, 0x20, 0x85, 0xa0, 0x1680, 0x2000, 0x2001, 0x2002, 0x2003, 0x2004,
        0x2005, 0x2006, 0x2007, 0x2008, 0x2009, 0x200a, 0x2028, 0x2029, 0x202f, 0x205f, 0x3000,
    ]
}

/// A character is white space exactly if its code point is one of those with that property.
pub proof fn lemma_white_space_goes_by_code_point(c: char)
    ensures
        is_white_space(c) <==> white_space_code_points().contains(c as int),
{
    let points = white_space_code_points();
    assert(points[0] == 0x9 && points[1] == 0xa && points[2] == 0xb && points[3] == 0xc);
    assert(points[4] == 0xd && points[5] == 0x20 && points[6] == 0x85 && points[7] == 0xa0);
    assert(points[8] == 0x1680 && points[9] == 0x2000 && points[10] == 0x2001);
    assert(points[11] == 0x2002 && points[12] == 0x2003 && points[13] == 0x2004);
    assert(points[14] == 0x2005 && points[15] == 0x2006 && points[16] == 0x2007);
    assert(points[17] == 0x2008 && points[18] == 0x2009 && points[19] == 0x200a);
    assert(points[20] == 0x2028 && points[21] == 0x2029 && points[22] == 0x202f);
    assert(points[23] == 0x205f && points[24] == 0x3000);
}

/// Whatever `blank` answers: it says no exactly if the text holds a character whose code point is
/// none of those of white space.
pub proof fn lemma_blank_texts_hold_white_space(text: &str, answer: bool)
    requires
        call_ensures(blank, (text,), answer),
    ensures
        answer <==> forall|i: int|
            0 <= i < text@.len() ==> white_space_code_points().contains(
                #[trigger] text@[i] as int,
            ),
{
    assert forall|i: int| 0 <= i < text@.len() implies (is_white_space(#[trigger] text@[i])
        <==> white_space_code_points().contains(text@[i] as int)) by {
        lemma_white_space_goes_by_code_point(text@[i]);
    }
}

/// A text holds a pattern exactly if it reads as something, the pattern, and something.
pub proof fn lemma_contained_patterns_split_the_text(text: Seq<char>, pattern: Seq<char>)
    ensures
        contains_text(text, pattern) <==> exists|before: Seq<char>, behind: Seq<char>|
            text == #[trigger] (before + pattern + behind),
{
    if contains_text(text, pattern) {
        let at = choose|at: int| occurs_at(text, pattern, at);
        lemma_occurrence_splits_the_text(text, pattern, at);
        let before = text.take(at);
        let behind = text.skip(at + pattern.len());
        assert(text == before + pattern + behind);
    }
    if exists|before: Seq<char>, behind: Seq<char>|
        text == #[trigger] (before + pattern + behind) {
        let (before, behind) = choose|before: Seq<char>, behind: Seq<char>|
            text == #[trigger] (before + pattern + behind);
        lemma_from_first_starts_at_the_pattern(before, pattern, behind);
    }
}

} // verus!
