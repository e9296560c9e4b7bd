//! Plain text: numbers in decimal, concatenation, trimming.

use vstd::prelude::*;

verus! {

/// The digit character of a number below ten.
pub open spec fn digit_char(d: nat) -> char
    recommends
        d < 10,
{
    ('0' as nat + d) as char
}

/// `n` written in decimal, without leading zeros.
pub open spec fn decimal(n: nat) -> Seq<char>
    decreases n,
{
    if n < 10 {
        seq![digit_char(n)]
    } else {
        decimal(n / 10).push(digit_char(n % 10))
    }
}

/// The number that a text of decimal digits stands for.
pub open spec fn number_of(digits: Seq<char>) -> nat
    decreases digits.len(),
{
    if digits.len() == 0 {
        0
    } else {
        number_of(digits.drop_last()) * 10 + (digits.last() as nat - '0' as nat) as nat
    }
}

/// What is written in decimal reads back as the number, whole: digits only,
/// at least one of them, and no zero in front of another digit.
pub proof fn law_decimal_reads_back(n: nat)
    ensures
        number_of(decimal(n)) == n,
        decimal(n).len() > 0,
        forall|i: int| 0 <= i < decimal(n).len() ==> '0' <= #[trigger] decimal(n)[i] <= '9',
        decimal(n)[0] == '0' ==> decimal(n).len() == 1,
        n > 0 ==> decimal(n)[0] != '0',
    decreases n,
{
    if n < 10 {
        reveal_with_fuel(number_of, 2);
        assert(decimal(n).drop_last() =~= Seq::empty());
    } else {
        law_decimal_reads_back(n / 10);
        assert(decimal(n).drop_last() =~= decimal(n / 10));
    }
}

/// Different numbers are written differently.
pub proof fn law_decimal_tells_numbers_apart(n: nat, m: nat)
    requires
        decimal(n) == decimal(m),
    ensures
        n == m,
{
    law_decimal_reads_back(n);
    law_decimal_reads_back(m);
}

/// The text of one decimal digit.
fn digit_text(d: u64) -> (r: &'static str)
    requires
        d < 10,
    ensures
        r@ == seq![digit_char(d as nat)],
{
    proof {
        reveal_strlit("0");
        reveal_strlit("1");
        reveal_strlit("2");
        reveal_strlit("3");
        reveal_strlit("4");
        reveal_strlit("5");
        reveal_strlit("6");
        reveal_strlit("7");
        reveal_strlit("8");
        reveal_strlit("9");
    }
    match d {
        0 => "0",
        1 => "1",
        2 => "2",
        3 => "3",
        4 => "4",
        5 => "5",
        6 => "6",
        7 => "7",
        8 => "8",
        _ => "9",
    }
}

/// `n` in decimal.
pub fn decimal_text(n: u64) -> (r: String)
    ensures
        r@ == decimal(n as nat),
    decreases n,
{
    if n < 10 {
        digit_text(n).to_owned()
    } else {
        let mut head = decimal_text(n / 10);
        head.append(digit_text(n % 10));
        assert(head@ == decimal((n / 10) as nat) + seq![digit_char((n % 10) as nat)]);
        head
    }
}

/// The two texts one after the other.
pub fn joined(head: &str, tail: &str) -> (r: String)
    ensures
        r@ == head@ + tail@,
{
    let mut out = head.to_owned();
    out.append(tail);
    out
}

/// The decimal text of a number reads back as the number.
pub proof fn law_decimal_text_reads_back(n: u64, text: String)
    requires
        call_ensures(decimal_text, (n,), text),
    ensures
        number_of(text@) == n,
        text@[0] == '0' ==> text@.len() == 1,
{
    law_decimal_reads_back(n as nat);
}

/// Of two texts joined, the first is found at the start and the second after
/// it, each whole.
pub proof fn law_joined_holds_both(head: &str, tail: &str, text: String)
    requires
        call_ensures(joined, (head, tail), text),
    ensures
        text@.take(head@.len() as int) == head@,
        text@.skip(head@.len() as int) == tail@,
{
    assert(text@.take(head@.len() as int) =~= head@);
    assert(text@.skip(head@.len() as int) =~= tail@);
}

/// The characters with the Unicode property `White_Space`.
pub open spec fn is_white_space(c: char) -> bool {
    let n = c as u32;
    ||| 0x9 <= n <= 0xd
    ||| n == 0x20
    ||| n == 0x85
    ||| n == 0xa0
    ||| n == 0x1680
    ||| 0x2000 <= n <= 0x200a
    ||| 0x2028 <= n <= 0x2029
    ||| n == 0x202f
    ||| n == 0x205f
    ||| n == 0x3000
}

/// `s` without the white space that leads it.
pub open spec fn trimmed_start(s: Seq<char>) -> Seq<char>
    decreases s.len(),
{
    if s.len() > 0 && is_white_space(s.first()) {
        trimmed_start(s.drop_first())
    } else {
        s
    }
}

/// `s` without the white space that ends it.
pub open spec fn trimmed_end(s: Seq<char>) -> Seq<char>
    decreases s.len(),
{
    if s.len() > 0 && is_white_space(s.last()) {
        trimmed_end(s.drop_last())
    } else {
        s
    }
}

/// `s` without the white space at either end.
pub open spec fn trimmed(s: Seq<char>) -> Seq<char> {
    trimmed_end(trimmed_start(s))
}

/// Every character of `s` is white space.
pub open spec fn all_white_space(s: Seq<char>) -> bool {
    forall|i: int| 0 <= i < s.len() ==> is_white_space(#[trigger] s[i])
}

/// Nothing is left of white space.
proof fn lemma_trimmed_start_of_white_space(s: Seq<char>)
    requires
        all_white_space(s),
    ensures
        trimmed_start(s) == Seq::<char>::empty(),
    decreases s.len(),
{
    if s.len() > 0 {
        lemma_trimmed_start_of_white_space(s.drop_first());
    } else {
        assert(s =~= Seq::empty());
    }
}

/// White space put behind a text is trimmed off its end.
proof fn lemma_trimmed_end_of_appended(text: Seq<char>, end: Seq<char>)
    requires
        all_white_space(end),
    ensures
        trimmed_end(text + end) == trimmed_end(text),
    decreases end.len(),
{
    if end.len() > 0 {
        assert((text + end).drop_last() =~= text + end.drop_last());
        lemma_trimmed_end_of_appended(text, end.drop_last());
    } else {
        assert(text + end =~= text);
    }
}

/// White space put behind a text changes nothing of what trimming leaves.
pub proof fn law_trailing_white_space_is_no_part(text: Seq<char>, end: Seq<char>)
    requires
        all_white_space(end),
    ensures
        trimmed(text + end) == trimmed(text),
    decreases text.len(),
{
    if text.len() == 0 {
        assert(text + end =~= end);
        lemma_trimmed_start_of_white_space(end);
        assert(text =~= Seq::empty());
    } else if is_white_space(text.first()) {
        assert((text + end).drop_first() =~= text.drop_first() + end);
        law_trailing_white_space_is_no_part(text.drop_first(), end);
    } else {
        lemma_trimmed_end_of_appended(text, end);
    }
}

/// A text that neither begins nor ends with white space.
pub open spec fn is_bare(text: Seq<char>) -> bool {
    text.len() > 0 ==> !is_white_space(text.first()) && !is_white_space(text.last())
}

/// White space put before a text changes nothing of what trimming leaves.
pub proof fn law_leading_white_space_is_no_part(start: Seq<char>, text: Seq<char>)
    requires
        all_white_space(start),
    ensures
        trimmed(start + text) == trimmed(text),
    decreases start.len(),
{
    if start.len() == 0 {
        assert(start + text =~= text);
    } else {
        assert((start + text).drop_first() =~= start.drop_first() + text);
        law_leading_white_space_is_no_part(start.drop_first(), text);
    }
}

/// Trimming gives back whatever was put between white space, if it neither
/// begins nor ends with any itself.
pub proof fn law_trimming_finds_the_bare_text(
    start: Seq<char>,
    text: Seq<char>,
    end: Seq<char>,
)
    requires
        all_white_space(start),
        is_bare(text),
        all_white_space(end),
    ensures
        trimmed(start + text + end) == text,
{
    law_trailing_white_space_is_no_part(start + text, end);
    law_leading_white_space_is_no_part(start, text);
}

/// Every text is what trimming leaves of it, between white space.
pub proof fn law_trimming_takes_white_space_only(s: Seq<char>) -> (cut: (Seq<char>, Seq<char>))
    ensures
        s == cut.0 + trimmed(s) + cut.1,
        all_white_space(cut.0),
        all_white_space(cut.1),
        is_bare(trimmed(s)),
    decreases s.len(),
{
    if s.len() == 0 {
        assert(s =~= Seq::<char>::empty() + trimmed(s) + Seq::<char>::empty());
        (Seq::empty(), Seq::empty())
    } else if is_white_space(s.first()) {
        let inner = law_trimming_takes_white_space_only(s.drop_first());
        assert(trimmed(s) == trimmed(s.drop_first()));
        assert(s =~= seq![s.first()] + s.drop_first());
        assert(s =~= (seq![s.first()] + inner.0) + trimmed(s) + inner.1);
        (seq![s.first()] + inner.0, inner.1)
    } else if is_white_space(s.last()) {
        let inner = law_trimming_takes_white_space_only(s.drop_last());
        assert(s =~= s.drop_last() + seq![s.last()]);
        law_trailing_white_space_is_no_part(s.drop_last(), seq![s.last()]);
        assert(s =~= inner.0 + trimmed(s) + (inner.1 + seq![s.last()]));
        (inner.0, inner.1 + seq![s.last()])
    } else {
        assert(s =~= Seq::<char>::empty() + trimmed(s) + Seq::<char>::empty());
        (Seq::empty(), Seq::empty())
    }
}

/// The ends of lines, blanks and tabs are white space, and no printing ASCII
/// character is.
pub proof fn law_white_space_in_ascii(c: char)
    requires
        c as u32 <= 0x7f,
    ensures
        is_white_space(c) <==> c == ' ' || c == '\t' || c == '\n' || c == '\x0b' || c == '\x0c'
            || c == '\r',
{
}

/// Outside ASCII the white space is the next-line character, the blanks of
/// fixed width and the two separators.
pub proof fn law_white_space_beyond_ascii(c: char)
    requires
        c as u32 > 0x7f,
    ensures
        is_white_space(c) <==> c == '\u{85}' || c == '\u{a0}' || c == '\u{1680}' || ('\u{2000}' <= c
            && c <= '\u{200a}') || c == '\u{2028}' || c == '\u{2029}' || c == '\u{202f}' || c
            == '\u{205f}' || c == '\u{3000}',
{
}

/// The end of a line, in either of its two forms.
pub open spec fn is_line_ending(end: Seq<char>) -> bool {
    end == "\n"@ || end == "\r\n"@
}

/// A line ending is no part of the text that trimming a line leaves.
pub proof fn law_line_ending_is_no_part(text: Seq<char>, end: Seq<char>)
    requires
        is_bare(text),
        is_line_ending(end),
    ensures
        trimmed(text + end) == text,
{
    reveal_strlit("\n");
    reveal_strlit("\r\n");
    law_trailing_white_space_is_no_part(text, end);
}

/// `str::trim`: the text with leading and trailing white space removed, white
/// space being what the Unicode property `White_Space` covers.
pub assume_specification[ str::trim ](s: &str) -> (r: &str)
    ensures
        r@ == trimmed(s@),
;

} // verus!
