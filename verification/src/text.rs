//! Text helpers: blank tests, trimming, case folding, decimal numbers and UTF-16.
use vstd::prelude::*;

verus! {

/// Whether `c` has the White_Space property of Unicode.
pub open spec fn is_white_space(c: char) -> bool {
    let code = c as u32;
    ||| 0x9 <= code <= 0xd
    ||| code == 0x20
    ||| code == 0x85
    ||| code == 0xa0
    ||| code == 0x1680
    ||| 0x2000 <= code <= 0x200a
    ||| code == 0x2028
    ||| code == 0x2029
    ||| code == 0x202f
    ||| code == 0x205f
    ||| code == 0x3000
}

/// The text that [`str::to_lowercase`] gives for `text`.
pub uninterp spec fn lowercased(text: Seq<char>) -> Seq<char>;

/// Every character of `text` is white space.
pub open spec fn is_blank(text: Seq<char>) -> bool {
    forall|i: int| 0 <= i < text.len() ==> is_white_space(#[trigger] text[i])
}

/// `text` without its leading and trailing white space.
pub open spec fn trimmed(text: Seq<char>) -> Seq<char>
    decreases text.len(),
{
    if text.len() > 0 && is_white_space(text.first()) {
        trimmed(text.drop_first())
    } else if text.len() > 0 && is_white_space(text.last()) {
        trimmed(text.drop_last())
    } else {
        text
    }
}

/// The decimal digits of `n`, most significant first.
pub open spec fn decimal(n: nat) -> Seq<char>
    decreases n,
{
    if n < 10 {
        seq![digit(n)]
    } else {
        decimal(n / 10).push(digit(n % 10))
    }
}

/// The character of a digit below ten.
pub open spec fn digit(d: nat) -> char {
    (d + 48) as char
}

/// The UTF-16 code units of one character.
pub open spec fn utf16_units(c: char) -> Seq<u16> {
    if (c as int) < 0x1_0000 {
        seq![(c as int) as u16]
    } else {
        seq![
            (0xd800 + (c as int - 0x1_0000) / 0x400) as u16,
            (0xdc00 + (c as int - 0x1_0000) % 0x400) as u16,
        ]
    }
}

/// The UTF-16 code units of a text.
pub open spec fn utf16(text: Seq<char>) -> Seq<u16>
    decreases text.len(),
{
    if text.len() == 0 {
        seq![]
    } else {
        utf16(text.drop_last()) + utf16_units(text.last())
    }
}

/// The text that a sequence of UTF-16 code units stands for, where every surrogate is paired.
pub open spec fn utf16_text(units: Seq<u16>) -> Seq<char>
    decreases units.len(),
{
    if units.len() == 0 {
        seq![]
    } else if units.len() >= 2 && 0xdc00 <= units.last() < 0xe000 {
        let high = units[units.len() - 2] - 0xd800;
        let low = units.last() - 0xdc00;
        utf16_text(units.take(units.len() - 2)).push((0x1_0000 + high * 0x400 + low) as char)
    } else {
        utf16_text(units.drop_last()).push(units.last() as char)
    }
}

/// A character lies in the Unicode range.
proof fn char_range(c: char)
    ensures
        0 <= (c as int) <= 0x10_ffff,
        (c as int) < 0xd800 || (c as int) >= 0xe000,
{
}

/// Decoding the UTF-16 code units of a text gives the text back.
pub proof fn utf16_round_trip(text: Seq<char>)
    ensures
        utf16_text(utf16(text)) == text,
    decreases text.len(),
{
    if text.len() > 0 {
        let head = text.drop_last();
        let c = text.last();
        utf16_round_trip(head);
        char_range(c);
        let units = utf16(text);
        if (c as int) < 0x1_0000 {
            assert(units.drop_last() =~= utf16(head));
            assert(units.last() == c as int);
        } else {
            assert(units.take(units.len() - 2) =~= utf16(head));
            assert(units.last() == utf16_units(c)[1]);
            assert(units[units.len() - 2] == utf16_units(c)[0]);
        }
        assert(text =~= head.push(c));
    }
}

/// Trimming takes away white space at both ends and nothing else: what is left neither begins nor
/// ends with white space, and is empty exactly where the whole text is blank.
pub proof fn trimming_takes_white_space_only(text: Seq<char>) -> (ends: (int, int))
    ensures
        0 <= ends.0 <= ends.1 <= text.len(),
        trimmed(text) == text.subrange(ends.0, ends.1),
        forall|i: int|
            (0 <= i < ends.0 || ends.1 <= i < text.len()) ==> is_white_space(#[trigger] text[i]),
        ends.0 < ends.1 ==> !is_white_space(text[ends.0]) && !is_white_space(text[ends.1 - 1]),
        trimmed(text).len() == 0 <==> is_blank(text),
    decreases text.len(),
{
    if text.len() > 0 && is_white_space(text.first()) {
        let rest = text.drop_first();
        let (from, to) = trimming_takes_white_space_only(rest);
        assert(rest.subrange(from, to) =~= text.subrange(from + 1, to + 1));
        assert forall|i: int| (0 <= i < from + 1 || to + 1 <= i < text.len()) implies is_white_space(
            #[trigger] text[i],
        ) by {
            if i > 0 {
                assert(rest[i - 1] == text[i]);
            }
        }
        assert(forall|i: int| 0 <= i < rest.len() ==> rest[i] == text[i + 1]);
        if is_blank(rest) {
            assert forall|i: int| 0 <= i < text.len() implies is_white_space(#[trigger] text[i]) by {
                if i > 0 {
                    assert(rest[i - 1] == text[i]);
                }
            }
        }
        if is_blank(text) {
            assert forall|i: int| 0 <= i < rest.len() implies is_white_space(#[trigger] rest[i]) by {
                assert(rest[i] == text[i + 1]);
            }
        }
        (from + 1, to + 1)
    } else if text.len() > 0 && is_white_space(text.last()) {
        let rest = text.drop_last();
        let (from, to) = trimming_takes_white_space_only(rest);
        assert(rest.subrange(from, to) =~= text.subrange(from, to));
        assert forall|i: int| (0 <= i < from || to <= i < text.len()) implies is_white_space(
            #[trigger] text[i],
        ) by {
            if i < rest.len() {
                assert(rest[i] == text[i]);
            }
        }
        assert(!is_blank(text)) by {
            assert(!is_white_space(text[0]));
        }
        if is_blank(rest) {
            assert(rest.len() > 0);
            assert(rest[0] == text[0]);
            assert(is_white_space(rest[0]));
        }
        (from, to)
    } else {
        assert(text.subrange(0, text.len() as int) =~= text);
        if text.len() > 0 {
            assert(!is_white_space(text[0]));
        }
        (0, text.len() as int)
    }
}

/// White space around words that neither begin nor end with it is trimmed away, whatever it is.
pub proof fn white_space_around_is_trimmed(ahead: Seq<char>, words: Seq<char>, behind: Seq<char>)
    requires
        is_blank(ahead),
        is_blank(behind),
        words.len() > 0 ==> !is_white_space(words.first()) && !is_white_space(words.last()),
    ensures
        trimmed(ahead + words + behind) == words,
{
    let text = ahead + words + behind;
    let (from, to) = trimming_takes_white_space_only(text);
    let start = ahead.len() as int;
    let end = start + words.len();
    assert forall|i: int| 0 <= i < text.len() && (i < start || i >= end) implies is_white_space(
        #[trigger] text[i],
    ) by {
        if i < start {
            assert(text[i] == ahead[i]);
        } else {
            assert(text[i] == behind[i - end]);
        }
    }
    if words.len() > 0 {
        assert(text[start] == words.first());
        assert(text[end - 1] == words.last());
        assert(from <= start < to);
        assert(from <= end - 1 < to);
        assert(from == start);
        assert(to == end);
        assert(text.subrange(from, to) =~= words);
    } else {
        assert(is_blank(text));
        assert(trimmed(text) =~= words);
    }
}

/// The number that a row of decimal digits stands for.
pub open spec fn digits_value(digits: Seq<char>) -> int
    decreases digits.len(),
{
    if digits.len() == 0 {
        0
    } else {
        digits_value(digits.drop_last()) * 10 + (digits.last() as int - '0' as int)
    }
}

/// A number is written in digits that stand for it, without a zero ahead unless it is zero.
pub proof fn decimals_stand_for_their_number(n: nat)
    ensures
        digits_value(decimal(n)) == n,
        decimal(n).len() > 0,
        forall|i: int|
            0 <= i < decimal(n).len() ==> '0' as int <= #[trigger] decimal(n)[i] as int <= '9' as int,
        n > 0 ==> decimal(n).first() != '0',
    decreases n,
{
    if n < 10 {
        assert(decimal(n).drop_last() =~= seq![]);
        assert(digits_value(decimal(n).drop_last()) == 0);
    } else {
        decimals_stand_for_their_number(n / 10);
        assert(decimal(n).drop_last() =~= decimal(n / 10));
        assert(decimal(n).first() == decimal(n / 10).first());
        assert forall|i: int| 0 <= i < decimal(n).len() implies '0' as int <= #[trigger] decimal(
            n,
        )[i] as int <= '9' as int by {
            if i < decimal(n / 10).len() {
                assert(decimal(n)[i] == decimal(n / 10)[i]);
            }
        }
    }
}

/// A character of the basic plane is one code unit, itself; any other is a high and a low
/// surrogate, which together hold what is left of it above the basic plane.
pub proof fn characters_become_code_units(c: char)
    ensures
        (c as int) < 0x1_0000 ==> utf16_units(c).len() == 1 && utf16_units(c)[0] == c as int,
        (c as int) >= 0x1_0000 ==> {
            &&& utf16_units(c).len() == 2
            &&& 0xd800 <= utf16_units(c)[0] < 0xdc00
            &&& 0xdc00 <= utf16_units(c)[1] < 0xe000
            &&& 0x1_0000 + (utf16_units(c)[0] - 0xd800) * 0x400 + (utf16_units(c)[1] - 0xdc00)
                == c as int
        },
{
    char_range(c);
}

/// The code units of a text are those of its parts, one behind the other.
pub proof fn code_units_are_joined(left: Seq<char>, right: Seq<char>)
    ensures
        utf16(left + right) == utf16(left) + utf16(right),
        left.len() == 1 ==> utf16(left) == utf16_units(left[0]),
        left.len() == 0 ==> utf16(left).len() == 0,
    decreases right.len(),
{
    if right.len() == 0 {
        assert(left + right =~= left);
        assert(utf16(left) + utf16(right) =~= utf16(left));
    } else {
        code_units_are_joined(left, right.drop_last());
        assert((left + right).drop_last() =~= left + right.drop_last());
        assert((left + right).last() == right.last());
        assert(utf16(left + right) =~= utf16(left) + utf16(right));
    }
    if left.len() == 1 {
        assert(left.drop_last() =~= seq![]);
        assert(utf16(left.drop_last()) =~= seq![]);
        assert(utf16(left) =~= utf16_units(left[0]));
    }
}

/// Whether `c` has the White_Space property of Unicode.
fn char_is_white_space(c: char) -> (white: bool)
    ensures
        white == is_white_space(c),
{
    let code: u32 = c as u32;
    (0x9 <= code && code <= 0xd) || code == 0x20 || code == 0x85 || code == 0xa0 || code == 0x1680
        || (0x2000 <= code && code <= 0x200a) || code == 0x2028 || code == 0x2029 || code == 0x202f
        || code == 0x205f || code == 0x3000
}

/// The white space of each block of Unicode: the control characters that move the cursor and the
/// blank in ASCII, the next line and the blank that does not break in Latin-1, the Ogham blank, the
/// blanks and separators among the general punctuation, the blank of the width of an ideograph, and
/// nothing else.
pub proof fn white_space_is_that_of_unicode(c: char)
    ensures
        (c as u32) < 0x80 ==> (is_white_space(c) <==> c == '\t' || c == '\n' || c as u32 == 0xb
            || c as u32 == 0xc || c == '\r' || c == ' '),
        0x80 <= (c as u32) < 0x100 ==> (is_white_space(c) <==> c as u32 == 0x85 || c as u32 == 0xa0),
        0x100 <= (c as u32) < 0x2000 ==> (is_white_space(c) <==> c as u32 == 0x1680),
        0x2000 <= (c as u32) < 0x2070 ==> (is_white_space(c) <==> (c as u32) < 0x200b || c as u32
            == 0x2028 || c as u32 == 0x2029 || c as u32 == 0x202f || c as u32 == 0x205f),
        0x2070 <= (c as u32) ==> (is_white_space(c) <==> c as u32 == 0x3000),
{
}

/// Calls [`str::to_lowercase`]; the result depends on `text` alone, and is empty where `text` is.
#[verifier::external_body]
pub(crate) fn to_lowercase(text: &str) -> (lower: String)
    ensures
        lower@ == lowercased(text@),
        text@.len() == 0 ==> lower@.len() == 0,
{
    text.to_lowercase()
}

/// The characters of `text`, in order.
pub(crate) fn characters(text: &str) -> (chars: Vec<char>)
    ensures
        chars@ == text@,
{
    let mut chars: Vec<char> = Vec::new();
    for c in iter: text.chars()
        invariant
            iter.seq() == text@,
            chars@ == text@.take(iter.index() as int),
    {
        chars.push(c);
        assert(text@.take(iter.index() + 1) =~= text@.take(iter.index() as int).push(c));
    }
    assert(text@.take(text@.len() as int) =~= text@);
    chars
}

/// Whether two texts hold the same characters.
pub(crate) fn same_text(left: &str, right: &str) -> (same: bool)
    ensures
        same == (left@ == right@),
{
    left.to_owned() == right.to_owned()
}

/// Whether `text` holds nothing but white space.
pub fn blank(text: &str) -> (r: bool)
    ensures
        r == is_blank(text@),
{
    let chars = characters(text);
    let mut i: usize = 0;
    while i < chars.len()
        invariant
            chars@ == text@,
            i <= chars.len(),
            forall|k: int| 0 <= k < i ==> is_white_space(#[trigger] text@[k]),
        decreases chars.len() - i,
    {
        if !char_is_white_space(chars[i]) {
            assert(!is_white_space(text@[i as int]));
            return false;
        }
        i += 1;
    }
    true
}

/// `text` without its leading and trailing white space.
pub fn trim(text: &str) -> (part: &str)
    ensures
        part@ == trimmed(text@),
{
    let chars = characters(text);
    let mut from: usize = 0;
    let mut to: usize = chars.len();
    assert(text@.subrange(0, to as int) =~= text@);
    while from < to && char_is_white_space(chars[from])
        invariant
            chars@ == text@,
            from <= to == chars.len(),
            trimmed(text@.subrange(from as int, to as int)) == trimmed(text@),
        ensures
            from <= to == chars.len(),
            trimmed(text@.subrange(from as int, to as int)) == trimmed(text@),
            from < to ==> !is_white_space(text@[from as int]),
        decreases to - from,
    {
        assert(text@.subrange(from as int, to as int).drop_first() =~= text@.subrange(
            from + 1,
            to as int,
        ));
        from += 1;
    }
    while from < to && char_is_white_space(chars[to - 1])
        invariant
            chars@ == text@,
            from <= to <= chars.len(),
            trimmed(text@.subrange(from as int, to as int)) == trimmed(text@),
            from < to ==> !is_white_space(text@[from as int]),
        decreases to,
    {
        assert(text@.subrange(from as int, to as int).drop_last() =~= text@.subrange(
            from as int,
            to - 1,
        ));
        to -= 1;
    }
    text.substring_char(from, to)
}

/// `left` followed by `right`.
pub(crate) fn joined(left: &str, right: &str) -> (whole: String)
    ensures
        whole@ == left@ + right@,
{
    left.to_owned().concat(right)
}

/// The digit `d` as text.
fn digit_text(d: u64) -> (text: &'static str)
    requires
        d < 10,
    ensures
        text@ == seq![digit(d as nat)],
{
    proof {
        reveal_strlit("0");
        reveal_strlit("1");
        reveal_strlit("2");
        reveal_strlit("3");
        reveal_strlit("4");
        reveal_strlit("5");
        reveal_strlit("6");
        reveal_strlit("7");
        reveal_strlit("8");
        reveal_strlit("9");
    }
    let text: &'static str = match d {
        0 => "0",
        1 => "1",
        2 => "2",
        3 => "3",
        4 => "4",
        5 => "5",
        6 => "6",
        7 => "7",
        8 => "8",
        _ => "9",
    };
    assert(text@ =~= seq![digit(d as nat)]);
    text
}

/// `n` in decimal digits.
pub(crate) fn decimal_text(n: u64) -> (text: String)
    ensures
        text@ == decimal(n as nat),
    decreases n,
{
    if n < 10 {
        digit_text(n).to_owned()
    } else {
        let head = decimal_text(n / 10);
        let text = head.concat(digit_text(n % 10));
        assert(text@ =~= decimal((n / 10) as nat).push(digit((n % 10) as nat)));
        text
    }
}

/// The UTF-16 code units of `text`.
pub(crate) fn encode_utf16(text: &str) -> (units: Vec<u16>)
    ensures
        units@ == utf16(text@),
{
    let chars = characters(text);
    let mut units: Vec<u16> = Vec::new();
    let mut i: usize = 0;
    while i < chars.len()
        invariant
            chars@ == text@,
            i <= chars.len(),
            units@ == utf16(text@.take(i as int)),
        decreases chars.len() - i,
    {
        let code: u32 = chars[i] as u32;
        proof {
            char_range(chars@[i as int]);
        }
        let ghost before = units@;
        if code < 0x1_0000 {
            units.push(code as u16);
        } else {
            units.push((0xd800 + (code - 0x1_0000) / 0x400) as u16);
            units.push((0xdc00 + (code - 0x1_0000) % 0x400) as u16);
        }
        assert(units@ =~= before + utf16_units(text@[i as int]));
        assert(text@.take(i + 1).drop_last() =~= text@.take(i as int));
        i += 1;
    }
    assert(text@.take(text@.len() as int) =~= text@);
    units
}

} // verus!
