//! Text building blocks whose results are stated over sequences of characters.

use vstd::prelude::*;

verus! {

/// `String::push` appends one character to the end of the text.
pub assume_specification[ String::push ](text: &mut String, character: char)
    ensures
        final(text)@ == old(text)@.push(character),
;

/// `String::pop` removes the last character and returns it, or returns `None` on empty text.
pub assume_specification[ String::pop ](text: &mut String) -> (character: Option<char>)
    ensures
        old(text)@.len() == 0 ==> character is None && final(text)@ == old(text)@,
        old(text)@.len() > 0 ==> character == Some(old(text)@.last()) && final(text)@
            == old(text)@.drop_last(),
;

/// What `str::to_uppercase` makes of a text.
pub uninterp spec fn uppercased(text: Seq<char>) -> Seq<char>;

/// The ASCII upper-case form of one character; every other character is kept.
pub open spec fn ascii_upper(c: char) -> char {
    if 'a' <= c <= 'z' {
        ((c as u8 - 32) as u8) as char
    } else {
        c
    }
}

/// `str::to_uppercase`: the Unicode upper-case form of the text. It depends on the text alone,
/// and on text made of ASCII characters it maps each character on its own. What it makes of
/// other characters is not stated beyond its name.
#[verifier::external_body]
pub(crate) fn to_uppercase(text: &str) -> (upper: String)
    ensures
        upper@ == uppercased(text@),
        (forall|i: int| 0 <= i < text@.len() ==> (#[trigger] text@[i]) as u32 <= 0x7f) ==> upper@
            == text@.map_values(|c: char| ascii_upper(c)),
{
    text.to_uppercase()
}

/// Whether two texts hold the same characters.
pub fn same_text(left: &str, right: &str) -> (same: bool)
    ensures
        same == (left@ == right@),
{
    let owned = left.to_owned();
    owned == right.to_owned()
}

/// The characters of a text, in order.
pub fn characters(text: &str) -> (characters: Vec<char>)
    ensures
        characters@ == text@,
{
    let mut characters: Vec<char> = Vec::new();
    for c in iter: text.chars()
        invariant
            characters@ == iter.seq().take(iter.index() as int),
            iter.seq() == text@,
    {
        characters.push(c);
    }
    characters
}


/// The text that holds the given characters.
pub fn from_characters(characters: &Vec<char>, start: usize, end: usize) -> (text: String)
    requires
        start <= end <= characters@.len(),
    ensures
        text@ == characters@.subrange(start as int, end as int),
{
    let mut text = String::new();
    let mut at = start;
    while at < end
        invariant
            start <= at <= end <= characters@.len(),
            text@ == characters@.subrange(start as int, at as int),
        decreases end - at,
    {
        text.push(characters[at]);
        proof {
            assert(characters@.subrange(start as int, at + 1) =~= characters@.subrange(
                start as int,
                at as int,
            ).push(characters@[at as int]));
        }
        at += 1;
    }
    text
}

/// Whether `text` begins with `prefix`.
pub open spec fn has_prefix(text: Seq<char>, prefix: Seq<char>) -> bool {
    prefix.len() <= text.len() && text.take(prefix.len() as int) == prefix
}

/// The text after `prefix`, if the text begins with it.
pub fn strip_prefix(text: &str, prefix: &str) -> (rest: Option<String>)
    ensures
        match rest {
            Some(rest) => has_prefix(text@, prefix@) && rest@ == text@.skip(prefix@.len() as int),
            None => !has_prefix(text@, prefix@),
        },
{
    let all = characters(text);
    let wanted = characters(prefix);
    if wanted.len() > all.len() {
        return None;
    }
    let mut at: usize = 0;
    while at < wanted.len()
        invariant
            at <= wanted@.len() <= all@.len(),
            all@ == text@,
            wanted@ == prefix@,
            forall|i: int| 0 <= i < at ==> all@[i] == wanted@[i],
        decreases wanted@.len() - at,
    {
        if all[at] != wanted[at] {
            proof {
                assert(text@.take(prefix@.len() as int)[at as int] != prefix@[at as int]);
            }
            return None;
        }
        at += 1;
    }
    proof {
        assert(text@.take(prefix@.len() as int) =~= prefix@);
        assert(text@.skip(prefix@.len() as int) =~= all@.subrange(
            wanted@.len() as int,
            all@.len() as int,
        ));
    }
    Some(from_characters(&all, wanted.len(), all.len()))
}

/// Whether `text` begins with `prefix`.
pub fn starts_with(text: &str, prefix: &str) -> (found: bool)
    ensures
        found == has_prefix(text@, prefix@),
{
    strip_prefix(text, prefix).is_some()
}

/// Whether `needle` stands in `text` at the given place.
pub open spec fn stands_at(text: Seq<char>, needle: Seq<char>, at: int) -> bool {
    0 <= at <= text.len() - needle.len() && text.subrange(at, at + needle.len()) == needle
}

/// Whether `needle` stands somewhere in `text`.
pub open spec fn contains_text(text: Seq<char>, needle: Seq<char>) -> bool {
    exists|at: int| stands_at(text, needle, at)
}

/// Whether `needle` stands somewhere in the given characters.
pub fn contains(text: &Vec<char>, needle: &str) -> (found: bool)
    ensures
        found == contains_text(text@, needle@),
{
    let wanted = characters(needle);
    if wanted.len() > text.len() {
        return false;
    }
    let last = text.len() - wanted.len();
    let mut at: usize = 0;
    while at <= last
        invariant
            wanted@ == needle@,
            last == text@.len() - wanted@.len(),
            0 <= at <= last + 1,
            forall|i: int| 0 <= i < at ==> !stands_at(text@, needle@, i),
        decreases last + 1 - at,
    {
        let mut offset: usize = 0;
        while offset < wanted.len() && text[at + offset] == wanted[offset]
            invariant
                wanted@ == needle@,
                last + wanted.len() == text.len(),
                at <= last,
                offset <= wanted@.len(),
                forall|i: int| 0 <= i < offset ==> text@[at + i] == wanted@[i],
            decreases wanted@.len() - offset,
        {
            offset += 1;
        }
        if offset == wanted.len() {
            proof {
                assert(text@.subrange(at as int, at + needle@.len()) =~= needle@);
                assert(stands_at(text@, needle@, at as int));
            }
            return true;
        }
        proof {
            assert(text@.subrange(at as int, at + needle@.len())[offset as int]
                != needle@[offset as int]);
        }
        if at == last {
            return false;
        }
        at += 1;
    }
    false
}

/// The ASCII lower-case form of one character; every other character is kept.
pub open spec fn ascii_lower(c: char) -> char {
    if 'A' <= c <= 'Z' {
        ((c as u8 + 32) as u8) as char
    } else {
        c
    }
}

/// The characters of a text with ASCII capitals lowered.
pub fn ascii_lowercase(text: &str) -> (lowered: Vec<char>)
    ensures
        lowered@ == text@.map_values(|c: char| ascii_lower(c)),
{
    let all = characters(text);
    let mut lowered: Vec<char> = Vec::new();
    let mut at: usize = 0;
    while at < all.len()
        invariant
            at <= all@.len(),
            all@ == text@,
            lowered@ == all@.take(at as int).map_values(|c: char| ascii_lower(c)),
        decreases all@.len() - at,
    {
        let c = all[at];
        if 'A' <= c && c <= 'Z' {
            lowered.push((c as u8 + 32) as char);
        } else {
            lowered.push(c);
        }
        at += 1;
    }
    proof {
        assert(all@.take(at as int) =~= text@);
    }
    lowered
}

/// The decimal digit of a number below ten.
pub open spec fn digit(value: nat) -> char {
    (48 + value) as u8 as char
}

/// The decimal notation of a number, without leading zeros.
pub open spec fn decimal_text(value: nat) -> Seq<char>
    decreases value,
{
    if value < 10 {
        seq![digit(value)]
    } else {
        decimal_text(value / 10).push(digit(value % 10))
    }
}

/// The decimal notation of a number, without leading zeros.
pub fn decimal(value: u128) -> (text: String)
    ensures
        text@ == decimal_text(value as nat),
    decreases value,
{
    let last = (48 + (value % 10) as u8) as char;
    let mut text = if value < 10 {
        String::new()
    } else {
        decimal(value / 10)
    };
    text.push(last);
    text
}

/// Two numbers with the same decimal notation are the same number.
pub proof fn decimal_text_is_injective(left: nat, right: nat)
    requires
        decimal_text(left) == decimal_text(right),
    ensures
        left == right,
    decreases left,
{
    decimal_text_is_not_empty(left / 10);
    decimal_text_is_not_empty(right / 10);
    assert(decimal_text(left).last() == digit(left % 10));
    assert(decimal_text(right).last() == digit(right % 10));
    if left >= 10 && right >= 10 {
        assert(decimal_text(left).drop_last() =~= decimal_text(left / 10));
        assert(decimal_text(right).drop_last() =~= decimal_text(right / 10));
        decimal_text_is_injective(left / 10, right / 10);
    }
}

proof fn decimal_text_is_not_empty(value: nat)
    ensures
        decimal_text(value).len() > 0,
    decreases value,
{
    if value >= 10 {
        decimal_text_is_not_empty(value / 10);
    }
}

/// A text filled up with spaces on the right to the given number of characters.
pub open spec fn padded(text: Seq<char>, width: nat) -> Seq<char> {
    if text.len() >= width {
        text
    } else {
        text + Seq::new((width - text.len()) as nat, |i: int| ' ')
    }
}

/// A text filled up with spaces on the right to the given number of characters.
pub fn pad_right(text: &str, width: usize) -> (filled: String)
    ensures
        filled@ == padded(text@, width as nat),
{
    let mut filled = text.to_owned();
    let mut length = text.unicode_len();
    while length < width
        invariant
            length >= text@.len(),
            length == filled@.len(),
            length <= width || filled@ == text@,
            filled@ == padded(text@, length as nat),
        decreases width - length,
    {
        filled.push(' ');
        length += 1;
        proof {
            assert(padded(text@, length as nat) =~= padded(text@, (length - 1) as nat).push(' '));
        }
    }
    filled
}

/// The characters with the Unicode property `White_Space`.
pub open spec fn is_white_space(c: char) -> bool {
    ||| 0x9 <= c as u32 <= 0xd
    ||| c as u32 == 0x20
    ||| c as u32 == 0x85
    ||| c as u32 == 0xa0
    ||| c as u32 == 0x1680
    ||| 0x2000 <= c as u32 <= 0x200a
    ||| c as u32 == 0x2028
    ||| c as u32 == 0x2029
    ||| c as u32 == 0x202f
    ||| c as u32 == 0x205f
    ||| c as u32 == 0x3000
}

fn white_space(c: char) -> (white: bool)
    ensures
        white == is_white_space(c),
{
    let code = c as u32;
    (0x9 <= code && code <= 0xd) || code == 0x20 || code == 0x85 || code == 0xa0 || code == 0x1680
        || (0x2000 <= code && code <= 0x200a) || code == 0x2028 || code == 0x2029 || code == 0x202f
        || code == 0x205f || code == 0x3000
}

/// A text without the white space at its beginning.
pub open spec fn trimmed_start(text: Seq<char>) -> Seq<char>
    decreases text.len(),
{
    if text.len() > 0 && is_white_space(text[0]) {
        trimmed_start(text.skip(1))
    } else {
        text
    }
}

/// A text without the white space at its end.
pub open spec fn trimmed_end(text: Seq<char>) -> Seq<char>
    decreases text.len(),
{
    if text.len() > 0 && is_white_space(text.last()) {
        trimmed_end(text.drop_last())
    } else {
        text
    }
}

/// A text without the white space at its beginning and at its end.
pub open spec fn trimmed(text: Seq<char>) -> Seq<char> {
    trimmed_end(trimmed_start(text))
}

/// A text without the white space at its beginning and at its end.
pub fn trim(text: &str) -> (inner: String)
    ensures
        inner@ == trimmed(text@),
{
    let all = characters(text);
    let mut start: usize = 0;
    proof {
        assert(text@.skip(0) =~= text@);
    }
    while start < all.len() && white_space(all[start])
        invariant
            all@ == text@,
            start <= all@.len(),
            trimmed_start(text@) == trimmed_start(text@.skip(start as int)),
        decreases all@.len() - start,
    {
        proof {
            assert(text@.skip(start as int).skip(1) =~= text@.skip(start + 1));
        }
        start += 1;
    }
    let ghost head = text@.skip(start as int);
    assert(trimmed_start(text@) == head);
    let mut end = all.len();
    proof {
        assert(all@.subrange(start as int, end as int) =~= head);
    }
    while end > start && white_space(all[end - 1])
        invariant
            all@ == text@,
            start <= end <= all@.len(),
            head == text@.skip(start as int),
            trimmed_end(head) == trimmed_end(all@.subrange(start as int, end as int)),
        decreases end,
    {
        proof {
            assert(all@.subrange(start as int, end as int).drop_last() =~= all@.subrange(
                start as int,
                end - 1,
            ));
        }
        end -= 1;
    }
    from_characters(&all, start, end)
}

/// Trimming takes away the white space around a text and nothing else.
pub proof fn trimming_takes_the_inside(before: Seq<char>, inside: Seq<char>, after: Seq<char>)
    requires
        inside.len() > 0,
        !is_white_space(inside[0]),
        !is_white_space(inside.last()),
        forall|i: int| 0 <= i < before.len() ==> is_white_space(#[trigger] before[i]),
        forall|i: int| 0 <= i < after.len() ==> is_white_space(#[trigger] after[i]),
    ensures
        trimmed(before + inside + after) == inside,
{
    start_is_taken(before, inside + after);
    assert(before + inside + after =~= before + (inside + after));
    end_is_taken(inside, after);
}

proof fn start_is_taken(before: Seq<char>, rest: Seq<char>)
    requires
        rest.len() > 0,
        !is_white_space(rest[0]),
        forall|i: int| 0 <= i < before.len() ==> is_white_space(#[trigger] before[i]),
    ensures
        trimmed_start(before + rest) == rest,
    decreases before.len(),
{
    if before.len() > 0 {
        assert((before + rest)[0] == before[0]);
        assert((before + rest).skip(1) =~= before.skip(1) + rest);
        start_is_taken(before.skip(1), rest);
    } else {
        assert(before + rest =~= rest);
    }
}

proof fn end_is_taken(inside: Seq<char>, after: Seq<char>)
    requires
        inside.len() > 0,
        !is_white_space(inside.last()),
        forall|i: int| 0 <= i < after.len() ==> is_white_space(#[trigger] after[i]),
    ensures
        trimmed_end(inside + after) == inside,
    decreases after.len(),
{
    if after.len() > 0 {
        assert((inside + after).last() == after.last());
        assert((inside + after).drop_last() =~= inside + after.drop_last());
        end_is_taken(inside, after.drop_last());
    } else {
        assert(inside + after =~= inside);
    }
}

/// White space alone trims to nothing.
pub proof fn white_space_trims_to_nothing(text: Seq<char>)
    requires
        forall|i: int| 0 <= i < text.len() ==> is_white_space(#[trigger] text[i]),
    ensures
        trimmed(text).len() == 0,
    decreases text.len(),
{
    if text.len() > 0 {
        white_space_trims_to_nothing(text.skip(1));
    }
}

/// Blanks, tabs and line ends are white space; what is printed is not.
pub proof fn printed_characters_are_not_white_space(c: char)
    ensures
        is_white_space(' '),
        is_white_space('\t'),
        is_white_space('\n'),
        is_white_space('\r'),
        '!' <= c <= '~' ==> !is_white_space(c),
{
}

/// Lowering changes the twenty-six capitals and no other character, and none stays a capital.
pub proof fn lowering_changes_capitals_only(c: char)
    ensures
        !('A' <= c <= 'Z') ==> ascii_lower(c) == c,
        'A' <= c <= 'Z' ==> 'a' <= ascii_lower(c) <= 'z' && ascii_lower(c) as int - 'a' as int
            == c as int - 'A' as int,
{
}

/// Padding fills a short text up with blanks on its right, and keeps a long one.
pub proof fn padding_fills_up(text: Seq<char>, width: nat)
    ensures
        padded(text, width).len() == if text.len() >= width {
            text.len()
        } else {
            width
        },
        padded(text, width).take(text.len() as int) == text,
        forall|i: int|
            text.len() <= i < padded(text, width).len() ==> #[trigger] padded(text, width)[i]
                == ' ',
{
    assert(padded(text, width).take(text.len() as int) =~= text);
}

/// The value of decimal notation.
pub open spec fn decimal_value(text: Seq<char>) -> int
    decreases text.len(),
{
    if text.len() == 0 {
        0
    } else {
        10 * decimal_value(text.drop_last()) + (text.last() as int - '0' as int)
    }
}

/// Decimal notation has the value of the number, is made of digits and begins with a zero only
/// for zero itself.
pub proof fn decimal_notation_has_its_value(value: nat)
    ensures
        decimal_value(decimal_text(value)) == value,
        decimal_text(value).len() > 0,
        forall|i: int|
            0 <= i < decimal_text(value).len() ==> '0' <= #[trigger] decimal_text(value)[i] <= '9',
        value > 0 ==> decimal_text(value)[0] != '0',
    decreases value,
{
    let text = decimal_text(value);
    if value < 10 {
        assert(text.drop_last() =~= Seq::empty());
        assert(decimal_value(text.drop_last()) == 0);
    } else {
        decimal_notation_has_its_value(value / 10);
        assert(text.drop_last() =~= decimal_text(value / 10));
    }
}

/// White space is what separates words: tabs, ends of lines, spaces of every width and the marks
/// between lines and paragraphs.
pub proof fn white_space_separates_words(c: char)
    ensures
        is_white_space(c) <==> seq![
            0x9u32,
            0xa,
            0xb,
            0xc,
            0xd,
            0x20,
            0x85,
            0xa0,
            0x1680,
            0x2000,
            0x2001,
            0x2002,
            0x2003,
            0x2004,
            0x2005,
            0x2006,
            0x2007,
            0x2008,
            0x2009,
            0x200a,
            0x2028,
            0x2029,
            0x202f,
            0x205f,
            0x3000,
        ].contains(c as u32),
{
    let codes = seq![
        0x9u32,
        0xa,
        0xb,
        0xc,
        0xd,
        0x20,
        0x85,
        0xa0,
        0x1680,
        0x2000,
        0x2001,
        0x2002,
        0x2003,
        0x2004,
        0x2005,
        0x2006,
        0x2007,
        0x2008,
        0x2009,
        0x200a,
        0x2028,
        0x2029,
        0x202f,
        0x205f,
        0x3000,
    ];
    if is_white_space(c) {
        let code = c as u32;
        let at = if code <= 0xd {
            code - 0x9
        } else if code == 0x20 {
            5
        } else if code == 0x85 {
            6
        } else if code == 0xa0 {
            7
        } else if code == 0x1680 {
            8
        } else if code <= 0x200a {
            9 + code - 0x2000
        } else if code == 0x2028 {
            20
        } else if code == 0x2029 {
            21
        } else if code == 0x202f {
            22
        } else if code == 0x205f {
            23
        } else {
            24
        };
        assert(codes[at] == code);
    }
}

} // verus!
