//! Judging what a program under test has sent over the serial port, and
//! text made safe for an HTML page.

use vstd::prelude::*;

verus! {

/// What compiling `pattern` as a regular expression and replacing each of
/// its matches in `text` by `replacement` gives, or nothing where the pattern
/// does not compile.
pub uninterp spec fn regex_replaced(pattern: Seq<char>, text: Seq<u8>, replacement: Seq<u8>) -> Option<Seq<u8>>;

/// Calls `regex::bytes::Regex::new` on the pattern and, where that gives a
/// regular expression, `regex::bytes::Regex::replace_all` on the text and the
/// replacement. Nothing is claimed of the outcome but that it depends on
/// these three values alone: it is given the name `regex_replaced`.
#[verifier::external_body]
fn regex_replace_all(pattern: &str, text: &[u8], replacement: &[u8]) -> (replaced: Option<Vec<u8>>)
    ensures
        match replaced {
            Some(bytes) => regex_replaced(pattern@, text@, replacement@) == Some(bytes@),
            None => regex_replaced(pattern@, text@, replacement@) is None,
        },
{
    match regex::bytes::Regex::new(pattern) {
        Ok(expression) => Some(expression.replace_all(text, replacement).into_owned()),
        Err(_) => None,
    }
}

/// The bytes of `serial` that are ASCII, in their order.
pub open spec fn printable(serial: Seq<u8>) -> Seq<u8>
    decreases serial.len(),
{
    if serial.len() == 0 {
        Seq::empty()
    } else if serial.last() < 128 {
        printable(serial.drop_last()).push(serial.last())
    } else {
        printable(serial.drop_last())
    }
}

/// Whether a byte is ASCII white space: a space, or one of the five control
/// characters from tab to carriage return.
pub open spec fn is_space(byte: u8) -> bool {
    byte == 0x20 || (0x09 <= byte <= 0x0d)
}

/// The number of white-space bytes at the start of a text.
pub open spec fn leading_spaces(text: Seq<u8>) -> nat
    decreases text.len(),
{
    if text.len() > 0 && is_space(text.first()) {
        1 + leading_spaces(text.drop_first())
    } else {
        0
    }
}

/// The number of white-space bytes at the end of a text.
pub open spec fn trailing_spaces(text: Seq<u8>) -> nat
    decreases text.len(),
{
    if text.len() > 0 && is_space(text.last()) {
        1 + trailing_spaces(text.drop_last())
    } else {
        0
    }
}

/// A text without the white space at its start and at its end.
pub open spec fn trimmed(text: Seq<u8>) -> Seq<u8> {
    let start = leading_spaces(text);
    if start == text.len() {
        Seq::empty()
    } else {
        text.subrange(start as int, text.len() - trailing_spaces(text))
    }
}

/// An ASCII letter as its lower-case form, and any other byte as itself.
pub open spec fn lowered(byte: u8) -> u8 {
    if 0x41 <= byte <= 0x5a {
        (byte + 0x20) as u8
    } else {
        byte
    }
}

/// The word that a text must hold for a program to have passed.
pub open spec fn passed_word() -> Seq<u8> {
    seq![0x70u8, 0x61u8, 0x73u8, 0x73u8, 0x65u8, 0x64u8]
}

/// Whether `word` stands in `text` at `position`, letters of either case in
/// the text counting as lower case.
pub open spec fn stands_at(text: Seq<u8>, word: Seq<u8>, position: int) -> bool {
    &&& 0 <= position <= text.len() - word.len()
    &&& forall|offset: int|
        0 <= offset < word.len() ==> lowered(#[trigger] text[position + offset]) == word[offset]
}

/// Whether `word` stands anywhere in `text`.
pub open spec fn mentions(text: Seq<u8>, word: Seq<u8>) -> bool {
    exists|position: int| stands_at(text, word, position)
}

/// The judgement of a text whose runs of white space have been shrunk: the
/// text without white space at its ends, as a success where it says
/// "passed" in letters of either case, and as a failure otherwise.
pub open spec fn judged(collapsed: Seq<u8>) -> Result<Seq<u8>, Seq<u8>> {
    if mentions(trimmed(collapsed), passed_word()) {
        Ok(trimmed(collapsed))
    } else {
        Err(trimmed(collapsed))
    }
}

/// The bytes that stand for one byte of text on an HTML page: the five
/// characters with a meaning in HTML are written as entities.
pub open spec fn escaped_byte(byte: u8) -> Seq<u8> {
    if byte == 0x26 {
        seq![0x26u8, 0x61u8, 0x6du8, 0x70u8]
    } else if byte == 0x3c {
        seq![0x26u8, 0x6cu8, 0x74u8]
    } else if byte == 0x3e {
        seq![0x26u8, 0x67u8, 0x74u8]
    } else if byte == 0x22 {
        seq![0x26u8, 0x71u8, 0x75u8, 0x6fu8, 0x74u8]
    } else if byte == 0x27 {
        seq![0x26u8, 0x23u8, 0x33u8, 0x39u8]
    } else {
        seq![byte]
    }
}

/// A text with each byte written as it stands on an HTML page.
pub open spec fn sanitized(text: Seq<u8>) -> Seq<u8>
    decreases text.len(),
{
    if text.len() == 0 {
        Seq::empty()
    } else {
        sanitized(text.drop_last()) + escaped_byte(text.last())
    }
}

/// The ASCII bytes of what was sent over the serial port.
pub fn printable_serial(serial: &[u8]) -> (text: Vec<u8>)
    ensures
        text@ == printable(serial@),
{
    let mut text: Vec<u8> = Vec::new();
    let mut index: usize = 0;
    while index < serial.len()
        invariant
            index <= serial@.len(),
            text@ == printable(serial@.take(index as int)),
        decreases serial@.len() - index,
    {
        let serial_byte: u8 = serial[index];
        assert(serial@.take(index + 1).drop_last() =~= serial@.take(index as int));
        if serial_byte < 128 {
            text.push(serial_byte);
        }
        index += 1;
    }
    assert(serial@.take(index as int) =~= serial@);
    text
}

/// Whether a byte is ASCII white space.
pub fn is_ascii_space(byte: u8) -> (space: bool)
    ensures
        space == is_space(byte),
{
    byte == 0x20 || (0x09 <= byte && byte <= 0x0d)
}

proof fn lemma_leading_spaces(text: Seq<u8>, count: int)
    requires
        0 <= count <= text.len(),
        forall|i: int| 0 <= i < count ==> is_space(#[trigger] text[i]),
        count == text.len() || !is_space(text[count]),
    ensures
        leading_spaces(text) == count,
    decreases count,
{
    if count > 0 {
        let rest = text.drop_first();
        assert forall|i: int| 0 <= i < count - 1 implies is_space(#[trigger] rest[i]) by {
            assert(rest[i] == text[i + 1]);
        }
        lemma_leading_spaces(rest, count - 1);
    }
}

proof fn lemma_trailing_spaces(text: Seq<u8>, count: int)
    requires
        0 <= count <= text.len(),
        forall|i: int| text.len() - count <= i < text.len() ==> is_space(#[trigger] text[i]),
        count == text.len() || !is_space(text[text.len() - count - 1]),
    ensures
        trailing_spaces(text) == count,
    decreases count,
{
    if count > 0 {
        let rest = text.drop_last();
        assert forall|i: int| rest.len() - (count - 1) <= i < rest.len() implies is_space(
            #[trigger] rest[i],
        ) by {
            assert(rest[i] == text[i]);
        }
        lemma_trailing_spaces(rest, count - 1);
    }
}

/// A text without the white space at its start and at its end.
pub fn trim(text: &[u8]) -> (result: Vec<u8>)
    ensures
        result@ == trimmed(text@),
{
    let mut start: usize = 0;
    while start < text.len() && is_ascii_space(text[start])
        invariant
            start <= text@.len(),
            forall|i: int| 0 <= i < start ==> is_space(#[trigger] text@[i]),
        decreases text@.len() - start,
    {
        start += 1;
    }
    proof {
        lemma_leading_spaces(text@, start as int);
    }
    let mut result: Vec<u8> = Vec::new();
    if start == text.len() {
        return result;
    }
    let mut end: usize = text.len();
    while end > start && is_ascii_space(text[end - 1])
        invariant
            start < end <= text@.len(),
            !is_space(text@[start as int]),
            forall|i: int| end <= i < text@.len() ==> is_space(#[trigger] text@[i]),
        decreases end,
    {
        end -= 1;
    }
    proof {
        lemma_trailing_spaces(text@, text@.len() - end);
    }
    let mut index: usize = start;
    while index < end
        invariant
            start <= index <= end <= text@.len(),
            result@ == text@.subrange(start as int, index as int),
        decreases end - index,
    {
        result.push(text[index]);
        assert(text@.subrange(start as int, index + 1) =~= text@.subrange(
            start as int,
            index as int,
        ).push(text@[index as int]));
        index += 1;
    }
    result
}

/// An ASCII letter as its lower-case form, and any other byte as itself.
pub fn to_lower(byte: u8) -> (lower: u8)
    ensures
        lower == lowered(byte),
{
    if 0x41 <= byte && byte <= 0x5a {
        byte + 0x20
    } else {
        byte
    }
}

/// Whether `word` stands in `text` at `position`.
pub fn matches_at(text: &[u8], word: &[u8], position: usize) -> (found: bool)
    requires
        position + word@.len() <= text@.len(),
    ensures
        found == stands_at(text@, word@, position as int),
{
    let length: usize = text.len();
    let mut offset: usize = 0;
    while offset < word.len()
        invariant
            offset <= word@.len(),
            length == text@.len(),
            position + word@.len() <= length,
            forall|done: int|
                0 <= done < offset ==> lowered(#[trigger] text@[position + done]) == word@[done],
        decreases word@.len() - offset,
    {
        if to_lower(text[position + offset]) != word[offset] {
            return false;
        }
        offset += 1;
    }
    true
}

/// Whether `word` stands anywhere in `text`, letters of either case in the
/// text counting as lower case.
pub fn contains_word(text: &[u8], word: &[u8]) -> (found: bool)
    ensures
        found == mentions(text@, word@),
{
    if word.len() > text.len() {
        assert forall|position: int| !stands_at(text@, word@, position) by {}
        return false;
    }
    let last: usize = text.len() - word.len();
    let mut position: usize = 0;
    while position < last
        invariant
            position <= last,
            last == text@.len() - word@.len(),
            forall|earlier: int| 0 <= earlier < position ==> !stands_at(text@, word@, earlier),
        decreases last - position,
    {
        if matches_at(text, word, position) {
            return true;
        }
        position += 1;
    }
    matches_at(text, word, last)
}

/// Judges a text whose runs of white space have been shrunk.
pub fn judge(collapsed: &[u8]) -> (verdict: Result<Vec<u8>, Vec<u8>>)
    ensures
        match verdict {
            Ok(text) => judged(collapsed@) == Ok::<Seq<u8>, Seq<u8>>(text@),
            Err(text) => judged(collapsed@) == Err::<Seq<u8>, Seq<u8>>(text@),
        },
{
    let text = trim(collapsed);
    let word: [u8; 6] = [0x70, 0x61, 0x73, 0x73, 0x65, 0x64];
    assert(word@ =~= passed_word());
    if contains_word(text.as_slice(), word.as_slice()) {
        Ok(text)
    } else {
        Err(text)
    }
}

/// Judges what a program under test has sent over the serial port: of its
/// ASCII bytes, every run of white space is shrunk to one space by the
/// regular expression `\s+`, and the outcome is judged. Gives nothing where
/// the regular expression does not compile.
pub fn serial_verdict(serial: &[u8]) -> (verdict: Option<Result<Vec<u8>, Vec<u8>>>)
    ensures
        match regex_replaced("\\s+"@, printable(serial@), seq![0x20u8]) {
            Some(collapsed) => match verdict {
                Some(Ok(text)) => judged(collapsed) == Ok::<Seq<u8>, Seq<u8>>(text@),
                Some(Err(text)) => judged(collapsed) == Err::<Seq<u8>, Seq<u8>>(text@),
                None => false,
            },
            None => verdict is None,
        },
{
    let text = printable_serial(serial);
    let space: [u8; 1] = [0x20];
    assert(space@ =~= seq![0x20u8]);
    match regex_replace_all("\\s+", text.as_slice(), space.as_slice()) {
        Some(collapsed) => Some(judge(collapsed.as_slice())),
        None => None,
    }
}

/// Writes a text as it stands on an HTML page.
pub fn sanitize_html_text(text: &[u8]) -> (safe: Vec<u8>)
    ensures
        safe@ == sanitized(text@),
{
    let mut safe: Vec<u8> = Vec::new();
    let mut index: usize = 0;
    while index < text.len()
        invariant
            index <= text@.len(),
            safe@ == sanitized(text@.take(index as int)),
        decreases text@.len() - index,
    {
        let byte: u8 = text[index];
        let ghost before = safe@;
        assert(text@.take(index + 1).drop_last() =~= text@.take(index as int));
        if byte == 0x26 {
            safe.push(0x26);
            safe.push(0x61);
            safe.push(0x6d);
            safe.push(0x70);
        } else if byte == 0x3c {
            safe.push(0x26);
            safe.push(0x6c);
            safe.push(0x74);
        } else if byte == 0x3e {
            safe.push(0x26);
            safe.push(0x67);
            safe.push(0x74);
        } else if byte == 0x22 {
            safe.push(0x26);
            safe.push(0x71);
            safe.push(0x75);
            safe.push(0x6f);
            safe.push(0x74);
        } else if byte == 0x27 {
            safe.push(0x26);
            safe.push(0x23);
            safe.push(0x33);
            safe.push(0x39);
        } else {
            safe.push(byte);
        }
        assert(safe@ =~= before + escaped_byte(byte));
        index += 1;
    }
    assert(text@.take(index as int) =~= text@);
    safe
}

} // verus!
