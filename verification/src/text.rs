//! Text as a sequence of characters: comparing, trimming, splitting into lines, joining,
//! shortening, and writing numbers.
use vstd::prelude::*;
use vstd::utf8::encode_utf8;

verus! {

/// The mark that stands for text that was left out.
pub const TRAILOFF: char = '\u{2026}';

/// `String::push`: the character is added at the end and nothing else changes.
pub assume_specification[ String::push ](text: &mut String, c: char)
    ensures
        final(text)@ == old(text)@.push(c),
;

/// The characters with the Unicode property `White_Space`.
pub open spec fn is_white_space(c: char) -> bool {
    ||| '\u{9}' <= c <= '\u{d}'
    ||| c == ' '
    ||| c == '\u{85}'
    ||| c == '\u{a0}'
    ||| c == '\u{1680}'
    ||| '\u{2000}' <= c <= '\u{200a}'
    ||| c == '\u{2028}'
    ||| c == '\u{2029}'
    ||| c == '\u{202f}'
    ||| c == '\u{205f}'
    ||| c == '\u{3000}'
}

/// A character that ends a line or is part of its ending.
pub open spec fn is_line_end(c: char) -> bool {
    c == '\n' || c == '\r'
}

/// `text` without its longest prefix of white space.
pub open spec fn trim_start_of(text: Seq<char>) -> Seq<char>
    decreases text.len(),
{
    if text.len() > 0 && is_white_space(text[0]) {
        trim_start_of(text.skip(1))
    } else {
        text
    }
}

/// `text` without its longest suffix of white space.
pub open spec fn trim_end_of(text: Seq<char>) -> Seq<char>
    decreases text.len(),
{
    if text.len() > 0 && is_white_space(text.last()) {
        trim_end_of(text.drop_last())
    } else {
        text
    }
}

/// `text` without the white space around it.
pub open spec fn trim_of(text: Seq<char>) -> Seq<char> {
    trim_end_of(trim_start_of(text))
}

/// `text` without its longest suffix of line feeds and carriage returns.
pub open spec fn trim_line_end_of(text: Seq<char>) -> Seq<char>
    decreases text.len(),
{
    if text.len() > 0 && is_line_end(text.last()) {
        trim_line_end_of(text.drop_last())
    } else {
        text
    }
}

/// How many characters stand before the first line feed, or all of them where there is none.
pub open spec fn first_line_len(text: Seq<char>) -> nat
    decreases text.len(),
{
    if text.len() == 0 || text[0] == '\n' {
        0
    } else {
        1 + first_line_len(text.skip(1))
    }
}

/// A line that was ended by a line feed, without the carriage return before that line feed.
pub open spec fn strip_carriage_return(line: Seq<char>) -> Seq<char> {
    if line.len() > 0 && line.last() == '\r' {
        line.drop_last()
    } else {
        line
    }
}

/// The lines of `text`. A line ends at a line feed, or at a carriage return and line feed; the
/// last line needs no ending.
pub open spec fn lines_of(text: Seq<char>) -> Seq<Seq<char>>
    decreases text.len(),
{
    let len = first_line_len(text);
    if text.len() == 0 {
        seq![]
    } else if len >= text.len() {
        seq![text]
    } else {
        seq![strip_carriage_return(text.take(len as int))] + lines_of(text.skip(len as int + 1))
    }
}

/// The parts one after the other, with `separator` between each two.
pub open spec fn join_of(parts: Seq<Seq<char>>, separator: Seq<char>) -> Seq<char>
    decreases parts.len(),
{
    if parts.len() == 0 {
        seq![]
    } else if parts.len() == 1 {
        parts[0]
    } else {
        join_of(parts.drop_last(), separator) + separator + parts.last()
    }
}

/// The decimal digit for a number below ten.
pub open spec fn digit_of(n: nat) -> char {
    if n == 0 {
        '0'
    } else if n == 1 {
        '1'
    } else if n == 2 {
        '2'
    } else if n == 3 {
        '3'
    } else if n == 4 {
        '4'
    } else if n == 5 {
        '5'
    } else if n == 6 {
        '6'
    } else if n == 7 {
        '7'
    } else if n == 8 {
        '8'
    } else {
        '9'
    }
}

/// A natural number in decimal, without leading zeros.
pub open spec fn decimal_of(n: nat) -> Seq<char>
    decreases n,
{
    if n < 10 {
        seq![digit_of(n)]
    } else {
        decimal_of(n / 10).push(digit_of(n % 10))
    }
}

/// An integer in decimal, with a minus sign where it is negative.
pub open spec fn signed_decimal_of(n: int) -> Seq<char> {
    if n < 0 {
        seq!['-'] + decimal_of((-n) as nat)
    } else {
        decimal_of(n as nat)
    }
}

/// `text`, or its first `max_chars` characters and the mark for left-out text where it is longer.
pub open spec fn truncated(text: Seq<char>, max_chars: nat) -> Seq<char> {
    if text.len() <= max_chars {
        text
    } else {
        text.take(max_chars as int).push(TRAILOFF)
    }
}

/// The lines of `text` where there are fewer than `max_lines`; else all but the last of the first
/// `max_lines` lines, and the mark for left-out text on a line of its own.
pub open spec fn truncated_lines(text: Seq<char>, max_lines: nat) -> Seq<char> {
    let lines = lines_of(text);
    if lines.len() < max_lines {
        join_of(lines, seq!['\n'])
    } else {
        join_of(lines.take(max_lines - 1), seq!['\n']) + seq!['\n', TRAILOFF]
    }
}

/// The characters of each text of a list.
pub open spec fn texts(list: Seq<String>) -> Seq<Seq<char>> {
    Seq::new(list.len(), |i: int| list[i]@)
}

/// The characters of a text that may be missing.
pub open spec fn optional_text(text: Option<String>) -> Option<Seq<char>> {
    match text {
        Some(text) => Some(text@),
        None => None,
    }
}

/// The characters of a borrowed text that may be missing.
pub open spec fn optional_str(text: Option<&str>) -> Option<Seq<char>> {
    match text {
        Some(text) => Some(text@),
        None => None,
    }
}

/// Whether two texts hold the same characters.
pub fn same_text(a: &str, b: &str) -> (same: bool)
    ensures
        same == (a@ == b@),
{
    proof {
        vstd::utf8::encode_utf8_decode_utf8(a@);
        vstd::utf8::encode_utf8_decode_utf8(b@);
    }
    let x = a.as_bytes();
    let y = b.as_bytes();
    if x.len() != y.len() {
        return false;
    }
    let mut i: usize = 0;
    while i < x.len()
        invariant
            x@ == encode_utf8(a@),
            y@ == encode_utf8(b@),
            x@.len() == y@.len(),
            i <= x@.len(),
            forall|j: int| 0 <= j < i ==> x@[j] == y@[j],
        decreases x@.len() - i,
    {
        if x[i] != y[i] {
            return false;
        }
        i = i + 1;
    }
    assert(x@ =~= y@);
    true
}

/// A copy of a text that may be missing.
pub fn copied(text: &Option<String>) -> (copy: Option<String>)
    ensures
        optional_text(copy) == optional_text(*text),
{
    match text {
        Some(text) => Some(text.clone()),
        None => None,
    }
}

/// A borrowed text that may be missing, as an owned one.
pub fn owned(text: Option<&str>) -> (copy: Option<String>)
    ensures
        optional_text(copy) == optional_str(text),
{
    match text {
        Some(text) => Some(text.to_owned()),
        None => None,
    }
}

/// A copy of a list of texts.
pub fn copied_list(list: &Vec<String>) -> (copy: Vec<String>)
    ensures
        texts(copy@) == texts(list@),
{
    let mut copy: Vec<String> = Vec::new();
    let mut i: usize = 0;
    while i < list.len()
        invariant
            i <= list@.len(),
            texts(copy@) == texts(list@).take(i as int),
        decreases list@.len() - i,
    {
        let ghost before = texts(copy@);
        copy.push(list[i].clone());
        assert(texts(copy@) =~= before.push(list@[i as int]@));
        i = i + 1;
    }
    assert(texts(list@).take(i as int) =~= texts(list@));
    copy
}

/// The characters of a text, in a list.
pub fn chars_of(text: &str) -> (chars: Vec<char>)
    ensures
        chars@ == text@,
{
    let mut chars: Vec<char> = Vec::new();
    for c in it: text.chars()
        invariant
            chars@ == it.seq().take(it.index() as int),
            it.seq() == text@,
    {
        chars.push(c);
    }
    chars
}

/// The text that the characters from `start` up to `end` spell.
pub fn text_between(chars: &Vec<char>, start: usize, end: usize) -> (text: String)
    requires
        start <= end <= chars@.len(),
    ensures
        text@ == chars@.subrange(start as int, end as int),
{
    let mut text = String::new();
    let mut i: usize = start;
    while i < end
        invariant
            start <= i <= end <= chars@.len(),
            text@ == chars@.subrange(start as int, i as int),
        decreases end - i,
    {
        text.push(chars[i]);
        i = i + 1;
    }
    text
}

fn white_space(c: char) -> (yes: bool)
    ensures
        yes == is_white_space(c),
{
    ('\u{9}' <= c && c <= '\u{d}') || c == ' ' || c == '\u{85}' || c == '\u{a0}' || c == '\u{1680}'
        || ('\u{2000}' <= c && c <= '\u{200a}') || c == '\u{2028}' || c == '\u{2029}' || c
        == '\u{202f}' || c == '\u{205f}' || c == '\u{3000}'
}

/// A text without the white space around it.
pub fn trim(text: &str) -> (trimmed: String)
    ensures
        trimmed@ == trim_of(text@),
{
    let chars = chars_of(text);
    let mut start: usize = 0;
    assert(chars@.skip(0) =~= chars@);
    while start < chars.len() && white_space(chars[start])
        invariant
            chars@ == text@,
            start <= chars@.len(),
            trim_start_of(text@) == trim_start_of(chars@.skip(start as int)),
        decreases chars@.len() - start,
    {
        assert(chars@.skip(start as int).skip(1) =~= chars@.skip(start + 1));
        start = start + 1;
    }
    let ghost rest = chars@.skip(start as int);
    assert(trim_start_of(text@) == rest);
    let mut end: usize = chars.len();
    assert(chars@.subrange(start as int, end as int) =~= rest);
    while start < end && white_space(chars[end - 1])
        invariant
            start <= end <= chars@.len(),
            trim_end_of(rest) == trim_end_of(chars@.subrange(start as int, end as int)),
        decreases end - start,
    {
        assert(chars@.subrange(start as int, end as int).drop_last() =~= chars@.subrange(
            start as int,
            end - 1,
        ));
        end = end - 1;
    }
    text_between(&chars, start, end)
}

/// A text without the line feeds and carriage returns at its end.
pub fn trim_line_end(text: &str) -> (trimmed: String)
    ensures
        trimmed@ == trim_line_end_of(text@),
{
    let chars = chars_of(text);
    let mut end: usize = chars.len();
    assert(chars@.subrange(0, end as int) =~= text@);
    while 0 < end && (chars[end - 1] == '\n' || chars[end - 1] == '\r')
        invariant
            end <= chars@.len(),
            trim_line_end_of(text@) == trim_line_end_of(chars@.subrange(0, end as int)),
        decreases end,
    {
        assert(chars@.subrange(0, end as int).drop_last() =~= chars@.subrange(0, end - 1));
        end = end - 1;
    }
    text_between(&chars, 0, end)
}

pub(crate) proof fn lemma_first_line_len(text: Seq<char>, len: int)
    requires
        0 <= len <= text.len(),
        forall|i: int| 0 <= i < len ==> text[i] != '\n',
        len < text.len() ==> text[len] == '\n',
    ensures
        first_line_len(text) == len,
    decreases len,
{
    if len > 0 {
        lemma_first_line_len(text.skip(1), len - 1);
    }
}

/// The lines of a text.
pub fn lines(text: &str) -> (lines: Vec<String>)
    ensures
        texts(lines@) == lines_of(text@),
{
    let chars = chars_of(text);
    let mut lines: Vec<String> = Vec::new();
    let mut start: usize = 0;
    let mut i: usize = 0;
    assert(chars@.skip(0) =~= text@);
    assert(texts(lines@) + lines_of(text@) =~= lines_of(text@));
    while i < chars.len()
        invariant
            chars@ == text@,
            start <= i <= chars@.len(),
            forall|j: int| start <= j < i ==> chars@[j] != '\n',
            texts(lines@) + lines_of(chars@.skip(start as int)) == lines_of(text@),
        decreases chars@.len() - i,
    {
        if chars[i] == '\n' {
            let end: usize = if start < i && chars[i - 1] == '\r' {
                i - 1
            } else {
                i
            };
            let line = text_between(&chars, start, end);
            let ghost rest = chars@.skip(start as int);
            let ghost before = texts(lines@);
            proof {
                lemma_first_line_len(rest, i - start);
                assert(rest.skip(i - start + 1) =~= chars@.skip(i + 1));
                assert(strip_carriage_return(rest.take(i - start)) =~= line@);
            }
            lines.push(line);
            assert(texts(lines@) =~= before.push(line@));
            assert(before + (seq![line@] + lines_of(chars@.skip(i + 1))) =~= before.push(line@)
                + lines_of(chars@.skip(i + 1)));
            start = i + 1;
        }
        i = i + 1;
    }
    let ghost rest = chars@.skip(start as int);
    let ghost before = texts(lines@);
    proof {
        lemma_first_line_len(rest, rest.len() as int);
    }
    if start < chars.len() {
        let line = text_between(&chars, start, chars.len());
        assert(line@ =~= rest);
        lines.push(line);
        assert(texts(lines@) =~= before + seq![rest]);
    } else {
        assert(before + lines_of(rest) =~= before);
    }
    lines
}

/// The texts of a list one after the other, with `separator` between each two.
pub fn join(parts: &Vec<String>, separator: &str) -> (joined: String)
    ensures
        joined@ == join_of(texts(parts@), separator@),
{
    let mut joined = String::new();
    let mut i: usize = 0;
    let ghost all = texts(parts@);
    while i < parts.len()
        invariant
            i <= parts@.len(),
            all == texts(parts@),
            joined@ == join_of(all.take(i as int), separator@),
        decreases parts@.len() - i,
    {
        if i > 0 {
            joined.append(separator);
        }
        joined.append(parts[i].as_str());
        proof {
            assert(all.take(i + 1).drop_last() =~= all.take(i as int));
            if i == 0 {
                assert(joined@ =~= parts@[0]@);
            }
        }
        i = i + 1;
    }
    assert(all.take(i as int) =~= all);
    joined
}

/// Whether a text begins with `prefix`.
pub fn starts_with(text: &str, prefix: &str) -> (yes: bool)
    ensures
        yes == prefix@.is_prefix_of(text@),
{
    let chars = chars_of(text);
    let wanted = chars_of(prefix);
    if wanted.len() > chars.len() {
        return false;
    }
    let mut i: usize = 0;
    while i < wanted.len()
        invariant
            chars@ == text@,
            wanted@ == prefix@,
            wanted@.len() <= chars@.len(),
            i <= wanted@.len(),
            forall|j: int| 0 <= j < i ==> wanted@[j] == chars@[j],
        decreases wanted@.len() - i,
    {
        if wanted[i] != chars[i] {
            assert(text@.subrange(0, prefix@.len() as int)[i as int] != prefix@[i as int]);
            return false;
        }
        i = i + 1;
    }
    assert(text@.subrange(0, prefix@.len() as int) =~= prefix@);
    true
}

/// Whether a text ends with `suffix`.
pub fn ends_with(text: &str, suffix: &str) -> (yes: bool)
    ensures
        yes == suffix@.is_suffix_of(text@),
{
    let chars = chars_of(text);
    let wanted = chars_of(suffix);
    if wanted.len() > chars.len() {
        return false;
    }
    let offset: usize = chars.len() - wanted.len();
    let ghost tail = text@.subrange(text@.len() - suffix@.len(), text@.len() as int);
    let mut i: usize = 0;
    while i < wanted.len()
        invariant
            chars@ == text@,
            wanted@ == suffix@,
            offset + wanted.len() == chars.len(),
            tail == text@.subrange(text@.len() - suffix@.len(), text@.len() as int),
            i <= wanted@.len(),
            forall|j: int| 0 <= j < i ==> wanted@[j] == chars@[offset + j],
        decreases wanted@.len() - i,
    {
        if wanted[i] != chars[offset + i] {
            assert(tail[i as int] != suffix@[i as int]);
            return false;
        }
        i = i + 1;
    }
    assert(tail =~= suffix@);
    true
}

fn digit(n: u64) -> (c: char)
    requires
        n < 10,
    ensures
        c == digit_of(n as nat),
{
    if n == 0 {
        '0'
    } else if n == 1 {
        '1'
    } else if n == 2 {
        '2'
    } else if n == 3 {
        '3'
    } else if n == 4 {
        '4'
    } else if n == 5 {
        '5'
    } else if n == 6 {
        '6'
    } else if n == 7 {
        '7'
    } else if n == 8 {
        '8'
    } else {
        '9'
    }
}

/// A natural number in decimal.
pub fn decimal(n: u64) -> (text: String)
    ensures
        text@ == decimal_of(n as nat),
    decreases n,
{
    if n < 10 {
        let mut text = String::new();
        text.push(digit(n));
        assert(text@ =~= seq![digit_of(n as nat)]);
        text
    } else {
        let mut text = decimal(n / 10);
        text.push(digit(n % 10));
        text
    }
}

/// An integer in decimal.
pub fn signed_decimal(n: i32) -> (text: String)
    ensures
        text@ == signed_decimal_of(n as int),
{
    if n < 0 {
        let mut text = String::new();
        text.push('-');
        let magnitude = decimal((-(n as i64)) as u64);
        text.append(magnitude.as_str());
        assert(text@ =~= seq!['-'] + magnitude@);
        text
    } else {
        decimal(n as u64)
    }
}

/// Shortens a text to `max_chars` characters and marks that something was left out. A text that
/// is no longer than that is returned unchanged.
pub fn truncate_and_trailoff(text: &str, max_chars: usize) -> (shortened: String)
    ensures
        shortened@ == truncated(text@, max_chars as nat),
{
    let chars = chars_of(text);
    if chars.len() <= max_chars {
        text.to_owned()
    } else {
        let mut shortened = text_between(&chars, 0, max_chars);
        assert(chars@.subrange(0, max_chars as int) =~= text@.take(max_chars as int));
        shortened.push(TRAILOFF);
        shortened
    }
}

/// Shortens a text to `max_lines` lines, of which the last says that something was left out. A
/// text of fewer lines keeps them all.
pub fn truncate_lines_and_trailoff(text: &str, max_lines: usize) -> (shortened: String)
    requires
        max_lines >= 1,
    ensures
        shortened@ == truncated_lines(text@, max_lines as nat),
{
    let mut kept = lines(text);
    proof {
        reveal_strlit("\n");
        assert("\n"@ =~= seq!['\n']);
    }
    if kept.len() < max_lines {
        join(&kept, "\n")
    } else {
        let ghost all = texts(kept@);
        kept.truncate(max_lines - 1);
        assert(texts(kept@) =~= all.take(max_lines - 1));
        let mut shortened = join(&kept, "\n");
        let ghost before = shortened@;
        shortened.push('\n');
        shortened.push(TRAILOFF);
        assert(shortened@ =~= before + seq!['\n', TRAILOFF]);
        shortened
    }
}

/// How many line feeds there are in a text.
pub open spec fn line_feeds(text: Seq<char>) -> nat
    decreases text.len(),
{
    if text.len() == 0 {
        0
    } else if text.last() == '\n' {
        line_feeds(text.drop_last()) + 1
    } else {
        line_feeds(text.drop_last())
    }
}

proof fn lemma_line_feeds_add(a: Seq<char>, b: Seq<char>)
    ensures
        line_feeds(a + b) == line_feeds(a) + line_feeds(b),
    decreases b.len(),
{
    if b.len() == 0 {
        assert(a + b =~= a);
    } else {
        lemma_line_feeds_add(a, b.drop_last());
        assert((a + b).drop_last() =~= a + b.drop_last());
        assert((a + b).last() == b.last());
    }
}

proof fn lemma_no_line_feeds(text: Seq<char>)
    requires
        forall|i: int| 0 <= i < text.len() ==> text[i] != '\n',
    ensures
        line_feeds(text) == 0,
    decreases text.len(),
{
    if text.len() > 0 {
        lemma_no_line_feeds(text.drop_last());
    }
}

proof fn lemma_first_line_has_no_line_feed(text: Seq<char>)
    ensures
        first_line_len(text) <= text.len(),
        forall|i: int| 0 <= i < first_line_len(text) ==> text[i] != '\n',
    decreases text.len(),
{
    if text.len() > 0 && text[0] != '\n' {
        let rest = text.skip(1);
        lemma_first_line_has_no_line_feed(rest);
        assert forall|i: int| 0 <= i < first_line_len(text) implies text[i] != '\n' by {
            if i > 0 {
                assert(text[i] == rest[i - 1]);
            }
        }
    }
}

/// No line of a text holds a line feed.
pub proof fn law_lines_hold_no_line_feed(text: Seq<char>)
    ensures
        forall|i: int|
            0 <= i < lines_of(text).len() ==> line_feeds(#[trigger] lines_of(text)[i]) == 0,
    decreases text.len(),
{
    let len = first_line_len(text);
    lemma_first_line_has_no_line_feed(text);
    if text.len() > 0 {
        if len >= text.len() {
            lemma_no_line_feeds(text);
        } else {
            let first = strip_carriage_return(text.take(len as int));
            let rest = text.skip(len as int + 1);
            lemma_no_line_feeds(first);
            law_lines_hold_no_line_feed(rest);
            assert forall|i: int| 0 <= i < lines_of(text).len() implies line_feeds(
                #[trigger] lines_of(text)[i],
            ) == 0 by {
                if i > 0 {
                    assert(lines_of(text)[i] == lines_of(rest)[i - 1]);
                }
            }
        }
    }
}

proof fn lemma_joined_line_feeds(parts: Seq<Seq<char>>)
    requires
        forall|i: int| 0 <= i < parts.len() ==> line_feeds(#[trigger] parts[i]) == 0,
    ensures
        line_feeds(join_of(parts, seq!['\n'])) == if parts.len() == 0 {
            0
        } else {
            parts.len() - 1
        },
    decreases parts.len(),
{
    if parts.len() == 1 {
        assert(line_feeds(parts[0]) == 0);
    } else if parts.len() > 1 {
        let rest = parts.drop_last();
        lemma_joined_line_feeds(rest);
        let separator = seq!['\n'];
        assert(separator.drop_last() =~= seq![]);
        assert(line_feeds(separator.drop_last()) == 0);
        assert(line_feeds(separator) == 1);
        lemma_line_feeds_add(join_of(rest, separator), separator);
        lemma_line_feeds_add(join_of(rest, separator) + separator, parts.last());
        assert(line_feeds(parts[parts.len() - 1]) == 0);
    }
}

/// A text that was shortened to a number of lines has no more lines than that.
pub proof fn law_shortened_text_has_few_lines(text: Seq<char>, max_lines: nat)
    requires
        max_lines >= 2,
    ensures
        line_feeds(truncated_lines(text, max_lines)) < max_lines,
{
    let lines = lines_of(text);
    law_lines_hold_no_line_feed(text);
    if lines.len() < max_lines {
        lemma_joined_line_feeds(lines);
    } else {
        let kept = lines.take(max_lines - 1);
        assert forall|i: int| 0 <= i < kept.len() implies line_feeds(#[trigger] kept[i]) == 0 by {
            assert(kept[i] == lines[i]);
        }
        lemma_joined_line_feeds(kept);
        let end = seq!['\n', TRAILOFF];
        let feed = end.drop_last();
        assert(feed.last() == '\n');
        assert(line_feeds(feed.drop_last()) == 0);
        assert(line_feeds(feed) == 1);
        assert(line_feeds(end) == 1);
        lemma_line_feeds_add(join_of(kept, seq!['\n']), end);
    }
}

/// A text that was shortened to a number of characters has no more than those and the mark for
/// left-out text, and begins as the text does. A text that is short enough is unchanged.
pub proof fn law_shortened_text_is_short(text: Seq<char>, max_chars: nat)
    ensures
        truncated(text, max_chars).len() <= max_chars + 1,
        text.len() <= max_chars ==> truncated(text, max_chars) == text,
        text.len() > max_chars ==> {
            &&& truncated(text, max_chars).last() == TRAILOFF
            &&& truncated(text, max_chars).drop_last().is_prefix_of(text)
        },
{
    if text.len() > max_chars {
        assert(truncated(text, max_chars).drop_last() =~= text.subrange(0, max_chars as int));
    }
}

proof fn lemma_trim_end(text: Seq<char>)
    ensures
        trim_end_of(text).len() <= text.len(),
        trim_end_of(text) == text.take(trim_end_of(text).len() as int),
        trim_end_of(text).len() > 0 ==> !is_white_space(trim_end_of(text).last()),
        text.len() > 0 && !is_white_space(text[0]) ==> trim_end_of(text).len() > 0,
    decreases text.len(),
{
    if text.len() > 0 && is_white_space(text.last()) {
        lemma_trim_end(text.drop_last());
        let n = trim_end_of(text).len() as int;
        assert(text.drop_last().take(n) =~= text.take(n));
    } else {
        assert(text.take(text.len() as int) =~= text);
    }
}

proof fn lemma_trim_start(text: Seq<char>)
    ensures
        trim_start_of(text).len() > 0 ==> !is_white_space(trim_start_of(text)[0]),
    decreases text.len(),
{
    if text.len() > 0 && is_white_space(text[0]) {
        lemma_trim_start(text.skip(1));
    }
}

/// There is no white space around a text that was trimmed, and to trim it again changes nothing.
pub proof fn law_trimmed_text_has_no_white_space_around(text: Seq<char>)
    ensures
        trim_of(text).len() > 0 ==> !is_white_space(trim_of(text)[0]) && !is_white_space(
            trim_of(text).last(),
        ),
        trim_of(trim_of(text)) == trim_of(text),
{
    let start = trim_start_of(text);
    lemma_trim_start(text);
    lemma_trim_end(start);
    if trim_of(text).len() > 0 {
        assert(trim_of(text)[0] == start[0]);
    }
}

} // verus!
