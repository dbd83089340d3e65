//! Laws of text.
use crate::text::{
    decimal_of, is_white_space, join_of, lemma_first_line_len, lines_of, optional_str,
    optional_text, signed_decimal_of, texts, trim_end_of, trim_line_end_of, trim_of,
    trim_start_of, truncated, truncated_lines,
};
use vstd::prelude::*;

verus! {

proof fn lemma_trim_start_drops_white_space(text: Seq<char>) -> (start: int)
    ensures
        0 <= start <= text.len(),
        trim_start_of(text) == text.skip(start),
        forall|i: int| 0 <= i < start ==> is_white_space(#[trigger] text[i]),
    decreases text.len(),
{
    if text.len() > 0 && is_white_space(text[0]) {
        let rest = text.skip(1);
        let n = lemma_trim_start_drops_white_space(rest);
        assert(rest.skip(n) =~= text.skip(n + 1));
        assert forall|i: int| 0 <= i < n + 1 implies is_white_space(#[trigger] text[i]) by {
            if i > 0 {
                assert(text[i] == rest[i - 1]);
            }
        }
        n + 1
    } else {
        assert(text.skip(0) =~= text);
        0
    }
}

proof fn lemma_trim_end_drops_white_space(text: Seq<char>) -> (end: int)
    ensures
        0 <= end <= text.len(),
        trim_end_of(text) == text.take(end),
        forall|i: int| end <= i < text.len() ==> is_white_space(#[trigger] text[i]),
    decreases text.len(),
{
    if text.len() > 0 && is_white_space(text.last()) {
        let rest = text.drop_last();
        let n = lemma_trim_end_drops_white_space(rest);
        assert(rest.take(n) =~= text.take(n));
        assert forall|i: int| n <= i < text.len() implies is_white_space(#[trigger] text[i]) by {
            if i < rest.len() {
                assert(text[i] == rest[i]);
            }
        }
        n
    } else {
        assert(text.take(text.len() as int) =~= text);
        text.len() as int
    }
}

/// To trim a text takes away nothing but white space, and only around it: what is left stands in
/// the text in one piece, and there is only white space before and after it.
pub proof fn law_trimming_takes_only_white_space(text: Seq<char>)
    ensures
        exists|start: int, end: int|
            0 <= start <= end <= text.len() && #[trigger] text.subrange(start, end) == trim_of(text)
                && (forall|i: int|
                0 <= i < text.len() && !(start <= i < end) ==> is_white_space(#[trigger] text[i])),
{
    let start = lemma_trim_start_drops_white_space(text);
    let rest = text.skip(start);
    let n = lemma_trim_end_drops_white_space(rest);
    let end = start + n;
    assert(text.subrange(start, end) =~= rest.take(n));
    assert forall|i: int| 0 <= i < text.len() && !(start <= i < end) implies is_white_space(
        #[trigger] text[i],
    ) by {
        if i >= end {
            assert(text[i] == rest[i - start]);
        }
    }
}

/// A text that neither begins nor ends with white space is not changed by trimming it.
pub proof fn law_trimming_keeps_tight_text(text: Seq<char>)
    requires
        text.len() > 0 ==> !is_white_space(text[0]) && !is_white_space(text.last()),
    ensures
        trim_of(text) == text,
{
}

/// The space and the controls that move on a line or to another are white space; other ASCII
/// characters and the characters above the ideographic space are not.
pub proof fn law_ascii_white_space(c: char)
    ensures
        c <= '\u{7f}' ==> (is_white_space(c) <==> c == ' ' || c == '\t' || c == '\n' || c == '\r'
            || c == '\u{b}' || c == '\u{c}'),
        c > '\u{3000}' ==> !is_white_space(c),
{
}

/// To trim the end of a line takes away all line feeds and carriage returns at the end and
/// nothing else.
pub proof fn law_trimming_line_ends_takes_only_line_ends(text: Seq<char>)
    ensures
        trim_line_end_of(text).is_prefix_of(text),
        forall|i: int|
            trim_line_end_of(text).len() <= i < text.len() ==> #[trigger] text[i] == '\n' || text[i]
                == '\r',
        trim_line_end_of(text).len() > 0 ==> trim_line_end_of(text).last() != '\n'
            && trim_line_end_of(text).last() != '\r',
    decreases text.len(),
{
    if text.len() > 0 && (text.last() == '\n' || text.last() == '\r') {
        let rest = text.drop_last();
        law_trimming_line_ends_takes_only_line_ends(rest);
        let n = trim_line_end_of(rest).len() as int;
        assert(rest.subrange(0, n) =~= text.subrange(0, n));
        assert forall|i: int| n <= i < text.len() implies #[trigger] text[i] == '\n' || text[i]
            == '\r' by {
            if i < rest.len() {
                assert(text[i] == rest[i]);
            }
        }
    } else {
        assert(text.subrange(0, text.len() as int) =~= text);
    }
}

/// A text is split at its line feeds: what stands before the first one is the first line, without
/// a carriage return just before it, and what stands after it gives the other lines. A text
/// without a line feed is one line, unless it is empty.
pub proof fn law_lines_are_split_at_line_feeds(line: Seq<char>, rest: Seq<char>)
    requires
        forall|i: int| 0 <= i < line.len() ==> line[i] != '\n',
    ensures
        lines_of(line.push('\n') + rest) == seq![
            if line.len() > 0 && line.last() == '\r' {
                line.drop_last()
            } else {
                line
            },
        ] + lines_of(rest),
        line.len() > 0 ==> lines_of(line) == seq![line],
        line.len() == 0 ==> lines_of(line).len() == 0,
{
    let text = line.push('\n') + rest;
    lemma_first_line_len(text, line.len() as int);
    lemma_first_line_len(line, line.len() as int);
    assert(text.take(line.len() as int) =~= line);
    assert(text.skip(line.len() as int + 1) =~= rest);
}

/// Joined texts stand one after the other in full, with the separator between each two.
pub proof fn law_joined_texts_are_whole(
    text: Seq<char>,
    earlier: Seq<Seq<char>>,
    later: Seq<Seq<char>>,
    separator: Seq<char>,
)
    ensures
        join_of(seq![], separator) == Seq::<char>::empty(),
        join_of(seq![text], separator) == text,
        earlier.len() > 0 && later.len() > 0 ==> join_of(earlier + later, separator) == join_of(
            earlier,
            separator,
        ) + separator + join_of(later, separator),
    decreases later.len(),
{
    if earlier.len() > 0 && later.len() > 0 {
        let all = earlier + later;
        assert(all.last() == later.last());
        if later.len() == 1 {
            assert(all.drop_last() =~= earlier);
        } else {
            law_joined_texts_are_whole(text, earlier, later.drop_last(), separator);
            assert(all.drop_last() =~= earlier + later.drop_last());
            assert(join_of(all, separator) =~= join_of(earlier, separator) + separator + join_of(
                later,
                separator,
            ));
        }
    }
}

/// The number that decimal digits stand for.
pub open spec fn number_of(digits: Seq<char>) -> int
    decreases digits.len(),
{
    if digits.len() == 0 {
        0
    } else {
        10 * number_of(digits.drop_last()) + (digits.last() as int - '0' as int)
    }
}

/// A number in decimal is read as that number again. It is made of digits, and begins with a zero
/// only where it is zero.
pub proof fn law_decimal_is_read_back(n: nat)
    ensures
        number_of(decimal_of(n)) == n,
        decimal_of(n).len() > 0,
        forall|i: int|
            0 <= i < decimal_of(n).len() ==> '0' <= #[trigger] decimal_of(n)[i] <= '9',
        n > 0 ==> decimal_of(n)[0] != '0',
        n == 0 ==> decimal_of(n) == seq!['0'],
    decreases n,
{
    let digits = decimal_of(n);
    if n < 10 {
        assert(digits.drop_last() =~= seq![]);
        assert(number_of(digits.drop_last()) == 0);
    } else {
        law_decimal_is_read_back(n / 10);
        assert(digits.drop_last() =~= decimal_of(n / 10));
        assert forall|i: int| 0 <= i < digits.len() implies '0' <= #[trigger] digits[i] <= '9' by {
            if i < digits.len() - 1 {
                assert(digits[i] == decimal_of(n / 10)[i]);
            }
        }
        assert(digits[0] == decimal_of(n / 10)[0]);
    }
}

/// A negative number is its magnitude after a minus sign, and any other number has no sign.
pub proof fn law_signed_decimal_is_read_back(n: int)
    ensures
        n < 0 ==> signed_decimal_of(n).len() > 1 && signed_decimal_of(n)[0] == '-' && number_of(
            signed_decimal_of(n).skip(1),
        ) == -n,
        n >= 0 ==> number_of(signed_decimal_of(n)) == n && signed_decimal_of(n)[0] != '-',
{
    if n < 0 {
        law_decimal_is_read_back((-n) as nat);
        assert(signed_decimal_of(n).skip(1) =~= decimal_of((-n) as nat));
    } else {
        law_decimal_is_read_back(n as nat);
        assert('0' <= decimal_of(n as nat)[0]);
    }
}

/// A text that is too long keeps as many characters as are allowed, from its beginning, and only
/// one that is too long is changed.
pub proof fn law_shortened_text_keeps_what_is_allowed(text: Seq<char>, max_chars: nat)
    ensures
        text.len() <= max_chars ==> truncated(text, max_chars) == text,
        text.len() > max_chars ==> {
            &&& truncated(text, max_chars).len() == max_chars + 1
            &&& truncated(text, max_chars)[max_chars as int] == '\u{2026}'
            &&& forall|i: int|
                0 <= i < max_chars ==> #[trigger] truncated(text, max_chars)[i] == text[i]
        },
{
}

/// A text with fewer lines than are allowed keeps every one of them. One with more keeps the first
/// ones, but for the place that the mark for left-out text takes.
pub proof fn law_shortened_text_keeps_its_first_lines(text: Seq<char>, max_lines: nat)
    requires
        max_lines >= 1,
    ensures
        lines_of(text).len() < max_lines ==> truncated_lines(text, max_lines) == join_of(
            lines_of(text),
            "\n"@,
        ),
        lines_of(text).len() >= max_lines ==> {
            let shortened = truncated_lines(text, max_lines);
            let kept = shortened.len() - 2;
            &&& kept >= 0
            &&& shortened[kept] == '\n'
            &&& shortened[kept + 1] == '\u{2026}'
            &&& shortened.take(kept) == join_of(lines_of(text).take(max_lines - 1), "\n"@)
        },
{
    reveal_strlit("\n");
    assert("\n"@ =~= seq!['\n']);
    if lines_of(text).len() >= max_lines {
        let shortened = truncated_lines(text, max_lines);
        assert(shortened.take(shortened.len() - 2) =~= join_of(
            lines_of(text).take(max_lines - 1),
            "\n"@,
        ));
    }
}

/// The characters of a list of texts are those of each text, in full.
pub proof fn law_texts_are_whole(
    list: Seq<String>,
    text: Option<String>,
    borrowed: Option<&str>,
)
    ensures
        texts(list).len() == list.len(),
        forall|i: int| 0 <= i < list.len() ==> #[trigger] texts(list)[i] == list[i]@,
        text matches Some(t) ==> optional_text(text) == Some(t@),
        text is None ==> optional_text(text) is None,
        borrowed matches Some(t) ==> optional_str(borrowed) == Some(t@),
        borrowed is None ==> optional_str(borrowed) is None,
{
}

} // verus!
