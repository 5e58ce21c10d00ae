//! Message formatting, in four steps.
//!
//! First every run of whitespace collapses: a run that holds no line break
//! is incidental and becomes one space, a run that holds line breaks keeps
//! them and nothing else. Then a line break that a word follows gets a
//! second one, so that every paragraph starts behind an empty line. Then
//! three or more line breaks in a row are cut down to two. Last, the
//! whitespace at both ends is cut off.
//!
//! What comes out are the words of the message, parted by one space where
//! the whitespace between them held no line break and by a pair of line
//! breaks where it held one. Formatting a formatted message changes nothing.

use vstd::prelude::*;
use crate::text::{is_whitespace, is_whitespace_char, chars_of, string_of};

verus! {

/// What parts a word from the one before it.
#[derive(Clone, Copy, Debug, PartialEq, Eq, Structural)]
pub enum Gap {
    /// Nothing: the text is empty or ends in a word.
    Nothing,
    /// Whitespace without a line break.
    Space,
    /// Whitespace with a line break.
    Break,
}

/// The kind of the whitespace that `s` ends with.
pub open spec fn trailing_gap(s: Seq<char>) -> Gap
    decreases s.len(),
{
    if s.len() == 0 || !is_whitespace(s.last()) {
        Gap::Nothing
    } else if s.last() == '\n' || trailing_gap(s.drop_last()) == Gap::Break {
        Gap::Break
    } else {
        Gap::Space
    }
}

/// The text that a gap is written as: one space, or a pair of line breaks.
pub open spec fn gap_text(gap: Gap) -> Seq<char> {
    match gap {
        Gap::Nothing => Seq::empty(),
        Gap::Space => seq![' '],
        Gap::Break => seq!['\n', '\n'],
    }
}

/// The number of line breaks in the whitespace that `s` ends with.
pub open spec fn trailing_breaks(s: Seq<char>) -> nat
    decreases s.len(),
{
    if s.len() == 0 || !is_whitespace(s.last()) {
        0
    } else if s.last() == '\n' {
        trailing_breaks(s.drop_last()) + 1
    } else {
        trailing_breaks(s.drop_last())
    }
}

/// The first step: every run of whitespace collapses. A run without a line
/// break becomes one space; a run with line breaks keeps them and nothing
/// else.
pub open spec fn collapsed(s: Seq<char>) -> Seq<char>
    decreases s.len(),
{
    if s.len() == 0 {
        s
    } else {
        let before = s.drop_last();
        let c = s.last();
        if !is_whitespace(c) {
            collapsed(before).push(c)
        } else {
            match trailing_gap(before) {
                Gap::Nothing => collapsed(before).push(
                    if c == '\n' {
                        '\n'
                    } else {
                        ' '
                    },
                ),
                Gap::Space => if c == '\n' {
                    collapsed(before).drop_last().push('\n')
                } else {
                    collapsed(before)
                },
                Gap::Break => if c == '\n' {
                    collapsed(before).push('\n')
                } else {
                    collapsed(before)
                },
            }
        }
    }
}

/// The second step: a line break that a word follows gets a second line
/// break behind it.
pub open spec fn paragraphed(s: Seq<char>) -> Seq<char>
    decreases s.len(),
{
    if s.len() == 0 {
        s
    } else {
        let before = paragraphed(s.drop_last());
        let c = s.last();
        if s.len() >= 2 && s[s.len() - 2] == '\n' && !is_whitespace(c) {
            before.push('\n').push(c)
        } else {
            before.push(c)
        }
    }
}

/// The third step: every run of three or more line breaks is cut down to
/// two.
pub open spec fn squeezed(s: Seq<char>) -> Seq<char>
    decreases s.len(),
{
    if s.len() == 0 {
        s
    } else {
        let before = squeezed(s.drop_last());
        let c = s.last();
        if c == '\n' && s.len() >= 3 && s[s.len() - 2] == '\n' && s[s.len() - 3] == '\n' {
            before
        } else {
            before.push(c)
        }
    }
}

/// The number of whitespace characters that `s` starts with.
pub open spec fn leading_whitespace(s: Seq<char>) -> nat
    decreases s.len(),
{
    if s.len() > 0 && is_whitespace(s[0]) {
        1 + leading_whitespace(s.drop_first())
    } else {
        0
    }
}

/// The number of whitespace characters that `s` ends with.
pub open spec fn trailing_whitespace(s: Seq<char>) -> nat
    decreases s.len(),
{
    if s.len() > 0 && is_whitespace(s.last()) {
        1 + trailing_whitespace(s.drop_last())
    } else {
        0
    }
}

/// The fourth step: the whitespace at the start and at the end is cut off.
pub open spec fn trimmed(s: Seq<char>) -> Seq<char> {
    let rest = s.skip(leading_whitespace(s) as int);
    rest.take(rest.len() - trailing_whitespace(rest))
}

/// The formatted form of a message: the four steps, one after the other.
pub open spec fn formatted(message: Seq<char>) -> Seq<char> {
    trimmed(squeezed(paragraphed(collapsed(message))))
}

/// The words of a message in order, each but the first behind the text of
/// the gap that parted it from the word before. Whitespace that no word
/// follows leaves no trace. This is the formatted form, made in one pass.
pub open spec fn joined(message: Seq<char>) -> Seq<char>
    decreases message.len(),
{
    if message.len() == 0 {
        message
    } else {
        let before = message.drop_last();
        let c = message.last();
        if is_whitespace(c) {
            joined(before)
        } else if joined(before).len() == 0 {
            seq![c]
        } else {
            joined(before) + gap_text(trailing_gap(before)) + seq![c]
        }
    }
}

/// Whether `s` holds no whitespace at all.
pub open spec fn is_word(s: Seq<char>) -> bool {
    forall|i: int| 0 <= i < s.len() ==> !is_whitespace(#[trigger] s[i])
}

/// Whether `s` holds nothing but whitespace.
pub open spec fn is_blank(s: Seq<char>) -> bool {
    forall|i: int| 0 <= i < s.len() ==> is_whitespace(#[trigger] s[i])
}

/// Whether `s` holds a line break.
pub open spec fn has_line_break(s: Seq<char>) -> bool {
    exists|i: int| 0 <= i < s.len() && #[trigger] s[i] == '\n'
}

/// Whether the whitespace of `s` is in form: neither end is whitespace, and
/// every whitespace character is either a single space between two other
/// characters or one of a pair of line breaks between two other characters.
pub open spec fn well_spaced(s: Seq<char>) -> bool {
    forall|i: int|
        0 <= i < s.len() && is_whitespace(#[trigger] s[i]) ==> {
            &&& 0 < i < s.len() - 1
            &&& {
                ||| s[i] == ' ' && !is_whitespace(s[i - 1]) && !is_whitespace(s[i + 1])
                ||| s[i] == '\n' && s[i + 1] == '\n' && !is_whitespace(s[i - 1]) && i + 2 < s.len()
                    && !is_whitespace(s[i + 2])
                ||| s[i] == '\n' && s[i - 1] == '\n' && i >= 2 && !is_whitespace(s[i - 2])
                    && !is_whitespace(s[i + 1])
            }
        }
}

proof fn lemma_joined_ends_in_word(s: Seq<char>)
    ensures
        joined(s).len() > 0 ==> !is_whitespace(joined(s).last()),
        joined(s).len() == 0 <==> is_blank(s),
        well_spaced(joined(s)),
    decreases s.len(),
{
    if s.len() > 0 {
        let before = s.drop_last();
        lemma_joined_ends_in_word(before);
        if is_whitespace(s.last()) {
            assert forall|i: int| 0 <= i < s.len() && is_blank(before) implies is_whitespace(
                #[trigger] s[i],
            ) by {
                if i < before.len() {
                    assert(s[i] == before[i]);
                }
            }
        }
    }
}

proof fn lemma_joined_well_spaced(message: Seq<char>)
    ensures
        well_spaced(joined(message)),
{
    lemma_joined_ends_in_word(message);
}

proof fn lemma_well_spaced_prefix(s: Seq<char>, n: int)
    requires
        well_spaced(s),
        0 <= n <= s.len(),
        n > 0 ==> !is_whitespace(s[n - 1]),
    ensures
        well_spaced(s.take(n)),
{
}

proof fn lemma_well_spaced_joined(message: Seq<char>)
    requires
        well_spaced(message),
    ensures
        joined(message) == message,
    decreases message.len(),
{
    let s = message;
    let n = s.len() as int;
    if n > 0 {
        let before = s.drop_last();
        if n == 1 {
            assert(joined(before).len() == 0);
        } else if !is_whitespace(s[n - 2]) {
            lemma_well_spaced_prefix(s, n - 1);
            lemma_well_spaced_joined(before);
        } else if s[n - 2] == ' ' {
            let word = s.take(n - 2);
            lemma_well_spaced_prefix(s, n - 2);
            lemma_well_spaced_joined(word);
            assert(before.drop_last() =~= word);
            assert(joined(before) == word);
        } else {
            let word = s.take(n - 3);
            let mid = s.take(n - 2);
            lemma_well_spaced_prefix(s, n - 3);
            lemma_well_spaced_joined(word);
            assert(before.drop_last() =~= mid);
            assert(mid.drop_last() =~= word);
            assert(joined(mid) == word);
            assert(joined(before) == word);
        }
    }
}

proof fn lemma_word_fixed(word: Seq<char>)
    requires
        is_word(word),
    ensures
        joined(word) == word,
{
    lemma_well_spaced_joined(word);
}

proof fn lemma_blank_behind_word(word: Seq<char>, blank: Seq<char>)
    requires
        is_blank(blank),
        word.len() > 0,
        !is_whitespace(word.last()),
    ensures
        joined(word + blank) == joined(word),
        blank.len() > 0 ==> trailing_gap(word + blank) == if has_line_break(blank) {
            Gap::Break
        } else {
            Gap::Space
        },
    decreases blank.len(),
{
    let s = word + blank;
    if blank.len() == 0 {
    } else {
        let rest = blank.drop_last();
        assert(s.drop_last() =~= word + rest);
        lemma_blank_behind_word(word, rest);
        if has_line_break(rest) {
            let k = choose|k: int| 0 <= k < rest.len() && #[trigger] rest[k] == '\n';
        }
        if has_line_break(blank) && blank.last() != '\n' {
            let k = choose|k: int| 0 <= k < blank.len() && #[trigger] blank[k] == '\n';
            assert(rest[k] == '\n');
        }
    }
}

spec fn tail_text(s: Seq<char>) -> Seq<char> {
    match trailing_gap(s) {
        Gap::Nothing => Seq::empty(),
        Gap::Space => seq![' '],
        Gap::Break => if trailing_breaks(s) == 1 {
            seq!['\n']
        } else {
            seq!['\n', '\n']
        },
    }
}

spec fn leading_gap(s: Seq<char>) -> Gap
    decreases s.len(),
{
    if s.len() == 0 {
        Gap::Nothing
    } else if is_blank(s.drop_last()) {
        if is_whitespace(s.last()) {
            Gap::Nothing
        } else {
            trailing_gap(s.drop_last())
        }
    } else {
        leading_gap(s.drop_last())
    }
}

proof fn lemma_blank_push(s: Seq<char>)
    requires
        s.len() > 0,
    ensures
        is_blank(s) <==> is_blank(s.drop_last()) && is_whitespace(s.last()),
{
    let before = s.drop_last();
    if is_blank(before) && is_whitespace(s.last()) {
        assert forall|i: int| 0 <= i < s.len() implies is_whitespace(#[trigger] s[i]) by {
            if i < before.len() {
                assert(s[i] == before[i]);
            }
        }
    }
}

proof fn lemma_trailing_breaks(s: Seq<char>)
    ensures
        trailing_gap(s) == Gap::Break <==> trailing_breaks(s) > 0,
    decreases s.len(),
{
    if s.len() > 0 && is_whitespace(s.last()) {
        lemma_trailing_breaks(s.drop_last());
    }
}

proof fn lemma_paragraphed_push(s: Seq<char>, c: char)
    ensures
        paragraphed(s.push(c)) == if s.len() > 0 && s.last() == '\n' && !is_whitespace(c) {
            paragraphed(s).push('\n').push(c)
        } else {
            paragraphed(s).push(c)
        },
        paragraphed(s.push(c)).len() > 0,
        paragraphed(s.push(c)).last() == c,
{
    assert(s.push(c).drop_last() =~= s);
}

proof fn lemma_squeezed_push(s: Seq<char>, c: char)
    ensures
        squeezed(s.push(c)) == if c == '\n' && s.len() >= 2 && s[s.len() - 1] == '\n' && s[s.len()
            - 2] == '\n' {
            squeezed(s)
        } else {
            squeezed(s).push(c)
        },
{
    assert(s.push(c).drop_last() =~= s);
}

/// What the first two steps leave at the end of a text: the last character
/// of both is the last character that the first step wrote, and the one
/// before it tells a lone line break from a run of them.
spec fn ends_agree(s: Seq<char>) -> bool {
    let c = collapsed(s);
    let p = paragraphed(c);
    &&& s.len() > 0 ==> c.len() > 0 && p.len() > 0 && p.last() == c.last()
    &&& trailing_gap(s) == Gap::Nothing && s.len() > 0 ==> c.last() == s.last()
    &&& trailing_gap(s) == Gap::Space ==> c.last() == ' '
    &&& trailing_gap(s) == Gap::Break ==> c.last() == '\n'
    &&& trailing_breaks(s) >= 2 ==> c.len() >= 2 && p.len() >= 2 && c[c.len() - 2] == '\n' && p[p.len()
        - 2] == '\n'
    &&& trailing_gap(s) == Gap::Space || trailing_breaks(s) == 1 ==> (c.len() >= 2 ==> c[c.len()
        - 2] != '\n') && (p.len() >= 2 ==> p[p.len() - 2] != '\n')
}

proof fn lemma_ends_agree(s: Seq<char>)
    ensures
        ends_agree(s),
    decreases s.len(),
{
    if s.len() > 0 {
        let before = s.drop_last();
        let x = s.last();
        lemma_ends_agree(before);
        lemma_trailing_breaks(before);
        lemma_trailing_breaks(s);
        let cb = collapsed(before);
        if !is_whitespace(x) {
            lemma_paragraphed_push(cb, x);
        } else if trailing_gap(before) == Gap::Space {
            if x == '\n' {
                let c0 = cb.drop_last();
                lemma_paragraphed_push(c0, ' ');
                lemma_paragraphed_push(c0, '\n');
            }
        } else if trailing_gap(before) == Gap::Nothing {
            lemma_paragraphed_push(cb, '\n');
            lemma_paragraphed_push(cb, ' ');
        } else {
            lemma_paragraphed_push(cb, '\n');
        }
    }
}

spec fn lead_text(s: Seq<char>) -> Seq<char> {
    if is_blank(s) {
        Seq::empty()
    } else {
        gap_text(leading_gap(s))
    }
}

/// What the first three steps make of a text: the formatted text, between
/// what they make of the whitespace before the first word and behind the
/// last.
spec fn framed(s: Seq<char>) -> Seq<char> {
    lead_text(s) + joined(s) + tail_text(s)
}

proof fn lemma_framed_word(s: Seq<char>)
    requires
        s.len() > 0,
        !is_whitespace(s.last()),
        ends_agree(s.drop_last()),
        squeezed(paragraphed(collapsed(s.drop_last()))) == framed(s.drop_last()),
    ensures
        squeezed(paragraphed(collapsed(s))) == framed(s),
{
    let before = s.drop_last();
    let x = s.last();
    lemma_blank_push(s);
    lemma_trailing_breaks(before);
    lemma_joined_ends_in_word(before);
    let cb = collapsed(before);
    let pb = paragraphed(cb);
    lemma_paragraphed_push(cb, x);
    if trailing_gap(before) == Gap::Break {
        let q = pb.push('\n');
        lemma_squeezed_push(q, x);
        lemma_squeezed_push(pb, '\n');
    } else {
        lemma_squeezed_push(pb, x);
    }
}

proof fn lemma_framed_blank(s: Seq<char>)
    requires
        s.len() > 0,
        is_whitespace(s.last()),
        ends_agree(s.drop_last()),
        squeezed(paragraphed(collapsed(s.drop_last()))) == framed(s.drop_last()),
    ensures
        squeezed(paragraphed(collapsed(s))) == framed(s),
{
    let before = s.drop_last();
    let x = s.last();
    lemma_blank_push(s);
    lemma_trailing_breaks(before);
    lemma_trailing_breaks(s);
    let cb = collapsed(before);
    let pb = paragraphed(cb);
    let eb = squeezed(pb);
    match trailing_gap(before) {
        Gap::Nothing => {
            let y = if x == '\n' {
                '\n'
            } else {
                ' '
            };
            lemma_paragraphed_push(cb, y);
            lemma_squeezed_push(pb, y);
        },
        Gap::Space => {
            if x == '\n' {
                let c0 = cb.drop_last();
                let p0 = paragraphed(c0);
                lemma_paragraphed_push(c0, ' ');
                lemma_paragraphed_push(c0, '\n');
                lemma_squeezed_push(p0, ' ');
                lemma_squeezed_push(p0, '\n');
                assert(eb.drop_last() =~= squeezed(p0));
            }
        },
        Gap::Break => {
            if x == '\n' {
                lemma_paragraphed_push(cb, '\n');
                lemma_squeezed_push(pb, '\n');
            }
        },
    }
}

proof fn lemma_first_three_steps(s: Seq<char>)
    ensures
        squeezed(paragraphed(collapsed(s))) == framed(s),
    decreases s.len(),
{
    if s.len() > 0 {
        lemma_first_three_steps(s.drop_last());
        lemma_ends_agree(s.drop_last());
        if is_whitespace(s.last()) {
            lemma_framed_blank(s);
        } else {
            lemma_framed_word(s);
        }
    }
}

proof fn lemma_leading_is(s: Seq<char>, n: int)
    requires
        0 <= n <= s.len(),
        forall|i: int| 0 <= i < n ==> is_whitespace(s[i]),
        n < s.len() ==> !is_whitespace(s[n]),
    ensures
        leading_whitespace(s) == n,
    decreases s.len(),
{
    if n > 0 {
        let rest = s.drop_first();
        lemma_leading_is(rest, n - 1);
    }
}

proof fn lemma_trailing_is(s: Seq<char>, n: int)
    requires
        0 <= n <= s.len(),
        forall|i: int| s.len() - n <= i < s.len() ==> is_whitespace(s[i]),
        n < s.len() ==> !is_whitespace(s[s.len() - n - 1]),
    ensures
        trailing_whitespace(s) == n,
    decreases s.len(),
{
    if n > 0 {
        let init = s.drop_last();
        lemma_trailing_is(init, n - 1);
    }
}

proof fn lemma_trimmed_frame(lead: Seq<char>, body: Seq<char>, tail: Seq<char>)
    requires
        is_blank(lead),
        is_blank(tail),
        body.len() > 0 ==> !is_whitespace(body[0]) && !is_whitespace(body.last()),
        body.len() == 0 ==> lead.len() == 0,
    ensures
        trimmed(lead + body + tail) == body,
{
    let s = lead + body + tail;
    if body.len() == 0 {
        lemma_leading_is(s, s.len() as int);
    } else {
        lemma_leading_is(s, lead.len() as int);
        let rest = s.skip(lead.len() as int);
        lemma_trailing_is(rest, tail.len() as int);
    }
}

/// The four steps amount to one pass over the words: what they give is the
/// words of the message, rejoined by the text of their gaps.
pub proof fn lemma_formatted_is_joined(message: Seq<char>)
    ensures
        formatted(message) == joined(message),
{
    lemma_first_three_steps(message);
    lemma_joined_ends_in_word(message);
    let body = joined(message);
    lemma_trimmed_frame(lead_text(message), body, tail_text(message));
}

proof fn lemma_trailing_gap_of_tail(head: Seq<char>, tail: Seq<char>)
    requires
        tail.len() > 0,
        !is_whitespace(tail[0]),
    ensures
        trailing_gap(head + tail) == trailing_gap(tail),
    decreases tail.len(),
{
    let s = head + tail;
    if is_whitespace(tail.last()) && tail.last() != '\n' {
        assert(s.drop_last() =~= head + tail.drop_last());
        lemma_trailing_gap_of_tail(head, tail.drop_last());
    }
}

/// The kind of gap that a stretch of whitespace makes.
pub open spec fn gap_of(blank: Seq<char>) -> Gap {
    if blank.len() == 0 {
        Gap::Nothing
    } else if has_line_break(blank) {
        Gap::Break
    } else {
        Gap::Space
    }
}

proof fn lemma_joined_gap(first: Seq<char>, blank: Seq<char>, second: Seq<char>)
    requires
        first.len() > 0,
        !is_whitespace(first.last()),
        is_blank(blank),
        blank.len() > 0,
        second.len() > 0,
        !is_whitespace(second[0]),
    ensures
        joined(first + blank + second) == joined(first) + gap_text(gap_of(blank))
            + joined(second),
    decreases second.len(),
{
    let s = first + blank + second;
    let c = second.last();
    let rest = second.drop_last();
    assert(s.drop_last() =~= first + blank + rest);
    lemma_blank_behind_word(first, blank);
    lemma_joined_ends_in_word(first);
    assert(!is_blank(first));
    if rest.len() > 0 {
        lemma_joined_gap(first, blank, rest);
        lemma_joined_ends_in_word(rest);
        assert(!is_blank(rest));
        if !is_whitespace(c) {
            lemma_trailing_gap_of_tail(first + blank, rest);
        }
    }
}

/// A formatted message is well-spaced: it starts and ends in a word, and its
/// words are parted by one space or by a pair of line breaks.
pub proof fn lemma_formatted_well_spaced(message: Seq<char>)
    ensures
        well_spaced(formatted(message)),
{
    lemma_formatted_is_joined(message);
    lemma_joined_well_spaced(message);
}

/// A well-spaced text is left as it is.
pub proof fn lemma_well_spaced_fixed(message: Seq<char>)
    requires
        well_spaced(message),
    ensures
        formatted(message) == message,
{
    lemma_formatted_is_joined(message);
    lemma_well_spaced_joined(message);
}

/// Formatting is idempotent: formatting a formatted message changes
/// nothing.
pub proof fn lemma_format_idempotent(message: Seq<char>)
    ensures
        formatted(formatted(message)) == formatted(message),
{
    lemma_formatted_well_spaced(message);
    lemma_well_spaced_fixed(formatted(message));
}

/// A formatted message never holds three line breaks in a row, nor two
/// spaces in a row, and neither end of it is whitespace.
pub proof fn lemma_formatted_breaks_are_pairs(message: Seq<char>)
    ensures
        forall|i: int|
            0 <= i && i + 2 < formatted(message).len() ==> !(#[trigger] formatted(message)[i]
                == '\n' && formatted(message)[i + 1] == '\n' && formatted(message)[i + 2] == '\n'),
        forall|i: int|
            0 <= i && i + 1 < formatted(message).len() ==> !(#[trigger] formatted(message)[i]
                == ' ' && formatted(message)[i + 1] == ' '),
        formatted(message).len() > 0 ==> !is_whitespace(formatted(message)[0]) && !is_whitespace(
            formatted(message).last(),
        ),
{
    lemma_formatted_well_spaced(message);
}

/// Every gap is formatted by itself: where whitespace parts a text that
/// ends in a word from a text that starts with one, the formatted whole is
/// the formatted first text, the text of the gap and the formatted second
/// text.
pub proof fn lemma_gap_between_texts(first: Seq<char>, blank: Seq<char>, second: Seq<char>)
    requires
        first.len() > 0,
        !is_whitespace(first.last()),
        is_blank(blank),
        blank.len() > 0,
        second.len() > 0,
        !is_whitespace(second[0]),
    ensures
        formatted(first + blank + second) == formatted(first) + gap_text(gap_of(blank))
            + formatted(second),
{
    lemma_formatted_is_joined(first + blank + second);
    lemma_formatted_is_joined(first);
    lemma_formatted_is_joined(second);
    lemma_joined_gap(first, blank, second);
}

/// The gap between two words: where whitespace parts two words, the
/// formatted text is the first word, the text of the gap and the second
/// word. Whitespace that holds a line break, be it one or many, comes out as
/// a pair of line breaks, and whitespace that holds none as one space.
pub proof fn lemma_gap_between_words(first: Seq<char>, blank: Seq<char>, second: Seq<char>)
    requires
        is_word(first),
        is_word(second),
        is_blank(blank),
        first.len() > 0,
        blank.len() > 0,
        second.len() > 0,
    ensures
        formatted(first + blank + second) == first + (if has_line_break(blank) {
            seq!['\n', '\n']
        } else {
            seq![' ']
        }) + second,
{
    lemma_word_fixed(first);
    lemma_word_fixed(second);
    lemma_joined_gap(first, blank, second);
    lemma_formatted_is_joined(first + blank + second);
}

/// Formats a message.
pub fn format_text(message: &str) -> (out: String)
    ensures
        out@ == formatted(message@),
        well_spaced(out@),
{
    proof {
        lemma_formatted_well_spaced(message@);
        lemma_formatted_is_joined(message@);
    }
    let chars = chars_of(message);
    let mut out: Vec<char> = Vec::new();
    let mut gap = Gap::Nothing;
    let mut i: usize = 0;
    while i < chars.len()
        invariant
            i <= chars.len(),
            out@ == joined(chars@.take(i as int)),
            gap == trailing_gap(chars@.take(i as int)),
        decreases chars.len() - i,
    {
        let c = chars[i];
        proof {
            let next = chars@.take(i + 1);
            assert(next.drop_last() =~= chars@.take(i as int));
        }
        if is_whitespace_char(c) {
            gap = match gap {
                Gap::Break => Gap::Break,
                _ => if c == '\n' {
                    Gap::Break
                } else {
                    Gap::Space
                },
            };
        } else {
            if out.len() > 0 {
                match gap {
                    Gap::Nothing => {},
                    Gap::Space => {
                        out.push(' ');
                    },
                    Gap::Break => {
                        out.push('\n');
                        out.push('\n');
                    },
                }
            }
            out.push(c);
            gap = Gap::Nothing;
        }
        i += 1;
    }
    assert(chars@.take(chars.len() as int) =~= chars@);
    string_of(&out)
}

} // verus!
