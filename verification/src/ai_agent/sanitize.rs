//! Redaction of audit text: card numbers, payment tokens and personal
//! addresses never reach the audit trail.

use vstd::prelude::*;

use crate::text::{
    ascii_lower_seq, chars_of, contains_seq, contains_str, is_ascii_digit_char, is_digit, is_white_space,
    lowercase_ascii, occurs_at, starts_with_seq, starts_with_str, string_of,
};

verus! {

/// A run of digits as it is written out: runs of 13 to 19 digits, the
/// lengths of card numbers, are replaced.
pub open spec fn flushed_digits(digits: Seq<char>) -> Seq<char> {
    if 13 <= digits.len() <= 19 {
        "[REDACTED_CARD]"@
    } else {
        digits
    }
}

/// The rest of a text `s`, read after the pending digit run `digits`, with
/// every maximal run of 13 to 19 ASCII digits replaced.
pub open spec fn cards_redacted_from(s: Seq<char>, digits: Seq<char>) -> Seq<char>
    decreases s.len(),
{
    if s.len() == 0 {
        flushed_digits(digits)
    } else if is_ascii_digit_char(s[0]) {
        cards_redacted_from(s.drop_first(), digits.push(s[0]))
    } else {
        flushed_digits(digits) + seq![s[0]] + cards_redacted_from(s.drop_first(), Seq::empty())
    }
}

/// `s` with every maximal run of 13 to 19 ASCII digits replaced by `[REDACTED_CARD]`.
pub open spec fn cards_redacted(s: Seq<char>) -> Seq<char> {
    cards_redacted_from(s, Seq::empty())
}

/// The words of `s`: its maximal runs of characters that are not white space.
pub open spec fn words(s: Seq<char>) -> Seq<Seq<char>>
    decreases s.len(),
{
    if s.len() == 0 {
        Seq::empty()
    } else {
        let before = words(s.drop_last());
        let c = s.last();
        if is_white_space(c) {
            before
        } else if s.len() >= 2 && !is_white_space(s[s.len() - 2]) {
            before.update(before.len() - 1, before.last().push(c))
        } else {
            before.push(seq![c])
        }
    }
}

/// `parts` with `sep` between each two of them.
pub open spec fn join_with(parts: Seq<Seq<char>>, sep: Seq<char>) -> Seq<char>
    decreases parts.len(),
{
    if parts.len() == 0 {
        Seq::empty()
    } else if parts.len() == 1 {
        parts[0]
    } else {
        join_with(parts.drop_last(), sep) + sep + parts.last()
    }
}

/// A word that looks like a payment token, once in lower case: it holds
/// `tok_` or starts with `sk_` or `pk_`.
pub open spec fn is_payment_token(word: Seq<char>) -> bool {
    let lowered = ascii_lower_seq(word);
    contains_seq(lowered, "tok_"@) || starts_with_seq(lowered, "sk_"@) || starts_with_seq(
        lowered,
        "pk_"@,
    )
}

pub open spec fn word_redacted(word: Seq<char>) -> Seq<char> {
    if is_payment_token(word) {
        "[REDACTED_TOKEN]"@
    } else {
        word
    }
}

/// A word of digits and hyphens only, with at least one digit: a group of a
/// number such as `4111` or `4111-1111`.
pub open spec fn is_number_word(w: Seq<char>) -> bool {
    &&& forall|k: int| 0 <= k < w.len() ==> is_ascii_digit_char(#[trigger] w[k]) || w[k] == '-'
    &&& exists|k: int| 0 <= k < w.len() && is_ascii_digit_char(#[trigger] w[k])
}

/// How many ASCII digits `w` holds.
pub open spec fn digit_count(w: Seq<char>) -> nat
    decreases w.len(),
{
    if w.len() == 0 {
        0
    } else {
        digit_count(w.drop_last()) + if is_ascii_digit_char(w.last()) {
            1nat
        } else {
            0nat
        }
    }
}

/// How many ASCII digits the words `ws` hold together.
pub open spec fn words_digits(ws: Seq<Seq<char>>) -> nat
    decreases ws.len(),
{
    if ws.len() == 0 {
        0
    } else {
        words_digits(ws.drop_last()) + digit_count(ws.last())
    }
}

/// A run of number words as it is written out: when its groups hold 13 to
/// 19 digits together, the length of a card number, the run is replaced by
/// one `[REDACTED_CARD]`.
pub open spec fn group_flushed(pending: Seq<Seq<char>>) -> Seq<Seq<char>> {
    if 13 <= words_digits(pending) <= 19 {
        seq!["[REDACTED_CARD]"@]
    } else {
        pending
    }
}

/// The rest of the words `ws`, read after the pending run of number words
/// `pending`: each maximal run of number words is written out as
/// `group_flushed` says, and every other word as `word_redacted` says.
pub open spec fn words_redacted_from(ws: Seq<Seq<char>>, pending: Seq<Seq<char>>) -> Seq<Seq<char>>
    decreases ws.len(),
{
    if ws.len() == 0 {
        group_flushed(pending)
    } else if is_number_word(ws[0]) {
        words_redacted_from(ws.drop_first(), pending.push(ws[0]))
    } else {
        group_flushed(pending) + seq![word_redacted(ws[0])] + words_redacted_from(
            ws.drop_first(),
            Seq::empty(),
        )
    }
}

/// The words `ws` with payment tokens redacted, and each card number
/// written in groups (words of digits and hyphens whose digits together
/// number 13 to 19) replaced by `[REDACTED_CARD]`.
pub open spec fn words_redacted(ws: Seq<Seq<char>>) -> Seq<Seq<char>> {
    words_redacted_from(ws, Seq::empty())
}

/// The words of `s`, each payment token and each grouped card number
/// redacted, joined by single spaces.
pub open spec fn tokens_redacted(s: Seq<char>) -> Seq<char> {
    join_with(words_redacted(words(s)), seq![' '])
}

/// The lines of `s`: the pieces between line feeds; there is always one more
/// piece than there are line feeds.
pub open spec fn lines(s: Seq<char>) -> Seq<Seq<char>>
    decreases s.len(),
{
    if s.len() == 0 {
        seq![Seq::empty()]
    } else {
        let before = lines(s.drop_last());
        let c = s.last();
        if c == '\n' {
            before.push(Seq::empty())
        } else {
            before.update(before.len() - 1, before.last().push(c))
        }
    }
}

/// The first position from `i` on where `needle` occurs in `hay`; -1 if none.
pub open spec fn first_occurrence_from(hay: Seq<char>, needle: Seq<char>, i: int) -> int
    decreases hay.len() + 1 - i,
{
    if i < 0 || i + needle.len() > hay.len() {
        -1
    } else if occurs_at(hay, needle, i) {
        i
    } else {
        first_occurrence_from(hay, needle, i + 1)
    }
}

pub open spec fn first_occurrence(hay: Seq<char>, needle: Seq<char>) -> int {
    first_occurrence_from(hay, needle, 0)
}

/// A line that holds `address:` in any letter case keeps only what comes
/// before it, followed by `address: [REDACTED_ADDRESS]`.
pub open spec fn line_redacted(line: Seq<char>) -> Seq<char> {
    let at = first_occurrence(ascii_lower_seq(line), "address:"@);
    if at >= 0 {
        line.take(at) + "address: [REDACTED_ADDRESS]"@
    } else {
        line
    }
}

pub open spec fn lines_redacted(ls: Seq<Seq<char>>) -> Seq<Seq<char>> {
    ls.map_values(|l: Seq<char>| line_redacted(l))
}

/// The lines of `s`, each redacted, joined by line feeds.
pub open spec fn addresses_redacted(s: Seq<char>) -> Seq<char> {
    join_with(lines_redacted(lines(s)), seq!['\n'])
}

/// Audit text as it is stored: card numbers, then payment tokens, then
/// personal addresses are redacted.
pub open spec fn audit_text(s: Seq<char>) -> Seq<char> {
    addresses_redacted(tokens_redacted(cards_redacted(s)))
}

pub(crate) proof fn lemma_join_push(parts: Seq<Seq<char>>, x: Seq<char>, sep: Seq<char>)
    ensures
        join_with(parts.push(x), sep) == if parts.len() == 0 {
            x
        } else {
            join_with(parts, sep) + sep + x
        },
{
    assert(parts.push(x).drop_last() =~= parts);
}

fn flush_digits(output: &mut Vec<char>, digits: &Vec<char>)
    ensures
        final(output)@ == old(output)@ + flushed_digits(digits@),
{
    if 13 <= digits.len() && digits.len() <= 19 {
        let mut marker = chars_of("[REDACTED_CARD]");
        output.append(&mut marker);
    } else {
        let mut i: usize = 0;
        let ghost start = output@;
        while i < digits.len()
            invariant
                i <= digits@.len(),
                output@ == start + digits@.take(i as int),
            decreases digits@.len() - i,
        {
            output.push(digits[i]);
            i = i + 1;
            assert(output@ =~= start + digits@.take(i as int));
        }
        assert(digits@.take(i as int) =~= digits@);
    }
}

fn redact_card_numbers(value: &Vec<char>) -> (r: Vec<char>)
    ensures
        r@ == cards_redacted(value@),
{
    let mut output: Vec<char> = Vec::new();
    let mut digits: Vec<char> = Vec::new();
    let mut i: usize = 0;
    assert(value@.skip(0) =~= value@);
    assert(output@ =~= Seq::<char>::empty());
    while i < value.len()
        invariant
            i <= value@.len(),
            output@ + cards_redacted_from(value@.skip(i as int), digits@) == cards_redacted(value@),
        decreases value@.len() - i,
    {
        let c = value[i];
        let ghost rest = value@.skip(i as int);
        assert(rest[0] == c);
        assert(rest.drop_first() =~= value@.skip(i + 1));
        if is_digit(c) {
            digits.push(c);
        } else {
            let ghost pending = digits@;
            let ghost before = output@;
            flush_digits(&mut output, &digits);
            output.push(c);
            digits = Vec::new();
            assert(output@ + cards_redacted_from(value@.skip(i + 1), digits@) =~= before + (
            flushed_digits(pending) + seq![c] + cards_redacted_from(
                value@.skip(i + 1),
                Seq::empty(),
            )));
        }
        i = i + 1;
    }
    assert(value@.skip(i as int) =~= Seq::<char>::empty());
    flush_digits(&mut output, &digits);
    output
}

fn redact_word(word: &Vec<char>) -> (r: Vec<char>)
    ensures
        r@ == word_redacted(word@),
{
    let text = string_of(word);
    let lowered = lowercase_ascii(text.as_str());
    if contains_str(lowered.as_str(), "tok_") || starts_with_str(lowered.as_str(), "sk_")
        || starts_with_str(lowered.as_str(), "pk_") {
        chars_of("[REDACTED_TOKEN]")
    } else {
        chars_of(text.as_str())
    }
}

proof fn lemma_words_step(s: Seq<char>, i: int)
    requires
        0 <= i < s.len(),
    ensures
        ({
            let t = s.take(i + 1);
            let before = words(s.take(i));
            let c = s[i];
            words(t) == if is_white_space(c) {
                before
            } else if i >= 1 && !is_white_space(s[i - 1]) {
                before.update(before.len() - 1, before.last().push(c))
            } else {
                before.push(seq![c])
            }
        }),
{
    let t = s.take(i + 1);
    assert(t.drop_last() =~= s.take(i));
    assert(t.last() == s[i]);
    if i >= 1 {
        assert(t[t.len() - 2] == s[i - 1]);
    }
}

pub open spec fn char_lists(v: Seq<Vec<char>>) -> Seq<Seq<char>> {
    v.map_values(|w: Vec<char>| w@)
}

/// The words of `value`, in order.
fn split_words(value: &Vec<char>) -> (r: Vec<Vec<char>>)
    ensures
        char_lists(r@) == words(value@),
{
    let mut list: Vec<Vec<char>> = Vec::new();
    let mut word: Vec<char> = Vec::new();
    let mut i: usize = 0;
    while i < value.len()
        invariant
            i <= value@.len(),
            words(value@.take(i as int)) == if word@.len() > 0 {
                char_lists(list@).push(word@)
            } else {
                char_lists(list@)
            },
            word@.len() > 0 <==> (i > 0 && !is_white_space(value@[i - 1])),
        decreases value@.len() - i,
    {
        let c = value[i];
        let ghost done = char_lists(list@);
        proof {
            lemma_words_step(value@, i as int);
        }
        if c.is_whitespace() {
            if word.len() > 0 {
                let ghost w = word@;
                list.push(word);
                assert(char_lists(list@) =~= done.push(w));
                word = Vec::new();
            }
            assert(words(value@.take(i + 1)) == char_lists(list@));
        } else {
            proof {
                let before = words(value@.take(i as int));
                if word@.len() > 0 {
                    assert(i >= 1 && !is_white_space(value@[i - 1]));
                    assert(done.push(word@).update(done.len() as int, word@.push(c)) =~= done.push(
                        word@.push(c),
                    ));
                } else {
                    assert(!(i >= 1 && !is_white_space(value@[i - 1])));
                    assert(word@.push(c) =~= seq![c]);
                }
            }
            word.push(c);
            assert(words(value@.take(i + 1)) == char_lists(list@).push(word@));
        }
        i = i + 1;
    }
    assert(value@.take(i as int) =~= value@);
    if word.len() > 0 {
        let ghost done = char_lists(list@);
        let ghost w = word@;
        list.push(word);
        assert(char_lists(list@) =~= done.push(w));
    }
    list
}

proof fn lemma_digit_count_push(w: Seq<char>, c: char)
    ensures
        digit_count(w.push(c)) == digit_count(w) + if is_ascii_digit_char(c) {
            1nat
        } else {
            0nat
        },
{
    assert(w.push(c).drop_last() =~= w);
}

/// Whether `w` is a number word, and how many digits it holds, counted up
/// to 20.
fn number_word_digits(w: &Vec<char>) -> (r: (bool, usize))
    ensures
        r.0 == is_number_word(w@),
        r.1 == if digit_count(w@) < 20 {
            digit_count(w@)
        } else {
            20
        },
{
    let mut only_groups = true;
    let mut digits: usize = 0;
    let mut i: usize = 0;
    while i < w.len()
        invariant
            i <= w@.len(),
            only_groups == forall|k: int| 0 <= k < i ==> is_ascii_digit_char(#[trigger] w@[k]) || w@[k] == '-',
            digits == if digit_count(w@.take(i as int)) < 20 {
                digit_count(w@.take(i as int))
            } else {
                20
            },
            (digit_count(w@.take(i as int)) > 0) == exists|k: int| 0 <= k < i && is_ascii_digit_char(#[trigger] w@[k]),
        decreases w@.len() - i,
    {
        let c = w[i];
        proof {
            assert(w@.take(i + 1) =~= w@.take(i as int).push(c));
            lemma_digit_count_push(w@.take(i as int), c);
        }
        if is_digit(c) {
            if digits < 20 {
                digits = digits + 1;
            }
        } else if c != '-' {
            only_groups = false;
        }
        i = i + 1;
        proof {
            if !(is_ascii_digit_char(c) || c == '-') {
                assert(!(is_ascii_digit_char(w@[i - 1]) || w@[i - 1] == '-'));
            }
            if is_ascii_digit_char(c) {
                assert(is_ascii_digit_char(w@[i - 1]));
            }
        }
    }
    assert(w@.take(i as int) =~= w@);
    (only_groups && digits > 0, digits)
}

proof fn lemma_words_digits_push(ws: Seq<Seq<char>>, w: Seq<char>)
    ensures
        words_digits(ws.push(w)) == words_digits(ws) + digit_count(w),
{
    assert(ws.push(w).drop_last() =~= ws);
}

/// Writes out the pending run of number words.
fn flush_group(out: &mut Vec<Vec<char>>, pending: Vec<Vec<char>>, digits: usize)
    requires
        digits == if words_digits(char_lists(pending@)) < 20 {
            words_digits(char_lists(pending@))
        } else {
            20
        },
    ensures
        char_lists(final(out)@) == char_lists(old(out)@) + group_flushed(char_lists(pending@)),
{
    let ghost before = char_lists(out@);
    if 13 <= digits && digits <= 19 {
        out.push(chars_of("[REDACTED_CARD]"));
        assert(char_lists(out@) =~= before + seq!["[REDACTED_CARD]"@]);
    } else {
        let mut pending = pending;
        let ghost all = char_lists(pending@);
        out.append(&mut pending);
        assert(char_lists(out@) =~= before + all);
    }
}

/// The words `ws` redacted as `words_redacted` says.
fn redact_words(ws: &Vec<Vec<char>>) -> (r: Vec<Vec<char>>)
    ensures
        char_lists(r@) == words_redacted(char_lists(ws@)),
{
    let ghost all = char_lists(ws@);
    let mut out: Vec<Vec<char>> = Vec::new();
    let mut pending: Vec<Vec<char>> = Vec::new();
    let mut digits: usize = 0;
    let mut i: usize = 0;
    assert(all.skip(0) =~= all);
    assert(char_lists(out@) =~= Seq::<Seq<char>>::empty());
    assert(char_lists(pending@) =~= Seq::<Seq<char>>::empty());
    while i < ws.len()
        invariant
            all == char_lists(ws@),
            i <= ws@.len(),
            char_lists(out@) + words_redacted_from(all.skip(i as int), char_lists(pending@))
                == words_redacted(all),
            digits == if words_digits(char_lists(pending@)) < 20 {
                words_digits(char_lists(pending@))
            } else {
                20
            },
        decreases ws@.len() - i,
    {
        let ghost rest = all.skip(i as int);
        assert(rest[0] == ws@[i as int]@);
        assert(rest.drop_first() =~= all.skip(i + 1));
        let (number, count) = number_word_digits(&ws[i]);
        if number {
            let ghost p0 = char_lists(pending@);
            pending.push(ws[i].clone());
            proof {
                assert(char_lists(pending@) =~= p0.push(ws@[i as int]@));
                lemma_words_digits_push(p0, ws@[i as int]@);
            }
            digits = if digits + count < 20 {
                digits + count
            } else {
                20
            };
        } else {
            let ghost p0 = char_lists(pending@);
            let ghost o0 = char_lists(out@);
            flush_group(&mut out, pending, digits);
            let redacted = redact_word(&ws[i]);
            let ghost o1 = char_lists(out@);
            out.push(redacted);
            pending = Vec::new();
            digits = 0;
            assert(char_lists(out@) =~= o1.push(word_redacted(all[i as int])));
            assert(char_lists(pending@) =~= Seq::<Seq<char>>::empty());
            assert(char_lists(out@) + words_redacted_from(all.skip(i + 1), Seq::empty()) =~= o0 + (
            group_flushed(p0) + seq![word_redacted(all[i as int])] + words_redacted_from(
                all.skip(i + 1),
                Seq::empty(),
            )));
        }
        i = i + 1;
    }
    assert(all.skip(i as int) =~= Seq::<Seq<char>>::empty());
    flush_group(&mut out, pending, digits);
    out
}

/// The words `ws` joined by single spaces.
fn join_words(ws: &Vec<Vec<char>>) -> (r: Vec<char>)
    ensures
        r@ == join_with(char_lists(ws@), seq![' ']),
{
    let ghost all = char_lists(ws@);
    let mut out: Vec<char> = Vec::new();
    let mut i: usize = 0;
    while i < ws.len()
        invariant
            all == char_lists(ws@),
            i <= ws@.len(),
            out@ == join_with(all.take(i as int), seq![' ']),
        decreases ws@.len() - i,
    {
        proof {
            assert(all.take(i + 1) =~= all.take(i as int).push(all[i as int]));
            lemma_join_push(all.take(i as int), all[i as int], seq![' ']);
        }
        if i > 0 {
            out.push(' ');
        }
        let mut word = ws[i].clone();
        let ghost o0 = out@;
        out.append(&mut word);
        assert(out@ == o0 + all[i as int]);
        i = i + 1;
    }
    assert(all.take(i as int) =~= all);
    out
}

fn redact_payment_tokens(value: &Vec<char>) -> (r: Vec<char>)
    ensures
        r@ == tokens_redacted(value@),
{
    let list = split_words(value);
    let redacted = redact_words(&list);
    join_words(&redacted)
}

pub(crate) proof fn lemma_first_occurrence_from(hay: Seq<char>, needle: Seq<char>, i: int)
    requires
        0 <= i,
    ensures
        ({
            let k = first_occurrence_from(hay, needle, i);
            &&& k == -1 || (i <= k && occurs_at(hay, needle, k))
            &&& k >= 0 ==> forall|j: int| i <= j < k ==> !occurs_at(hay, needle, j)
            &&& k == -1 ==> forall|j: int| i <= j ==> !occurs_at(hay, needle, j)
        }),
    decreases hay.len() + 1 - i,
{
    if i + needle.len() <= hay.len() && !occurs_at(hay, needle, i) {
        lemma_first_occurrence_from(hay, needle, i + 1);
    }
}

/// Whether `needle` occurs in `hay` at `at`.
fn occurs_here(hay: &Vec<char>, needle: &Vec<char>, at: usize) -> (r: bool)
    requires
        at + needle@.len() <= hay@.len(),
    ensures
        r == occurs_at(hay@, needle@, at as int),
{
    let mut j: usize = 0;
    let n = hay.len();
    while j < needle.len()
        invariant
            n == hay@.len(),
            at + needle@.len() <= hay@.len(),
            j <= needle@.len(),
            forall|k: int| 0 <= k < j ==> hay@[at + k] == needle@[k],
        decreases needle@.len() - j,
    {
        if hay[at + j] != needle[j] {
            assert(hay@.subrange(at as int, at + needle@.len())[j as int] != needle@[j as int]);
            return false;
        }
        j = j + 1;
    }
    assert(hay@.subrange(at as int, at + needle@.len()) =~= needle@);
    true
}

/// The first position at which `needle` occurs in `hay`.
pub(crate) fn find_first(hay: &Vec<char>, needle: &Vec<char>) -> (r: Option<usize>)
    ensures
        match r {
            Some(at) => at as int == first_occurrence(hay@, needle@),
            None => first_occurrence(hay@, needle@) == -1,
        },
{
    proof {
        lemma_first_occurrence_from(hay@, needle@, 0);
    }
    if needle.len() > hay.len() {
        return None;
    }
    let last = hay.len() - needle.len();
    let mut at: usize = 0;
    loop
        invariant
            last + needle@.len() == hay@.len(),
            at <= last,
            first_occurrence_from(hay@, needle@, at as int) == first_occurrence(hay@, needle@),
        decreases last - at,
    {
        if occurs_here(hay, needle, at) {
            return Some(at);
        }
        if at == last {
            assert(first_occurrence_from(hay@, needle@, at + 1) == -1);
            return None;
        }
        at = at + 1;
    }
}

fn redact_line(line: &Vec<char>) -> (r: Vec<char>)
    ensures
        r@ == line_redacted(line@),
{
    let text = string_of(line);
    let lowered = chars_of(lowercase_ascii(text.as_str()).as_str());
    let marker = chars_of("address:");
    match find_first(&lowered, &marker) {
        Some(at) => {
            proof {
                lemma_first_occurrence_from(lowered@, marker@, 0);
            }
            let mut out: Vec<char> = Vec::new();
            let mut i: usize = 0;
            while i < at
                invariant
                    at <= line@.len(),
                    i <= at,
                    out@ == line@.take(i as int),
                decreases at - i,
            {
                out.push(line[i]);
                i = i + 1;
                assert(out@ =~= line@.take(i as int));
            }
            let mut tail = chars_of("address: [REDACTED_ADDRESS]");
            out.append(&mut tail);
            out
        },
        None => chars_of(text.as_str()),
    }
}

proof fn lemma_lines_step(s: Seq<char>, i: int)
    requires
        0 <= i < s.len(),
    ensures
        lines(s.take(i)).len() > 0,
        ({
            let before = lines(s.take(i));
            lines(s.take(i + 1)) == if s[i] == '\n' {
                before.push(Seq::empty())
            } else {
                before.update(before.len() - 1, before.last().push(s[i]))
            }
        }),
{
    let t = s.take(i + 1);
    assert(t.drop_last() =~= s.take(i));
    assert(t.last() == s[i]);
    lemma_lines_nonempty(s.take(i));
}

proof fn lemma_lines_nonempty(s: Seq<char>)
    ensures
        lines(s).len() > 0,
    decreases s.len(),
{
    if s.len() > 0 {
        lemma_lines_nonempty(s.drop_last());
    }
}

/// Finishes `line`: writes it out, redacted, after the lines already written.
fn emit_line(output: &mut Vec<char>, line: &Vec<char>, Ghost(done): Ghost<Seq<Seq<char>>>, any_line: bool)
    requires
        old(output)@ == join_with(lines_redacted(done), seq!['\n']),
        any_line == (done.len() > 0),
    ensures
        final(output)@ == join_with(lines_redacted(done.push(line@)), seq!['\n']),
{
    let mut redacted = redact_line(line);
    proof {
        assert(lines_redacted(done.push(line@)) =~= lines_redacted(done).push(line_redacted(line@)));
        lemma_join_push(lines_redacted(done), line_redacted(line@), seq!['\n']);
    }
    if any_line {
        output.push('\n');
    }
    output.append(&mut redacted);
}

fn redact_personal_addresses(value: &Vec<char>) -> (r: Vec<char>)
    ensures
        r@ == addresses_redacted(value@),
{
    let mut output: Vec<char> = Vec::new();
    let mut line: Vec<char> = Vec::new();
    let mut any_line = false;
    let ghost mut done: Seq<Seq<char>> = Seq::empty();
    let mut i: usize = 0;
    assert(lines(value@.take(0)) =~= seq![Seq::<char>::empty()]);
    assert(done.push(line@) =~= seq![Seq::<char>::empty()]);
    while i < value.len()
        invariant
            i <= value@.len(),
            lines(value@.take(i as int)) == done.push(line@),
            output@ == join_with(lines_redacted(done), seq!['\n']),
            any_line == (done.len() > 0),
        decreases value@.len() - i,
    {
        let c = value[i];
        proof {
            lemma_lines_step(value@, i as int);
        }
        if c == '\n' {
            emit_line(&mut output, &line, Ghost(done), any_line);
            proof {
                done = done.push(line@);
            }
            any_line = true;
            line = Vec::new();
            assert(lines(value@.take(i + 1)) =~= done.push(line@));
        } else {
            line.push(c);
            assert(lines(value@.take(i + 1)) =~= done.push(line@));
        }
        i = i + 1;
    }
    assert(value@.take(i as int) =~= value@);
    emit_line(&mut output, &line, Ghost(done), any_line);
    output
}

/// Audit text with card numbers, payment tokens and personal addresses
/// redacted, in that order.
pub fn sanitize_audit_text(value: &str) -> (r: String)
    ensures
        r@ == audit_text(value@),
{
    let chars = chars_of(value);
    let without_cards = redact_card_numbers(&chars);
    let without_tokens = redact_payment_tokens(&without_cards);
    let redacted = redact_personal_addresses(&without_tokens);
    string_of(&redacted)
}

} // verus!
