//! What redaction guarantees of every audit text.

use vstd::prelude::*;

use super::sanitize::{
    addresses_redacted, audit_text, cards_redacted, cards_redacted_from, first_occurrence,
    flushed_digits, join_with, lemma_first_occurrence_from, lemma_join_push, line_redacted, lines, lines_redacted,
    group_flushed, is_number_word, is_payment_token, tokens_redacted, word_redacted, words,
    words_digits, words_redacted, words_redacted_from,
};
use crate::text::{
    ascii_lower, ascii_lower_seq, contains_seq, is_ascii_digit_char, is_white_space, occurs_at,
    starts_with_seq,
};

verus! {

/// `t[i..j]` is a maximal run of ASCII digits.
pub open spec fn digit_run(t: Seq<char>, i: int, j: int) -> bool {
    &&& 0 <= i < j <= t.len()
    &&& forall|k: int| i <= k < j ==> is_ascii_digit_char(#[trigger] t[k])
    &&& (i == 0 || !is_ascii_digit_char(t[i - 1]))
    &&& (j == t.len() || !is_ascii_digit_char(t[j]))
}

/// No maximal run of ASCII digits in `t` has the length of a card number,
/// 13 to 19 digits.
pub open spec fn has_no_card_number(t: Seq<char>) -> bool {
    forall|i: int, j: int| #[trigger] digit_run(t, i, j) ==> !(13 <= j - i <= 19)
}

proof fn lemma_no_digits_no_card(t: Seq<char>)
    requires
        forall|k: int| 0 <= k < t.len() ==> !is_ascii_digit_char(#[trigger] t[k]),
    ensures
        has_no_card_number(t),
{
    assert forall|i: int, j: int| #[trigger] digit_run(t, i, j) implies !(13 <= j - i <= 19) by {
        assert(is_ascii_digit_char(t[i]));
    }
}

proof fn lemma_one_run_no_card(t: Seq<char>)
    requires
        forall|k: int| 0 <= k < t.len() ==> is_ascii_digit_char(#[trigger] t[k]),
        !(13 <= t.len() <= 19),
    ensures
        has_no_card_number(t),
{
    assert forall|i: int, j: int| #[trigger] digit_run(t, i, j) implies !(13 <= j - i <= 19) by {
        if i > 0 {
            assert(is_ascii_digit_char(t[i - 1]));
        }
        if j < t.len() {
            assert(is_ascii_digit_char(t[j]));
        }
    }
}

/// Two texts joined where at least one side of the seam is not a digit
/// keep their runs apart.
proof fn lemma_concat_no_card(a: Seq<char>, b: Seq<char>)
    requires
        has_no_card_number(a),
        has_no_card_number(b),
        a.len() == 0 || b.len() == 0 || !is_ascii_digit_char(a.last()) || !is_ascii_digit_char(b[0]),
    ensures
        has_no_card_number(a + b),
{
    let t = a + b;
    let n = a.len() as int;
    assert forall|i: int, j: int| #[trigger] digit_run(t, i, j) implies !(13 <= j - i <= 19) by {
        if j <= n {
            assert forall|k: int| i <= k < j implies is_ascii_digit_char(#[trigger] a[k]) by {
                assert(t[k] == a[k]);
                assert(is_ascii_digit_char(t[k]));
            }
            if i > 0 {
                assert(t[i - 1] == a[i - 1]);
            }
            if j < n {
                assert(t[j] == a[j]);
            }
            assert(digit_run(a, i, j));
        } else if i >= n {
            assert forall|k: int| i - n <= k < j - n implies is_ascii_digit_char(#[trigger] b[k]) by {
                assert(t[k + n] == b[k]);
                assert(is_ascii_digit_char(t[k + n]));
            }
            if i > n {
                assert(t[i - 1] == b[i - 1 - n]);
            }
            if j < t.len() {
                assert(t[j] == b[j - n]);
            }
            assert(digit_run(b, i - n, j - n));
        } else {
            assert(is_ascii_digit_char(t[n - 1]));
            assert(is_ascii_digit_char(t[n]));
            assert(t[n - 1] == a.last());
            assert(t[n] == b[0]);
        }
    }
}

/// A piece of `t` cut where no digit run is split keeps `t`'s property.
proof fn lemma_segment_no_card(t: Seq<char>, p: int, q: int)
    requires
        has_no_card_number(t),
        0 <= p <= q <= t.len(),
        p == 0 || !is_ascii_digit_char(t[p - 1]),
        q == t.len() || !is_ascii_digit_char(t[q]),
    ensures
        has_no_card_number(t.subrange(p, q)),
{
    let w = t.subrange(p, q);
    assert forall|i: int, j: int| #[trigger] digit_run(w, i, j) implies !(13 <= j - i <= 19) by {
        assert forall|k: int| i + p <= k < j + p implies is_ascii_digit_char(#[trigger] t[k]) by {
            assert(w[k - p] == t[k]);
            assert(is_ascii_digit_char(w[k - p]));
        }
        if i > 0 {
            assert(w[i - 1] == t[i - 1 + p]);
        }
        if j < w.len() {
            assert(w[j] == t[j + p]);
        }
        assert(digit_run(t, i + p, j + p));
    }
}

proof fn lemma_flushed_no_card(digits: Seq<char>)
    requires
        forall|k: int| 0 <= k < digits.len() ==> is_ascii_digit_char(#[trigger] digits[k]),
    ensures
        has_no_card_number(flushed_digits(digits)),
        flushed_digits(digits).len() == 0 || !is_ascii_digit_char(flushed_digits(digits).last())
            || flushed_digits(digits) == digits,
{
    if 13 <= digits.len() <= 19 {
        reveal_strlit("[REDACTED_CARD]");
        lemma_no_digits_no_card("[REDACTED_CARD]"@);
    } else {
        lemma_one_run_no_card(digits);
    }
}

/// Card redaction leaves no maximal run of card-number length.
proof fn lemma_cards_redacted_from_no_card(s: Seq<char>, digits: Seq<char>)
    requires
        forall|k: int| 0 <= k < digits.len() ==> is_ascii_digit_char(#[trigger] digits[k]),
    ensures
        has_no_card_number(cards_redacted_from(s, digits)),
    decreases s.len(),
{
    if s.len() == 0 {
        lemma_flushed_no_card(digits);
    } else if is_ascii_digit_char(s[0]) {
        let more = digits.push(s[0]);
        assert forall|k: int| 0 <= k < more.len() implies is_ascii_digit_char(#[trigger] more[k]) by {
            if k < digits.len() {
                assert(more[k] == digits[k]);
            }
        }
        lemma_cards_redacted_from_no_card(s.drop_first(), more);
    } else {
        let f = flushed_digits(digits);
        let c = seq![s[0]];
        let rest = cards_redacted_from(s.drop_first(), Seq::empty());
        lemma_flushed_no_card(digits);
        lemma_no_digits_no_card(c);
        lemma_concat_no_card(f, c);
        lemma_cards_redacted_from_no_card(s.drop_first(), Seq::empty());
        assert((f + c).last() == s[0]);
        lemma_concat_no_card(f + c, rest);
    }
}

/// Card redaction leaves no run of 13 to 19 digits.
pub proof fn lemma_cards_redacted_no_card(s: Seq<char>)
    ensures
        has_no_card_number(cards_redacted(s)),
{
    lemma_cards_redacted_from_no_card(s, Seq::empty());
}

proof fn lemma_white_space_is_no_digit(c: char)
    ensures
        is_white_space(c) ==> !is_ascii_digit_char(c),
{
}

/// `t[p..q]` is a word of `t`: white space or an end on each side, none inside.
pub open spec fn word_at(t: Seq<char>, p: int, q: int) -> bool {
    &&& 0 <= p < q <= t.len()
    &&& (p == 0 || is_white_space(t[p - 1]))
    &&& (q == t.len() || is_white_space(t[q]))
    &&& forall|m: int| p <= m < q ==> !is_white_space(#[trigger] t[m])
}

/// Where each word of `t` lies in `t`.
proof fn lemma_word_bounds(t: Seq<char>) -> (bounds: Seq<(int, int)>)
    ensures
        bounds.len() == words(t).len(),
        forall|k: int|
            0 <= k < bounds.len() ==> word_at(t, #[trigger] bounds[k].0, bounds[k].1) && words(t)[k]
                == t.subrange(bounds[k].0, bounds[k].1),
        forall|k: int| 0 <= k < bounds.len() - 1 ==> #[trigger] bounds[k].1 < bounds.last().0,
        t.len() > 0 && !is_white_space(t.last()) ==> bounds.len() > 0 && bounds.last().1 == t.len(),
    decreases t.len(),
{
    if t.len() == 0 {
        Seq::empty()
    } else {
        let t0 = t.drop_last();
        let b0 = lemma_word_bounds(t0);
        let n = t.len() as int;
        let c = t.last();
        assert forall|m: int| 0 <= m < n - 1 implies t[m] == #[trigger] t0[m] by {}
        if is_white_space(c) {
            assert forall|k: int| 0 <= k < b0.len() implies word_at(t, #[trigger] b0[k].0, b0[k].1)
                && words(t)[k] == t.subrange(b0[k].0, b0[k].1) by {
                let (p, q) = b0[k];
                assert(word_at(t0, p, q));
                assert forall|m: int| p <= m < q implies !is_white_space(#[trigger] t[m]) by {
                    assert(t[m] == t0[m]);
                }
                if p > 0 {
                    assert(t[p - 1] == t0[p - 1]);
                }
                if q < n - 1 {
                    assert(t[q] == t0[q]);
                }
                assert(t0.subrange(p, q) =~= t.subrange(p, q));
            }
            b0
        } else if n >= 2 && !is_white_space(t[n - 2]) {
            assert(t0.last() == t[n - 2]);
            let last = b0.len() - 1;
            let p = b0[last].0;
            let bounds = b0.update(last, (p, n));
            assert forall|k: int| 0 <= k < bounds.len() implies word_at(
                t,
                #[trigger] bounds[k].0,
                bounds[k].1,
            ) && words(t)[k] == t.subrange(bounds[k].0, bounds[k].1) by {
                if k == last {
                    assert(word_at(t0, p, n - 1));
                    assert forall|m: int| p <= m < n implies !is_white_space(#[trigger] t[m]) by {
                        if m < n - 1 {
                            assert(t[m] == t0[m]);
                        }
                    }
                    if p > 0 {
                        assert(t[p - 1] == t0[p - 1]);
                    }
                    assert(t0.subrange(p, n - 1).push(c) =~= t.subrange(p, n));
                } else {
                    let (p1, q1) = b0[k];
                    assert(word_at(t0, p1, q1));
                    assert(q1 < p);
                    assert forall|m: int| p1 <= m < q1 implies !is_white_space(#[trigger] t[m]) by {
                        assert(t[m] == t0[m]);
                    }
                    if p1 > 0 {
                        assert(t[p1 - 1] == t0[p1 - 1]);
                    }
                    assert(t[q1] == t0[q1]);
                    assert(t0.subrange(p1, q1) =~= t.subrange(p1, q1));
                }
            }
            assert forall|k: int| 0 <= k < bounds.len() - 1 implies #[trigger] bounds[k].1 < bounds.last().0 by {
                assert(b0[k].1 < b0.last().0);
            }
            bounds
        } else {
            let bounds = b0.push((n - 1, n));
            if b0.len() > 0 {
                let q = b0.last().1;
                assert(word_at(t0, b0.last().0, q));
                if q == n - 1 {
                    assert(!is_white_space(t0[q - 1]));
                    assert(t[n - 2] == t0[q - 1]);
                }
            }
            assert forall|k: int| 0 <= k < bounds.len() implies word_at(
                t,
                #[trigger] bounds[k].0,
                bounds[k].1,
            ) && words(t)[k] == t.subrange(bounds[k].0, bounds[k].1) by {
                if k == b0.len() {
                    assert(seq![c] =~= t.subrange(n - 1, n));
                } else {
                    let (p1, q1) = b0[k];
                    assert(word_at(t0, p1, q1));
                    assert(q1 < n - 1) by {
                        if k < b0.len() - 1 {
                            assert(b0[k].1 < b0.last().0);
                            assert(word_at(t0, b0.last().0, b0.last().1));
                        }
                    }
                    assert forall|m: int| p1 <= m < q1 implies !is_white_space(#[trigger] t[m]) by {
                        assert(t[m] == t0[m]);
                    }
                    if p1 > 0 {
                        assert(t[p1 - 1] == t0[p1 - 1]);
                    }
                    assert(t[q1] == t0[q1]);
                    assert(t0.subrange(p1, q1) =~= t.subrange(p1, q1));
                }
            }
            assert forall|k: int| 0 <= k < bounds.len() - 1 implies #[trigger] bounds[k].1 < bounds.last().0 by {
                let (p1, q1) = b0[k];
                assert(word_at(t0, p1, q1));
                if k < b0.len() - 1 {
                    assert(b0[k].1 < b0.last().0);
                    assert(word_at(t0, b0.last().0, b0.last().1));
                }
                if q1 == n - 1 {
                    assert(!is_white_space(t0[q1 - 1]));
                    assert(t[n - 2] == t0[q1 - 1]);
                }
            }
            bounds
        }
    }
}

/// `t` holds no line feed.
pub open spec fn single_line(t: Seq<char>) -> bool {
    forall|k: int| 0 <= k < t.len() ==> #[trigger] t[k] != '\n'
}

proof fn lemma_join_no_card(parts: Seq<Seq<char>>)
    requires
        forall|k: int|
            0 <= k < parts.len() ==> has_no_card_number(#[trigger] parts[k]) && single_line(parts[k]),
    ensures
        has_no_card_number(join_with(parts, seq![' '])),
        single_line(join_with(parts, seq![' '])),
    decreases parts.len(),
{
    let sep = seq![' '];
    if parts.len() == 0 {
        lemma_no_digits_no_card(Seq::<char>::empty());
    } else if parts.len() == 1 {
        assert(has_no_card_number(parts[0]));
    } else {
        let rest = parts.drop_last();
        assert forall|k: int| 0 <= k < rest.len() implies has_no_card_number(#[trigger] rest[k])
            && single_line(rest[k]) by {
            assert(rest[k] == parts[k]);
        }
        lemma_join_no_card(rest);
        let j = join_with(rest, sep);
        let last = parts.last();
        assert(has_no_card_number(last) && single_line(last));
        lemma_no_digits_no_card(sep);
        lemma_concat_no_card(j, sep);
        assert((j + sep).last() == ' ');
        lemma_concat_no_card(j + sep, last);
        let whole = j + sep + last;
        assert(join_with(parts, sep) == whole);
        assert forall|k: int| 0 <= k < whole.len() implies #[trigger] whole[k] != '\n' by {
            if k < j.len() {
                assert(whole[k] == j[k]);
            } else if k == j.len() {
                assert(whole[k] == ' ');
            } else {
                assert(whole[k] == last[k - j.len() - 1]);
            }
        }
    }
}

/// Redacting tokens keeps a text free of card numbers and makes it one line.
proof fn lemma_tokens_redacted_no_card(t: Seq<char>)
    requires
        has_no_card_number(t),
    ensures
        has_no_card_number(tokens_redacted(t)),
        single_line(tokens_redacted(t)),
{
    let ws = words(t);
    let bounds = lemma_word_bounds(t);
    let red = words_redacted(ws);
    let keeps = |w: Seq<char>| has_no_card_number(w) && single_line(w);
    assert forall|j: int| 0 <= j < ws.len() implies keeps(#[trigger] ws[j]) && keeps(word_redacted(ws[j])) by {
        let p = bounds[j].0;
        let q = bounds[j].1;
        assert(word_at(t, p, q));
        assert(ws[j] == t.subrange(p, q));
        if p > 0 {
            lemma_white_space_is_no_digit(t[p - 1]);
        }
        if q < t.len() {
            lemma_white_space_is_no_digit(t[q]);
        }
        lemma_segment_no_card(t, p, q);
        assert forall|m: int| 0 <= m < ws[j].len() implies #[trigger] ws[j][m] != '\n' by {
            assert(ws[j][m] == t[m + p]);
            assert(!is_white_space(t[m + p]));
        }
        if is_payment_token(ws[j]) {
            reveal_strlit("[REDACTED_TOKEN]");
            lemma_no_digits_no_card("[REDACTED_TOKEN]"@);
        }
    }
    reveal_strlit("[REDACTED_CARD]");
    lemma_no_digits_no_card("[REDACTED_CARD]"@);
    lemma_redacted_words_keep(ws, Seq::empty(), keeps);
    assert forall|k: int| 0 <= k < red.len() implies has_no_card_number(#[trigger] red[k]) && single_line(
        red[k],
    ) by {
        assert(keeps(red[k]));
    }
    lemma_join_no_card(red);
}

proof fn lemma_single_line_lines(t: Seq<char>)
    requires
        single_line(t),
    ensures
        lines(t) == seq![t],
    decreases t.len(),
{
    if t.len() > 0 {
        let t0 = t.drop_last();
        assert forall|k: int| 0 <= k < t0.len() implies #[trigger] t0[k] != '\n' by {
            assert(t0[k] == t[k]);
        }
        lemma_single_line_lines(t0);
        assert(t.last() != '\n');
        assert(t0.push(t.last()) =~= t);
        assert(seq![t0].update(0, t0.push(t.last())) =~= seq![t]);
        assert(lines(t0) == seq![t0]);
        assert(lines(t) == lines(t0).update(0, lines(t0).last().push(t.last())));
    } else {
        assert(t =~= Seq::<char>::empty());
    }
}

/// An audit text is one line: its address redaction is that of the line.
proof fn lemma_audit_text_is_one_line(s: Seq<char>)
    ensures
        ({
            let t = tokens_redacted(cards_redacted(s));
            &&& has_no_card_number(t)
            &&& single_line(t)
            &&& audit_text(s) == line_redacted(t)
        }),
{
    let c = cards_redacted(s);
    lemma_cards_redacted_no_card(s);
    let t = tokens_redacted(c);
    lemma_tokens_redacted_no_card(c);
    lemma_single_line_lines(t);
    assert(lines_redacted(seq![t]) =~= seq![line_redacted(t)]);
    assert(addresses_redacted(t) == join_with(seq![line_redacted(t)], seq!['\n']));
}

/// No audit text holds a run of 13 to 19 digits: card numbers are never
/// recorded, wherever they stood in the text.
pub proof fn lemma_audit_text_has_no_card_number(s: Seq<char>)
    ensures
        has_no_card_number(audit_text(s)),
{
    lemma_audit_text_is_one_line(s);
    let t = tokens_redacted(cards_redacted(s));
    let lowered = ascii_lower_seq(t);
    let at = first_occurrence(lowered, "address:"@);
    if at >= 0 {
        reveal_strlit("address:");
        lemma_first_occurrence_from(lowered, "address:"@, 0);
        assert(occurs_at(lowered, "address:"@, at));
        assert(lowered.subrange(at, at + 8)[0] == 'a');
        assert(lowered[at] == ascii_lower(t[at]));
        assert(!is_ascii_digit_char(t[at]));
        lemma_segment_no_card(t, 0, at);
        assert(t.take(at) =~= t.subrange(0, at));
        let marker = "address: [REDACTED_ADDRESS]"@;
        reveal_strlit("address: [REDACTED_ADDRESS]");
        lemma_no_digits_no_card(marker);
        lemma_concat_no_card(t.take(at), marker);
    }
}

/// From the first `address:` of `t` on, in any letter case, there is only
/// `address: [REDACTED_ADDRESS]`.
pub open spec fn address_hidden(t: Seq<char>) -> bool {
    let at = first_occurrence(ascii_lower_seq(t), "address:"@);
    at >= 0 ==> t.subrange(at, t.len() as int) == "address: [REDACTED_ADDRESS]"@
}

proof fn lemma_first_occurrence_is(hay: Seq<char>, needle: Seq<char>, k: int)
    requires
        0 <= k,
        occurs_at(hay, needle, k),
        forall|j: int| 0 <= j < k ==> !occurs_at(hay, needle, j),
    ensures
        first_occurrence(hay, needle) == k,
{
    lemma_first_occurrence_from(hay, needle, 0);
    let f = first_occurrence(hay, needle);
    if f == -1 {
        assert(!occurs_at(hay, needle, k));
    } else if f < k {
        assert(!occurs_at(hay, needle, f));
    } else if f > k {
        assert(!occurs_at(hay, needle, k));
    }
}

/// No audit text shows what follows `address:`: a line that names an
/// address keeps only what came before it and the redaction marker.
pub proof fn lemma_audit_text_hides_addresses(s: Seq<char>)
    ensures
        address_hidden(audit_text(s)),
{
    lemma_audit_text_is_one_line(s);
    let t = tokens_redacted(cards_redacted(s));
    let lowered = ascii_lower_seq(t);
    let needle = "address:"@;
    let at = first_occurrence(lowered, needle);
    if at >= 0 {
        reveal_strlit("address:");
        reveal_strlit("address: [REDACTED_ADDRESS]");
        let marker = "address: [REDACTED_ADDRESS]"@;
        lemma_first_occurrence_from(lowered, needle, 0);
        assert(occurs_at(lowered, needle, at));
        let out = t.take(at) + marker;
        assert(audit_text(s) == out);
        let low = ascii_lower_seq(out);
        assert forall|k: int| 0 <= k < at implies #[trigger] low[k] == lowered[k] by {
            assert(out[k] == t[k]);
        }
        assert forall|k: int| at <= k < out.len() implies #[trigger] low[k] == ascii_lower(marker[k - at]) by {
            assert(out[k] == marker[k - at]);
        }
        assert(low.subrange(at, at + 8) =~= needle);
        assert(occurs_at(low, needle, at));
        assert forall|j: int| 0 <= j < at implies !occurs_at(low, needle, j) by {
            if j + 8 <= at {
                assert(!occurs_at(lowered, needle, j));
                assert(low.subrange(j, j + 8) =~= lowered.subrange(j, j + 8));
            } else {
                if occurs_at(low, needle, j) {
                    assert(low.subrange(j, j + 8)[at - j] == low[at]);
                    assert(marker[0] == 'a');
                    assert(low[at] == ascii_lower(marker[0]));
                    assert(low[at] == 'a');
                    assert(needle[at - j] == low.subrange(j, j + 8)[at - j]);
                    assert(needle[at - j] != 'a');
                }
            }
        }
        lemma_first_occurrence_is(low, needle, at);
        assert(out.subrange(at, out.len() as int) =~= marker);
    }
}

/// No word of `t`, found by its position, is a payment token.
pub open spec fn token_free(t: Seq<char>) -> bool {
    forall|p: int, q: int| #[trigger] word_at(t, p, q) ==> !is_payment_token(t.subrange(p, q))
}

/// No word of `t` is a payment token.
pub open spec fn has_no_payment_token(t: Seq<char>) -> bool {
    forall|k: int| 0 <= k < words(t).len() ==> !is_payment_token(#[trigger] words(t)[k])
}

pub open spec fn white_space_free(w: Seq<char>) -> bool {
    forall|m: int| 0 <= m < w.len() ==> !is_white_space(#[trigger] w[m])
}

proof fn lemma_single_word_token_free(w: Seq<char>)
    requires
        white_space_free(w),
        !is_payment_token(w),
    ensures
        token_free(w),
{
    assert forall|p: int, q: int| #[trigger] word_at(w, p, q) implies !is_payment_token(w.subrange(p, q)) by {
        if p > 0 {
            assert(!is_white_space(w[p - 1]));
        }
        if q < w.len() {
            assert(!is_white_space(w[q]));
        }
        assert(w.subrange(p, q) =~= w);
    }
}

/// Two texts joined by a space keep their words apart.
proof fn lemma_space_join_token_free(a: Seq<char>, b: Seq<char>)
    requires
        token_free(a),
        token_free(b),
    ensures
        token_free(a + seq![' '] + b),
{
    let t = a + seq![' '] + b;
    let n = a.len() as int;
    assert(t[n] == ' ');
    assert forall|p: int, q: int| #[trigger] word_at(t, p, q) implies !is_payment_token(t.subrange(p, q)) by {
        if q <= n {
            assert forall|m: int| p <= m < q implies !is_white_space(#[trigger] a[m]) by {
                assert(t[m] == a[m]);
            }
            if p > 0 {
                assert(t[p - 1] == a[p - 1]);
            }
            if q < n {
                assert(t[q] == a[q]);
            }
            assert(word_at(a, p, q));
            assert(t.subrange(p, q) =~= a.subrange(p, q));
        } else if p > n {
            let o = n + 1;
            assert forall|m: int| p - o <= m < q - o implies !is_white_space(#[trigger] b[m]) by {
                assert(t[m + o] == b[m]);
            }
            if p > o {
                assert(t[p - 1] == b[p - 1 - o]);
            }
            if q < t.len() {
                assert(t[q] == b[q - o]);
            }
            assert(word_at(b, p - o, q - o));
            assert(t.subrange(p, q) =~= b.subrange(p - o, q - o));
        } else {
            assert(!is_white_space(t[n]));
        }
    }
}

proof fn lemma_join_token_free(parts: Seq<Seq<char>>)
    requires
        forall|k: int| 0 <= k < parts.len() ==> token_free(#[trigger] parts[k]),
    ensures
        token_free(join_with(parts, seq![' '])),
    decreases parts.len(),
{
    if parts.len() == 0 {
        let e = Seq::<char>::empty();
        assert forall|p: int, q: int| #[trigger] word_at(e, p, q) implies !is_payment_token(e.subrange(p, q)) by {}
    } else if parts.len() == 1 {
        assert(token_free(parts[0]));
    } else {
        let rest = parts.drop_last();
        assert forall|k: int| 0 <= k < rest.len() implies token_free(#[trigger] rest[k]) by {
            assert(rest[k] == parts[k]);
        }
        lemma_join_token_free(rest);
        assert(token_free(parts.last()));
        lemma_space_join_token_free(join_with(rest, seq![' ']), parts.last());
    }
}

/// A long enough beginning of a word that is no payment token is none either.
proof fn lemma_prefix_not_token(w: Seq<char>, n: int)
    requires
        !is_payment_token(w),
        3 <= n <= w.len(),
    ensures
        !is_payment_token(w.take(n)),
{
    reveal_strlit("tok_");
    reveal_strlit("sk_");
    reveal_strlit("pk_");
    let lw = ascii_lower_seq(w);
    let lp = ascii_lower_seq(w.take(n));
    assert forall|k: int| 0 <= k < n implies #[trigger] lp[k] == lw[k] by {}
    if contains_seq(lp, "tok_"@) {
        let i = choose|i: int| occurs_at(lp, "tok_"@, i);
        assert(lp.subrange(i, i + 4) =~= lw.subrange(i, i + 4));
        assert(occurs_at(lw, "tok_"@, i));
    }
    assert(lp.subrange(0, 3) =~= lw.subrange(0, 3));
}

/// The redaction markers are no payment tokens.
proof fn lemma_marker_not_token(m: Seq<char>)
    requires
        m == "[REDACTED_TOKEN]"@ || m == "[REDACTED_ADDRESS]"@ || m == "address:"@ || m
            == "[REDACTED_CARD]"@,
    ensures
        !is_payment_token(m),
        white_space_free(m),
{
    reveal_strlit("[REDACTED_TOKEN]");
    reveal_strlit("[REDACTED_ADDRESS]");
    reveal_strlit("[REDACTED_CARD]");
    reveal_strlit("address:");
    let l = ascii_lower_seq(m);
    assert(l.len() == m.len());
    assert forall|k: int| 0 <= k < m.len() implies !is_white_space(#[trigger] m[k]) by {}
    if contains_seq(l, "tok_"@) {
        reveal_strlit("tok_");
        let i = choose|i: int| occurs_at(l, "tok_"@, i);
        assert(l.subrange(i, i + 4)[3] == '_');
        assert(l.subrange(i, i + 4)[1] == 'o');
        assert(l[i + 3] == '_');
        assert(l[i + 1] == 'o');
        assert(m[i + 3] == '_' || ascii_lower(m[i + 3]) == '_');
        assert(i + 3 == 9);
        assert(l[7] == ascii_lower(m[7]));
    }
    reveal_strlit("sk_");
    reveal_strlit("pk_");
    assert(l[0] == ascii_lower(m[0]));
    if starts_with_seq(l, "sk_"@) {
        assert(l.subrange(0, 3)[0] == 's');
    }
    if starts_with_seq(l, "pk_"@) {
        assert(l.subrange(0, 3)[0] == 'p');
    }
}

proof fn lemma_tokens_redacted_token_free(c: Seq<char>)
    ensures
        token_free(tokens_redacted(c)),
{
    let ws = words(c);
    let bounds = lemma_word_bounds(c);
    let red = words_redacted(ws);
    let keeps = |w: Seq<char>| token_free(w);
    assert forall|j: int| 0 <= j < ws.len() implies (is_number_word(#[trigger] ws[j]) ==> keeps(ws[j]))
        && keeps(word_redacted(ws[j])) by {
        let p = bounds[j].0;
        let q = bounds[j].1;
        assert(word_at(c, p, q));
        assert(ws[j] == c.subrange(p, q));
        assert forall|m: int| 0 <= m < ws[j].len() implies !is_white_space(#[trigger] ws[j][m]) by {
            assert(ws[j][m] == c[m + p]);
        }
        if is_payment_token(ws[j]) {
            lemma_marker_not_token("[REDACTED_TOKEN]"@);
            lemma_single_word_token_free("[REDACTED_TOKEN]"@);
            if is_number_word(ws[j]) {
                lemma_number_word_not_token(ws[j]);
            }
        } else {
            lemma_single_word_token_free(ws[j]);
        }
    }
    lemma_marker_not_token("[REDACTED_CARD]"@);
    lemma_single_word_token_free("[REDACTED_CARD]"@);
    lemma_redacted_words_keep(ws, Seq::empty(), keeps);
    assert forall|k: int| 0 <= k < red.len() implies token_free(#[trigger] red[k]) by {
        assert(keeps(red[k]));
    }
    lemma_join_token_free(red);
}

/// Where the word that covers position `i` of `t` ends.
pub open spec fn word_end(t: Seq<char>, i: int) -> int
    decreases t.len() - i,
{
    if i < 0 || i >= t.len() || is_white_space(t[i]) {
        i
    } else {
        word_end(t, i + 1)
    }
}

proof fn lemma_word_end(t: Seq<char>, i: int)
    requires
        0 <= i <= t.len(),
    ensures
        i <= word_end(t, i) <= t.len(),
        word_end(t, i) == t.len() || is_white_space(t[word_end(t, i)]),
        forall|m: int| i <= m < word_end(t, i) ==> !is_white_space(#[trigger] t[m]),
    decreases t.len() - i,
{
    if i < t.len() && !is_white_space(t[i]) {
        lemma_word_end(t, i + 1);
    }
}

/// Two texts with the same lower-case letters are tokens alike.
proof fn lemma_token_by_lowercase(x: Seq<char>, y: Seq<char>)
    requires
        ascii_lower_seq(x) == ascii_lower_seq(y),
    ensures
        is_payment_token(x) == is_payment_token(y),
{
}

proof fn lemma_lower_keeps_words(c: char)
    ensures
        !is_white_space(ascii_lower(c)) ==> !is_white_space(c),
{
}

/// Redacting the address of a line of words that are no tokens leaves
/// words that are no tokens.
proof fn lemma_line_redacted_token_free(t: Seq<char>)
    requires
        token_free(t),
    ensures
        token_free(line_redacted(t)),
{
    let lowered = ascii_lower_seq(t);
    let needle = "address:"@;
    let at = first_occurrence(lowered, needle);
    if at >= 0 {
        reveal_strlit("address:");
        reveal_strlit("address: [REDACTED_ADDRESS]");
        reveal_strlit("[REDACTED_ADDRESS]");
        let a = "address:"@;
        let b = "[REDACTED_ADDRESS]"@;
        let marker = "address: [REDACTED_ADDRESS]"@;
        lemma_marker_not_token(a);
        lemma_marker_not_token(b);
        lemma_single_word_token_free(a);
        lemma_single_word_token_free(b);
        lemma_space_join_token_free(a, b);
        assert(a + seq![' '] + b =~= marker);
        lemma_first_occurrence_from(lowered, needle, 0);
        assert(occurs_at(lowered, needle, at));
        let out = t.take(at) + marker;
        assert(line_redacted(t) == out);
        assert forall|k: int| 0 <= k < 8 implies lowered[at + k] == #[trigger] needle[k] by {
            assert(lowered.subrange(at, at + 8)[k] == lowered[at + k]);
        }
        assert forall|k: int| at <= k < at + 8 implies !is_white_space(#[trigger] t[k]) by {
            assert(lowered[k] == ascii_lower(t[k]));
            assert(lowered[k] == needle[k - at]);
            lemma_lower_keeps_words(t[k]);
        }
        assert forall|p: int, q: int| #[trigger] word_at(out, p, q) implies !is_payment_token(
            out.subrange(p, q),
        ) by {
            if q <= at {
                if q == at {
                    assert(out[at] == marker[0]);
                }
                assert forall|m: int| p <= m < q implies !is_white_space(#[trigger] t[m]) by {
                    assert(out[m] == t[m]);
                }
                if p > 0 {
                    assert(out[p - 1] == t[p - 1]);
                }
                assert(out[q] == t[q]);
                assert(word_at(t, p, q));
                assert(out.subrange(p, q) =~= t.subrange(p, q));
            } else if p >= at {
                assert forall|m: int| p - at <= m < q - at implies !is_white_space(#[trigger] marker[m]) by {
                    assert(out[m + at] == marker[m]);
                }
                if p > at {
                    assert(out[p - 1] == marker[p - 1 - at]);
                }
                if q < out.len() {
                    assert(out[q] == marker[q - at]);
                }
                assert(word_at(marker, p - at, q - at));
                assert(out.subrange(p, q) =~= marker.subrange(p - at, q - at));
            } else {
                assert(out[at + 8] == marker[8]);
                assert(marker[8] == ' ');
                if q > at + 8 {
                    assert(!is_white_space(out[at + 8]));
                }
                if q < at + 8 {
                    assert(out[q] == marker[q - at]);
                }
                assert(q == at + 8);
                lemma_word_end(t, at + 8);
                let e = word_end(t, at + 8);
                assert forall|m: int| p <= m < e implies !is_white_space(#[trigger] t[m]) by {
                    if m < at {
                        assert(out[m] == t[m]);
                    }
                }
                if p > 0 {
                    assert(out[p - 1] == t[p - 1]);
                }
                assert(word_at(t, p, e));
                let whole = t.subrange(p, e);
                let piece = out.subrange(p, q);
                assert(!is_payment_token(whole));
                assert(ascii_lower_seq(piece) =~= ascii_lower_seq(whole.take(q - p))) by {
                    assert forall|k: int| 0 <= k < q - p implies ascii_lower(#[trigger] piece[k]) == ascii_lower(
                        whole[k],
                    ) by {
                        if p + k < at {
                            assert(piece[k] == t[p + k]);
                        } else {
                            assert(piece[k] == marker[p + k - at]);
                            assert(marker[p + k - at] == needle[p + k - at]);
                            assert(lowered[p + k] == ascii_lower(t[p + k]));
                        }
                    }
                }
                lemma_prefix_not_token(whole, q - p);
                lemma_token_by_lowercase(piece, whole.take(q - p));
            }
        }
    }
}

/// No word of an audit text is a payment token: whatever holds `tok_` or
/// starts with `sk_` or `pk_`, in any letter case, is never recorded.
pub proof fn lemma_audit_text_has_no_payment_token(s: Seq<char>)
    ensures
        has_no_payment_token(audit_text(s)),
{
    lemma_audit_text_is_one_line(s);
    let t = tokens_redacted(cards_redacted(s));
    lemma_tokens_redacted_token_free(cards_redacted(s));
    lemma_line_redacted_token_free(t);
    let out = audit_text(s);
    let bounds = lemma_word_bounds(out);
    assert forall|k: int| 0 <= k < words(out).len() implies !is_payment_token(#[trigger] words(out)[k]) by {
        assert(word_at(out, bounds[k].0, bounds[k].1));
    }
}

/// What holds of every word that can come out of word redaction holds of
/// every word it writes.
proof fn lemma_redacted_words_keep(
    ws: Seq<Seq<char>>,
    pending: Seq<Seq<char>>,
    keeps: spec_fn(Seq<char>) -> bool,
)
    requires
        forall|j: int|
            0 <= j < ws.len() ==> (is_number_word(#[trigger] ws[j]) ==> keeps(ws[j])) && keeps(
                word_redacted(ws[j]),
            ),
        forall|j: int| 0 <= j < pending.len() ==> keeps(#[trigger] pending[j]),
        keeps("[REDACTED_CARD]"@),
    ensures
        forall|k: int|
            0 <= k < words_redacted_from(ws, pending).len() ==> keeps(
                #[trigger] words_redacted_from(ws, pending)[k],
            ),
    decreases ws.len(),
{
    let g = group_flushed(pending);
    assert forall|k: int| 0 <= k < g.len() implies keeps(#[trigger] g[k]) by {
        if 13 <= words_digits(pending) <= 19 {
            assert(g[k] == "[REDACTED_CARD]"@);
        } else {
            assert(g[k] == pending[k]);
        }
    }
    if ws.len() > 0 {
        let rest = ws.drop_first();
        assert forall|j: int| 0 <= j < rest.len() implies (is_number_word(#[trigger] rest[j]) ==> keeps(
            rest[j],
        )) && keeps(word_redacted(rest[j])) by {
            assert(rest[j] == ws[j + 1]);
        }
        if is_number_word(ws[0]) {
            let more = pending.push(ws[0]);
            assert forall|j: int| 0 <= j < more.len() implies keeps(#[trigger] more[j]) by {
                if j < pending.len() {
                    assert(more[j] == pending[j]);
                }
            }
            lemma_redacted_words_keep(rest, more, keeps);
            assert(words_redacted_from(ws, pending) == words_redacted_from(rest, more));
        } else {
            let e = Seq::<Seq<char>>::empty();
            lemma_redacted_words_keep(rest, e, keeps);
            let tail = words_redacted_from(rest, e);
            let out = g + seq![word_redacted(ws[0])] + tail;
            assert(words_redacted_from(ws, pending) == out);
            assert forall|k: int| 0 <= k < out.len() implies keeps(#[trigger] out[k]) by {
                if k < g.len() {
                    assert(out[k] == g[k]);
                } else if k == g.len() {
                    assert(out[k] == word_redacted(ws[0]));
                } else {
                    assert(out[k] == tail[k - g.len() - 1]);
                }
            }
        }
    } else {
        assert(words_redacted_from(ws, pending) == g);
    }
}

/// A number word holds no letters, so it is no payment token.
proof fn lemma_number_word_not_token(w: Seq<char>)
    requires
        is_number_word(w),
    ensures
        !is_payment_token(w),
{
    reveal_strlit("tok_");
    reveal_strlit("sk_");
    reveal_strlit("pk_");
    let l = ascii_lower_seq(w);
    assert forall|k: int| 0 <= k < w.len() implies #[trigger] l[k] == w[k] by {}
    if contains_seq(l, "tok_"@) {
        let i = choose|i: int| occurs_at(l, "tok_"@, i);
        assert(l.subrange(i, i + 4)[0] == 't');
        assert(l[i] == w[i]);
    }
    if starts_with_seq(l, "sk_"@) {
        assert(l.subrange(0, 3)[0] == 's');
        assert(l[0] == w[0]);
    }
    if starts_with_seq(l, "pk_"@) {
        assert(l.subrange(0, 3)[0] == 'p');
        assert(l[0] == w[0]);
    }
}

/// `ws[i..j]` is a maximal run of number words.
pub open spec fn number_run(ws: Seq<Seq<char>>, i: int, j: int) -> bool {
    &&& 0 <= i < j <= ws.len()
    &&& forall|k: int| i <= k < j ==> is_number_word(#[trigger] ws[k])
    &&& (i == 0 || !is_number_word(ws[i - 1]))
    &&& (j == ws.len() || !is_number_word(ws[j]))
}

/// No maximal run of number words in `ws` holds, over its groups, the 13 to
/// 19 digits of a card number.
pub open spec fn has_no_grouped_card(ws: Seq<Seq<char>>) -> bool {
    forall|i: int, j: int| #[trigger] number_run(ws, i, j) ==> !(13 <= words_digits(ws.subrange(i, j)) <= 19)
}

proof fn lemma_no_number_words(ws: Seq<Seq<char>>)
    requires
        forall|k: int| 0 <= k < ws.len() ==> !is_number_word(#[trigger] ws[k]),
    ensures
        has_no_grouped_card(ws),
{
    assert forall|i: int, j: int| #[trigger] number_run(ws, i, j) implies !(13 <= words_digits(
        ws.subrange(i, j),
    ) <= 19) by {
        assert(is_number_word(ws[i]));
    }
}

proof fn lemma_one_number_run(ws: Seq<Seq<char>>)
    requires
        forall|k: int| 0 <= k < ws.len() ==> is_number_word(#[trigger] ws[k]),
        !(13 <= words_digits(ws) <= 19),
    ensures
        has_no_grouped_card(ws),
{
    assert forall|i: int, j: int| #[trigger] number_run(ws, i, j) implies !(13 <= words_digits(
        ws.subrange(i, j),
    ) <= 19) by {
        if i > 0 {
            assert(is_number_word(ws[i - 1]));
        }
        if j < ws.len() {
            assert(is_number_word(ws[j]));
        }
        assert(ws.subrange(i, j) =~= ws);
    }
}

proof fn lemma_concat_no_grouped_card(a: Seq<Seq<char>>, b: Seq<Seq<char>>)
    requires
        has_no_grouped_card(a),
        has_no_grouped_card(b),
        a.len() == 0 || b.len() == 0 || !is_number_word(a.last()) || !is_number_word(b[0]),
    ensures
        has_no_grouped_card(a + b),
{
    let t = a + b;
    let n = a.len() as int;
    assert forall|i: int, j: int| #[trigger] number_run(t, i, j) implies !(13 <= words_digits(
        t.subrange(i, j),
    ) <= 19) by {
        if j <= n {
            assert forall|k: int| i <= k < j implies is_number_word(#[trigger] a[k]) by {
                assert(t[k] == a[k]);
            }
            if i > 0 {
                assert(t[i - 1] == a[i - 1]);
            }
            if j < n {
                assert(t[j] == a[j]);
            }
            assert(number_run(a, i, j));
            assert(t.subrange(i, j) =~= a.subrange(i, j));
        } else if i >= n {
            assert forall|k: int| i - n <= k < j - n implies is_number_word(#[trigger] b[k]) by {
                assert(t[k + n] == b[k]);
            }
            if i > n {
                assert(t[i - 1] == b[i - 1 - n]);
            }
            if j < t.len() {
                assert(t[j] == b[j - n]);
            }
            assert(number_run(b, i - n, j - n));
            assert(t.subrange(i, j) =~= b.subrange(i - n, j - n));
        } else {
            assert(is_number_word(t[n - 1]));
            assert(is_number_word(t[n]));
            assert(t[n - 1] == a.last());
            assert(t[n] == b[0]);
        }
    }
}

/// A beginning of a word list cut before a word that is no number word
/// keeps the list's property.
proof fn lemma_prefix_no_grouped_card(a: Seq<Seq<char>>, b: Seq<Seq<char>>)
    requires
        has_no_grouped_card(a + b),
        b.len() == 0 || !is_number_word(b[0]),
    ensures
        has_no_grouped_card(a),
{
    let t = a + b;
    assert forall|i: int, j: int| #[trigger] number_run(a, i, j) implies !(13 <= words_digits(
        a.subrange(i, j),
    ) <= 19) by {
        assert forall|k: int| i <= k < j implies is_number_word(#[trigger] t[k]) by {
            assert(t[k] == a[k]);
        }
        if i > 0 {
            assert(t[i - 1] == a[i - 1]);
        }
        if j < a.len() {
            assert(t[j] == a[j]);
        } else if b.len() > 0 {
            assert(t[j] == b[0]);
        }
        assert(number_run(t, i, j));
        assert(t.subrange(i, j) =~= a.subrange(i, j));
    }
}

proof fn lemma_markers_not_number_words()
    ensures
        !is_number_word("[REDACTED_CARD]"@),
        !is_number_word("[REDACTED_TOKEN]"@),
        !is_number_word("address:"@),
        !is_number_word("[REDACTED_ADDRESS]"@),
{
    reveal_strlit("[REDACTED_CARD]");
    reveal_strlit("[REDACTED_TOKEN]");
    reveal_strlit("address:");
    reveal_strlit("[REDACTED_ADDRESS]");
    assert(!(is_ascii_digit_char("[REDACTED_CARD]"@[0]) || "[REDACTED_CARD]"@[0] == '-'));
    assert(!(is_ascii_digit_char("[REDACTED_TOKEN]"@[0]) || "[REDACTED_TOKEN]"@[0] == '-'));
    assert(!(is_ascii_digit_char("address:"@[0]) || "address:"@[0] == '-'));
    assert(!(is_ascii_digit_char("[REDACTED_ADDRESS]"@[0]) || "[REDACTED_ADDRESS]"@[0] == '-'));
}

proof fn lemma_group_flushed_no_grouped_card(pending: Seq<Seq<char>>)
    requires
        forall|k: int| 0 <= k < pending.len() ==> is_number_word(#[trigger] pending[k]),
    ensures
        has_no_grouped_card(group_flushed(pending)),
        group_flushed(pending).len() == 0 || !is_number_word(group_flushed(pending).last())
            || group_flushed(pending) == pending,
{
    lemma_markers_not_number_words();
    if 13 <= words_digits(pending) <= 19 {
        let g = seq!["[REDACTED_CARD]"@];
        assert(g[0] == "[REDACTED_CARD]"@);
        lemma_no_number_words(g);
    } else {
        lemma_one_number_run(pending);
    }
}

proof fn lemma_redacted_from_no_grouped_card(ws: Seq<Seq<char>>, pending: Seq<Seq<char>>)
    requires
        forall|k: int| 0 <= k < pending.len() ==> is_number_word(#[trigger] pending[k]),
    ensures
        has_no_grouped_card(words_redacted_from(ws, pending)),
    decreases ws.len(),
{
    lemma_markers_not_number_words();
    if ws.len() == 0 {
        lemma_group_flushed_no_grouped_card(pending);
    } else if is_number_word(ws[0]) {
        let more = pending.push(ws[0]);
        assert forall|k: int| 0 <= k < more.len() implies is_number_word(#[trigger] more[k]) by {
            if k < pending.len() {
                assert(more[k] == pending[k]);
            }
        }
        lemma_redacted_from_no_grouped_card(ws.drop_first(), more);
    } else {
        let g = group_flushed(pending);
        let w = seq![word_redacted(ws[0])];
        let rest = words_redacted_from(ws.drop_first(), Seq::empty());
        lemma_group_flushed_no_grouped_card(pending);
        assert(w[0] == word_redacted(ws[0]));
        assert(!is_number_word(w[0]));
        lemma_no_number_words(w);
        lemma_concat_no_grouped_card(g, w);
        lemma_redacted_from_no_grouped_card(ws.drop_first(), Seq::empty());
        assert((g + w).last() == w[0]);
        lemma_concat_no_grouped_card(g + w, rest);
    }
}

/// Word redaction leaves no card number written in groups.
pub proof fn lemma_redacted_words_have_no_grouped_card(ws: Seq<Seq<char>>)
    ensures
        has_no_grouped_card(words_redacted(ws)),
{
    lemma_redacted_from_no_grouped_card(ws, Seq::empty());
}

proof fn lemma_words_single(w: Seq<char>)
    requires
        w.len() > 0,
        white_space_free(w),
    ensures
        words(w) == seq![w],
    decreases w.len(),
{
    let w0 = w.drop_last();
    if w.len() == 1 {
        assert(w0 =~= Seq::<char>::empty());
        assert(w =~= seq![w[0]]);
        assert(!is_white_space(w.last()));
        assert(words(w) == words(w0).push(seq![w.last()]));
        assert(words(w0).push(seq![w.last()]) =~= seq![w]);
    } else {
        assert(white_space_free(w0)) by {
            assert forall|m: int| 0 <= m < w0.len() implies !is_white_space(#[trigger] w0[m]) by {
                assert(w0[m] == w[m]);
            }
        }
        lemma_words_single(w0);
        assert(!is_white_space(w.last()));
        assert(!is_white_space(w[w.len() - 2]));
        assert(w0.push(w.last()) =~= w);
        assert(seq![w0].update(0, w0.push(w.last())) =~= seq![w]);
        assert(words(w) == words(w0).update(0, words(w0).last().push(w.last())));
    }
}

/// A word written after a space is one more word.
proof fn lemma_words_space_word(x: Seq<char>, w: Seq<char>)
    requires
        w.len() > 0,
        white_space_free(w),
    ensures
        words(x + seq![' '] + w) == words(x).push(w),
    decreases w.len(),
{
    let xs = x + seq![' '];
    assert(xs.drop_last() =~= x);
    assert(words(xs) == words(x));
    let y = xs + w;
    let w0 = w.drop_last();
    assert(y.drop_last() =~= xs + w0);
    if w.len() == 1 {
        assert(w0 =~= Seq::<char>::empty());
        assert(xs + w0 =~= xs);
        assert(y[y.len() - 2] == ' ');
        assert(w =~= seq![w[0]]);
        assert(y.last() == w[0]);
    } else {
        assert(white_space_free(w0)) by {
            assert forall|m: int| 0 <= m < w0.len() implies !is_white_space(#[trigger] w0[m]) by {
                assert(w0[m] == w[m]);
            }
        }
        lemma_words_space_word(x, w0);
        assert(y[y.len() - 2] == w[w.len() - 2]);
        assert(!is_white_space(w[w.len() - 2]));
        assert(y.last() == w.last());
        assert(!is_white_space(w.last()));
        assert(w0.push(w.last()) =~= w);
        assert(words(x).push(w0).update(words(x).len() as int, w0.push(w.last())) =~= words(x).push(w));
    }
}

/// Joining words with single spaces gives back the same words.
proof fn lemma_words_of_join(parts: Seq<Seq<char>>)
    requires
        forall|k: int| 0 <= k < parts.len() ==> (#[trigger] parts[k]).len() > 0 && white_space_free(parts[k]),
    ensures
        words(join_with(parts, seq![' '])) == parts,
    decreases parts.len(),
{
    if parts.len() == 0 {
        assert(words(Seq::<char>::empty()) =~= parts);
    } else if parts.len() == 1 {
        assert(parts[0].len() > 0 && white_space_free(parts[0]));
        lemma_words_single(parts[0]);
        assert(parts =~= seq![parts[0]]);
    } else {
        let rest = parts.drop_last();
        assert forall|k: int| 0 <= k < rest.len() implies (#[trigger] rest[k]).len() > 0 && white_space_free(rest[k]) by {
            assert(rest[k] == parts[k]);
        }
        lemma_words_of_join(rest);
        assert(parts.last().len() > 0 && white_space_free(parts.last()));
        lemma_words_space_word(join_with(rest, seq![' ']), parts.last());
        assert(rest.push(parts.last()) =~= parts);
    }
}

/// The words of the text after token redaction are the redacted words.
proof fn lemma_token_pass_words(c: Seq<char>)
    ensures
        words(tokens_redacted(c)) == words_redacted(words(c)),
{
    let ws = words(c);
    let bounds = lemma_word_bounds(c);
    let keeps = |w: Seq<char>| w.len() > 0 && white_space_free(w);
    reveal_strlit("[REDACTED_TOKEN]");
    reveal_strlit("[REDACTED_CARD]");
    lemma_marker_not_token("[REDACTED_TOKEN]"@);
    lemma_marker_not_token("[REDACTED_CARD]"@);
    assert forall|j: int| 0 <= j < ws.len() implies (is_number_word(#[trigger] ws[j]) ==> keeps(ws[j]))
        && keeps(word_redacted(ws[j])) by {
        let p = bounds[j].0;
        let q = bounds[j].1;
        assert(word_at(c, p, q));
        assert(ws[j] == c.subrange(p, q));
        assert forall|m: int| 0 <= m < ws[j].len() implies !is_white_space(#[trigger] ws[j][m]) by {
            assert(ws[j][m] == c[m + p]);
        }
    }
    lemma_redacted_words_keep(ws, Seq::empty(), keeps);
    let red = words_redacted(ws);
    assert forall|k: int| 0 <= k < red.len() implies (#[trigger] red[k]).len() > 0 && white_space_free(red[k]) by {
        assert(keeps(red[k]));
    }
    lemma_words_of_join(red);
}

/// Text cut after white space splits into the words of each side.
proof fn lemma_words_append(a: Seq<char>, b: Seq<char>)
    requires
        a.len() == 0 || is_white_space(a.last()),
    ensures
        words(a + b) == words(a) + words(b),
    decreases b.len(),
{
    if b.len() == 0 {
        assert(a + b =~= a);
        assert(words(a) + words(b) =~= words(a));
    } else {
        let b0 = b.drop_last();
        let c = b.last();
        lemma_words_append(a, b0);
        let y = a + b;
        assert(y.drop_last() =~= a + b0);
        assert(y.last() == c);
        if is_white_space(c) {
        } else if y.len() >= 2 && !is_white_space(y[y.len() - 2]) {
            assert(b0.len() > 0) by {
                if b0.len() == 0 {
                    assert(y[y.len() - 2] == a.last());
                }
            }
            assert(y[y.len() - 2] == b0.last());
            assert(b[b.len() - 2] == b0.last());
            let bounds = lemma_word_bounds(b0);
            assert(words(b0).len() > 0);
            assert((words(a) + words(b0)).update(
                (words(a) + words(b0)).len() - 1,
                (words(a) + words(b0)).last().push(c),
            ) =~= words(a) + words(b0).update(words(b0).len() - 1, words(b0).last().push(c)));
        } else {
            if b.len() >= 2 {
                assert(y[y.len() - 2] == b[b.len() - 2]);
            }
            assert((words(a) + words(b0)).push(seq![c]) =~= words(a) + words(b0).push(seq![c]));
        }
    }
}

/// The first word of text that starts with the word-free-of-space `u` begins with `u`.
proof fn lemma_first_word(u: Seq<char>, v: Seq<char>)
    requires
        u.len() > 0,
        white_space_free(u),
    ensures
        words(u + v).len() > 0,
        words(u + v)[0].len() >= u.len(),
        words(u + v)[0].subrange(0, u.len() as int) == u,
    decreases v.len(),
{
    if v.len() == 0 {
        assert(u + v =~= u);
        lemma_words_single(u);
        assert(u.subrange(0, u.len() as int) =~= u);
    } else {
        let v0 = v.drop_last();
        lemma_first_word(u, v0);
        let y = u + v;
        assert(y.drop_last() =~= u + v0);
        let w0 = words(u + v0);
        if !is_white_space(y.last()) && y.len() >= 2 && !is_white_space(y[y.len() - 2]) {
            if w0.len() == 1 {
                assert(w0[0].push(y.last()).subrange(0, u.len() as int) =~= w0[0].subrange(0, u.len() as int));
            }
        }
    }
}

/// Where the word that ends at position `i` of `t` starts.
pub open spec fn word_start(t: Seq<char>, i: int) -> int
    decreases i,
{
    if i <= 0 || i > t.len() || is_white_space(t[i - 1]) {
        i
    } else {
        word_start(t, i - 1)
    }
}

proof fn lemma_word_start(t: Seq<char>, i: int)
    requires
        0 <= i <= t.len(),
    ensures
        0 <= word_start(t, i) <= i,
        word_start(t, i) == 0 || is_white_space(t[word_start(t, i) - 1]),
        forall|m: int| word_start(t, i) <= m < i ==> !is_white_space(#[trigger] t[m]),
    decreases i,
{
    if i > 0 && !is_white_space(t[i - 1]) {
        lemma_word_start(t, i - 1);
    }
}

proof fn lemma_address_words()
    ensures
        ({
            let a = "address:"@;
            let b = "[REDACTED_ADDRESS]"@;
            &&& a.len() > 0 && white_space_free(a)
            &&& b.len() > 0 && white_space_free(b)
            &&& "address: [REDACTED_ADDRESS]"@ == a + seq![' '] + b
        }),
{
    reveal_strlit("address:");
    reveal_strlit("[REDACTED_ADDRESS]");
    reveal_strlit("address: [REDACTED_ADDRESS]");
    lemma_marker_not_token("address:"@);
    lemma_marker_not_token("[REDACTED_ADDRESS]"@);
    assert("address: [REDACTED_ADDRESS]"@ =~= "address:"@ + seq![' '] + "[REDACTED_ADDRESS]"@);
}

/// Cutting a text at a letter and appending the address marker keeps its
/// words free of grouped card numbers.
#[verifier::rlimit(40)]
proof fn lemma_cut_at_letter_no_grouped_card(t: Seq<char>, at: int)
    requires
        has_no_grouped_card(words(t)),
        0 <= at < t.len(),
        t[at] == 'a' || t[at] == 'A',
    ensures
        has_no_grouped_card(words(t.take(at) + "address: [REDACTED_ADDRESS]"@)),
{
    lemma_address_words();
    lemma_markers_not_number_words();
    reveal_strlit("address:");
    let letter = t[at];
    let ma = "address:"@;
    let mb = "[REDACTED_ADDRESS]"@;
    let marker = "address: [REDACTED_ADDRESS]"@;
    let a = t.take(at);
    let b = t.skip(at);
    assert(t =~= a + b);
    assert(b[0] == letter);
    let out = a + marker;
    lemma_word_start(t, at);
    let k = word_start(t, at);
    let a0 = t.take(k);
    let a1 = t.subrange(k, at);
    assert(a =~= a0 + a1);
    assert(a0.len() == 0 || is_white_space(a0.last())) by {
        if k > 0 {
            assert(a0.last() == t[k - 1]);
        }
    }
    assert(white_space_free(a1)) by {
        assert forall|m: int| 0 <= m < a1.len() implies !is_white_space(#[trigger] a1[m]) by {
            assert(a1[m] == t[k + m]);
        }
    }
    let u = a1.push(letter);
    assert(white_space_free(u)) by {
        assert forall|m: int| 0 <= m < u.len() implies !is_white_space(#[trigger] u[m]) by {
            if m < a1.len() {
                assert(u[m] == a1[m]);
            }
        }
    }
    let v = b.drop_first();
    assert(a1 + b =~= u + v);
    assert(t =~= a0 + (a1 + b));
    lemma_words_append(a0, a1 + b);
    lemma_first_word(u, v);
    let first = words(u + v)[0];
    assert(first[u.len() - 1] == letter) by {
        assert(first.subrange(0, u.len() as int)[u.len() - 1] == first[u.len() - 1]);
    }
    assert(!is_number_word(first)) by {
        assert(!(is_ascii_digit_char(first[u.len() - 1]) || first[u.len() - 1] == '-'));
    }
    lemma_prefix_no_grouped_card(words(a0), words(a1 + b));
    let head = a1 + ma;
    assert(out =~= a0 + (head + seq![' '] + mb));
    lemma_words_append(a0, head + seq![' '] + mb);
    assert(head.len() > 0 && white_space_free(head)) by {
        assert forall|m: int| 0 <= m < head.len() implies !is_white_space(#[trigger] head[m]) by {
            if m < a1.len() {
                assert(head[m] == a1[m]);
            } else {
                assert(head[m] == ma[m - a1.len()]);
            }
        }
    }
    assert(!is_number_word(head)) by {
        assert(head[a1.len() as int] == ma[0]);
        assert(!(is_ascii_digit_char(ma[0]) || ma[0] == '-'));
    }
    let tail = seq![head, mb];
    assert(tail.drop_last() =~= seq![head]);
    assert(join_with(tail.drop_last(), seq![' ']) == head);
    assert(join_with(tail, seq![' ']) == join_with(tail.drop_last(), seq![' ']) + seq![' '] + tail.last());
    assert forall|j: int| 0 <= j < tail.len() implies (#[trigger] tail[j]).len() > 0 && white_space_free(tail[j]) by {}
    lemma_words_of_join(tail);
    assert forall|j: int| 0 <= j < tail.len() implies !is_number_word(#[trigger] tail[j]) by {}
    lemma_no_number_words(tail);
    lemma_concat_no_grouped_card(words(a0), tail);
}

/// No audit text holds a card number written in groups: no run of words of
/// digits and hyphens holds 13 to 19 digits together.
pub proof fn lemma_audit_text_has_no_grouped_card(s: Seq<char>)
    ensures
        has_no_grouped_card(words(audit_text(s))),
{
    lemma_audit_text_is_one_line(s);
    let c = cards_redacted(s);
    let t = tokens_redacted(c);
    lemma_token_pass_words(c);
    lemma_redacted_words_have_no_grouped_card(words(c));
    let lowered = ascii_lower_seq(t);
    let needle = "address:"@;
    let at = first_occurrence(lowered, needle);
    if at >= 0 {
        reveal_strlit("address:");
        lemma_first_occurrence_from(lowered, needle, 0);
        assert(occurs_at(lowered, needle, at));
        assert(lowered.subrange(at, at + 8)[0] == 'a');
        assert(lowered[at] == ascii_lower(t[at]));
        lemma_cut_at_letter_no_grouped_card(t, at);
    }
}

proof fn lemma_cards_keep_digitless(s: Seq<char>)
    requires
        forall|k: int| 0 <= k < s.len() ==> !is_ascii_digit_char(#[trigger] s[k]),
    ensures
        cards_redacted_from(s, Seq::empty()) == s,
    decreases s.len(),
{
    if s.len() > 0 {
        let rest = s.drop_first();
        assert forall|k: int| 0 <= k < rest.len() implies !is_ascii_digit_char(#[trigger] rest[k]) by {
            assert(rest[k] == s[k + 1]);
        }
        lemma_cards_keep_digitless(rest);
        assert(flushed_digits(Seq::<char>::empty()) =~= Seq::<char>::empty());
        assert(!is_ascii_digit_char(s[0]));
        assert(Seq::<char>::empty() + seq![s[0]] + rest =~= s);
    } else {
        assert(flushed_digits(Seq::<char>::empty()) =~= s);
    }
}

proof fn lemma_words_kept(ws: Seq<Seq<char>>)
    requires
        forall|k: int|
            0 <= k < ws.len() ==> !is_number_word(#[trigger] ws[k]) && !is_payment_token(ws[k]),
    ensures
        words_redacted_from(ws, Seq::empty()) == ws,
    decreases ws.len(),
{
    let e = Seq::<Seq<char>>::empty();
    assert(words_digits(e) == 0);
    assert(group_flushed(e) == e);
    if ws.len() > 0 {
        let rest = ws.drop_first();
        assert forall|k: int| 0 <= k < rest.len() implies !is_number_word(#[trigger] rest[k])
            && !is_payment_token(rest[k]) by {
            assert(rest[k] == ws[k + 1]);
        }
        lemma_words_kept(rest);
        assert(!is_number_word(ws[0]) && !is_payment_token(ws[0]));
        assert(e + seq![ws[0]] + rest =~= ws);
    } else {
        assert(ws =~= e);
    }
}

/// Audit text that is already clean passes through unchanged: single-spaced
/// text without digits, payment tokens or `address:` is stored as it is.
pub proof fn lemma_clean_text_is_kept(s: Seq<char>)
    requires
        forall|k: int| 0 <= k < s.len() ==> !is_ascii_digit_char(#[trigger] s[k]),
        forall|k: int| 0 <= k < words(s).len() ==> !is_payment_token(#[trigger] words(s)[k]),
        !contains_seq(ascii_lower_seq(s), "address:"@),
        s == join_with(words(s), seq![' ']),
    ensures
        audit_text(s) == s,
{
    lemma_cards_keep_digitless(s);
    assert(cards_redacted(s) == s);
    let ws = words(s);
    let bounds = lemma_word_bounds(s);
    assert forall|k: int| 0 <= k < ws.len() implies !is_number_word(#[trigger] ws[k]) && !is_payment_token(
        ws[k],
    ) by {
        let p = bounds[k].0;
        let q = bounds[k].1;
        assert(word_at(s, p, q));
        assert(ws[k] == s.subrange(p, q));
        if is_number_word(ws[k]) {
            let m = choose|m: int| 0 <= m < ws[k].len() && is_ascii_digit_char(#[trigger] ws[k][m]);
            assert(ws[k][m] == s[p + m]);
        }
    }
    lemma_words_kept(ws);
    assert(tokens_redacted(s) == s);
    assert forall|k: int| 0 <= k < ws.len() implies has_no_card_number(#[trigger] ws[k]) && single_line(
        ws[k],
    ) by {
        let p = bounds[k].0;
        let q = bounds[k].1;
        assert(word_at(s, p, q));
        assert forall|m: int| 0 <= m < ws[k].len() implies !is_ascii_digit_char(#[trigger] ws[k][m]) by {
            assert(ws[k][m] == s[p + m]);
        }
        lemma_no_digits_no_card(ws[k]);
        assert forall|m: int| 0 <= m < ws[k].len() implies #[trigger] ws[k][m] != '\n' by {
            assert(ws[k][m] == s[p + m]);
            assert(!is_white_space(s[p + m]));
        }
    }
    lemma_join_no_card(ws);
    lemma_single_line_lines(s);
    assert(lines_redacted(seq![s]) =~= seq![line_redacted(s)]);
    lemma_first_occurrence_from(ascii_lower_seq(s), "address:"@, 0);
    assert(first_occurrence(ascii_lower_seq(s), "address:"@) == -1);
}

/// Text free of card numbers passes card redaction unchanged.
proof fn lemma_cards_keep_clean(s: Seq<char>, digits: Seq<char>)
    requires
        forall|k: int| 0 <= k < digits.len() ==> is_ascii_digit_char(#[trigger] digits[k]),
        has_no_card_number(digits + s),
    ensures
        cards_redacted_from(s, digits) == digits + s,
    decreases s.len(),
{
    let t = digits + s;
    if digits.len() > 0 && (s.len() == 0 || !is_ascii_digit_char(s[0])) {
        assert forall|k: int| 0 <= k < digits.len() implies is_ascii_digit_char(#[trigger] t[k]) by {
            assert(t[k] == digits[k]);
        }
        if s.len() > 0 {
            assert(t[digits.len() as int] == s[0]);
        }
        assert(digit_run(t, 0, digits.len() as int));
    }
    if s.len() == 0 {
        assert(t =~= digits);
    } else if is_ascii_digit_char(s[0]) {
        let more = digits.push(s[0]);
        assert(more + s.drop_first() =~= t);
        assert forall|k: int| 0 <= k < more.len() implies is_ascii_digit_char(#[trigger] more[k]) by {
            if k < digits.len() {
                assert(more[k] == digits[k]);
            }
        }
        lemma_cards_keep_clean(s.drop_first(), more);
    } else {
        let rest = s.drop_first();
        let n = digits.len() as int;
        assert(t[n] == s[0]);
        lemma_segment_no_card(t, n + 1, t.len() as int);
        assert(t.subrange(n + 1, t.len() as int) =~= Seq::<char>::empty() + rest);
        lemma_cards_keep_clean(rest, Seq::empty());
        assert(Seq::<char>::empty() + rest =~= rest);
        assert(digits + seq![s[0]] + rest =~= t);
    }
}

/// Words free of tokens and grouped card numbers pass word redaction unchanged.
proof fn lemma_words_keep_clean(ws: Seq<Seq<char>>, pending: Seq<Seq<char>>)
    requires
        forall|k: int| 0 <= k < pending.len() ==> is_number_word(#[trigger] pending[k]),
        forall|k: int| 0 <= k < ws.len() ==> !is_payment_token(#[trigger] ws[k]),
        has_no_grouped_card(pending + ws),
    ensures
        words_redacted_from(ws, pending) == pending + ws,
    decreases ws.len(),
{
    let t = pending + ws;
    if pending.len() > 0 && (ws.len() == 0 || !is_number_word(ws[0])) {
        assert forall|k: int| 0 <= k < pending.len() implies is_number_word(#[trigger] t[k]) by {
            assert(t[k] == pending[k]);
        }
        if ws.len() > 0 {
            assert(t[pending.len() as int] == ws[0]);
        }
        assert(number_run(t, 0, pending.len() as int));
        assert(t.subrange(0, pending.len() as int) =~= pending);
    }
    if pending.len() == 0 {
        assert(words_digits(pending) == 0);
    }
    if ws.len() == 0 {
        assert(t =~= pending);
    } else if is_number_word(ws[0]) {
        let more = pending.push(ws[0]);
        assert(more + ws.drop_first() =~= t);
        assert forall|k: int| 0 <= k < more.len() implies is_number_word(#[trigger] more[k]) by {
            if k < pending.len() {
                assert(more[k] == pending[k]);
            }
        }
        assert forall|k: int| 0 <= k < ws.drop_first().len() implies !is_payment_token(#[trigger] ws.drop_first()[k]) by {
            assert(ws.drop_first()[k] == ws[k + 1]);
        }
        lemma_words_keep_clean(ws.drop_first(), more);
    } else {
        let rest = ws.drop_first();
        let e = Seq::<Seq<char>>::empty();
        assert(t =~= (pending + seq![ws[0]]) + rest);
        assert(rest =~= e + rest);
        assert(has_no_grouped_card(e + rest)) by {
            let u = pending + seq![ws[0]];
            let n = u.len() as int;
            assert forall|i: int, j: int| #[trigger] number_run(rest, i, j) implies !(13 <= words_digits(
                rest.subrange(i, j),
            ) <= 19) by {
                assert forall|k: int| i + n <= k < j + n implies is_number_word(#[trigger] t[k]) by {
                    assert(t[k] == rest[k - n]);
                }
                if i > 0 {
                    assert(t[i + n - 1] == rest[i - 1]);
                } else {
                    assert(t[n - 1] == ws[0]);
                }
                if j < rest.len() {
                    assert(t[j + n] == rest[j]);
                }
                assert(number_run(t, i + n, j + n));
                assert(t.subrange(i + n, j + n) =~= rest.subrange(i, j));
            }
        }
        assert forall|k: int| 0 <= k < rest.len() implies !is_payment_token(#[trigger] rest[k]) by {
            assert(rest[k] == ws[k + 1]);
        }
        lemma_words_keep_clean(rest, e);
        assert(word_redacted(ws[0]) == ws[0]);
        assert(pending + seq![ws[0]] + (e + rest) =~= t);
    }
}

/// Text of words separated by single spaces, with none around.
pub open spec fn single_spaced(x: Seq<char>) -> bool {
    &&& forall|k: int| 0 <= k < x.len() ==> #[trigger] x[k] == ' ' || !is_white_space(x[k])
    &&& x.len() > 0 ==> x[0] != ' ' && x.last() != ' '
    &&& forall|k: int| 0 <= k < x.len() - 1 && #[trigger] x[k] == ' ' ==> x[k + 1] != ' '
}

proof fn lemma_join_extend_last(parts: Seq<Seq<char>>, c: char)
    requires
        parts.len() > 0,
    ensures
        join_with(parts.update(parts.len() - 1, parts.last().push(c)), seq![' ']) == join_with(
            parts,
            seq![' '],
        ).push(c),
{
    let u = parts.update(parts.len() - 1, parts.last().push(c));
    if parts.len() == 1 {
        assert(u[0] == parts[0].push(c));
    } else {
        assert(u.drop_last() =~= parts.drop_last());
        assert(join_with(u, seq![' ']) == join_with(u.drop_last(), seq![' ']) + seq![' '] + u.last());
        assert(join_with(parts, seq![' ']) == join_with(parts.drop_last(), seq![' ']) + seq![' '] + parts.last());
        assert(join_with(u, seq![' ']) =~= join_with(parts, seq![' ']).push(c));
    }
}

/// Single-spaced text is its words joined by single spaces.
proof fn lemma_single_spaced_join(x: Seq<char>)
    requires
        single_spaced(x),
    ensures
        join_with(words(x), seq![' ']) == x,
    decreases x.len(),
{
    if x.len() == 0 {
        assert(join_with(words(x), seq![' ']) =~= x);
    } else {
        let x0 = x.drop_last();
        let c = x.last();
        assert(c != ' ');
        assert(!is_white_space(c));
        if x0.len() == 0 {
            assert(words(x) == words(x0).push(seq![c]));
            assert(words(x0).push(seq![c]) =~= seq![seq![c]]);
            assert(x =~= seq![c]);
        } else if x0.last() != ' ' {
            assert(!is_white_space(x0.last()));
            assert(x[x.len() - 2] == x0.last());
            assert(single_spaced(x0)) by {
                assert forall|k: int| 0 <= k < x0.len() implies #[trigger] x0[k] == ' ' || !is_white_space(x0[k]) by {
                    assert(x0[k] == x[k]);
                }
                assert(x0[0] == x[0]);
                assert forall|k: int| 0 <= k < x0.len() - 1 && #[trigger] x0[k] == ' ' implies x0[k + 1] != ' ' by {
                    assert(x0[k] == x[k]);
                    assert(x0[k + 1] == x[k + 1]);
                }
            }
            lemma_single_spaced_join(x0);
            let bounds = lemma_word_bounds(x0);
            lemma_join_extend_last(words(x0), c);
            assert(x0.push(c) =~= x);
        } else {
            let x00 = x0.drop_last();
            assert(x.len() >= 3) by {
                assert(x[0] != ' ');
                if x.len() == 2 {
                    assert(x0.last() == x[0]);
                }
            }
            assert(x[x.len() - 2] == ' ');
            assert(x00.last() == x[x.len() - 3]);
            assert(x00.last() != ' ') by {
                assert(x[x.len() - 3] == ' ' ==> x[x.len() - 2] != ' ');
            }
            assert(single_spaced(x00)) by {
                assert forall|k: int| 0 <= k < x00.len() implies #[trigger] x00[k] == ' ' || !is_white_space(x00[k]) by {
                    assert(x00[k] == x[k]);
                }
                assert(x00[0] == x[0]);
                assert forall|k: int| 0 <= k < x00.len() - 1 && #[trigger] x00[k] == ' ' implies x00[k + 1] != ' ' by {
                    assert(x00[k] == x[k]);
                    assert(x00[k + 1] == x[k + 1]);
                }
            }
            lemma_single_spaced_join(x00);
            assert(x0 =~= x00 + seq![' ']);
            lemma_words_append(x0, Seq::empty());
            assert(x0 + Seq::<char>::empty() =~= x0);
            assert(words(x0) == words(x00));
            assert(words(x) == words(x0).push(seq![c]));
            let bounds = lemma_word_bounds(x00);
            assert(words(x00).len() > 0);
            lemma_join_push(words(x00), seq![c], seq![' ']);
            assert(x00 + seq![' '] + seq![c] =~= x);
        }
    }
}

proof fn lemma_join_single_spaced(parts: Seq<Seq<char>>)
    requires
        forall|k: int| 0 <= k < parts.len() ==> (#[trigger] parts[k]).len() > 0 && white_space_free(parts[k]),
    ensures
        single_spaced(join_with(parts, seq![' '])),
    decreases parts.len(),
{
    if parts.len() == 1 {
        assert(parts[0].len() > 0 && white_space_free(parts[0]));
    } else if parts.len() > 1 {
        let rest = parts.drop_last();
        assert forall|k: int| 0 <= k < rest.len() implies (#[trigger] rest[k]).len() > 0 && white_space_free(rest[k]) by {
            assert(rest[k] == parts[k]);
        }
        lemma_join_single_spaced(rest);
        let j = join_with(rest, seq![' ']);
        let w = parts.last();
        assert(w.len() > 0 && white_space_free(w));
        let x = j + seq![' '] + w;
        assert(join_with(parts, seq![' ']) == x);
        let n = j.len() as int;
        assert(j.len() > 0) by {
            assert(rest[0].len() > 0);
            lemma_words_of_join(rest);
        }
        assert forall|k: int| 0 <= k < x.len() implies #[trigger] x[k] == ' ' || !is_white_space(x[k]) by {
            if k < n {
                assert(x[k] == j[k]);
            } else if k > n {
                assert(x[k] == w[k - n - 1]);
            }
        }
        assert(x[0] == j[0]);
        assert(x.last() == w.last());
        assert(!is_white_space(w.last()));
        assert forall|k: int| 0 <= k < x.len() - 1 && #[trigger] x[k] == ' ' implies x[k + 1] != ' ' by {
            if k < n - 1 {
                assert(x[k] == j[k]);
                assert(x[k + 1] == j[k + 1]);
            } else if k == n - 1 {
                assert(x[k] == j.last());
            } else if k == n {
                assert(x[k + 1] == w[0]);
                assert(!is_white_space(w[0]));
            } else {
                assert(x[k] == w[k - n - 1]);
                assert(!is_white_space(w[k - n - 1]));
            }
        }
    }
}

/// The text after token redaction is single-spaced.
proof fn lemma_token_pass_single_spaced(c: Seq<char>)
    ensures
        single_spaced(tokens_redacted(c)),
{
    let ws = words(c);
    let bounds = lemma_word_bounds(c);
    let keeps = |w: Seq<char>| w.len() > 0 && white_space_free(w);
    reveal_strlit("[REDACTED_TOKEN]");
    reveal_strlit("[REDACTED_CARD]");
    lemma_marker_not_token("[REDACTED_TOKEN]"@);
    lemma_marker_not_token("[REDACTED_CARD]"@);
    assert forall|j: int| 0 <= j < ws.len() implies (is_number_word(#[trigger] ws[j]) ==> keeps(ws[j]))
        && keeps(word_redacted(ws[j])) by {
        let p = bounds[j].0;
        let q = bounds[j].1;
        assert(word_at(c, p, q));
        assert(ws[j] == c.subrange(p, q));
        assert forall|m: int| 0 <= m < ws[j].len() implies !is_white_space(#[trigger] ws[j][m]) by {
            assert(ws[j][m] == c[m + p]);
        }
    }
    lemma_redacted_words_keep(ws, Seq::empty(), keeps);
    let red = words_redacted(ws);
    assert forall|k: int| 0 <= k < red.len() implies (#[trigger] red[k]).len() > 0 && white_space_free(red[k]) by {
        assert(keeps(red[k]));
    }
    lemma_join_single_spaced(red);
}

/// Every audit text is single-spaced.
proof fn lemma_audit_text_single_spaced(s: Seq<char>)
    ensures
        single_spaced(audit_text(s)),
{
    lemma_audit_text_is_one_line(s);
    let t = tokens_redacted(cards_redacted(s));
    lemma_token_pass_single_spaced(cards_redacted(s));
    let lowered = ascii_lower_seq(t);
    let at = first_occurrence(lowered, "address:"@);
    if at >= 0 {
        reveal_strlit("address:");
        lemma_first_occurrence_from(lowered, "address:"@, 0);
        assert(occurs_at(lowered, "address:"@, at));
        assert(lowered.subrange(at, at + 8)[0] == 'a');
        assert(lowered[at] == ascii_lower(t[at]));
        lemma_lower_keeps_words(t[at]);
        reveal_strlit("address: [REDACTED_ADDRESS]");
        let m = "address: [REDACTED_ADDRESS]"@;
        let a = t.take(at);
        let x = a + m;
        assert(audit_text(s) == x);
        let n = at;
        assert forall|k: int| 0 <= k < x.len() implies #[trigger] x[k] == ' ' || !is_white_space(x[k]) by {
            if k < n {
                assert(x[k] == t[k]);
            } else {
                assert(x[k] == m[k - n]);
            }
        }
        if n > 0 {
            assert(x[0] == t[0]);
        } else {
            assert(x[0] == m[0]);
        }
        assert(x.last() == m.last());
        assert forall|k: int| 0 <= k < x.len() - 1 && #[trigger] x[k] == ' ' implies x[k + 1] != ' ' by {
            if k < n - 1 {
                assert(x[k] == t[k]);
                assert(x[k + 1] == t[k + 1]);
            } else if k == n - 1 {
                assert(x[k + 1] == m[0]);
            } else {
                assert(x[k] == m[k - n]);
                assert(x[k + 1] == m[k + 1 - n]);
            }
        }
    }
}

/// Redacting an audit text again changes nothing.
pub proof fn lemma_audit_text_is_stable(s: Seq<char>)
    ensures
        audit_text(audit_text(s)) == audit_text(s),
{
    let a = audit_text(s);
    lemma_audit_text_has_no_card_number(s);
    lemma_audit_text_has_no_payment_token(s);
    lemma_audit_text_has_no_grouped_card(s);
    lemma_audit_text_hides_addresses(s);
    lemma_audit_text_single_spaced(s);
    assert(Seq::<char>::empty() + a =~= a);
    lemma_cards_keep_clean(a, Seq::empty());
    assert(cards_redacted(a) == a);
    let ws = words(a);
    assert(Seq::<Seq<char>>::empty() + ws =~= ws);
    lemma_words_keep_clean(ws, Seq::empty());
    lemma_single_spaced_join(a);
    assert(tokens_redacted(a) == a);
    assert(single_line(a)) by {
        assert forall|k: int| 0 <= k < a.len() implies #[trigger] a[k] != '\n' by {
            assert(a[k] == ' ' || !is_white_space(a[k]));
        }
    }
    lemma_single_line_lines(a);
    assert(lines_redacted(seq![a]) =~= seq![line_redacted(a)]);
    assert(addresses_redacted(a) == line_redacted(a));
    let at = first_occurrence(ascii_lower_seq(a), "address:"@);
    if at >= 0 {
        lemma_first_occurrence_from(ascii_lower_seq(a), "address:"@, 0);
        reveal_strlit("address:");
        assert(occurs_at(ascii_lower_seq(a), "address:"@, at));
        assert(a =~= a.take(at) + a.subrange(at, a.len() as int));
    }
}

} // verus!
