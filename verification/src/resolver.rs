//! The resolution algorithm: the ordered sequence of matching strategies
//! that decides whether a free-form token names a month, and which one.

use crate::distance::{edit_distance, lemma_edit_distance_append_one};
use crate::error::{build_error, error_message_of, error_view, ValidationError};
use crate::month::{month_of_number, Month};
use crate::tables::{
    denylisted, exact_lookup, exact_match, intl_lookup, intl_match, is_denylisted, month_name_at,
    month_name_seq,
};
use crate::text::{lower_of, lowercase, trim_of, trim_ws};
use vstd::prelude::*;
use vstd::string::StrSliceExecFns;

verus! {

/// Whether a character is an ASCII decimal digit.
pub open spec fn is_digit_char(c: char) -> bool {
    c == '0' || c == '1' || c == '2' || c == '3' || c == '4' || c == '5' || c == '6' || c == '7'
        || c == '8' || c == '9'
}

/// The numeric value of an ASCII decimal digit.
pub open spec fn digit_val(c: char) -> nat {
    if c == '0' {
        0
    } else if c == '1' {
        1
    } else if c == '2' {
        2
    } else if c == '3' {
        3
    } else if c == '4' {
        4
    } else if c == '5' {
        5
    } else if c == '6' {
        6
    } else if c == '7' {
        7
    } else if c == '8' {
        8
    } else {
        9
    }
}

/// The length of the longest prefix of ASCII digits.
pub open spec fn digit_prefix_len(n: Seq<char>) -> nat
    decreases n.len(),
{
    if n.len() == 0 {
        0
    } else if !is_digit_char(n[0]) {
        0
    } else {
        1 + digit_prefix_len(n.drop_first())
    }
}

/// The base-10 value of a sequence of ASCII digits.
pub open spec fn digits_value(d: Seq<char>) -> nat
    decreases d.len(),
{
    if d.len() == 0 {
        0
    } else {
        digits_value(d.drop_last()) * 10 + digit_val(d.last())
    }
}

/// The digit prefix is the longest prefix of digits: every character
/// before it is a digit and the character after it, if any, is not.
pub proof fn lemma_digit_prefix_len(n: Seq<char>)
    ensures
        digit_prefix_len(n) <= n.len(),
        forall|j: int| 0 <= j < digit_prefix_len(n) ==> is_digit_char(n[j]),
        digit_prefix_len(n) < n.len() ==> !is_digit_char(n[digit_prefix_len(n) as int]),
    decreases n.len(),
{
    if n.len() != 0 && is_digit_char(n[0]) {
        lemma_digit_prefix_len(n.drop_first());
        assert forall|j: int| 0 <= j < digit_prefix_len(n) implies is_digit_char(n[j]) by {
            if j >= 1 {
                assert(n.drop_first()[j - 1] == n[j]);
                assert(is_digit_char(n.drop_first()[j - 1]));
            }
        }
        if digit_prefix_len(n) < n.len() {
            assert(n.drop_first()[digit_prefix_len(n.drop_first()) as int]
                == n[digit_prefix_len(n) as int]);
        }
    }
}

/// The numeric-prefix stage: if the string starts with at least one ASCII
/// digit and the digits read as a value from 1 to 12, that month; the rest
/// of the string is ignored, which accepts ordinal forms.
pub open spec fn numeric_match(n: Seq<char>) -> Option<Month> {
    let k = digit_prefix_len(n);
    let v = digits_value(n.take(k as int));
    if k > 0 && 1 <= v <= 12 {
        Some(month_of_number(v as int))
    } else {
        None
    }
}

/// A digit prefix value saturated just past the acceptable range, so that
/// it fits machine arithmetic no matter how many digits the input holds.
pub open spec fn sat13(v: nat) -> nat {
    if v > 13 {
        13
    } else {
        v
    }
}

/// The digit's value, if the character is an ASCII digit.
fn digit_of(c: char) -> (r: Option<u32>)
    ensures
        is_digit_char(c) ==> r == Some(digit_val(c) as u32),
        !is_digit_char(c) ==> r is None,
{
    match c {
        '0' => Some(0u32),
        '1' => Some(1u32),
        '2' => Some(2u32),
        '3' => Some(3u32),
        '4' => Some(4u32),
        '5' => Some(5u32),
        '6' => Some(6u32),
        '7' => Some(7u32),
        '8' => Some(8u32),
        '9' => Some(9u32),
        _ => None,
    }
}

/// The month at a given 1-based position, as a machine integer.
fn month_from_number(n: u32) -> (m: Month)
    requires
        1 <= n <= 12,
    ensures
        m == month_of_number(n as int),
{
    if n == 1 {
        Month::January
    } else if n == 2 {
        Month::February
    } else if n == 3 {
        Month::March
    } else if n == 4 {
        Month::April
    } else if n == 5 {
        Month::May
    } else if n == 6 {
        Month::June
    } else if n == 7 {
        Month::July
    } else if n == 8 {
        Month::August
    } else if n == 9 {
        Month::September
    } else if n == 10 {
        Month::October
    } else if n == 11 {
        Month::November
    } else {
        Month::December
    }
}

/// The numeric-prefix lookup: scan leading ASCII digits and map values 1
/// through 12 to months.
pub(crate) fn numeric_lookup(s: &str) -> (r: Option<Month>)
    ensures
        r == numeric_match(s@),
{
    let len = s.unicode_len();
    let mut i: usize = 0;
    let mut v: u32 = 0;
    loop
        invariant
            i <= len,
            len == s@.len(),
            forall|j: int| 0 <= j < i ==> is_digit_char(s@[j]),
            v == sat13(digits_value(s@.take(i as int))),
        ensures
            i <= len,
            len == s@.len(),
            forall|j: int| 0 <= j < i ==> is_digit_char(s@[j]),
            v == sat13(digits_value(s@.take(i as int))),
            i == len || !is_digit_char(s@[i as int]),
        decreases len - i,
    {
        if i >= len {
            break ;
        }
        let c = s.get_char(i);
        match digit_of(c) {
            Some(d) => {
                proof {
                    assert(s@.take(i + 1 as int).drop_last() =~= s@.take(i as int));
                    assert(s@.take(i + 1 as int).last() == s@[i as int]);
                }
                v = v * 10 + d;
                if v > 13 {
                    v = 13;
                }
                i = i + 1;
            },
            None => {
                break ;
            },
        }
    }
    proof {
        lemma_digit_prefix_len(s@);
        assert(i == digit_prefix_len(s@));
    }
    if i > 0 && 1 <= v && v <= 12 {
        Some(month_from_number(v))
    } else {
        None
    }
}

/// The length that normalizes the similarity between the input and the
/// canonical name at index `i`: the longer of the two character counts.
pub open spec fn len_max(n: Seq<char>, i: int) -> nat {
    if n.len() >= month_name_seq(i).len() {
        n.len()
    } else {
        month_name_seq(i).len()
    }
}

/// The edit distance between the input and the canonical name at index `i`.
pub open spec fn name_dist(n: Seq<char>, i: int) -> nat {
    edit_distance(n, month_name_seq(i))
}

/// Whether the name at index `i` scores strictly higher than the one at
/// index `j`. The score of index `i` is `1 - dist_i / len_i`, so `i` beats
/// `j` exactly when `dist_i / len_i < dist_j / len_j`; both sides are
/// compared by cross-multiplication, which needs no division.
pub open spec fn strictly_better(n: Seq<char>, i: int, j: int) -> bool {
    name_dist(n, i) * len_max(n, j) < name_dist(n, j) * len_max(n, i)
}

/// The index of the best-scoring canonical name among the first `k`, the
/// earliest winning on ties.
pub open spec fn best_idx(n: Seq<char>, k: int) -> int
    decreases k,
{
    if k <= 1 {
        0
    } else if strictly_better(n, k - 1, best_idx(n, k - 1)) {
        k - 1
    } else {
        best_idx(n, k - 1)
    }
}

/// The best index over `k` names is a valid index.
pub proof fn lemma_best_idx_bounds(n: Seq<char>, k: int)
    requires
        k >= 1,
    ensures
        0 <= best_idx(n, k) < k,
    decreases k,
{
    if k > 1 {
        lemma_best_idx_bounds(n, k - 1);
    }
}

/// The fuzzy stage: score the input against every canonical month name,
/// select the best-scoring month, and accept it only when its normalized
/// similarity `1 - dist / len_max` reaches the threshold of 3/4, that is,
/// when `4 * dist <= len_max`.
pub open spec fn fuzzy_match(n: Seq<char>) -> Option<Month> {
    let b = best_idx(n, 12);
    if 4 * name_dist(n, b) <= len_max(n, b) {
        Some(month_of_number(b + 1))
    } else {
        None
    }
}

/// Products of two values below 2^64 fit in 128 bits.
proof fn lemma_prod_fits(a: u128, b: u128)
    requires
        a < 0x1_0000_0000_0000_0000,
        b < 0x1_0000_0000_0000_0000,
    ensures
        a * b < 0x1_0000_0000_0000_0000_0000_0000_0000_0000,
{
    assert(a * b < 0x1_0000_0000_0000_0000_0000_0000_0000_0000) by (nonlinear_arith)
        requires
            a < 0x1_0000_0000_0000_0000,
            b < 0x1_0000_0000_0000_0000,
    ;
}

/// The fuzzy lookup: pick the canonical name nearest to the input by
/// normalized edit distance, first maximum winning ties, and accept it
/// only at similarity 3/4 or above.
pub(crate) fn fuzzy_lookup(s: &str) -> (r: Option<Month>)
    ensures
        r == fuzzy_match(s@),
{
    let n_len = s.unicode_len();
    let first = month_name_at(0);
    let mut best_i: usize = 0;
    let mut best_d: usize = strsim::levenshtein(s, first);
    let first_len = first.unicode_len();
    let mut best_l: usize = if n_len >= first_len {
        n_len
    } else {
        first_len
    };
    let mut i: usize = 1;
    while i < 12
        invariant
            1 <= i <= 12,
            n_len == s@.len(),
            best_i == best_idx(s@, i as int),
            best_i < i,
            best_d == name_dist(s@, best_i as int),
            best_l == len_max(s@, best_i as int),
        decreases 12 - i,
    {
        let name = month_name_at(i);
        let d = strsim::levenshtein(s, name);
        let name_len = name.unicode_len();
        let l = if n_len >= name_len {
            n_len
        } else {
            name_len
        };
        proof {
            lemma_prod_fits(d as u128, best_l as u128);
            lemma_prod_fits(best_d as u128, l as u128);
        }
        if (d as u128) * (best_l as u128) < (best_d as u128) * (l as u128) {
            best_i = i;
            best_d = d;
            best_l = l;
        }
        i = i + 1;
    }
    proof {
        lemma_prod_fits(4u128, best_d as u128);
    }
    if 4 * (best_d as u128) <= (best_l as u128) {
        Some(month_from_number((best_i + 1) as u32))
    } else {
        None
    }
}

/// The whole resolution, on an already-normalized string: each stage in
/// order, first success winning. The denylist stage rejects outright,
/// before the fuzzy stage can see the string. A final repeat of the exact
/// stage would be unreachable, since normalization leaves nothing for it
/// to see that the first pass did not, so no such stage is defined: a
/// string that reaches past the denylist is decided by the fuzzy stage.
pub open spec fn spec_resolve(n: Seq<char>) -> Option<Month> {
    if exact_match(n) is Some {
        exact_match(n)
    } else if numeric_match(n) is Some {
        numeric_match(n)
    } else if intl_match(n) is Some {
        intl_match(n)
    } else if is_denylisted(n) {
        None
    } else {
        fuzzy_match(n)
    }
}

/// Resolve an already-normalized (trimmed, lowercased) string to a month.
pub fn resolve_normalized(s: &str) -> (r: Option<Month>)
    ensures
        r == spec_resolve(s@),
{
    if let Some(m) = exact_lookup(s) {
        return Some(m);
    }
    if let Some(m) = numeric_lookup(s) {
        return Some(m);
    }
    if let Some(m) = intl_lookup(s) {
        return Some(m);
    }
    if denylisted(s) {
        return None;
    }
    fuzzy_lookup(s)
}

/// Parse a month from a string.
///
/// The input is trimmed of surrounding whitespace and lowercased, and the
/// matching stages then run in order: the exact/abbreviation table, the
/// numeric prefix, the international table, the denylist, and finally the
/// fuzzy matcher. The call is a pure function of its input: the result,
/// and on failure the rendered message, are fixed by the contract, so two
/// calls with equal inputs return equal results.
///
/// Returns `Ok` exactly when the normalized input resolves to a month,
/// and otherwise an error whose message embeds the original, untrimmed
/// input.
pub fn parse_month(value: &str) -> (r: Result<Month, ValidationError>)
    ensures
        match r {
            Ok(m) => spec_resolve(lower_of(trim_of(value@))) == Some(m),
            Err(e) => spec_resolve(lower_of(trim_of(value@))) is None && error_view(e)
                == error_message_of(value@),
        },
{
    let trimmed = trim_ws(value);
    let lowered = lowercase(trimmed);
    match resolve_normalized(lowered.as_str()) {
        Some(m) => Ok(m),
        None => Err(build_error(value)),
    }
}

/// An exact-table hit always decides the resolution: the exact stage runs
/// first, so whatever month the table names is the result.
pub proof fn lemma_exact_match_resolves(n: Seq<char>, m: Month)
    requires
        exact_match(n) == Some(m),
    ensures
        spec_resolve(n) == Some(m),
{
}

/// An international-table hit decides the resolution whenever the two
/// earlier stages abstain.
pub proof fn lemma_intl_resolves(n: Seq<char>, m: Month)
    requires
        exact_match(n) is None,
        numeric_match(n) is None,
        intl_match(n) == Some(m),
    ensures
        spec_resolve(n) == Some(m),
{
}

/// A string made of digits alone is its own digit prefix.
proof fn lemma_dpl_all_digits(n: Seq<char>)
    requires
        forall|j: int| 0 <= j < n.len() ==> is_digit_char(n[j]),
    ensures
        digit_prefix_len(n) == n.len(),
{
    lemma_digit_prefix_len(n);
    if digit_prefix_len(n) < n.len() {
        assert(is_digit_char(n[digit_prefix_len(n) as int]));
    }
}

/// The value of a one-digit string.
proof fn lemma_digits_value_single(c: char)
    ensures
        digits_value(seq![c]) == digit_val(c),
{
    reveal_with_fuel(digits_value, 3);
    assert(seq![c].drop_last() =~= Seq::<char>::empty());
}

/// The value of a two-digit string.
proof fn lemma_digits_value_pair(c0: char, c1: char)
    ensures
        digits_value(seq![c0, c1]) == digit_val(c0) * 10 + digit_val(c1),
{
    reveal_with_fuel(digits_value, 4);
    assert(seq![c0, c1].drop_last() =~= seq![c0]);
    assert(seq![c0].drop_last() =~= Seq::<char>::empty());
}

/// Digit prefix and value of a string holding one digit.
proof fn lemma_single_digit_key(n: Seq<char>, c: char)
    requires
        n.len() == 1,
        n[0] == c,
        is_digit_char(c),
    ensures
        digit_prefix_len(n) == 1,
        digits_value(n.take(1)) == digit_val(c),
{
    assert(n =~= seq![c]);
    lemma_dpl_all_digits(n);
    assert(n.take(1) =~= n);
    lemma_digits_value_single(c);
}

/// Digit prefix and value of a string holding two digits.
proof fn lemma_double_digit_key(n: Seq<char>, c0: char, c1: char)
    requires
        n.len() == 2,
        n[0] == c0,
        n[1] == c1,
        is_digit_char(c0),
        is_digit_char(c1),
    ensures
        digit_prefix_len(n) == 2,
        digits_value(n.take(2)) == digit_val(c0) * 10 + digit_val(c1),
{
    assert(n =~= seq![c0, c1]);
    lemma_dpl_all_digits(n);
    assert(n.take(2) =~= n);
    lemma_digits_value_pair(c0, c1);
}

/// Lengths and marker characters of fixed table keys.
proof fn lemma_exact_january_facts()
    ensures
        ("january"@).len() == 7,
        ("january"@)[0] == 'j',
        ("january"@)[4] == 'a',
        ("jan"@).len() == 3,
        ("jan"@)[0] == 'j',
        ("ja"@).len() == 2,
        ("ja"@)[0] == 'j',
        ("1"@).len() == 1,
        ("1"@)[0] == '1',
        ("01"@).len() == 2,
        ("01"@)[0] == '0',
        ("01"@)[1] == '1',
{
    reveal_strlit("january");
    reveal_strlit("jan");
    reveal_strlit("ja");
    reveal_strlit("1");
    reveal_strlit("01");
}

/// Lengths and marker characters of fixed table keys.
proof fn lemma_exact_february_facts()
    ensures
        ("february"@).len() == 8,
        ("february"@)[0] == 'f',
        ("feb"@).len() == 3,
        ("feb"@)[0] == 'f',
        ("2"@).len() == 1,
        ("2"@)[0] == '2',
        ("02"@).len() == 2,
        ("02"@)[0] == '0',
        ("02"@)[1] == '2',
{
    reveal_strlit("february");
    reveal_strlit("feb");
    reveal_strlit("2");
    reveal_strlit("02");
}

/// Lengths and marker characters of fixed table keys.
proof fn lemma_exact_march_facts()
    ensures
        ("march"@).len() == 5,
        ("march"@)[0] == 'm',
        ("march"@)[3] == 'c',
        ("mar"@).len() == 3,
        ("mar"@)[0] == 'm',
        ("3"@).len() == 1,
        ("3"@)[0] == '3',
        ("03"@).len() == 2,
        ("03"@)[0] == '0',
        ("03"@)[1] == '3',
{
    reveal_strlit("march");
    reveal_strlit("mar");
    reveal_strlit("3");
    reveal_strlit("03");
}

/// Lengths and marker characters of fixed table keys.
proof fn lemma_exact_april_facts()
    ensures
        ("april"@).len() == 5,
        ("april"@)[0] == 'a',
        ("apr"@).len() == 3,
        ("apr"@)[0] == 'a',
        ("4"@).len() == 1,
        ("4"@)[0] == '4',
        ("04"@).len() == 2,
        ("04"@)[0] == '0',
        ("04"@)[1] == '4',
{
    reveal_strlit("april");
    reveal_strlit("apr");
    reveal_strlit("4");
    reveal_strlit("04");
}

/// Lengths and marker characters of fixed table keys.
proof fn lemma_exact_may_facts()
    ensures
        ("may"@).len() == 3,
        ("may"@)[0] == 'm',
        ("5"@).len() == 1,
        ("5"@)[0] == '5',
        ("05"@).len() == 2,
        ("05"@)[0] == '0',
        ("05"@)[1] == '5',
{
    reveal_strlit("may");
    reveal_strlit("5");
    reveal_strlit("05");
}

/// Lengths and marker characters of fixed table keys.
proof fn lemma_exact_june_facts()
    ensures
        ("june"@).len() == 4,
        ("june"@)[0] == 'j',
        ("jun"@).len() == 3,
        ("jun"@)[0] == 'j',
        ("6"@).len() == 1,
        ("6"@)[0] == '6',
        ("06"@).len() == 2,
        ("06"@)[0] == '0',
        ("06"@)[1] == '6',
{
    reveal_strlit("june");
    reveal_strlit("jun");
    reveal_strlit("6");
    reveal_strlit("06");
}

/// Lengths and marker characters of fixed table keys.
proof fn lemma_exact_july_facts()
    ensures
        ("july"@).len() == 4,
        ("july"@)[0] == 'j',
        ("jul"@).len() == 3,
        ("jul"@)[0] == 'j',
        ("7"@).len() == 1,
        ("7"@)[0] == '7',
        ("07"@).len() == 2,
        ("07"@)[0] == '0',
        ("07"@)[1] == '7',
{
    reveal_strlit("july");
    reveal_strlit("jul");
    reveal_strlit("7");
    reveal_strlit("07");
}

/// Lengths and marker characters of fixed table keys.
proof fn lemma_exact_august_facts()
    ensures
        ("august"@).len() == 6,
        ("august"@)[0] == 'a',
        ("aug"@).len() == 3,
        ("aug"@)[0] == 'a',
        ("8"@).len() == 1,
        ("8"@)[0] == '8',
        ("08"@).len() == 2,
        ("08"@)[0] == '0',
        ("08"@)[1] == '8',
{
    reveal_strlit("august");
    reveal_strlit("aug");
    reveal_strlit("8");
    reveal_strlit("08");
}

/// Lengths and marker characters of fixed table keys.
proof fn lemma_exact_september_facts()
    ensures
        ("september"@).len() == 9,
        ("september"@)[0] == 's',
        ("sep"@).len() == 3,
        ("sep"@)[0] == 's',
        ("sept"@).len() == 4,
        ("sept"@)[0] == 's',
        ("9"@).len() == 1,
        ("9"@)[0] == '9',
        ("09"@).len() == 2,
        ("09"@)[0] == '0',
        ("09"@)[1] == '9',
{
    reveal_strlit("september");
    reveal_strlit("sep");
    reveal_strlit("sept");
    reveal_strlit("9");
    reveal_strlit("09");
}

/// Lengths and marker characters of fixed table keys.
proof fn lemma_exact_october_facts()
    ensures
        ("october"@).len() == 7,
        ("october"@)[0] == 'o',
        ("oct"@).len() == 3,
        ("oct"@)[0] == 'o',
        ("10"@).len() == 2,
        ("10"@)[0] == '1',
        ("10"@)[1] == '0',
{
    reveal_strlit("october");
    reveal_strlit("oct");
    reveal_strlit("10");
}

/// Lengths and marker characters of fixed table keys.
proof fn lemma_exact_november_facts()
    ensures
        ("november"@).len() == 8,
        ("november"@)[0] == 'n',
        ("nov"@).len() == 3,
        ("nov"@)[0] == 'n',
        ("11"@).len() == 2,
        ("11"@)[0] == '1',
        ("11"@)[1] == '1',
{
    reveal_strlit("november");
    reveal_strlit("nov");
    reveal_strlit("11");
}

/// Lengths and marker characters of fixed table keys.
proof fn lemma_exact_december_facts()
    ensures
        ("december"@).len() == 8,
        ("december"@)[0] == 'd',
        ("dec"@).len() == 3,
        ("dec"@)[0] == 'd',
        ("12"@).len() == 2,
        ("12"@)[0] == '1',
        ("12"@)[1] == '2',
{
    reveal_strlit("december");
    reveal_strlit("dec");
    reveal_strlit("12");
}

/// Lengths and marker characters of fixed table keys.
proof fn lemma_intl_january_facts()
    ensures
        ("enero"@).len() == 5,
        ("enero"@)[0] == 'e',
        ("janvier"@).len() == 7,
        ("janvier"@)[0] == 'j',
        ("janvier"@)[3] == 'v',
        ("januar"@).len() == 6,
        ("januar"@)[0] == 'j',
        ("gennaio"@).len() == 7,
        ("gennaio"@)[0] == 'g',
        ("styczeń"@).len() == 7,
        ("styczeń"@)[0] == 's',
        ("январь"@).len() == 6,
        ("январь"@)[0] == 'я',
        ("يناير"@).len() == 5,
        ("يناير"@)[0] == 'ي',
        ("一月"@).len() == 2,
        ("一月"@)[0] == '一',
{
    reveal_strlit("enero");
    reveal_strlit("janvier");
    reveal_strlit("januar");
    reveal_strlit("gennaio");
    reveal_strlit("styczeń");
    reveal_strlit("январь");
    reveal_strlit("يناير");
    reveal_strlit("一月");
}

/// Lengths and marker characters of fixed table keys.
proof fn lemma_intl_february_facts()
    ensures
        ("febrero"@).len() == 7,
        ("febrero"@)[0] == 'f',
        ("février"@).len() == 7,
        ("février"@)[0] == 'f',
        ("februar"@).len() == 7,
        ("februar"@)[0] == 'f',
        ("febbraio"@).len() == 8,
        ("febbraio"@)[0] == 'f',
        ("luty"@).len() == 4,
        ("luty"@)[0] == 'l',
        ("февраль"@).len() == 7,
        ("февраль"@)[0] == 'ф',
        ("فبراير"@).len() == 6,
        ("فبراير"@)[0] == 'ف',
        ("二月"@).len() == 2,
        ("二月"@)[0] == '二',
{
    reveal_strlit("febrero");
    reveal_strlit("février");
    reveal_strlit("februar");
    reveal_strlit("febbraio");
    reveal_strlit("luty");
    reveal_strlit("февраль");
    reveal_strlit("فبراير");
    reveal_strlit("二月");
}

/// Lengths and marker characters of fixed table keys.
proof fn lemma_intl_march_facts()
    ensures
        ("marzo"@).len() == 5,
        ("marzo"@)[0] == 'm',
        ("marzo"@)[3] == 'z',
        ("mars"@).len() == 4,
        ("mars"@)[0] == 'm',
        ("märz"@).len() == 4,
        ("märz"@)[0] == 'm',
        ("marzec"@).len() == 6,
        ("marzec"@)[0] == 'm',
        ("март"@).len() == 4,
        ("март"@)[0] == 'м',
        ("مارس"@).len() == 4,
        ("مارس"@)[0] == 'م',
        ("三月"@).len() == 2,
        ("三月"@)[0] == '三',
{
    reveal_strlit("marzo");
    reveal_strlit("mars");
    reveal_strlit("märz");
    reveal_strlit("marzec");
    reveal_strlit("март");
    reveal_strlit("مارس");
    reveal_strlit("三月");
}

/// Lengths and marker characters of fixed table keys.
proof fn lemma_intl_april_facts()
    ensures
        ("abril"@).len() == 5,
        ("abril"@)[0] == 'a',
        ("avril"@).len() == 5,
        ("avril"@)[0] == 'a',
        ("april"@).len() == 5,
        ("april"@)[0] == 'a',
        ("aprile"@).len() == 6,
        ("aprile"@)[0] == 'a',
        ("kwiecień"@).len() == 8,
        ("kwiecień"@)[0] == 'k',
        ("апрель"@).len() == 6,
        ("апрель"@)[0] == 'а',
        ("أبريل"@).len() == 5,
        ("أبريل"@)[0] == 'أ',
        ("四月"@).len() == 2,
        ("四月"@)[0] == '四',
{
    reveal_strlit("abril");
    reveal_strlit("avril");
    reveal_strlit("april");
    reveal_strlit("aprile");
    reveal_strlit("kwiecień");
    reveal_strlit("апрель");
    reveal_strlit("أبريل");
    reveal_strlit("四月");
}

/// Lengths and marker characters of fixed table keys.
proof fn lemma_intl_may_facts()
    ensures
        ("mayo"@).len() == 4,
        ("mayo"@)[0] == 'm',
        ("mai"@).len() == 3,
        ("mai"@)[0] == 'm',
        ("maggio"@).len() == 6,
        ("maggio"@)[0] == 'm',
        ("maj"@).len() == 3,
        ("maj"@)[0] == 'm',
        ("май"@).len() == 3,
        ("май"@)[0] == 'м',
        ("مايو"@).len() == 4,
        ("مايو"@)[0] == 'م',
        ("五月"@).len() == 2,
        ("五月"@)[0] == '五',
{
    reveal_strlit("mayo");
    reveal_strlit("mai");
    reveal_strlit("maggio");
    reveal_strlit("maj");
    reveal_strlit("май");
    reveal_strlit("مايو");
    reveal_strlit("五月");
}

/// Lengths and marker characters of fixed table keys.
proof fn lemma_intl_june_facts()
    ensures
        ("junio"@).len() == 5,
        ("junio"@)[0] == 'j',
        ("junio"@)[2] == 'n',
        ("juin"@).len() == 4,
        ("juin"@)[0] == 'j',
        ("juni"@).len() == 4,
        ("juni"@)[0] == 'j',
        ("giugno"@).len() == 6,
        ("giugno"@)[0] == 'g',
        ("czerwiec"@).len() == 8,
        ("czerwiec"@)[0] == 'c',
        ("июнь"@).len() == 4,
        ("июнь"@)[0] == 'и',
        ("يونيو"@).len() == 5,
        ("يونيو"@)[0] == 'ي',
        ("六月"@).len() == 2,
        ("六月"@)[0] == '六',
{
    reveal_strlit("junio");
    reveal_strlit("juin");
    reveal_strlit("juni");
    reveal_strlit("giugno");
    reveal_strlit("czerwiec");
    reveal_strlit("июнь");
    reveal_strlit("يونيو");
    reveal_strlit("六月");
}

/// Lengths and marker characters of fixed table keys.
proof fn lemma_intl_july_facts()
    ensures
        ("julio"@).len() == 5,
        ("julio"@)[0] == 'j',
        ("julio"@)[4] == 'o',
        ("juillet"@).len() == 7,
        ("juillet"@)[0] == 'j',
        ("juillet"@)[1] == 'u',
        ("juli"@).len() == 4,
        ("juli"@)[0] == 'j',
        ("luglio"@).len() == 6,
        ("luglio"@)[0] == 'l',
        ("lipiec"@).len() == 6,
        ("lipiec"@)[0] == 'l',
        ("июль"@).len() == 4,
        ("июль"@)[0] == 'и',
        ("يوليو"@).len() == 5,
        ("يوليو"@)[0] == 'ي',
        ("七月"@).len() == 2,
        ("七月"@)[0] == '七',
{
    reveal_strlit("julio");
    reveal_strlit("juillet");
    reveal_strlit("juli");
    reveal_strlit("luglio");
    reveal_strlit("lipiec");
    reveal_strlit("июль");
    reveal_strlit("يوليو");
    reveal_strlit("七月");
}

/// Lengths and marker characters of fixed table keys.
proof fn lemma_intl_august_facts()
    ensures
        ("agosto"@).len() == 6,
        ("agosto"@)[0] == 'a',
        ("août"@).len() == 4,
        ("août"@)[0] == 'a',
        ("august"@).len() == 6,
        ("august"@)[0] == 'a',
        ("sierpień"@).len() == 8,
        ("sierpień"@)[0] == 's',
        ("август"@).len() == 6,
        ("август"@)[0] == 'а',
        ("أغسطس"@).len() == 5,
        ("أغسطس"@)[0] == 'أ',
        ("八月"@).len() == 2,
        ("八月"@)[0] == '八',
{
    reveal_strlit("agosto");
    reveal_strlit("août");
    reveal_strlit("august");
    reveal_strlit("sierpień");
    reveal_strlit("август");
    reveal_strlit("أغسطس");
    reveal_strlit("八月");
}

/// Lengths and marker characters of fixed table keys.
proof fn lemma_intl_september_facts()
    ensures
        ("septiembre"@).len() == 10,
        ("septiembre"@)[0] == 's',
        ("septembre"@).len() == 9,
        ("septembre"@)[0] == 's',
        ("september"@).len() == 9,
        ("september"@)[0] == 's',
        ("settembre"@).len() == 9,
        ("settembre"@)[0] == 's',
        ("wrzesień"@).len() == 8,
        ("wrzesień"@)[0] == 'w',
        ("сентябрь"@).len() == 8,
        ("сентябрь"@)[0] == 'с',
        ("سبتمبر"@).len() == 6,
        ("سبتمبر"@)[0] == 'س',
        ("九月"@).len() == 2,
        ("九月"@)[0] == '九',
{
    reveal_strlit("septiembre");
    reveal_strlit("septembre");
    reveal_strlit("september");
    reveal_strlit("settembre");
    reveal_strlit("wrzesień");
    reveal_strlit("сентябрь");
    reveal_strlit("سبتمبر");
    reveal_strlit("九月");
}

/// Lengths and marker characters of fixed table keys.
proof fn lemma_intl_october_facts()
    ensures
        ("octubre"@).len() == 7,
        ("octubre"@)[0] == 'o',
        ("octobre"@).len() == 7,
        ("octobre"@)[0] == 'o',
        ("oktober"@).len() == 7,
        ("oktober"@)[0] == 'o',
        ("ottobre"@).len() == 7,
        ("ottobre"@)[0] == 'o',
        ("październik"@).len() == 11,
        ("październik"@)[0] == 'p',
        ("октябрь"@).len() == 7,
        ("октябрь"@)[0] == 'о',
        ("أكتوبر"@).len() == 6,
        ("أكتوبر"@)[0] == 'أ',
        ("十月"@).len() == 2,
        ("十月"@)[0] == '十',
{
    reveal_strlit("octubre");
    reveal_strlit("octobre");
    reveal_strlit("oktober");
    reveal_strlit("ottobre");
    reveal_strlit("październik");
    reveal_strlit("октябрь");
    reveal_strlit("أكتوبر");
    reveal_strlit("十月");
}

/// Lengths and marker characters of fixed table keys.
proof fn lemma_intl_november_facts()
    ensures
        ("noviembre"@).len() == 9,
        ("noviembre"@)[0] == 'n',
        ("novembre"@).len() == 8,
        ("novembre"@)[0] == 'n',
        ("november"@).len() == 8,
        ("november"@)[0] == 'n',
        ("listopad"@).len() == 8,
        ("listopad"@)[0] == 'l',
        ("ноябрь"@).len() == 6,
        ("ноябрь"@)[0] == 'н',
        ("نوفمبر"@).len() == 6,
        ("نوفمبر"@)[0] == 'ن',
        ("十一月"@).len() == 3,
        ("十一月"@)[0] == '十',
{
    reveal_strlit("noviembre");
    reveal_strlit("novembre");
    reveal_strlit("november");
    reveal_strlit("listopad");
    reveal_strlit("ноябрь");
    reveal_strlit("نوفمبر");
    reveal_strlit("十一月");
}

/// Lengths and marker characters of fixed table keys.
proof fn lemma_intl_december_facts()
    ensures
        ("diciembre"@).len() == 9,
        ("diciembre"@)[0] == 'd',
        ("décembre"@).len() == 8,
        ("décembre"@)[0] == 'd',
        ("dezember"@).len() == 8,
        ("dezember"@)[0] == 'd',
        ("dicembre"@).len() == 8,
        ("dicembre"@)[0] == 'd',
        ("grudzień"@).len() == 8,
        ("grudzień"@)[0] == 'g',
        ("декабрь"@).len() == 7,
        ("декабрь"@)[0] == 'д',
        ("ديسمبر"@).len() == 6,
        ("ديسمبر"@)[0] == 'د',
        ("十二月"@).len() == 3,
        ("十二月"@)[0] == '十',
{
    reveal_strlit("diciembre");
    reveal_strlit("décembre");
    reveal_strlit("dezember");
    reveal_strlit("dicembre");
    reveal_strlit("grudzień");
    reveal_strlit("декабрь");
    reveal_strlit("ديسمبر");
    reveal_strlit("十二月");
}

/// Lengths and characters of the denylisted tokens.
proof fn lemma_denylist_facts()
    ensures
        ("marsh"@).len() == 5,
        ("marsh"@)[0] == 'm',
        ("marsh"@)[1] == 'a',
        ("marsh"@)[2] == 'r',
        ("marsh"@)[3] == 's',
        ("marsh"@)[4] == 'h',
        ("julie"@).len() == 5,
        ("julie"@)[0] == 'j',
        ("julie"@)[1] == 'u',
        ("julie"@)[2] == 'l',
        ("julie"@)[3] == 'i',
        ("julie"@)[4] == 'e',
        ("januori"@).len() == 7,
        ("januori"@)[0] == 'j',
        ("januori"@)[1] == 'a',
        ("januori"@)[2] == 'n',
        ("januori"@)[3] == 'u',
        ("januori"@)[4] == 'o',
        ("januori"@)[5] == 'r',
        ("januori"@)[6] == 'i',
{
    reveal_strlit("marsh");
    reveal_strlit("julie");
    reveal_strlit("januori");
}

/// The exact table holds no empty key.
proof fn lemma_exact_match_empty(n: Seq<char>)
    requires
        n.len() == 0,
    ensures
        exact_match(n) is None,
{
    lemma_exact_january_facts();
    lemma_exact_february_facts();
    lemma_exact_march_facts();
    lemma_exact_april_facts();
    lemma_exact_may_facts();
    lemma_exact_june_facts();
    lemma_exact_july_facts();
    lemma_exact_august_facts();
    lemma_exact_september_facts();
    lemma_exact_october_facts();
    lemma_exact_november_facts();
    lemma_exact_december_facts();
}

/// A denylisted token matches no key of the exact table.
proof fn lemma_exact_match_not_denylisted(n: Seq<char>)
    requires
        is_denylisted(n),
    ensures
        exact_match(n) is None,
{
    lemma_denylist_facts();
    lemma_exact_january_facts();
    lemma_exact_february_facts();
    lemma_exact_march_facts();
    lemma_exact_april_facts();
    lemma_exact_may_facts();
    lemma_exact_june_facts();
    lemma_exact_july_facts();
    lemma_exact_august_facts();
    lemma_exact_september_facts();
    lemma_exact_october_facts();
    lemma_exact_november_facts();
    lemma_exact_december_facts();
}

/// An exact-table hit on a string with a leading digit can only be one of
/// the numeric keys, whose digit prefix is the whole key and whose value
/// names the matched month.
proof fn lemma_exact_match_digit(n: Seq<char>)
    requires
        exact_match(n) is Some,
        is_digit_char(n[0]),
    ensures
        digit_prefix_len(n) > 0,
        1 <= digits_value(n.take(digit_prefix_len(n) as int)) <= 12,
        exact_match(n) == Some(month_of_number(digits_value(n.take(digit_prefix_len(n) as int)) as int)),
{
    lemma_exact_january_facts();
    lemma_exact_february_facts();
    lemma_exact_march_facts();
    lemma_exact_april_facts();
    lemma_exact_may_facts();
    lemma_exact_june_facts();
    lemma_exact_july_facts();
    lemma_exact_august_facts();
    lemma_exact_september_facts();
    lemma_exact_october_facts();
    lemma_exact_november_facts();
    lemma_exact_december_facts();
    if n == "1"@ {
        lemma_single_digit_key(n, '1');
    }
    if n == "2"@ {
        lemma_single_digit_key(n, '2');
    }
    if n == "3"@ {
        lemma_single_digit_key(n, '3');
    }
    if n == "4"@ {
        lemma_single_digit_key(n, '4');
    }
    if n == "5"@ {
        lemma_single_digit_key(n, '5');
    }
    if n == "6"@ {
        lemma_single_digit_key(n, '6');
    }
    if n == "7"@ {
        lemma_single_digit_key(n, '7');
    }
    if n == "8"@ {
        lemma_single_digit_key(n, '8');
    }
    if n == "9"@ {
        lemma_single_digit_key(n, '9');
    }
    if n == "01"@ {
        lemma_double_digit_key(n, '0', '1');
    }
    if n == "02"@ {
        lemma_double_digit_key(n, '0', '2');
    }
    if n == "03"@ {
        lemma_double_digit_key(n, '0', '3');
    }
    if n == "04"@ {
        lemma_double_digit_key(n, '0', '4');
    }
    if n == "05"@ {
        lemma_double_digit_key(n, '0', '5');
    }
    if n == "06"@ {
        lemma_double_digit_key(n, '0', '6');
    }
    if n == "07"@ {
        lemma_double_digit_key(n, '0', '7');
    }
    if n == "08"@ {
        lemma_double_digit_key(n, '0', '8');
    }
    if n == "09"@ {
        lemma_double_digit_key(n, '0', '9');
    }
    if n == "10"@ {
        lemma_double_digit_key(n, '1', '0');
    }
    if n == "11"@ {
        lemma_double_digit_key(n, '1', '1');
    }
    if n == "12"@ {
        lemma_double_digit_key(n, '1', '2');
    }
}

/// The international table holds no empty key.
proof fn lemma_intl_match_empty(n: Seq<char>)
    requires
        n.len() == 0,
    ensures
        intl_match(n) is None,
{
    lemma_intl_january_facts();
    lemma_intl_february_facts();
    lemma_intl_march_facts();
    lemma_intl_april_facts();
    lemma_intl_may_facts();
    lemma_intl_june_facts();
    lemma_intl_july_facts();
    lemma_intl_august_facts();
    lemma_intl_september_facts();
    lemma_intl_october_facts();
    lemma_intl_november_facts();
    lemma_intl_december_facts();
}

/// A denylisted token matches no key of the international table.
proof fn lemma_intl_match_not_denylisted(n: Seq<char>)
    requires
        is_denylisted(n),
    ensures
        intl_match(n) is None,
{
    lemma_denylist_facts();
    lemma_intl_january_facts();
    lemma_intl_february_facts();
    lemma_intl_march_facts();
    lemma_intl_april_facts();
    lemma_intl_may_facts();
    lemma_intl_june_facts();
    lemma_intl_july_facts();
    lemma_intl_august_facts();
    lemma_intl_september_facts();
    lemma_intl_october_facts();
    lemma_intl_november_facts();
    lemma_intl_december_facts();
}

/// A denylisted token always fails, regardless of any similarity score:
/// no earlier stage matches one, and the denylist stage rejects it before
/// the fuzzy matcher can see it.
pub proof fn lemma_denylisted_rejected(n: Seq<char>)
    requires
        is_denylisted(n),
    ensures
        spec_resolve(n) is None,
{
    lemma_denylist_facts();
    lemma_exact_match_not_denylisted(n);
    lemma_intl_match_not_denylisted(n);
    assert(!is_digit_char(n[0]));
    assert(digit_prefix_len(n) == 0);
    assert(numeric_match(n) is None);
}

/// The empty string fails: it matches no table, holds no digits, and its
/// distance to every canonical name is that whole name's length, far past
/// the similarity threshold.
pub proof fn lemma_empty_rejected(n: Seq<char>)
    requires
        n.len() == 0,
    ensures
        spec_resolve(n) is None,
{
    lemma_exact_match_empty(n);
    lemma_intl_match_empty(n);
    lemma_denylist_facts();
    assert(digit_prefix_len(n) == 0);
    let b = best_idx(n, 12);
    lemma_best_idx_bounds(n, 12);
    lemma_exact_january_facts();
    lemma_exact_february_facts();
    lemma_exact_march_facts();
    lemma_exact_april_facts();
    lemma_exact_may_facts();
    lemma_exact_june_facts();
    lemma_exact_july_facts();
    lemma_exact_august_facts();
    lemma_exact_september_facts();
    lemma_exact_october_facts();
    lemma_exact_november_facts();
    lemma_exact_december_facts();
    assert(month_name_seq(b).len() > 0);
    assert(name_dist(n, b) == month_name_seq(b).len());
    assert(fuzzy_match(n) is None);
}

/// A string whose leading digits read as a value from 1 to 12 resolves to
/// the month at that position, whatever follows the digits: the exact
/// table agrees with the numeric stage on every key that starts with a
/// digit, and no other stage comes before them.
pub proof fn lemma_numeric_prefix_resolves(n: Seq<char>)
    requires
        digit_prefix_len(n) > 0,
        1 <= digits_value(n.take(digit_prefix_len(n) as int)) <= 12,
    ensures
        spec_resolve(n) == Some(
            month_of_number(digits_value(n.take(digit_prefix_len(n) as int)) as int),
        ),
{
    lemma_digit_prefix_len(n);
    assert(is_digit_char(n[0]));
    if exact_match(n) is Some {
        lemma_exact_match_digit(n);
    }
}

/// Appending one character to a canonical month name keeps it within the
/// fuzzy acceptance threshold of that name: the edit distance is at most
/// one, and every name is long enough that one edit stays within a
/// quarter of the normalizing length.
pub proof fn lemma_appended_char_within_threshold(i: int, c: char)
    requires
        0 <= i < 12,
    ensures
        4 * name_dist(month_name_seq(i).push(c), i) <= len_max(month_name_seq(i).push(c), i),
{
    lemma_edit_distance_append_one(month_name_seq(i), c);
    lemma_exact_january_facts();
    lemma_exact_february_facts();
    lemma_exact_march_facts();
    lemma_exact_april_facts();
    lemma_exact_may_facts();
    lemma_exact_june_facts();
    lemma_exact_july_facts();
    lemma_exact_august_facts();
    lemma_exact_september_facts();
    lemma_exact_october_facts();
    lemma_exact_november_facts();
    lemma_exact_december_facts();
    assert(month_name_seq(i).len() >= 3);
}

} // verus!
