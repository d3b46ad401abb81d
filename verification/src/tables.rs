//! The fixed lookup tables: canonical names with their abbreviations and
//! numeric forms, international spellings, and the denylist.

use crate::month::Month;
use crate::text::str_eq;
use vstd::prelude::*;

verus! {

/// Exact keys for January: the full name, the abbreviations and the
/// numeric forms.
pub open spec fn is_exact_key_january(n: Seq<char>) -> bool {
    n == "january"@ || n == "jan"@ || n == "ja"@ || n == "1"@ || n == "01"@
}

/// Exact keys for February.
pub open spec fn is_exact_key_february(n: Seq<char>) -> bool {
    n == "february"@ || n == "feb"@ || n == "2"@ || n == "02"@
}

/// Exact keys for March.
pub open spec fn is_exact_key_march(n: Seq<char>) -> bool {
    n == "march"@ || n == "mar"@ || n == "3"@ || n == "03"@
}

/// Exact keys for April.
pub open spec fn is_exact_key_april(n: Seq<char>) -> bool {
    n == "april"@ || n == "apr"@ || n == "4"@ || n == "04"@
}

/// Exact keys for May.
pub open spec fn is_exact_key_may(n: Seq<char>) -> bool {
    n == "may"@ || n == "5"@ || n == "05"@
}

/// Exact keys for June.
pub open spec fn is_exact_key_june(n: Seq<char>) -> bool {
    n == "june"@ || n == "jun"@ || n == "6"@ || n == "06"@
}

/// Exact keys for July.
pub open spec fn is_exact_key_july(n: Seq<char>) -> bool {
    n == "july"@ || n == "jul"@ || n == "7"@ || n == "07"@
}

/// Exact keys for August.
pub open spec fn is_exact_key_august(n: Seq<char>) -> bool {
    n == "august"@ || n == "aug"@ || n == "8"@ || n == "08"@
}

/// Exact keys for September, which has two abbreviations.
pub open spec fn is_exact_key_september(n: Seq<char>) -> bool {
    n == "september"@ || n == "sep"@ || n == "sept"@ || n == "9"@ || n == "09"@
}

/// Exact keys for October.
pub open spec fn is_exact_key_october(n: Seq<char>) -> bool {
    n == "october"@ || n == "oct"@ || n == "10"@
}

/// Exact keys for November.
pub open spec fn is_exact_key_november(n: Seq<char>) -> bool {
    n == "november"@ || n == "nov"@ || n == "11"@
}

/// Exact keys for December.
pub open spec fn is_exact_key_december(n: Seq<char>) -> bool {
    n == "december"@ || n == "dec"@ || n == "12"@
}

/// The exact/abbreviation table lookup: the month whose key set holds the
/// given string, if any.
pub open spec fn exact_match(n: Seq<char>) -> Option<Month> {
    if is_exact_key_january(n) {
        Some(Month::January)
    } else if is_exact_key_february(n) {
        Some(Month::February)
    } else if is_exact_key_march(n) {
        Some(Month::March)
    } else if is_exact_key_april(n) {
        Some(Month::April)
    } else if is_exact_key_may(n) {
        Some(Month::May)
    } else if is_exact_key_june(n) {
        Some(Month::June)
    } else if is_exact_key_july(n) {
        Some(Month::July)
    } else if is_exact_key_august(n) {
        Some(Month::August)
    } else if is_exact_key_september(n) {
        Some(Month::September)
    } else if is_exact_key_october(n) {
        Some(Month::October)
    } else if is_exact_key_november(n) {
        Some(Month::November)
    } else if is_exact_key_december(n) {
        Some(Month::December)
    } else {
        None
    }
}

/// Exact lookup in the canonical-name/abbreviation/numeric table.
pub(crate) fn exact_lookup(s: &str) -> (r: Option<Month>)
    ensures
        r == exact_match(s@),
{
    if str_eq(s, "january") || str_eq(s, "jan") || str_eq(s, "ja") || str_eq(s, "1") || str_eq(
        s,
        "01",
    ) {
        Some(Month::January)
    } else if str_eq(s, "february") || str_eq(s, "feb") || str_eq(s, "2") || str_eq(s, "02") {
        Some(Month::February)
    } else if str_eq(s, "march") || str_eq(s, "mar") || str_eq(s, "3") || str_eq(s, "03") {
        Some(Month::March)
    } else if str_eq(s, "april") || str_eq(s, "apr") || str_eq(s, "4") || str_eq(s, "04") {
        Some(Month::April)
    } else if str_eq(s, "may") || str_eq(s, "5") || str_eq(s, "05") {
        Some(Month::May)
    } else if str_eq(s, "june") || str_eq(s, "jun") || str_eq(s, "6") || str_eq(s, "06") {
        Some(Month::June)
    } else if str_eq(s, "july") || str_eq(s, "jul") || str_eq(s, "7") || str_eq(s, "07") {
        Some(Month::July)
    } else if str_eq(s, "august") || str_eq(s, "aug") || str_eq(s, "8") || str_eq(s, "08") {
        Some(Month::August)
    } else if str_eq(s, "september") || str_eq(s, "sep") || str_eq(s, "sept") || str_eq(s, "9")
        || str_eq(s, "09") {
        Some(Month::September)
    } else if str_eq(s, "october") || str_eq(s, "oct") || str_eq(s, "10") {
        Some(Month::October)
    } else if str_eq(s, "november") || str_eq(s, "nov") || str_eq(s, "11") {
        Some(Month::November)
    } else if str_eq(s, "december") || str_eq(s, "dec") || str_eq(s, "12") {
        Some(Month::December)
    } else {
        None
    }
}

/// International spellings of January (Spanish, French, German, Italian,
/// Polish, Russian, Arabic, Chinese).
pub open spec fn is_intl_january(n: Seq<char>) -> bool {
    n == "enero"@ || n == "janvier"@ || n == "januar"@ || n == "gennaio"@ || n == "styczeń"@
        || n == "январь"@ || n == "يناير"@ || n == "一月"@
}

/// International spellings of February.
pub open spec fn is_intl_february(n: Seq<char>) -> bool {
    n == "febrero"@ || n == "février"@ || n == "februar"@ || n == "febbraio"@ || n == "luty"@
        || n == "февраль"@ || n == "فبراير"@ || n == "二月"@
}

/// International spellings of March; Spanish and Italian share "marzo".
pub open spec fn is_intl_march(n: Seq<char>) -> bool {
    n == "marzo"@ || n == "mars"@ || n == "märz"@ || n == "marzec"@ || n == "март"@
        || n == "مارس"@ || n == "三月"@
}

/// International spellings of April.
pub open spec fn is_intl_april(n: Seq<char>) -> bool {
    n == "abril"@ || n == "avril"@ || n == "april"@ || n == "aprile"@ || n == "kwiecień"@
        || n == "апрель"@ || n == "أبريل"@ || n == "四月"@
}

/// International spellings of May; French and German share "mai".
pub open spec fn is_intl_may(n: Seq<char>) -> bool {
    n == "mayo"@ || n == "mai"@ || n == "maggio"@ || n == "maj"@ || n == "май"@ || n == "مايو"@
        || n == "五月"@
}

/// International spellings of June.
pub open spec fn is_intl_june(n: Seq<char>) -> bool {
    n == "junio"@ || n == "juin"@ || n == "juni"@ || n == "giugno"@ || n == "czerwiec"@
        || n == "июнь"@ || n == "يونيو"@ || n == "六月"@
}

/// International spellings of July.
pub open spec fn is_intl_july(n: Seq<char>) -> bool {
    n == "julio"@ || n == "juillet"@ || n == "juli"@ || n == "luglio"@ || n == "lipiec"@
        || n == "июль"@ || n == "يوليو"@ || n == "七月"@
}

/// International spellings of August; Spanish and Italian share "agosto".
pub open spec fn is_intl_august(n: Seq<char>) -> bool {
    n == "agosto"@ || n == "août"@ || n == "august"@ || n == "sierpień"@ || n == "август"@
        || n == "أغسطس"@ || n == "八月"@
}

/// International spellings of September.
pub open spec fn is_intl_september(n: Seq<char>) -> bool {
    n == "septiembre"@ || n == "septembre"@ || n == "september"@ || n == "settembre"@
        || n == "wrzesień"@ || n == "сентябрь"@ || n == "سبتمبر"@ || n == "九月"@
}

/// International spellings of October.
pub open spec fn is_intl_october(n: Seq<char>) -> bool {
    n == "octubre"@ || n == "octobre"@ || n == "oktober"@ || n == "ottobre"@
        || n == "październik"@ || n == "октябрь"@ || n == "أكتوبر"@ || n == "十月"@
}

/// International spellings of November; French and Italian share "novembre".
pub open spec fn is_intl_november(n: Seq<char>) -> bool {
    n == "noviembre"@ || n == "novembre"@ || n == "november"@ || n == "listopad"@
        || n == "ноябрь"@ || n == "نوفمبر"@ || n == "十一月"@
}

/// International spellings of December.
pub open spec fn is_intl_december(n: Seq<char>) -> bool {
    n == "diciembre"@ || n == "décembre"@ || n == "dezember"@ || n == "dicembre"@
        || n == "grudzień"@ || n == "декабрь"@ || n == "ديسمبر"@ || n == "十二月"@
}

/// The international-variant table lookup: the month one of whose foreign
/// spellings equals the given string, if any.
pub open spec fn intl_match(n: Seq<char>) -> Option<Month> {
    if is_intl_january(n) {
        Some(Month::January)
    } else if is_intl_february(n) {
        Some(Month::February)
    } else if is_intl_march(n) {
        Some(Month::March)
    } else if is_intl_april(n) {
        Some(Month::April)
    } else if is_intl_may(n) {
        Some(Month::May)
    } else if is_intl_june(n) {
        Some(Month::June)
    } else if is_intl_july(n) {
        Some(Month::July)
    } else if is_intl_august(n) {
        Some(Month::August)
    } else if is_intl_september(n) {
        Some(Month::September)
    } else if is_intl_october(n) {
        Some(Month::October)
    } else if is_intl_november(n) {
        Some(Month::November)
    } else if is_intl_december(n) {
        Some(Month::December)
    } else {
        None
    }
}

/// Exact lookup in the international-variant table.
pub(crate) fn intl_lookup(s: &str) -> (r: Option<Month>)
    ensures
        r == intl_match(s@),
{
    if str_eq(s, "enero") || str_eq(s, "janvier") || str_eq(s, "januar") || str_eq(s, "gennaio")
        || str_eq(s, "styczeń") || str_eq(s, "январь") || str_eq(s, "يناير") || str_eq(s, "一月") {
        Some(Month::January)
    } else if str_eq(s, "febrero") || str_eq(s, "février") || str_eq(s, "februar") || str_eq(
        s,
        "febbraio",
    ) || str_eq(s, "luty") || str_eq(s, "февраль") || str_eq(s, "فبراير") || str_eq(s, "二月") {
        Some(Month::February)
    } else if str_eq(s, "marzo") || str_eq(s, "mars") || str_eq(s, "märz") || str_eq(s, "marzec")
        || str_eq(s, "март") || str_eq(s, "مارس") || str_eq(s, "三月") {
        Some(Month::March)
    } else if str_eq(s, "abril") || str_eq(s, "avril") || str_eq(s, "april") || str_eq(s, "aprile")
        || str_eq(s, "kwiecień") || str_eq(s, "апрель") || str_eq(s, "أبريل") || str_eq(s, "四月") {
        Some(Month::April)
    } else if str_eq(s, "mayo") || str_eq(s, "mai") || str_eq(s, "maggio") || str_eq(s, "maj")
        || str_eq(s, "май") || str_eq(s, "مايو") || str_eq(s, "五月") {
        Some(Month::May)
    } else if str_eq(s, "junio") || str_eq(s, "juin") || str_eq(s, "juni") || str_eq(s, "giugno")
        || str_eq(s, "czerwiec") || str_eq(s, "июнь") || str_eq(s, "يونيو") || str_eq(s, "六月") {
        Some(Month::June)
    } else if str_eq(s, "julio") || str_eq(s, "juillet") || str_eq(s, "juli") || str_eq(s, "luglio")
        || str_eq(s, "lipiec") || str_eq(s, "июль") || str_eq(s, "يوليو") || str_eq(s, "七月") {
        Some(Month::July)
    } else if str_eq(s, "agosto") || str_eq(s, "août") || str_eq(s, "august") || str_eq(
        s,
        "sierpień",
    ) || str_eq(s, "август") || str_eq(s, "أغسطس") || str_eq(s, "八月") {
        Some(Month::August)
    } else if str_eq(s, "septiembre") || str_eq(s, "septembre") || str_eq(s, "september") || str_eq(
        s,
        "settembre",
    ) || str_eq(s, "wrzesień") || str_eq(s, "сентябрь") || str_eq(s, "سبتمبر") || str_eq(s, "九月") {
        Some(Month::September)
    } else if str_eq(s, "octubre") || str_eq(s, "octobre") || str_eq(s, "oktober") || str_eq(
        s,
        "ottobre",
    ) || str_eq(s, "październik") || str_eq(s, "октябрь") || str_eq(s, "أكتوبر") || str_eq(
        s,
        "十月",
    ) {
        Some(Month::October)
    } else if str_eq(s, "noviembre") || str_eq(s, "novembre") || str_eq(s, "november") || str_eq(
        s,
        "listopad",
    ) || str_eq(s, "ноябрь") || str_eq(s, "نوفمبر") || str_eq(s, "十一月") {
        Some(Month::November)
    } else if str_eq(s, "diciembre") || str_eq(s, "décembre") || str_eq(s, "dezember") || str_eq(
        s,
        "dicembre",
    ) || str_eq(s, "grudzień") || str_eq(s, "декабрь") || str_eq(s, "ديسمبر") || str_eq(
        s,
        "十二月",
    ) {
        Some(Month::December)
    } else {
        None
    }
}

/// The denylist: strings superficially close to a month name that must
/// always be rejected rather than reach the fuzzy matcher.
pub open spec fn is_denylisted(n: Seq<char>) -> bool {
    n == "marsh"@ || n == "julie"@ || n == "januori"@
}

/// Denylist membership test.
pub(crate) fn denylisted(s: &str) -> (r: bool)
    ensures
        r == is_denylisted(s@),
{
    str_eq(s, "marsh") || str_eq(s, "julie") || str_eq(s, "januori")
}

/// The canonical lowercase English month name at a 0-based index; the
/// corpus the fuzzy matcher scores against.
pub open spec fn month_name_seq(i: int) -> Seq<char> {
    if i == 0 {
        "january"@
    } else if i == 1 {
        "february"@
    } else if i == 2 {
        "march"@
    } else if i == 3 {
        "april"@
    } else if i == 4 {
        "may"@
    } else if i == 5 {
        "june"@
    } else if i == 6 {
        "july"@
    } else if i == 7 {
        "august"@
    } else if i == 8 {
        "september"@
    } else if i == 9 {
        "october"@
    } else if i == 10 {
        "november"@
    } else {
        "december"@
    }
}

/// The canonical month name at a 0-based index.
pub(crate) fn month_name_at(i: usize) -> (r: &'static str)
    requires
        i < 12,
    ensures
        r@ == month_name_seq(i as int),
{
    if i == 0 {
        "january"
    } else if i == 1 {
        "february"
    } else if i == 2 {
        "march"
    } else if i == 3 {
        "april"
    } else if i == 4 {
        "may"
    } else if i == 5 {
        "june"
    } else if i == 6 {
        "july"
    } else if i == 7 {
        "august"
    } else if i == 8 {
        "september"
    } else if i == 9 {
        "october"
    } else if i == 10 {
        "november"
    } else {
        "december"
    }
}

} // verus!
