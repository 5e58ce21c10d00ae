//! Phone numbers in international form.
//!
//! Normalizing is a heuristic and no validation: it keeps the digits and the
//! plus signs of a number, and gives a number without a leading plus sign a
//! prefix. A number of few digits is taken for a national one and gets the
//! default country code; a longer one is taken to begin with a country code
//! already and gets a bare plus sign.

use vstd::prelude::*;
use crate::text::{is_digit, is_digit_char, chars_of, string_of};

verus! {

/// The country code given to national numbers where none is configured.
pub const DEFAULT_COUNTRY_CODE: &'static str = "+55";

/// The most digits that a national number has where nothing else is
/// configured.
pub const DEFAULT_NATIONAL_DIGITS: usize = 11;

/// Whether a character belongs to a dialable number.
pub open spec fn is_dial_char(c: char) -> bool {
    is_digit(c) || c == '+'
}

/// The digits and plus signs of `raw`, in order.
pub open spec fn dial_chars(raw: Seq<char>) -> Seq<char> {
    raw.filter(|c: char| is_dial_char(c))
}

/// The number of digits in `s`.
pub open spec fn digit_count(s: Seq<char>) -> nat {
    s.filter(|c: char| is_digit(c)).len()
}

/// The international form of `raw`, for the given default country code and
/// the given greatest length of a national number.
pub open spec fn normalized(raw: Seq<char>, country_code: Seq<char>, national_digits: usize) -> Seq<
    char,
> {
    let kept = dial_chars(raw);
    if kept.len() > 0 && kept[0] == '+' {
        kept
    } else if digit_count(kept) <= national_digits {
        country_code + kept
    } else {
        seq!['+'] + kept
    }
}

/// Whether a number holds a digit at all. One that holds none is beyond
/// repair: normalizing it leaves nothing to dial.
pub open spec fn has_digit(raw: Seq<char>) -> bool {
    exists|i: int| 0 <= i < raw.len() && is_digit(#[trigger] raw[i])
}

/// Whether `raw` holds a digit.
pub fn holds_digit(raw: &str) -> (yes: bool)
    ensures
        yes == has_digit(raw@),
{
    let chars = chars_of(raw);
    let mut i: usize = 0;
    while i < chars.len()
        invariant
            i <= chars.len(),
            chars@ == raw@,
            forall|k: int| 0 <= k < i ==> !is_digit(#[trigger] raw@[k]),
        decreases chars.len() - i,
    {
        if is_digit_char(chars[i]) {
            return true;
        }
        i += 1;
    }
    false
}

/// How numbers are brought into international form.
pub struct PhoneNormalizer {
    /// The prefix for national numbers, plus sign included.
    pub default_country_code: String,
    /// The most digits that a national number has.
    pub national_digits: usize,
}

impl PhoneNormalizer {
    /// A normalizer with the given country code and national length.
    pub fn new(default_country_code: &str, national_digits: usize) -> (normalizer: Self)
        ensures
            normalizer.default_country_code@ == default_country_code@,
            normalizer.national_digits == national_digits,
    {
        PhoneNormalizer { default_country_code: default_country_code.to_owned(), national_digits }
    }

    /// Brings `raw` into international form.
    pub fn normalize(&self, raw: &str) -> (out: String)
        ensures
            out@ == normalized(raw@, self.default_country_code@, self.national_digits),
    {
        let chars = chars_of(raw);
        let ghost keep = |c: char| is_dial_char(c);
        let ghost digit = |c: char| is_digit(c);
        let mut kept: Vec<char> = Vec::new();
        let mut digits: usize = 0;
        let mut i: usize = 0;
        while i < chars.len()
            invariant
                i <= chars.len(),
                chars@ == raw@,
                keep == (|c: char| is_dial_char(c)),
                digit == (|c: char| is_digit(c)),
                kept@ == chars@.take(i as int).filter(keep),
                digits == kept@.filter(digit).len(),
                digits <= kept@.len() <= i,
            decreases chars.len() - i,
        {
            let c = chars[i];
            proof {
                let next = chars@.take(i + 1);
                assert(next.drop_last() =~= chars@.take(i as int));
                reveal(Seq::filter);
                if is_dial_char(c) {
                    assert(kept@.push(c).drop_last() =~= kept@);
                }
            }
            if is_digit_char(c) {
                kept.push(c);
                digits += 1;
            } else if c == '+' {
                kept.push(c);
            }
            i += 1;
        }
        assert(chars@.take(chars.len() as int) =~= chars@);
        if kept.len() > 0 && kept[0] == '+' {
            return string_of(&kept);
        }
        let mut out: Vec<char> = if digits <= self.national_digits {
            chars_of(self.default_country_code.as_str())
        } else {
            let mut plus: Vec<char> = Vec::new();
            plus.push('+');
            plus
        };
        let ghost prefix = out@;
        let mut k: usize = 0;
        while k < kept.len()
            invariant
                k <= kept.len(),
                out@ == prefix + kept@.take(k as int),
            decreases kept.len() - k,
        {
            out.push(kept[k]);
            k += 1;
        }
        string_of(&out)
    }
}

impl Default for PhoneNormalizer {
    fn default() -> (normalizer: Self)
        ensures
            normalizer.default_country_code@ == DEFAULT_COUNTRY_CODE@,
            normalizer.national_digits == DEFAULT_NATIONAL_DIGITS,
    {
        PhoneNormalizer::new(DEFAULT_COUNTRY_CODE, DEFAULT_NATIONAL_DIGITS)
    }
}

/// A normalized number never loses a digit or a plus sign of the input, and
/// always starts with a plus sign where the country code does.
pub proof fn lemma_normalized_starts_with_plus(
    raw: Seq<char>,
    country_code: Seq<char>,
    national_digits: usize,
)
    requires
        country_code.len() > 0,
        country_code[0] == '+',
    ensures
        normalized(raw, country_code, national_digits).len() > 0,
        normalized(raw, country_code, national_digits)[0] == '+',
        dial_chars(raw).is_suffix_of(normalized(raw, country_code, national_digits)),
{
    let kept = dial_chars(raw);
    if kept.len() > 0 && kept[0] == '+' {
    } else if digit_count(kept) <= national_digits {
    } else {
    }
}

} // verus!
