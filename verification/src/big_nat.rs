//! Natural numbers of any size, as remote services report them.

use crate::text::{
    all_digits, chars_of, decimal, decimal_string, digits_value, is_numeral, lemma_decimal_numeral,
    lemma_decimal_value, lemma_numeral_decimal, parse_digits, string_of,
};
use vstd::prelude::*;

verus! {

/// A numeral with an underscore before every group of three digits, counted
/// from the right: `1234567` becomes `1_234_567`.
pub open spec fn grouped(numeral: Seq<char>) -> Seq<char>
    decreases numeral.len(),
{
    if numeral.len() <= 3 {
        numeral
    } else {
        grouped(numeral.take(numeral.len() - 3)) + seq!['_'] + numeral.skip(numeral.len() - 3)
    }
}

/// Groups the digits of a numeral by three: `candid::utils::pp_num_str`,
/// which cuts its argument into chunks of three bytes from the right and
/// joins them with underscores. The function fails on an empty argument
/// and treats a lone leading hyphen as a sign, so the argument is a
/// numeral here.
#[verifier::external_body]
fn group_digits(numeral: &str) -> (text: String)
    requires
        numeral@.len() > 0,
        all_digits(numeral@),
    ensures
        text@ == grouped(numeral@),
{
    candid::utils::pp_num_str(numeral)
}

/// A natural number without an upper bound, held as its decimal numeral.
#[derive(Debug, PartialEq, Eq)]
pub struct BigNat {
    digits: Vec<char>,
}

impl View for BigNat {
    type V = nat;

    closed spec fn view(&self) -> nat {
        digits_value(self.digits@)
    }
}

impl Clone for BigNat {
    fn clone(&self) -> (copy: BigNat)
        ensures
            copy@ == self@,
    {
        proof {
            use_type_invariant(self);
        }
        let mut digits: Vec<char> = Vec::new();
        let mut i: usize = 0;
        while i < self.digits.len()
            invariant
                i <= self.digits.len(),
                digits@ == self.digits@.take(i as int),
            decreases self.digits.len() - i,
        {
            digits.push(self.digits[i]);
            assert(self.digits@.take(i + 1) =~= self.digits@.take(i as int).push(
                self.digits@[i as int],
            ));
            i = i + 1;
        }
        assert(self.digits@.take(self.digits.len() as int) =~= self.digits@);
        BigNat { digits }
    }
}

impl BigNat {
    /// Validity: the digits form a numeral without leading zeros.
    #[verifier::type_invariant]
    pub closed spec fn well_formed(&self) -> bool {
        is_numeral(self.digits@)
    }

    /// The number that `numeral` denotes: `None` unless `numeral` is made of
    /// decimal digits, at least one. Leading zeros are accepted.
    pub fn from_decimal(numeral: &str) -> (number: Option<BigNat>)
        ensures
            number is Some <==> numeral@.len() > 0 && all_digits(numeral@),
            number matches Some(n) ==> n@ == digits_value(numeral@) && n.well_formed(),
    {
        let chars = chars_of(numeral);
        if chars.len() == 0 {
            return None;
        }
        let mut i: usize = 0;
        while i < chars.len()
            invariant
                i <= chars.len(),
                chars@ == numeral@,
                all_digits(chars@.take(i as int)),
            decreases chars.len() - i,
        {
            let code: u32 = chars[i] as u32;
            if code < 48 || code > 57 {
                return None;
            }
            assert(all_digits(chars@.take(i + 1))) by {
                assert forall|j: int| 0 <= j < i + 1 implies crate::text::is_digit(
                    #[trigger] chars@.take(i + 1)[j],
                ) by {
                    if j < i {
                        assert(chars@.take(i + 1)[j] == chars@.take(i as int)[j]);
                    }
                }
            }
            i = i + 1;
        }
        assert(chars@.take(chars.len() as int) =~= chars@);
        let mut start: usize = 0;
        while start + 1 < chars.len() && chars[start] == '0'
            invariant
                start < chars.len(),
                all_digits(chars@),
                digits_value(chars@.skip(start as int)) == digits_value(chars@),
            decreases chars.len() - start,
        {
            proof {
                lemma_leading_zero(chars@.skip(start as int));
                assert(chars@.skip(start as int).skip(1) =~= chars@.skip(start + 1));
            }
            start = start + 1;
        }
        let mut digits: Vec<char> = Vec::new();
        let mut k: usize = start;
        while k < chars.len()
            invariant
                start <= k <= chars.len(),
                digits@ == chars@.subrange(start as int, k as int),
            decreases chars.len() - k,
        {
            digits.push(chars[k]);
            assert(chars@.subrange(start as int, k + 1) =~= chars@.subrange(
                start as int,
                k as int,
            ).push(chars@[k as int]));
            k = k + 1;
        }
        assert(digits@ =~= chars@.skip(start as int));
        assert(all_digits(digits@)) by {
            assert forall|j: int| 0 <= j < digits@.len() implies crate::text::is_digit(
                #[trigger] digits@[j],
            ) by {
                assert(digits@[j] == chars@[start + j]);
            }
        }
        Some(BigNat { digits })
    }

    /// The number `value`.
    pub fn from_u128(value: u128) -> (number: BigNat)
        ensures
            number@ == value,
            number.well_formed(),
    {
        proof {
            lemma_decimal_numeral(value as nat);
            lemma_decimal_value(value as nat);
        }
        let text = decimal_string(value);
        BigNat { digits: chars_of(text.as_str()) }
    }

    /// The number as 128 bits, or `None` where it does not fit.
    pub fn to_u128(&self) -> (value: Option<u128>)
        ensures
            self@ <= u128::MAX <==> value is Some,
            value matches Some(v) ==> v == self@,
    {
        proof {
            use_type_invariant(self);
            assert(self.digits@.skip(0) =~= self.digits@);
        }
        parse_digits(&self.digits, 0, u128::MAX)
    }

    /// The number as 64 bits, or `None` where it does not fit.
    pub fn to_u64(&self) -> (value: Option<u64>)
        ensures
            self@ <= u64::MAX <==> value is Some,
            value matches Some(v) ==> v == self@,
    {
        proof {
            use_type_invariant(self);
            assert(self.digits@.skip(0) =~= self.digits@);
        }
        match parse_digits(&self.digits, 0, u64::MAX as u128) {
            Some(v) => Some(v as u64),
            None => None,
        }
    }

    /// The decimal numeral of the number.
    pub fn to_decimal_string(&self) -> (text: String)
        ensures
            text@ == decimal(self@),
    {
        proof {
            use_type_invariant(self);
            lemma_numeral_decimal(self.digits@);
        }
        string_of(&self.digits)
    }

    /// The decimal numeral of the number with its digits in groups of three,
    /// as the interface language prints natural numbers.
    pub fn to_grouped_string(&self) -> (text: String)
        ensures
            text@ == grouped(decimal(self@)),
    {
        proof {
            use_type_invariant(self);
            lemma_numeral_decimal(self.digits@);
        }
        let plain = string_of(&self.digits);
        group_digits(plain.as_str())
    }
}

/// A zero in front of a string of digits does not change the number.
pub proof fn lemma_leading_zero(s: Seq<char>)
    requires
        s.len() > 0,
        s[0] == '0',
    ensures
        digits_value(s.skip(1)) == digits_value(s),
    decreases s.len(),
{
    if s.len() == 1 {
        assert(s.skip(1) =~= Seq::<char>::empty());
        assert(s.drop_last() =~= Seq::<char>::empty());
        assert(digits_value(s.drop_last()) == 0);
    } else {
        lemma_leading_zero(s.drop_last());
        assert(s.drop_last().skip(1) =~= s.skip(1).drop_last());
        assert(s.skip(1).last() == s.last());
    }
}

} // verus!
