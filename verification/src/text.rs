//! Text building blocks: decimal numerals, digit parsing and the few string
//! primitives that the rest of the library composes its messages from.

use vstd::prelude::*;

verus! {

/// Appends one character to a string: `String::push`.
#[verifier::external_body]
pub(crate) fn push_char(s: &mut String, c: char)
    ensures
        final(s)@ == old(s)@.push(c),
{
    s.push(c)
}

/// What `Debug` prints for a string slice: the text in double quotes, with
/// quotes, backslashes and control characters escaped.
pub uninterp spec fn debug_quoted(s: Seq<char>) -> Seq<char>;

/// The `Debug` rendering of a string slice, as `format!("{:?}", s)` gives it.
#[verifier::external_body]
pub(crate) fn quote_debug(s: &str) -> (r: String)
    ensures
        r@ == debug_quoted(s@),
{
    format!("{:?}", s)
}

/// Whether `c` is one of the ten ASCII decimal digits.
pub open spec fn is_digit(c: char) -> bool {
    '0' as u32 <= c as u32 <= '9' as u32
}

/// The number that an ASCII decimal digit stands for.
pub open spec fn digit_value(c: char) -> nat {
    (c as u32 - '0' as u32) as nat
}

/// The ASCII decimal digit for a number below ten.
pub open spec fn digit_char(d: nat) -> char {
    (d + '0' as u32) as char
}

/// Whether every character of `s` is a decimal digit.
pub open spec fn all_digits(s: Seq<char>) -> bool {
    forall|i: int| 0 <= i < s.len() ==> is_digit(#[trigger] s[i])
}

/// The number that a string of decimal digits denotes, most significant
/// digit first. The empty string denotes zero.
pub open spec fn digits_value(s: Seq<char>) -> nat
    decreases s.len(),
{
    if s.len() == 0 {
        0
    } else {
        digits_value(s.drop_last()) * 10 + digit_value(s.last())
    }
}

/// The decimal numeral of `n`, without sign, padding or separators.
pub open spec fn decimal(n: nat) -> Seq<char>
    decreases n,
{
    if n < 10 {
        seq![digit_char(n)]
    } else {
        decimal(n / 10).push(digit_char(n % 10))
    }
}

/// What an integer parser accepts of `s`: an optional leading `+`, then at
/// least one decimal digit, denoting a number no greater than `limit`.
pub open spec fn parse_unsigned(s: Seq<char>, limit: nat) -> Option<nat> {
    let digits = if s.len() > 0 && s[0] == '+' {
        s.skip(1)
    } else {
        s
    };
    if digits.len() > 0 && all_digits(digits) && digits_value(digits) <= limit {
        Some(digits_value(digits))
    } else {
        None
    }
}

/// The digit for a number below ten.
pub fn digit_of(d: u8) -> (c: char)
    requires
        d < 10,
    ensures
        c == digit_char(d as nat),
        is_digit(c),
        digit_value(c) == d,
{
    (d + 48u8) as char
}

/// A numeral is never empty and holds digits only.
pub proof fn lemma_decimal_digits(n: nat)
    ensures
        decimal(n).len() > 0,
        all_digits(decimal(n)),
    decreases n,
{
    if n >= 10 {
        lemma_decimal_digits(n / 10);
    }
}

/// Reading a numeral back gives the number it was written for.
pub proof fn lemma_decimal_value(n: nat)
    ensures
        digits_value(decimal(n)) == n,
    decreases n,
{
    if n < 10 {
        let s = decimal(n);
        assert(s.drop_last() =~= Seq::<char>::empty());
        assert(digits_value(s.drop_last()) == 0);
    } else {
        lemma_decimal_value(n / 10);
        let s = decimal(n);
        assert(s.drop_last() =~= decimal(n / 10));
    }
}

/// A numeral is accepted by the parser whenever its number is within the
/// limit.
pub proof fn lemma_parse_decimal(n: nat, limit: nat)
    ensures
        parse_unsigned(decimal(n), limit) == if n <= limit {
            Some(n)
        } else {
            None::<nat>
        },
{
    lemma_decimal_digits(n);
    lemma_decimal_value(n);
    assert(is_digit(decimal(n)[0]));
}

/// Whether `s` is a numeral as `decimal` writes it: digits only, at least
/// one, and no leading zero but for zero itself.
pub open spec fn is_numeral(s: Seq<char>) -> bool {
    &&& s.len() > 0
    &&& all_digits(s)
    &&& (s.len() == 1 || s[0] != '0')
}

/// A digit stands for the number whose digit it is.
pub proof fn lemma_digit_round_trip(c: char)
    requires
        is_digit(c),
    ensures
        digit_value(c) < 10,
        digit_char(digit_value(c)) == c,
{
    let code = c as u32;
    assert(digit_value(c) + '0' as u32 == code);
    assert(code as char == c);
}

/// What `decimal` writes is a numeral.
pub proof fn lemma_decimal_numeral(n: nat)
    ensures
        is_numeral(decimal(n)),
        n >= 10 ==> decimal(n).len() > 1,
    decreases n,
{
    lemma_decimal_digits(n);
    if n >= 10 {
        lemma_decimal_numeral(n / 10);
        let head = decimal(n / 10);
        assert(decimal(n)[0] == head[0]);
        if n / 10 < 10 {
            assert(head[0] == digit_char(n / 10));
            assert(digit_char(n / 10) != '0');
        }
    }
}

/// A numeral of more than one digit denotes at least ten, and any numeral
/// is what `decimal` writes for the number it denotes.
pub proof fn lemma_numeral_decimal(s: Seq<char>)
    requires
        is_numeral(s),
    ensures
        decimal(digits_value(s)) == s,
        s.len() > 1 ==> digits_value(s) >= 10,
        s[0] != '0' ==> digits_value(s) >= 1,
    decreases s.len(),
{
    let head = s.drop_last();
    assert(is_digit(s.last()));
    lemma_digit_round_trip(s.last());
    if s.len() == 1 {
        assert(head =~= Seq::<char>::empty());
        assert(digits_value(head) == 0);
        assert(digits_value(s) == digit_value(s[0]));
        assert(decimal(digits_value(s)) =~= s);
    } else {
        assert(head[0] == s[0]);
        assert(all_digits(head)) by {
            assert forall|i: int| 0 <= i < head.len() implies is_digit(#[trigger] head[i]) by {
                assert(head[i] == s[i]);
            }
        }
        lemma_numeral_decimal(head);
        assert(digits_value(head) >= 1);
        let n = digits_value(s);
        assert(n == digits_value(head) * 10 + digit_value(s.last()));
        assert(n / 10 == digits_value(head) && n % 10 == digit_value(s.last()));
        assert(decimal(n) == decimal(n / 10).push(digit_char(n % 10)));
        assert(decimal(n) =~= s);
    }
}

/// The number denoted by a prefix never exceeds the number denoted by the
/// whole string.
pub proof fn lemma_prefix_value(s: Seq<char>, k: int)
    requires
        0 <= k <= s.len(),
    ensures
        digits_value(s.take(k)) <= digits_value(s),
    decreases s.len() - k,
{
    if k == s.len() {
        assert(s.take(k) =~= s);
    } else {
        lemma_prefix_value(s, k + 1);
        assert(s.take(k + 1).drop_last() =~= s.take(k));
        assert(digits_value(s.take(k + 1)) >= digits_value(s.take(k)) * 10) by {
            assert(s.take(k + 1).len() > 0);
        }
    }
}

/// The characters of a string.
pub fn chars_of(s: &str) -> (v: Vec<char>)
    ensures
        v@ == s@,
{
    let mut v: Vec<char> = Vec::new();
    let it = s.chars();
    for c in iter: it
        invariant
            v@ == iter.seq().take(iter.index() as int),
    {
        v.push(c);
    }
    v
}

/// The string made of the given characters.
pub fn string_of(chars: &Vec<char>) -> (s: String)
    ensures
        s@ == chars@,
{
    let mut s = String::new();
    let mut i: usize = 0;
    while i < chars.len()
        invariant
            i <= chars.len(),
            s@ == chars@.take(i as int),
        decreases chars.len() - i,
    {
        push_char(&mut s, chars[i]);
        assert(chars@.take(i + 1) =~= chars@.take(i as int).push(chars@[i as int]));
        i = i + 1;
    }
    assert(chars@.take(chars.len() as int) =~= chars@);
    s
}

/// Writes `n` as a decimal numeral.
pub fn decimal_string(n: u128) -> (s: String)
    ensures
        s@ == decimal(n as nat),
{
    let mut rev: Vec<char> = Vec::new();
    let mut cur: u128 = n / 10;
    rev.push(digit_of((n % 10) as u8));
    assert(rev@.reverse() =~= seq![digit_char((n % 10) as nat)]);
    while cur > 0
        invariant
            decimal(n as nat) =~= (if cur == 0 {
                Seq::<char>::empty()
            } else {
                decimal(cur as nat)
            }) + rev@.reverse(),
        decreases cur,
    {
        let ghost before = rev@;
        rev.push(digit_of((cur % 10) as u8));
        assert(rev@.reverse() =~= seq![digit_char((cur % 10) as nat)] + before.reverse());
        cur = cur / 10;
    }
    let mut s = String::new();
    let mut k: usize = rev.len();
    while k > 0
        invariant
            k <= rev.len(),
            s@ == rev@.reverse().take(rev.len() - k),
        decreases k,
    {
        k = k - 1;
        push_char(&mut s, rev[k]);
        assert(rev@.reverse().take(rev.len() - k) =~= rev@.reverse().take(rev.len() - k - 1).push(
            rev@[k as int],
        ));
    }
    assert(rev@.reverse().take(rev.len() as int) =~= rev@.reverse());
    s
}

/// Reads the digits `chars[from..]` as a number no greater than `limit`.
pub fn parse_digits(chars: &Vec<char>, from: usize, limit: u128) -> (r: Option<u128>)
    requires
        from <= chars.len(),
    ensures
        r matches Some(v) ==> v <= limit,
        ({
            let digits = chars@.skip(from as int);
            if digits.len() > 0 && all_digits(digits) && digits_value(digits) <= limit {
                r == Some(digits_value(digits) as u128)
            } else {
                r is None
            }
        }),
{
    let ghost digits = chars@.skip(from as int);
    if from == chars.len() {
        return None;
    }
    let mut acc: u128 = 0;
    let mut i: usize = from;
    assert(digits.take(0) =~= Seq::<char>::empty());
    while i < chars.len()
        invariant
            from <= i <= chars.len(),
            digits == chars@.skip(from as int),
            all_digits(digits.take(i - from)),
            acc == digits_value(digits.take(i - from)),
            acc <= limit,
        decreases chars.len() - i,
    {
        let c = chars[i];
        let ghost next = digits.take(i - from + 1);
        proof {
            assert(next.drop_last() =~= digits.take(i - from));
            assert(next.last() == c);
            lemma_prefix_value(digits, i - from + 1);
        }
        let code: u32 = c as u32;
        if code < 48 || code > 57 {
            assert(digits[i - from] == c);
            return None;
        }
        let d: u128 = (code - 48) as u128;
        assert(d == digit_value(c));
        let scaled = match acc.checked_mul(10) {
            Some(v) => v,
            None => {
                return None;
            },
        };
        let sum = match scaled.checked_add(d) {
            Some(v) => v,
            None => {
                return None;
            },
        };
        if sum > limit {
            return None;
        }
        assert(all_digits(next)) by {
            assert forall|j: int| 0 <= j < next.len() implies is_digit(#[trigger] next[j]) by {
                if j < i - from {
                    assert(next[j] == digits.take(i - from)[j]);
                }
            }
        }
        acc = sum;
        i = i + 1;
    }
    assert(digits.take(i - from) =~= digits);
    Some(acc)
}

/// Reads `chars[from..]` as an integer parser does: an optional `+`, then
/// digits, the number being no greater than `limit`.
pub fn parse_unsigned_chars(chars: &Vec<char>, from: usize, limit: u128) -> (r: Option<u128>)
    requires
        from <= chars.len(),
    ensures
        r matches Some(v) ==> v <= limit,
        match parse_unsigned(chars@.skip(from as int), limit as nat) {
            Some(v) => r == Some(v as u128),
            None => r is None,
        },
{
    if from < chars.len() && chars[from] == '+' {
        assert(chars@.skip(from as int).skip(1) =~= chars@.skip(from + 1));
        parse_digits(chars, from + 1, limit)
    } else {
        parse_digits(chars, from, limit)
    }
}

} // verus!
