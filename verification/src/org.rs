//! The option that gives the address at which the image is taken to be
//! loaded: `-o` followed by hexadecimal digits, anywhere in an argument.

use vstd::prelude::*;

verus! {

#[verifier::external_type_specification]
#[verifier::external_body]
pub struct ExRegexError(regex::Error);

/// Why an argument gives no load address although it holds the option.
#[derive(Clone, Copy, Debug, PartialEq, Eq, Structural)]
pub enum OrgError {
    /// The pattern of the option was refused as a regular expression.
    Pattern,
    /// What stands behind `-o` is not made of hexadecimal digits.
    Digits,
    /// The digits stand for a number beyond `usize`.
    Range,
}

/// The regular expression of the option. Its second group holds the digits.
pub open spec fn org_pattern() -> Seq<char> {
    "(-o)([0-9A-Fa-f]+)"@
}

/// The text of capture group `group` in the first match, by the rules of the
/// `regex` crate, of the regular expression `pattern` in `haystack`; `None`
/// where there is no match or the group takes no part in it.
pub uninterp spec fn regex_capture(pattern: Seq<char>, haystack: Seq<char>, group: nat) -> Option<
    Seq<char>,
>;

/// The content of a text that may be absent.
pub open spec fn text_of(found: Option<String>) -> Option<Seq<char>> {
    match found {
        Some(text) => Some(text@),
        None => None,
    }
}

/// Compiles `pattern` with `regex::Regex::new`, searches `haystack` with
/// `Regex::captures` and takes group `group` of the match with
/// `Captures::get`.
///
/// An `Err` is the error of `Regex::new`; nothing is claimed about the
/// patterns on which it comes. An `Ok` holds the text of the group in the
/// first match, or `None` where `captures` or `get` returned `None`. The
/// contract gives that result its name: it is a function of the pattern, the
/// haystack and the group number alone.
#[verifier::external_body]
fn first_capture(pattern: &str, haystack: &str, group: usize) -> (r: Result<
    Option<String>,
    regex::Error,
>)
    ensures
        r matches Ok(found) ==> text_of(found) == regex_capture(pattern@, haystack@, group as nat),
{
    let expression = regex::Regex::new(pattern)?;
    Ok(expression.captures(haystack).and_then(|caps| caps.get(group)).map(|m| m.as_str().to_string()))
}

/// The value of a hexadecimal digit, of either case.
pub open spec fn hex_digit_value(c: char) -> Option<int> {
    if '0' <= c <= '9' {
        Some(c as int - '0' as int)
    } else if 'A' <= c <= 'F' {
        Some(c as int - 'A' as int + 10)
    } else if 'a' <= c <= 'f' {
        Some(c as int - 'a' as int + 10)
    } else {
        None
    }
}

/// Whether every character is a hexadecimal digit.
pub open spec fn all_hex(digits: Seq<char>) -> bool {
    forall|i: int| 0 <= i < digits.len() ==> hex_digit_value(#[trigger] digits[i]) is Some
}

/// The number that hexadecimal digits stand for, the first digit being the
/// most significant.
pub open spec fn hex_value(digits: Seq<char>) -> int
    decreases digits.len(),
{
    if digits.len() == 0 {
        0
    } else {
        hex_value(digits.drop_last()) * 16 + hex_digit_value(digits.last())->0
    }
}

/// The load address that a text of digits gives.
pub open spec fn org_of_digits(digits: Seq<char>) -> Result<usize, OrgError> {
    if digits.len() == 0 || !all_hex(digits) {
        Err(OrgError::Digits)
    } else if hex_value(digits) > usize::MAX {
        Err(OrgError::Range)
    } else {
        Ok(hex_value(digits) as usize)
    }
}

/// The load address that an argument gives, `found` being the digits of the
/// option in it: none where the argument does not hold the option.
pub open spec fn org_of_capture(found: Option<Seq<char>>) -> Result<Option<usize>, OrgError> {
    match found {
        None => Ok(None),
        Some(digits) => match org_of_digits(digits) {
            Ok(address) => Ok(Some(address)),
            Err(e) => Err(e),
        },
    }
}

/// A number grows, or stays, with every hexadecimal digit put behind it.
proof fn lemma_hex_value_grows(digits: Seq<char>, n: int)
    requires
        all_hex(digits),
        0 <= n <= digits.len(),
    ensures
        0 <= hex_value(digits.take(n)) <= hex_value(digits),
    decreases digits.len(),
{
    if digits.len() == 0 {
        assert(digits.take(n) =~= digits);
    } else if n == digits.len() {
        assert(digits.take(n) =~= digits);
        lemma_hex_value_grows(digits.drop_last(), n - 1);
    } else {
        assert(digits.drop_last().take(n) =~= digits.take(n));
        lemma_hex_value_grows(digits.drop_last(), n);
    }
}

/// The value of the hexadecimal digit `c`, if it is one.
pub fn hex_digit(c: char) -> (v: Option<u8>)
    ensures
        match v {
            Some(d) => hex_digit_value(c) == Some(d as int),
            None => hex_digit_value(c) is None,
        },
{
    if '0' <= c && c <= '9' {
        Some((c as u32 - '0' as u32) as u8)
    } else if 'A' <= c && c <= 'F' {
        Some((c as u32 - 'A' as u32 + 10) as u8)
    } else if 'a' <= c && c <= 'f' {
        Some((c as u32 - 'a' as u32 + 10) as u8)
    } else {
        None
    }
}

/// Reads hexadecimal digits as a load address.
///
/// The result is the number that the digits stand for. A text that is empty
/// or holds another character gives `Digits`; digits that stand for a number
/// beyond `usize` give `Range`.
pub fn parse_hex(digits: &str) -> (r: Result<usize, OrgError>)
    ensures
        r == org_of_digits(digits@),
{
    let n: usize = digits.unicode_len();
    if n == 0 {
        return Err(OrgError::Digits);
    }
    let mut i: usize = 0;
    while i < n
        invariant
            n == digits@.len(),
            i <= n,
            all_hex(digits@.take(i as int)),
        decreases n - i,
    {
        if hex_digit(digits.get_char(i)).is_none() {
            return Err(OrgError::Digits);
        }
        assert forall|k: int| 0 <= k < i + 1 implies hex_digit_value(
            #[trigger] digits@.take(i + 1)[k],
        ) is Some by {
            if k < i {
                assert(digits@.take(i as int)[k] == digits@[k]);
            }
        }
        i += 1;
    }
    assert(digits@.take(n as int) =~= digits@);
    let mut value: usize = 0;
    let mut i: usize = 0;
    while i < n
        invariant
            n == digits@.len(),
            i <= n,
            all_hex(digits@),
            value == hex_value(digits@.take(i as int)),
        decreases n - i,
    {
        let digit: usize = match hex_digit(digits.get_char(i)) {
            Some(d) => d as usize,
            None => 0,
        };
        proof {
            assert(digits@.take(i + 1).drop_last() =~= digits@.take(i as int));
            assert(hex_value(digits@.take(i + 1)) == value * 16 + digit);
            lemma_hex_value_grows(digits@, i + 1);
        }
        let shifted: usize = match value.checked_mul(16) {
            Some(v) => v,
            None => {
                return Err(OrgError::Range);
            },
        };
        value = match shifted.checked_add(digit) {
            Some(v) => v,
            None => {
                return Err(OrgError::Range);
            },
        };
        i += 1;
    }
    assert(digits@.take(n as int) =~= digits@);
    Ok(value)
}

/// The load address that an argument gives, `found` being what the search
/// for the option in it found: the digits behind `-o`, or nothing.
pub fn org_from_capture(found: Option<String>) -> (r: Result<Option<usize>, OrgError>)
    ensures
        r == org_of_capture(text_of(found)),
{
    match found {
        None => Ok(None),
        Some(digits) => match parse_hex(digits.as_str()) {
            Ok(address) => Ok(Some(address)),
            Err(e) => Err(e),
        },
    }
}

/// Looks for the option in an argument and reads its load address.
///
/// The argument is searched for the first `-o` that hexadecimal digits
/// follow; the digits up to the first other character are the address. The
/// search is that of the `regex` crate, so the result is stated over
/// [`regex_capture`]: it is what [`org_from_capture`] makes of the second
/// group of the option's pattern in the argument. `Pattern` comes whenever
/// the crate refuses to compile the pattern, and only then.
pub fn org_option(argument: &str) -> (r: Result<Option<usize>, OrgError>)
    ensures
        r != Err::<Option<usize>, OrgError>(OrgError::Pattern) ==> r == org_of_capture(
            regex_capture(org_pattern(), argument@, 2),
        ),
{
    match first_capture("(-o)([0-9A-Fa-f]+)", argument, 2) {
        Ok(found) => org_from_capture(found),
        Err(_) => Err(OrgError::Pattern),
    }
}

} // verus!
