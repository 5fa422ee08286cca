//! What the pipeline has to know of strings before it hands them to the backend.
use vstd::prelude::*;

verus! {

/// Whether `s` holds the character NUL. The backend takes its strings terminated by
/// a NUL, so one that holds a NUL cannot be handed to it.
pub open spec fn spec_has_nul(s: Seq<char>) -> bool {
    s.contains('\0')
}

/// Whether `s` holds the character NUL.
pub fn has_nul(s: &str) -> (found: bool)
    ensures
        found == spec_has_nul(s@),
{
    let mut found = false;
    for c in it: s.chars()
        invariant
            it.seq() == s@,
            found == (exists|j: int| 0 <= j < it.index() && s@[j] == '\0'),
    {
        if c == '\0' {
            found = true;
        }
    }
    found
}

/// Whether `c` is one of the ten decimal digits.
pub open spec fn is_digit(c: char) -> bool {
    '0' <= c && c <= '9'
}

/// Whether `s` is made of decimal digits alone.
pub open spec fn is_digits(s: Seq<char>) -> bool {
    forall|i: int| 0 <= i < s.len() ==> is_digit(#[trigger] s[i])
}

/// The number that the decimal digits `s` write, the empty sequence writing 0.
pub open spec fn digits_value(s: Seq<char>) -> nat
    decreases s.len(),
{
    if s.len() == 0 {
        0
    } else {
        digits_value(s.drop_last()) * 10 + (s.last() as u32 - '0' as u32) as nat
    }
}

/// The digits of a number as it is written: `s` without the `+` that may lead it.
pub open spec fn unsigned_part(s: Seq<char>) -> Seq<char> {
    if s.len() > 0 && s[0] == '+' {
        s.subrange(1, s.len() as int)
    } else {
        s
    }
}

/// The number that `s` writes in decimal, as the standard library reads a `u64`:
/// an optional `+`, then at least one digit and nothing else, and a value that
/// fits in 64 bits. No other text writes a number.
pub open spec fn spec_parse_decimal(s: Seq<char>) -> Option<u64> {
    let digits = unsigned_part(s);
    if digits.len() > 0 && is_digits(digits) && digits_value(digits) <= u64::MAX {
        Some(digits_value(digits) as u64)
    } else {
        None
    }
}

/// A run of digits writes no less than any run that it starts with.
pub proof fn lemma_digits_value_grows(s: Seq<char>, k: int)
    requires
        is_digits(s),
        0 <= k <= s.len(),
    ensures
        digits_value(s.take(k)) <= digits_value(s),
    decreases s.len(),
{
    if k == s.len() {
        assert(s.take(k) == s);
    } else {
        assert(s.drop_last().take(k) == s.take(k));
        assert(is_digit(s.last()));
        lemma_digits_value_grows(s.drop_last(), k);
    }
}

/// Reads `s` as a decimal number.
pub fn parse_decimal(s: &str) -> (value: Option<u64>)
    ensures
        value == spec_parse_decimal(s@),
{
    let mut signed = false;
    let mut seen = false;
    let mut valid = true;
    let mut acc: u64 = 0;
    for c in it: s.chars()
        invariant
            it.seq() == s@,
            signed == (it.index() > 0 && s@[0] == '+'),
            seen == (it.index() > (if signed { 1int } else { 0int })),
            valid ==> is_digits(s@.subrange(if signed { 1int } else { 0int }, it.index() as int)),
            valid ==> acc == digits_value(
                s@.subrange(if signed { 1int } else { 0int }, it.index() as int),
            ),
            !valid ==> spec_parse_decimal(s@) is None,
    {
        let ghost n = it.index() as int;
        let ghost from = if signed { 1int } else { 0int };
        let ghost digits = unsigned_part(s@);
        if !signed && !seen && c == '+' {
            signed = true;
        } else if valid {
            proof {
                assert(digits == s@.subrange(from, s@.len() as int));
                assert(digits[n - from] == c);
                assert(digits.take(n - from) == s@.subrange(from, n));
                assert(digits.take(n + 1 - from) == s@.subrange(from, n + 1));
                assert(s@.subrange(from, n + 1).drop_last() == s@.subrange(from, n));
                assert(s@.subrange(from, n + 1).last() == c);
            }
            if c < '0' || c > '9' {
                valid = false;
            } else {
                let d: u64 = (c as u32 - '0' as u32) as u64;
                if acc > (u64::MAX - d) / 10 {
                    proof {
                        if is_digits(digits) {
                            lemma_digits_value_grows(digits, n + 1 - from);
                        }
                    }
                    valid = false;
                } else {
                    acc = acc * 10 + d;
                }
            }
            seen = true;
        } else {
            seen = true;
        }
    }
    proof {
        assert(unsigned_part(s@) == s@.subrange(
            if signed { 1int } else { 0int },
            s@.len() as int,
        ));
    }
    if valid && seen {
        Some(acc)
    } else {
        None
    }
}

/// `s` as the standard library's `Debug` prints a string: between double quotes,
/// with a backslash escape for each character that would not read as itself.
pub uninterp spec fn quoted(s: Seq<char>) -> Seq<char>;

/// Formats `s` with `{:?}`, the standard library's `Debug` for `str`. Trusted: the
/// result is a function of the characters of `s` alone, known here only by the
/// name [`quoted`].
#[verifier::external_body]
pub(crate) fn quote(s: &str) -> (q: String)
    ensures
        q@ == quoted(s@),
{
    format!("{:?}", s)
}

} // verus!
