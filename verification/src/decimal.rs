//! Unsigned decimal numbers as they appear in the value of a query parameter.

use vstd::prelude::*;

verus! {

pub open spec fn is_digit(c: char) -> bool {
    48 <= c as u32 <= 57
}

pub open spec fn digit_value(c: char) -> nat
    recommends
        is_digit(c),
{
    (c as u32 - 48) as nat
}

pub open spec fn all_digits(s: Seq<char>) -> bool {
    forall|i: int| 0 <= i < s.len() ==> is_digit(#[trigger] s[i])
}

/// The number that a sequence of decimal digits denotes, most significant
/// digit first. The empty sequence denotes zero.
pub open spec fn digits_value(s: Seq<char>) -> nat
    decreases s.len(),
{
    if s.len() == 0 {
        0
    } else {
        digits_value(s.drop_last()) * 10 + digit_value(s.last())
    }
}

/// What is left of `s` once one leading `+` is taken away.
pub open spec fn unsigned_body(s: Seq<char>) -> Seq<char> {
    if s.len() > 0 && s[0] == '+' {
        s.skip(1)
    } else {
        s
    }
}

/// The value of `s` read as a `u64`: an optional `+`, then one or more
/// decimal digits and nothing else, denoting a number that fits.
pub open spec fn spec_parse_u64(s: Seq<char>) -> Option<u64> {
    let body = unsigned_body(s);
    if body.len() > 0 && all_digits(body) && digits_value(body) <= u64::MAX {
        Some(digits_value(body) as u64)
    } else {
        None
    }
}

/// A number never gets smaller when more digits follow.
pub proof fn lemma_prefix_value(s: Seq<char>, k: int)
    requires
        0 <= k <= s.len(),
    ensures
        digits_value(s.take(k)) <= digits_value(s),
    decreases s.len() - k,
{
    if k == s.len() {
        assert(s.take(k) =~= s);
    } else {
        lemma_prefix_value(s, k + 1);
        assert(s.take(k + 1).drop_last() =~= s.take(k));
    }
}

pub fn parse_u64(text: &str) -> (value: Option<u64>)
    ensures
        value == spec_parse_u64(text@),
{
    let ghost body = unsigned_body(text@);
    let ghost lead: int = text@.len() - body.len();
    let ghost mut digits: int = 0;
    let mut acc: u64 = 0;
    let mut first = true;
    let mut seen = false;
    for c in it: text.chars()
        invariant
            it.seq() == text@,
            body == unsigned_body(text@),
            lead == text@.len() - body.len(),
            first <==> it.index() == 0,
            seen <==> digits > 0,
            it.index() == 0 ==> digits == 0,
            it.index() > 0 ==> digits == it.index() - lead,
            0 <= digits <= body.len(),
            all_digits(body.take(digits)),
            acc == digits_value(body.take(digits)),
    {
        if first && c == '+' {
            first = false;
        } else {
            first = false;
            let code = c as u32;
            if code < 48 || code > 57 {
                assert(!is_digit(body[digits]));
                return None;
            }
            let d = (code - 48) as u64;
            proof {
                assert(body.take(digits + 1).drop_last() =~= body.take(digits));
                assert(body.take(digits + 1).last() == c);
                lemma_prefix_value(body, digits + 1);
            }
            if acc > (u64::MAX - d) / 10 {
                return None;
            }
            acc = acc * 10 + d;
            seen = true;
            proof {
                digits = digits + 1;
            }
        }
    }
    assert(body.take(digits) =~= body);
    if seen {
        Some(acc)
    } else {
        None
    }
}

} // verus!
