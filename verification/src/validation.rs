//! Input validation helpers: account holder names, amounts, and a verified
//! string comparison used by the lookup and parsing code.

use vstd::prelude::*;

verus! {

/// Character-for-character string equality, proved against the string views.
pub fn str_eq(a: &str, b: &str) -> (r: bool)
    ensures
        r == (a@ == b@),
{
    let a_len = a.unicode_len();
    let b_len = b.unicode_len();
    if a_len != b_len {
        proof {
            assert(a@ != b@) by {
                assert(a@.len() != b@.len());
            }
        }
        return false;
    }
    let mut i: usize = 0;
    while i < a_len
        invariant
            i <= a_len,
            a_len == a@.len(),
            a_len == b@.len(),
            forall|j: int| 0 <= j < i ==> a@[j] == b@[j],
        decreases a_len - i,
    {
        if a.get_char(i) != b.get_char(i) {
            proof {
                assert(a@[i as int] != b@[i as int]);
            }
            return false;
        }
        i += 1;
    }
    proof {
        assert(a@ =~= b@);
    }
    true
}

/// A letter of the Latin alphabet, either case.
pub open spec fn spec_is_alpha(c: char) -> bool {
    ('a' <= c && c <= 'z') || ('A' <= c && c <= 'Z')
}

/// A holder name is at least two characters, starts and ends with a letter,
/// and is made of letters, spaces and hyphens.
pub open spec fn valid_account_name(s: Seq<char>) -> bool {
    &&& s.len() >= 2
    &&& spec_is_alpha(s[0])
    &&& spec_is_alpha(s[s.len() - 1])
    &&& forall|j: int| 0 <= j < s.len() ==> spec_is_alpha(#[trigger] s[j]) || s[j] == ' ' || s[j]
        == '-'
}

fn is_alpha(c: char) -> (r: bool)
    ensures
        r == spec_is_alpha(c),
{
    ('a' <= c && c <= 'z') || ('A' <= c && c <= 'Z')
}

/// Decides whether a holder name is acceptable: non-empty (at least two
/// characters), alphabetic with interior spaces or hyphens, and starting and
/// ending with a letter.
pub fn validate_account_name(name: &str) -> (r: bool)
    ensures
        r == valid_account_name(name@),
{
    let len = name.unicode_len();
    if len < 2 {
        return false;
    }
    if !is_alpha(name.get_char(0)) {
        return false;
    }
    if !is_alpha(name.get_char(len - 1)) {
        return false;
    }
    let mut i: usize = 0;
    while i < len
        invariant
            i <= len,
            len == name@.len(),
            forall|j: int|
                0 <= j < i ==> spec_is_alpha(#[trigger] name@[j]) || name@[j] == ' ' || name@[j]
                    == '-',
        decreases len - i,
    {
        let c = name.get_char(i);
        if !(is_alpha(c) || c == ' ' || c == '-') {
            return false;
        }
        i += 1;
    }
    true
}

/// Decides whether an amount may enter the transfer engine: only strictly
/// positive amounts are accepted.
pub fn validate_amount(amount: u64) -> (r: bool)
    ensures
        r == (amount > 0),
{
    amount > 0
}

} // verus!
