use vstd::prelude::*;

verus! {

/// An ASCII decimal digit.
pub open spec fn is_digit(c: char) -> bool {
    48 <= c as u32 && c as u32 <= 57
}

/// An ASCII upper-case letter.
pub open spec fn is_upper(c: char) -> bool {
    65 <= c as u32 && c as u32 <= 90
}

/// Syntactic validity of an IBAN: two upper-case country letters, two
/// check digits, and 11 to 30 further upper-case letters or digits.
/// A transfer whose `from` field fails this test is rejected outright.
pub open spec fn valid_iban(s: Seq<char>) -> bool {
    &&& 15 <= s.len() <= 34
    &&& is_upper(s[0])
    &&& is_upper(s[1])
    &&& is_digit(s[2])
    &&& is_digit(s[3])
    &&& forall|i: int| 4 <= i < s.len() ==> is_upper(#[trigger] s[i]) || is_digit(s[i])
}

/// The open-IBAN predicate: the syntactic test identifying IBANs managed
/// by this instance, which are expected to have a local balance row.
/// Managed accounts live under the Dutch `OPEB` bank code: `NL`, two
/// check digits, `OPEB`, and a ten-digit account number.
pub open spec fn valid_open_iban(s: Seq<char>) -> bool {
    &&& s.len() == 18
    &&& s[0] == 'N'
    &&& s[1] == 'L'
    &&& is_digit(s[2])
    &&& is_digit(s[3])
    &&& s[4] == 'O'
    &&& s[5] == 'P'
    &&& s[6] == 'E'
    &&& s[7] == 'B'
    &&& forall|i: int| 8 <= i < 18 ==> is_digit(#[trigger] s[i])
}

/// Every managed IBAN is in particular a syntactically valid IBAN.
pub proof fn lemma_open_iban_is_valid(s: Seq<char>)
    requires
        valid_open_iban(s),
    ensures
        valid_iban(s),
{
    assert(is_upper('N') && is_upper('L') && is_upper('O') && is_upper('P') && is_upper('E')
        && is_upper('B'));
    assert forall|i: int| 4 <= i < s.len() implies is_upper(#[trigger] s[i]) || is_digit(s[i]) by {
        if i >= 8 {
            assert(is_digit(s[i]));
        }
    }
}

/// Decides `valid_iban` on a string.
pub fn check_iban(s: &str) -> (r: bool)
    ensures
        r == valid_iban(s@),
{
    let n = s.unicode_len();
    if n < 15 || n > 34 {
        return false;
    }
    let c0 = s.get_char(0);
    let c1 = s.get_char(1);
    if !(65 <= c0 as u32 && c0 as u32 <= 90) || !(65 <= c1 as u32 && c1 as u32 <= 90) {
        return false;
    }
    let c2 = s.get_char(2);
    let c3 = s.get_char(3);
    if !(48 <= c2 as u32 && c2 as u32 <= 57) || !(48 <= c3 as u32 && c3 as u32 <= 57) {
        return false;
    }
    let mut i: usize = 4;
    while i < n
        invariant
            4 <= i <= n,
            n == s@.len(),
            forall|j: int| 4 <= j < i ==> is_upper(#[trigger] s@[j]) || is_digit(s@[j]),
        decreases n - i,
    {
        let c = s.get_char(i);
        let u = c as u32;
        if !((65 <= u && u <= 90) || (48 <= u && u <= 57)) {
            return false;
        }
        i += 1;
    }
    true
}

/// Decides `valid_open_iban` on a string.
pub fn check_open_iban(s: &str) -> (r: bool)
    ensures
        r == valid_open_iban(s@),
{
    let n = s.unicode_len();
    if n != 18 {
        return false;
    }
    if s.get_char(0) != 'N' || s.get_char(1) != 'L' {
        return false;
    }
    let c2 = s.get_char(2);
    let c3 = s.get_char(3);
    if !(48 <= c2 as u32 && c2 as u32 <= 57) || !(48 <= c3 as u32 && c3 as u32 <= 57) {
        return false;
    }
    if s.get_char(4) != 'O' || s.get_char(5) != 'P' || s.get_char(6) != 'E' || s.get_char(7)
        != 'B' {
        return false;
    }
    let mut i: usize = 8;
    while i < 18
        invariant
            8 <= i <= 18,
            n == s@.len(),
            n == 18,
            forall|j: int| 8 <= j < i ==> is_digit(#[trigger] s@[j]),
        decreases 18 - i,
    {
        let c = s.get_char(i);
        if !(48 <= c as u32 && c as u32 <= 57) {
            return false;
        }
        i += 1;
    }
    true
}

} // verus!
