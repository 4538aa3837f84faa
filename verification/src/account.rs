//! Validation of account identities.
//!
//! An identity is a lowercase dotted name: 2 to 64 characters, each a
//! lowercase ASCII letter, a digit, or one of the separators `-`, `_`
//! and `.`, where no separator starts or ends the name and no two
//! separators are adjacent.

use vstd::prelude::*;

verus! {

/// Whether `c` is one of the separator characters of an account name.
pub open spec fn spec_is_separator(c: char) -> bool {
    c == '-' || c == '_' || c == '.'
}

/// Whether `c` may appear in an account name at all.
pub open spec fn spec_is_account_char(c: char) -> bool {
    ('a' <= c && c <= 'z') || ('0' <= c && c <= '9') || spec_is_separator(c)
}

/// The well-formedness rule for account identities.
pub open spec fn spec_valid_account(s: Seq<char>) -> bool {
    &&& 2 <= s.len() <= 64
    &&& forall|i: int| 0 <= i < s.len() ==> spec_is_account_char(#[trigger] s[i])
    &&& !spec_is_separator(s[0])
    &&& !spec_is_separator(s[s.len() - 1])
    &&& forall|i: int|
        0 < i < s.len() ==> !(spec_is_separator(#[trigger] s[i]) && spec_is_separator(s[i - 1]))
}

/// Decides whether `account_id` is a well-formed account identity.
pub fn is_valid_account_id(account_id: &str) -> (r: bool)
    ensures
        r == spec_valid_account(account_id@),
{
    let n = account_id.unicode_len();
    if n < 2 || n > 64 {
        return false;
    }
    let mut last_char_is_separator = true;
    let mut i: usize = 0;
    while i < n
        invariant
            n == account_id@.len(),
            2 <= n <= 64,
            i <= n,
            forall|j: int| 0 <= j < i ==> spec_is_account_char(#[trigger] account_id@[j]),
            forall|j: int|
                0 < j < i ==> !(spec_is_separator(#[trigger] account_id@[j]) && spec_is_separator(
                    account_id@[j - 1],
                )),
            last_char_is_separator == if i == 0 {
                true
            } else {
                spec_is_separator(account_id@[i - 1])
            },
            i > 0 ==> !spec_is_separator(account_id@[0]),
        decreases n - i,
    {
        let c = account_id.get_char(i);
        let is_letter = 'a' <= c && c <= 'z';
        let is_digit = '0' <= c && c <= '9';
        let is_separator = c == '-' || c == '_' || c == '.';
        if !is_letter && !is_digit && !is_separator {
            return false;
        }
        if is_separator && last_char_is_separator {
            return false;
        }
        last_char_is_separator = is_separator;
        i = i + 1;
    }
    !last_char_is_separator
}

} // verus!
