use vstd::prelude::*;

verus! {

/// A character the account-naming grammar separates name parts with.
pub open spec fn is_separator_char(c: char) -> bool {
    c == '-' || c == '_' || c == '.'
}

/// A character the account-naming grammar accepts at all.
pub open spec fn account_char_ok(c: char) -> bool {
    ('a' <= c && c <= 'z') || ('0' <= c && c <= '9') || is_separator_char(c)
}

/// The network's account-naming grammar: 2 to 64 characters, each a lower-case
/// letter, a digit, or one of `-`, `_`, `.`, where no separator starts or ends
/// the name and no two separators are adjacent.
pub open spec fn is_valid_account_id(s: Seq<char>) -> bool {
    &&& 2 <= s.len() <= 64
    &&& forall|i: int| 0 <= i < s.len() ==> account_char_ok(#[trigger] s[i])
    &&& !is_separator_char(s[0])
    &&& !is_separator_char(s[s.len() - 1])
    &&& forall|i: int|
        0 < i < s.len() ==> !(is_separator_char(s[i - 1]) && is_separator_char(#[trigger] s[i]))
}

/// Relies on near_primitives::types::AccountId::validate, which accepts a
/// string exactly when it is 2 to 64 bytes of `a-z`, `0-9`, `-`, `_`, `.`
/// with no separator first, last, or next to another separator. A string
/// holding any other character is rejected outright, so byte length and
/// character length agree on every accepted string.
#[verifier::external_body]
pub(crate) fn account_id_is_valid(s: &str) -> (r: bool)
    ensures
        r == is_valid_account_id(s@),
{
    near_primitives::types::AccountId::validate(s).is_ok()
}

} // verus!
