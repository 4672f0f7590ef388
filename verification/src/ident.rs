//! Identifier validation.
//!
//! A database or table name must satisfy, in this order: it is non-empty;
//! it is at most 64 characters long; every character is ASCII alphanumeric,
//! underscore, or hyphen; and the first character is not a digit. The first
//! failing rule determines the reason reported. Validation is pure: no
//! network access, no side effects.

use vstd::prelude::*;
use vstd::string::StrSliceExecFns;
use vstd::string::StringExecFns;

use crate::errors::ClickHouseError;
use crate::errors::ErrorModel;

verus! {

/// Whether `c` may appear in an identifier: ASCII alphanumeric, `_` or `-`.
pub open spec fn is_ident_char(c: char) -> bool {
    ||| ('a' as u32) <= (c as u32) <= ('z' as u32)
    ||| ('A' as u32) <= (c as u32) <= ('Z' as u32)
    ||| ('0' as u32) <= (c as u32) <= ('9' as u32)
    ||| c == '_'
    ||| c == '-'
}

/// Whether `c` is an ASCII digit.
pub open spec fn is_digit_char(c: char) -> bool {
    ('0' as u32) <= (c as u32) <= ('9' as u32)
}

/// A valid identifier: 1 to 64 characters, all from the identifier
/// alphabet, not starting with a digit.
pub open spec fn ident_ok(s: Seq<char>) -> bool {
    &&& 1 <= s.len() <= 64
    &&& forall|i: int| 0 <= i < s.len() ==> is_ident_char(#[trigger] s[i])
    &&& !is_digit_char(s[0])
}

pub open spec fn reason_empty() -> Seq<char> {
    "Identifier cannot be empty"@
}

pub open spec fn reason_too_long() -> Seq<char> {
    "Identifier cannot be longer than 64 characters"@
}

pub open spec fn reason_bad_char() -> Seq<char> {
    "Identifier can only contain alphanumeric characters, underscore, and hyphen"@
}

pub open spec fn reason_leading_digit() -> Seq<char> {
    "Identifier cannot start with a digit"@
}

/// The reason reported for an invalid identifier: that of the first rule
/// it breaks, the rules checked in order.
pub open spec fn ident_error_reason(s: Seq<char>) -> Seq<char> {
    if s.len() == 0 {
        reason_empty()
    } else if s.len() > 64 {
        reason_too_long()
    } else if exists|i: int| 0 <= i < s.len() && !is_ident_char(#[trigger] s[i]) {
        reason_bad_char()
    } else {
        reason_leading_digit()
    }
}

/// Validates a user-supplied database or table name before it is ever
/// interpolated into a query. Succeeds exactly on valid identifiers;
/// otherwise reports the identifier and the first violated rule.
pub fn validate_identifier(identifier: &str) -> (r: Result<(), ClickHouseError>)
    ensures
        r is Ok <==> ident_ok(identifier@),
        r matches Err(e) ==> e@ == (ErrorModel::InvalidIdentifier {
            identifier: identifier@,
            reason: ident_error_reason(identifier@),
        }),
{
    let n = identifier.unicode_len();
    if n == 0 {
        return Err(ClickHouseError::InvalidIdentifier {
            identifier: String::from_str(identifier),
            reason: String::from_str("Identifier cannot be empty"),
        });
    }
    if n > 64 {
        return Err(ClickHouseError::InvalidIdentifier {
            identifier: String::from_str(identifier),
            reason: String::from_str("Identifier cannot be longer than 64 characters"),
        });
    }
    let mut i: usize = 0;
    while i < n
        invariant
            n == identifier@.len(),
            1 <= n <= 64,
            0 <= i <= n,
            forall|j: int| 0 <= j < i ==> is_ident_char(#[trigger] identifier@[j]),
        decreases n - i,
    {
        let c = identifier.get_char(i);
        let u = c as u32;
        let ok = (('a' as u32) <= u && u <= ('z' as u32)) || (('A' as u32) <= u && u <= ('Z'
            as u32)) || (('0' as u32) <= u && u <= ('9' as u32)) || c == '_' || c == '-';
        if !ok {
            assert(!is_ident_char(identifier@[i as int]));
            assert(ident_error_reason(identifier@) == reason_bad_char());
            let err = ClickHouseError::InvalidIdentifier {
                identifier: String::from_str(identifier),
                reason: String::from_str(
                    "Identifier can only contain alphanumeric characters, underscore, and hyphen",
                ),
            };
            assert(err@ == (ErrorModel::InvalidIdentifier {
                identifier: identifier@,
                reason: reason_bad_char(),
            }));
            return Err(err);
        }
        i = i + 1;
    }
    let first = identifier.get_char(0);
    let u0 = first as u32;
    if ('0' as u32) <= u0 && u0 <= ('9' as u32) {
        return Err(ClickHouseError::InvalidIdentifier {
            identifier: String::from_str(identifier),
            reason: String::from_str("Identifier cannot start with a digit"),
        });
    }
    Ok(())
}

} // verus!
