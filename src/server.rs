//! What the HTTP login check answers.
use vstd::prelude::*;

use crate::authorizations::Authorization;

verus! {

/// The HTTP status that grants a login.
pub const STATUS_OK: u16 = 200;

/// The HTTP status that refuses a login.
pub const STATUS_UNAUTHORIZED: u16 = 401;

/// The status of a login check, from the decision it ended with.
///
/// `None` stands for a check that reached no decision: the account is
/// unknown, or the wait ended without one. Only an explicit
/// [`Authorization::Allow`] lets the login through.
pub fn login_status(decision: Option<Authorization>) -> (r: u16)
    ensures
        r == (if decision == Some(Authorization::Allow) {
            STATUS_OK
        } else {
            STATUS_UNAUTHORIZED
        }),
{
    match decision {
        Some(Authorization::Allow) => STATUS_OK,
        _ => STATUS_UNAUTHORIZED,
    }
}

} // verus!
