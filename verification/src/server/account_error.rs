use vstd::prelude::*;
use vstd::string::StringExecFns;

use crate::persistence::crud_error::{crud_error_text, CRUDError};

verus! {

/// Why an account or session operation failed.
#[derive(Debug, Clone, Copy, PartialEq, Eq, Structural)]
pub enum AccountError {
    CrudError(CRUDError),
    InvalidCredentials,
    /// No random bytes could be had for a session token.
    TokenUnavailable,
}

/// The text that describes each error.
pub open spec fn account_error_text(e: AccountError) -> Seq<char> {
    match e {
        AccountError::CrudError(err) => "CRUD error: "@ + crud_error_text(err),
        AccountError::InvalidCredentials => "wrong username/password"@,
        AccountError::TokenUnavailable => "could not create a session token"@,
    }
}

impl AccountError {
    /// Describes the error in words.
    pub fn to_string(&self) -> (s: String)
        ensures
            s@ == account_error_text(*self),
    {
        match self {
            AccountError::CrudError(err) => {
                let prefix = "CRUD error: ";
                proof {
                    reveal_strlit("CRUD error: ");
                }
                let mut s = String::from_str(prefix);
                let detail = err.to_string();
                s.append(detail.as_str());
                s
            },
            AccountError::InvalidCredentials => {
                let t = "wrong username/password";
                proof {
                    reveal_strlit("wrong username/password");
                }
                t.to_owned()
            },
            AccountError::TokenUnavailable => {
                let t = "could not create a session token";
                proof {
                    reveal_strlit("could not create a session token");
                }
                t.to_owned()
            },
        }
    }
}

impl From<CRUDError> for AccountError {
    fn from(err: CRUDError) -> (r: Self) {
        AccountError::CrudError(err)
    }
}

impl vstd::std_specs::convert::FromSpecImpl<CRUDError> for AccountError {
    open spec fn obeys_from_spec() -> bool {
        true
    }

    open spec fn from_spec(v: CRUDError) -> Self {
        AccountError::CrudError(v)
    }
}

} // verus!
