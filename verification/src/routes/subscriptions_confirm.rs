//! Confirming a subscription by its token.

use crate::failure::{chain_text, error_chain_fmt, failure, Failure};
use uuid::Uuid;
use vstd::prelude::*;

verus! {

/// The query of a confirmation link.
pub struct Parameters {
    pub subscription_token: String,
}

/// Why a confirmation did not go through.
pub enum ConfirmationError {
    /// No subscriber holds the token.
    TokenNotFound,
    /// The store could not be asked or told.
    UnexpectedError(Failure),
}

pub const TOKEN_NOT_FOUND: &'static str = "The provided subscription token was not found";

pub const LOOKUP_FAILED: &'static str = "Failed to retrieve the subscriber id";

pub const CONFIRM_FAILED: &'static str = "Failed to confirm the subscriber";

impl ConfirmationError {
    /// What the error shows.
    pub open spec fn shown(self) -> Seq<char> {
        match self {
            ConfirmationError::TokenNotFound => TOKEN_NOT_FOUND@,
            ConfirmationError::UnexpectedError(fault) => fault@.message,
        }
    }

    /// The causes behind the error, nearest first.
    pub open spec fn sources(self) -> Seq<Seq<char>> {
        match self {
            ConfirmationError::TokenNotFound => Seq::empty(),
            ConfirmationError::UnexpectedError(fault) => fault@.causes,
        }
    }

    /// The HTTP status that answers the error: 401 for an unknown token,
    /// 500 for a fault.
    pub fn status_code(&self) -> (code: u16)
        ensures
            code == match self {
                ConfirmationError::TokenNotFound => 401u16,
                ConfirmationError::UnexpectedError(_) => 500u16,
            },
    {
        match self {
            ConfirmationError::TokenNotFound => 401,
            ConfirmationError::UnexpectedError(_) => 500,
        }
    }

    /// The error as text.
    pub fn to_string(&self) -> (text: String)
        ensures
            text@ == self.shown(),
    {
        match self {
            ConfirmationError::TokenNotFound => String::from_str(TOKEN_NOT_FOUND),
            ConfirmationError::UnexpectedError(fault) => fault.to_string(),
        }
    }

    /// The error with the chain of its causes, for the server's records.
    pub fn fmt(&self) -> (text: String)
        ensures
            text@ == chain_text(self.shown(), self.sources()),
    {
        match self {
            ConfirmationError::TokenNotFound => {
                let none: Vec<String> = Vec::new();
                error_chain_fmt(TOKEN_NOT_FOUND, &none)
            },
            ConfirmationError::UnexpectedError(fault) => fault.chain(),
        }
    }

    /// The fault of a store that could not mark the subscriber.
    pub fn confirm_failed(cause: String) -> (e: ConfirmationError)
        ensures
            e matches ConfirmationError::UnexpectedError(fault) && fault@ == failure(
                CONFIRM_FAILED@,
                seq![cause@],
            ),
    {
        ConfirmationError::UnexpectedError(Failure::caused_by(CONFIRM_FAILED, cause))
    }
}

/// Names the subscriber to confirm, given what the store answered for the
/// token: a store that could not answer is a fault, a token that nobody
/// holds is refused.
pub fn confirm(lookup: Result<Option<Uuid>, String>) -> (r: Result<Uuid, ConfirmationError>)
    ensures
        match lookup {
            Ok(Some(id)) => r == Ok::<Uuid, ConfirmationError>(id),
            Ok(None) => r == Err::<Uuid, ConfirmationError>(ConfirmationError::TokenNotFound),
            Err(cause) => r matches Err(ConfirmationError::UnexpectedError(fault)) && fault@
                == failure(LOOKUP_FAILED@, seq![cause@]),
        },
{
    match lookup {
        Ok(Some(id)) => Ok(id),
        Ok(None) => Err(ConfirmationError::TokenNotFound),
        Err(cause) => Err(
            ConfirmationError::UnexpectedError(Failure::caused_by(LOOKUP_FAILED, cause)),
        ),
    }
}

} // verus!
