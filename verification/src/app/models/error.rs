use vstd::prelude::*;

verus! {

/// Errors of token creation and of verification messages, each with its text.
#[derive(Debug)]
pub enum Error {
    CreatingTokenError(String),
    VerificationSMS(String),
}

} // verus!
