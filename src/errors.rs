use vstd::prelude::*;

use crate::store::StoreError;

verus! {

/// Why a registration failed.
#[derive(Debug, PartialEq, Eq)]
pub enum SubscribeError {
    /// The submitted name or address was refused.
    ValidationError(String),
    /// The store refused the write; nothing of the registration was kept.
    StoreError(StoreError),
    /// The registration was kept, but the confirmation email did not go out.
    DeliveryError(String),
}

impl SubscribeError {
    /// The HTTP status this error answers with: the client's fault or the server's.
    pub fn status_code(&self) -> (r: u16)
        ensures
            r == (if self is ValidationError {
                400u16
            } else {
                500u16
            }),
    {
        match self {
            SubscribeError::ValidationError(_) => 400,
            SubscribeError::StoreError(_) => 500,
            SubscribeError::DeliveryError(_) => 500,
        }
    }
}

/// Why a publication failed.
#[derive(Debug, PartialEq, Eq)]
pub enum PublishError {
    /// The caller could not be authenticated.
    AuthError(String),
    /// Anything else, a failed send among them.
    UnexpectedError(String),
}

impl PublishError {
    /// The HTTP status this error answers with.
    pub fn status_code(&self) -> (r: u16)
        ensures
            r == (if self is AuthError {
                401u16
            } else {
                500u16
            }),
    {
        match self {
            PublishError::AuthError(_) => 401,
            PublishError::UnexpectedError(_) => 500,
        }
    }
}

/// The report of an error and the chain of errors that caused it: the first
/// line names the error, and each later line one cause, in order.
pub open spec fn error_chain_text(error: Seq<char>, causes: Seq<Seq<char>>) -> Seq<char>
    decreases causes.len(),
{
    if causes.len() == 0 {
        error + "\n"@
    } else {
        error_chain_text(error, causes.drop_last()) + "Caused by: "@ + causes.last() + "\n"@
    }
}

/// Writes out an error followed by its chain of causes.
pub fn error_chain_fmt(error: &str, causes: &Vec<String>) -> (r: String)
    ensures
        r@ == error_chain_text(error@, causes@.map_values(|c: String| c@)),
{
    let ghost cv = causes@.map_values(|c: String| c@);
    let mut out = error.to_owned();
    out.append("\n");
    let mut i: usize = 0;
    while i < causes.len()
        invariant
            i <= causes@.len(),
            cv == causes@.map_values(|c: String| c@),
            out@ == error_chain_text(error@, cv.take(i as int)),
        decreases causes@.len() - i,
    {
        assert(cv.take(i + 1).drop_last() =~= cv.take(i as int));
        out.append("Caused by: ");
        out.append(causes[i].as_str());
        out.append("\n");
        i = i + 1;
    }
    assert(cv.take(causes@.len() as int) =~= cv);
    out
}

} // verus!
