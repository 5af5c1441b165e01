//! What a request can be answered with when it fails.
use crate::identity::{IdentityView, NetworkIdentity};
use vstd::prelude::*;

verus! {

/// Why a request failed.
#[derive(Debug)]
pub enum Error {
    /// The permissions kept in the database do not allow it, or could not be read.
    DbError(String),
    /// There is no way to the destination.
    RouteError(Option<String>),
    /// A failure that carries only its text.
    Anyhow(String),
    /// The network is already served under another secret.
    NetworkSecretNotMatch { expected: NetworkIdentity, shown: NetworkIdentity },
    /// Nothing is known of the failure.
    Unknown,
}

/// The model of an [`Error`].
#[verifier::ext_equal]
pub enum ErrorView {
    DbError(Seq<char>),
    RouteError(Option<Seq<char>>),
    Anyhow(Seq<char>),
    NetworkSecretNotMatch { expected: IdentityView, shown: IdentityView },
    Unknown,
}

impl View for Error {
    type V = ErrorView;

    open spec fn view(&self) -> ErrorView {
        match self {
            Error::DbError(text) => ErrorView::DbError(text@),
            Error::RouteError(text) => ErrorView::RouteError(
                match text {
                    Some(text) => Some(text@),
                    None => None,
                },
            ),
            Error::Anyhow(text) => ErrorView::Anyhow(text@),
            Error::NetworkSecretNotMatch { expected, shown } => ErrorView::NetworkSecretNotMatch {
                expected: expected@,
                shown: shown@,
            },
            Error::Unknown => ErrorView::Unknown,
        }
    }
}

/// A refusal by the database, with the given text.
pub fn db_error(text: &str) -> (error: Error)
    ensures
        error@ == ErrorView::DbError(text@),
{
    Error::DbError(text.to_owned())
}

} // verus!
