//! The failures that the store, the generator and the container codec report.

use vstd::prelude::*;

verus! {

/// Every failure is returned as one of these values; none is a panic.
#[derive(Debug, PartialEq, Eq)]
pub enum Failure {
    /// The password was not accepted: the authentication tag did not match,
    /// for a wrong password or a damaged container, which are deliberately
    /// not told apart; or no key derives from the password at all.
    AuthenticationFailed,
    /// The container, or the plaintext inside it, does not have the expected shape.
    MalformedContainer,
    /// The cost parameters are not accepted, or, on sealing, no key can be
    /// derived from the password.
    KeyDerivationFailed,
    /// The accounts are too large for the cipher to encrypt.
    SealFailed,
    /// No account has the given name.
    AccountNotFound(String),
    /// The account has no field of the given name.
    FieldNotFound(String),
    /// The field is already set and no overwrite was asked for.
    FieldExists,
    /// The new name is taken and no overwrite was asked for.
    NameCollision,
    /// The exclusions leave no character to draw from.
    EmptyAlphabet,
    /// A command was given without an operand that it needs.
    MissingArgument,
}

/// What a [`Failure`] says, with names as sequences of characters.
pub enum FailureView {
    AuthenticationFailed,
    MalformedContainer,
    KeyDerivationFailed,
    SealFailed,
    AccountNotFound(Seq<char>),
    FieldNotFound(Seq<char>),
    FieldExists,
    NameCollision,
    EmptyAlphabet,
    MissingArgument,
}

impl View for Failure {
    type V = FailureView;

    open spec fn view(&self) -> FailureView {
        match *self {
            Failure::AuthenticationFailed => FailureView::AuthenticationFailed,
            Failure::MalformedContainer => FailureView::MalformedContainer,
            Failure::KeyDerivationFailed => FailureView::KeyDerivationFailed,
            Failure::SealFailed => FailureView::SealFailed,
            Failure::AccountNotFound(name) => FailureView::AccountNotFound(name@),
            Failure::FieldNotFound(name) => FailureView::FieldNotFound(name@),
            Failure::FieldExists => FailureView::FieldExists,
            Failure::NameCollision => FailureView::NameCollision,
            Failure::EmptyAlphabet => FailureView::EmptyAlphabet,
            Failure::MissingArgument => FailureView::MissingArgument,
        }
    }
}

/// The result is a failure, and the failure is `e`.
pub open spec fn fails_with<T>(r: Result<T, Failure>, e: FailureView) -> bool {
    match r {
        Ok(_) => false,
        Err(x) => x@ == e,
    }
}

} // verus!
