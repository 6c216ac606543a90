use vstd::prelude::*;
use crate::codec;
use crate::codec::VerifyError;

verus! {

/// Why an account-activation link was rejected.
#[derive(Debug, Clone, Copy, PartialEq, Eq, Structural)]
pub enum ActivationError {
    /// The link's username is not the user the activation token was
    /// issued for (user-correctable, 400-class).
    WrongUser,
    /// The activation token failed codec verification.
    InvalidToken(VerifyError),
}

/// The activation decision, once the store has resolved the activation
/// token to the username it was issued for: the link's username must be
/// that user, and the token must verify for it at `now`. On success the
/// caller consumes the activation row and sets the account's activation
/// flag.
pub fn check_activation(
    path_username: &String,
    token_username: &String,
    token: &String,
    now: u64,
    key: &Vec<u8>,
) -> (r: Result<(), ActivationError>)
    ensures
        path_username@ != token_username@ ==> r == Err::<(), ActivationError>(
            ActivationError::WrongUser,
        ),
        path_username@ == token_username@ ==> r == match codec::spec_verify(
            codec::decoded_claim(token@, key@),
            path_username@,
            now,
        ) {
            Ok(()) => Ok::<(), ActivationError>(()),
            Err(e) => Err::<(), ActivationError>(ActivationError::InvalidToken(e)),
        },
{
    if !(*path_username == *token_username) {
        Err(ActivationError::WrongUser)
    } else {
        match codec::verify(token, path_username, now, key) {
            Ok(()) => Ok(()),
            Err(e) => Err(ActivationError::InvalidToken(e)),
        }
    }
}

} // verus!
