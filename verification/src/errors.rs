use vstd::prelude::*;

verus! {

/// Why a sign-in attempt was refused.
#[derive(Debug, Clone, Copy, PartialEq, Eq, Structural)]
pub enum SingUpError {
    NoUser,
    WrongPassword,
    NoUsernameHeader,
    NoPasswordHeader,
    NoHeaders,
    UserIsNotActivated,
}

/// A reason for refusing a registration request.
#[derive(Debug, Clone, Copy, PartialEq, Eq, Structural)]
pub enum RegistrationError {
    InvalidSchoolNumber,
    InvalidClass,
    InvalidUsername,
    InvalidPassword,
    InvalidEmail,
    InvalidLocation,
    UnExistingEmail,
    UsernameExistsInDb,
    EmailExistsInDB,
}

/// Why confirming or cancelling an e-mail verification failed.
#[derive(Debug, Clone, Copy, PartialEq, Eq, Structural)]
pub enum VerfyEmailError {
    EmailAlreadyVerfied,
    WrongVerfyKey,
}

} // verus!
