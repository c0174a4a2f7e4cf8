use vstd::prelude::*;

use crate::dto::SingDto;
use crate::errors::SingUpError;
use crate::user::User;

verus! {

/// The credentials in a request's `username` and `password` headers, or
/// which of them is missing.
pub open spec fn sign_data_result(username: Option<Seq<char>>, password: Option<Seq<char>>) -> Result<
    (Seq<char>, Seq<char>),
    SingUpError,
> {
    match (username, password) {
        (Some(u), Some(p)) => Ok((u, p)),
        (None, None) => Err(SingUpError::NoHeaders),
        (None, Some(_)) => Err(SingUpError::NoUsernameHeader),
        (Some(_), None) => Err(SingUpError::NoPasswordHeader),
    }
}

/// The credentials given by the values of a request's `username` and
/// `password` headers, or the error that says which of them is missing.
pub fn extract_sing_data(username: Option<String>, password: Option<String>) -> (r: Result<
    SingDto,
    SingUpError,
>)
    ensures
        match sign_data_result(
            match username {
                Some(u) => Some(u@),
                None => None,
            },
            match password {
                Some(p) => Some(p@),
                None => None,
            },
        ) {
            Ok((u, p)) => (r matches Ok(d) && d.username@ == u && d.password@ == p),
            Err(e) => r == Err::<SingDto, SingUpError>(e),
        },
{
    match (username, password) {
        (Some(username), Some(password)) => Ok(SingDto { username, password }),
        (None, None) => Err(SingUpError::NoHeaders),
        (None, Some(_)) => Err(SingUpError::NoUsernameHeader),
        (Some(_), None) => Err(SingUpError::NoPasswordHeader),
    }
}

/// Why signing in failed, once no active account matched the credentials:
/// no account of that name (`username_free`), an account not yet activated
/// (`inactive_account`), or else a wrong password.
pub fn sign_in_error(username_free: bool, inactive_account: bool) -> (r: SingUpError)
    ensures
        r == (if username_free {
            SingUpError::NoUser
        } else if inactive_account {
            SingUpError::UserIsNotActivated
        } else {
            SingUpError::WrongPassword
        }),
{
    if username_free {
        SingUpError::NoUser
    } else if inactive_account {
        SingUpError::UserIsNotActivated
    } else {
        SingUpError::WrongPassword
    }
}

/// The account found for the credentials' username, kept only where its
/// password is the one given.
pub fn check_password(found: Option<User>, sing_data: &SingDto) -> (r: Option<User>)
    ensures
        match found {
            Some(u) => if u@.password == sing_data.password@ {
                (r matches Some(v) && v@ == u@)
            } else {
                r is None
            },
            None => r is None,
        },
{
    match found {
        Some(user) => {
            if user.password() == sing_data.password {
                Some(user)
            } else {
                None
            }
        },
        None => None,
    }
}

/// Whether `mark` may be given: 1 to 5.
pub fn is_valid_mark(mark: i16) -> (r: bool)
    ensures
        r == (1 <= mark <= 5),
{
    !(mark > 5 || mark < 1)
}

/// The query that reads an account by username, restricted to active or to
/// inactive accounts where `active` says so.
pub open spec fn user_query_text(active: Option<bool>) -> Seq<char> {
    "select * from users join location_data on owner=username where username = $1 "@ + match active {
        Some(true) => "and is_active=true"@,
        Some(false) => "and is_active=false"@,
        None => Seq::<char>::empty(),
    } + ";"@
}

/// The query that reads an account by username (its single parameter),
/// restricted to active or to inactive accounts where `active` says so.
pub fn user_query(active: Option<bool>) -> (r: String)
    ensures
        r@ == user_query_text(active),
{
    let mut sql = String::from_str(
        "select * from users join location_data on owner=username where username = $1 ",
    );
    let ghost start = sql@;
    match active {
        Some(true) => sql.append("and is_active=true"),
        Some(false) => sql.append("and is_active=false"),
        None => {
            assert(sql@ =~= start + Seq::<char>::empty());
        },
    }
    sql.append(";");
    sql
}

} // verus!
