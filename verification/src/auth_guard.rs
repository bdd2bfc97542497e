//! Who a request comes from: HTTP basic credentials checked against the
//! stored password hash of the named user.

use vstd::prelude::*;

use crate::password::{argon2_accepts, phc_parses, phc_string_parses, verify_password};
use crate::status::Status;
use crate::users::{is_new_user_record, User};

verus! {

/// The name of a user whose credentials were accepted.
#[derive(Debug)]
pub struct AuthGuard(pub String);

/// What looking up the user named in the credentials gave.
#[derive(Debug)]
pub enum UserLookup {
    /// The user store could not be opened or queried.
    Unavailable,
    /// No user has that name.
    NotFound,
    /// A row was found but could not be read as a user.
    Unreadable,
    /// The user with that name.
    Found(User),
}

/// What checking a password against a lookup gives: the user's name on
/// success, otherwise the status the request is refused with.
pub open spec fn authentication(password: Seq<char>, lookup: UserLookup) -> Result<Seq<char>, Status> {
    match lookup {
        UserLookup::Unavailable => Err(Status::InternalServerError),
        UserLookup::NotFound => Err(Status::Unauthorized),
        UserLookup::Unreadable => Err(Status::Unauthorized),
        UserLookup::Found(user) => if !phc_parses(user.password_hash@) {
            Err(Status::InternalServerError)
        } else if argon2_accepts(password, user.password_hash@) {
            Ok(user.username@)
        } else {
            Err(Status::Unauthorized)
        },
    }
}

/// The result of `authenticate` seen through the name it carries.
pub open spec fn guard_view(r: Result<AuthGuard, Status>) -> Result<Seq<char>, Status> {
    match r {
        Ok(g) => Ok(g.0@),
        Err(s) => Err(s),
    }
}

/// Checks the password of a request against the user it names.
/// A store that cannot be reached, or a stored hash that is not a PHC string,
/// is a server error; an unknown or unreadable user, or a wrong password, is
/// unauthorized; otherwise the request comes from that user.
pub fn authenticate(password: &str, lookup: UserLookup) -> (r: Result<AuthGuard, Status>)
    ensures
        guard_view(r) == authentication(password@, lookup),
{
    match lookup {
        UserLookup::Unavailable => Err(Status::InternalServerError),
        UserLookup::NotFound => Err(Status::Unauthorized),
        UserLookup::Unreadable => Err(Status::Unauthorized),
        UserLookup::Found(user) => {
            if !phc_string_parses(user.password_hash.as_str()) {
                return Err(Status::InternalServerError);
            }
            match verify_password(password, user.password_hash.as_str()) {
                Ok(()) => Ok(AuthGuard(user.username)),
                Err(_) => Err(Status::Unauthorized),
            }
        },
    }
}

/// A user whose stored hash was made from a password signs in with that
/// password, under the user's own name.
pub proof fn lemma_hashed_password_signs_in(password: Seq<char>, user: User)
    requires
        phc_parses(user.password_hash@),
        argon2_accepts(password, user.password_hash@),
    ensures
        authentication(password, UserLookup::Found(user)) == Ok::<Seq<char>, Status>(user.username@),
{
}

/// A new user signs in with the temporary password they were given.
pub proof fn lemma_temporary_password_signs_in(username: Seq<char>, password: Seq<char>, user: User)
    requires
        is_new_user_record(username, password, user),
    ensures
        authentication(password, UserLookup::Found(user)) == Ok::<Seq<char>, Status>(username),
{
}

/// A lookup that finds no usable user decides the answer whatever the
/// password: an unreachable store is a server error, and an unknown user or
/// an unreadable row is unauthorized.
pub proof fn lemma_failed_lookups_refused(password: Seq<char>)
    ensures
        authentication(password, UserLookup::Unavailable) == Err::<Seq<char>, Status>(
            Status::InternalServerError,
        ),
        authentication(password, UserLookup::NotFound) == Err::<Seq<char>, Status>(
            Status::Unauthorized,
        ),
        authentication(password, UserLookup::Unreadable) == Err::<Seq<char>, Status>(
            Status::Unauthorized,
        ),
{
}

/// A stored hash that is not a PHC string is a server error, whatever the
/// password.
pub proof fn lemma_broken_hash_is_server_error(password: Seq<char>, user: User)
    requires
        !phc_parses(user.password_hash@),
    ensures
        authentication(password, UserLookup::Found(user)) == Err::<Seq<char>, Status>(
            Status::InternalServerError,
        ),
{
}

/// The result of `authenticate` is seen without loss: the guard's name, or
/// the status of the refusal.
pub proof fn lemma_guard_view_faithful(guard: AuthGuard, status: Status)
    ensures
        guard_view(Ok(guard)) == Ok::<Seq<char>, Status>(guard.0@),
        guard_view(Err(status)) == Err::<Seq<char>, Status>(status),
{
}

/// A password the stored hash does not accept is refused as unauthorized.
pub proof fn lemma_wrong_password_refused(password: Seq<char>, user: User)
    requires
        phc_parses(user.password_hash@),
        !argon2_accepts(password, user.password_hash@),
    ensures
        authentication(password, UserLookup::Found(user)) == Err::<Seq<char>, Status>(
            Status::Unauthorized,
        ),
{
}

} // verus!
