use bleebo::auth_guard::{authenticate, AuthGuard, UserLookup};
use bleebo::password::{hash_password, verify_password, VerifyError};
use bleebo::status::Status;
use bleebo::users::User;

#[test]
fn hashed_password_verifies() {
    let hash = hash_password("hunter42");
    assert!(hash.starts_with("$argon2id$v=19$m=19456,t=2,p=1$"));
    assert!(hash.starts_with(bleebo::password::DEFAULT_PHC_PREFIX));
    assert_eq!(verify_password("hunter42", &hash), Ok(()));
    assert_eq!(verify_password("hunter43", &hash), Err(VerifyError));
}

#[test]
fn hashes_of_one_password_differ_by_salt() {
    let first = hash_password("same password");
    let second = hash_password("same password");
    assert_ne!(first, second);
}

fn user_with_hash(hash: &str) -> User {
    User { username: "alice".to_string(), password_hash: hash.to_string(), reset_password: false }
}

#[test]
fn authenticate_accepts_right_password() {
    let hash = hash_password("correct horse");
    let r = authenticate("correct horse", UserLookup::Found(user_with_hash(&hash)));
    match r {
        Ok(AuthGuard(name)) => assert_eq!(name, "alice"),
        Err(s) => panic!("refused with {:?}", s),
    }
    let r = authenticate("wrong horse", UserLookup::Found(user_with_hash(&hash)));
    assert!(matches!(r, Err(Status::Unauthorized)));
}

#[test]
fn authenticate_refusals() {
    assert!(matches!(authenticate("x", UserLookup::Unavailable), Err(Status::InternalServerError)));
    assert!(matches!(authenticate("x", UserLookup::NotFound), Err(Status::Unauthorized)));
    assert!(matches!(authenticate("x", UserLookup::Unreadable), Err(Status::Unauthorized)));
    let r = authenticate("x", UserLookup::Found(user_with_hash("not a phc string")));
    assert!(matches!(r, Err(Status::InternalServerError)));
}

#[test]
fn status_codes() {
    assert_eq!(Status::BadRequest.code(), 400);
    assert_eq!(Status::Unauthorized.code(), 401);
    assert_eq!(Status::NotFound.code(), 404);
    assert_eq!(Status::InternalServerError.code(), 500);
}
