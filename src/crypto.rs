//! Password hashing, through the bcrypt crate.
use vstd::prelude::*;

verus! {

#[verifier::external_type_specification]
#[verifier::external_body]
pub struct ExBcryptError(bcrypt::BcryptError);

/// What `bcrypt::verify(password, hash)` returns: `Some(b)` for `Ok(b)`,
/// `None` for an error.
pub uninterp spec fn verify_result(password: Seq<char>, hash: Seq<char>) -> Option<bool>;

/// `bcrypt::verify` accepts `password` for `hash`.
pub open spec fn password_matches(password: Seq<char>, hash: Seq<char>) -> bool {
    verify_result(password, hash) == Some(true)
}

/// `bcrypt::verify` reads `hash` without error, whatever the password.
pub open spec fn readable_hash(hash: Seq<char>) -> bool {
    forall|p: Seq<char>| #[trigger] verify_result(p, hash) is Some
}

/// Relies on `bcrypt::hash`: it fails for a cost outside 4..=31. A hash it
/// returns has the `$2b$` form with an allowed cost, which `bcrypt::verify`
/// parses without error for any password, and accepts for this one.
#[verifier::external_body]
pub(crate) fn hash_password(password: &String, cost: u32) -> (r: Result<String, bcrypt::BcryptError>)
    ensures
        cost < 4 || cost > 31 ==> r is Err,
        r matches Ok(h) ==> verify_result(password@, h@) == Some(true),
        r matches Ok(h) ==> forall|p: Seq<char>| #[trigger] verify_result(p, h@) is Some,
{
    bcrypt::hash(password.as_bytes(), cost)
}

/// Relies on `bcrypt::verify`, whose result the name `verify_result` stands for.
#[verifier::external_body]
pub(crate) fn verify_password(password: &String, hash: &String) -> (r: Result<
    bool,
    bcrypt::BcryptError,
>)
    ensures
        verify_result(password@, hash@) == match r {
            Ok(b) => Some(b),
            Err(_) => None::<bool>,
        },
{
    bcrypt::verify(password.as_bytes(), hash.as_str())
}

} // verus!
