use vstd::prelude::*;
use vstd::utf8::encode_utf8;

use crate::domain::dtos::request::login_command::LoginCommand;
use crate::domain::dtos::request::register_command::{register_errors, RegisterCommand};
use crate::domain::error::app_error::AppError;
use crate::domain::error::field_error::FieldError;
use crate::domain::model::user::User;
use argon2::password_hash::{PasswordHash, PasswordHasher, PasswordVerifier, Salt, SaltString};
use rand_core::{OsRng, RngCore};

verus! {

/// Whether `phc_hash` is an Argon2 PHC string that `password` verifies
/// against, as `argon2`'s `PasswordVerifier::verify_password` decides with
/// the default `Argon2` instance.
pub uninterp spec fn argon2_matches(password: Seq<char>, phc_hash: Seq<char>) -> bool;

/// Longest password Argon2 accepts, in bytes.
pub const MAX_PASSWORD_BYTES: usize = 0xFFFF_FFFF;

/// An Argon2id PHC string: it starts with `$argon2id$`.
pub open spec fn argon2id_phc(h: Seq<char>) -> bool {
    h.len() >= 10 && h.subrange(0, 10) == seq!['$', 'a', 'r', 'g', 'o', 'n', '2', 'i', 'd', '$']
}

/// Hashes a password with `argon2`'s default `Argon2` instance (Argon2id) and
/// a fresh random salt of 16 bytes from `rand_core::OsRng`, giving the PHC
/// string. The salt is random, so the string is not a function of the
/// password; the contract claims that verifying the same password against it
/// succeeds (`verify_password` recomputes the hash from the salt and
/// parameters the string records), that the string starts with `$argon2id$`,
/// and that a password longer than `MAX_PASSWORD_BYTES` gets `None`. `None`
/// also comes when the operating system's random source fails.
#[verifier::external_body]
fn hash_password(password: &str) -> (r: Option<String>)
    ensures
        encode_utf8(password@).len() > MAX_PASSWORD_BYTES ==> r is None,
        r matches Some(h) ==> argon2_matches(password@, h@) && argon2id_phc(h@),
{
    let mut bytes = [0u8; Salt::RECOMMENDED_LENGTH];
    if OsRng.try_fill_bytes(&mut bytes).is_err() {
        return None;
    }
    let salt = SaltString::encode_b64(&bytes).ok()?;
    argon2::Argon2::default().hash_password(password.as_bytes(), &salt).ok().map(|h| h.to_string())
}

/// Checks a password against a PHC string with `argon2`'s
/// `PasswordVerifier::verify_password`; a string that does not parse as a
/// PHC hash never matches, and one that is empty or does not start with `$`
/// never parses (`PasswordHash::new`). The contract claims that the answer
/// depends on the two texts alone.
#[verifier::external_body]
fn verify_password(password: &str, phc_hash: &str) -> (r: bool)
    ensures
        r == argon2_matches(password@, phc_hash@),
        (phc_hash@.len() == 0 || phc_hash@[0] != '$') ==> !r,
{
    match PasswordHash::new(phc_hash) {
        Ok(parsed) => argon2::Argon2::default().verify_password(password.as_bytes(), &parsed).is_ok(),
        Err(_) => false,
    }
}

/// A stored hash that is empty or does not start with `$` is no PHC string.
pub open spec fn not_phc(h: Seq<char>) -> bool {
    h.len() == 0 || h[0] != '$'
}

/// What signing in answers: the user found, if the password verifies against
/// its hash; `Unauthorized` for an unknown email and for a wrong password
/// alike.
pub open spec fn login_outcome(password: Seq<char>, found: Option<User>) -> Result<User, AppError> {
    match found {
        Some(u) => if argon2_matches(password, u.password_hash@) {
            Ok(u)
        } else {
            Err(AppError::Unauthorized)
        },
        None => Err(AppError::Unauthorized),
    }
}

/// A user about to be stored: the password is already hashed.
#[derive(Debug, Clone)]
pub struct NewUser {
    pub name: String,
    pub email: String,
    pub password_hash: String,
}

/// The users use case. `port` is the users store; the steps that wait on it
/// are driven by the caller, and the decisions around them are here.
pub struct UsersUseCase<P> {
    port: P,
}

impl<P> UsersUseCase<P> {
    /// The store this use case works with.
    pub closed spec fn port_view(&self) -> P {
        self.port
    }

    pub fn new(port: P) -> (r: Self)
        ensures
            r.port_view() == port,
    {
        UsersUseCase { port }
    }

    /// The users store.
    pub fn port(&self) -> (r: &P)
        ensures
            *r == self.port_view(),
    {
        &self.port
    }

    /// What a lookup by id answers: the user, or `NotFound` for `user`.
    pub fn found_user(found: Option<User>) -> (r: Result<User, AppError>)
        ensures
            found matches Some(u) ==> r == Ok::<User, AppError>(u),
            found is None ==> (r matches Err(AppError::NotFound { entity }) && entity@ == "user"@),
    {
        match found {
            Some(u) => Ok(u),
            None => Err(AppError::NotFound { entity: "user" }),
        }
    }

    /// The first half of signing up: the command is validated, then the
    /// password is hashed. The store then creates the user (its unique email
    /// constraint settles races). A hash that cannot be made (a password over
    /// `MAX_PASSWORD_BYTES`, or no randomness for the salt) is `Internal`.
    pub fn registration(cmd: RegisterCommand) -> (r: Result<NewUser, AppError>)
        ensures
            r is Ok ==> register_errors(cmd.name@, cmd.email@, cmd.password@).len() == 0,
            register_errors(cmd.name@, cmd.email@, cmd.password@).len() != 0 ==> (r matches Err(
                AppError::Validation(errs),
            ) && errs@.map_values(|f: FieldError| f@) == register_errors(
                cmd.name@,
                cmd.email@,
                cmd.password@,
            )),
            register_errors(cmd.name@, cmd.email@, cmd.password@).len() == 0 ==> (r is Err ==> r matches Err(
                AppError::Internal(_),
            )),
            register_errors(cmd.name@, cmd.email@, cmd.password@).len() == 0 && encode_utf8(cmd.password@).len()
                > MAX_PASSWORD_BYTES ==> r matches Err(AppError::Internal(_)),
            r matches Ok(n) ==> n.name@ == cmd.name@ && n.email@ == cmd.email@ && argon2_matches(
                cmd.password@,
                n.password_hash@,
            ) && argon2id_phc(n.password_hash@),
    {
        match cmd.validate() {
            Err(e) => Err(e),
            Ok(()) => {
                match hash_password(cmd.password.as_str()) {
                    Some(password_hash) => Ok(NewUser { name: cmd.name, email: cmd.email, password_hash }),
                    None => Err(AppError::Internal("argon2 xato".to_owned())),
                }
            },
        }
    }

    /// The second half of signing in: the user found by email, if any, must
    /// have a hash the password verifies against. An unknown email and a
    /// wrong password get the same `Unauthorized`.
    pub fn check_credentials(cmd: &LoginCommand, found: Option<User>) -> (r: Result<User, AppError>)
        ensures
            r == login_outcome(cmd.password@, found),
            found matches Some(u) && not_phc(u.password_hash@) ==> r == Err::<User, AppError>(
                AppError::Unauthorized,
            ),
    {
        match found {
            None => Err(AppError::Unauthorized),
            Some(user) => {
                if verify_password(cmd.password.as_str(), user.password_hash.as_str()) {
                    Ok(user)
                } else {
                    Err(AppError::Unauthorized)
                }
            },
        }
    }
}

/// A failed sign-in does not tell whether the email is known: an unknown
/// email and a wrong password get the same answer.
pub proof fn failed_logins_look_alike(password: Seq<char>, known: User)
    requires
        !argon2_matches(password, known.password_hash@),
    ensures
        login_outcome(password, Some(known)) == login_outcome(password, None),
{
}

/// Signing in with the password given at sign-up succeeds: a user stored
/// with the hash a registration made (`registration` ensures that the hash
/// matches the password) is accepted with that password.
pub proof fn registered_password_is_accepted(password: Seq<char>, n: NewUser, stored: User)
    requires
        argon2_matches(password, n.password_hash@),
        stored.password_hash@ == n.password_hash@,
    ensures
        login_outcome(password, Some(stored)) == Ok::<User, AppError>(stored),
{
}

/// A registered hash is an Argon2id PHC string, so it never equals a password
/// that does not itself start with `$argon2id$`.
pub proof fn stored_hash_is_not_the_password(password: Seq<char>, n: NewUser)
    requires
        argon2id_phc(n.password_hash@),
        !argon2id_phc(password),
    ensures
        n.password_hash@ != password,
{
}

} // verus!
