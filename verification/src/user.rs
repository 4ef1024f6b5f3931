use vstd::prelude::*;
use crate::error::{HashingError, TokenError, UserError};
use crate::hashing::{hash_password, password_matches, verify_password};
use crate::secret::JwtSecret;
use crate::text::trimmed;
use crate::token::{
    create_token,
    is_issue_outcome,
    random_uuid,
    unix_seconds,
    ACCESS_TOKEN_SECONDS,
    CLOCK_LIMIT,
};
use crate::validators::{
    canonical_email,
    is_registration_defect,
    registration_acceptable,
    UserValidator,
    ValidatedUserData,
};

verus! {

/// What arrives from the registration form.
#[derive(Debug)]
pub struct CreateUser {
    pub email: String,
    pub name: String,
    /// The password in plain text.
    pub password: String,
}

/// What arrives from the login form.
#[derive(Debug)]
pub struct LoginUserRequest {
    pub email: String,
    pub password: String,
}

/// What a successful login answers.
#[derive(Debug)]
pub struct LoginUserResponse {
    pub token: String,
    pub user_id: String,
    pub email: String,
}

/// A token together with whom it was issued to.
#[derive(Debug)]
pub struct AuthResponse {
    pub token: String,
    pub id: String,
    pub email: String,
}

/// A user as it is stored.
#[derive(Debug)]
pub struct User {
    /// The text of a UUID, made when the user is created and never reused.
    pub id: String,
    /// Canonical: trimmed and in lowercase.
    pub email: String,
    pub name: String,
    /// A bcrypt hash, never the password itself.
    pub password_hash: String,
    pub is_active: bool,
    /// Seconds since the epoch.
    pub created_at: i64,
    /// Seconds since the epoch.
    pub updated_at: i64,
}

impl User {
    /// Puts a new user together from checked registration data, the hash of
    /// the password, a fresh identifier and the present second. The user is
    /// active, and created and updated at the same second.
    pub fn assemble(data: ValidatedUserData, password_hash: String, id: String, now: i64) -> (user:
        User)
        ensures
            user.id == id,
            user.email == data.email,
            user.name == data.name,
            user.password_hash == password_hash,
            user.is_active,
            user.created_at == now,
            user.updated_at == now,
    {
        User {
            id,
            email: data.email,
            name: data.name,
            password_hash,
            is_active: true,
            created_at: now,
            updated_at: now,
        }
    }

    /// What is made of the hashing backend's answer during registration: a
    /// failure there is an internal one, not a defect of the input.
    pub fn hash_or_internal(outcome: Result<String, HashingError>) -> (result: Result<
        String,
        UserError,
    >)
        ensures
            match outcome {
                Ok(hash) => result == Ok::<String, UserError>(hash),
                Err(_) => result matches Err(e) && e is Internal,
            },
    {
        match outcome {
            Ok(hash) => Ok(hash),
            Err(_) => Err(UserError::Internal),
        }
    }

    /// Registers a user: checks name, e-mail address and password, hashes
    /// the password and makes the user, active, with a fresh identifier.
    /// Inputs that are not accepted give the first defect; accepted inputs
    /// give the user unless hashing fails.
    pub fn try_from(create_user: CreateUser) -> (result: Result<User, UserError>)
        ensures
            match result {
                Ok(user) => {
                    &&& registration_acceptable(
                        create_user.name@,
                        create_user.email@,
                        create_user.password@,
                    )
                    &&& user.name@ == trimmed(create_user.name@)
                    &&& user.email@ == canonical_email(create_user.email@)
                    &&& password_matches(create_user.password@, user.password_hash@)
                    &&& user.password_hash@.len() == 60
                    &&& user.id@.len() == 36
                    &&& user.is_active
                    &&& user.created_at == user.updated_at
                    &&& 0 <= user.created_at < CLOCK_LIMIT
                },
                Err(e) => if registration_acceptable(
                    create_user.name@,
                    create_user.email@,
                    create_user.password@,
                ) {
                    e is Internal
                } else {
                    is_registration_defect(
                        create_user.name@,
                        create_user.email@,
                        create_user.password@,
                        e,
                    )
                },
            },
    {
        let data = match UserValidator::validade_user_data(
            create_user.name.as_str(),
            create_user.email.as_str(),
            create_user.password.as_str(),
        ) {
            Ok(data) => data,
            Err(e) => {
                return Err(e);
            },
        };
        let password_hash = match Self::hash_or_internal(hash_password(data.password.as_str())) {
            Ok(hash) => hash,
            Err(e) => {
                return Err(e);
            },
        };
        Ok(Self::assemble(data, password_hash, random_uuid(), unix_seconds()))
    }

    /// Decides a login, given what the lookup by e-mail address has found:
    /// the user, if there is one and the password fits the stored hash. No
    /// user and a wrong password give the same `InvalidCredentials`.
    pub fn check_login(found: Option<User>, password: &str) -> (outcome: Result<User, UserError>)
        ensures
            match outcome {
                Ok(user) => found == Some(user) && password_fits(found, password@),
                Err(e) => e is InvalidCredentials && !password_fits(found, password@),
            },
    {
        match found {
            Some(user) => {
                if verify_password(password, user.password_hash.as_str()) {
                    Ok(user)
                } else {
                    Err(UserError::InvalidCredentials)
                }
            },
            None => Err(UserError::InvalidCredentials),
        }
    }

    /// The answer to a login whose password fitted, given how issuing the
    /// access token went: the token with the user's identifier and e-mail
    /// address, or an internal failure if there is no token.
    pub fn login_response(user: User, issuing: Result<String, TokenError>) -> (outcome: Result<
        LoginUserResponse,
        UserError,
    >)
        ensures
            is_login_response(outcome, user, issuing),
    {
        match issuing {
            Ok(token) => Ok(LoginUserResponse { token, user_id: user.id, email: user.email }),
            Err(_) => Err(UserError::Internal),
        }
    }

    /// Logs a user in, given what the lookup by e-mail address has found:
    /// checks the password against the stored hash and issues an access
    /// token, good for five minutes from the present second. No user and a
    /// wrong password give the same `InvalidCredentials`; a token that
    /// cannot be issued is an internal failure.
    pub fn login(found: Option<User>, password: &str, holder: &JwtSecret) -> (outcome: Result<
        LoginUserResponse,
        UserError,
    >)
        ensures
            !password_fits(found, password@) ==> (outcome matches Err(e)
                && e is InvalidCredentials),
            password_fits(found, password@) && holder@ is None ==> (outcome matches Err(e)
                && e is Internal),
            password_fits(found, password@) && holder@ is Some ==> exists|
                now: u64,
                issuing: Result<String, TokenError>,
            |
                now < CLOCK_LIMIT && #[trigger] is_issue_outcome(
                    issuing,
                    found->0,
                    holder@->0,
                    now,
                    ACCESS_TOKEN_SECONDS,
                ) && is_login_response(outcome, found->0, issuing),
    {
        let user = match Self::check_login(found, password) {
            Ok(user) => user,
            Err(e) => {
                return Err(e);
            },
        };
        let issuing = create_token(&user, holder);
        Self::login_response(user, issuing)
    }
}

/// There is a user, and the password fits the stored hash.
pub open spec fn password_fits(found: Option<User>, password: Seq<char>) -> bool {
    found is Some && password_matches(password, found->0.password_hash@)
}

/// `outcome` is the answer to a login of `user` whose password fitted, given
/// how issuing the access token went.
pub open spec fn is_login_response(
    outcome: Result<LoginUserResponse, UserError>,
    user: User,
    issuing: Result<String, TokenError>,
) -> bool {
    match issuing {
        Ok(token) => {
            &&& outcome matches Ok(response)
            &&& outcome->Ok_0.token@ == token@
            &&& outcome->Ok_0.user_id@ == user.id@
            &&& outcome->Ok_0.email@ == user.email@
        },
        Err(_) => outcome matches Err(e) && e is Internal,
    }
}

} // verus!
