use vstd::prelude::*;

verus! {

/// Body of an error response.
#[derive(Clone, Debug, PartialEq, Eq)]
pub struct RestError {
    pub message: String,
}

impl From<String> for RestError {
    fn from(message: String) -> (r: RestError) {
        RestError { message }
    }
}

impl vstd::std_specs::convert::FromSpecImpl<String> for RestError {
    open spec fn obeys_from_spec() -> bool {
        true
    }

    open spec fn from_spec(message: String) -> RestError {
        RestError { message }
    }
}

impl RestError {
    pub fn from_text(message: &str) -> (r: RestError)
        ensures
            r.message@ == message@,
    {
        RestError { message: String::from_str(message) }
    }
}

/// Body of a liveness answer.
#[derive(Clone, Debug, PartialEq, Eq)]
pub struct Heartbeat {
    pub status: String,
}

#[derive(Clone, Debug, PartialEq, Eq)]
pub struct UserLogin {
    pub email: String,
    pub password: String,
}

#[derive(Clone, Debug, PartialEq, Eq)]
pub struct UserRegistration {
    pub name: String,
    pub email: String,
    pub password: String,
}

#[derive(Clone, Copy, Debug, PartialEq, Eq, Structural)]
pub enum UserType {
    Customer,
    Apothecary,
    Admin,
}

/// A user as clients see it; the password hash is not part of it.
#[derive(Clone, Debug, PartialEq, Eq)]
pub struct User {
    pub id: u128,
    pub name: String,
    pub email: String,
    pub user_type: UserType,
}

#[derive(Clone, Copy, Debug, PartialEq, Eq, Structural)]
pub enum Role {
    Customer,
    Apothecary,
    Admin,
}

/// What an access token states: its subject, its expiry as seconds since
/// the Unix epoch, and the roles it grants.
#[derive(Clone, Debug, PartialEq, Eq)]
pub struct TokenClaims {
    pub sub: String,
    pub exp: i64,
    pub roles: Vec<Role>,
}

/// Expiry written into every access token, in seconds since the Unix epoch.
pub const TOKEN_EXPIRY: i64 = 2000000000;

pub open spec fn roles_spec(t: UserType) -> Seq<Role> {
    match t {
        UserType::Admin => seq![Role::Customer, Role::Apothecary, Role::Admin],
        UserType::Customer => seq![Role::Customer],
        UserType::Apothecary => seq![Role::Apothecary],
    }
}

/// The roles a user of each type holds: an admin holds every role.
pub fn roles_for(t: UserType) -> (r: Vec<Role>)
    ensures
        r@ == roles_spec(t),
{
    let mut roles: Vec<Role> = Vec::new();
    match t {
        UserType::Admin => {
            roles.push(Role::Customer);
            roles.push(Role::Apothecary);
            roles.push(Role::Admin);
        },
        UserType::Customer => roles.push(Role::Customer),
        UserType::Apothecary => roles.push(Role::Apothecary),
    }
    proof {
        assert(roles@ =~= roles_spec(t));
    }
    roles
}

/// Keys of the access tokens.
#[derive(Clone, Debug, PartialEq, Eq)]
pub struct Jwt {
    pub secret: String,
    pub access_token_public_key: String,
    pub access_token_private_key: String,
}

#[derive(Clone, Debug, PartialEq, Eq)]
pub struct Database {
    pub url: String,
}

#[derive(Clone, Debug, PartialEq, Eq)]
pub struct Endpoint {
    pub host: String,
    pub port: u16,
}

#[derive(Clone, Debug, PartialEq, Eq)]
pub struct Settings {
    pub database: Database,
    pub endpoint: Endpoint,
    pub jwt: Jwt,
}

/// Issues the claims of access tokens under the configured keys.
#[derive(Clone, Debug)]
pub struct JwtService {
    pub settings: Settings,
}

impl JwtService {
    pub fn new(settings: Settings) -> (r: JwtService)
        ensures
            r.settings == settings,
    {
        JwtService { settings }
    }

    /// The claims of a token for a user: the user's id text as subject, the
    /// fixed expiry, and the roles of the user's type.
    pub fn claims_for(&self, sub: String, user_type: UserType) -> (r: TokenClaims)
        ensures
            r.sub == sub,
            r.exp == TOKEN_EXPIRY,
            r.roles@ == roles_spec(user_type),
    {
        TokenClaims { sub, exp: TOKEN_EXPIRY, roles: roles_for(user_type) }
    }
}

#[derive(Clone, Copy, Debug, PartialEq, Eq, Structural)]
pub enum AuthError {
    InvalidToken,
}

impl AuthError {
    /// Status code and message of the response to a refused token.
    pub fn response(&self) -> (r: (u16, String))
        ensures
            r.0 == 401,
            r.1@ == "Invalid token"@,
    {
        (401, String::from_str("Invalid token"))
    }
}

#[derive(Clone, Copy, Debug, PartialEq, Eq, Structural)]
pub enum UserServiceError {
    InvalidCredentials,
    UserNotFound,
    UserAlreadyExists,
    /// A store or hashing fault; its details stay on the server.
    Internal,
}

impl UserServiceError {
    /// Status code and message of the response to this error; an internal
    /// fault has an empty message.
    pub fn response(&self) -> (r: (u16, String))
        ensures
            match *self {
                UserServiceError::InvalidCredentials => r.0 == 401 && r.1@ == "Invalid credentials"@,
                UserServiceError::UserNotFound => r.0 == 404 && r.1@ == "User not found"@,
                UserServiceError::UserAlreadyExists => r.0 == 409 && r.1@ == "User already exists"@,
                UserServiceError::Internal => r.0 == 500 && r.1@.len() == 0,
            },
    {
        match self {
            UserServiceError::InvalidCredentials => (401, String::from_str("Invalid credentials")),
            UserServiceError::UserNotFound => (404, String::from_str("User not found")),
            UserServiceError::UserAlreadyExists => (409, String::from_str("User already exists")),
            UserServiceError::Internal => (500, String::new()),
        }
    }
}

/// Outcome of a login: the user found by the e-mail address, where the
/// password check passed. A missing user and a wrong password are the same
/// refusal.
pub fn login_outcome(found: Option<User>, password_ok: bool) -> (r: Result<User, UserServiceError>)
    ensures
        match found {
            Some(u) => if password_ok {
                r == Ok::<User, UserServiceError>(u)
            } else {
                r == Err::<User, UserServiceError>(UserServiceError::InvalidCredentials)
            },
            None => r == Err::<User, UserServiceError>(UserServiceError::InvalidCredentials),
        },
{
    match found {
        Some(u) => {
            if password_ok {
                Ok(u)
            } else {
                Err(UserServiceError::InvalidCredentials)
            }
        },
        None => Err(UserServiceError::InvalidCredentials),
    }
}

} // verus!
