//! The records that cross the core's boundary: users, requests, responses, claims and
//! the classified failures.
use vstd::prelude::*;

verus! {

/// A point in time: whole seconds since the Unix epoch and the nanoseconds past them.
#[derive(Clone, Copy, Debug, PartialEq, Eq, Structural)]
pub struct Timestamp {
    pub secs: i64,
    pub nanos: u32,
}

/// A stored user record. Only the hash of the password is ever kept.
#[derive(Clone, Debug)]
pub struct User {
    pub id: i32,
    pub name: String,
    pub email: String,
    pub password_hash: String,
    pub created_at: Timestamp,
    pub updated_at: Option<Timestamp>,
}

/// A registration request: name, email and the plaintext password.
#[derive(Clone, Debug)]
pub struct CreateUser {
    pub name: String,
    pub email: String,
    pub password: String,
}

/// A login request: email and the plaintext password.
#[derive(Debug)]
pub struct LoginUser {
    pub email: String,
    pub password: String,
}

/// The sanitized view of a user handed back to a client: the password hash is not in it.
#[derive(Clone, Debug)]
pub struct UserResponse {
    pub id: i32,
    pub name: String,
    pub email: String,
    pub created_at: Timestamp,
}

/// A successful registration or login: the signed token and the sanitized user.
#[derive(Debug)]
pub struct AuthResponse {
    pub token: String,
    pub user: UserResponse,
}

/// The body of a failed request.
#[derive(Debug)]
pub struct ErrorResponse {
    pub error: String,
}

/// The claim set carried by a session token.
#[derive(Clone, Debug)]
pub struct Claims {
    pub sub: String,
    pub exp: usize,
    pub iat: usize,
    pub email: String,
}

/// The classified failures of registration and login.
#[derive(Clone, Copy, Debug, PartialEq, Eq, Structural)]
pub enum AuthError {
    DuplicateEmail,
    InvalidCredentials,
    HashingFailure,
    TokenGenerationFailure,
    StorageFailure,
}

/// The sanitized view of a user.
pub open spec fn view_of(user: User) -> UserResponse {
    UserResponse {
        id: user.id,
        name: user.name,
        email: user.email,
        created_at: user.created_at,
    }
}

impl From<User> for UserResponse {
    fn from(user: User) -> (r: UserResponse)
        ensures
            r == view_of(user),
    {
        UserResponse { id: user.id, name: user.name, email: user.email, created_at: user.created_at }
    }
}

impl vstd::std_specs::convert::FromSpecImpl<User> for UserResponse {
    open spec fn obeys_from_spec() -> bool {
        true
    }

    open spec fn from_spec(user: User) -> UserResponse {
        view_of(user)
    }
}

impl User {
    pub fn get_id(&self) -> (r: i32)
        ensures
            r == self.id,
    {
        self.id
    }

    pub fn get_name(&self) -> (r: &str)
        ensures
            r@ == self.name@,
    {
        self.name.as_str()
    }

    pub fn get_email(&self) -> (r: &str)
        ensures
            r@ == self.email@,
    {
        self.email.as_str()
    }

    pub fn get_created_at(&self) -> (r: Timestamp)
        ensures
            r == self.created_at,
    {
        self.created_at
    }
}

impl CreateUser {
    pub fn new(name: String, email: String, password: String) -> (r: CreateUser)
        ensures
            r.name == name,
            r.email == email,
            r.password == password,
    {
        CreateUser { name, email, password }
    }
}

impl LoginUser {
    pub fn new(email: String, password: String) -> (r: LoginUser)
        ensures
            r.email == email,
            r.password == password,
    {
        LoginUser { email, password }
    }
}

/// The status code that signals a failure of this kind to the client.
pub open spec fn status_of(e: AuthError) -> u16 {
    match e {
        AuthError::DuplicateEmail => 400,
        AuthError::InvalidCredentials => 401,
        _ => 500,
    }
}

/// The one message a client sees for a failure of this kind; internal details never reach it.
pub open spec fn message_of(e: AuthError) -> Seq<char> {
    match e {
        AuthError::DuplicateEmail => "user already exists"@,
        AuthError::InvalidCredentials => "invalid credentials"@,
        _ => "internal server error"@,
    }
}

impl AuthError {
    /// The status code of this failure.
    pub fn status(&self) -> (r: u16)
        ensures
            r == status_of(*self),
    {
        match self {
            AuthError::DuplicateEmail => 400,
            AuthError::InvalidCredentials => 401,
            _ => 500,
        }
    }

    /// The generic message of this failure.
    pub fn message(&self) -> (r: String)
        ensures
            r@ == message_of(*self),
    {
        match self {
            AuthError::DuplicateEmail => String::from_str("user already exists"),
            AuthError::InvalidCredentials => String::from_str("invalid credentials"),
            _ => String::from_str("internal server error"),
        }
    }

    /// The response body of this failure.
    pub fn to_response(&self) -> (r: ErrorResponse)
        ensures
            r.error@ == message_of(*self),
    {
        ErrorResponse { error: self.message() }
    }
}

/// An email of the form local@domain: exactly one '@', with text on both sides.
pub open spec fn well_formed_email(s: Seq<char>) -> bool {
    exists|i: int|
        0 < i < s.len() - 1 && #[trigger] s[i] == '@' && forall|j: int| 0 <= j < s.len() && j != i ==> s[j] != '@'
}

/// Checks that `s` is a well-formed email.
pub fn is_well_formed_email(s: &str) -> (r: bool)
    ensures
        r == well_formed_email(s@),
{
    let n = s.unicode_len();
    let mut at: Option<usize> = None;
    let mut many = false;
    let mut i: usize = 0;
    while i < n
        invariant
            n == s@.len(),
            i <= n,
            at is None ==> forall|j: int| 0 <= j < i ==> s@[j] != '@',
            at is None ==> !many,
            at is Some ==> at->Some_0 < i && s@[at->Some_0 as int] == '@',
            at is Some ==> forall|j: int| 0 <= j < at->Some_0 ==> s@[j] != '@',
            at is Some && !many ==> forall|j: int| at->Some_0 < j < i ==> s@[j] != '@',
            many ==> exists|j: int| at->Some_0 < j < i && s@[j] == '@',
        decreases n - i,
    {
        if s.get_char(i) == '@' {
            match at {
                None => { at = Some(i); },
                Some(_) => { many = true; },
            }
        }
        i = i + 1;
    }
    match at {
        None => false,
        Some(p) => {
            if many {
                proof {
                    let k = choose|j: int| p < j < n && s@[j] == '@';
                    if well_formed_email(s@) {
                        let w = choose|w: int| 0 < w < s@.len() - 1 && #[trigger] s@[w] == '@'
                            && forall|j: int| 0 <= j < s@.len() && j != w ==> s@[j] != '@';
                        assert(p == w);
                    }
                }
                false
            } else {
                let ok = p > 0 && p + 1 < n;
                proof {
                    if ok {
                        assert(s@[p as int] == '@');
                    }
                }
                ok
            }
        },
    }
}

impl CreateUser {
    /// Whether the request can be registered: all three fields non-empty and a well-formed email.
    pub open spec fn valid(&self) -> bool {
        &&& self.name@.len() > 0
        &&& self.password@.len() > 0
        &&& well_formed_email(self.email@)
    }

    /// Checks that the request can be registered.
    pub fn is_valid(&self) -> (r: bool)
        ensures
            r == self.valid(),
    {
        self.name.as_str().unicode_len() > 0 && self.password.as_str().unicode_len() > 0
            && is_well_formed_email(self.email.as_str())
    }
}

}
