//! Authentication core: password hashing discipline, session-token issuance and the
//! request-handling decisions of registration and login.

pub mod models;
pub mod password;
pub mod service;
pub mod store;
pub mod text;
pub mod token;

pub use models::{
    is_well_formed_email, AuthError, AuthResponse, Claims, CreateUser, ErrorResponse, LoginUser,
    Timestamp, User, UserResponse,
};
pub use password::{hash_password, verify_password, HASH_COST};
pub use service::{
    authenticate, finish_login, finish_registration, inserted_user, login_user,
    prepare_registration, register_user, respond_with_token, sign_in_user, sign_up_user,
};
pub use store::{copy_user, Insertion, Lookup, MemoryStore};
pub use text::{decimal_of, json_string_of, push_decimal, push_digits};
pub use token::{
    claims_to_json, generate_token, issue_token_at, session_claims, TokenIssuer, TOKEN_TTL_SECS,
};
