//! Registration and login. Each protocol is a short chain of decisions over what the store,
//! the hasher and the signer report; every failure is classified once and passed up.
use vstd::prelude::*;
use crate::models::{
    message_of, status_of, view_of, AuthError, AuthResponse, CreateUser, LoginUser, Timestamp, User,
    UserResponse,
};
use crate::password::{bcrypt_form, bcrypt_verdict, hash_password, verification_of, verify_password, HASH_COST};
use crate::store::{Insertion, Lookup, MemoryStore};
use crate::token::{hs256_token, issuable_at, issue_token_at, session_payload, TokenIssuer};

verus! {

/// Whether `r` is the success payload for `user` at `now`: the sanitized view and the
/// token of the session of `user` that begins at `now`.
pub open spec fn is_success_for(r: AuthResponse, user: User, issuer: TokenIssuer, now: int) -> bool {
    &&& r.user == view_of(user)
    &&& r.token@ == hs256_token(session_payload(user, now), issuer.secret())
    &&& r.token@.len() > 0
}

/// The answer to a request whose user is settled: the token of a session that begins at
/// `now`, and the sanitized view.
pub fn respond_with_token(user: User, issuer: &TokenIssuer, now: i64) -> (r: Result<AuthResponse, AuthError>)
    ensures
        issuable_at(now as int) ==> r is Ok,
        !issuable_at(now as int) ==> r == Err::<AuthResponse, AuthError>(AuthError::TokenGenerationFailure),
        r is Ok ==> is_success_for(r->Ok_0, user, *issuer, now as int),
{
    let token = issue_token_at(issuer, &user, now)?;
    Ok(AuthResponse { token, user: UserResponse::from(user) })
}

/// The failure a registration lookup settles on, if any.
pub open spec fn registration_block(found: Lookup) -> Option<AuthError> {
    match found {
        Lookup::Failed => Some(AuthError::StorageFailure),
        Lookup::Found(_) => Some(AuthError::DuplicateEmail),
        Lookup::Absent => None,
    }
}

/// The first step of registration, after the lookup by email: the password hash to store.
/// A stored user with that email gives `DuplicateEmail`, a failed lookup `StorageFailure`.
pub fn prepare_registration(req: &CreateUser, found: Lookup) -> (r: Result<String, AuthError>)
    requires
        req.valid(),
    ensures
        registration_block(found) is Some ==> r == Err::<String, AuthError>(registration_block(found)->Some_0),
        registration_block(found) is None && r is Err ==> r->Err_0 == AuthError::HashingFailure,
        r is Ok ==> registration_block(found) is None,
        r is Ok ==> bcrypt_verdict(req.password@, r->Ok_0@) == Some(true),
        r is Ok ==> bcrypt_form(r->Ok_0@, HASH_COST),
{
    match found {
        Lookup::Failed => Err(AuthError::StorageFailure),
        Lookup::Found(_) => Err(AuthError::DuplicateEmail),
        Lookup::Absent => hash_password(req.password.as_str()),
    }
}

/// The stored user an insert reports. A rejected duplicate is `DuplicateEmail`: the store's
/// uniqueness rule settles races between concurrent registrations.
pub fn inserted_user(ins: Insertion) -> (r: Result<User, AuthError>)
    ensures
        ins is Inserted ==> r == Ok::<User, AuthError>(ins->Inserted_0),
        ins is Duplicate ==> r == Err::<User, AuthError>(AuthError::DuplicateEmail),
        ins is Failed ==> r == Err::<User, AuthError>(AuthError::StorageFailure),
{
    match ins {
        Insertion::Inserted(u) => Ok(u),
        Insertion::Duplicate => Err(AuthError::DuplicateEmail),
        Insertion::Failed => Err(AuthError::StorageFailure),
    }
}

/// The last step of registration, after the insert; the session begins at `now`.
pub fn finish_registration(ins: Insertion, issuer: &TokenIssuer, now: i64) -> (r: Result<AuthResponse, AuthError>)
    ensures
        ins is Duplicate ==> r == Err::<AuthResponse, AuthError>(AuthError::DuplicateEmail),
        ins is Failed ==> r == Err::<AuthResponse, AuthError>(AuthError::StorageFailure),
        ins is Inserted && issuable_at(now as int) ==> r is Ok,
        ins is Inserted && !issuable_at(now as int)
            ==> r == Err::<AuthResponse, AuthError>(AuthError::TokenGenerationFailure),
        r is Ok ==> ins is Inserted && is_success_for(r->Ok_0, ins->Inserted_0, *issuer, now as int),
{
    let user = inserted_user(ins)?;
    respond_with_token(user, issuer, now)
}

/// The failure a login settles on before a token is signed, if any: an unknown email and a
/// wrong password give the same `InvalidCredentials`.
pub open spec fn login_block(req: LoginUser, found: Lookup) -> Option<AuthError> {
    match found {
        Lookup::Failed => Some(AuthError::StorageFailure),
        Lookup::Absent => Some(AuthError::InvalidCredentials),
        Lookup::Found(u) => match verification_of(bcrypt_verdict(req.password@, u.password_hash@)) {
            Err(e) => Some(e),
            Ok(true) => None,
            Ok(false) => Some(AuthError::InvalidCredentials),
        },
    }
}

/// Checks the credentials of a login against what the lookup by email found.
pub fn authenticate(req: &LoginUser, found: Lookup) -> (r: Result<User, AuthError>)
    ensures
        login_block(*req, found) is Some ==> r == Err::<User, AuthError>(login_block(*req, found)->Some_0),
        login_block(*req, found) is None ==> r == Ok::<User, AuthError>(found->Found_0),
{
    match found {
        Lookup::Failed => Err(AuthError::StorageFailure),
        Lookup::Absent => Err(AuthError::InvalidCredentials),
        Lookup::Found(u) => {
            let ok = verify_password(req.password.as_str(), u.password_hash.as_str())?;
            if ok {
                Ok(u)
            } else {
                Err(AuthError::InvalidCredentials)
            }
        },
    }
}

/// The last step of login, after the lookup by email; the session begins at `now`.
pub fn finish_login(req: &LoginUser, found: Lookup, issuer: &TokenIssuer, now: i64) -> (r: Result<AuthResponse, AuthError>)
    ensures
        login_block(*req, found) is Some ==> r == Err::<AuthResponse, AuthError>(login_block(*req, found)->Some_0),
        login_block(*req, found) is None && issuable_at(now as int) ==> r is Ok,
        login_block(*req, found) is None && !issuable_at(now as int)
            ==> r == Err::<AuthResponse, AuthError>(AuthError::TokenGenerationFailure),
        r is Ok ==> login_block(*req, found) is None && is_success_for(r->Ok_0, found->Found_0, *issuer, now as int),
{
    let user = authenticate(req, found)?;
    respond_with_token(user, issuer, now)
}

/// Registers a user in `store`: lookup by email, hash, insert. The stored record keeps
/// the hash, never the plaintext.
pub fn sign_up_user(store: &mut MemoryStore, user: &CreateUser, now: Timestamp) -> (r: Result<User, AuthError>)
    requires
        old(store).wf(),
        user.valid(),
    ensures
        final(store).wf(),
        old(store).has_email(user.email@) ==> r == Err::<User, AuthError>(AuthError::DuplicateEmail),
        r is Err ==> final(store).users() == old(store).users(),
        !old(store).has_email(user.email@) && r is Err ==> r->Err_0 == AuthError::HashingFailure
            || (r->Err_0 == AuthError::StorageFailure && old(store).next_id() == i32::MAX),
        r is Ok ==> ({
            let u = r->Ok_0;
            &&& !old(store).has_email(user.email@)
            &&& u.id == old(store).next_id()
            &&& forall|i: int| 0 <= i < old(store).users().len() ==> #[trigger] old(store).users()[i].id != u.id
            &&& u.name == user.name
            &&& u.email == user.email
            &&& u.created_at == now
            &&& u.updated_at is None
            &&& bcrypt_verdict(user.password@, u.password_hash@) == Some(true)
            &&& bcrypt_form(u.password_hash@, HASH_COST)
            &&& final(store).users() == old(store).users().push(u)
        }),
{
    let found = store.find_by_email(user.email.as_str());
    let password_hash = prepare_registration(user, found)?;
    let ins = store.insert_user(user.name.clone(), user.email.clone(), password_hash, now);
    inserted_user(ins)
}

/// Register: a fresh email gives the new user's sanitized view and the token of a session
/// that begins at `now`; an email already stored gives `DuplicateEmail`, whatever the password.
pub fn register_user(
    store: &mut MemoryStore,
    payload: &CreateUser,
    issuer: &TokenIssuer,
    now: Timestamp,
) -> (r: Result<AuthResponse, AuthError>)
    requires
        old(store).wf(),
        payload.valid(),
    ensures
        final(store).wf(),
        old(store).has_email(payload.email@) ==> r == Err::<AuthResponse, AuthError>(AuthError::DuplicateEmail)
            && final(store).users() == old(store).users(),
        r is Err && r->Err_0 != AuthError::TokenGenerationFailure ==> final(store).users() == old(store).users(),
        !old(store).has_email(payload.email@) && r is Err ==> r->Err_0 == AuthError::HashingFailure
            || r->Err_0 == AuthError::TokenGenerationFailure && !issuable_at(now.secs as int)
            || (r->Err_0 == AuthError::StorageFailure && old(store).next_id() == i32::MAX),
        !old(store).has_email(payload.email@) && issuable_at(now.secs as int) && old(store).next_id() < i32::MAX
            ==> r is Ok || r == Err::<AuthResponse, AuthError>(AuthError::HashingFailure),
        (r is Ok || r == Err::<AuthResponse, AuthError>(AuthError::TokenGenerationFailure)) ==> ({
            let u = final(store).users().last();
            &&& !old(store).has_email(payload.email@)
            &&& final(store).users() == old(store).users().push(u)
            &&& forall|i: int| 0 <= i < old(store).users().len() ==> #[trigger] old(store).users()[i].id != u.id
            &&& u.name == payload.name
            &&& u.email == payload.email
            &&& u.created_at == now
            &&& bcrypt_verdict(payload.password@, u.password_hash@) == Some(true)
            &&& bcrypt_form(u.password_hash@, HASH_COST)
        }),
        r is Ok ==> is_success_for(r->Ok_0, final(store).users().last(), *issuer, now.secs as int),
{
    let user = sign_up_user(store, payload, now)?;
    proof {
        assert(final(store).users().last() == user);
    }
    respond_with_token(user, issuer, now.secs)
}

/// The stored user whose email a login presents. An email that is not stored gives
/// `InvalidCredentials`, as a wrong password does later.
pub fn login_user(store: &MemoryStore, user: &LoginUser) -> (r: Result<User, AuthError>)
    requires
        store.wf(),
    ensures
        store.has_email(user.email@) ==> r == Ok::<User, AuthError>(store.record_with(user.email@)),
        !store.has_email(user.email@) ==> r == Err::<User, AuthError>(AuthError::InvalidCredentials),
{
    match store.find_by_email(user.email.as_str()) {
        Lookup::Found(u) => Ok(u),
        _ => Err(AuthError::InvalidCredentials),
    }
}

/// Login: the right password for a stored email gives the sanitized view and the token of a
/// session that begins at `now`; an unknown email and a wrong password both give
/// `InvalidCredentials`.
pub fn sign_in_user(store: &MemoryStore, payload: &LoginUser, issuer: &TokenIssuer, now: i64) -> (r: Result<AuthResponse, AuthError>)
    requires
        store.wf(),
    ensures
        !store.has_email(payload.email@) ==> r == Err::<AuthResponse, AuthError>(AuthError::InvalidCredentials),
        login_block(*payload, store.lookup_of(payload.email@)) is Some
            ==> r == Err::<AuthResponse, AuthError>(login_block(*payload, store.lookup_of(payload.email@))->Some_0),
        login_block(*payload, store.lookup_of(payload.email@)) is None && issuable_at(now as int) ==> r is Ok,
        login_block(*payload, store.lookup_of(payload.email@)) is None && !issuable_at(now as int)
            ==> r == Err::<AuthResponse, AuthError>(AuthError::TokenGenerationFailure),
        r is Ok ==> is_success_for(r->Ok_0, store.record_with(payload.email@), *issuer, now as int),
{
    let found = store.find_by_email(payload.email.as_str());
    finish_login(payload, found, issuer, now)
}

/// A login with an email that is not stored fails exactly as one with a wrong password for a
/// stored email: the same kind, hence the same status and the same message.
pub proof fn unknown_email_like_wrong_password(store: MemoryStore, unknown: LoginUser, wrong: LoginUser)
    requires
        store.wf(),
        !store.has_email(unknown.email@),
        store.has_email(wrong.email@),
        bcrypt_verdict(wrong.password@, store.record_with(wrong.email@).password_hash@) == Some(false),
    ensures
        login_block(unknown, store.lookup_of(unknown.email@)) == Some(AuthError::InvalidCredentials),
        login_block(wrong, store.lookup_of(wrong.email@)) == Some(AuthError::InvalidCredentials),
        status_of(AuthError::InvalidCredentials) == 401,
        message_of(AuthError::InvalidCredentials) == "invalid credentials"@,
{
}

/// A password that was hashed for a stored user is accepted when that user logs in with it:
/// what registration stores, login verifies.
pub proof fn registered_password_accepted(store: MemoryStore, req: LoginUser)
    requires
        store.wf(),
        store.has_email(req.email@),
        bcrypt_verdict(req.password@, store.record_with(req.email@).password_hash@) == Some(true),
    ensures
        login_block(req, store.lookup_of(req.email@)) is None,
{
}

}
