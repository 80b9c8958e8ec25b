//! Logging in, registering, and issuing new tokens for a refresh token.

use vstd::prelude::*;
use crate::error::{APIError, APIErrorView};
use crate::model::account::{bcrypt_verdict, credentials_checked, Account};
use crate::token::revocation::{RefreshCheck, RefreshCheckView};
use crate::token::{
    current_timestamp, fresh_identifier, generate_token_pair_at, is_clock_moment,
    is_random_identifier, pair_issued, AccessToken, ApplicationClaim, ApplicationClaimView,
    ApplicationToken, RefreshToken, RefreshTokenID, RefreshTokenInfo,
};
use crate::types::SecondsSinceEpoch;

verus! {

/// What a login is asked with.
#[derive(Debug, Clone)]
pub struct LoginData {
    pub login: String,
    pub password: String,
}

/// What a login, a registration or a refresh answers with.
#[derive(Debug, Clone)]
pub struct AuthorizationResponse {
    pub access_token: AccessToken,
    pub refresh_token: RefreshToken,
}

/// What a registration is asked with.
#[derive(Debug, Clone)]
pub struct RegistrationData {
    pub login: String,
    pub password: String,
    pub first_name: String,
    pub last_name: Option<String>,
}

/// What a refresh is asked with.
#[derive(Debug, Clone)]
pub struct RefreshTokenRequest {
    pub refresh_token: RefreshToken,
}

/// Whether a login goes through, by the account that the store holds under
/// the login, if any, and the password given: without an account, or with
/// another password than the account's, the credentials are invalid.
pub open spec fn login_checked(account: Option<Account>, password: Seq<char>) -> Result<
    (),
    APIErrorView,
> {
    match account {
        None => Err(APIErrorView::InvalidCredentials),
        Some(a) => credentials_checked(bcrypt_verdict(password, a.password_hash@)),
    }
}

/// The result of issuing tokens for a route as a value.
pub open spec fn tokens_view(res: Result<AuthorizationResponse, APIError>) -> Result<
    (Seq<char>, Seq<char>),
    APIErrorView,
> {
    match res {
        Ok(tokens) => Ok((tokens.access_token.text(), tokens.refresh_token.text())),
        Err(e) => Err(e@),
    }
}

/// Whether `res` is what logging in at `now` gives: the error of the check
/// of the password, or what issuing a pair for the account gives at `now`
/// with the refresh token identifier `token_id`.
pub open spec fn logged_in(
    account: Option<Account>,
    password: Seq<char>,
    secret: Seq<char>,
    token_id: RefreshTokenID,
    now: SecondsSinceEpoch,
    res: Result<(Seq<char>, Seq<char>), APIErrorView>,
) -> bool {
    match login_checked(account, password) {
        Err(e) => res == Err::<(Seq<char>, Seq<char>), APIErrorView>(e),
        Ok(_) => pair_issued(secret, account->0.id, token_id, now, res),
    }
}

/// Logs in at `now`: checks the password against the account that the store
/// holds under the login, and issues a pair of tokens for the account with
/// the refresh token identifier `token_id`.
pub fn login_at(
    account: Option<Account>,
    password: &str,
    secret: &str,
    token_id: RefreshTokenID,
    now: SecondsSinceEpoch,
) -> (res: Result<AuthorizationResponse, APIError>)
    ensures
        logged_in(account, password@, secret@, token_id, now, tokens_view(res)),
{
    let account = match account {
        Some(account) => account,
        None => {
            return Err(APIError::InvalidCredentials);
        },
    };
    match account.check_password(password) {
        Ok(_) => {},
        Err(e) => {
            return Err(e);
        },
    }
    match generate_token_pair_at(account.id, token_id, secret, now) {
        Ok((access_token, refresh_token)) => Ok(
            AuthorizationResponse { access_token, refresh_token },
        ),
        Err(e) => Err(e),
    }
}

/// Logs in at the present moment, with a refresh token identifier drawn at
/// random: what logging in gives at some moment that the clock can give.
/// So no tokens are issued without an account or for another password than
/// the account's.
pub fn login(account: Option<Account>, password: &str, secret: &str) -> (res: Result<
    AuthorizationResponse,
    APIError,
>)
    ensures
        exists|token_id: RefreshTokenID, now: SecondsSinceEpoch|
            is_random_identifier(token_id.0) && is_clock_moment(now) && #[trigger] logged_in(
                account,
                password@,
                secret@,
                token_id,
                now,
                tokens_view(res),
            ),
{
    let token_id = RefreshTokenID(fresh_identifier());
    let now = current_timestamp();
    login_at(account, password, secret, token_id, now)
}

/// The text of the error for a refresh that is to be finished while a
/// question to the store is still open.
pub const CHECK_OPEN: &'static str = "the check of the refresh token has not ended";

/// Whether `res` is what finishing a refresh at `now` gives: the error that
/// the token was rejected with, an internal error where the check has not
/// ended, and for a token that was accepted what issuing a pair for the
/// account of its claim gives at `now` with the refresh token identifier
/// `token_id`.
pub open spec fn refreshed(
    check: RefreshCheckView,
    claim: ApplicationClaimView<RefreshTokenInfo>,
    secret: Seq<char>,
    token_id: RefreshTokenID,
    now: SecondsSinceEpoch,
    res: Result<(Seq<char>, Seq<char>), APIErrorView>,
) -> bool {
    match check {
        RefreshCheckView::Rejected(e) => res == Err::<(Seq<char>, Seq<char>), APIErrorView>(e),
        RefreshCheckView::Asking { .. } => res == Err::<(Seq<char>, Seq<char>), APIErrorView>(
            APIErrorView::InternalError { message: CHECK_OPEN@ },
        ),
        RefreshCheckView::Accepted => pair_issued(
            secret,
            claim.inner.account_id,
            token_id,
            now,
            res,
        ),
    }
}

/// Finishes a refresh at `now`, once the check of the refresh token has
/// ended. New tokens are issued only for a token that was accepted, and
/// then for the account of its claim, with the refresh token identifier
/// `token_id`. A rejected token gives the error it was rejected with, and a
/// check that has not ended an internal error.
pub fn refresh_at(
    check: RefreshCheck,
    claim: &ApplicationClaim<RefreshTokenInfo>,
    secret: &str,
    token_id: RefreshTokenID,
    now: SecondsSinceEpoch,
) -> (res: Result<AuthorizationResponse, APIError>)
    ensures
        refreshed(check@, claim@, secret@, token_id, now, tokens_view(res)),
{
    match check {
        RefreshCheck::Rejected(e) => Err(e),
        RefreshCheck::Asking { question: _, key: _ } => Err(
            APIError::InternalError { message: CHECK_OPEN.to_owned() },
        ),
        RefreshCheck::Accepted => match generate_token_pair_at(
            claim.inner.account_id,
            token_id,
            secret,
            now,
        ) {
            Ok((access_token, refresh_token)) => Ok(
                AuthorizationResponse { access_token, refresh_token },
            ),
            Err(e) => Err(e),
        },
    }
}

/// Finishes a refresh at the present moment, with a refresh token
/// identifier drawn at random: what finishing the refresh gives at some
/// moment that the clock can give. So no tokens are issued for a token that
/// was not accepted.
pub fn refresh(check: RefreshCheck, claim: &ApplicationClaim<RefreshTokenInfo>, secret: &str) -> (res:
    Result<AuthorizationResponse, APIError>)
    ensures
        exists|token_id: RefreshTokenID, now: SecondsSinceEpoch|
            is_random_identifier(token_id.0) && is_clock_moment(now) && #[trigger] refreshed(
                check@,
                claim@,
                secret@,
                token_id,
                now,
                tokens_view(res),
            ),
{
    let token_id = RefreshTokenID(fresh_identifier());
    let now = current_timestamp();
    refresh_at(check, claim, secret, token_id, now)
}

} // verus!
