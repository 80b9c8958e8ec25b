//! Claims, the tokens that carry them, and the service that issues and
//! authenticates tokens.

use vstd::prelude::*;
use crate::error::{APIError, APIErrorView};
use crate::model::account::AccountID;
use crate::token::members::{
    claim_members, id_text, lemma_parts_of_members, members_of, parts_of, read_members,
    ClaimParts,
};
use crate::token::signature::{
    jwt_sign, jwt_signed, jwt_verified, jwt_verify, member_at, uuid_parsed,
};
use crate::types::SecondsSinceEpoch;

pub mod bearer;
pub mod members;
pub mod revocation;
pub mod signature;

verus! {

/// The registered fields of a claim. Only the expiration is always there.
#[derive(Debug, Clone)]
pub struct RegisteredClaims {
    pub issuer: Option<String>,
    pub subject: Option<String>,
    pub audience: Option<String>,
    pub expiration: SecondsSinceEpoch,
    pub not_before: Option<SecondsSinceEpoch>,
    pub issued_at: Option<SecondsSinceEpoch>,
    pub json_web_token_id: Option<String>,
}

/// The registered fields of a claim as values, texts as sequences of
/// characters.
pub struct RegisteredClaimsView {
    pub issuer: Option<Seq<char>>,
    pub subject: Option<Seq<char>>,
    pub audience: Option<Seq<char>>,
    pub expiration: SecondsSinceEpoch,
    pub not_before: Option<SecondsSinceEpoch>,
    pub issued_at: Option<SecondsSinceEpoch>,
    pub json_web_token_id: Option<Seq<char>>,
}

/// The characters of a text that may be missing.
pub open spec fn text_view(text: Option<String>) -> Option<Seq<char>> {
    match text {
        Some(s) => Some(s@),
        None => None,
    }
}

impl View for RegisteredClaims {
    type V = RegisteredClaimsView;

    open spec fn view(&self) -> RegisteredClaimsView {
        RegisteredClaimsView {
            issuer: text_view(self.issuer),
            subject: text_view(self.subject),
            audience: text_view(self.audience),
            expiration: self.expiration,
            not_before: self.not_before,
            issued_at: self.issued_at,
            json_web_token_id: text_view(self.json_web_token_id),
        }
    }
}

impl RegisteredClaimsView {
    /// The fields of a claim that says nothing but when it expires: at the
    /// epoch.
    pub open spec fn empty() -> RegisteredClaimsView {
        RegisteredClaimsView {
            issuer: None,
            subject: None,
            audience: None,
            expiration: 0,
            not_before: None,
            issued_at: None,
            json_web_token_id: None,
        }
    }
}

impl Default for RegisteredClaims {
    fn default() -> (r: RegisteredClaims)
        ensures
            r@ == RegisteredClaimsView::empty(),
    {
        RegisteredClaims {
            issuer: None,
            subject: None,
            audience: None,
            expiration: 0,
            not_before: None,
            issued_at: None,
            json_web_token_id: None,
        }
    }
}

/// The identifier of a refresh token, new for every token issued.
#[derive(Debug, Clone, Copy, PartialEq, Eq, Structural, Hash)]
pub struct RefreshTokenID(pub u128);

/// What an access token says: whose it is, and which refresh token it was
/// issued with.
#[derive(Debug, Clone, Copy, PartialEq, Eq, Structural)]
pub struct AccessTokenInfo {
    pub account_id: AccountID,
    pub token_origin: RefreshTokenID,
}

/// What a refresh token says: whose it is, and which token it is.
#[derive(Debug, Clone, Copy, PartialEq, Eq, Structural)]
pub struct RefreshTokenInfo {
    pub account_id: AccountID,
    pub token_id: RefreshTokenID,
}

/// A claim: what the token says of its own, and the registered fields.
#[derive(Debug, Clone)]
pub struct ApplicationClaim<T> {
    pub inner: T,
    pub registered: RegisteredClaims,
}

/// A claim as values.
pub struct ApplicationClaimView<T> {
    pub inner: T,
    pub registered: RegisteredClaimsView,
}

impl<T> View for ApplicationClaim<T> {
    type V = ApplicationClaimView<T>;

    open spec fn view(&self) -> ApplicationClaimView<T> {
        ApplicationClaimView { inner: self.inner, registered: self.registered@ }
    }
}

/// There is no date for the moment at which the validity asked for would
/// end.
#[derive(Debug, Clone, Copy, PartialEq, Eq, Structural)]
pub struct InvalidDuration {}

/// The two roles a token can have. A token of one role is never taken for
/// one of the other.
#[derive(Debug, Clone, Copy, PartialEq, Eq, Structural)]
pub enum TokenKind {
    Access,
    Refresh,
}

/// The last second that `chrono` has a date for: the end of the year
/// 262142.
pub const LATEST_MOMENT: SecondsSinceEpoch = 8210266876799;

/// The first second that `chrono` has a date for: the beginning of the
/// year 262144 before the common era.
pub const EARLIEST_MOMENT: SecondsSinceEpoch = -8334601228800;

/// Whether a number of seconds is a moment that there is a date for.
pub open spec fn is_date_moment(moment: int) -> bool {
    EARLIEST_MOMENT <= moment <= LATEST_MOMENT
}

/// Whether a number of seconds is one that the clock can give: not before
/// the epoch, and not after the last second that `chrono` has a date for.
pub open spec fn is_clock_moment(now: SecondsSinceEpoch) -> bool {
    0 <= now <= LATEST_MOMENT
}

/// `chrono::Utc::now` and `DateTime::timestamp`: the seconds since the
/// epoch at the moment of the call. The crate takes the time of the system
/// as a duration since the epoch and makes a date of it, so what comes back
/// is not negative and not after its last date.
#[verifier::external_body]
pub(crate) fn current_timestamp() -> (now: SecondsSinceEpoch)
    ensures
        is_clock_moment(now),
{
    chrono::Utc::now().timestamp()
}

/// Whether an identifier has the marks of one drawn at random: the version
/// digit 4 and the variant bits 1 and 0.
pub open spec fn is_random_identifier(id: u128) -> bool {
    (id / 0x1000_0000_0000_0000_0000) % 16 == 4 && (id / 0x4000_0000_0000_0000) % 4 == 2
}

/// `uuid::Uuid::new_v4`, as the 128 bits that `Uuid::as_u128` gives: a new
/// identifier drawn at random. Whatever is drawn, it has the marks of such
/// an identifier.
#[verifier::external_body]
pub(crate) fn fresh_identifier() -> (id: u128)
    ensures
        is_random_identifier(id),
{
    uuid::Uuid::new_v4().as_u128()
}

impl InvalidDuration {
    /// The message for people.
    pub open spec fn message_text() -> Seq<char> {
        "Invalid token validity duration. Datetime overflow"@
    }

    pub fn message(&self) -> (s: String)
        ensures
            s@ == InvalidDuration::message_text(),
    {
        "Invalid token validity duration. Datetime overflow".to_owned()
    }
}

impl APIError {
    /// The error that a caller sees for a validity that leaves the dates: an
    /// internal one with the message of the failure.
    pub fn from_invalid_duration(error: InvalidDuration) -> (e: APIError)
        ensures
            e@ == (APIErrorView::InternalError { message: InvalidDuration::message_text() }),
    {
        APIError::InternalError { message: error.message() }
    }
}

impl RegisteredClaimsView {
    /// The registered fields of a claim made at `now` that holds for
    /// `valid_for` seconds.
    pub open spec fn issued(now: SecondsSinceEpoch, valid_for: i64) -> RegisteredClaimsView {
        RegisteredClaimsView {
            issuer: None,
            subject: None,
            audience: None,
            expiration: (now + valid_for) as i64,
            not_before: None,
            issued_at: Some(now),
            json_web_token_id: None,
        }
    }
}

/// What making a claim at `now` gives: the claim that says `inner`, made at
/// `now` and holding for `valid_for` seconds, or `InvalidDuration` where
/// there is no date for the moment it would expire at.
pub open spec fn claim_made<T>(inner: T, valid_for: i64, now: SecondsSinceEpoch) -> Result<
    ApplicationClaimView<T>,
    InvalidDuration,
> {
    if is_date_moment(now + valid_for) {
        Ok(ApplicationClaimView { inner, registered: RegisteredClaimsView::issued(now, valid_for) })
    } else {
        Err(InvalidDuration {  })
    }
}

/// The result of making a claim as a value.
pub open spec fn made_view<T>(res: Result<ApplicationClaim<T>, InvalidDuration>) -> Result<
    ApplicationClaimView<T>,
    InvalidDuration,
> {
    match res {
        Ok(claim) => Ok(claim@),
        Err(e) => Err(e),
    }
}

impl<T> ApplicationClaim<T> {
    /// A claim made at `now` that holds for `valid_for` seconds. It fails
    /// exactly when there is no date for the moment it would expire at:
    /// when that moment lies before the first or after the last second of
    /// the calendar.
    pub fn issued_at(inner: T, valid_for: i64, now: SecondsSinceEpoch) -> (res: Result<
        ApplicationClaim<T>,
        InvalidDuration,
    >)
        ensures
            made_view(res) == claim_made(inner, valid_for, now),
            res is Ok <==> is_date_moment(now + valid_for),
            res matches Ok(claim) ==> claim@ == (ApplicationClaimView {
                inner,
                registered: RegisteredClaimsView::issued(now, valid_for),
            }),
    {
        let expiration = match now.checked_add(valid_for) {
            Some(expiration) => expiration,
            None => {
                return Err(InvalidDuration {  });
            },
        };
        if expiration < EARLIEST_MOMENT || expiration > LATEST_MOMENT {
            return Err(InvalidDuration {  });
        }
        Ok(
                ApplicationClaim {
                    inner,
                    registered: RegisteredClaims {
                        issuer: None,
                        subject: None,
                        audience: None,
                        expiration,
                        not_before: None,
                        issued_at: Some(now),
                        json_web_token_id: None,
                    },
                },
            )
    }

    /// A claim made at the present moment that holds for `valid_for`
    /// seconds: what making the claim gives at some moment that the clock
    /// can give. So it fails only where, at that moment, there is no date
    /// for the moment the claim would expire at.
    pub fn new(inner: T, valid_for: i64) -> (res: Result<ApplicationClaim<T>, InvalidDuration>)
        ensures
            exists|now: SecondsSinceEpoch|
                is_clock_moment(now) && made_view(res) == #[trigger] claim_made(
                    inner,
                    valid_for,
                    now,
                ),
            res matches Ok(claim) ==> match claim@.registered.issued_at {
                Some(now) => is_date_moment(now + valid_for) && claim@
                    == (ApplicationClaimView {
                    inner,
                    registered: RegisteredClaimsView::issued(now, valid_for),
                }),
                None => false,
            },
    {
        let now = current_timestamp();
        ApplicationClaim::issued_at(inner, valid_for, now)
    }
}

/// What a token says of its own: an account and one refresh token, in a
/// member whose name is that of the token's role.
pub trait TokenInfo: Sized + Copy {
    /// The role of the tokens that say this.
    spec fn kind() -> TokenKind;

    /// The account.
    spec fn account(self) -> AccountID;

    /// The refresh token: the token itself, or the one it was issued with.
    spec fn token_ref(self) -> RefreshTokenID;

    /// What a token of this role says of the two.
    spec fn made_of(account: AccountID, token_ref: RefreshTokenID) -> Self;

    /// Nothing but the two is said.
    proof fn lemma_made_of(account: AccountID, token_ref: RefreshTokenID)
        ensures
            Self::made_of(account, token_ref).account() == account,
            Self::made_of(account, token_ref).token_ref() == token_ref,
    ;

    proof fn lemma_made_of_parts(self)
        ensures
            Self::made_of(self.account(), self.token_ref()) == self,
    ;

    fn token_kind() -> (kind: TokenKind)
        ensures
            kind == Self::kind(),
    ;

    fn parts(&self) -> (parts: (AccountID, RefreshTokenID))
        ensures
            parts.0 == self.account(),
            parts.1 == self.token_ref(),
    ;

    fn make(account: AccountID, token_ref: RefreshTokenID) -> (info: Self)
        ensures
            info == Self::made_of(account, token_ref),
    ;
}

impl TokenInfo for AccessTokenInfo {
    open spec fn kind() -> TokenKind {
        TokenKind::Access
    }

    open spec fn account(self) -> AccountID {
        self.account_id
    }

    open spec fn token_ref(self) -> RefreshTokenID {
        self.token_origin
    }

    open spec fn made_of(account: AccountID, token_ref: RefreshTokenID) -> Self {
        AccessTokenInfo { account_id: account, token_origin: token_ref }
    }

    proof fn lemma_made_of(account: AccountID, token_ref: RefreshTokenID) {
    }

    proof fn lemma_made_of_parts(self) {
    }

    fn token_kind() -> (kind: TokenKind) {
        TokenKind::Access
    }

    fn parts(&self) -> (parts: (AccountID, RefreshTokenID)) {
        (self.account_id, self.token_origin)
    }

    fn make(account: AccountID, token_ref: RefreshTokenID) -> (info: Self) {
        AccessTokenInfo { account_id: account, token_origin: token_ref }
    }
}

impl TokenInfo for RefreshTokenInfo {
    open spec fn kind() -> TokenKind {
        TokenKind::Refresh
    }

    open spec fn account(self) -> AccountID {
        self.account_id
    }

    open spec fn token_ref(self) -> RefreshTokenID {
        self.token_id
    }

    open spec fn made_of(account: AccountID, token_ref: RefreshTokenID) -> Self {
        RefreshTokenInfo { account_id: account, token_id: token_ref }
    }

    proof fn lemma_made_of(account: AccountID, token_ref: RefreshTokenID) {
    }

    proof fn lemma_made_of_parts(self) {
    }

    fn token_kind() -> (kind: TokenKind) {
        TokenKind::Refresh
    }

    fn parts(&self) -> (parts: (AccountID, RefreshTokenID)) {
        (self.account_id, self.token_id)
    }

    fn make(account: AccountID, token_ref: RefreshTokenID) -> (info: Self) {
        RefreshTokenInfo { account_id: account, token_id: token_ref }
    }
}

/// What the payload of a token holds for a claim.
pub open spec fn claim_parts<T: TokenInfo>(claim: ApplicationClaimView<T>) -> ClaimParts {
    ClaimParts {
        account: claim.inner.account().0,
        token_ref: claim.inner.token_ref().0,
        registered: claim.registered,
    }
}

/// The claim that the parts of a payload stand for.
pub open spec fn parts_claim<T: TokenInfo>(parts: ClaimParts) -> ApplicationClaimView<T> {
    ApplicationClaimView {
        inner: T::made_of(AccountID(parts.account), RefreshTokenID(parts.token_ref)),
        registered: parts.registered,
    }
}

/// The claim that the text `text` says as a token signed under `secret`, if
/// it is a token that says a claim of the role of `T`: a text of three
/// segments whose header names HS256, whose signature the key takes, and
/// whose payload is a JSON object that holds the members of such a claim.
pub open spec fn claim_in<T: TokenInfo>(secret: Seq<char>, text: Seq<char>) -> Option<
    ApplicationClaimView<T>,
> {
    match jwt_verified(secret, text) {
        Some(members) => match parts_of(T::kind(), members) {
            Some(parts) => Some(parts_claim::<T>(parts)),
            None => None,
        },
        None => None,
    }
}

/// Whether the text `text` is a token that says `claim` and is signed under
/// `secret`.
pub open spec fn is_token_for<T: TokenInfo>(
    secret: Seq<char>,
    text: Seq<char>,
    claim: ApplicationClaimView<T>,
) -> bool {
    claim_in::<T>(secret, text) == Some(claim)
}

/// The text of the token that is written for `claim` under `secret`.
pub open spec fn token_text<T: TokenInfo>(
    secret: Seq<char>,
    claim: ApplicationClaimView<T>,
) -> Seq<char> {
    jwt_signed(secret, members_of(T::kind(), claim_parts(claim)))
}

/// Whether the text `text` is the token that was written for `claim` under
/// `secret`: it is that text, the key reads it back, what is read holds
/// under every name what was written, and the two identifiers are read back
/// from their texts.
pub open spec fn issued_for<T: TokenInfo>(
    secret: Seq<char>,
    text: Seq<char>,
    claim: ApplicationClaimView<T>,
) -> bool {
    &&& text == token_text(secret, claim)
    &&& jwt_verified(secret, text) is Some
    &&& forall|name: Seq<char>| #[trigger]
        member_at(jwt_verified(secret, text)->0, name) == member_at(
            members_of(T::kind(), claim_parts(claim)),
            name,
        )
    &&& uuid_parsed(id_text(claim_parts(claim).account)) == Some(claim_parts(claim).account)
    &&& uuid_parsed(id_text(claim_parts(claim).token_ref)) == Some(claim_parts(claim).token_ref)
}

/// What authenticating the text `text` at `now` gives: the claim it says,
/// `InvalidToken` where it is no token for a claim of the role of `T` signed
/// under `secret`, and `TokenExpired` where it is one whose expiration is
/// not after `now`.
pub open spec fn authenticated<T: TokenInfo>(
    secret: Seq<char>,
    text: Seq<char>,
    now: SecondsSinceEpoch,
) -> Result<ApplicationClaimView<T>, APIErrorView> {
    match claim_in::<T>(secret, text) {
        Some(claim) => if claim.registered.expiration <= now {
            Err(APIErrorView::TokenExpired)
        } else {
            Ok(claim)
        },
        None => Err(APIErrorView::InvalidToken),
    }
}

/// The result of an operation as values.
pub open spec fn claim_result_view<T>(res: Result<ApplicationClaim<T>, APIError>) -> Result<
    ApplicationClaimView<T>,
    APIErrorView,
> {
    match res {
        Ok(claim) => Ok(claim@),
        Err(e) => Err(e@),
    }
}

/// Round trip: the token that was written for a claim is read back as that
/// claim.
pub proof fn lemma_verify_sign<T: TokenInfo>(
    secret: Seq<char>,
    text: Seq<char>,
    claim: ApplicationClaimView<T>,
)
    requires
        issued_for(secret, text, claim),
    ensures
        claim_in::<T>(secret, text) == Some(claim),
        is_token_for(secret, text, claim),
{
    lemma_parts_of_members(T::kind(), claim_parts(claim), jwt_verified(secret, text)->0);
    claim.inner.lemma_made_of_parts();
}

/// Signs a claim under `secret`. The token that comes back is the one that
/// is written for `claim` under `secret`; it is read back as `claim`.
pub fn sign_claim<T: TokenInfo>(claim: &ApplicationClaim<T>, secret: &str) -> (token: String)
    ensures
        token@ == token_text(secret@, claim@),
        issued_for(secret@, token@, claim@),
        is_token_for(secret@, token@, claim@),
{
    let (account, token_ref) = claim.inner.parts();
    let members = claim_members(T::token_kind(), account.0, token_ref.0, &claim.registered);
    proof {
        crate::token::members::lemma_members_of(T::kind(), claim_parts(claim@));
    }
    let token = match jwt_sign(secret, members) {
        Some(token) => token,
        None => {
            proof {
                assert(false);
            }
            String::new()
        },
    };
    proof {
        lemma_verify_sign(secret@, token@, claim@);
    }
    token
}

/// Reads the claim that a token says: `InvalidToken` where the text is no
/// token for a claim of the role of `T` signed under `secret`.
pub fn verify_claim<T: TokenInfo>(token: &str, secret: &str) -> (res: Result<
    ApplicationClaim<T>,
    APIError,
>)
    ensures
        claim_result_view(res) == match claim_in::<T>(secret@, token@) {
            Some(claim) => Ok(claim),
            None => Err(APIErrorView::InvalidToken),
        },
{
    let members = match jwt_verify(secret, token) {
        Some(members) => members,
        None => {
            return Err(APIError::InvalidToken);
        },
    };
    match read_members(T::token_kind(), &members) {
        Some((account, token_ref, registered)) => Ok(
            ApplicationClaim {
                inner: T::make(AccountID(account), RefreshTokenID(token_ref)),
                registered,
            },
        ),
        None => Err(APIError::InvalidToken),
    }
}

/// The error for a token that would expire at a moment there is no date
/// for.
pub open spec fn no_date_error() -> APIErrorView {
    APIErrorView::InternalError { message: InvalidDuration::message_text() }
}

/// Whether `res` is what issuing a token at `now` gives, for a claim that
/// says `info` and holds for `validity` seconds: the text of the token that
/// is written for that claim under `secret`, which is read back as that
/// claim; or, exactly where there is no date for the moment the token would
/// expire at, an internal error with the message of `InvalidDuration`.
pub open spec fn token_issued<T: TokenInfo>(
    secret: Seq<char>,
    info: T,
    validity: i64,
    now: SecondsSinceEpoch,
    res: Result<Seq<char>, APIErrorView>,
) -> bool {
    let claim = ApplicationClaimView {
        inner: info,
        registered: RegisteredClaimsView::issued(now, validity),
    };
    match res {
        Ok(text) => is_date_moment(now + validity) && text == token_text(secret, claim)
            && issued_for(secret, text, claim) && is_token_for(secret, text, claim),
        Err(e) => !is_date_moment(now + validity) && e == no_date_error(),
    }
}

/// A kind of token: which claim it says, how long it holds, and the text
/// it is.
pub trait ApplicationToken: Sized {
    /// What a token of this kind says of its own.
    type Claim: TokenInfo;

    /// The text of the token.
    spec fn text(&self) -> Seq<char>;

    /// For how many seconds a token of this kind holds.
    spec fn validity() -> i64;

    fn valid_for() -> (seconds: i64)
        ensures
            seconds == Self::validity(),
    ;

    fn str_ref(&self) -> (s: &str)
        ensures
            s@ == self.text(),
    ;

    /// The token that is the given text.
    fn from_text(text: String) -> (token: Self)
        ensures
            token.text() == text@,
    ;

    /// Issues a token at `now` that says `info`, made at `now` and holding
    /// for the validity of its kind. It fails exactly where there is no
    /// date for the moment the token would expire at; the error is then an
    /// internal one with the message of `InvalidDuration`.
    fn generate_token_at(info: Self::Claim, secret: &str, now: SecondsSinceEpoch) -> (res: Result<
        Self,
        APIError,
    >)
        ensures
            token_issued(
                secret@,
                info,
                Self::validity(),
                now,
                match res {
                    Ok(token) => Ok(token.text()),
                    Err(e) => Err(e@),
                },
            ),
    {
        let claim = match ApplicationClaim::issued_at(info, Self::valid_for(), now) {
            Ok(claim) => claim,
            Err(error) => {
                return Err(APIError::from_invalid_duration(error));
            },
        };
        Ok(Self::from_text(sign_claim(&claim, secret)))
    }

    /// Issues a token at the present moment that says `info`: what issuing
    /// the token gives at some moment that the clock can give.
    fn generate_token(info: Self::Claim, secret: &str) -> (res: Result<Self, APIError>)
        ensures
            exists|now: SecondsSinceEpoch|
                #[trigger] is_clock_moment(now) && token_issued(
                    secret@,
                    info,
                    Self::validity(),
                    now,
                    match res {
                        Ok(token) => Ok(token.text()),
                        Err(e) => Err(e@),
                    },
                ),
    {
        let now = current_timestamp();
        Self::generate_token_at(info, secret, now)
    }

    /// Authenticates the token at `now`: the claim it says, `InvalidToken`
    /// where it is no token of this kind signed under `secret`, and
    /// `TokenExpired` where it is one whose expiration is not after `now`.
    fn authenticate_claim_at(&self, secret: &str, now: SecondsSinceEpoch) -> (res: Result<
        ApplicationClaim<Self::Claim>,
        APIError,
    >)
        ensures
            claim_result_view(res) == authenticated::<Self::Claim>(secret@, self.text(), now),
    {
        let claim = match verify_claim::<Self::Claim>(self.str_ref(), secret) {
            Ok(claim) => claim,
            Err(e) => {
                return Err(e);
            },
        };
        if claim.registered.expiration <= now {
            return Err(APIError::TokenExpired);
        }
        Ok(claim)
    }

    /// Authenticates the token at the present moment: what authenticating
    /// it gives at some moment that the clock can give. So what is no token
    /// of this kind signed under `secret` gives `InvalidToken`, and a token
    /// that expires after the last moment of the clock gives its claim.
    fn authenticate_claim(&self, secret: &str) -> (res: Result<
        ApplicationClaim<Self::Claim>,
        APIError,
    >)
        ensures
            exists|now: SecondsSinceEpoch|
                is_clock_moment(now) && claim_result_view(res) == #[trigger] authenticated::<
                    Self::Claim,
                >(secret@, self.text(), now),
    {
        let now = current_timestamp();
        self.authenticate_claim_at(secret, now)
    }
}

/// A short-lived token that opens the service to its bearer.
#[derive(Debug, Clone, PartialEq, Eq)]
pub struct AccessToken(String);

/// A long-lived token that new tokens are issued for.
#[derive(Debug, Clone, PartialEq, Eq)]
pub struct RefreshToken(String);

/// Seconds for which an access token holds: five minutes.
pub const ACCESS_VALIDITY: i64 = 300;

/// Seconds for which a refresh token holds: fourteen days.
pub const REFRESH_VALIDITY: i64 = 1209600;

impl ApplicationToken for AccessToken {
    type Claim = AccessTokenInfo;

    closed spec fn text(&self) -> Seq<char> {
        self.0@
    }

    open spec fn validity() -> i64 {
        ACCESS_VALIDITY
    }

    fn valid_for() -> (seconds: i64) {
        ACCESS_VALIDITY
    }

    fn str_ref(&self) -> (s: &str) {
        let s = self.0.as_str();
        assert(s@ == self.text());
        s
    }

    fn from_text(text: String) -> (token: Self) {
        let token = AccessToken(text);
        assert(token.text() == text@);
        token
    }
}

impl ApplicationToken for RefreshToken {
    type Claim = RefreshTokenInfo;

    closed spec fn text(&self) -> Seq<char> {
        self.0@
    }

    open spec fn validity() -> i64 {
        REFRESH_VALIDITY
    }

    fn valid_for() -> (seconds: i64) {
        REFRESH_VALIDITY
    }

    fn str_ref(&self) -> (s: &str) {
        let s = self.0.as_str();
        assert(s@ == self.text());
        s
    }

    fn from_text(text: String) -> (token: Self) {
        let token = RefreshToken(text);
        assert(token.text() == text@);
        token
    }
}

impl vstd::std_specs::convert::FromSpecImpl<String> for AccessToken {
    open spec fn obeys_from_spec() -> bool {
        true
    }

    closed spec fn from_spec(text: String) -> AccessToken {
        AccessToken(text)
    }
}

impl From<String> for AccessToken {
    /// The token that is the given text.
    fn from(text: String) -> (token: AccessToken)
        ensures
            token.text() == text@,
    {
        AccessToken(text)
    }
}

impl vstd::std_specs::convert::FromSpecImpl<String> for RefreshToken {
    open spec fn obeys_from_spec() -> bool {
        true
    }

    closed spec fn from_spec(text: String) -> RefreshToken {
        RefreshToken(text)
    }
}

impl From<String> for RefreshToken {
    /// The token that is the given text.
    fn from(text: String) -> (token: RefreshToken)
        ensures
            token.text() == text@,
    {
        RefreshToken(text)
    }
}

/// The claim of the access token of a pair issued at `now`.
pub open spec fn access_claim_at(
    account_id: AccountID,
    token_id: RefreshTokenID,
    now: SecondsSinceEpoch,
) -> ApplicationClaimView<AccessTokenInfo> {
    ApplicationClaimView {
        inner: AccessTokenInfo { account_id, token_origin: token_id },
        registered: RegisteredClaimsView::issued(now, ACCESS_VALIDITY),
    }
}

/// The claim of the refresh token of a pair issued at `now`.
pub open spec fn refresh_claim_at(
    account_id: AccountID,
    token_id: RefreshTokenID,
    now: SecondsSinceEpoch,
) -> ApplicationClaimView<RefreshTokenInfo> {
    ApplicationClaimView {
        inner: RefreshTokenInfo { account_id, token_id },
        registered: RegisteredClaimsView::issued(now, REFRESH_VALIDITY),
    }
}

/// Whether `res` is what issuing a pair of tokens gives at `now`, for an
/// account and a refresh token identifier: the texts of the access token and
/// of the refresh token, each the token that is written for its claim under
/// `secret` and read back as that claim; or, exactly where there is no date
/// for the moment one of the two would expire at, an internal error with
/// the message of `InvalidDuration`.
pub open spec fn pair_issued(
    secret: Seq<char>,
    account_id: AccountID,
    token_id: RefreshTokenID,
    now: SecondsSinceEpoch,
    res: Result<(Seq<char>, Seq<char>), APIErrorView>,
) -> bool {
    let dated = is_date_moment(now + ACCESS_VALIDITY) && is_date_moment(now + REFRESH_VALIDITY);
    match res {
        Ok((access, refresh)) => dated && token_issued(
            secret,
            AccessTokenInfo { account_id, token_origin: token_id },
            ACCESS_VALIDITY,
            now,
            Ok(access),
        ) && token_issued(
            secret,
            RefreshTokenInfo { account_id, token_id },
            REFRESH_VALIDITY,
            now,
            Ok(refresh),
        ),
        Err(e) => !dated && e == no_date_error(),
    }
}

/// The result of issuing a pair as a value.
pub open spec fn pair_view(res: Result<(AccessToken, RefreshToken), APIError>) -> Result<
    (Seq<char>, Seq<char>),
    APIErrorView,
> {
    match res {
        Ok((access, refresh)) => Ok((access.text(), refresh.text())),
        Err(e) => Err(e@),
    }
}

/// Issues a pair of tokens for an account at `now`: a refresh token with
/// the identifier `token_id`, and an access token that names that refresh
/// token as its origin. Both are made at `now`. It fails exactly where there
/// is no date for the moment one of the two would expire at; the error is
/// then an internal one with the message of `InvalidDuration`.
pub fn generate_token_pair_at(
    account_id: AccountID,
    token_id: RefreshTokenID,
    secret: &str,
    now: SecondsSinceEpoch,
) -> (res: Result<(AccessToken, RefreshToken), APIError>)
    ensures
        pair_issued(secret@, account_id, token_id, now, pair_view(res)),
{
    let refresh = match RefreshToken::generate_token_at(
        RefreshTokenInfo { account_id, token_id },
        secret,
        now,
    ) {
        Ok(token) => token,
        Err(e) => {
            return Err(e);
        },
    };
    let access = match AccessToken::generate_token_at(
        AccessTokenInfo { account_id, token_origin: token_id },
        secret,
        now,
    ) {
        Ok(token) => token,
        Err(e) => {
            return Err(e);
        },
    };
    Ok((access, refresh))
}

/// Issues a pair of tokens for an account at the present moment, with a
/// refresh token identifier drawn at random: what issuing the pair gives at
/// some moment that the clock can give, for some identifier with the marks
/// of one drawn at random.
pub fn generate_token_pair(account_id: AccountID, secret: &str) -> (res: Result<
    (AccessToken, RefreshToken),
    APIError,
>)
    ensures
        exists|token_id: RefreshTokenID, now: SecondsSinceEpoch|
            is_random_identifier(token_id.0) && is_clock_moment(now) && #[trigger] pair_issued(
                secret@,
                account_id,
                token_id,
                now,
                pair_view(res),
            ),
{
    let token_id = RefreshTokenID(fresh_identifier());
    let now = current_timestamp();
    generate_token_pair_at(account_id, token_id, secret, now)
}

/// Authenticates an access token at `now`.
pub fn authenticate_claim_at(token: AccessToken, secret: &str, now: SecondsSinceEpoch) -> (res:
    Result<ApplicationClaim<AccessTokenInfo>, APIError>)
    ensures
        claim_result_view(res) == authenticated::<AccessTokenInfo>(secret@, token.text(), now),
{
    token.authenticate_claim_at(secret, now)
}

/// Authenticates an access token at the present moment: what
/// authenticating it gives at some moment that the clock can give. No store
/// of revoked tokens is asked: an access token holds until it expires.
pub fn authenticate_claim(token: AccessToken, secret: &str) -> (res: Result<
    ApplicationClaim<AccessTokenInfo>,
    APIError,
>)
    ensures
        exists|now: SecondsSinceEpoch|
            is_clock_moment(now) && claim_result_view(res) == #[trigger] authenticated::<
                AccessTokenInfo,
            >(secret@, token.text(), now),
{
    token.authenticate_claim(secret)
}

/// A pair issued for an account is authenticated as that account: the
/// access token written at `now` for the account, authenticated at `now`,
/// gives the claim it was issued with, and so the account unchanged.
pub proof fn lemma_issued_access_authenticates(
    secret: Seq<char>,
    access: Seq<char>,
    account_id: AccountID,
    token_id: RefreshTokenID,
    now: SecondsSinceEpoch,
)
    requires
        is_date_moment(now + ACCESS_VALIDITY),
        issued_for(secret, access, access_claim_at(account_id, token_id, now)),
    ensures
        authenticated::<AccessTokenInfo>(secret, access, now) == Ok::<
            ApplicationClaimView<AccessTokenInfo>,
            APIErrorView,
        >(access_claim_at(account_id, token_id, now)),
        authenticated::<AccessTokenInfo>(secret, access, now)->Ok_0.inner.account_id == account_id,
{
    lemma_verify_sign(secret, access, access_claim_at(account_id, token_id, now));
}

/// A token whose expiration is not after `now` is expired at `now`, and not
/// invalid: its signature and its shape are in order.
pub proof fn lemma_expired_not_invalid<T: TokenInfo>(
    secret: Seq<char>,
    text: Seq<char>,
    claim: ApplicationClaimView<T>,
    now: SecondsSinceEpoch,
)
    requires
        issued_for(secret, text, claim),
        claim.registered.expiration <= now,
    ensures
        authenticated::<T>(secret, text, now) == Err::<ApplicationClaimView<T>, APIErrorView>(
            APIErrorView::TokenExpired,
        ),
{
    lemma_verify_sign(secret, text, claim);
}

/// The two roles are never taken for one another: the token written for an
/// access claim is no token for any refresh claim, and the token written for
/// a refresh claim is no token for any access claim.
pub proof fn lemma_roles_apart(
    secret: Seq<char>,
    text: Seq<char>,
    access: ApplicationClaimView<AccessTokenInfo>,
    refresh: ApplicationClaimView<RefreshTokenInfo>,
)
    ensures
        issued_for(secret, text, access) ==> claim_in::<RefreshTokenInfo>(secret, text) is None,
        issued_for(secret, text, refresh) ==> claim_in::<AccessTokenInfo>(secret, text) is None,
{
    if issued_for(secret, text, access) {
        lemma_parts_of_members(
            TokenKind::Access,
            claim_parts(access),
            jwt_verified(secret, text)->0,
        );
    }
    if issued_for(secret, text, refresh) {
        lemma_parts_of_members(
            TokenKind::Refresh,
            claim_parts(refresh),
            jwt_verified(secret, text)->0,
        );
    }
}

} // verus!
