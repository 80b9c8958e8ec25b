//! Revocation: the markers that shadow a refresh token or an account in the
//! store of revoked tokens, and how a refresh token is checked against
//! them.

use vstd::prelude::*;
use vstd::utf8::encode_utf8;
use crate::encoding::bytes::{all_ascii, ascii_string, lit, push_lit};
use crate::encoding::identifier::{
    identifier_text, lemma_identifier_text_injective, lemma_identifier_text_len, push_identifier,
};
use crate::error::{APIError, APIErrorView};
use crate::model::account::{lemma_identifier_text_ascii, AccountID};
use crate::token::{
    authenticated, current_timestamp, is_clock_moment, ApplicationClaim, ApplicationClaimView,
    ApplicationToken, RefreshToken, RefreshTokenID, RefreshTokenInfo,
};
use crate::types::SecondsSinceEpoch;

verus! {

/// How the key of a marker for a refresh token begins.
pub const REVOKED_PREFIX: &'static str = "revoked_token:";

/// How the key of a marker for an account begins.
pub const DELETED_PREFIX: &'static str = "deleted_user:";

/// The colon between the two identifiers of a key.
pub const COLON: u8 = 58;

/// The value of a marker.
pub const MARKED: u8 = 1;

/// The key of the marker for a refresh token of an account.
pub open spec fn revoked_key(account_id: AccountID, token_id: RefreshTokenID) -> Seq<u8> {
    lit(REVOKED_PREFIX) + (identifier_text(account_id.0) + (seq![COLON] + identifier_text(
        token_id.0,
    )))
}

/// The key of the marker for an account that is gone.
pub open spec fn deleted_key(account_id: AccountID) -> Seq<u8> {
    lit(DELETED_PREFIX) + identifier_text(account_id.0)
}

/// What the two prefixes hold.
pub proof fn lemma_prefixes()
    ensures
        lit(REVOKED_PREFIX).len() == 14,
        lit(DELETED_PREFIX).len() == 13,
        lit(REVOKED_PREFIX)[0] == 114,
        lit(DELETED_PREFIX)[0] == 100,
        all_ascii(lit(REVOKED_PREFIX)),
        all_ascii(lit(DELETED_PREFIX)),
{
    reveal_strlit("revoked_token:");
    reveal_strlit("deleted_user:");
    assert(vstd::utf8::is_ascii_chars(REVOKED_PREFIX@));
    assert(vstd::utf8::is_ascii_chars(DELETED_PREFIX@));
    vstd::utf8::is_ascii_chars_encode_utf8(REVOKED_PREFIX@);
    vstd::utf8::is_ascii_chars_encode_utf8(DELETED_PREFIX@);
    assert forall|i: int| 0 <= i < lit(REVOKED_PREFIX).len() implies #[trigger] lit(
        REVOKED_PREFIX,
    )[i] < 128 by {
        assert(REVOKED_PREFIX@[i] as u8 == lit(REVOKED_PREFIX)[i]);
    }
    assert forall|i: int| 0 <= i < lit(DELETED_PREFIX).len() implies #[trigger] lit(
        DELETED_PREFIX,
    )[i] < 128 by {
        assert(DELETED_PREFIX@[i] as u8 == lit(DELETED_PREFIX)[i]);
    }
}

/// Different refresh tokens, or different accounts, have different keys;
/// and no key for a refresh token is a key for an account.
pub proof fn lemma_keys_apart(
    account_id: AccountID,
    token_id: RefreshTokenID,
    other_account: AccountID,
    other_token: RefreshTokenID,
)
    ensures
        revoked_key(account_id, token_id) == revoked_key(other_account, other_token) ==> account_id
            == other_account && token_id == other_token,
        deleted_key(account_id) == deleted_key(other_account) ==> account_id == other_account,
        revoked_key(account_id, token_id) != deleted_key(other_account),
{
    lemma_prefixes();
    lemma_identifier_text_len(account_id.0);
    lemma_identifier_text_len(token_id.0);
    lemma_identifier_text_len(other_account.0);
    lemma_identifier_text_len(other_token.0);
    let k1 = revoked_key(account_id, token_id);
    let k2 = revoked_key(other_account, other_token);
    if k1 == k2 {
        assert(k1.subrange(14, 50) =~= identifier_text(account_id.0));
        assert(k2.subrange(14, 50) =~= identifier_text(other_account.0));
        assert(k1.subrange(51, 87) =~= identifier_text(token_id.0));
        assert(k2.subrange(51, 87) =~= identifier_text(other_token.0));
        lemma_identifier_text_injective(account_id.0, other_account.0);
        lemma_identifier_text_injective(token_id.0, other_token.0);
    }
    let d1 = deleted_key(account_id);
    let d2 = deleted_key(other_account);
    if d1 == d2 {
        assert(d1.subrange(13, 49) =~= identifier_text(account_id.0));
        assert(d2.subrange(13, 49) =~= identifier_text(other_account.0));
        lemma_identifier_text_injective(account_id.0, other_account.0);
    }
    assert(k1[0] == 114);
    assert(d2[0] == 100);
}

/// The key of the marker for a refresh token of an account.
pub fn revoked_token_key(account_id: AccountID, token_id: RefreshTokenID) -> (key: String)
    ensures
        encode_utf8(key@) == revoked_key(account_id, token_id),
{
    let mut out: Vec<u8> = Vec::new();
    push_lit(&mut out, REVOKED_PREFIX);
    push_identifier(&mut out, account_id.0);
    out.push(COLON);
    push_identifier(&mut out, token_id.0);
    proof {
        lemma_prefixes();
        lemma_identifier_text_ascii(account_id.0);
        lemma_identifier_text_ascii(token_id.0);
        lemma_identifier_text_len(account_id.0);
        lemma_identifier_text_len(token_id.0);
        let key = revoked_key(account_id, token_id);
        assert(out@ =~= key);
        assert forall|i: int| 0 <= i < key.len() implies #[trigger] key[i] < 128 by {
            if i < 14 {
                assert(key[i] == lit(REVOKED_PREFIX)[i]);
            } else if i < 50 {
                assert(key[i] == identifier_text(account_id.0)[i - 14]);
            } else if i == 50 {
            } else {
                assert(key[i] == identifier_text(token_id.0)[i - 51]);
            }
        }
    }
    ascii_string(out)
}

/// The key of the marker for an account that is gone.
pub fn deleted_user_key(account_id: AccountID) -> (key: String)
    ensures
        encode_utf8(key@) == deleted_key(account_id),
{
    let mut out: Vec<u8> = Vec::new();
    push_lit(&mut out, DELETED_PREFIX);
    push_identifier(&mut out, account_id.0);
    proof {
        lemma_prefixes();
        lemma_identifier_text_ascii(account_id.0);
        lemma_identifier_text_len(account_id.0);
        let key = deleted_key(account_id);
        assert(out@ =~= key);
        assert forall|i: int| 0 <= i < key.len() implies #[trigger] key[i] < 128 by {
            if i < 13 {
                assert(key[i] == lit(DELETED_PREFIX)[i]);
            } else {
                assert(key[i] == identifier_text(account_id.0)[i - 13]);
            }
        }
    }
    ascii_string(out)
}

/// A marker to be written to the store: under `key`, the value `value`, to
/// be forgotten `ttl` seconds after it is written.
#[derive(Debug, Clone)]
pub struct RevocationMarker {
    pub key: String,
    pub value: u8,
    pub ttl: u64,
}

/// A `RevocationMarker` as a value.
pub struct RevocationMarkerView {
    pub key: Seq<u8>,
    pub value: u8,
    pub ttl: u64,
}

impl View for RevocationMarker {
    type V = RevocationMarkerView;

    open spec fn view(&self) -> RevocationMarkerView {
        RevocationMarkerView { key: encode_utf8(self.key@), value: self.value, ttl: self.ttl }
    }
}

/// The marker that revokes a refresh token of an account at `now`: none for
/// a token that has expired by then, and otherwise one that lasts until the
/// token expires.
pub open spec fn revocation_of(
    account_id: AccountID,
    claim: ApplicationClaimView<RefreshTokenInfo>,
    now: SecondsSinceEpoch,
) -> Option<RevocationMarkerView> {
    if claim.registered.expiration - now <= 0 {
        None
    } else {
        Some(
            RevocationMarkerView {
                key: revoked_key(account_id, claim.inner.token_id),
                value: MARKED,
                ttl: (claim.registered.expiration - now) as u64,
            },
        )
    }
}

/// The marker view of a marker that may be missing.
pub open spec fn marker_view(marker: Option<RevocationMarker>) -> Option<RevocationMarkerView> {
    match marker {
        Some(m) => Some(m@),
        None => None,
    }
}

/// Revokes a refresh token of an account at `now`: the marker to write, or
/// none where the token has expired by then and needs none.
pub fn revoke_at(
    account_id: AccountID,
    claim: &ApplicationClaim<RefreshTokenInfo>,
    now: SecondsSinceEpoch,
) -> (marker: Option<RevocationMarker>)
    ensures
        marker_view(marker) == revocation_of(account_id, claim@, now),
{
    let expiration = claim.registered.expiration;
    if expiration <= now {
        return None;
    }
    let ttl: u64 = if now >= 0 {
        (expiration - now) as u64
    } else if expiration < 0 {
        (expiration - now) as u64
    } else {
        let past: u64 = if now == i64::MIN {
            9223372036854775808u64
        } else {
            (-now) as u64
        };
        expiration as u64 + past
    };
    Some(
        RevocationMarker {
            key: revoked_token_key(account_id, claim.inner.token_id),
            value: MARKED,
            ttl,
        },
    )
}

/// Revokes a refresh token of an account at the present moment: the marker
/// that revoking it gives at some moment that the clock can give. So there
/// always is a marker for a token that expires after the last moment of the
/// clock.
pub fn revoke(account_id: AccountID, claim: &ApplicationClaim<RefreshTokenInfo>) -> (marker: Option<
    RevocationMarker,
>)
    ensures
        exists|now: SecondsSinceEpoch|
            is_clock_moment(now) && marker_view(marker) == #[trigger] revocation_of(
                account_id,
                claim@,
                now,
            ),
{
    let now = crate::token::current_timestamp();
    revoke_at(account_id, claim, now)
}

/// What the check of a refresh token asks the store next.
#[derive(Debug, Clone, Copy, PartialEq, Eq, Structural)]
pub enum MarkerQuestion {
    /// Is the refresh token marked as revoked?
    TokenRevoked,
    /// Is the account marked as gone?
    AccountDeleted,
}

/// What the store says to a question: the value under the key, if there is
/// one, or that it failed, and how.
#[derive(Debug, Clone)]
pub enum MarkerAnswer {
    Found(Option<u8>),
    Failed(String),
}

/// A `MarkerAnswer` as a value.
pub enum MarkerAnswerView {
    Found(Option<u8>),
    Failed(Seq<char>),
}

impl View for MarkerAnswer {
    type V = MarkerAnswerView;

    open spec fn view(&self) -> MarkerAnswerView {
        match self {
            MarkerAnswer::Found(value) => MarkerAnswerView::Found(*value),
            MarkerAnswer::Failed(text) => MarkerAnswerView::Failed(text@),
        }
    }
}

/// Where the check of a refresh token stands.
#[derive(Debug)]
pub enum RefreshCheck {
    /// The question is open; `key` is the key to look under.
    Asking { question: MarkerQuestion, key: String },
    /// No marker shadows the token: new tokens may be issued for it.
    Accepted,
    /// The check ended with this error.
    Rejected(APIError),
}

/// A `RefreshCheck` as a value.
pub enum RefreshCheckView {
    Asking { question: MarkerQuestion, key: Seq<u8> },
    Accepted,
    Rejected(APIErrorView),
}

impl View for RefreshCheck {
    type V = RefreshCheckView;

    open spec fn view(&self) -> RefreshCheckView {
        match self {
            RefreshCheck::Asking { question, key } => RefreshCheckView::Asking {
                question: *question,
                key: encode_utf8(key@),
            },
            RefreshCheck::Accepted => RefreshCheckView::Accepted,
            RefreshCheck::Rejected(e) => RefreshCheckView::Rejected(e@),
        }
    }
}

/// The key that a question about a claim is looked up under.
pub open spec fn question_key(
    question: MarkerQuestion,
    claim: ApplicationClaimView<RefreshTokenInfo>,
) -> Seq<u8> {
    match question {
        MarkerQuestion::TokenRevoked => revoked_key(claim.inner.account_id, claim.inner.token_id),
        MarkerQuestion::AccountDeleted => deleted_key(claim.inner.account_id),
    }
}

/// How the check begins: by asking for the marker of the token.
pub open spec fn first_check(claim: ApplicationClaimView<RefreshTokenInfo>) -> RefreshCheckView {
    RefreshCheckView::Asking {
        question: MarkerQuestion::TokenRevoked,
        key: question_key(MarkerQuestion::TokenRevoked, claim),
    }
}

/// How the check goes on when the store has answered the open question. A
/// marker, for the token or for the account, ends it with `TokenRevoked`.
/// Without a marker for the token the account is asked for, and without one
/// for the account the token is accepted. A failure of the store ends it
/// with an internal error that holds the store's text.
pub open spec fn next_check(
    claim: ApplicationClaimView<RefreshTokenInfo>,
    question: MarkerQuestion,
    answer: MarkerAnswerView,
) -> RefreshCheckView {
    match answer {
        MarkerAnswerView::Failed(text) => RefreshCheckView::Rejected(
            APIErrorView::InternalError { message: text },
        ),
        MarkerAnswerView::Found(value) => if value == Some(MARKED) {
            RefreshCheckView::Rejected(APIErrorView::TokenRevoked)
        } else {
            match question {
                MarkerQuestion::TokenRevoked => RefreshCheckView::Asking {
                    question: MarkerQuestion::AccountDeleted,
                    key: question_key(MarkerQuestion::AccountDeleted, claim),
                },
                MarkerQuestion::AccountDeleted => RefreshCheckView::Accepted,
            }
        },
    }
}

/// How a refresh begins at `now`: the refresh token is authenticated, and
/// only for one that is in order the store is asked. The result is the
/// error of authenticating the token, or its claim and the first question.
pub open spec fn refresh_begun(secret: Seq<char>, text: Seq<char>, now: SecondsSinceEpoch) -> Result<
    (ApplicationClaimView<RefreshTokenInfo>, RefreshCheckView),
    APIErrorView,
> {
    match authenticated::<RefreshTokenInfo>(secret, text, now) {
        Ok(claim) => Ok((claim, first_check(claim))),
        Err(e) => Err(e),
    }
}

/// The result of beginning a refresh as a value.
pub open spec fn begun_view(res: Result<(ApplicationClaim<RefreshTokenInfo>, RefreshCheck), APIError>) -> Result<
    (ApplicationClaimView<RefreshTokenInfo>, RefreshCheckView),
    APIErrorView,
> {
    match res {
        Ok((claim, check)) => Ok((claim@, check@)),
        Err(e) => Err(e@),
    }
}

/// Begins a refresh at `now`.
pub fn begin_refresh_at(token: &RefreshToken, secret: &str, now: SecondsSinceEpoch) -> (res: Result<
    (ApplicationClaim<RefreshTokenInfo>, RefreshCheck),
    APIError,
>)
    ensures
        begun_view(res) == refresh_begun(secret@, token.text(), now),
{
    match token.authenticate_claim_at(secret, now) {
        Ok(claim) => {
            let check = begin_refresh_check(&claim);
            Ok((claim, check))
        },
        Err(e) => Err(e),
    }
}

/// Begins a refresh at the present moment.
pub fn begin_refresh(token: &RefreshToken, secret: &str) -> (res: Result<
    (ApplicationClaim<RefreshTokenInfo>, RefreshCheck),
    APIError,
>)
    ensures
        exists|now: SecondsSinceEpoch|
            is_clock_moment(now) && begun_view(res) == #[trigger] refresh_begun(
                secret@,
                token.text(),
                now,
            ),
{
    let now = current_timestamp();
    begin_refresh_at(token, secret, now)
}

/// How the check of an authenticated refresh token begins.
pub fn begin_refresh_check(claim: &ApplicationClaim<RefreshTokenInfo>) -> (check: RefreshCheck)
    ensures
        check@ == first_check(claim@),
{
    RefreshCheck::Asking {
        question: MarkerQuestion::TokenRevoked,
        key: revoked_token_key(claim.inner.account_id, claim.inner.token_id),
    }
}

/// How the check goes on when the store has answered the open question.
pub fn refresh_check_step(
    claim: &ApplicationClaim<RefreshTokenInfo>,
    question: MarkerQuestion,
    answer: MarkerAnswer,
) -> (check: RefreshCheck)
    ensures
        check@ == next_check(claim@, question, answer@),
{
    match answer {
        MarkerAnswer::Failed(text) => RefreshCheck::Rejected(
            APIError::InternalError { message: text },
        ),
        MarkerAnswer::Found(value) => {
            let marked = match value {
                Some(v) => v == MARKED,
                None => false,
            };
            if marked {
                RefreshCheck::Rejected(APIError::TokenRevoked)
            } else {
                match question {
                    MarkerQuestion::TokenRevoked => RefreshCheck::Asking {
                        question: MarkerQuestion::AccountDeleted,
                        key: deleted_user_key(claim.inner.account_id),
                    },
                    MarkerQuestion::AccountDeleted => RefreshCheck::Accepted,
                }
            }
        },
    }
}

/// What the store of revoked tokens holds: under each key a value, and the
/// moment from which the key is forgotten.
pub struct MarkerStore {
    pub entries: Map<Seq<u8>, (u8, int)>,
}

impl MarkerStore {
    /// What the store holds under `key` at `now`.
    pub open spec fn get(self, key: Seq<u8>, now: SecondsSinceEpoch) -> Option<u8> {
        if self.entries.contains_key(key) && now < self.entries[key].1 {
            Some(self.entries[key].0)
        } else {
            None
        }
    }

    /// The store after `marker` was written at `now`.
    pub open spec fn set(self, marker: RevocationMarkerView, now: SecondsSinceEpoch) -> MarkerStore {
        MarkerStore { entries: self.entries.insert(marker.key, (marker.value, now + marker.ttl)) }
    }

    /// The store after a marker that may be missing was written at `now`.
    pub open spec fn written(self, marker: Option<RevocationMarkerView>, now: SecondsSinceEpoch) -> MarkerStore {
        match marker {
            Some(m) => self.set(m, now),
            None => self,
        }
    }

    /// How the check of a claim ends against a store that does not fail, at
    /// `now`.
    pub open spec fn check(
        self,
        claim: ApplicationClaimView<RefreshTokenInfo>,
        now: SecondsSinceEpoch,
    ) -> RefreshCheckView {
        match next_check(
            claim,
            MarkerQuestion::TokenRevoked,
            MarkerAnswerView::Found(
                self.get(question_key(MarkerQuestion::TokenRevoked, claim), now),
            ),
        ) {
            RefreshCheckView::Asking { question, key } => next_check(
                claim,
                question,
                MarkerAnswerView::Found(self.get(key, now)),
            ),
            ended => ended,
        }
    }

    /// How a check that has begun ends against a store that does not fail,
    /// at `now`: every open question is answered with what the store holds
    /// under its key.
    pub open spec fn finish(
        self,
        claim: ApplicationClaimView<RefreshTokenInfo>,
        begun: RefreshCheckView,
        now: SecondsSinceEpoch,
    ) -> RefreshCheckView {
        match begun {
            RefreshCheckView::Asking { question, key } => match next_check(
                claim,
                question,
                MarkerAnswerView::Found(self.get(key, now)),
            ) {
                RefreshCheckView::Asking { question: second, key: second_key } => next_check(
                    claim,
                    second,
                    MarkerAnswerView::Found(self.get(second_key, now)),
                ),
                ended => ended,
            },
            ended => ended,
        }
    }

    /// What authenticating a refresh token against a store that does not
    /// fail gives at `now`: the refresh is begun, and the check is carried
    /// to its end. So it is the error of authenticating the token itself,
    /// `TokenRevoked` where a marker shadows the token or its account, and
    /// the claim otherwise.
    pub open spec fn authenticate_refresh(
        self,
        secret: Seq<char>,
        text: Seq<char>,
        now: SecondsSinceEpoch,
    ) -> Result<ApplicationClaimView<RefreshTokenInfo>, APIErrorView> {
        match refresh_begun(secret, text, now) {
            Err(e) => Err(e),
            Ok((claim, begun)) => match self.finish(claim, begun, now) {
                RefreshCheckView::Accepted => Ok(claim),
                RefreshCheckView::Rejected(e) => Err(e),
                RefreshCheckView::Asking { .. } => Err(APIErrorView::TokenRevoked),
            },
        }
    }
}

/// Carrying the check of a claim to its end is checking the claim from the
/// first question on.
pub proof fn lemma_finish_is_check(
    store: MarkerStore,
    claim: ApplicationClaimView<RefreshTokenInfo>,
    now: SecondsSinceEpoch,
)
    ensures
        store.finish(claim, first_check(claim), now) == store.check(claim, now),
{
}

/// A refresh token that is in order is accepted as long as no marker
/// shadows it or its account.
pub proof fn lemma_unmarked_is_accepted(
    store: MarkerStore,
    secret: Seq<char>,
    text: Seq<char>,
    claim: ApplicationClaimView<RefreshTokenInfo>,
    now: SecondsSinceEpoch,
)
    requires
        crate::token::is_token_for(secret, text, claim),
        now < claim.registered.expiration,
        store.get(revoked_key(claim.inner.account_id, claim.inner.token_id), now) != Some(MARKED),
        store.get(deleted_key(claim.inner.account_id), now) != Some(MARKED),
    ensures
        store.authenticate_refresh(secret, text, now) == Ok::<
            ApplicationClaimView<RefreshTokenInfo>,
            APIErrorView,
        >(claim),
{
}

/// Once a refresh token was revoked, it is rejected with `TokenRevoked` at
/// every moment from then until it expires, whatever else the store holds.
pub proof fn lemma_revoked_is_rejected(
    store: MarkerStore,
    secret: Seq<char>,
    text: Seq<char>,
    claim: ApplicationClaimView<RefreshTokenInfo>,
    revoked_at: SecondsSinceEpoch,
    now: SecondsSinceEpoch,
)
    requires
        crate::token::is_token_for(secret, text, claim),
        revoked_at <= now < claim.registered.expiration,
    ensures
        store.written(
            revocation_of(claim.inner.account_id, claim, revoked_at),
            revoked_at,
        ).authenticate_refresh(secret, text, now) == Err::<
            ApplicationClaimView<RefreshTokenInfo>,
            APIErrorView,
        >(APIErrorView::TokenRevoked),
{
}

/// Revoking one refresh token leaves every other refresh token as it was:
/// what the store holds under the keys of another token of the same or of
/// another account is what it held before.
pub proof fn lemma_revocation_is_local(
    store: MarkerStore,
    claim: ApplicationClaimView<RefreshTokenInfo>,
    other: ApplicationClaimView<RefreshTokenInfo>,
    revoked_at: SecondsSinceEpoch,
    now: SecondsSinceEpoch,
)
    requires
        other.inner.token_id != claim.inner.token_id || other.inner.account_id
            != claim.inner.account_id,
    ensures
        store.written(
            revocation_of(claim.inner.account_id, claim, revoked_at),
            revoked_at,
        ).check(other, now) == store.check(other, now),
{
    lemma_keys_apart(
        claim.inner.account_id,
        claim.inner.token_id,
        other.inner.account_id,
        other.inner.token_id,
    );
}

} // verus!
