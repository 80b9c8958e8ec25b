use schedule_auth::error::APIError;
use schedule_auth::model::account::AccountID;
use schedule_auth::routes::auth::{refresh, refresh_at};
use schedule_auth::token::revocation::{
    begin_refresh, begin_refresh_at, begin_refresh_check, deleted_user_key, refresh_check_step,
    revoke, revoke_at, revoked_token_key, MarkerAnswer, MarkerQuestion, RefreshCheck,
    RevocationMarker,
};
use schedule_auth::token::{
    generate_token_pair_at, ApplicationClaim, ApplicationToken, RefreshToken, RefreshTokenID,
    RefreshTokenInfo, RegisteredClaims,
};
use std::collections::HashMap;

const SECRET: &str = "some-secret";
const U1: AccountID = AccountID(0xa1a2a3a4_b1b2_c1c2_d1d2_d3d4d5d6d7d8);
const NOW: i64 = 1_600_000_000;

/// A store that forgets a key when its time is up.
struct Markers {
    entries: HashMap<String, (u8, i128)>,
}

impl Markers {
    fn new() -> Markers {
        Markers { entries: HashMap::new() }
    }

    fn write(&mut self, marker: Option<RevocationMarker>, now: i64) {
        if let Some(m) = marker {
            self.entries.insert(m.key, (m.value, now as i128 + m.ttl as i128));
        }
    }

    fn get(&self, key: &str, now: i64) -> Option<u8> {
        match self.entries.get(key) {
            Some((value, until)) if (now as i128) < *until => Some(*value),
            _ => None,
        }
    }
}

fn authenticate_refresh(
    store: &Markers,
    token: &RefreshToken,
    now: i64,
) -> Result<ApplicationClaim<RefreshTokenInfo>, APIError> {
    let (claim, mut check) = begin_refresh_at(token, SECRET, now)?;
    loop {
        match check {
            RefreshCheck::Asking { question, key } => {
                let answer = MarkerAnswer::Found(store.get(&key, now));
                check = refresh_check_step(&claim, question, answer);
            }
            RefreshCheck::Accepted => return Ok(claim),
            RefreshCheck::Rejected(e) => return Err(e),
        }
    }
}

fn claim(account: AccountID, token: u128, expiration: i64) -> ApplicationClaim<RefreshTokenInfo> {
    ApplicationClaim {
        inner: RefreshTokenInfo { account_id: account, token_id: RefreshTokenID(token) },
        registered: RegisteredClaims { expiration, ..RegisteredClaims::default() },
    }
}

#[test]
fn keys_have_the_expected_texts() {
    assert_eq!(
        revoked_token_key(U1, RefreshTokenID(1)),
        "revoked_token:a1a2a3a4-b1b2-c1c2-d1d2-d3d4d5d6d7d8:00000000-0000-0000-0000-000000000001"
    );
    assert_eq!(deleted_user_key(U1), "deleted_user:a1a2a3a4-b1b2-c1c2-d1d2-d3d4d5d6d7d8");
}

#[test]
fn marker_lasts_until_the_token_expires() {
    let marker = revoke_at(U1, &claim(U1, 1, NOW + 100), NOW).unwrap();
    assert_eq!(marker.key, revoked_token_key(U1, RefreshTokenID(1)));
    assert_eq!(marker.value, 1);
    assert_eq!(marker.ttl, 100);
    assert_eq!(revoke_at(U1, &claim(U1, 1, NOW + 1), NOW).unwrap().ttl, 1);
    assert_eq!(revoke_at(U1, &claim(U1, 1, i64::MAX), i64::MIN).unwrap().ttl, u64::MAX);
    assert_eq!(revoke_at(U1, &claim(U1, 1, i64::MAX), -1).unwrap().ttl, 1u64 << 63);
    assert_eq!(revoke_at(U1, &claim(U1, 1, -5), -10).unwrap().ttl, 5);
    assert_eq!(revoke_at(U1, &claim(U1, 1, 0), i64::MIN).unwrap().ttl, 1u64 << 63);
    let other = AccountID(9);
    assert_eq!(
        revoke_at(other, &claim(U1, 1, NOW + 100), NOW).unwrap().key,
        revoked_token_key(other, RefreshTokenID(1))
    );
}

#[test]
fn expired_token_needs_no_marker() {
    assert!(revoke_at(U1, &claim(U1, 1, NOW), NOW).is_none());
    assert!(revoke_at(U1, &claim(U1, 1, NOW - 1), NOW).is_none());
    assert!(revoke_at(U1, &claim(U1, 1, i64::MIN), i64::MAX).is_none());
    assert!(revoke(U1, &claim(U1, 1, 0)).is_none());
    let marker = revoke(U1, &claim(U1, 1, i64::MAX)).unwrap();
    assert!(marker.ttl > 0 && marker.ttl < i64::MAX as u64);
}

#[test]
fn refresh_token_works_until_it_is_revoked() {
    let mut store = Markers::new();
    let (_, token) = generate_token_pair_at(U1, RefreshTokenID(1), SECRET, NOW).unwrap();
    let (_, other) = generate_token_pair_at(U1, RefreshTokenID(2), SECRET, NOW).unwrap();
    let claim = authenticate_refresh(&store, &token, NOW).unwrap();
    assert!(authenticate_refresh(&store, &token, NOW + 1_209_599).is_ok());
    store.write(revoke_at(U1, &claim, NOW + 10), NOW + 10);
    assert!(matches!(authenticate_refresh(&store, &token, NOW + 10), Err(APIError::TokenRevoked)));
    assert!(matches!(
        authenticate_refresh(&store, &token, NOW + 1_209_599),
        Err(APIError::TokenRevoked)
    ));
    assert!(matches!(
        authenticate_refresh(&store, &token, NOW + 1_209_600),
        Err(APIError::TokenExpired)
    ));
    let other_claim = authenticate_refresh(&store, &other, NOW + 10).unwrap();
    assert_eq!(other_claim.inner.account_id, U1);
    assert_eq!(other_claim.inner.token_id, RefreshTokenID(2));
}

#[test]
fn deleted_account_revokes_every_token() {
    let mut store = Markers::new();
    let (_, token) = generate_token_pair_at(U1, RefreshTokenID(1), SECRET, NOW).unwrap();
    store.entries.insert(deleted_user_key(U1), (1, i128::MAX));
    assert!(matches!(authenticate_refresh(&store, &token, NOW), Err(APIError::TokenRevoked)));
    let (_, stranger) =
        generate_token_pair_at(AccountID(5), RefreshTokenID(1), SECRET, NOW).unwrap();
    assert!(authenticate_refresh(&store, &stranger, NOW).is_ok());
}

#[test]
fn only_the_marker_value_revokes() {
    let mut store = Markers::new();
    let (_, token) = generate_token_pair_at(U1, RefreshTokenID(1), SECRET, NOW).unwrap();
    store.entries.insert(revoked_token_key(U1, RefreshTokenID(1)), (0, i128::MAX));
    store.entries.insert(deleted_user_key(U1), (2, i128::MAX));
    assert!(authenticate_refresh(&store, &token, NOW).is_ok());
}

#[test]
fn check_goes_from_token_to_account() {
    let c = claim(U1, 1, NOW + 100);
    match begin_refresh_check(&c) {
        RefreshCheck::Asking { question, key } => {
            assert_eq!(question, MarkerQuestion::TokenRevoked);
            assert_eq!(key, revoked_token_key(U1, RefreshTokenID(1)));
        }
        _ => panic!("no question"),
    }
    match refresh_check_step(&c, MarkerQuestion::TokenRevoked, MarkerAnswer::Found(None)) {
        RefreshCheck::Asking { question, key } => {
            assert_eq!(question, MarkerQuestion::AccountDeleted);
            assert_eq!(key, deleted_user_key(U1));
        }
        _ => panic!("no question"),
    }
    assert!(matches!(
        refresh_check_step(&c, MarkerQuestion::AccountDeleted, MarkerAnswer::Found(None)),
        RefreshCheck::Accepted
    ));
    assert!(matches!(
        refresh_check_step(&c, MarkerQuestion::TokenRevoked, MarkerAnswer::Found(Some(1))),
        RefreshCheck::Rejected(APIError::TokenRevoked)
    ));
    assert!(matches!(
        refresh_check_step(&c, MarkerQuestion::AccountDeleted, MarkerAnswer::Found(Some(1))),
        RefreshCheck::Rejected(APIError::TokenRevoked)
    ));
    match refresh_check_step(
        &c,
        MarkerQuestion::TokenRevoked,
        MarkerAnswer::Failed("connection refused".to_string()),
    ) {
        RefreshCheck::Rejected(APIError::InternalError { message }) => {
            assert_eq!(message, "connection refused")
        }
        _ => panic!("no internal error"),
    }
}

#[test]
fn new_tokens_only_for_an_accepted_token() {
    let c = claim(U1, 1, NOW + 100);
    let tokens = refresh_at(RefreshCheck::Accepted, &c, SECRET, RefreshTokenID(2), NOW).unwrap();
    let access = tokens.access_token.authenticate_claim_at(SECRET, NOW).unwrap();
    let fresh = tokens.refresh_token.authenticate_claim_at(SECRET, NOW).unwrap();
    assert_eq!(access.inner.account_id, U1);
    assert_eq!(access.inner.token_origin, RefreshTokenID(2));
    assert_eq!(fresh.inner.account_id, U1);
    assert_eq!(fresh.inner.token_id, RefreshTokenID(2));
    assert!(matches!(
        refresh_at(RefreshCheck::Rejected(APIError::TokenRevoked), &c, SECRET, RefreshTokenID(2), NOW),
        Err(APIError::TokenRevoked)
    ));
    let open = RefreshCheck::Asking { question: MarkerQuestion::TokenRevoked, key: String::new() };
    match refresh_at(open, &c, SECRET, RefreshTokenID(2), NOW) {
        Err(APIError::InternalError { message }) => {
            assert_eq!(message, "the check of the refresh token has not ended")
        }
        _ => panic!("no internal error"),
    }
    let tokens = refresh(RefreshCheck::Accepted, &c, SECRET).unwrap();
    let fresh = tokens.refresh_token.authenticate_claim(SECRET).unwrap();
    assert_eq!(fresh.inner.account_id, U1);
    assert_ne!(fresh.inner.token_id, RefreshTokenID(1));
    assert!(matches!(
        refresh(RefreshCheck::Rejected(APIError::TokenRevoked), &c, SECRET),
        Err(APIError::TokenRevoked)
    ));
}

#[test]
fn refresh_begins_with_the_token_itself() {
    let (access, token) = generate_token_pair_at(U1, RefreshTokenID(1), SECRET, NOW).unwrap();
    match begin_refresh_at(&token, SECRET, NOW) {
        Ok((claim, RefreshCheck::Asking { question, key })) => {
            assert_eq!(claim.inner.token_id, RefreshTokenID(1));
            assert_eq!(question, MarkerQuestion::TokenRevoked);
            assert_eq!(key, revoked_token_key(U1, RefreshTokenID(1)));
        }
        _ => panic!("no question"),
    }
    assert!(matches!(
        begin_refresh_at(&token, SECRET, NOW + 1_209_600),
        Err(APIError::TokenExpired)
    ));
    assert!(matches!(begin_refresh(&token, SECRET), Err(APIError::TokenExpired)));
    assert!(matches!(begin_refresh_at(&token, "other", NOW), Err(APIError::InvalidToken)));
    let as_refresh = RefreshToken::from(access.str_ref().to_string());
    assert!(matches!(begin_refresh_at(&as_refresh, SECRET, NOW), Err(APIError::InvalidToken)));
}
