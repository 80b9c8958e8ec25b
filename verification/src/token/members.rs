//! The members that the payload of a token holds for a claim, and the claim
//! that members stand for.

use vstd::prelude::*;
use crate::encoding::bytes::{ascii_text, lemma_ascii_text};
use crate::encoding::identifier::identifier_text;
use crate::model::account::{identifier_string, lemma_identifier_text_ascii};
use crate::token::signature::{
    find_member, lemma_member_at_concat, lemma_signable_push, member_at, members_view, signable,
    read_uuid, uuid_parsed, MemberValue, MemberValueView, Members,
};
use crate::token::{text_view, RegisteredClaims, RegisteredClaimsView, TokenKind};
use crate::types::SecondsSinceEpoch;

verus! {

/// The member that says whose the token is.
pub const ACCOUNT_ID: &'static str = "account_id";

/// The member that only an access token has.
pub const TOKEN_ORIGIN: &'static str = "token_origin";

/// The member that only a refresh token has.
pub const TOKEN_ID: &'static str = "token_id";

pub const ISSUER: &'static str = "iss";

pub const SUBJECT: &'static str = "sub";

pub const AUDIENCE: &'static str = "aud";

pub const EXPIRATION: &'static str = "exp";

pub const NOT_BEFORE: &'static str = "nbf";

pub const ISSUED_AT: &'static str = "iat";

pub const TOKEN: &'static str = "jti";

/// What a payload holds.
pub struct ClaimParts {
    pub account: u128,
    pub token_ref: u128,
    pub registered: RegisteredClaimsView,
}

/// The name of the member that tells the two roles apart.
pub open spec fn role_name(kind: TokenKind) -> Seq<char> {
    match kind {
        TokenKind::Access => TOKEN_ORIGIN@,
        TokenKind::Refresh => TOKEN_ID@,
    }
}

/// The canonical text of an identifier.
pub open spec fn id_text(v: u128) -> Seq<char> {
    ascii_text(identifier_text(v))
}

/// A member that may be missing.
pub open spec fn entry(name: Seq<char>, value: Option<MemberValueView>) -> Members {
    match value {
        Some(v) => seq![(name, v)],
        None => Seq::empty(),
    }
}

/// What is written for a text that may be missing.
pub open spec fn text_value(text: Option<Seq<char>>) -> Option<MemberValueView> {
    match text {
        Some(t) => Some(MemberValueView::Text(t)),
        None => None,
    }
}

/// What is written for a number that may be missing.
pub open spec fn number_value(number: Option<SecondsSinceEpoch>) -> Option<MemberValueView> {
    match number {
        Some(n) => Some(MemberValueView::Integer(n)),
        None => None,
    }
}

/// The members that are written for a claim of the given role: the account,
/// the refresh token under the name of the role, the expiration, and each of
/// the other registered fields that is there.
pub open spec fn members_of(kind: TokenKind, parts: ClaimParts) -> Members {
    let r = parts.registered;
    Seq::<(Seq<char>, MemberValueView)>::empty() + entry(
        ACCOUNT_ID@,
        Some(MemberValueView::Text(id_text(parts.account))),
    ) + entry(role_name(kind), Some(MemberValueView::Text(id_text(parts.token_ref)))) + entry(
        EXPIRATION@,
        Some(MemberValueView::Integer(r.expiration)),
    ) + entry(ISSUER@, text_value(r.issuer)) + entry(SUBJECT@, text_value(r.subject)) + entry(
        AUDIENCE@,
        text_value(r.audience),
    ) + entry(NOT_BEFORE@, number_value(r.not_before)) + entry(
        ISSUED_AT@,
        number_value(r.issued_at),
    ) + entry(TOKEN@, text_value(r.json_web_token_id))
}

/// The identifier that members hold under a name: the member must be a text
/// that is read as an identifier.
pub open spec fn identifier_member(members: Members, name: Seq<char>) -> Option<u128> {
    match member_at(members, name) {
        Some(MemberValueView::Text(text)) => uuid_parsed(text),
        _ => None,
    }
}

/// The number that members hold under a name: the member must be a whole
/// number.
pub open spec fn number_member(members: Members, name: Seq<char>) -> Option<SecondsSinceEpoch> {
    match member_at(members, name) {
        Some(MemberValueView::Integer(n)) => Some(n),
        _ => None,
    }
}

/// The text that members may hold under a name: no text where the member is
/// missing or null, and `None` where it is there and no text.
pub open spec fn optional_text(members: Members, name: Seq<char>) -> Option<Option<Seq<char>>> {
    match member_at(members, name) {
        None => Some(None),
        Some(MemberValueView::Null) => Some(None),
        Some(MemberValueView::Text(text)) => Some(Some(text)),
        Some(_) => None,
    }
}

/// The number that members may hold under a name: no number where the
/// member is missing or null, and `None` where it is there and no whole
/// number.
pub open spec fn optional_number(members: Members, name: Seq<char>) -> Option<
    Option<SecondsSinceEpoch>,
> {
    match member_at(members, name) {
        None => Some(None),
        Some(MemberValueView::Null) => Some(None),
        Some(MemberValueView::Integer(n)) => Some(Some(n)),
        Some(_) => None,
    }
}

/// The registered fields that members stand for: the expiration must be
/// there, and each of the others is missing or of its kind. Members of other
/// names are not looked at.
pub open spec fn registered_of(members: Members) -> Option<RegisteredClaimsView> {
    match (
        number_member(members, EXPIRATION@),
        optional_text(members, ISSUER@),
        optional_text(members, SUBJECT@),
        optional_text(members, AUDIENCE@),
        optional_number(members, NOT_BEFORE@),
        optional_number(members, ISSUED_AT@),
        optional_text(members, TOKEN@),
    ) {
        (
            Some(expiration),
            Some(issuer),
            Some(subject),
            Some(audience),
            Some(not_before),
            Some(issued_at),
            Some(token),
        ) => Some(
            RegisteredClaimsView {
                issuer,
                subject,
                audience,
                expiration,
                not_before,
                issued_at,
                json_web_token_id: token,
            },
        ),
        _ => None,
    }
}

/// The claim of the given role that members stand for: the account and the
/// member of the role must be there and be identifiers, and the registered
/// fields must be in order.
pub open spec fn parts_of(kind: TokenKind, members: Members) -> Option<ClaimParts> {
    match (
        identifier_member(members, ACCOUNT_ID@),
        identifier_member(members, role_name(kind)),
        registered_of(members),
    ) {
        (Some(account), Some(token_ref), Some(registered)) => Some(
            ClaimParts { account, token_ref, registered },
        ),
        _ => None,
    }
}

/// What the names hold where the proofs look at them: no two are the same.
pub proof fn lemma_names()
    ensures
        ACCOUNT_ID@.len() == 10,
        TOKEN_ORIGIN@.len() == 12,
        TOKEN_ID@.len() == 8,
        ISSUER@.len() == 3 && ISSUER@[0] == 'i' && ISSUER@[1] == 's',
        SUBJECT@.len() == 3 && SUBJECT@[0] == 's',
        AUDIENCE@.len() == 3 && AUDIENCE@[0] == 'a',
        EXPIRATION@.len() == 3 && EXPIRATION@[0] == 'e',
        NOT_BEFORE@.len() == 3 && NOT_BEFORE@[0] == 'n',
        ISSUED_AT@.len() == 3 && ISSUED_AT@[0] == 'i' && ISSUED_AT@[1] == 'a',
        TOKEN@.len() == 3 && TOKEN@[0] == 'j',
{
    reveal_strlit("account_id");
    reveal_strlit("token_origin");
    reveal_strlit("token_id");
    reveal_strlit("iss");
    reveal_strlit("sub");
    reveal_strlit("aud");
    reveal_strlit("exp");
    reveal_strlit("nbf");
    reveal_strlit("iat");
    reveal_strlit("jti");
}

/// What members hold under a name once one more member, which may be
/// missing, is put behind them.
pub proof fn lemma_entry_behind(a: Members, name: Seq<char>, value: Option<MemberValueView>)
    ensures
        forall|k: Seq<char>| #[trigger]
            member_at(a + entry(name, value), k) == match member_at(a, k) {
                Some(v) => Some(v),
                None => if k == name {
                    value
                } else {
                    None
                },
            },
        signable(a) && member_at(a, name) is None && value != Some(MemberValueView::Other)
            ==> signable(a + entry(name, value)),
{
    assert forall|k: Seq<char>| #[trigger]
        member_at(a + entry(name, value), k) == match member_at(a, k) {
            Some(v) => Some(v),
            None => if k == name {
                value
            } else {
                None
            },
        } by {
        lemma_member_at_concat(a, entry(name, value), k);
        let e = entry(name, value);
        let none = Seq::<(Seq<char>, MemberValueView)>::empty();
        assert(member_at(none, k) is None);
        match value {
            Some(v) => {
                assert(e.len() == 1);
                assert(e[0] == (name, v));
                assert(e.drop_first() =~= none);
                assert(member_at(e, k) == if k == name {
                    Some(v)
                } else {
                    None
                });
            },
            None => {
                assert(e =~= none);
            },
        }
    }
    if signable(a) && member_at(a, name) is None && value != Some(MemberValueView::Other) {
        match value {
            Some(v) => {
                lemma_signable_push(a, name, v);
            },
            None => {
                assert(a + entry(name, value) =~= a);
            },
        }
    }
}

/// The members written for a claim can be signed and read back, and hold
/// under each name what the claim says; under the name of the other role
/// they hold nothing.
pub proof fn lemma_members_of(kind: TokenKind, parts: ClaimParts)
    ensures
        signable(members_of(kind, parts)),
        member_at(members_of(kind, parts), ACCOUNT_ID@) == Some(
            MemberValueView::Text(id_text(parts.account)),
        ),
        member_at(members_of(kind, parts), role_name(kind)) == Some(
            MemberValueView::Text(id_text(parts.token_ref)),
        ),
        member_at(members_of(kind, parts), EXPIRATION@) == Some(
            MemberValueView::Integer(parts.registered.expiration),
        ),
        member_at(members_of(kind, parts), ISSUER@) == text_value(parts.registered.issuer),
        member_at(members_of(kind, parts), SUBJECT@) == text_value(parts.registered.subject),
        member_at(members_of(kind, parts), AUDIENCE@) == text_value(parts.registered.audience),
        member_at(members_of(kind, parts), NOT_BEFORE@) == number_value(
            parts.registered.not_before,
        ),
        member_at(members_of(kind, parts), ISSUED_AT@) == number_value(parts.registered.issued_at),
        member_at(members_of(kind, parts), TOKEN@) == text_value(
            parts.registered.json_web_token_id,
        ),
        kind == TokenKind::Access ==> member_at(members_of(kind, parts), TOKEN_ID@) is None,
        kind == TokenKind::Refresh ==> member_at(members_of(kind, parts), TOKEN_ORIGIN@) is None,
{
    lemma_names();
    let r = parts.registered;
    let m0 = Seq::<(Seq<char>, MemberValueView)>::empty();
    let v1 = Some(MemberValueView::Text(id_text(parts.account)));
    let m1 = m0 + entry(ACCOUNT_ID@, v1);
    let v2 = Some(MemberValueView::Text(id_text(parts.token_ref)));
    let m2 = m1 + entry(role_name(kind), v2);
    let v3 = Some(MemberValueView::Integer(r.expiration));
    let m3 = m2 + entry(EXPIRATION@, v3);
    let m4 = m3 + entry(ISSUER@, text_value(r.issuer));
    let m5 = m4 + entry(SUBJECT@, text_value(r.subject));
    let m6 = m5 + entry(AUDIENCE@, text_value(r.audience));
    let m7 = m6 + entry(NOT_BEFORE@, number_value(r.not_before));
    let m8 = m7 + entry(ISSUED_AT@, number_value(r.issued_at));
    let m9 = m8 + entry(TOKEN@, text_value(r.json_web_token_id));
    assert(m9 == members_of(kind, parts));
    assert(signable(m0));
    assert(forall|k: Seq<char>| member_at(m0, k) is None);
    lemma_entry_behind(m0, ACCOUNT_ID@, v1);
    lemma_entry_behind(m1, role_name(kind), v2);
    lemma_entry_behind(m2, EXPIRATION@, v3);
    lemma_entry_behind(m3, ISSUER@, text_value(r.issuer));
    lemma_entry_behind(m4, SUBJECT@, text_value(r.subject));
    lemma_entry_behind(m5, AUDIENCE@, text_value(r.audience));
    lemma_entry_behind(m6, NOT_BEFORE@, number_value(r.not_before));
    lemma_entry_behind(m7, ISSUED_AT@, number_value(r.issued_at));
    lemma_entry_behind(m8, TOKEN@, text_value(r.json_web_token_id));
    assert(signable(m1));
    assert(signable(m2));
    assert(signable(m3));
    assert(signable(m4));
    assert(signable(m5));
    assert(signable(m6));
    assert(signable(m7));
    assert(signable(m8));
}

/// Members that hold under every name what the members written for a claim
/// hold stand for that claim, as long as the two identifiers are read back
/// from their texts; and they stand for no claim of the other role.
pub proof fn lemma_parts_of_members(kind: TokenKind, parts: ClaimParts, members: Members)
    requires
        forall|name: Seq<char>| #[trigger]
            member_at(members, name) == member_at(members_of(kind, parts), name),
        uuid_parsed(id_text(parts.account)) == Some(parts.account),
        uuid_parsed(id_text(parts.token_ref)) == Some(parts.token_ref),
    ensures
        parts_of(kind, members) == Some(parts),
        kind == TokenKind::Access ==> parts_of(TokenKind::Refresh, members) is None,
        kind == TokenKind::Refresh ==> parts_of(TokenKind::Access, members) is None,
{
    lemma_members_of(kind, parts);
    let own = members_of(kind, parts);
    assert(member_at(members, ACCOUNT_ID@) == member_at(own, ACCOUNT_ID@));
    assert(member_at(members, role_name(kind)) == member_at(own, role_name(kind)));
    assert(member_at(members, TOKEN_ID@) == member_at(own, TOKEN_ID@));
    assert(member_at(members, TOKEN_ORIGIN@) == member_at(own, TOKEN_ORIGIN@));
    assert(member_at(members, EXPIRATION@) == member_at(own, EXPIRATION@));
    assert(member_at(members, ISSUER@) == member_at(own, ISSUER@));
    assert(member_at(members, SUBJECT@) == member_at(own, SUBJECT@));
    assert(member_at(members, AUDIENCE@) == member_at(own, AUDIENCE@));
    assert(member_at(members, NOT_BEFORE@) == member_at(own, NOT_BEFORE@));
    assert(member_at(members, ISSUED_AT@) == member_at(own, ISSUED_AT@));
    assert(member_at(members, TOKEN@) == member_at(own, TOKEN@));
    let r = parts.registered;
    assert(registered_of(members) == Some(r));
}

fn role_name_text(kind: TokenKind) -> (name: &'static str)
    ensures
        name@ == role_name(kind),
{
    match kind {
        TokenKind::Access => TOKEN_ORIGIN,
        TokenKind::Refresh => TOKEN_ID,
    }
}

/// The canonical text of an identifier, read back once to make sure of it.
fn identifier_member_text(v: u128) -> (text: String)
    ensures
        text@ == id_text(v),
        uuid_parsed(id_text(v)) == Some(v),
{
    let text = identifier_string(v);
    proof {
        lemma_identifier_text_ascii(v);
        lemma_ascii_text(identifier_text(v), text@);
    }
    let _ = read_uuid(text.as_str());
    text
}

fn push_entry(members: &mut Vec<(String, MemberValue)>, name: &str, value: Option<MemberValue>)
    ensures
        members_view(final(members)@) == members_view(old(members)@) + entry(
            name@,
            match value {
                Some(v) => Some(v@),
                None => None,
            },
        ),
{
    match value {
        Some(v) => {
            members.push((name.to_owned(), v));
            assert(members_view(final(members)@) =~= members_view(old(members)@) + seq![
                (name@, v@),
            ]);
        },
        None => {
            assert(members_view(final(members)@) =~= members_view(old(members)@) + Seq::empty());
        },
    }
}

fn text_member(text: &Option<String>) -> (value: Option<MemberValue>)
    ensures
        (match value {
            Some(v) => Some(v@),
            None => None,
        }) == text_value(text_view(*text)),
{
    match text {
        Some(t) => Some(MemberValue::Text(t.clone())),
        None => None,
    }
}

fn number_entry(number: Option<SecondsSinceEpoch>) -> (value: Option<MemberValue>)
    ensures
        (match value {
            Some(v) => Some(v@),
            None => None,
        }) == number_value(number),
{
    match number {
        Some(n) => Some(MemberValue::Integer(n)),
        None => None,
    }
}

/// The members to write for a claim of the given role.
pub fn claim_members(
    kind: TokenKind,
    account: u128,
    token_ref: u128,
    registered: &RegisteredClaims,
) -> (members: Vec<(String, MemberValue)>)
    ensures
        members_view(members@) == members_of(
            kind,
            ClaimParts { account, token_ref, registered: registered@ },
        ),
        uuid_parsed(id_text(account)) == Some(account),
        uuid_parsed(id_text(token_ref)) == Some(token_ref),
{
    let mut members: Vec<(String, MemberValue)> = Vec::new();
    assert(members_view(members@) =~= Seq::empty());
    push_entry(&mut members, ACCOUNT_ID, Some(MemberValue::Text(identifier_member_text(account))));
    push_entry(
        &mut members,
        role_name_text(kind),
        Some(MemberValue::Text(identifier_member_text(token_ref))),
    );
    push_entry(&mut members, EXPIRATION, Some(MemberValue::Integer(registered.expiration)));
    push_entry(&mut members, ISSUER, text_member(&registered.issuer));
    push_entry(&mut members, SUBJECT, text_member(&registered.subject));
    push_entry(&mut members, AUDIENCE, text_member(&registered.audience));
    push_entry(&mut members, NOT_BEFORE, number_entry(registered.not_before));
    push_entry(&mut members, ISSUED_AT, number_entry(registered.issued_at));
    push_entry(&mut members, TOKEN, text_member(&registered.json_web_token_id));
    members
}

fn read_identifier_member(members: &Vec<(String, MemberValue)>, name: &str) -> (id: Option<u128>)
    ensures
        id == identifier_member(members_view(members@), name@),
{
    match find_member(members, name) {
        Some(MemberValue::Text(text)) => read_uuid(text.as_str()),
        _ => None,
    }
}

fn read_optional_text(members: &Vec<(String, MemberValue)>, name: &str) -> (text: Option<
    Option<String>,
>)
    ensures
        match optional_text(members_view(members@), name@) {
            Some(t) => text matches Some(found) && text_view(found) == t,
            None => text is None,
        },
{
    match find_member(members, name) {
        None => Some(None),
        Some(MemberValue::Null) => Some(None),
        Some(MemberValue::Text(text)) => Some(Some(text.clone())),
        Some(_) => None,
    }
}

fn read_optional_number(members: &Vec<(String, MemberValue)>, name: &str) -> (number: Option<
    Option<SecondsSinceEpoch>,
>)
    ensures
        number == optional_number(members_view(members@), name@),
{
    match find_member(members, name) {
        None => Some(None),
        Some(MemberValue::Null) => Some(None),
        Some(MemberValue::Integer(n)) => Some(Some(*n)),
        Some(_) => None,
    }
}

fn read_registered(members: &Vec<(String, MemberValue)>) -> (res: Option<RegisteredClaims>)
    ensures
        match registered_of(members_view(members@)) {
            Some(r) => res matches Some(found) && found@ == r,
            None => res is None,
        },
{
    let expiration = match find_member(members, EXPIRATION) {
        Some(MemberValue::Integer(n)) => *n,
        _ => {
            return None;
        },
    };
    let issuer = match read_optional_text(members, ISSUER) {
        Some(t) => t,
        None => {
            return None;
        },
    };
    let subject = match read_optional_text(members, SUBJECT) {
        Some(t) => t,
        None => {
            return None;
        },
    };
    let audience = match read_optional_text(members, AUDIENCE) {
        Some(t) => t,
        None => {
            return None;
        },
    };
    let not_before = match read_optional_number(members, NOT_BEFORE) {
        Some(n) => n,
        None => {
            return None;
        },
    };
    let issued_at = match read_optional_number(members, ISSUED_AT) {
        Some(n) => n,
        None => {
            return None;
        },
    };
    let token = match read_optional_text(members, TOKEN) {
        Some(t) => t,
        None => {
            return None;
        },
    };
    Some(
        RegisteredClaims {
            issuer,
            subject,
            audience,
            expiration,
            not_before,
            issued_at,
            json_web_token_id: token,
        },
    )
}

/// The claim of the given role that members stand for.
pub fn read_members(kind: TokenKind, members: &Vec<(String, MemberValue)>) -> (res: Option<
    (u128, u128, RegisteredClaims),
>)
    ensures
        match parts_of(kind, members_view(members@)) {
            Some(parts) => res matches Some((account, token_ref, registered)) && account
                == parts.account && token_ref == parts.token_ref && registered@
                == parts.registered,
            None => res is None,
        },
{
    let account = match read_identifier_member(members, ACCOUNT_ID) {
        Some(id) => id,
        None => {
            return None;
        },
    };
    let token_ref = match read_identifier_member(members, role_name_text(kind)) {
        Some(id) => id,
        None => {
            return None;
        },
    };
    match read_registered(members) {
        Some(registered) => Some((account, token_ref, registered)),
        None => None,
    }
}

} // verus!
