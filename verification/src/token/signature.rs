//! Signed tokens as the `jwt` crate writes and reads them: a text of three
//! segments that holds the members of a JSON object, signed with
//! HMAC-SHA256.

use vstd::prelude::*;
use vstd::utf8::encode_utf8;
use hmac::Hmac;
use hmac::Mac;
use jwt::SignWithKey;
use jwt::VerifyWithKey;
use sha2::Sha256;
use crate::encoding::identifier::identifier_text;

verus! {

/// What a member of a token's payload holds, as far as a claim is made of
/// it: nothing, a text, a whole number of 64 bits, or anything else.
#[derive(Debug, Clone, PartialEq, Eq)]
pub enum MemberValue {
    Null,
    Text(String),
    Integer(i64),
    Other,
}

/// A `MemberValue` as a value.
pub enum MemberValueView {
    Null,
    Text(Seq<char>),
    Integer(i64),
    Other,
}

impl View for MemberValue {
    type V = MemberValueView;

    open spec fn view(&self) -> MemberValueView {
        match self {
            MemberValue::Null => MemberValueView::Null,
            MemberValue::Text(text) => MemberValueView::Text(text@),
            MemberValue::Integer(number) => MemberValueView::Integer(*number),
            MemberValue::Other => MemberValueView::Other,
        }
    }
}

/// The members of a payload: names and what they hold.
pub type Members = Seq<(Seq<char>, MemberValueView)>;

/// The members of a payload as values.
pub open spec fn members_view(members: Seq<(String, MemberValue)>) -> Members {
    Seq::new(members.len(), |i: int| (members[i].0@, members[i].1@))
}

/// What the members hold under a name: the first member of that name.
pub open spec fn member_at(members: Members, name: Seq<char>) -> Option<MemberValueView>
    decreases members.len(),
{
    if members.len() == 0 {
        None
    } else if members[0].0 == name {
        Some(members[0].1)
    } else {
        member_at(members.drop_first(), name)
    }
}

/// Whether members can be signed and read back as they are: no two have the
/// same name, and each holds nothing, a text or a number.
pub open spec fn signable(members: Members) -> bool
    decreases members.len(),
{
    members.len() == 0 || (signable(members.drop_last()) && member_at(
        members.drop_last(),
        members.last().0,
    ) is None && members.last().1 != MemberValueView::Other)
}

/// The token that `jwt` writes for a payload with the given members, signed
/// with HMAC-SHA256 under the key `secret`.
pub uninterp spec fn jwt_signed(secret: Seq<char>, members: Members) -> Seq<char>;

/// The members of the payload that `jwt` reads from a token under the key
/// `secret`, in the order of their names; `None` where the text is no token
/// that the key takes.
pub uninterp spec fn jwt_verified(secret: Seq<char>, token: Seq<char>) -> Option<Members>;

/// The members read from a token as values.
pub open spec fn read_view(members: Option<Vec<(String, MemberValue)>>) -> Option<Members> {
    match members {
        Some(m) => Some(members_view(m@)),
        None => None,
    }
}

/// `jwt::SignWithKey::sign_with_key` on a `BTreeMap<String,
/// serde_json::Value>` of the members, with an `Hmac<Sha256>` made by
/// `Mac::new_from_slice` from the bytes of `secret`. There always is a
/// token: the key is made of bytes of any length, strings, whole numbers
/// and null are written as JSON without a failing path, and the signature
/// is always given. It is the token named above. Where no two members have
/// the same name and none holds `Other` (which is written as null),
/// `jwt_verify` reads the token back under the same key, and finds under
/// every name what was signed: the payload is the JSON object of the
/// members, and it is read as a JSON object.
#[verifier::external_body]
pub(crate) fn jwt_sign(secret: &str, members: Vec<(String, MemberValue)>) -> (token: Option<String>)
    ensures
        token is Some,
        token matches Some(t) ==> t@ == jwt_signed(secret@, members_view(members@)),
        token matches Some(t) ==> (signable(members_view(members@)) ==> jwt_verified(secret@, t@)
            is Some),
        token matches Some(t) ==> (signable(members_view(members@)) ==> forall|name: Seq<char>|
            #[trigger] member_at(jwt_verified(secret@, t@)->0, name) == member_at(
                members_view(members@),
                name,
            )),
{
    let key: Hmac<Sha256> = Hmac::new_from_slice(secret.as_bytes()).ok()?;
    let claims: std::collections::BTreeMap<String, serde_json::Value> = members
        .into_iter()
        .map(|(name, value)| (name, match value {
            MemberValue::Text(text) => serde_json::Value::String(text),
            MemberValue::Integer(number) => serde_json::Value::from(number),
            _ => serde_json::Value::Null,
        }))
        .collect();
    claims.sign_with_key(&key).ok()
}

/// `jwt::VerifyWithKey::verify_with_key` into a `BTreeMap<String,
/// serde_json::Value>`, with an `Hmac<Sha256>` made by `Mac::new_from_slice`
/// from the bytes of `secret`: the members of the payload, where the text
/// has three segments, its header is a JSON object whose algorithm is
/// HS256, the key takes its signature, and its payload is a JSON object. A
/// JSON number is an `Integer` where `serde_json::Number::as_i64` gives one.
#[verifier::external_body]
pub(crate) fn jwt_verify(secret: &str, token: &str) -> (members: Option<Vec<(String, MemberValue)>>)
    ensures
        read_view(members) == jwt_verified(secret@, token@),
{
    let key: Hmac<Sha256> = Hmac::new_from_slice(secret.as_bytes()).ok()?;
    let claims: std::collections::BTreeMap<String, serde_json::Value> =
        token.verify_with_key(&key).ok()?;
    Some(claims.into_iter().map(|(name, value)| (name, match value {
        serde_json::Value::Null => MemberValue::Null,
        serde_json::Value::String(text) => MemberValue::Text(text),
        serde_json::Value::Number(number) => match number.as_i64() {
            Some(whole) => MemberValue::Integer(whole),
            None => MemberValue::Other,
        },
        _ => MemberValue::Other,
    })).collect())
}

/// The identifier that `uuid` reads from a text, if it reads one.
pub uninterp spec fn uuid_parsed(text: Seq<char>) -> Option<u128>;

/// `uuid::Uuid::parse_str`, and the 128 bits of what it gives by
/// `Uuid::as_u128`. The canonical text of an identifier, hyphenated and in
/// lower case, is read as that identifier; other texts that the crate
/// reads, such as the same digits without hyphens or in upper case, are
/// read as the crate reads them.
#[verifier::external_body]
pub(crate) fn read_uuid(text: &str) -> (id: Option<u128>)
    ensures
        id == uuid_parsed(text@),
        forall|v: u128| encode_utf8(text@) == #[trigger] identifier_text(v) ==> id == Some(v),
{
    uuid::Uuid::parse_str(text).ok().map(|parsed| parsed.as_u128())
}

/// What members that are put one after another hold under a name: what the
/// first ones hold, and where they hold nothing, what the others hold.
pub proof fn lemma_member_at_concat(a: Members, b: Members, name: Seq<char>)
    ensures
        member_at(a + b, name) == match member_at(a, name) {
            Some(value) => Some(value),
            None => member_at(b, name),
        },
    decreases a.len(),
{
    if a.len() == 0 {
        assert(a + b =~= b);
    } else {
        assert((a + b).drop_first() =~= a.drop_first() + b);
        assert((a + b)[0] == a[0]);
        lemma_member_at_concat(a.drop_first(), b, name);
    }
}

/// Members stay signable when one more is put behind them whose name they
/// do not hold.
pub proof fn lemma_signable_push(a: Members, name: Seq<char>, value: MemberValueView)
    requires
        signable(a),
        member_at(a, name) is None,
        value != MemberValueView::Other,
    ensures
        signable(a + seq![(name, value)]),
{
    let m = a + seq![(name, value)];
    assert(m.drop_last() =~= a);
    assert(m.last() == (name, value));
}

/// Finds what the members hold under a name.
pub fn find_member<'a>(members: &'a Vec<(String, MemberValue)>, name: &str) -> (found: Option<
    &'a MemberValue,
>)
    ensures
        match member_at(members_view(members@), name@) {
            Some(value) => found matches Some(f) && f@ == value,
            None => found is None,
        },
{
    let wanted = name.to_owned();
    let mut i: usize = 0;
    let ghost all = members_view(members@);
    proof {
        assert(all.skip(0) =~= all);
    }
    while i < members.len()
        invariant
            i <= members.len(),
            wanted@ == name@,
            all == members_view(members@),
            member_at(all, name@) == member_at(all.skip(i as int), name@),
        decreases members.len() - i,
    {
        proof {
            let rest = all.skip(i as int);
            assert(rest[0] == all[i as int]);
            assert(rest.drop_first() =~= all.skip(i + 1));
        }
        if members[i].0.eq(&wanted) {
            return Some(&members[i].1);
        }
        i += 1;
    }
    None
}

} // verus!
