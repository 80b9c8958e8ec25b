//! Accounts and their identifiers.

use vstd::prelude::*;
use vstd::utf8::encode_utf8;
use crate::error::{APIError, APIErrorView};
use crate::encoding::bytes::ascii_string;
use crate::encoding::hex::lemma_hex_digits_shape;
use crate::encoding::identifier::{
    group_a, group_b, group_c, group_d, group_e, identifier_text, push_identifier,
};

verus! {

/// The identifier of an account: 128 bits that no other account has.
#[derive(Debug, Clone, Copy, PartialEq, Eq, Structural, Hash)]
pub struct AccountID(pub u128);

impl AccountID {
    /// The canonical text of the identifier.
    pub fn text(&self) -> (s: String)
        ensures
            encode_utf8(s@) == identifier_text(self.0),
    {
        identifier_string(self.0)
    }
}

/// The canonical text of an identifier, as a string.
pub fn identifier_string(v: u128) -> (s: String)
    ensures
        encode_utf8(s@) == identifier_text(v),
{
    let mut out: Vec<u8> = Vec::new();
    push_identifier(&mut out, v);
    proof {
        lemma_identifier_text_ascii(v);
        assert(out@ =~= identifier_text(v));
    }
    ascii_string(out)
}

/// The canonical text of an identifier holds only bytes below 128.
pub proof fn lemma_identifier_text_ascii(v: u128)
    ensures
        crate::encoding::bytes::all_ascii(identifier_text(v)),
{
    lemma_hex_digits_shape(group_a(v), 8);
    lemma_hex_digits_shape(group_b(v), 4);
    lemma_hex_digits_shape(group_c(v), 4);
    lemma_hex_digits_shape(group_d(v), 4);
    lemma_hex_digits_shape(group_e(v), 12);
    let t = identifier_text(v);
    let a = crate::encoding::hex::hex_digits(group_a(v), 8);
    let b = crate::encoding::hex::hex_digits(group_b(v), 4);
    let c = crate::encoding::hex::hex_digits(group_c(v), 4);
    let d = crate::encoding::hex::hex_digits(group_d(v), 4);
    let e = crate::encoding::hex::hex_digits(group_e(v), 12);
    assert forall|i: int| 0 <= i < t.len() implies #[trigger] t[i] < 128 by {
        if i < 8 {
            assert(t[i] == a[i]);
        } else if i == 8 {
        } else if i < 13 {
            assert(t[i] == b[i - 9]);
        } else if i == 13 {
        } else if i < 18 {
            assert(t[i] == c[i - 14]);
        } else if i == 18 {
        } else if i < 23 {
            assert(t[i] == d[i - 19]);
        } else if i == 23 {
        } else {
            assert(t[i] == e[i - 24]);
        }
    }
}

/// An account as the store holds it.
#[derive(Debug, Clone)]
pub struct Account {
    pub id: AccountID,
    pub first_name: String,
    pub last_name: Option<String>,
    pub login: String,
    pub password_hash: String,
}

/// Why an account was not registered.
#[derive(Debug, Clone)]
pub enum RegistrationError {
    /// The login is taken.
    LoginNotUnique,
    /// The store failed; the text says how.
    Database(String),
    /// The password could not be hashed; the text says why.
    Bcrypt(String),
}

/// A `RegistrationError` as a value.
pub enum RegistrationErrorView {
    LoginNotUnique,
    Database(Seq<char>),
    Bcrypt(Seq<char>),
}

impl View for RegistrationError {
    type V = RegistrationErrorView;

    open spec fn view(&self) -> RegistrationErrorView {
        match self {
            RegistrationError::LoginNotUnique => RegistrationErrorView::LoginNotUnique,
            RegistrationError::Database(text) => RegistrationErrorView::Database(text@),
            RegistrationError::Bcrypt(text) => RegistrationErrorView::Bcrypt(text@),
        }
    }
}

impl RegistrationErrorView {
    /// The error that a caller sees: a taken login as such, anything else
    /// as an internal error with the text of the failure.
    pub open spec fn api_error(self) -> APIErrorView {
        match self {
            RegistrationErrorView::LoginNotUnique => APIErrorView::LoginAlreadyPresent,
            RegistrationErrorView::Database(text) => APIErrorView::InternalError { message: text },
            RegistrationErrorView::Bcrypt(text) => APIErrorView::InternalError { message: text },
        }
    }

    /// The message for people.
    pub open spec fn message(self) -> Seq<char> {
        match self {
            RegistrationErrorView::LoginNotUnique => "Login is no unique"@,
            RegistrationErrorView::Database(text) => text,
            RegistrationErrorView::Bcrypt(text) => text,
        }
    }
}

impl RegistrationError {
    /// The message for people.
    pub fn message(&self) -> (s: String)
        ensures
            s@ == self@.message(),
    {
        match self {
            RegistrationError::LoginNotUnique => "Login is no unique".to_owned(),
            RegistrationError::Database(text) => text.clone(),
            RegistrationError::Bcrypt(text) => text.clone(),
        }
    }
}

impl APIError {
    /// The error that a caller sees where an account was not registered.
    pub fn from_registration_error(error: RegistrationError) -> (e: APIError)
        ensures
            e@ == error@.api_error(),
    {
        match error {
            RegistrationError::LoginNotUnique => APIError::LoginAlreadyPresent,
            RegistrationError::Database(text) => APIError::InternalError { message: text },
            RegistrationError::Bcrypt(text) => APIError::InternalError { message: text },
        }
    }
}

/// What bcrypt makes of a password and a hash: whether the hash is one of
/// the password, or the text of the error where the hash cannot be read.
pub uninterp spec fn bcrypt_verdict(password: Seq<char>, hash: Seq<char>) -> Result<bool, Seq<char>>;

/// A verdict as a value.
pub open spec fn verdict_view(verdict: Result<bool, String>) -> Result<bool, Seq<char>> {
    match verdict {
        Ok(matches) => Ok(matches),
        Err(text) => Err(text@),
    }
}

/// `bcrypt::verify`: whether `hash` is a hash of `password`. An error of
/// the crate comes back as its text.
#[verifier::external_body]
pub(crate) fn verify_password(password: &str, hash: &str) -> (res: Result<bool, String>)
    ensures
        verdict_view(res) == bcrypt_verdict(password@, hash@),
{
    match bcrypt::verify(password, hash) {
        Ok(matches) => Ok(matches),
        Err(error) => Err(format!("{}", error)),
    }
}

/// `bcrypt::hash`: a hash of `password` at the given cost, with a salt drawn
/// at random. An error of the crate comes back as its text. Whatever salt
/// is drawn, a hash that comes back is one that `bcrypt::verify` takes for
/// the password: it reads cost and salt from the hash and hashes the
/// password again with them.
#[verifier::external_body]
pub(crate) fn hash_password(password: &str, cost: u32) -> (res: Result<String, String>)
    ensures
        res matches Ok(hash) ==> bcrypt_verdict(password@, hash@) == verdict_view(Ok(true)),
{
    match bcrypt::hash(password, cost) {
        Ok(hash) => Ok(hash),
        Err(error) => Err(format!("{}", error)),
    }
}

/// The cost at which passwords are hashed.
pub const HASH_COST: u32 = 8;

/// What a verdict on a password means for a login: the password is right,
/// or the credentials are invalid, or the hash could not be read, which is
/// an internal error with the text of the failure.
pub open spec fn credentials_checked(verdict: Result<bool, Seq<char>>) -> Result<(), APIErrorView> {
    match verdict {
        Ok(true) => Ok(()),
        Ok(false) => Err(APIErrorView::InvalidCredentials),
        Err(text) => Err(APIErrorView::InternalError { message: text }),
    }
}

/// What a verdict on a password means for a login.
pub fn check_verdict(verdict: Result<bool, String>) -> (res: Result<(), APIError>)
    ensures
        match credentials_checked(verdict_view(verdict)) {
            Ok(_) => res is Ok,
            Err(e) => res matches Err(f) && f@ == e,
        },
{
    match verdict {
        Ok(true) => Ok(()),
        Ok(false) => Err(APIError::InvalidCredentials),
        Err(text) => Err(APIError::InternalError { message: text }),
    }
}

impl Account {
    /// Whether `password` is the password of the account.
    pub fn check_password(&self, password: &str) -> (res: Result<(), APIError>)
        ensures
            match credentials_checked(bcrypt_verdict(password@, self.password_hash@)) {
                Ok(_) => res is Ok,
                Err(e) => res matches Err(f) && f@ == e,
            },
    {
        check_verdict(verify_password(password, self.password_hash.as_str()))
    }

    /// The hash to keep for a new password, made at the cost `HASH_COST`. A
    /// hash that comes back is one that the password is checked against
    /// with success; where none does, the error holds the text of the
    /// failure.
    pub fn hash_new_password(password: &str) -> (res: Result<String, RegistrationError>)
        ensures
            match res {
                Ok(hash) => bcrypt_verdict(password@, hash@) == Ok::<bool, Seq<char>>(true),
                Err(e) => e@ is Bcrypt,
            },
    {
        match hash_password(password, HASH_COST) {
            Ok(hash) => Ok(hash),
            Err(text) => Err(RegistrationError::Bcrypt(text)),
        }
    }

    /// Whether a login is free, by the number of accounts that have it: it
    /// is taken where exactly one has it.
    pub fn login_is_free(count: i64) -> (res: Result<(), RegistrationError>)
        ensures
            match res {
                Ok(_) => count != 1,
                Err(e) => count == 1 && e@ is LoginNotUnique,
            },
    {
        if count == 1 {
            Err(RegistrationError::LoginNotUnique)
        } else {
            Ok(())
        }
    }

    /// The account that was registered, once the store has given it an
    /// identifier.
    pub fn register(
        id: AccountID,
        first_name: String,
        last_name: Option<String>,
        login: String,
        password_hash: String,
    ) -> (account: Account)
        ensures
            account.id == id,
            account.first_name == first_name,
            account.last_name == last_name,
            account.login == login,
            account.password_hash == password_hash,
    {
        Account { id, first_name, last_name, login, password_hash }
    }
}

} // verus!
