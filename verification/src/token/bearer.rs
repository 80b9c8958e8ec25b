//! The `Authorization` header of a request: how the token is taken out of
//! `Bearer <token>`.

use vstd::prelude::*;
use vstd::string::{StrSliceExecFns, StringSliceAdditionalSpecFns};
use vstd::utf8::is_ascii_chars;
use crate::error::{APIError, APIErrorView, RequestScope};
use crate::token::{
    authenticate_claim_at, authenticated, claim_result_view, current_timestamp,
    is_clock_moment,
    AccessToken, AccessTokenInfo, ApplicationClaim, ApplicationClaimView, ApplicationToken,
};
use crate::types::SecondsSinceEpoch;

verus! {

/// What a request holds under `Authorization`.
#[derive(Debug, Clone)]
pub enum AuthorizationHeader {
    /// No such header.
    Absent,
    /// A header whose value is no text; `reason` says why.
    Unreadable { reason: String },
    /// A header with this value.
    Value(String),
}

/// An `AuthorizationHeader` as a value.
pub enum AuthorizationHeaderView {
    Absent,
    Unreadable { reason: Seq<char> },
    Value(Seq<char>),
}

impl View for AuthorizationHeader {
    type V = AuthorizationHeaderView;

    open spec fn view(&self) -> AuthorizationHeaderView {
        match self {
            AuthorizationHeader::Absent => AuthorizationHeaderView::Absent,
            AuthorizationHeader::Unreadable { reason } => AuthorizationHeaderView::Unreadable {
                reason: reason@,
            },
            AuthorizationHeader::Value(text) => AuthorizationHeaderView::Value(text@),
        }
    }
}

/// Whether a character separates words: space, tab, line feed, form feed or
/// carriage return.
pub open spec fn is_space(c: char) -> bool {
    c == ' ' || c == '\t' || c == '\n' || c == '\x0C' || c == '\r'
}

/// The first place at or after `i` where no space stands.
pub open spec fn skip_spaces(s: Seq<char>, i: int) -> int
    decreases s.len() - i,
{
    if 0 <= i < s.len() && is_space(s[i]) {
        skip_spaces(s, i + 1)
    } else {
        i
    }
}

/// The first place at or after `i` where a space stands, or the end.
pub open spec fn skip_word(s: Seq<char>, i: int) -> int
    decreases s.len() - i,
{
    if 0 <= i < s.len() && !is_space(s[i]) {
        skip_word(s, i + 1)
    } else {
        i
    }
}

/// The two words of a text that holds exactly two, spaces around and
/// between them left out.
pub open spec fn two_words(s: Seq<char>) -> Option<(Seq<char>, Seq<char>)> {
    let a = skip_spaces(s, 0);
    let b = skip_word(s, a);
    let c = skip_spaces(s, b);
    let d = skip_word(s, c);
    let e = skip_spaces(s, d);
    if a < b && c < d && e >= s.len() {
        Some((s.subrange(a, b), s.subrange(c, d)))
    } else {
        None
    }
}

/// A letter of the alphabet from `A` to `Z` in lower case; any other
/// character as it is.
pub open spec fn lower(c: char) -> char {
    if 'A' <= c <= 'Z' {
        ((c as u8) + 32) as char
    } else {
        c
    }
}

/// Whether a word is `bearer`, in upper or lower case or any mix of them.
pub open spec fn is_bearer(word: Seq<char>) -> bool {
    &&& word.len() == 6
    &&& lower(word[0]) == 'b'
    &&& lower(word[1]) == 'e'
    &&& lower(word[2]) == 'a'
    &&& lower(word[3]) == 'r'
    &&& lower(word[4]) == 'e'
    &&& lower(word[5]) == 'r'
}

/// The token in the value of an `Authorization` header: the second of
/// exactly two words, where the first is `bearer` in any case.
pub open spec fn bearer_token(value: Seq<char>) -> Option<Seq<char>> {
    match two_words(value) {
        Some((scheme, token)) => if is_bearer(scheme) {
            Some(token)
        } else {
            None
        },
        None => None,
    }
}

/// What taking the token out of a header gives. No header is
/// `NoTokenPresent`. A value that is no text is a bad request in the header,
/// with the reason. A value that is not `Bearer` and one token is
/// `InvalidToken`.
pub open spec fn extracted(header: AuthorizationHeaderView) -> Result<Seq<char>, APIErrorView> {
    match header {
        AuthorizationHeaderView::Absent => Err(APIErrorView::NoTokenPresent),
        AuthorizationHeaderView::Unreadable { reason } => Err(
            APIErrorView::BadRequest { message: reason, scope: Some(RequestScope::Header) },
        ),
        AuthorizationHeaderView::Value(value) => match bearer_token(value) {
            Some(token) => Ok(token),
            None => Err(APIErrorView::InvalidToken),
        },
    }
}

fn is_space_byte(b: u8) -> (res: bool)
    ensures
        res == (b == 32 || b == 9 || b == 10 || b == 12 || b == 13),
{
    b == 32 || b == 9 || b == 10 || b == 12 || b == 13
}

/// A character below 128 is a space exactly when its byte is one of the
/// five.
proof fn lemma_space_byte(c: char)
    requires
        c <= '\u{7f}',
    ensures
        is_space(c) <==> (c as u8 == 32 || c as u8 == 9 || c as u8 == 10 || c as u8 == 12 || c as u8
            == 13),
{
}

fn scan_spaces(text: &str, start: usize) -> (end: usize)
    requires
        is_ascii_chars(text@),
        start <= text@.len(),
    ensures
        end == skip_spaces(text@, start as int),
        start <= end <= text@.len(),
{
    let bytes = text.as_bytes();
    proof {
        vstd::utf8::is_ascii_chars_encode_utf8(text@);
    }
    let mut i = start;
    while i < bytes.len() && is_space_byte(bytes[i])
        invariant
            start <= i <= text@.len(),
            bytes@ == text.spec_bytes(),
            bytes@.len() == text@.len(),
            is_ascii_chars(text@),
            forall|k: int| 0 <= k < text@.len() ==> text@[k] as u8 == #[trigger] bytes@[k],
            skip_spaces(text@, start as int) == skip_spaces(text@, i as int),
        decreases bytes.len() - i,
    {
        proof {
            lemma_space_byte(text@[i as int]);
        }
        i += 1;
    }
    proof {
        if i < bytes.len() {
            lemma_space_byte(text@[i as int]);
        }
    }
    i
}

fn scan_word(text: &str, start: usize) -> (end: usize)
    requires
        is_ascii_chars(text@),
        start <= text@.len(),
    ensures
        end == skip_word(text@, start as int),
        start <= end <= text@.len(),
{
    let bytes = text.as_bytes();
    proof {
        vstd::utf8::is_ascii_chars_encode_utf8(text@);
    }
    let mut i = start;
    while i < bytes.len() && !is_space_byte(bytes[i])
        invariant
            start <= i <= text@.len(),
            bytes@ == text.spec_bytes(),
            bytes@.len() == text@.len(),
            is_ascii_chars(text@),
            forall|k: int| 0 <= k < text@.len() ==> text@[k] as u8 == #[trigger] bytes@[k],
            skip_word(text@, start as int) == skip_word(text@, i as int),
        decreases bytes.len() - i,
    {
        proof {
            lemma_space_byte(text@[i as int]);
        }
        i += 1;
    }
    proof {
        if i < bytes.len() {
            lemma_space_byte(text@[i as int]);
        }
    }
    i
}

fn lower_byte(b: u8) -> (res: u8)
    ensures
        res == if 65 <= b <= 90 {
            (b + 32) as u8
        } else {
            b
        },
{
    if 65 <= b && b <= 90 {
        b + 32
    } else {
        b
    }
}

proof fn lemma_lower_byte(c: char, letter: char)
    requires
        c <= '\u{7f}',
        'a' <= letter <= 'z',
    ensures
        lower(c) == letter <==> (if 65 <= c as u8 <= 90 {
            (c as u8 + 32) as u8
        } else {
            c as u8
        }) == letter as u8,
{
}

fn word_is_bearer(text: &str, from: usize, to: usize) -> (res: bool)
    requires
        is_ascii_chars(text@),
        from <= to <= text@.len(),
    ensures
        res == is_bearer(text@.subrange(from as int, to as int)),
{
    let bytes = text.as_bytes();
    proof {
        vstd::utf8::is_ascii_chars_encode_utf8(text@);
    }
    if to - from != 6 {
        return false;
    }
    let ghost word = text@.subrange(from as int, to as int);
    proof {
        assert(forall|k: int| 0 <= k < 6 ==> word[k] == text@[from + k]);
        lemma_lower_byte(word[0], 'b');
        lemma_lower_byte(word[1], 'e');
        lemma_lower_byte(word[2], 'a');
        lemma_lower_byte(word[3], 'r');
        lemma_lower_byte(word[4], 'e');
        lemma_lower_byte(word[5], 'r');
    }
    lower_byte(bytes[from]) == 98 && lower_byte(bytes[from + 1]) == 101 && lower_byte(
        bytes[from + 2],
    ) == 97 && lower_byte(bytes[from + 3]) == 114 && lower_byte(bytes[from + 4]) == 101
        && lower_byte(bytes[from + 5]) == 114
}

fn is_space_char(c: char) -> (res: bool)
    ensures
        res == is_space(c),
{
    c == ' ' || c == '\t' || c == '\n' || c == '\x0C' || c == '\r'
}

/// The first place at or after `start` where no space stands, in a text of
/// `len` characters of any kind.
fn scan_spaces_wide(text: &str, len: usize, start: usize) -> (end: usize)
    requires
        len == text@.len(),
        start <= len,
    ensures
        end == skip_spaces(text@, start as int),
        start <= end <= len,
{
    let mut i = start;
    while i < len && is_space_char(text.get_char(i))
        invariant
            start <= i <= len,
            len == text@.len(),
            skip_spaces(text@, start as int) == skip_spaces(text@, i as int),
        decreases len - i,
    {
        i += 1;
    }
    i
}

/// The first place at or after `start` where a space stands, or the end, in
/// a text of `len` characters of any kind.
fn scan_word_wide(text: &str, len: usize, start: usize) -> (end: usize)
    requires
        len == text@.len(),
        start <= len,
    ensures
        end == skip_word(text@, start as int),
        start <= end <= len,
{
    let mut i = start;
    while i < len && !is_space_char(text.get_char(i))
        invariant
            start <= i <= len,
            len == text@.len(),
            skip_word(text@, start as int) == skip_word(text@, i as int),
        decreases len - i,
    {
        i += 1;
    }
    i
}

/// Whether a character is the given letter in lower or upper case.
fn is_letter(c: char, small: char, big: char) -> (res: bool)
    requires
        'a' <= small <= 'z',
        big as u8 + 32 == small as u8,
        'A' <= big <= 'Z',
    ensures
        res == (lower(c) == small),
{
    c == small || c == big
}

fn word_is_bearer_wide(text: &str, from: usize, to: usize) -> (res: bool)
    requires
        from <= to <= text@.len(),
    ensures
        res == is_bearer(text@.subrange(from as int, to as int)),
{
    if to - from != 6 {
        return false;
    }
    let ghost word = text@.subrange(from as int, to as int);
    proof {
        assert(forall|k: int| 0 <= k < 6 ==> word[k] == text@[from + k]);
    }
    is_letter(text.get_char(from), 'b', 'B') && is_letter(text.get_char(from + 1), 'e', 'E')
        && is_letter(text.get_char(from + 2), 'a', 'A') && is_letter(
        text.get_char(from + 3),
        'r',
        'R',
    ) && is_letter(text.get_char(from + 4), 'e', 'E') && is_letter(
        text.get_char(from + 5),
        'r',
        'R',
    )
}

/// Takes the token out of a value that holds characters beyond the first
/// 128 of Unicode, character by character.
fn token_of_wide_value(value: &str) -> (res: Option<String>)
    ensures
        match bearer_token(value@) {
            Some(token) => res matches Some(text) && text@ == token,
            None => res is None,
        },
{
    let len = value.unicode_len();
    let a = scan_spaces_wide(value, len, 0);
    let b = scan_word_wide(value, len, a);
    let c = scan_spaces_wide(value, len, b);
    let d = scan_word_wide(value, len, c);
    let e = scan_spaces_wide(value, len, d);
    if !(a < b && c < d && e >= len) {
        return None;
    }
    if !word_is_bearer_wide(value, a, b) {
        return None;
    }
    Some(value.substring_char(c, d).to_owned())
}

/// Takes the token out of the value of an `Authorization` header.
pub fn token_of_value(value: &str) -> (res: Option<String>)
    ensures
        match bearer_token(value@) {
            Some(token) => res matches Some(text) && text@ == token,
            None => res is None,
        },
{
    if !value.is_ascii() {
        return token_of_wide_value(value);
    }
    proof {
        vstd::utf8::is_ascii_chars_encode_utf8(value@);
    }
    let a = scan_spaces(value, 0);
    let b = scan_word(value, a);
    let c = scan_spaces(value, b);
    let d = scan_word(value, c);
    let e = scan_spaces(value, d);
    let len = value.as_bytes().len();
    if !(a < b && c < d && e >= len) {
        return None;
    }
    if !word_is_bearer(value, a, b) {
        return None;
    }
    Some(value.substring_ascii(c, d).to_owned())
}

/// Takes the access token out of the `Authorization` header of a request.
pub fn extract_token(header: &AuthorizationHeader) -> (res: Result<AccessToken, APIError>)
    ensures
        match extracted(header@) {
            Ok(token) => res matches Ok(t) && t.text() == token,
            Err(e) => res matches Err(f) && f@ == e,
        },
{
    match header {
        AuthorizationHeader::Absent => Err(APIError::NoTokenPresent),
        AuthorizationHeader::Unreadable { reason } => Err(
            APIError::BadRequest { message: reason.clone(), scope: Some(RequestScope::Header) },
        ),
        AuthorizationHeader::Value(value) => match token_of_value(value.as_str()) {
            Some(text) => Ok(AccessToken::from_text(text)),
            None => Err(APIError::InvalidToken),
        },
    }
}

/// What authenticating a request by its header at `now` gives: the error of
/// taking the token out, or what authenticating that token gives.
pub open spec fn header_authenticated(
    header: AuthorizationHeaderView,
    secret: Seq<char>,
    now: SecondsSinceEpoch,
) -> Result<ApplicationClaimView<AccessTokenInfo>, APIErrorView> {
    match extracted(header) {
        Ok(token) => authenticated::<AccessTokenInfo>(secret, token, now),
        Err(e) => Err(e),
    }
}

/// Authenticates a request by its `Authorization` header at `now`.
pub fn authenticate_claim_from_headers_at(
    header: &AuthorizationHeader,
    secret: &str,
    now: SecondsSinceEpoch,
) -> (res: Result<ApplicationClaim<AccessTokenInfo>, APIError>)
    ensures
        claim_result_view(res) == header_authenticated(header@, secret@, now),
{
    match extract_token(header) {
        Ok(token) => authenticate_claim_at(token, secret, now),
        Err(e) => Err(e),
    }
}

/// Authenticates a request by its `Authorization` header at the present
/// moment: what authenticating it gives at some moment that the clock can
/// give.
pub fn authenticate_claim_from_headers(header: &AuthorizationHeader, secret: &str) -> (res: Result<
    ApplicationClaim<AccessTokenInfo>,
    APIError,
>)
    ensures
        exists|now: SecondsSinceEpoch|
            is_clock_moment(now) && claim_result_view(res) == #[trigger] header_authenticated(
                header@,
                secret@,
                now,
            ),
{
    let now = current_timestamp();
    authenticate_claim_from_headers_at(header, secret, now)
}

} // verus!
