//! What the uploader sends to an OpenList server and how it reads replies.

use vstd::prelude::*;
use crate::error::UploadError;
use crate::text::{push_char, push_str, trim_end_char};
use crate::config::{AutoUploadOption, OpenListAuth};
use vstd::string::StringSliceAdditionalSpecFns;

verus! {

broadcast use vstd::string::group_string_axioms;

/// Bytes that `percent_encode` keeps as they are: ASCII letters, digits,
/// `-`, `_`, `.`, `~` and `/`.
pub open spec fn is_unreserved(b: u8) -> bool {
    ||| 65 <= b <= 90
    ||| 97 <= b <= 122
    ||| 48 <= b <= 57
    ||| b == 45
    ||| b == 95
    ||| b == 46
    ||| b == 126
    ||| b == 47
}

/// The upper-case hexadecimal digit of `n` (`0 <= n < 16`).
pub open spec fn hex_digit(n: int) -> char {
    if n < 10 {
        (48 + n) as char
    } else {
        (55 + n) as char
    }
}

/// The characters that stand for one byte: the byte itself when it is
/// unreserved, else `%` and its two upper-case hexadecimal digits.
pub open spec fn encode_byte(b: u8) -> Seq<char> {
    if is_unreserved(b) {
        seq![b as char]
    } else {
        seq!['%', hex_digit(b as int / 16), hex_digit(b as int % 16)]
    }
}

/// The percent-encoding of a byte string, byte by byte.
pub open spec fn percent_encoded(bytes: Seq<u8>) -> Seq<char>
    decreases bytes.len(),
{
    if bytes.len() == 0 {
        Seq::empty()
    } else {
        percent_encoded(bytes.drop_last()) + encode_byte(bytes.last())
    }
}

/// A character that may stand in a header value and is ASCII: visible
/// ASCII or a space.
pub open spec fn is_plain_header_char(c: char) -> bool {
    ' ' <= c <= '~'
}

/// Every character of the percent-encoding is visible ASCII.
pub proof fn lemma_percent_encoded_is_plain(bytes: Seq<u8>)
    ensures
        forall|i: int|
            0 <= i < percent_encoded(bytes).len() ==> is_plain_header_char(
                #[trigger] percent_encoded(bytes)[i],
            ),
    decreases bytes.len(),
{
    if bytes.len() > 0 {
        lemma_percent_encoded_is_plain(bytes.drop_last());
        let b = bytes.last();
        let prev = percent_encoded(bytes.drop_last());
        let e = encode_byte(b);
        assert forall|i: int| 0 <= i < e.len() implies is_plain_header_char(#[trigger] e[i]) by {
            if !is_unreserved(b) {
                assert(0 <= b as int / 16 < 16);
                assert(0 <= b as int % 16 < 16);
            }
        }
        assert forall|i: int| 0 <= i < percent_encoded(bytes).len() implies is_plain_header_char(
            #[trigger] percent_encoded(bytes)[i],
        ) by {
            if i < prev.len() {
                assert(percent_encoded(bytes)[i] == prev[i]);
            } else {
                assert(percent_encoded(bytes)[i] == e[i - prev.len()]);
            }
        }
    }
}

fn hex_digit_char(n: u8) -> (c: char)
    requires
        n < 16,
    ensures
        c == hex_digit(n as int),
{
    if n < 10 {
        (n + 48) as char
    } else {
        (n + 55) as char
    }
}

/// Percent-encodes `input` byte by byte for the `File-Path` header: ASCII
/// letters, digits and `-_.~/` stay, every other byte becomes `%XX` in
/// upper-case hexadecimal.
pub fn percent_encode(input: &str) -> (r: String)
    ensures
        r@ == percent_encoded(input.spec_bytes()),
{
    let bytes = input.as_bytes();
    let mut r = String::new();
    let mut i: usize = 0;
    assert(bytes@.take(0) =~= Seq::<u8>::empty());
    while i < bytes.len()
        invariant
            bytes@ == input.spec_bytes(),
            i <= bytes@.len(),
            r@ == percent_encoded(bytes@.take(i as int)),
        decreases bytes@.len() - i,
    {
        let b = bytes[i];
        assert(bytes@.take(i + 1).drop_last() =~= bytes@.take(i as int));
        if (b >= 65 && b <= 90) || (b >= 97 && b <= 122) || (b >= 48 && b <= 57) || b == 45 || b
            == 95 || b == 46 || b == 126 || b == 47 {
            push_char(&mut r, b as char);
        } else {
            push_char(&mut r, '%');
            push_char(&mut r, hex_digit_char(b / 16));
            push_char(&mut r, hex_digit_char(b % 16));
        }
        i = i + 1;
    }
    assert(bytes@.take(i as int) =~= bytes@);
    r
}

} // verus!

verus! {

/// Whether an OpenList reply code means success: 0 or 200.
pub open spec fn is_success_code(code: i32) -> bool {
    code == 0 || code == 200
}

/// Accepts an OpenList reply code of 0 or 200; any other code is an
/// `Api` error carrying the code and the server's message.
pub fn ensure_openlist_success(code: i32, message: &str) -> (r: Result<(), UploadError>)
    ensures
        is_success_code(code) ==> r is Ok,
        !is_success_code(code) ==> (r matches Err(UploadError::Api { code: c, message: m }) && c
            == code && m@ == message@),
{
    if code == 0 || code == 200 {
        Ok(())
    } else {
        Err(UploadError::Api { code, message: crate::text::owned(message) })
    }
}

/// Whether `r` is what a decoded login reply with `code`, `message` and
/// `token` gives: an `Api` error for a code other than 0 or 200, else the
/// token, or `MissingToken` where there is none.
pub open spec fn is_login_outcome(
    code: i32,
    message: Seq<char>,
    token: Option<String>,
    r: Result<String, UploadError>,
) -> bool {
    if !is_success_code(code) {
        r matches Err(UploadError::Api { code: c, message: m }) && c == code && m@ == message
    } else {
        match token {
            Some(t) => r == Ok::<String, UploadError>(t),
            None => r matches Err(UploadError::MissingToken),
        }
    }
}

/// Reads a login reply: its code must be a success code, and then its
/// token must be present.
pub fn login_token(code: i32, message: &str, token: Option<String>) -> (r: Result<
    String,
    UploadError,
>)
    ensures
        is_login_outcome(code, message@, token, r),
{
    ensure_openlist_success(code, message)?;
    match token {
        Some(t) => Ok(t),
        None => Err(UploadError::MissingToken),
    }
}

/// Whether an HTTP status is a client or server error (400..=599).
pub open spec fn is_error_status(status: u16) -> bool {
    400 <= status <= 599
}

/// Judges the reply to a login request. A client or server error status
/// refuses the login, with `refusal`, the text by which the HTTP client
/// reports that status; otherwise the body must have been decoded (`reply`
/// holds its code, message and token, or the text of why it could not be
/// decoded), and the decoded reply is read by `login_token`.
pub fn judge_login_reply(
    status: u16,
    refusal: &str,
    reply: Result<(i32, String, Option<String>), String>,
) -> (r: Result<String, UploadError>)
    ensures
        is_error_status(status) ==> (r matches Err(UploadError::LoginRefused { message: m }) && m@
            == refusal@),
        !is_error_status(status) && reply is Err ==> (r matches Err(
            UploadError::UnreadableLoginReply { cause: c },
        ) && c@ == reply->Err_0@),
        !is_error_status(status) && reply is Ok ==> ({
            let (code, message, token) = reply->Ok_0;
            is_login_outcome(code, message@, token, r)
        }),
{
    if 400 <= status && status <= 599 {
        return Err(UploadError::LoginRefused { message: crate::text::owned(refusal) });
    }
    match reply {
        Err(cause) => Err(UploadError::UnreadableLoginReply { cause }),
        Ok((code, message, token)) => login_token(code, message.as_str(), token),
    }
}

/// Whether an HTTP status is a success (200..=299).
pub open spec fn is_success_status(status: u16) -> bool {
    200 <= status <= 299
}

/// Judges a reply to a request, given how its status reads: a non-success
/// status fails with the status text and body; a blank body is accepted;
/// otherwise the body must have been read as an OpenList reply (`parsed`
/// holds its code and message, or why it could not be read) whose code is a
/// success code.
pub fn judge_openlist_reply(
    status: u16,
    status_text: &str,
    body: &str,
    parsed: Result<(i32, String), String>,
) -> (r: Result<(), UploadError>)
    ensures
        !is_success_status(status) ==> (r matches Err(UploadError::RequestFailed { status: s, body: b })
            && s@ == status_text@ && b@ == body@),
        is_success_status(status) && crate::text::is_blank_text(body@) ==> r is Ok,
        is_success_status(status) && !crate::text::is_blank_text(body@) && parsed is Err ==> (
        r matches Err(UploadError::UnreadableReply { body: b, cause: c }) && b@ == body@ && c@
            == parsed->Err_0@),
        is_success_status(status) && !crate::text::is_blank_text(body@) && parsed is Ok ==> ({
            let (code, message) = parsed->Ok_0;
            &&& is_success_code(code) ==> r is Ok
            &&& !is_success_code(code) ==> (r matches Err(UploadError::Api { code: c, message: m })
                && c == code && m@ == message@)
        }),
{
    if !(200 <= status && status <= 299) {
        return Err(
            UploadError::RequestFailed {
                status: crate::text::owned(status_text),
                body: crate::text::owned(body),
            },
        );
    }
    if crate::text::is_blank(body) {
        return Ok(());
    }
    match parsed {
        Err(cause) => Err(UploadError::UnreadableReply { body: crate::text::owned(body), cause }),
        Ok((code, message)) => ensure_openlist_success(code, message.as_str()),
    }
}

/// How an HTTP status reads: its code, a space, and its canonical reason.
pub uninterp spec fn status_line(code: u16) -> Seq<char>;

/// Whether `text` begins with `code` in decimal and a space, and goes on
/// after them.
pub open spec fn begins_with_code(text: Seq<char>, code: u16) -> bool {
    let head = crate::text::decimal_text(code as int) + seq![' '];
    head.len() < text.len() && text.take(head.len() as int) == head
}

/// `http::StatusCode::from_u16(code)` (as re-exported by reqwest), shown
/// with its `Display`: the text is named `status_line(code)`, and it is the
/// code in decimal, a space, and the code's canonical reason, or a fixed
/// text for a code without one. Which reason is left unsaid.
#[verifier::external_body]
fn status_text(code: u16) -> (r: String)
    requires
        100 <= code <= 999,
    ensures
        r@ == status_line(code),
        begins_with_code(r@, code),
{
    match reqwest::StatusCode::from_u16(code) {
        Ok(status) => status.to_string(),
        Err(_) => String::new(),
    }
}

/// Judges a reply to a request with HTTP status `status`: a non-success
/// status fails with the status as text and the body; a blank body is
/// accepted; otherwise the body must have been read as an OpenList reply
/// (`parsed` holds its code and message, or why it could not be read)
/// whose code is a success code.
pub fn check_openlist_reply(status: u16, body: &str, parsed: Result<(i32, String), String>) -> (r: Result<
    (),
    UploadError,
>)
    requires
        100 <= status <= 999,
    ensures
        !is_success_status(status) ==> (r matches Err(UploadError::RequestFailed { status: s, body: b })
            && s@ == status_line(status) && begins_with_code(s@, status) && b@ == body@),
        is_success_status(status) && crate::text::is_blank_text(body@) ==> r is Ok,
        is_success_status(status) && !crate::text::is_blank_text(body@) && parsed is Err ==> (
        r matches Err(UploadError::UnreadableReply { body: b, cause: c }) && b@ == body@ && c@
            == parsed->Err_0@),
        is_success_status(status) && !crate::text::is_blank_text(body@) && parsed is Ok ==> ({
            let (code, message) = parsed->Ok_0;
            &&& is_success_code(code) ==> r is Ok
            &&& !is_success_code(code) ==> (r matches Err(UploadError::Api { code: c, message: m })
                && c == code && m@ == message@)
        }),
{
    let text = status_text(status);
    judge_openlist_reply(status, text.as_str(), body, parsed)
}

/// `endpoint` followed by `suffix`.
fn endpoint_url(endpoint: &str, suffix: &str) -> (r: String)
    ensures
        r@ == endpoint@ + suffix@,
{
    let mut r = crate::text::owned(endpoint);
    push_str(&mut r, suffix);
    r
}

/// The address that receives file uploads.
pub fn put_url(endpoint: &str) -> (r: String)
    ensures
        r@ == endpoint@ + "/api/fs/put"@,
{
    endpoint_url(endpoint, "/api/fs/put")
}

/// The address that creates directories.
pub fn mkdir_url(endpoint: &str) -> (r: String)
    ensures
        r@ == endpoint@ + "/api/fs/mkdir"@,
{
    endpoint_url(endpoint, "/api/fs/mkdir")
}

/// The address that exchanges a user name and password for a token.
pub fn login_url(endpoint: &str) -> (r: String)
    ensures
        r@ == endpoint@ + "/api/auth/login"@,
{
    endpoint_url(endpoint, "/api/auth/login")
}

} // verus!

verus! {

/// How a client obtains its token.
#[derive(Debug)]
pub enum AuthPlan {
    /// Use this token as it is.
    UseToken(String),
    /// Log in with these credentials to obtain a token.
    Login { username: String, password: String },
}

/// What a new OpenList client is built from: the endpoint without trailing
/// slashes, and how to obtain the token.
pub struct ClientPlan {
    pub endpoint: String,
    pub auth: AuthPlan,
}

/// Whether `plan` is what the configured credentials call for: the same
/// token, or a login with the same user name and password.
pub open spec fn plan_follows(plan: AuthPlan, auth: OpenListAuth) -> bool {
    match (plan, auth) {
        (AuthPlan::UseToken(t), OpenListAuth::Token { token }) => t@ == token@,
        (
            AuthPlan::Login { username: u, password: w },
            OpenListAuth::Password { username, password },
        ) => u@ == username@ && w@ == password@,
        _ => false,
    }
}

/// Decides how to build an OpenList client from the settings: the endpoint
/// loses its trailing slashes and must not become empty; a configured token
/// is used as it is, a user name and password lead to a login, and no
/// credentials is an error.
pub fn client_plan(config: &AutoUploadOption) -> (r: Result<ClientPlan, UploadError>)
    ensures
        trim_end_char(config.openlist.endpoint@, '/').len() == 0 ==> (r matches Err(
            UploadError::EmptyEndpoint,
        )),
        trim_end_char(config.openlist.endpoint@, '/').len() > 0 && config.openlist.auth
            is Unconfigured ==> (r matches Err(UploadError::NoAuth)),
        trim_end_char(config.openlist.endpoint@, '/').len() > 0 && !(config.openlist.auth
            is Unconfigured) ==> (r matches Ok(p) && p.endpoint@ == trim_end_char(
            config.openlist.endpoint@,
            '/',
        ) && plan_follows(p.auth, config.openlist.auth)),
{
    let endpoint = crate::text::trim_end_matches(config.openlist.endpoint.as_str(), '/');
    if endpoint.as_str().is_empty() {
        return Err(UploadError::EmptyEndpoint);
    }
    let auth = match &config.openlist.auth {
        OpenListAuth::Token { token } => AuthPlan::UseToken(
            crate::text::owned(token.as_str()),
        ),
        OpenListAuth::Password { username, password } => AuthPlan::Login {
            username: crate::text::owned(username.as_str()),
            password: crate::text::owned(password.as_str()),
        },
        OpenListAuth::Unconfigured => {
            return Err(UploadError::NoAuth);
        },
    };
    Ok(ClientPlan { endpoint, auth })
}

} // verus!

verus! {

#[verifier::external_type_specification]
#[verifier::external_body]
pub struct ExHeaderValue(reqwest::header::HeaderValue);

#[verifier::external_type_specification]
#[verifier::external_body]
pub struct ExInvalidHeaderValue(reqwest::header::InvalidHeaderValue);

/// The bytes that a header value holds.
pub uninterp spec fn header_value_bytes(value: reqwest::header::HeaderValue) -> Seq<u8>;

/// A byte that HTTP accepts in a header value: a tab, or any byte from 32
/// up but 127.
pub open spec fn is_header_value_byte(b: u8) -> bool {
    (b >= 32 && b != 127) || b == 9
}

/// A byte string that HTTP accepts as a header value.
pub open spec fn is_header_value_text(bytes: Seq<u8>) -> bool {
    forall|i: int| 0 <= i < bytes.len() ==> is_header_value_byte(#[trigger] bytes[i])
}

/// `http::HeaderValue::from_str` (as re-exported by reqwest): it succeeds
/// exactly when every UTF-8 byte of `src` is a tab or at least 32 and not
/// 127, and the value then holds those bytes.
#[verifier::external_body]
fn header_value_from_str(src: &str) -> (r: Result<
    reqwest::header::HeaderValue,
    reqwest::header::InvalidHeaderValue,
>)
    ensures
        r is Ok <==> is_header_value_text(src.spec_bytes()),
        r matches Ok(v) ==> header_value_bytes(v) == src.spec_bytes(),
{
    reqwest::header::HeaderValue::from_str(src)
}

/// The text of `http::header::InvalidHeaderValue` (as re-exported by
/// reqwest), as its `Display` writes it: always the same sentence.
#[verifier::external_body]
fn invalid_header_text(e: &reqwest::header::InvalidHeaderValue) -> (r: String)
    ensures
        r@ == "failed to parse header value"@,
{
    e.to_string()
}

/// The two headers of an upload request.
pub struct UploadHeaders {
    /// The `Authorization` header: the token.
    pub authorization: reqwest::header::HeaderValue,
    /// The `File-Path` header: the percent-encoded remote path.
    pub file_path: reqwest::header::HeaderValue,
}

/// A percent-encoded text is always an acceptable header value.
pub proof fn lemma_percent_encoded_header_text(bytes: Seq<u8>)
    ensures
        is_header_value_text(vstd::utf8::encode_utf8(percent_encoded(bytes))),
{
    let chars = percent_encoded(bytes);
    lemma_percent_encoded_is_plain(bytes);
    assert(vstd::utf8::is_ascii_chars(chars));
    vstd::utf8::is_ascii_chars_encode_utf8(chars);
}

/// Builds the headers of an upload: the token as `Authorization`, and the
/// percent-encoded remote path as `File-Path`. Only the token can be
/// refused, when it holds a byte that HTTP does not accept.
pub fn upload_headers(token: &str, remote_path: &str) -> (r: Result<UploadHeaders, UploadError>)
    ensures
        r is Ok <==> is_header_value_text(token.spec_bytes()),
        r is Err ==> (r matches Err(UploadError::InvalidHeaderValue { message: m }) && m@
            == "failed to parse header value"@),
        r matches Ok(h) ==> header_value_bytes(h.authorization) == token.spec_bytes()
            && header_value_bytes(h.file_path) == vstd::utf8::encode_utf8(
            percent_encoded(remote_path.spec_bytes()),
        ),
{
    let authorization = match header_value_from_str(token) {
        Ok(v) => v,
        Err(e) => {
            return Err(UploadError::InvalidHeaderValue { message: invalid_header_text(&e) });
        },
    };
    let encoded = percent_encode(remote_path);
    proof {
        lemma_percent_encoded_header_text(remote_path.spec_bytes());
    }
    match header_value_from_str(encoded.as_str()) {
        Ok(file_path) => Ok(UploadHeaders { authorization, file_path }),
        Err(e) => Err(UploadError::InvalidHeaderValue { message: invalid_header_text(&e) }),
    }
}

} // verus!

verus! {

/// The value of an upper-case hexadecimal digit.
pub open spec fn hex_value(c: char) -> int {
    if c <= '9' {
        c as int - 48
    } else {
        c as int - 55
    }
}

/// Percent-decoding, read from the end: a `%` three places from the end
/// starts an escape of the last two digits; any other last character stands
/// for its own byte.
pub open spec fn percent_decoded(s: Seq<char>) -> Seq<u8>
    decreases s.len(),
{
    if s.len() == 0 {
        Seq::empty()
    } else if s.len() >= 3 && s[s.len() - 3] == '%' {
        percent_decoded(s.take(s.len() - 3)).push(
            (hex_value(s[s.len() - 2]) * 16 + hex_value(s[s.len() - 1])) as u8,
        )
    } else {
        percent_decoded(s.drop_last()).push(s.last() as u8)
    }
}

/// The number of characters that a byte string encodes to: one per
/// unreserved byte, three per other byte.
pub open spec fn percent_encoded_len(bytes: Seq<u8>) -> nat
    decreases bytes.len(),
{
    if bytes.len() == 0 {
        0
    } else {
        percent_encoded_len(bytes.drop_last()) + if is_unreserved(bytes.last()) {
            1nat
        } else {
            3nat
        }
    }
}

/// A `%` never stands in the last two places of an encoding.
proof fn lemma_no_escape_at_end(bytes: Seq<u8>)
    ensures
        ({
            let s = percent_encoded(bytes);
            &&& s.len() >= 1 ==> s[s.len() - 1] != '%'
            &&& s.len() >= 2 ==> s[s.len() - 2] != '%'
        }),
    decreases bytes.len(),
{
    if bytes.len() > 0 {
        let p = percent_encoded(bytes.drop_last());
        let b = bytes.last();
        lemma_no_escape_at_end(bytes.drop_last());
        let s = percent_encoded(bytes);
        assert(s == p + encode_byte(b));
        if is_unreserved(b) {
            assert(s[s.len() - 1] == b as char);
            if s.len() >= 2 {
                assert(s[s.len() - 2] == p[p.len() - 1]);
            }
        } else {
            assert(0 <= b as int / 16 < 16);
            assert(0 <= b as int % 16 < 16);
            assert(s[s.len() - 1] == hex_digit(b as int % 16));
            assert(s[s.len() - 2] == hex_digit(b as int / 16));
        }
    }
}

/// The encoding has one character per unreserved byte and three per other
/// byte.
pub proof fn lemma_percent_encoded_len(bytes: Seq<u8>)
    ensures
        percent_encoded(bytes).len() == percent_encoded_len(bytes),
    decreases bytes.len(),
{
    if bytes.len() > 0 {
        lemma_percent_encoded_len(bytes.drop_last());
    }
}

/// Decoding an encoding gives back the bytes.
pub proof fn lemma_percent_decode_encode(bytes: Seq<u8>)
    ensures
        percent_decoded(percent_encoded(bytes)) == bytes,
    decreases bytes.len(),
{
    if bytes.len() > 0 {
        let rest = bytes.drop_last();
        let b = bytes.last();
        let p = percent_encoded(rest);
        let s = percent_encoded(bytes);
        lemma_percent_decode_encode(rest);
        lemma_no_escape_at_end(rest);
        assert(s == p + encode_byte(b));
        if is_unreserved(b) {
            if s.len() >= 3 {
                assert(s[s.len() - 3] == p[p.len() - 2]);
            }
            assert(s.drop_last() =~= p);
            assert(s.last() == b as char);
            assert((b as char) as u8 == b);
        } else {
            let hi = b as int / 16;
            let lo = b as int % 16;
            assert(0 <= hi < 16 && 0 <= lo < 16);
            assert(s.take(s.len() - 3) =~= p);
            assert(s[s.len() - 3] == '%');
            assert(hex_value(hex_digit(hi)) == hi);
            assert(hex_value(hex_digit(lo)) == lo);
            assert(hi * 16 + lo == b as int);
        }
        assert(bytes =~= rest.push(b));
    }
}

/// Different byte strings encode differently.
pub proof fn lemma_percent_encoded_injective(a: Seq<u8>, b: Seq<u8>)
    requires
        percent_encoded(a) == percent_encoded(b),
    ensures
        a == b,
{
    lemma_percent_decode_encode(a);
    lemma_percent_decode_encode(b);
}

} // verus!

verus! {

/// Different texts have different percent-encodings of their UTF-8 bytes.
pub proof fn lemma_percent_encode_text_injective(a: Seq<char>, b: Seq<char>)
    requires
        percent_encoded(vstd::utf8::encode_utf8(a)) == percent_encoded(vstd::utf8::encode_utf8(b)),
    ensures
        a == b,
{
    lemma_percent_encoded_injective(vstd::utf8::encode_utf8(a), vstd::utf8::encode_utf8(b));
    vstd::utf8::encode_utf8_decode_utf8(a);
    vstd::utf8::encode_utf8_decode_utf8(b);
}

} // verus!
