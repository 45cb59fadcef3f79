use crate::text::{trim, trim_end, trim_start};
use base64::Engine;
use vstd::prelude::*;
use vstd::string::StringSliceAdditionalSpecFns;
use vstd::utf8::{decode_utf8, valid_utf8};

verus! {

/// The longest message, in bytes, that the form accepts.
pub const MAX_MESSAGE_LENGTH: usize = 144;

/// How a character is written inside HTML text.
pub open spec fn html_entity(c: char) -> Seq<char> {
    if c == '&' {
        "&amp;"@
    } else if c == '<' {
        "&lt;"@
    } else if c == '>' {
        "&gt;"@
    } else if c == '"' {
        "&quot;"@
    } else if c == '\'' {
        "&#39;"@
    } else {
        seq![c]
    }
}

/// `s` with each character written as HTML text.
pub open spec fn html_escaped(s: Seq<char>) -> Seq<char>
    decreases s.len(),
{
    if s.len() == 0 {
        seq![]
    } else {
        html_escaped(s.drop_last()) + html_entity(s.last())
    }
}

/// Escapes `s` for display inside an HTML page.
pub fn html_escape(s: &str) -> (r: String)
    ensures
        r@ == html_escaped(s@),
{
    let n = s.unicode_len();
    let mut out = String::new();
    let mut i: usize = 0;
    while i < n
        invariant
            n == s@.len(),
            i <= n,
            out@ == html_escaped(s@.subrange(0, i as int)),
        decreases n - i,
    {
        let c = s.get_char(i);
        if c == '&' {
            out.append("&amp;");
        } else if c == '<' {
            out.append("&lt;");
        } else if c == '>' {
            out.append("&gt;");
        } else if c == '"' {
            out.append("&quot;");
        } else if c == '\'' {
            out.append("&#39;");
        } else {
            out.append(s.substring_char(i, i + 1));
        }
        assert(s@.subrange(0, i + 1).drop_last() =~= s@.subrange(0, i as int));
        i = i + 1;
    }
    assert(s@.subrange(0, n as int) =~= s@);
    out
}

/// Whether two texts hold the same characters.
pub fn same_text(a: &str, b: &str) -> (r: bool)
    ensures
        r == (a@ == b@),
{
    let n = a.unicode_len();
    if n != b.unicode_len() {
        return false;
    }
    let mut i: usize = 0;
    while i < n
        invariant
            n == a@.len(),
            n == b@.len(),
            i <= n,
            a@.subrange(0, i as int) == b@.subrange(0, i as int),
        decreases n - i,
    {
        if a.get_char(i) != b.get_char(i) {
            assert(a@[i as int] != b@[i as int]);
            return false;
        }
        assert(a@.subrange(0, i + 1) =~= a@.subrange(0, i as int).push(a@[i as int]));
        assert(b@.subrange(0, i + 1) =~= b@.subrange(0, i as int).push(b@[i as int]));
        i = i + 1;
    }
    assert(a@ =~= a@.subrange(0, n as int));
    assert(b@ =~= b@.subrange(0, n as int));
    true
}

/// Why the form refused a new message.
#[derive(Clone, Copy, Debug, PartialEq, Eq, Structural)]
pub enum FormError {
    /// The user name or the password is wrong.
    InvalidCredentials,
    /// The message is longer than `MAX_MESSAGE_LENGTH` bytes.
    TooLong,
}

/// What the form does with a submission: credentials first, then the
/// length in bytes, then the message is kept without surrounding white space.
pub open spec fn form_outcome(
    username: Seq<char>,
    password: Seq<char>,
    message: Seq<char>,
    message_bytes: nat,
    expected_username: Seq<char>,
    expected_password: Seq<char>,
) -> Result<Seq<char>, FormError> {
    if username != expected_username || password != expected_password {
        Err(FormError::InvalidCredentials)
    } else if message_bytes > MAX_MESSAGE_LENGTH {
        Err(FormError::TooLong)
    } else {
        Ok(trim_end(trim_start(message)))
    }
}

/// Checks a form submission and gives the message to store.
pub fn accept_message(
    username: &str,
    password: &str,
    message: &str,
    expected_username: &str,
    expected_password: &str,
) -> (r: Result<String, FormError>)
    ensures
        match form_outcome(
            username@,
            password@,
            message@,
            message.spec_bytes().len(),
            expected_username@,
            expected_password@,
        ) {
            Ok(m) => r matches Ok(s) && s@ == m,
            Err(e) => r == Err::<String, FormError>(e),
        },
{
    if !same_text(username, expected_username) || !same_text(password, expected_password) {
        return Err(FormError::InvalidCredentials);
    }
    if message.as_bytes().len() > MAX_MESSAGE_LENGTH {
        return Err(FormError::TooLong);
    }
    Ok(trim(message))
}

/// The first index of `c` in `s` at or after `from`.
pub open spec fn index_of(s: Seq<char>, c: char, from: int) -> Option<int>
    decreases s.len() - from,
{
    if from < 0 || from >= s.len() {
        None
    } else if s[from] == c {
        Some(from)
    } else {
        index_of(s, c, from + 1)
    }
}

/// `user:password` holds these credentials: the part before the first colon
/// is the user name, the rest the password.
pub open spec fn credentials_hold(decoded: Seq<char>, username: Seq<char>, password: Seq<char>) -> bool {
    match index_of(decoded, ':', 0) {
        Some(i) => decoded.subrange(0, i) == username && decoded.subrange(i + 1, decoded.len() as int)
            == password,
        None => false,
    }
}

/// Whether `user:password` text names the expected user and password.
pub fn credentials_match(decoded: &str, username: &str, password: &str) -> (r: bool)
    ensures
        r == credentials_hold(decoded@, username@, password@),
{
    let n = decoded.unicode_len();
    let mut i: usize = 0;
    while i < n && decoded.get_char(i) != ':'
        invariant
            n == decoded@.len(),
            i <= n,
            index_of(decoded@, ':', 0) == index_of(decoded@, ':', i as int),
        decreases n - i,
    {
        i = i + 1;
    }
    if i == n {
        return false;
    }
    same_text(decoded.substring_char(0, i), username) && same_text(
        decoded.substring_char(i + 1, n),
        password,
    )
}

/// The bytes that standard base64 (with padding) decodes `s` to, or `None`
/// where `s` is not such text.
pub uninterp spec fn base64_decoded(s: Seq<char>) -> Option<Seq<u8>>;

/// Relies on base64's `general_purpose::STANDARD` engine and its
/// `Engine::decode`: the decoded bytes, or an error for text that is not
/// padded standard base64.
#[verifier::external_body]
fn decode_base64(s: &str) -> (r: Option<Vec<u8>>)
    ensures
        match r {
            Some(b) => base64_decoded(s@) == Some(b@),
            None => base64_decoded(s@) is None,
        },
{
    base64::engine::general_purpose::STANDARD.decode(s).ok()
}

/// Relies on std's `String::from_utf8`: `Ok` exactly when the bytes are
/// valid UTF-8, holding the characters they encode.
#[verifier::external_body]
fn utf8_text(b: Vec<u8>) -> (r: Option<String>)
    ensures
        match r {
            Some(t) => valid_utf8(b@) && t@ == decode_utf8(b@),
            None => !valid_utf8(b@),
        },
{
    String::from_utf8(b).ok()
}

/// The `Authorization` header value `header` is a `Basic` one that names
/// these credentials.
pub open spec fn basic_auth_holds(header: Seq<char>, username: Seq<char>, password: Seq<char>) -> bool {
    &&& header.len() >= 6
    &&& header.subrange(0, 6) == "Basic "@
    &&& base64_decoded(header.subrange(6, header.len() as int)) matches Some(b)
    &&& valid_utf8(b)
    &&& credentials_hold(decode_utf8(b), username, password)
}

/// Checks an `Authorization` header value against the expected credentials.
pub fn basic_auth_matches(header: &str, username: &str, password: &str) -> (r: bool)
    ensures
        r == basic_auth_holds(header@, username@, password@),
{
    let n = header.unicode_len();
    if n < 6 || !same_text(header.substring_char(0, 6), "Basic ") {
        return false;
    }
    match decode_base64(header.substring_char(6, n)) {
        Some(bytes) => match utf8_text(bytes) {
            Some(text) => credentials_match(text.as_str(), username, password),
            None => false,
        },
        None => false,
    }
}

} // verus!
