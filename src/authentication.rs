use vstd::prelude::*;
use vstd::utf8::{decode_utf8, valid_utf8};

verus! {

/// What a caller presents to be let in.
#[derive(Debug, PartialEq, Eq)]
pub struct Credentials {
    pub username: String,
    pub password: String,
}

/// Why an `Authorization` header gave no credentials.
#[derive(Clone, Copy, Debug, PartialEq, Eq, Structural)]
pub enum BasicAuthError {
    /// There is no `Authorization` header.
    MissingHeader,
    /// The header does not start with `Basic `.
    NotBasic,
    /// What follows `Basic ` is not standard base64.
    NotBase64,
    /// The decoded credentials are not UTF-8.
    NotUtf8,
    /// The decoded credentials have no `:` between user name and password.
    MissingPassword,
}

/// The bytes that standard base64 (with padding) decodes `s` to, if it is valid.
pub uninterp spec fn base64_standard_decode(s: Seq<char>) -> Option<Seq<u8>>;

/// Relies on base64's `decode_config` with the `STANDARD` configuration: the
/// decoded bytes, or nothing when `s` is not valid standard base64.
#[verifier::external_body]
fn decode_base64(s: &str) -> (r: Option<Vec<u8>>)
    ensures
        r is Some <==> base64_standard_decode(s@) is Some,
        r matches Some(b) ==> b@ == base64_standard_decode(s@)->Some_0,
{
    match base64::decode_config(s, base64::STANDARD) {
        Ok(b) => Some(b),
        Err(_) => None,
    }
}

/// Relies on `String::from_utf8`: it accepts exactly the valid UTF-8 byte
/// sequences and holds the characters they encode.
#[verifier::external_body]
fn utf8_string(bytes: Vec<u8>) -> (r: Option<String>)
    ensures
        r is Some <==> valid_utf8(bytes@),
        r matches Some(s) ==> s@ == decode_utf8(bytes@),
{
    match String::from_utf8(bytes) {
        Ok(s) => Some(s),
        Err(_) => None,
    }
}

/// `i` is the position of the first `:` in `s`.
pub open spec fn is_first_colon(s: Seq<char>, i: int) -> bool {
    &&& 0 <= i < s.len()
    &&& s[i] == ':'
    &&& forall|j: int| 0 <= j < i ==> #[trigger] s[j] != ':'
}

/// The user name and the password in decoded `user:password` text, split at the first `:`.
pub open spec fn split_credentials(s: Seq<char>) -> Result<(Seq<char>, Seq<char>), BasicAuthError> {
    if exists|i: int| #[trigger] is_first_colon(s, i) {
        let i = choose|i: int| #[trigger] is_first_colon(s, i);
        Ok((s.take(i), s.skip(i + 1)))
    } else {
        Err(BasicAuthError::MissingPassword)
    }
}

/// What decoded `Basic` credentials give.
pub open spec fn credentials_from_bytes_spec(bytes: Seq<u8>) -> Result<
    (Seq<char>, Seq<char>),
    BasicAuthError,
> {
    if valid_utf8(bytes) {
        split_credentials(decode_utf8(bytes))
    } else {
        Err(BasicAuthError::NotUtf8)
    }
}

/// What an `Authorization` header, if there is one, gives.
pub open spec fn basic_authentication_spec(header: Option<Seq<char>>) -> Result<
    (Seq<char>, Seq<char>),
    BasicAuthError,
> {
    match header {
        None => Err(BasicAuthError::MissingHeader),
        Some(h) => {
            if h.len() < 6 || h.take(6) != "Basic "@ {
                Err(BasicAuthError::NotBasic)
            } else {
                match base64_standard_decode(h.skip(6)) {
                    None => Err(BasicAuthError::NotBase64),
                    Some(bytes) => credentials_from_bytes_spec(bytes),
                }
            }
        },
    }
}

pub open spec fn credentials_view(r: Result<Credentials, BasicAuthError>) -> Result<
    (Seq<char>, Seq<char>),
    BasicAuthError,
> {
    match r {
        Ok(c) => Ok((c.username@, c.password@)),
        Err(e) => Err(e),
    }
}

fn find_first_colon(s: &str) -> (r: Option<usize>)
    ensures
        r matches Some(i) ==> is_first_colon(s@, i as int),
        r is None ==> forall|i: int| !is_first_colon(s@, i),
{
    let cs = crate::text::chars_of(s);
    let mut i: usize = 0;
    while i < cs.len()
        invariant
            cs@ == s@,
            i <= cs@.len(),
            forall|j: int| 0 <= j < i ==> #[trigger] cs@[j] != ':',
        decreases cs@.len() - i,
    {
        if cs[i] == ':' {
            return Some(i);
        }
        i = i + 1;
    }
    None
}

/// Splits decoded `user:password` credentials at the first `:`.
pub fn credentials_from_bytes(decoded: Vec<u8>) -> (r: Result<Credentials, BasicAuthError>)
    ensures
        credentials_view(r) == credentials_from_bytes_spec(decoded@),
{
    let ghost bytes = decoded@;
    let text = match utf8_string(decoded) {
        Some(t) => t,
        None => {
            return Err(BasicAuthError::NotUtf8);
        },
    };
    let s = text.as_str();
    match find_first_colon(s) {
        None => Err(BasicAuthError::MissingPassword),
        Some(i) => {
            let n = s.unicode_len();
            let username = s.substring_char(0, i).to_owned();
            let password = s.substring_char(i + 1, n).to_owned();
            proof {
                let c = choose|k: int| #[trigger] is_first_colon(s@, k);
                if c < i {
                    assert(s@[c] != ':');
                } else if c > i {
                    assert(s@[i as int] != ':');
                }
                assert(username@ =~= s@.take(i as int));
                assert(password@ =~= s@.skip(i + 1));
            }
            Ok(Credentials { username, password })
        },
    }
}

/// Reads `Basic` credentials from the value of an `Authorization` header.
pub fn basic_authentication(authorization: Option<&str>) -> (r: Result<Credentials, BasicAuthError>)
    ensures
        credentials_view(r) == basic_authentication_spec(
            match authorization {
                Some(h) => Some(h@),
                None => None,
            },
        ),
{
    let header = match authorization {
        Some(h) => h,
        None => {
            return Err(BasicAuthError::MissingHeader);
        },
    };
    let n = header.unicode_len();
    if n < 6 {
        return Err(BasicAuthError::NotBasic);
    }
    let scheme = header.substring_char(0, 6).to_owned();
    let basic = String::from_str("Basic ");
    if !(scheme == basic) {
        return Err(BasicAuthError::NotBasic);
    }
    let encoded = header.substring_char(6, n);
    match decode_base64(encoded) {
        None => Err(BasicAuthError::NotBase64),
        Some(bytes) => credentials_from_bytes(bytes),
    }
}

} // verus!
