//! Who may change the queue: the credential a dashboard sends with each
//! request, and what the server makes of it.
//!
//! The credential travels as the base64 form of `username:key`. Encoding and
//! decoding are the `base64` crate's; splitting the decoded bytes and deciding
//! on the answer are done here.

use vstd::prelude::*;
use vstd::utf8::{decode_utf8, encode_utf8, valid_utf8};
use base64::Engine;

verus! {

#[verifier::external_type_specification]
#[verifier::external_body]
pub struct ExDecodeError(base64::DecodeError);

#[verifier::external_type_specification]
#[verifier::external_body]
pub struct ExFromUtf8Error(std::string::FromUtf8Error);

/// The text that `base64`'s standard engine (the standard alphabet, with
/// padding) encodes `input` as.
pub uninterp spec fn base64_standard_encoding(input: Seq<u8>) -> Seq<char>;

/// The bytes that `base64`'s standard engine decodes `input` to, if it
/// accepts `input` at all.
pub uninterp spec fn base64_standard_decoding(input: Seq<char>) -> Option<Seq<u8>>;

/// `base64::engine::general_purpose::STANDARD.encode`: the encoding of
/// `input` as a new string. The call never fails; the only panic in it guards
/// a length computation that no slice is long enough to overflow.
#[verifier::external_body]
fn encode_standard(input: &[u8]) -> (res: String)
    ensures
        res@ == base64_standard_encoding(input@),
{
    base64::prelude::BASE64_STANDARD.encode(input)
}

/// `base64::engine::general_purpose::STANDARD.decode`: the decoded bytes, or
/// the crate's error where `input` is no well-formed base64 text.
#[verifier::external_body]
fn decode_standard(input: &str) -> (res: Result<Vec<u8>, base64::DecodeError>)
    ensures
        match res {
            Ok(bytes) => base64_standard_decoding(input@) == Some(bytes@),
            Err(_) => base64_standard_decoding(input@) is None,
        },
{
    base64::prelude::BASE64_STANDARD.decode(input)
}

/// `String::from_utf8`: a string made of exactly the bytes given, which is
/// there if and only if they are valid UTF-8.
#[verifier::external_body]
fn string_from_utf8(bytes: Vec<u8>) -> (res: Result<String, std::string::FromUtf8Error>)
    ensures
        res is Ok <==> valid_utf8(bytes@),
        res matches Ok(text) ==> encode_utf8(text@) == bytes@,
{
    String::from_utf8(bytes)
}

/// The user name under which every dashboard signs in.
pub open spec fn dashboard_user() -> Seq<char> {
    "tokiodreamy"@
}

/// The value of the authorization header that carries `auth_key`.
pub open spec fn auth_header_of(auth_key: Seq<char>) -> Seq<char> {
    base64_standard_encoding(encode_utf8(dashboard_user() + seq![':'] + auth_key))
}

/// Builds the authorization header for `auth_key`: the base64 form of
/// `tokiodreamy:` followed by the key.
pub fn build_auth_header(auth_key: &str) -> (res: String)
    ensures
        res@ == auth_header_of(auth_key@),
{
    let mut plain = String::from_str("tokiodreamy");
    plain.append(":");
    plain.append(auth_key);
    proof {
        reveal_strlit(":");
        assert(plain@ =~= dashboard_user() + seq![':'] + auth_key@);
    }
    encode_standard(plain.as_str().as_bytes())
}

/// A user name and a key, as a request presents them.
#[derive(Debug, PartialEq, Eq)]
pub struct Credentials {
    pub username: String,
    pub key: String,
}

/// What [`Credentials`] hold.
pub struct CredentialsView {
    pub username: Seq<char>,
    pub key: Seq<char>,
}

impl View for Credentials {
    type V = CredentialsView;

    open spec fn view(&self) -> CredentialsView {
        CredentialsView { username: self.username@, key: self.key@ }
    }
}

impl DeepView for Credentials {
    type V = CredentialsView;

    open spec fn deep_view(&self) -> CredentialsView {
        self@
    }
}

/// The byte that parts user name and key.
pub open spec fn colon() -> u8 {
    0x3a
}

/// Whether `bytes` holds a colon at `i` and nowhere else.
pub open spec fn is_only_colon(bytes: Seq<u8>, i: int) -> bool {
    &&& 0 <= i < bytes.len()
    &&& bytes[i] == colon()
    &&& forall|j: int| 0 <= j < bytes.len() && j != i ==> bytes[j] != colon()
}

/// The credentials that decoded bytes spell out: what stands before and after
/// the one colon, provided there is exactly one and both parts are UTF-8.
pub open spec fn credentials_in(bytes: Seq<u8>) -> Option<CredentialsView> {
    if exists|i: int| is_only_colon(bytes, i) {
        let i = choose|i: int| is_only_colon(bytes, i);
        if valid_utf8(bytes.take(i)) && valid_utf8(bytes.skip(i + 1)) {
            Some(
                CredentialsView {
                    username: decode_utf8(bytes.take(i)),
                    key: decode_utf8(bytes.skip(i + 1)),
                },
            )
        } else {
            None
        }
    } else {
        None
    }
}

/// The credentials that an authorization header carries.
pub open spec fn credentials_of(header: Seq<char>) -> Option<CredentialsView> {
    match base64_standard_decoding(header) {
        Some(bytes) => credentials_in(bytes),
        None => None,
    }
}

/// A colon that stands alone stands at one place only.
proof fn lemma_only_colon(bytes: Seq<u8>, i: int)
    requires
        is_only_colon(bytes, i),
    ensures
        (choose|k: int| is_only_colon(bytes, k)) == i,
{
    let k = choose|k: int| is_only_colon(bytes, k);
}

/// Copies `bytes[from..to]`.
fn copy_range(bytes: &Vec<u8>, from: usize, to: usize) -> (res: Vec<u8>)
    requires
        from <= to <= bytes@.len(),
    ensures
        res@ == bytes@.subrange(from as int, to as int),
{
    let mut res: Vec<u8> = Vec::new();
    let mut at: usize = from;
    while at < to
        invariant
            from <= at <= to <= bytes@.len(),
            res@ == bytes@.subrange(from as int, at as int),
        decreases to - at,
    {
        res.push(bytes[at]);
        at = at + 1;
    }
    res
}

impl Credentials {
    /// Reads credentials out of decoded bytes.
    pub fn from_decoded(bytes: &Vec<u8>) -> (res: Option<Credentials>)
        ensures
            res.deep_view() == credentials_in(bytes@),
    {
        let len: usize = bytes.len();
        let mut first: usize = 0;
        while first < len && bytes[first] != 0x3a
            invariant
                first <= len,
                len == bytes@.len(),
                forall|j: int| 0 <= j < first ==> bytes@[j] != colon(),
            decreases len - first,
        {
            first = first + 1;
        }
        if first == len {
            return None;
        }
        let mut after: usize = first + 1;
        while after < len && bytes[after] != 0x3a
            invariant
                first < after <= len,
                len == bytes@.len(),
                forall|j: int| first < j < after ==> bytes@[j] != colon(),
            decreases len - after,
        {
            after = after + 1;
        }
        if after < len {
            assert(forall|i: int| !is_only_colon(bytes@, i));
            return None;
        }
        proof {
            lemma_only_colon(bytes@, first as int);
            assert(bytes@.skip(first + 1) =~= bytes@.subrange(first + 1, len as int));
        }
        let username = match string_from_utf8(copy_range(bytes, 0, first)) {
            Ok(text) => text,
            Err(_) => {
                return None;
            },
        };
        let key = match string_from_utf8(copy_range(bytes, first + 1, len)) {
            Ok(text) => text,
            Err(_) => {
                return None;
            },
        };
        proof {
            vstd::utf8::encode_utf8_decode_utf8(username@);
            vstd::utf8::encode_utf8_decode_utf8(key@);
        }
        Some(Credentials { username, key })
    }

    /// Reads credentials out of an authorization header.
    pub fn parse(header: &str) -> (res: Option<Credentials>)
        ensures
            res.deep_view() == credentials_of(header@),
    {
        match decode_standard(header) {
            Ok(bytes) => Credentials::from_decoded(&bytes),
            Err(_) => None,
        }
    }
}

/// Why a request is turned away before it reaches the queue.
#[derive(Debug, Copy, Clone, PartialEq, Eq, Structural)]
pub enum Rejection {
    /// No credential, an unreadable one, or one that is not on record.
    Unauthorized,
    /// The record of credentials could not be read.
    InternalServerError,
}

impl Rejection {
    /// The HTTP status that tells the client of this rejection.
    pub fn status(&self) -> (res: u16)
        ensures
            res == match self {
                Rejection::Unauthorized => 401u16,
                Rejection::InternalServerError => 500u16,
            },
    {
        match self {
            Rejection::Unauthorized => 401,
            Rejection::InternalServerError => 500,
        }
    }
}

/// What the record of credentials says of a user name and key.
#[derive(Debug, Copy, Clone, PartialEq, Eq, Structural)]
pub enum Lookup {
    /// The pair is on record.
    Known,
    /// The pair is not on record.
    Unknown,
    /// The record could not be read.
    Failed,
}

/// A user whose credential was found on record.
#[derive(Debug, PartialEq, Eq)]
pub struct AuthorizedUser {
    _who: String,
}

impl AuthorizedUser {
    /// The name the user signed in with.
    pub closed spec fn name(&self) -> Seq<char> {
        self._who@
    }

    /// The name the user signed in with.
    pub fn who(&self) -> (res: &String)
        ensures
            res@ == self.name(),
    {
        &self._who
    }

    /// The credentials that a request presents in its authorization header.
    /// A request without the header, or with one that does not decode to a
    /// user name and a key, is unauthorized.
    pub fn credentials(header: Option<&str>) -> (res: Result<Credentials, Rejection>)
        ensures
            match res {
                Ok(credentials) => header matches Some(text) && credentials_of(text@) == Some(
                    credentials@,
                ),
                Err(rejection) => rejection == Rejection::Unauthorized && (header matches Some(text)
                    ==> credentials_of(text@) is None),
            },
    {
        match header {
            None => Err(Rejection::Unauthorized),
            Some(text) => match Credentials::parse(text) {
                Some(credentials) => Ok(credentials),
                None => Err(Rejection::Unauthorized),
            },
        }
    }

    /// Lets the user in, or not, on what the record of credentials answered
    /// for `credentials`.
    pub fn decide(credentials: Credentials, lookup: Lookup) -> (res: Result<
        AuthorizedUser,
        Rejection,
    >)
        ensures
            match lookup {
                Lookup::Known => res matches Ok(user) && user.name() == credentials@.username,
                Lookup::Unknown => res == Err::<AuthorizedUser, Rejection>(Rejection::Unauthorized),
                Lookup::Failed => res == Err::<AuthorizedUser, Rejection>(
                    Rejection::InternalServerError,
                ),
            },
    {
        match lookup {
            Lookup::Known => Ok(AuthorizedUser { _who: credentials.username }),
            Lookup::Unknown => Err(Rejection::Unauthorized),
            Lookup::Failed => Err(Rejection::InternalServerError),
        }
    }
}

} // verus!
