//! The credentials of the account and the signing of requests with them.

use vstd::prelude::*;
use vstd::string::StrSliceExecFns;

verus! {

/// The secrets of the account: the consumer key and secret, the access token
/// and its secret, and the two client identifiers, which signing does not use.
pub struct Credentials {
    pub api_key: String,
    pub api_key_secret: String,
    pub access_token: String,
    pub access_token_secret: String,
    pub client_id: String,
    pub client_secret: String,
}

/// The time of a request in seconds since 1970. OAuth asks for a positive
/// number, so zero is no timestamp.
#[derive(Debug, Clone, Copy)]
pub struct Timestamp {
    secs: u64,
}

impl View for Timestamp {
    type V = u64;

    closed spec fn view(&self) -> u64 {
        self.secs
    }
}

impl Timestamp {
    #[verifier::type_invariant]
    spec fn positive(self) -> bool {
        self.secs > 0
    }

    /// The timestamp of this many seconds, unless they are zero.
    pub fn new(secs: u64) -> (time: Option<Timestamp>)
        ensures
            time is Some <==> secs > 0,
            time is Some ==> time.unwrap()@ == secs,
    {
        if secs > 0 {
            Some(Timestamp { secs })
        } else {
            None
        }
    }

    pub fn secs(&self) -> (secs: u64)
        ensures
            secs == self@,
            secs > 0,
    {
        proof {
            use_type_invariant(self);
        }
        self.secs
    }
}

/// The value of the `Authorization` header that `oauth1_request` builds for
/// a request without parameters of its own, signed with HMAC-SHA1: the
/// consumer key, the nonce, the signature method, the timestamp, the token
/// and the signature over them, the method and the address.
pub uninterp spec fn oauth_header(
    method: Seq<char>,
    uri: Seq<char>,
    consumer_key: Seq<char>,
    consumer_secret: Seq<char>,
    token: Seq<char>,
    token_secret: Seq<char>,
    nonce: Seq<char>,
    timestamp: u64,
) -> Seq<char>;

/// `oauth1_request::Builder::authorize` for the empty request `()`, on a
/// builder made with `Builder::new` from the consumer credentials and
/// `HmacSha1`, and given the token credentials, the nonce and the timestamp.
/// With nonce and timestamp both set, the crate draws no random number and
/// reads no clock, so the header depends on the arguments alone; the contract
/// gives it a name. A debug build of the crate panics on an address with a
/// `?`, and a timestamp of zero would stand for the current time: both are
/// left out.
#[verifier::external_body]
fn authorize(
    method: &str,
    uri: &str,
    consumer_key: &str,
    consumer_secret: &str,
    token: &str,
    token_secret: &str,
    nonce: &str,
    timestamp: u64,
) -> (header: String)
    requires
        !uri@.contains('?'),
        timestamp > 0,
    ensures
        header@ == oauth_header(
            method@,
            uri@,
            consumer_key@,
            consumer_secret@,
            token@,
            token_secret@,
            nonce@,
            timestamp,
        ),
{
    let client = oauth1_request::Credentials::new(consumer_key, consumer_secret);
    let token = oauth1_request::Credentials::new(token, token_secret);
    let mut builder = oauth1_request::Builder::new(client, oauth1_request::HmacSha1::new());
    builder.token(token).nonce(nonce).timestamp(core::num::NonZeroU64::new(timestamp));
    builder.authorize(method, uri, &())
}

/// Whether the address has a query part.
fn has_query(url: &str) -> (found: bool)
    ensures
        found == url@.contains('?'),
{
    let len = url.unicode_len();
    let mut i: usize = 0;
    while i < len
        invariant
            len == url@.len(),
            i <= len,
            forall|j: int| 0 <= j < i ==> url@[j] != '?',
        decreases len - i,
    {
        if url.get_char(i) == '?' {
            return true;
        }
        i += 1;
    }
    false
}

/// The header that `sign` gives for these arguments.
pub open spec fn signed_header(
    method: Seq<char>,
    url: Seq<char>,
    creds: &Credentials,
    time: Timestamp,
    nonce: Seq<char>,
) -> Seq<char> {
    oauth_header(
        method,
        url,
        creds.api_key@,
        creds.api_key_secret@,
        creds.access_token@,
        creds.access_token_secret@,
        nonce,
        time@,
    )
}

/// The value of the `Authorization` header for a request with this method to
/// this address, at this time and with this nonce.
///
/// The address must name no query part: the signature would not cover it.
/// For such an address there is no header.
pub fn sign(method: &str, url: &str, creds: &Credentials, time: Timestamp, nonce: &str) -> (header:
    Option<String>)
    ensures
        header is None <==> url@.contains('?'),
        header is Some ==> header.unwrap()@ == signed_header(method@, url@, creds, time, nonce@),
{
    if has_query(url) {
        None
    } else {
        Some(
            authorize(
                method,
                url,
                creds.api_key.as_str(),
                creds.api_key_secret.as_str(),
                creds.access_token.as_str(),
                creds.access_token_secret.as_str(),
                nonce,
                time.secs(),
            ),
        )
    }
}

} // verus!
