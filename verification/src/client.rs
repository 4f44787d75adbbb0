//! The harvest client: a fixed target, a static credential, and the three
//! calls of the protocol (version metadata, a harvest batch, a metrics
//! push).
//!
//! The client is immutable after construction, so any number of callers may
//! share one instance. Each call is described here as a pair of verified
//! steps: building the request (method, URI, headers, body) and validating
//! the response (status classification, then schema parsing). Carrying the
//! bytes over the wire is the caller's business; the 60-second budget of the
//! harvest call and the split between timeout and transport failure are
//! stated here so the caller only reports which of the two happened.
use vstd::prelude::*;
use vstd::string::*;

use crate::error::ClientError;
use crate::numbers::{dec_digits, dec_int, i64_to_dec, u64_to_dec};
use crate::response::{
    assemble_harvest, assemble_version, harvest_items_len, json_parses, parse_array_field,
    parse_json_value, spec_excerpt, HarvestResponse, VersionResponse,
};

verus! {

/// The time budget of a harvest call, in seconds. Exceeding it is a
/// `Timeout` failure, distinct from a generic `Transport` failure; the other
/// calls rely on the transport's own default.
pub const HARVEST_TIMEOUT_SECS: u64 = 60;

/// The credential holder: keeps a string behind secrecy's `Secret`, whose
/// redacted `Debug` form and zeroize-on-drop guard the value against
/// accidental exposure. The struct is opaque to the verifier; `secret_chars`
/// names what it holds.
#[verifier::external_body]
pub struct SecretString {
    inner: secrecy::Secret<String>,
}

/// The characters of the string a `SecretString` holds.
pub uninterp spec fn secret_chars(s: SecretString) -> Seq<char>;

/// What base64's standard-alphabet, padded engine produces for the UTF-8
/// bytes of a string; a function of those bytes alone.
pub uninterp spec fn base64_of(s: Seq<char>) -> Seq<char>;

/// Whether `http`'s URI parser accepts the string; a function of the
/// characters alone.
pub uninterp spec fn uri_ok(s: Seq<char>) -> bool;

impl SecretString {
    /// Relies on secrecy::Secret::new: wraps the value without changing it.
    #[verifier::external_body]
    pub fn new(s: String) -> (r: SecretString)
        ensures
            secret_chars(r) == s@,
    {
        SecretString { inner: secrecy::Secret::new(s) }
    }

    /// Relies on secrecy::ExposeSecret::expose_secret: hands back a
    /// reference to the wrapped value, unchanged.
    #[verifier::external_body]
    fn expose(&self) -> (r: &String)
        ensures
            r@ == secret_chars(*self),
    {
        secrecy::ExposeSecret::expose_secret(&self.inner)
    }
}

/// Relies on base64::engine::general_purpose::STANDARD, Engine::encode:
/// encodes the UTF-8 bytes of `s` with the standard alphabet and padding, a
/// deterministic function of the input.
#[verifier::external_body]
fn base64_encode_str(s: &str) -> (r: String)
    ensures
        r@ == base64_of(s@),
{
    base64::Engine::encode(&base64::engine::general_purpose::STANDARD, s)
}

/// Relies on http::Uri::try_from(&str): whether the parser accepts the
/// string depends on the string alone.
#[verifier::external_body]
fn uri_parses(s: &String) -> (r: bool)
    ensures
        r == uri_ok(s@),
{
    http::Uri::try_from(s.as_str()).is_ok()
}

/// A cursor into the upstream change stream: a UTC timestamp with
/// millisecond precision, held as milliseconds since the epoch. The client
/// treats it as an opaque resumption token: it is rendered into the query
/// string exactly, never reordered or rounded.
#[derive(Clone, Copy, Debug, PartialEq, Eq, Structural)]
pub struct Timestamp {
    pub millis: i64,
}

impl Timestamp {
    /// The Unix epoch, the cursor of the dedicated self-test call.
    pub fn epoch() -> (r: Timestamp)
        ensures
            r.millis == 0,
    {
        Timestamp { millis: 0 }
    }
}

/// The HTTP method of a built request.
#[derive(Clone, Copy, Debug, PartialEq, Eq, Structural)]
pub enum HttpMethod {
    Get,
    Post,
}

/// Everything the transport needs to issue one request: method, absolute
/// URI, headers in order, and an optional body.
#[derive(Debug)]
pub struct RequestParts {
    pub method: HttpMethod,
    pub uri: String,
    pub headers: Vec<(String, String)>,
    pub body: Option<String>,
}

impl RequestParts {
    /// The parts describe a GET of `uri` whose only header is the
    /// `Authorization` credential.
    pub open spec fn is_get(self, uri: Seq<char>, auth: Seq<char>) -> bool {
        &&& self.method == HttpMethod::Get
        &&& self.uri@ == uri
        &&& self.headers@.len() == 1
        &&& self.headers@[0].0@ == "Authorization"@
        &&& self.headers@[0].1@ == auth
        &&& self.body is None
    }

    /// The parts describe a POST of `body` to `uri`, authenticated and
    /// marked as JSON.
    pub open spec fn is_json_post(self, uri: Seq<char>, auth: Seq<char>, body: Seq<char>) -> bool {
        &&& self.method == HttpMethod::Post
        &&& self.uri@ == uri
        &&& self.headers@.len() == 2
        &&& self.headers@[0].0@ == "Authorization"@
        &&& self.headers@[0].1@ == auth
        &&& self.headers@[1].0@ == "Content-Type"@
        &&& self.headers@[1].1@ == "application/json"@
        &&& self.body matches Some(b) && b@ == body
    }
}

/// The absolute URI for a path-and-query under the client's fixed target.
pub open spec fn spec_uri(scheme: Seq<char>, authority: Seq<char>, pq: Seq<char>) -> Seq<char> {
    scheme + "://"@ + authority + pq
}

/// The path and query of a harvest call: the cursor in epoch milliseconds
/// and the batch-size hint, in this order and nothing else.
pub open spec fn spec_harvest_pq(millis: int, amount: int) -> Seq<char> {
    "/tobira/harvest?since="@ + dec_int(millis) + "&preferredAmount="@ + dec_digits(
        amount as nat,
    )
}

/// Renders the harvest path and query exactly as `spec_harvest_pq` states:
/// `since` first, `preferredAmount` second, no reordering, no extra
/// parameters.
pub fn harvest_path_and_query(since: Timestamp, preferred_amount: u64) -> (r: String)
    ensures
        r@ == spec_harvest_pq(since.millis as int, preferred_amount as int),
{
    "/tobira/harvest?since=".to_owned().concat(i64_to_dec(since.millis).as_str()).concat(
        "&preferredAmount=",
    ).concat(u64_to_dec(preferred_amount).as_str())
}

/// A client of the harvesting API: the fixed target, the authenticating
/// username, and the precomputed `Authorization` header, computed once and
/// immutable for the client's lifetime. Credential rotation means
/// constructing a new client.
pub struct OcClient {
    scheme: String,
    authority: String,
    auth_header: SecretString,
    username: String,
}

impl OcClient {
    /// The scheme of the fixed target.
    pub closed spec fn scheme_chars(self) -> Seq<char> {
        self.scheme@
    }

    /// The authority of the fixed target.
    pub closed spec fn authority_chars(self) -> Seq<char> {
        self.authority@
    }

    /// The username every request authenticates as.
    pub closed spec fn username_chars(self) -> Seq<char> {
        self.username@
    }

    /// The value of the `Authorization` header every request carries.
    pub closed spec fn auth_header_chars(self) -> Seq<char> {
        secret_chars(self.auth_header)
    }

    /// Builds a client for the given target and credential. The Basic-auth
    /// header is computed here, once: the base64 encoding of
    /// `username:password` behind the `Basic` marker.
    pub fn new(
        scheme: String,
        authority: String,
        username: String,
        password: &SecretString,
    ) -> (r: OcClient)
        ensures
            r.scheme_chars() == scheme@,
            r.authority_chars() == authority@,
            r.username_chars() == username@,
            r.auth_header_chars() == "Basic "@ + base64_of(
                username@ + ":"@ + secret_chars(*password),
            ),
    {
        let credentials = username.clone().concat(":").concat(password.expose().as_str());
        let encoded = base64_encode_str(credentials.as_str());
        let auth_header = SecretString::new("Basic ".to_owned().concat(encoded.as_str()));
        OcClient { scheme, authority, auth_header, username }
    }

    /// The absolute URI of a path-and-query under this client's target.
    pub fn uri_for(&self, pq: &str) -> (r: String)
        ensures
            r@ == spec_uri(self.scheme_chars(), self.authority_chars(), pq@),
    {
        self.scheme.clone().concat("://").concat(self.authority.as_str()).concat(pq)
    }

    /// The shared request assembly: resolves the URI and attaches the
    /// precomputed `Authorization` header. A string that does not form a
    /// valid URI is a configuration or programming error and fails loudly
    /// with `InvalidUri`, never a transport error.
    pub fn build_req(&self, pq: &str) -> (r: Result<RequestParts, ClientError>)
        ensures
            ({
                let uri = spec_uri(self.scheme_chars(), self.authority_chars(), pq@);
                &&& r is Ok <==> uri_ok(uri)
                &&& r matches Ok(parts) ==> parts.is_get(uri, self.auth_header_chars())
                &&& r matches Err(e) ==> (e matches ClientError::InvalidUri { uri: u } && u@
                    == uri)
            }),
    {
        let uri = self.uri_for(pq);
        if !uri_parses(&uri) {
            return Err(ClientError::InvalidUri { uri });
        }
        let auth = self.auth_header.expose().clone();
        let mut headers: Vec<(String, String)> = Vec::new();
        headers.push(("Authorization".to_owned(), auth));
        Ok(RequestParts { method: HttpMethod::Get, uri, headers, body: None })
    }

    /// The request of the version metadata call: a GET of the fixed version
    /// path.
    pub fn version_request(&self) -> (r: Result<RequestParts, ClientError>)
        ensures
            ({
                let uri = spec_uri(
                    self.scheme_chars(),
                    self.authority_chars(),
                    "/tobira/version"@,
                );
                &&& r is Ok <==> uri_ok(uri)
                &&& r matches Ok(parts) ==> parts.is_get(uri, self.auth_header_chars())
                &&& r matches Err(e) ==> (e matches ClientError::InvalidUri { uri: u } && u@
                    == uri)
            }),
    {
        self.build_req("/tobira/version")
    }

    /// The request of a harvest call: a GET of the harvest path with the
    /// cursor and the batch-size hint rendered into the query exactly.
    pub fn harvest_request(&self, since: Timestamp, preferred_amount: u64) -> (r: Result<
        RequestParts,
        ClientError,
    >)
        ensures
            ({
                let uri = spec_uri(
                    self.scheme_chars(),
                    self.authority_chars(),
                    spec_harvest_pq(since.millis as int, preferred_amount as int),
                );
                &&& r is Ok <==> uri_ok(uri)
                &&& r matches Ok(parts) ==> parts.is_get(uri, self.auth_header_chars())
                &&& r matches Err(e) ==> (e matches ClientError::InvalidUri { uri: u } && u@
                    == uri)
            }),
    {
        let pq = harvest_path_and_query(since, preferred_amount);
        self.build_req(pq.as_str())
    }

    /// The request of the dedicated self-test call: a harvest from the epoch
    /// asking for two items.
    pub fn test_harvest_request(&self) -> (r: Result<RequestParts, ClientError>)
        ensures
            ({
                let uri = spec_uri(
                    self.scheme_chars(),
                    self.authority_chars(),
                    spec_harvest_pq(0, 2),
                );
                &&& r is Ok <==> uri_ok(uri)
                &&& r matches Ok(parts) ==> parts.is_get(uri, self.auth_header_chars())
                &&& r matches Err(e) ==> (e matches ClientError::InvalidUri { uri: u } && u@
                    == uri)
            }),
    {
        self.harvest_request(Timestamp::epoch(), 2)
    }

    /// The request of a metrics push: a POST of the pre-serialized JSON
    /// payload to the fixed stats path. The payload's schema is not
    /// validated here, by design.
    pub fn stats_request(&self, stats: String) -> (r: Result<RequestParts, ClientError>)
        ensures
            ({
                let uri = spec_uri(self.scheme_chars(), self.authority_chars(), "/tobira/stats"@);
                &&& r is Ok <==> uri_ok(uri)
                &&& r matches Ok(parts) ==> parts.is_json_post(
                    uri,
                    self.auth_header_chars(),
                    stats@,
                )
                &&& r matches Err(e) ==> (e matches ClientError::InvalidUri { uri: u } && u@
                    == uri)
            }),
    {
        let uri = self.uri_for("/tobira/stats");
        if !uri_parses(&uri) {
            return Err(ClientError::InvalidUri { uri });
        }
        let auth = self.auth_header.expose().clone();
        let mut headers: Vec<(String, String)> = Vec::new();
        headers.push(("Authorization".to_owned(), auth));
        headers.push(("Content-Type".to_owned(), "application/json".to_owned()));
        Ok(RequestParts { method: HttpMethod::Post, uri, headers, body: Some(stats) })
    }

    /// Classifies the HTTP status of a response: 200 passes, 401 is an
    /// authentication failure naming the configured username (never the
    /// secret), any other status an unexpected-status failure carrying
    /// status, URI and identity.
    pub fn check_status(&self, status: u16, uri: &String) -> (r: Result<(), ClientError>)
        ensures
            r is Ok <==> status == 200,
            status == 401 ==> (r matches Err(ClientError::Authentication { uri: u, username: n })
                && u@ == uri@ && n@ == self.username_chars()),
            status != 200 && status != 401 ==> (r matches Err(
                ClientError::UnexpectedStatus { status: s, uri: u, username: n },
            ) && s == status && u@ == uri@ && n@ == self.username_chars()),
    {
        if status == 200 {
            Ok(())
        } else if status == 401 {
            Err(
                ClientError::Authentication {
                    uri: uri.clone(),
                    username: self.username.clone(),
                },
            )
        } else {
            Err(
                ClientError::UnexpectedStatus {
                    status,
                    uri: uri.clone(),
                    username: self.username.clone(),
                },
            )
        }
    }

    /// The shared validation of a harvest response: the status is classified
    /// first; only a 200 body is then parsed as the harvest schema, so a 401
    /// can never surface as a deserialization failure. Success returns the
    /// batch together with the body's byte length, which is observability
    /// data only. That the batch is the parsed `items` array itself,
    /// unchanged and in order, is stated by `assemble_harvest`, which takes
    /// the parsed value in hand.
    pub fn validate_harvest_response(&self, status: u16, body: Vec<u8>, uri: &String) -> (r:
        Result<(HarvestResponse, usize), ClientError>)
        ensures
            r is Ok <==> status == 200 && harvest_items_len(body@) is Some,
            r matches Ok(out) ==> out.0.items@.len() == harvest_items_len(body@).unwrap()
                && out.1 == body@.len(),
            status == 401 ==> (r matches Err(ClientError::Authentication { uri: u, username: n })
                && u@ == uri@ && n@ == self.username_chars()),
            status != 200 && status != 401 ==> (r matches Err(
                ClientError::UnexpectedStatus { status: s, uri: u, username: n },
            ) && s == status && u@ == uri@ && n@ == self.username_chars()),
            status == 200 && harvest_items_len(body@) is None ==> (r matches Err(
                ClientError::Deserialization { uri: u, excerpt: e },
            ) && u@ == uri@ && e@ == spec_excerpt(body@)),
    {
        match self.check_status(status, uri) {
            Err(e) => Err(e),
            Ok(()) => assemble_harvest(parse_array_field(&body, "items"), &body, uri),
        }
    }

    /// The shared validation of a version response: the status is classified
    /// first; a 200 body must then be a JSON document, which is passed
    /// through without interpretation, together with its byte length. That
    /// the returned metadata is the parsed document itself is stated by
    /// `assemble_version`, which takes the parsed value in hand.
    pub fn validate_version_response(&self, status: u16, body: Vec<u8>, uri: &String) -> (r:
        Result<(VersionResponse, usize), ClientError>)
        ensures
            r is Ok <==> status == 200 && json_parses(body@),
            r matches Ok(out) ==> out.1 == body@.len(),
            status == 401 ==> (r matches Err(ClientError::Authentication { uri: u, username: n })
                && u@ == uri@ && n@ == self.username_chars()),
            status != 200 && status != 401 ==> (r matches Err(
                ClientError::UnexpectedStatus { status: s, uri: u, username: n },
            ) && s == status && u@ == uri@ && n@ == self.username_chars()),
            status == 200 && !json_parses(body@) ==> (r matches Err(
                ClientError::Deserialization { uri: u, excerpt: e },
            ) && u@ == uri@ && e@ == spec_excerpt(body@)),
    {
        match self.check_status(status, uri) {
            Err(e) => Err(e),
            Ok(()) => assemble_version(parse_json_value(&body), &body, uri),
        }
    }
}

/// Classifies a failed send: a call that outlived its time budget is a
/// `Timeout`, any other failed send a `Transport` failure. The two are
/// distinct variants so the caller can back off differently.
pub fn send_failure(timed_out: bool, uri: String) -> (r: ClientError)
    ensures
        timed_out ==> (r matches ClientError::Timeout { uri: u } && u@ == uri@),
        !timed_out ==> (r matches ClientError::Transport { uri: u } && u@ == uri@),
{
    if timed_out {
        ClientError::Timeout { uri }
    } else {
        ClientError::Transport { uri }
    }
}

} // verus!
