//! The request/response execution pipeline: the descriptor capability, the
//! construction of a transport-level request from it, and the classification
//! and decoding of a completed transport response.

use crate::error::Error;
use crate::json::{is_valid_json, parse_json};
use crate::parameters::opt_pairs_view;
use crate::wire::{Method, Response, TransportOutcome};
use vstd::prelude::*;
use vstd::string::StringExecFns;

verus! {

/// The character-level view of an optional string.
pub open spec fn opt_string_view(v: Option<String>) -> Option<Seq<char>> {
    match v {
        Some(s) => Some(s@),
        None => None,
    }
}

/// The character-level view of optional basic-auth credentials.
pub open spec fn basic_auth_view(v: Option<(String, Option<String>)>) -> Option<
    (Seq<char>, Option<Seq<char>>),
> {
    match v {
        Some((user, Some(pass))) => Some((user@, Some(pass@))),
        Some((user, None)) => Some((user@, None)),
        None => None,
    }
}

/// The byte-level view of an optional payload.
pub open spec fn opt_bytes_view(v: Option<Vec<u8>>) -> Option<Seq<u8>> {
    match v {
        Some(b) => Some(b@),
        None => None,
    }
}

/// A transport-ready request: everything the injected HTTP client needs in
/// order to perform one call, assembled from one descriptor.
pub struct BuiltRequest {
    pub method: Method,
    pub url: String,
    pub headers: Option<Vec<(String, String)>>,
    pub query: Option<Vec<(String, String)>>,
    pub form: Option<Vec<(String, String)>>,
    pub bearer: Option<String>,
    pub basic_auth: Option<(String, Option<String>)>,
    /// The JSON payload, already encoded; `None` when the operation carries
    /// no body.
    pub body: Option<Vec<u8>>,
}

/// The capability of an expected result type: decoding itself from the raw
/// bytes of a response body.
///
/// `decode_spec` is the type's own statement of which bodies decode, and to
/// which value; `decode` must follow it exactly, reporting the decoder's
/// message on failure.
pub trait Decode: Sized {
    /// Which byte sequences decode into a value of this type, and into which.
    spec fn decode_spec(bytes: Seq<u8>) -> Option<Self>;

    /// Decode the raw bytes of a response body; `Err` carries the decoder's
    /// message.
    fn decode(bytes: &[u8]) -> (r: Result<Self, String>)
        ensures
            r is Ok <==> Self::decode_spec(bytes@) is Some,
            (r matches Ok(v) ==> Self::decode_spec(bytes@) == Some(v)),
    ;
}

/// What the error of a non-success response must look like: the carried
/// status is the response's own, and the carried payload is present exactly
/// when the raw body was valid JSON.
pub open spec fn matches_response_error(e: Error, resp: Response) -> bool {
    e matches Error::ResponseError(p) && p.0 == resp.status && (p.1 is Some <==> is_valid_json(
        resp.body@,
    ))
}

/// The outcome the strict decode path owes for one completed response:
/// a success status with a decodable body yields exactly the decoded value;
/// a success status with an undecodable body yields a decode error; a
/// non-success status yields a response error carrying that status.
pub open spec fn decoded_outcome<T: Decode>(resp: Response, r: Result<T, Error>) -> bool {
    &&& resp.status.is_success_spec() && T::decode_spec(resp.body@) is Some ==> (r matches Ok(v)
        && T::decode_spec(resp.body@) == Some(v))
    &&& resp.status.is_success_spec() && T::decode_spec(resp.body@) is None ==> (r matches Err(e)
        && e is ClientDecodeError)
    &&& !resp.status.is_success_spec() ==> (r matches Err(e) && matches_response_error(e, resp))
}

/// The outcome the optional decode path owes for one completed response: on
/// a success status the result is exactly what the body decodes to, absence
/// included; a non-success status yields a response error carrying it.
pub open spec fn decoded_outcome_opt<T: Decode>(
    resp: Response,
    r: Result<Option<T>, Error>,
) -> bool {
    &&& resp.status.is_success_spec() ==> (r matches Ok(v) && v == T::decode_spec(resp.body@))
    &&& !resp.status.is_success_spec() ==> (r matches Err(e) && matches_response_error(e, resp))
}

/// One API operation, declared as a value: its endpoint, method, optional
/// parameters and credentials, and its JSON body.  The optional fields
/// default to absent; the body defaults to the descriptor's own encoding.
///
/// `T` is the typed result the operation's response body decodes into.
pub trait Request<T: Decode> {
    /// The endpoint path of this operation, e.g. a path with an identifier
    /// embedded.
    spec fn endpoint_spec(&self) -> Seq<char>;

    /// Endpoint to perform the request for.
    fn endpoint(&self) -> (r: String)
        ensures
            r@ == self.endpoint_spec(),
    ;

    /// The HTTP method of this operation.
    spec fn method_spec(&self) -> Method;

    /// HTTP method to use.
    fn method(&self) -> (r: Method)
        ensures
            r == self.method_spec(),
    ;

    /// Header parameters; absent unless the descriptor declares them.
    open spec fn headers_spec(&self) -> Option<Seq<(Seq<char>, Seq<char>)>> {
        None
    }

    /// Header parameters to include in the request.
    fn headers(&self) -> (r: Option<Vec<(String, String)>>)
        ensures
            opt_pairs_view(r) == self.headers_spec(),
    ;

    /// Query parameters; absent unless the descriptor declares them.
    open spec fn query_spec(&self) -> Option<Seq<(Seq<char>, Seq<char>)>> {
        None
    }

    /// Query parameters to include in the request.
    fn query(&self) -> (r: Option<Vec<(String, String)>>)
        ensures
            opt_pairs_view(r) == self.query_spec(),
    ;

    /// Form parameters; absent unless the descriptor declares them.
    open spec fn form_spec(&self) -> Option<Seq<(Seq<char>, Seq<char>)>> {
        None
    }

    /// Form parameters to include in the request.
    fn form(&self) -> (r: Option<Vec<(String, String)>>)
        ensures
            opt_pairs_view(r) == self.form_spec(),
    ;

    /// The bearer token; absent unless the descriptor declares one.
    open spec fn bearer_spec(&self) -> Option<Seq<char>> {
        None
    }

    /// Bearer token to include in the request.
    fn bearer(&self) -> (r: Option<String>)
        ensures
            opt_string_view(r) == self.bearer_spec(),
    ;

    /// Username and optional password; absent unless the descriptor declares
    /// them.
    open spec fn basic_auth_spec(&self) -> Option<(Seq<char>, Option<Seq<char>>)> {
        None
    }

    /// Username and password for basic auth.
    fn basic_auth(&self) -> (r: Option<(String, Option<String>)>)
        ensures
            basic_auth_view(r) == self.basic_auth_spec(),
    ;

    /// The descriptor's own JSON encoding.
    spec fn json_spec(&self) -> Seq<u8>;

    /// Encode the descriptor itself as JSON; this is what a body-bearing
    /// operation sends.
    fn to_json(&self) -> (r: Vec<u8>)
        ensures
            r@ == self.json_spec(),
    ;

    /// The body of the request: the descriptor's own encoding unless the
    /// descriptor omits the body altogether.
    open spec fn body_spec(&self) -> Option<Seq<u8>> {
        Some(self.json_spec())
    }

    /// The body of the request.  Defaults to the descriptor's own JSON
    /// encoding; declare it absent for operations without a body.
    fn body(&self) -> (r: Option<Vec<u8>>)
        ensures
            opt_bytes_view(r) == self.body_spec(),
    ;

    /// Build the request, applying every present attribute of the
    /// descriptor onto a transport-ready value, in a fixed order: headers,
    /// query, form, bearer token, basic auth, JSON body.  The request URL is
    /// the base URL and the endpoint joined with a single separator.
    /// Pure construction: no network traffic happens here.
    fn build(&self, base_url: &str) -> (r: BuiltRequest)
        ensures
            r.method == self.method_spec(),
            r.url@ == base_url@ + "/"@ + self.endpoint_spec(),
            opt_pairs_view(r.headers) == self.headers_spec(),
            opt_pairs_view(r.query) == self.query_spec(),
            opt_pairs_view(r.form) == self.form_spec(),
            opt_string_view(r.bearer) == self.bearer_spec(),
            basic_auth_view(r.basic_auth) == self.basic_auth_spec(),
            opt_bytes_view(r.body) == self.body_spec(),
    {
        let mut url = base_url.to_owned();
        url.append("/");
        let endpoint = self.endpoint();
        url.append(endpoint.as_str());
        BuiltRequest {
            method: self.method(),
            url,
            headers: self.headers(),
            query: self.query(),
            form: self.form(),
            bearer: self.bearer(),
            basic_auth: self.basic_auth(),
            body: self.body(),
        }
    }

    /// Classify a completed transport response.  A success status passes the
    /// response through untouched; any other status becomes a
    /// [`Error::ResponseError`] carrying that status and the best-effort
    /// parse of the body as a generic JSON value.
    fn check_response(&self, response: Response) -> (r: Result<Response, Error>)
        ensures
            response.status.is_success_spec() ==> r == Result::<Response, Error>::Ok(response),
            !response.status.is_success_spec() ==> (r matches Err(e) && matches_response_error(
                e,
                response,
            )),
    {
        if response.status.is_success() {
            Ok(response)
        } else {
            let parsed = parse_json(response.body.as_slice());
            Err(Error::ResponseError((response.status, parsed)))
        }
    }

    /// Classify the response, then decode its body into `T`.  A body that
    /// does not decode under a success status is a [`Error::ClientDecodeError`]
    /// carrying the decoder's message.
    fn from_response(&self, response: Response) -> (r: Result<T, Error>)
        ensures
            decoded_outcome::<T>(response, r),
    {
        match self.check_response(response) {
            Ok(ok) => match T::decode(ok.body.as_slice()) {
                Ok(v) => Ok(v),
                Err(msg) => Err(Error::ClientDecodeError(msg)),
            },
            Err(e) => Err(e),
        }
    }

    /// Classify the response, then decode its body into `Option<T>`.  A body
    /// that does not decode under a success status is deliberately downgraded
    /// to an absent value rather than an error.
    fn from_response_opt(&self, response: Response) -> (r: Result<Option<T>, Error>)
        ensures
            decoded_outcome_opt::<T>(response, r),
    {
        match self.check_response(response) {
            Ok(ok) => match T::decode(ok.body.as_slice()) {
                Ok(v) => Ok(Some(v)),
                Err(_) => Ok(None),
            },
            Err(e) => Err(e),
        }
    }

    /// Complete the call from the transport's outcome: a transport failure
    /// is a [`Error::ClientError`], whatever the descriptor held; a completed
    /// response is classified and decoded strictly.
    fn exec(&self, outcome: TransportOutcome) -> (r: Result<T, Error>)
        ensures
            outcome is Failed ==> (r matches Err(e) && e is ClientError),
            (outcome matches TransportOutcome::Completed(resp) ==> decoded_outcome::<T>(resp, r)),
    {
        match outcome {
            TransportOutcome::Failed => Err(Error::ClientError),
            TransportOutcome::Completed(response) => self.from_response(response),
        }
    }

    /// Complete the call from the transport's outcome along the optional
    /// decode path: a transport failure is a [`Error::ClientError`]; a
    /// completed response is classified, and a post-success decode failure
    /// is an absent value.
    fn exec_opt(&self, outcome: TransportOutcome) -> (r: Result<Option<T>, Error>)
        ensures
            outcome is Failed ==> (r matches Err(e) && e is ClientError),
            (outcome matches TransportOutcome::Completed(resp) ==> decoded_outcome_opt::<T>(
                resp,
                r,
            )),
    {
        match outcome {
            TransportOutcome::Failed => Err(Error::ClientError),
            TransportOutcome::Completed(response) => self.from_response_opt(response),
        }
    }
}

/// A descriptor that declares no body builds a request that carries no JSON
/// payload.
pub proof fn lemma_bodiless_descriptor_builds_no_payload<T: Decode, R: Request<T>>(
    req: &R,
    built: BuiltRequest,
)
    requires
        opt_bytes_view(built.body) == req.body_spec(),
        req.body_spec() is None,
    ensures
        built.body is None,
{
}

/// The optional decode path suppresses exactly the failure the strict path
/// reports: on a success status whose body does not decode, the strict
/// outcome is a decode error while the optional outcome is an absent value,
/// not an error.
pub proof fn lemma_opt_path_suppresses_decode_failure<T: Decode>(
    resp: Response,
    strict: Result<T, Error>,
    optional: Result<Option<T>, Error>,
)
    requires
        decoded_outcome::<T>(resp, strict),
        decoded_outcome_opt::<T>(resp, optional),
        resp.status.is_success_spec(),
        T::decode_spec(resp.body@) is None,
    ensures
        strict matches Err(e) && e is ClientDecodeError,
        optional matches Ok(v) && v is None,
{
}

} // verus!
