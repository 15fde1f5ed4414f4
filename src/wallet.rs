use vstd::prelude::*;

use crate::json::{
    find_string_member, json_object_strings, parse_object_strings, string_member, JsonObject,
    JsonValue,
};

verus! {

/// How a response is delivered back to the verifier.
#[derive(Debug, Clone, PartialEq, Eq)]
pub enum ResponseMode {
    /// The response parameters, posted as a form.
    DirectPost,
    /// The response as one signed token, posted as a form.
    DirectPostJwt,
    /// A mode that this library does not deliver.
    Unsupported(String),
}

/// An authorization response: its parameters, or one signed token that holds
/// them.
#[derive(Debug)]
pub enum AuthorizationResponse {
    Unencoded(JsonObject),
    Jwt(String),
}

/// The value of one form field: text sent as it is, or a JSON value sent as its
/// JSON text.
#[derive(Debug)]
pub enum FormValue {
    Text(String),
    Json(JsonValue),
}

/// Why a response could not be submitted.
#[derive(Debug, Clone, PartialEq, Eq)]
pub enum SubmitError {
    /// The response is not in the form that the response mode calls for.
    UnexpectedResponseFormat,
    /// The response mode is not one that this library delivers.
    UnsupportedResponseMode(String),
    /// The request did not reach the verifier; the transport's message.
    Network(String),
    /// The verifier answered with an error status; the status and the body.
    Status(u16, String),
    /// The handler could not produce the response; its message.
    Handler(String),
}

impl ResponseMode {
    /// A copy of the response mode.
    pub fn duplicate(&self) -> (r: ResponseMode)
        ensures
            r == *self,
    {
        match self {
            ResponseMode::DirectPost => ResponseMode::DirectPost,
            ResponseMode::DirectPostJwt => ResponseMode::DirectPostJwt,
            ResponseMode::Unsupported(m) => ResponseMode::Unsupported(m.clone()),
        }
    }
}

/// The parts of a validated authorization request that delivering its response
/// needs.
#[derive(Debug, Clone)]
pub struct AuthorizationRequestObject {
    /// The verifier's client identifier.
    pub client_id: String,
    /// How the response is to be delivered.
    pub response_mode: ResponseMode,
    /// Where the response is to be delivered.
    pub return_uri: String,
}

/// Turns a validated authorization request into its response.
pub trait PresentationHandler {
    /// The request being answered, as the handler holds it.
    open spec fn spec_request(&self) -> AuthorizationRequestObject {
        arbitrary()
    }

    /// The request being answered.
    fn request(&self) -> (r: &AuthorizationRequestObject)
        ensures
            *r == self.spec_request();

    /// The response to the request, or why it could not be produced.
    fn to_response(self) -> Result<AuthorizationResponse, String>;
}

/// The form field that carries a signed response.
pub open spec fn jwt_field() -> Seq<char> {
    "response"@
}

/// The form fields of a plain response: each parameter by name, a string as its
/// text, any other value as JSON.
pub open spec fn flattened(params: Seq<(String, JsonValue)>, fields: Seq<(String, FormValue)>) -> bool {
    &&& fields.len() == params.len()
    &&& forall|i: int|
        0 <= i < params.len() ==> {
            &&& (#[trigger] fields[i]).0 == params[i].0
            &&& match params[i].1 {
                JsonValue::String(s) => fields[i].1 == FormValue::Text(s),
                v => fields[i].1 == FormValue::Json(v),
            }
        }
}

/// The form fields of a plain response, one per parameter.
pub fn flatten_for_form(params: JsonObject) -> (r: Vec<(String, FormValue)>)
    ensures
        flattened(params@, r@),
{
    let ghost orig = params@;
    let mut params = params;
    let mut rev: Vec<(String, FormValue)> = Vec::new();
    while params.len() > 0
        invariant
            params@ == orig.subrange(0, params@.len() as int),
            params@.len() + rev@.len() == orig.len(),
            forall|k: int|
                0 <= k < rev@.len() ==> {
                    let p = orig[orig.len() - 1 - k];
                    &&& (#[trigger] rev@[k]).0 == p.0
                    &&& match p.1 {
                        JsonValue::String(s) => rev@[k].1 == FormValue::Text(s),
                        v => rev@[k].1 == FormValue::Json(v),
                    }
                },
        decreases params@.len(),
    {
        let (name, value) = params.pop().unwrap();
        let field = match value {
            JsonValue::String(s) => FormValue::Text(s),
            v => FormValue::Json(v),
        };
        rev.push((name, field));
    }
    let n = rev.len();
    let mut out: Vec<(String, FormValue)> = Vec::new();
    while rev.len() > 0
        invariant
            n == orig.len(),
            rev@.len() + out@.len() == n,
            forall|k: int|
                0 <= k < rev@.len() ==> {
                    let p = orig[n - 1 - k];
                    &&& (#[trigger] rev@[k]).0 == p.0
                    &&& match p.1 {
                        JsonValue::String(s) => rev@[k].1 == FormValue::Text(s),
                        v => rev@[k].1 == FormValue::Json(v),
                    }
                },
            forall|k: int|
                0 <= k < out@.len() ==> {
                    &&& (#[trigger] out@[k]).0 == orig[k].0
                    &&& match orig[k].1 {
                        JsonValue::String(s) => out@[k].1 == FormValue::Text(s),
                        v => out@[k].1 == FormValue::Json(v),
                    }
                },
        decreases rev@.len(),
    {
        let f = rev.pop().unwrap();
        out.push(f);
    }
    out
}

/// The form to post for a response in the given mode: the parameters of a plain
/// response for `direct_post`, the token alone for `direct_post.jwt`.
pub fn form_for_mode(mode: &ResponseMode, response: AuthorizationResponse) -> (r: Result<
    Vec<(String, FormValue)>,
    SubmitError,
>)
    ensures
        match (*mode, response) {
            (ResponseMode::DirectPost, AuthorizationResponse::Unencoded(params)) => r matches Ok(
                fields,
            ) && flattened(params@, fields@),
            (ResponseMode::DirectPostJwt, AuthorizationResponse::Jwt(jwt)) => r matches Ok(fields)
                && fields@.len() == 1 && fields@[0].0@ == jwt_field() && fields@[0].1
                == FormValue::Text(jwt),
            (ResponseMode::Unsupported(m), _) => r == Err::<Vec<(String, FormValue)>, SubmitError>(
                SubmitError::UnsupportedResponseMode(m),
            ),
            _ => r == Err::<Vec<(String, FormValue)>, SubmitError>(
                SubmitError::UnexpectedResponseFormat,
            ),
        },
{
    match mode {
        ResponseMode::DirectPost => match response {
            AuthorizationResponse::Unencoded(params) => Ok(flatten_for_form(params)),
            _ => Err(SubmitError::UnexpectedResponseFormat),
        },
        ResponseMode::DirectPostJwt => match response {
            AuthorizationResponse::Jwt(jwt) => {
                let mut fields: Vec<(String, FormValue)> = Vec::new();
                fields.push(("response".to_owned(), FormValue::Text(jwt)));
                Ok(fields)
            },
            _ => Err(SubmitError::UnexpectedResponseFormat),
        },
        ResponseMode::Unsupported(m) => Err(SubmitError::UnsupportedResponseMode(m.clone())),
    }
}

/// The serialization of the URL that a text parses as, if it is one.
pub uninterp spec fn url_parsed(s: Seq<char>) -> Option<Seq<char>>;

/// Relies on `url::Url::parse`, read back with `String::from`: the serialization
/// of the URL that the text parses as.
#[verifier::external_body]
fn parse_url(s: &str) -> (r: Option<String>)
    ensures
        match r {
            Some(u) => url_parsed(s@) == Some(u@),
            None => url_parsed(s@) is None,
        },
{
    url::Url::parse(s).ok().map(String::from)
}

/// Whether an HTTP status lets the submission stand: any status below 400 but
/// an informational one.
pub open spec fn status_accepted(status: u16) -> bool {
    200 <= status < 400
}

/// The redirect that a reply body asks for: its `redirect_uri` when the body is
/// a JSON object whose `redirect_uri` is a string that parses as a URL.
pub open spec fn redirect_of(body: Seq<char>) -> Option<Seq<char>> {
    match json_object_strings(vstd::utf8::encode_utf8(body)) {
        Some(members) => match string_member(members, "redirect_uri"@) {
            Some(Some(u)) => url_parsed(u),
            _ => None,
        },
        None => None,
    }
}

/// `r` is the reading of a reply with the given status and body: an error status
/// fails with the status and body; otherwise the redirect that the body names,
/// if any.
pub open spec fn reply_read(status: u16, body: String, r: Result<Option<String>, SubmitError>) -> bool {
    if !status_accepted(status) {
        r == Err::<Option<String>, SubmitError>(SubmitError::Status(status, body))
    } else {
        r matches Ok(redirect) && match redirect {
            Some(u) => redirect_of(body@) == Some(u@),
            None => redirect_of(body@) is None,
        }
    }
}

/// Reads the verifier's reply to a submission: an error status fails with the
/// status and body; otherwise the reply may name a redirect, and a body that
/// names none (an empty one among them) means no redirect.
pub fn read_reply(status: u16, body: String) -> (r: Result<Option<String>, SubmitError>)
    ensures
        reply_read(status, body, r),
{
    if !(200 <= status && status < 400) {
        return Err(SubmitError::Status(status, body));
    }
    let members = match parse_object_strings(body.as_str().as_bytes()) {
        Some(m) => m,
        None => return Ok(None),
    };
    match find_string_member(&members, "redirect_uri") {
        Some(Some(u)) => Ok(parse_url(u.as_str())),
        _ => Ok(None),
    }
}

/// `r` is the outcome of a post that came back as `reply`: the transport's
/// failure, or the reading of the verifier's reply.
pub open spec fn post_outcome(
    reply: Result<(u16, String), String>,
    r: Result<Option<String>, SubmitError>,
) -> bool {
    match reply {
        Err(e) => r == Err::<Option<String>, SubmitError>(SubmitError::Network(e)),
        Ok((status, body)) => reply_read(status, body, r),
    }
}

/// The outcome of a post: a transport failure is a network error; a reply is
/// read for its status and redirect.
pub fn read_post_outcome(reply: Result<(u16, String), String>) -> (r: Result<
    Option<String>,
    SubmitError,
>)
    ensures
        post_outcome(reply, r),
{
    match reply {
        Ok((status, body)) => read_reply(status, body),
        Err(e) => Err(SubmitError::Network(e)),
    }
}

/// The error that stops a response before it is posted, if any: a mode that is
/// not delivered, or a response that is not in the form its mode calls for.
pub open spec fn form_error(mode: ResponseMode, response: AuthorizationResponse) -> Option<
    SubmitError,
> {
    match (mode, response) {
        (ResponseMode::Unsupported(m), _) => Some(SubmitError::UnsupportedResponseMode(m)),
        (ResponseMode::DirectPost, AuthorizationResponse::Unencoded(_)) => None,
        (ResponseMode::DirectPostJwt, AuthorizationResponse::Jwt(_)) => None,
        _ => Some(SubmitError::UnexpectedResponseFormat),
    }
}

/// Posts a form to a URI and hands back the reply's status and body.
pub trait FormPoster {
    /// Posts `fields` to `uri` as `application/x-www-form-urlencoded`; the reply's
    /// status and body, or why the request failed.
    fn post_form(&self, uri: &str, fields: Vec<(String, FormValue)>) -> Result<(u16, String), String>;
}

/// Submits a response to the verifier's return URI in the given response mode,
/// and reads the redirect that the verifier's reply may name. A response that
/// cannot be delivered fails before anything is posted; otherwise the form is
/// posted once and the outcome is that of the post.
pub fn submit_authorization_response<P: FormPoster>(
    poster: &P,
    mode: &ResponseMode,
    return_uri: &str,
    response: AuthorizationResponse,
) -> (r: Result<Option<String>, SubmitError>)
    ensures
        match form_error(*mode, response) {
            Some(e) => r == Err::<Option<String>, SubmitError>(e),
            None => exists|reply: Result<(u16, String), String>| post_outcome(reply, r),
        },
{
    let fields = form_for_mode(mode, response)?;
    let reply = poster.post_form(return_uri, fields);
    read_post_outcome(reply)
}

/// Submits a response that a handler may have failed to produce: its failure
/// is an error of its own; a response is submitted as
/// [`submit_authorization_response`] does.
pub fn submit_handled_response<P: FormPoster>(
    poster: &P,
    mode: &ResponseMode,
    return_uri: &str,
    response: Result<AuthorizationResponse, String>,
) -> (r: Result<Option<String>, SubmitError>)
    ensures
        match response {
            Err(e) => r == Err::<Option<String>, SubmitError>(SubmitError::Handler(e)),
            Ok(resp) => match form_error(*mode, resp) {
                Some(e) => r == Err::<Option<String>, SubmitError>(e),
                None => exists|reply: Result<(u16, String), String>| post_outcome(reply, r),
            },
        },
{
    match response {
        Ok(resp) => submit_authorization_response(poster, mode, return_uri, resp),
        Err(e) => Err(SubmitError::Handler(e)),
    }
}

/// Submits the response that a handler produces for its request, in the
/// request's response mode and to its return URI, and reads the redirect that
/// the verifier's reply may name.
pub fn submit_response<P: FormPoster, H: PresentationHandler>(poster: &P, handler: H) -> (r: Result<
    Option<String>,
    SubmitError,
>)
    ensures
        handler.spec_request().response_mode matches ResponseMode::Unsupported(m) ==> (r == Err::<
            Option<String>,
            SubmitError,
        >(SubmitError::UnsupportedResponseMode(m)) || r matches Err(SubmitError::Handler(_))),
        r matches Err(SubmitError::UnsupportedResponseMode(_))
            ==> handler.spec_request().response_mode is Unsupported,
        r matches Err(SubmitError::UnexpectedResponseFormat) ==> !(
        handler.spec_request().response_mode is Unsupported),
        r is Ok ==> exists|reply: Result<(u16, String), String>| post_outcome(reply, r),
{
    let request = handler.request();
    let mode = request.response_mode.duplicate();
    let return_uri = request.return_uri.clone();
    let response = handler.to_response();
    submit_handled_response(poster, &mode, return_uri.as_str(), response)
}

} // verus!
