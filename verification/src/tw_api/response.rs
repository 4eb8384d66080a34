//! Responses of the API and what each means for a publish attempt.

use colored::Colorize;
use vstd::prelude::*;
use vstd::string::StringExecFns;

verus! {

/// The body that answers a post that was created.
#[derive(Default, Debug, Clone, PartialEq)]
pub struct TweetResponse {
    pub data: TweetResponseData,
}

#[derive(Default, Debug, Clone, PartialEq)]
pub struct TweetResponseData {
    pub id: String,
    pub text: String,
}

/// The body that comes with status 401.
#[derive(Debug)]
pub struct GeneralErrorResponse {
    pub title: String,
    pub typ: String,
    pub status: i32,
    pub detail: String,
}

/// The body that comes with any other status that is not 201.
#[derive(Debug)]
pub struct OtherErrorResponse {
    pub errors: Vec<ErrorResponseElement>,
    pub title: String,
    pub detail: String,
    pub type_err: String,
}

#[derive(Debug)]
pub struct ErrorResponseElement {
    pub message: String,
}

/// A publishing error that the API reported. The attempt may be made again
/// after a delay.
#[derive(Debug)]
pub struct TweetError(pub String);

impl TweetError {
    /// The text of the error.
    pub fn to_string(&self) -> (text: String)
        ensures
            text@ == self.0@,
    {
        self.0.clone()
    }
}

/// Why a publish attempt failed.
#[derive(Debug)]
pub enum PublishError {
    /// The API refused a request: retry after a delay.
    Tweet(TweetError),
    /// Anything else, such as a failure of the transport: not to be retried.
    Other(String),
}

impl PublishError {
    pub open spec fn spec_detail(&self) -> Seq<char> {
        match self {
            PublishError::Tweet(e) => e.0@,
            PublishError::Other(msg) => msg@,
        }
    }

    /// Whether the attempt may be made again.
    pub fn is_retryable(&self) -> (retry: bool)
        ensures
            retry == (self is Tweet),
    {
        match self {
            PublishError::Tweet(_) => true,
            PublishError::Other(_) => false,
        }
    }

    /// The text that describes the failure.
    pub fn detail(&self) -> (text: String)
        ensures
            text@ == self.spec_detail(),
    {
        match self {
            PublishError::Tweet(e) => e.0.clone(),
            PublishError::Other(msg) => msg.clone(),
        }
    }
}

/// The status code of an HTTP response: three digits, 100 to 999.
#[derive(Debug, Clone, Copy)]
pub struct HttpStatus {
    code: u16,
}

impl View for HttpStatus {
    type V = u16;

    closed spec fn view(&self) -> u16 {
        self.code
    }
}

impl HttpStatus {
    #[verifier::type_invariant]
    spec fn three_digits(self) -> bool {
        100 <= self.code <= 999
    }

    /// The status with this code, if the code has three digits.
    pub fn from_u16(code: u16) -> (status: Option<HttpStatus>)
        ensures
            status is Some <==> 100 <= code <= 999,
            status is Some ==> status.unwrap()@ == code,
    {
        if 100 <= code && code <= 999 {
            Some(HttpStatus { code })
        } else {
            None
        }
    }

    pub fn as_u16(&self) -> (code: u16)
        ensures
            code == self@,
            100 <= code <= 999,
    {
        proof {
            use_type_invariant(self);
        }
        self.code
    }
}

/// The line that `http::StatusCode` prints for a code: the number, a space
/// and the reason phrase that it knows for the number.
pub uninterp spec fn status_line(code: u16) -> Seq<char>;

/// `http::StatusCode::from_u16` followed by `to_string` on the status, as
/// `reqwest::StatusCode` offers them. The contract gives the printed line a
/// name; of what is in the line it claims nothing.
#[verifier::external_body]
fn status_to_string(code: u16) -> (line: String)
    requires
        100 <= code <= 999,
    ensures
        line@ == status_line(code),
{
    reqwest::StatusCode::from_u16(code).map(|status| status.to_string()).unwrap_or_default()
}

/// The text between the marks that switch red on and off.
pub open spec fn red(text: Seq<char>) -> Seq<char> {
    "\x1b[31m"@ + text + "\x1b[0m"@
}

/// Whether `out` may be what comes of painting `text` red. Where colouring
/// is switched off, the text comes back as it is. Where it is on, the text
/// comes back between the two marks; if it holds escape characters itself,
/// more marks may have been set into it.
pub open spec fn is_red_paint_of(text: Seq<char>, out: Seq<char>) -> bool {
    out == text || (out.len() >= text.len() + 9 && (!text.contains('\x1b') ==> out == red(text)))
}

/// `colored::Colorize::color` with the colour "red", then `to_string` on the
/// coloured string. Whether `colored` colours at all depends on the
/// environment and on the terminal, so the contract allows both outcomes.
#[verifier::external_body]
fn paint_red(text: &str) -> (out: String)
    ensures
        is_red_paint_of(text@, out@),
{
    text.color("red").to_string()
}

/// The form in which a response body is expected, by the status it came with.
#[derive(Debug, Clone, Copy, PartialEq, Eq)]
pub enum Shape {
    Tweet,
    AuthError,
    OtherError,
}

pub open spec fn spec_expected_shape(status: u16) -> Shape {
    if status == 201 {
        Shape::Tweet
    } else if status == 401 {
        Shape::AuthError
    } else {
        Shape::OtherError
    }
}

/// The form in which to read the body of a response with this status.
pub fn expected_shape(status: HttpStatus) -> (shape: Shape)
    ensures
        shape == spec_expected_shape(status@),
{
    let code = status.as_u16();
    if code == 201 {
        Shape::Tweet
    } else if code == 401 {
        Shape::AuthError
    } else {
        Shape::OtherError
    }
}

/// A response body after the attempt to read it in the expected form.
#[derive(Debug)]
pub enum Decoded {
    Tweet(TweetResponse),
    AuthError(GeneralErrorResponse),
    OtherError(OtherErrorResponse),
    /// The body could not be read; the text says why.
    Failed(String),
}

/// The text of the error for a response with status 401, with the detail of
/// its body where the body could be read.
pub open spec fn auth_message(status: u16, detail: Option<Seq<char>>) -> Seq<char> {
    match detail {
        Some(detail) => "Auth error: "@ + status_line(status) + ", "@ + detail,
        None => "Auth error: "@ + status_line(status),
    }
}

/// The text of the error for a response with a status other than 201 and
/// 401, with the detail of its body where the body could be read.
pub open spec fn other_message(status: u16, detail: Option<Seq<char>>) -> Seq<char> {
    match detail {
        Some(detail) => "Other Error: "@ + status_line(status) + ": "@ + detail,
        None => "Other error: "@ + status_line(status),
    }
}

/// What a response means, before any text is painted.
pub enum Verdict {
    /// The post was created; the body names it.
    Created(TweetResponse),
    /// The API refused the request. The error has this text, painted red or
    /// plain, and the attempt may be made again.
    Refused { message: Seq<char>, painted: bool },
    /// The status is 201, but the body does not name the post; the text says
    /// why it could not be read.
    Unreadable(Seq<char>),
}

/// The meaning of a response with this status and body.
///
/// - 201: the post was created, if the body could be read as one.
/// - 401: refused, painted red, with the body's detail where the body is of
///   the form for 401, else with the status alone.
/// - any other status: refused, with the body's detail where the body is of
///   the form for such a status, else painted red with the status alone.
pub open spec fn verdict(status: u16, body: Decoded) -> Verdict {
    if status == 201 {
        match body {
            Decoded::Tweet(created) => Verdict::Created(created),
            Decoded::Failed(why) => Verdict::Unreadable(why@),
            _ => Verdict::Unreadable("unexpected response body"@),
        }
    } else if status == 401 {
        match body {
            Decoded::AuthError(error) => Verdict::Refused {
                message: auth_message(status, Some(error.detail@)),
                painted: true,
            },
            _ => Verdict::Refused { message: auth_message(status, None), painted: true },
        }
    } else {
        match body {
            Decoded::OtherError(error) => Verdict::Refused {
                message: other_message(status, Some(error.detail@)),
                painted: false,
            },
            _ => Verdict::Refused { message: other_message(status, None), painted: true },
        }
    }
}

/// Whether `text` may be the text of an error with this message.
pub open spec fn shows(message: Seq<char>, painted: bool, text: Seq<char>) -> bool {
    if painted {
        is_red_paint_of(message, text)
    } else {
        text == message
    }
}

/// Whether `out` is a classification that agrees with the verdict `v`.
pub open spec fn agrees(v: Verdict, out: Result<TweetResponse, PublishError>) -> bool {
    match v {
        Verdict::Created(created) => out == Ok::<TweetResponse, PublishError>(created),
        Verdict::Refused { message, painted } => out matches Err(PublishError::Tweet(e)) && shows(
            message,
            painted,
            e.0@,
        ),
        Verdict::Unreadable(why) => out matches Err(PublishError::Other(text)) && text@ == why,
    }
}

/// The message of a refusal is never empty, and painting does not make it so.
pub proof fn lemma_refusal_has_text(status: u16, body: Decoded, text: Seq<char>)
    requires
        verdict(status, body) matches Verdict::Refused { message, painted } && shows(
            message,
            painted,
            text,
        ),
    ensures
        text.len() > 0,
{
    reveal_strlit("Auth error: ");
    reveal_strlit("Other Error: ");
    reveal_strlit("Other error: ");
}

/// Classifies a response by its status and its body.
///
/// Every status other than 201 gives a retryable error whose text is not
/// empty.
pub fn classify(status: HttpStatus, body: Decoded) -> (out: Result<TweetResponse, PublishError>)
    ensures
        agrees(verdict(status@, body), out),
        status@ != 201 ==> out is Err && out->Err_0 is Tweet && out->Err_0.spec_detail().len() > 0,
{
    let code = status.as_u16();
    let out = if code == 201 {
        match body {
            Decoded::Tweet(created) => Ok(created),
            Decoded::Failed(why) => Err(PublishError::Other(why)),
            _ => Err(PublishError::Other(String::from_str("unexpected response body"))),
        }
    } else if code == 401 {
        let line = status_to_string(code);
        let mut message = String::from_str("Auth error: ");
        message.append(line.as_str());
        if let Decoded::AuthError(error) = body {
            message.append(", ");
            message.append(error.detail.as_str());
        }
        Err(PublishError::Tweet(TweetError(paint_red(message.as_str()))))
    } else {
        let line = status_to_string(code);
        if let Decoded::OtherError(error) = body {
            let mut message = String::from_str("Other Error: ");
            message.append(line.as_str());
            message.append(": ");
            message.append(error.detail.as_str());
            Err(PublishError::Tweet(TweetError(message)))
        } else {
            let mut message = String::from_str("Other error: ");
            message.append(line.as_str());
            Err(PublishError::Tweet(TweetError(paint_red(message.as_str()))))
        }
    };
    proof {
        if code != 201 {
            lemma_refusal_has_text(code, body, out->Err_0.spec_detail());
        }
    }
    out
}

} // verus!
