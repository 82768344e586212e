//! Classification of a raw HTTP response (status code and body text) into a
//! typed outcome: a decoded payload, a typed client or server error, a decoding
//! failure, or an unknown status.
use crate::deserialize::ParseError;
use vstd::prelude::*;

verus! {

/// The only status code that carries a success payload.
pub const STATUS_OK: u16 = 200;

/// At most this many characters of a body are kept in a decoding failure.
pub const EXCERPT_CHARS: usize = 1000;

/// The classes into which a status code falls.
#[derive(Clone, Copy, Debug, PartialEq, Eq, Structural)]
pub enum StatusClass {
    Success,
    ClientError,
    ServerError,
    Unknown,
}

pub open spec fn is_client_error_code(code: u16) -> bool {
    400 <= code && code <= 499
}

pub open spec fn is_server_error_code(code: u16) -> bool {
    500 <= code && code <= 599
}

pub open spec fn status_class_of(code: u16) -> StatusClass {
    if code == STATUS_OK {
        StatusClass::Success
    } else if is_client_error_code(code) {
        StatusClass::ClientError
    } else if is_server_error_code(code) {
        StatusClass::ServerError
    } else {
        StatusClass::Unknown
    }
}

/// Which class a status code belongs to.
pub fn status_class(code: u16) -> (r: StatusClass)
    ensures
        r == status_class_of(code),
{
    if code == STATUS_OK {
        StatusClass::Success
    } else if 400 <= code && code <= 499 {
        StatusClass::ClientError
    } else if 500 <= code && code <= 599 {
        StatusClass::ServerError
    } else {
        StatusClass::Unknown
    }
}

/// The shape a body must be decoded as, given its status code.
#[derive(Clone, Copy, Debug, PartialEq, Eq, Structural)]
pub enum BodyShape {
    /// The endpoint's success payload.
    Payload,
    /// The API family's error envelope.
    ErrorEnvelope,
    /// Nothing: the status is not classified, so the body is not read.
    Ignored,
}

pub open spec fn body_shape_of(code: u16) -> BodyShape {
    match status_class_of(code) {
        StatusClass::Success => BodyShape::Payload,
        StatusClass::ClientError => BodyShape::ErrorEnvelope,
        StatusClass::ServerError => BodyShape::ErrorEnvelope,
        StatusClass::Unknown => BodyShape::Ignored,
    }
}

/// What the body of a response with this status must be decoded as.
pub fn expected_body(code: u16) -> (r: BodyShape)
    ensures
        r == body_shape_of(code),
{
    match status_class(code) {
        StatusClass::Success => BodyShape::Payload,
        StatusClass::ClientError => BodyShape::ErrorEnvelope,
        StatusClass::ServerError => BodyShape::ErrorEnvelope,
        StatusClass::Unknown => BodyShape::Ignored,
    }
}

/// A body after it was decoded as the shape that `expected_body` named.
#[derive(Clone, Debug)]
pub enum DecodedBody<T, E> {
    /// Decoded as the success payload.
    Payload(T),
    /// Decoded as the error envelope.
    Envelope(E),
    /// It did not match the shape it was decoded as.
    Invalid(ParseError),
    /// Not decoded, as the status asks for nothing.
    Skipped,
}

impl<T, E> DecodedBody<T, E> {
    /// The body was decoded as what a response with status `code` calls for.
    pub open spec fn fits(&self, code: u16) -> bool {
        match body_shape_of(code) {
            BodyShape::Payload => self is Payload || self is Invalid,
            BodyShape::ErrorEnvelope => self is Envelope || self is Invalid,
            BodyShape::Ignored => true,
        }
    }

    /// Whether this decoded body is one a response with status `code` can carry.
    pub fn fits_status(&self, code: u16) -> (r: bool)
        ensures
            r == self.fits(code),
    {
        match expected_body(code) {
            BodyShape::Payload => match self {
                DecodedBody::Payload(_) => true,
                DecodedBody::Invalid(_) => true,
                _ => false,
            },
            BodyShape::ErrorEnvelope => match self {
                DecodedBody::Envelope(_) => true,
                DecodedBody::Invalid(_) => true,
                _ => false,
            },
            BodyShape::Ignored => true,
        }
    }
}

/// The characters of a body that a decoding failure keeps: its first
/// `EXCERPT_CHARS` characters, or all of it when it is shorter.
pub open spec fn excerpt_of(text: Seq<char>) -> Seq<char> {
    if text.len() <= EXCERPT_CHARS {
        text
    } else {
        text.take(EXCERPT_CHARS as int)
    }
}

/// The bounded excerpt of a body, taken from the text as it was received.
pub fn excerpt(text: &String) -> (r: String)
    ensures
        r@ == excerpt_of(text@),
        r@.len() <= EXCERPT_CHARS,
{
    let n = text.as_str().unicode_len();
    if n <= EXCERPT_CHARS {
        text.clone()
    } else {
        let part = text.as_str().substring_char(0, EXCERPT_CHARS);
        part.to_owned()
    }
}

/// Every way a call to the API can fail, for an API family whose error
/// envelope is `E`.
#[derive(Debug)]
pub enum ApiError<E> {
    /// The transport failed: the request was not answered.
    Network(reqwest::Error),
    /// The body did not match the shape its status called for.
    Parsing { serde_error: ParseError, response: String },
    /// A 4xx status with a well-formed error envelope.
    ClientError(E),
    /// A 5xx status with a well-formed error envelope.
    ServerError(E),
    /// A status outside the classes above.
    Unknown,
}

impl<E> From<reqwest::Error> for ApiError<E> {
    fn from(e: reqwest::Error) -> (r: ApiError<E>) {
        ApiError::Network(e)
    }
}

impl<E> vstd::std_specs::convert::FromSpecImpl<reqwest::Error> for ApiError<E> {
    open spec fn obeys_from_spec() -> bool {
        true
    }

    open spec fn from_spec(e: reqwest::Error) -> ApiError<E> {
        ApiError::Network(e)
    }
}

/// `r` is the outcome of a response with status `code` and body `text`,
/// decoded as `body`.
pub open spec fn is_outcome<T, E>(
    r: Result<T, ApiError<E>>,
    text: Seq<char>,
    code: u16,
    body: DecodedBody<T, E>,
) -> bool {
    match status_class_of(code) {
        StatusClass::Unknown => r == Err::<T, ApiError<E>>(ApiError::Unknown),
        class => match body {
            DecodedBody::Payload(v) => r == Ok::<T, ApiError<E>>(v),
            DecodedBody::Envelope(e) => if class == StatusClass::ClientError {
                r == Err::<T, ApiError<E>>(ApiError::ClientError(e))
            } else {
                r == Err::<T, ApiError<E>>(ApiError::ServerError(e))
            },
            DecodedBody::Invalid(err) => match r {
                Err(ApiError::Parsing { serde_error, response }) => serde_error == err
                    && response@ == excerpt_of(text),
                _ => false,
            },
            DecodedBody::Skipped => false,
        },
    }
}

/// Turns a response into its typed outcome.
///
/// A 200 yields the decoded payload; a 4xx or 5xx yields the decoded error
/// envelope as a client or server error; a body that did not decode yields
/// `Parsing` with the decoder's diagnostic and an excerpt of the body; any
/// other status yields `Unknown`, whatever the body.
pub fn match_response<T, E>(
    text: String,
    status: u16,
    body: DecodedBody<T, E>,
) -> (r: Result<T, ApiError<E>>)
    requires
        body.fits(status),
    ensures
        is_outcome(r, text@, status, body),
{
    match status_class(status) {
        StatusClass::Unknown => Err(ApiError::Unknown),
        class => match body {
            DecodedBody::Payload(v) => Ok(v),
            DecodedBody::Envelope(e) => match class {
                StatusClass::ClientError => Err(ApiError::ClientError(e)),
                _ => Err(ApiError::ServerError(e)),
            },
            DecodedBody::Invalid(err) => Err(
                ApiError::Parsing { serde_error: err, response: excerpt(&text) },
            ),
            DecodedBody::Skipped => Err(ApiError::Unknown),
        },
    }
}

/// On a 200, the outcome is a success exactly when the body decoded as the
/// payload; otherwise it is a decoding failure that carries the decoder's
/// diagnostic, and with it the path of the field at which decoding stopped.
pub proof fn lemma_success_iff_payload<T, E>(
    r: Result<T, ApiError<E>>,
    text: Seq<char>,
    code: u16,
    body: DecodedBody<T, E>,
)
    requires
        status_class_of(code) == StatusClass::Success,
        body.fits(code),
        is_outcome(r, text, code, body),
    ensures
        r is Ok <==> body is Payload,
        body is Payload ==> r == Ok::<T, ApiError<E>>(body->Payload_0),
        !(body is Payload) ==> (r matches Err(ApiError::Parsing { serde_error, response })
            && serde_error == body->Invalid_0 && response@ == excerpt_of(text)),
{
}

/// A status of the client or server error class never yields a success.
pub proof fn lemma_error_class_never_succeeds<T, E>(
    r: Result<T, ApiError<E>>,
    text: Seq<char>,
    code: u16,
    body: DecodedBody<T, E>,
)
    requires
        is_client_error_code(code) || is_server_error_code(code),
        body.fits(code),
        is_outcome(r, text, code, body),
    ensures
        r is Err,
        is_client_error_code(code) && body is Envelope ==> r == Err::<T, ApiError<E>>(
            ApiError::ClientError(body->Envelope_0),
        ),
        is_server_error_code(code) && body is Envelope ==> r == Err::<T, ApiError<E>>(
            ApiError::ServerError(body->Envelope_0),
        ),
        body is Invalid ==> r->Err_0 is Parsing,
{
}

/// A status outside 200, 4xx and 5xx yields `Unknown`, whatever the body.
pub proof fn lemma_other_status_unknown<T, E>(
    r: Result<T, ApiError<E>>,
    text: Seq<char>,
    code: u16,
    body: DecodedBody<T, E>,
)
    requires
        code != STATUS_OK,
        !is_client_error_code(code),
        !is_server_error_code(code),
        is_outcome(r, text, code, body),
    ensures
        r == Err::<T, ApiError<E>>(ApiError::Unknown),
{
}

} // verus!
