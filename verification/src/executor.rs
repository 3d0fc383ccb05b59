//! The request executor: what is sent, how an answer is judged, which
//! failures are worth another try, and what the caller gets in the end.
//!
//! Each authenticated call carries the session token in a header. A call is
//! not sent without a token. An answer with a success status is decoded; any
//! other answer, and a transfer that fails, becomes an error. Failures of
//! the transfer and server errors are retried under the retry policy; client
//! errors and answers that do not decode are not. An answer that reports
//! the token as invalid makes the token manager drop it.

use crate::request::{CallRequest, RequestModel};
use crate::retry::{can_fail_as, run, slept, ErrorClass, RetryPolicy, RunReport};
use crate::token::TokenManager;
use vstd::prelude::*;

verus! {

/// The mathematical content of an [`HttpResponse`].
pub struct ResponseModel {
    pub status: u16,
    pub body: Seq<char>,
}

/// What the service answered: the status and the body as text.
#[derive(Debug)]
pub struct HttpResponse {
    pub status: u16,
    pub body: String,
}

impl View for HttpResponse {
    type V = ResponseModel;

    open spec fn view(&self) -> ResponseModel {
        ResponseModel { status: self.status, body: self.body@ }
    }
}

/// Why a transfer gave no answer.
#[derive(Clone, Copy, Debug, PartialEq, Eq, Structural)]
pub enum TransportError {
    /// The connection was refused or broke.
    Connection,
    /// No answer came in time.
    Timeout,
    /// The host name could not be resolved.
    Dns,
    /// Anything else that kept the answer away.
    Other,
}

/// The mathematical content of an [`ApiError`].
pub enum ApiErrorModel {
    Unauthenticated,
    Http { status: u16, body: Seq<char> },
    MalformedResponse { raw_body: Seq<char> },
    Transport,
}

/// Why a call gave no value.
#[derive(Debug, PartialEq, Eq)]
pub enum ApiError {
    /// No valid token was at hand: nothing was sent.
    Unauthenticated,
    /// The service answered with a status that is no success.
    Http { status: u16, body: String },
    /// The service answered with success, but the body is not what was
    /// expected.
    MalformedResponse { raw_body: String },
    /// The transfer failed.
    Transport,
}

impl View for ApiError {
    type V = ApiErrorModel;

    open spec fn view(&self) -> ApiErrorModel {
        match self {
            ApiError::Unauthenticated => ApiErrorModel::Unauthenticated,
            ApiError::Http { status, body } => ApiErrorModel::Http { status: *status, body: body@ },
            ApiError::MalformedResponse { raw_body } => ApiErrorModel::MalformedResponse {
                raw_body: raw_body@,
            },
            ApiError::Transport => ApiErrorModel::Transport,
        }
    }
}

/// The name of the header that carries the session token.
pub open spec fn token_header() -> Seq<char> {
    "token"@
}

/// The status tells success: 200 to 299.
pub open spec fn is_success(status: u16) -> bool {
    200 <= status <= 299
}

/// The status tells an error on the server's side: 500 to 599, the gateway's
/// 502 among them.
pub open spec fn is_server_error(status: u16) -> bool {
    500 <= status <= 599
}

/// The status tells that the token was not accepted: 401 or 403.
pub open spec fn is_auth_failure(status: u16) -> bool {
    status == 401 || status == 403
}

/// The class of each error: a failed transfer and a server error may pass,
/// everything else stays as it is.
pub open spec fn class_of(error: ApiErrorModel) -> ErrorClass {
    match error {
        ApiErrorModel::Transport => ErrorClass::Retryable,
        ApiErrorModel::Http { status, .. } => if is_server_error(status) {
            ErrorClass::Retryable
        } else {
            ErrorClass::Fatal
        },
        ApiErrorModel::MalformedResponse { .. } => ErrorClass::Fatal,
        ApiErrorModel::Unauthenticated => ErrorClass::Fatal,
    }
}

/// The error tells that the token was not accepted.
pub open spec fn reports_invalid_token(error: ApiErrorModel) -> bool {
    error matches ApiErrorModel::Http { status, .. } && is_auth_failure(status)
}

/// Whether the status tells success.
pub fn status_is_success(status: u16) -> (r: bool)
    ensures
        r == is_success(status),
{
    200 <= status && status <= 299
}

/// Classifies an error for the retrier.
pub fn classify(error: &ApiError) -> (class: ErrorClass)
    ensures
        class == class_of(error@),
{
    match error {
        ApiError::Transport => ErrorClass::Retryable,
        ApiError::Http { status, .. } => if 500 <= *status && *status <= 599 {
            ErrorClass::Retryable
        } else {
            ErrorClass::Fatal
        },
        ApiError::MalformedResponse { .. } => ErrorClass::Fatal,
        ApiError::Unauthenticated => ErrorClass::Fatal,
    }
}

/// The call with the token in its token header.
pub open spec fn with_token(request: RequestModel, token: Seq<char>) -> RequestModel {
    RequestModel { headers: request.headers.insert(token_header(), token), ..request }
}

/// Attaches the current token to a call. Without a valid token the call is
/// not to be sent, and the answer is `Unauthenticated`.
pub fn prepare(tokens: &TokenManager, request: CallRequest) -> (r: Result<CallRequest, ApiError>)
    ensures
        match r {
            Ok(prepared) => tokens@.current() matches Ok(token) && prepared@ == with_token(
                request@,
                token,
            ),
            Err(e) => e@ == ApiErrorModel::Unauthenticated && tokens@.current() is Err,
        },
{
    match tokens.current_token() {
        Ok(token) => {
            let mut prepared = request;
            prepared.set_header("token", token);
            Ok(prepared)
        },
        Err(_) => Err(ApiError::Unauthenticated),
    }
}

/// Judges what a transfer gave: an answer with a success status passes, any
/// other answer becomes an `Http` error with its status and body, and a
/// transfer without an answer becomes a `Transport` error.
pub fn check_status(
    outcome: Result<HttpResponse, TransportError>,
) -> (r: Result<HttpResponse, ApiError>)
    ensures
        match outcome {
            Ok(response) => if is_success(response.status) {
                r matches Ok(passed) && passed@ == response@
            } else {
                r matches Err(e) && e@ == (ApiErrorModel::Http {
                    status: response.status,
                    body: response.body@,
                })
            },
            Err(_) => r matches Err(e) && e@ == ApiErrorModel::Transport,
        },
{
    match outcome {
        Ok(response) => {
            if status_is_success(response.status) {
                Ok(response)
            } else {
                Err(ApiError::Http { status: response.status, body: response.body })
            }
        },
        Err(_) => Err(ApiError::Transport),
    }
}

/// Judges what decoding the body of a successful answer gave: the value, or
/// a `MalformedResponse` error that carries the body as it came.
pub fn check_decoded<T>(raw_body: String, decoded: Option<T>) -> (r: Result<T, ApiError>)
    ensures
        match decoded {
            Some(value) => r == Ok::<T, ApiError>(value),
            None => r matches Err(e) && e@ == (ApiErrorModel::MalformedResponse {
                raw_body: raw_body@,
            }),
        },
{
    match decoded {
        Some(value) => Ok(value),
        None => Err(ApiError::MalformedResponse { raw_body }),
    }
}

/// Lets the token manager know of the error that ended a call: where the
/// error reports the token as invalid, a valid manager drops its token.
/// Tells whether the manager changed.
pub fn note_failure(tokens: &mut TokenManager, error: &ApiError) -> (changed: bool)
    ensures
        final(tokens)@ == (if reports_invalid_token(error@) {
            old(tokens)@.invalidate()
        } else {
            old(tokens)@
        }),
        changed == (reports_invalid_token(error@) && old(tokens)@.state is Valid),
{
    match error {
        ApiError::Http { status, .. } => {
            if *status == 401 || *status == 403 {
                tokens.invalidate()
            } else {
                false
            }
        },
        _ => false,
    }
}

/// `decode` can give `decoded` for a body with this text.
pub open spec fn decode_gives<T, De>(
    decode: De,
    text: Seq<char>,
    decoded: Option<T>,
) -> bool where De: Fn(&str) -> Option<T> {
    exists|body: &str| body@ == text && #[trigger] decode.ensures((body,), decoded)
}

/// `transport` can give an answer with this content for the prepared call.
pub open spec fn transport_answers<Tr>(
    transport: Tr,
    prepared: &CallRequest,
    answer: ResponseModel,
) -> bool where Tr: Fn(&CallRequest) -> Result<HttpResponse, TransportError> {
    exists|response: HttpResponse|
        response@ == answer && #[trigger] transport.ensures((prepared,), Ok(response))
}

/// `transport` can fail to give an answer for the prepared call.
pub open spec fn transport_fails<Tr>(
    transport: Tr,
    prepared: &CallRequest,
) -> bool where Tr: Fn(&CallRequest) -> Result<HttpResponse, TransportError> {
    exists|failure: TransportError| #[trigger] transport.ensures((prepared,), Err(failure))
}

/// What one attempt of a prepared call can give: the decoded value of an
/// answer with a success status, or the error that the transfer, the status
/// or the decoding led to.
pub open spec fn attempt_gives<T, Tr, De>(
    transport: Tr,
    decode: De,
    prepared: &CallRequest,
    r: Result<T, ApiError>,
) -> bool where
    Tr: Fn(&CallRequest) -> Result<HttpResponse, TransportError>,
    De: Fn(&str) -> Option<T>,
{
    match r {
        Ok(value) => exists|answer: ResponseModel|
            is_success(answer.status) && #[trigger] transport_answers(transport, prepared, answer)
                && decode_gives(decode, answer.body, Some(value)),
        Err(e) => match e@ {
            ApiErrorModel::Unauthenticated => false,
            ApiErrorModel::Transport => transport_fails(transport, prepared),
            ApiErrorModel::Http { status, body } => !is_success(status) && transport_answers(
                transport,
                prepared,
                ResponseModel { status, body },
            ),
            ApiErrorModel::MalformedResponse { raw_body } => exists|answer: ResponseModel|
                is_success(answer.status) && answer.body == raw_body && #[trigger] transport_answers(
                    transport,
                    prepared,
                    answer,
                ) && decode_gives(decode, raw_body, None::<T>),
        },
    }
}

/// One attempt of a prepared call can fail with an error of this class.
pub open spec fn attempt_can_fail_as<T, Tr, De>(
    transport: Tr,
    decode: De,
    prepared: &CallRequest,
    class: ErrorClass,
) -> bool where
    Tr: Fn(&CallRequest) -> Result<HttpResponse, TransportError>,
    De: Fn(&str) -> Option<T>,
{
    exists|error: ApiError|
        #[trigger] attempt_gives(transport, decode, prepared, Err::<T, ApiError>(error))
            && class_of(error@) == class
}

/// What a transfer gave, with the answer by its content.
pub open spec fn outcome_model(
    outcome: Result<HttpResponse, TransportError>,
) -> Result<ResponseModel, TransportError> {
    match outcome {
        Ok(answer) => Ok(answer@),
        Err(failure) => Err(failure),
    }
}

/// What judging the outcome of a transfer can give, where `decode` reads
/// the body of a successful answer: the decoded value, or the error that
/// the transfer, the status or the decoding led to.
pub open spec fn judge_gives<T, De>(
    decode: De,
    outcome: Result<ResponseModel, TransportError>,
    r: Result<T, ApiError>,
) -> bool where De: Fn(&str) -> Option<T> {
    match outcome {
        Err(_) => r matches Err(e) && e@ == ApiErrorModel::Transport,
        Ok(answer) => if is_success(answer.status) {
            match r {
                Ok(value) => decode_gives(decode, answer.body, Some(value)),
                Err(e) => e@ == (ApiErrorModel::MalformedResponse { raw_body: answer.body })
                    && decode_gives(decode, answer.body, None::<T>),
            }
        } else {
            r matches Err(e) && e@ == (ApiErrorModel::Http {
                status: answer.status,
                body: answer.body,
            })
        },
    }
}

/// Judges what a transfer gave and decodes the body of an answer with a
/// success status with `decode`.
pub fn judge<T, De>(
    outcome: Result<HttpResponse, TransportError>,
    decode: &De,
) -> (r: Result<T, ApiError>) where De: Fn(&str) -> Option<T>
    requires
        forall|body: &str| decode.requires((body,)),
    ensures
        judge_gives(*decode, outcome_model(outcome), r),
{
    match check_status(outcome) {
        Ok(answer) => {
            let ghost content = answer@;
            let text = answer.body.as_str();
            let decoded = decode(text);
            proof {
                assert(decode_gives(*decode, content.body, decoded));
            }
            check_decoded(answer.body, decoded)
        },
        Err(e) => Err(e),
    }
}

/// Makes one attempt of a prepared call: hands it to `transport` and judges
/// what comes back, decoding the body of a successful answer with `decode`.
pub fn attempt<T, Tr, De>(
    transport: &Tr,
    decode: &De,
    prepared: &CallRequest,
) -> (r: Result<T, ApiError>) where
    Tr: Fn(&CallRequest) -> Result<HttpResponse, TransportError>,
    De: Fn(&str) -> Option<T>,

    requires
        transport.requires((prepared,)),
        forall|body: &str| decode.requires((body,)),
    ensures
        attempt_gives(*transport, *decode, prepared, r),
{
    let outcome = transport(prepared);
    proof {
        assert(transport.ensures((prepared,), outcome));
        if outcome is Ok {
            assert(outcome == Ok::<HttpResponse, TransportError>(outcome->Ok_0));
            assert(transport_answers(*transport, prepared, outcome->Ok_0@));
            assert(outcome->Ok_0@ == (ResponseModel {
                status: outcome->Ok_0.status,
                body: outcome->Ok_0.body@,
            }));
        } else {
            assert(outcome == Err::<HttpResponse, TransportError>(outcome->Err_0));
            assert(transport_fails(*transport, prepared));
        }
    }
    judge(outcome, decode)
}

/// Carries out one logical call. Without a valid token nothing is sent and
/// the result is `Unauthenticated`: `transport` need not even be callable
/// then. Otherwise the call is sent with the token attached, and sent again
/// after each failure that is worth another try, as the retry policy allows;
/// `sleep` is called with each wait in milliseconds. The result is that of
/// the last attempt. Where it reports the token as invalid, the token
/// manager drops the token, so that the next call is refused until a new
/// token is there.
pub fn execute<T, Tr, De, Sl>(
    tokens: &mut TokenManager,
    request: CallRequest,
    policy: RetryPolicy,
    transport: Tr,
    decode: De,
    sleep: Sl,
) -> (report: RunReport<T, ApiError>) where
    Tr: Fn(&CallRequest) -> Result<HttpResponse, TransportError>,
    De: Fn(&str) -> Option<T>,
    Sl: Fn(u64),

    requires
        old(tokens)@.current() is Ok ==> forall|sent: &CallRequest| transport.requires((sent,)),
        forall|body: &str| decode.requires((body,)),
        forall|ms: u64| 1 <= ms <= policy@.max_interval ==> sleep.requires((ms,)),
    ensures
        match old(tokens)@.current() {
            Err(_) => {
                &&& report.result matches Err(e) && e@ == ApiErrorModel::Unauthenticated
                &&& report.retries == 0 && report.waited == 0 && report.failures@.len() == 0
                &&& final(tokens)@ == old(tokens)@
            },
            Ok(token) => {
                &&& exists|prepared: &CallRequest|
                    prepared@ == with_token(request@, token) && #[trigger] attempt_gives(
                        transport,
                        decode,
                        prepared,
                        report.result,
                    ) && forall|i: int|
                        0 <= i < report.failures@.len() ==> attempt_can_fail_as::<T, Tr, De>(
                            transport,
                            decode,
                            prepared,
                            #[trigger] report.failures@[i],
                        )
                &&& policy@.records(report.failures@, report.retries as nat, report.result is Ok)
                &&& forall|k: nat| k < report.retries ==> #[trigger] slept(sleep, policy@, k)
                &&& report.result matches Err(e) ==> report.failures@.last() == class_of(e@)
                &&& report.waited == policy@.total_wait(report.retries as nat)
                &&& report.waited <= policy@.max_elapsed_time
                &&& final(tokens)@ == (if report.result matches Err(e) && reports_invalid_token(e@) {
                    old(tokens)@.invalidate()
                } else {
                    old(tokens)@
                })
            },
        },
{
    let prepared = match prepare(&*tokens, request) {
        Ok(prepared) => prepared,
        Err(e) => {
            return RunReport { result: Err(e), retries: 0, waited: 0, failures: Vec::new() };
        },
    };
    let transport = &transport;
    let decode = &decode;
    let prepared = &prepared;
    let operation = || -> (r: Result<T, ApiError>)
        ensures
            attempt_gives(*transport, *decode, prepared, r),
        { attempt(transport, decode, prepared) };
    let report = run(operation, policy, classify, sleep);
    proof {
        assert forall|i: int| 0 <= i < report.failures@.len() implies attempt_can_fail_as::<
            T,
            Tr,
            De,
        >(*transport, *decode, prepared, #[trigger] report.failures@[i]) by {
            let class = report.failures@[i];
            assert(can_fail_as(operation, classify, class));
            let error = choose|error: ApiError|
                operation.ensures((), Err::<T, ApiError>(error)) && #[trigger] classify.ensures(
                    (&error,),
                    class,
                );
            assert(attempt_gives(*transport, *decode, prepared, Err::<T, ApiError>(error)));
        }
    }
    match &report.result {
        Ok(_) => {},
        Err(e) => {
            note_failure(tokens, e);
        },
    }
    report
}

} // verus!
