//! The client: its configuration, its token manager and its retry policy,
//! and one function for each call that the service offers.
//!
//! A function for a call hands out the call to send, with the session token
//! attached, or `Unauthenticated` where no valid token is held. Sending is
//! the caller's part; [`crate::executor`] tells how to go about it.

use crate::config::{ClientConfig, ConfigModel};
use crate::credentials::{Credentials, CredentialsModel};
use crate::executor::{
    check_decoded, check_status, class_of, classify, is_success, outcome_model, prepare,
    with_token, ApiError, ApiErrorModel, HttpResponse, ResponseModel, TransportError,
};
use crate::json::{json_object_text, object_text};
use crate::request::{CallRequest, Method, RequestModel};
use crate::retry::{
    can_fail_as, run, slept, ErrorClass, PolicyModel, RetryPolicy, RunReport,
};
use crate::token::{
    decoded, AuthOutcome, ManagerModel, Token, TokenError, TokenManager, TokenModel,
};
use vstd::prelude::*;

verus! {

/// The body of the identity call for these credentials: a JSON object with
/// the user name under `username` and the password hash under `password`.
pub open spec fn login_body(credentials: CredentialsModel) -> Seq<char> {
    json_object_text(
        "username"@,
        credentials.username,
        "password"@,
        credentials.password_hash,
    )
}

/// The identity call: the credentials are posted to the token endpoint. It
/// carries no token.
pub open spec fn identity_call(config: ConfigModel, credentials: CredentialsModel) -> RequestModel {
    RequestModel {
        method: Method::Post,
        url: config.api_url("/token"@),
        headers: Map::empty(),
        body: Some(login_body(credentials)),
    }
}

/// A call with this method, address and body that carries the token and
/// nothing else.
pub open spec fn authenticated_call(
    method: Method,
    url: Seq<char>,
    body: Option<Seq<char>>,
    token: Seq<char>,
) -> RequestModel {
    with_token(RequestModel { method, url, headers: Map::empty(), body }, token)
}

/// What a function for a call hands out: the call with the current token
/// where a token is held, and `Unauthenticated` where none is.
pub open spec fn hands_out(
    tokens: ManagerModel,
    method: Method,
    url: Seq<char>,
    body: Option<Seq<char>>,
    r: Result<CallRequest, ApiError>,
) -> bool {
    match r {
        Ok(call) => tokens.current() matches Ok(token) && call@ == authenticated_call(
            method,
            url,
            body,
            token,
        ),
        Err(e) => e@ == ApiErrorModel::Unauthenticated && tokens.current() is Err,
    }
}

/// Builds the call with this method, address and body, and attaches the
/// current token.
pub fn build_call(
    tokens: &TokenManager,
    method: Method,
    url: String,
    body: Option<&str>,
) -> (r: Result<CallRequest, ApiError>)
    ensures
        hands_out(
            tokens@,
            method,
            url@,
            match body {
                Some(b) => Some(b@),
                None => None,
            },
            r,
        ),
{
    let call = CallRequest::new(method, url);
    let call = match body {
        Some(b) => call.with_body(String::from_str(b)),
        None => call,
    };
    prepare(tokens, call)
}

/// Builds the identity call for these credentials.
pub fn build_identity_call(config: &ClientConfig, credentials: &Credentials) -> (call: CallRequest)
    ensures
        call@ == identity_call(config@, credentials@),
{
    let body = object_text(
        "username",
        credentials.username.as_str(),
        "password",
        credentials.password_hash.as_str(),
    );
    CallRequest::new(Method::Post, config.api_url("/token")).with_body(body)
}

/// The mathematical content of an [`AuthError`].
pub enum AuthErrorModel {
    Refused(TokenError),
    Failed(ApiErrorModel),
}

/// Why an identity call gave no outcome.
#[derive(Debug, PartialEq, Eq)]
pub enum AuthError {
    /// The token manager did not admit the call, or did not expect its
    /// answer.
    Refused(TokenError),
    /// The call was made and failed.
    Failed(ApiError),
}

impl View for AuthError {
    type V = AuthErrorModel;

    open spec fn view(&self) -> AuthErrorModel {
        match self {
            AuthError::Refused(e) => AuthErrorModel::Refused(*e),
            AuthError::Failed(e) => AuthErrorModel::Failed(e@),
        }
    }
}

/// What the identity call came to, by its content.
pub open spec fn result_model(
    result: Result<Token, ApiError>,
) -> Result<TokenModel, ApiErrorModel> {
    match result {
        Ok(answer) => Ok(answer@),
        Err(e) => Err(e@),
    }
}

/// The body spells a record of the identity endpoint that asks to stay
/// away.
pub open spec fn tells_rate_limit(body: Seq<char>) -> bool {
    decoded(body) matches Some(answer) && answer.rate_limited()
}

/// What the identity call came to, once a notice to stay away is taken for
/// what it is. The service may send that notice with a status that is no
/// success: an `Http` error whose body spells a record with code 3000 is
/// the answer that the body spells. Everything else stays as it is.
pub open spec fn noticed(
    result: Result<TokenModel, ApiErrorModel>,
) -> Result<TokenModel, ApiErrorModel> {
    match result {
        Err(ApiErrorModel::Http { status, body }) => if tells_rate_limit(body) {
            Ok(decoded(body)->0)
        } else {
            result
        },
        _ => result,
    }
}

/// What one attempt of the identity call comes to, given what the transfer
/// gave: the record that the body of a successful answer spells, the notice
/// to stay away whatever the status it comes with, or the error that the
/// transfer, the status or the decoding led to.
pub open spec fn identity_judged(
    outcome: Result<ResponseModel, TransportError>,
) -> Result<TokenModel, ApiErrorModel> {
    match outcome {
        Err(_) => Err(ApiErrorModel::Transport),
        Ok(answer) => if is_success(answer.status) {
            match decoded(answer.body) {
                Some(record) => Ok(record),
                None => Err(ApiErrorModel::MalformedResponse { raw_body: answer.body }),
            }
        } else {
            noticed(Err(ApiErrorModel::Http { status: answer.status, body: answer.body }))
        },
    }
}

/// Takes a notice to stay away for what it is: an `Http` error whose body
/// spells a record of the identity endpoint with code 3000 becomes that
/// record. Any other result is handed back as it came.
pub fn rate_limit_notice(result: Result<Token, ApiError>) -> (r: Result<Token, ApiError>)
    ensures
        result_model(r) == noticed(result_model(result)),
{
    match result {
        Err(ApiError::Http { status, body }) => {
            match Token::decode(body.as_str()) {
                Some(answer) => {
                    if answer.rate_limited() {
                        Ok(answer)
                    } else {
                        Err(ApiError::Http { status, body })
                    }
                },
                None => Err(ApiError::Http { status, body }),
            }
        },
        other => other,
    }
}

/// Judges what a transfer of the identity call gave: the record of a
/// successful answer, a notice to stay away whatever its status, or the
/// error that the transfer, the status or the decoding led to.
pub fn judge_identity(
    outcome: Result<HttpResponse, TransportError>,
) -> (r: Result<Token, ApiError>)
    ensures
        result_model(r) == identity_judged(outcome_model(outcome)),
{
    match check_status(outcome) {
        Ok(answer) => {
            let record = Token::decode(answer.body.as_str());
            check_decoded(answer.body, record)
        },
        Err(e) => rate_limit_notice(Err(e)),
    }
}

/// Hands the token manager what the identity call came to. A record of the
/// identity endpoint is taken in, and tells the outcome; so is a notice to
/// stay away that comes as an `Http` error. Any other error makes an
/// authenticating manager unauthenticated again and is passed on.
pub fn token_answered(
    tokens: &mut TokenManager,
    result: Result<Token, ApiError>,
) -> (r: Result<AuthOutcome, AuthError>)
    ensures
        match noticed(result_model(result)) {
            Ok(answer) => match old(tokens)@.complete(answer) {
                Ok(next) => r == Ok::<AuthOutcome, AuthError>(ManagerModel::outcome(answer))
                    && final(tokens)@ == next,
                Err(e) => r matches Err(x) && x@ == AuthErrorModel::Refused(e) && final(tokens)@
                    == old(tokens)@,
            },
            Err(e) => r matches Err(x) && x@ == AuthErrorModel::Failed(e) && final(tokens)@
                == old(tokens)@.fail(),
        },
{
    match rate_limit_notice(result) {
        Ok(answer) => match tokens.complete_authenticate(answer) {
            Ok(outcome) => Ok(outcome),
            Err(e) => Err(AuthError::Refused(e)),
        },
        Err(e) => {
            tokens.fail_authenticate();
            Err(AuthError::Failed(e))
        },
    }
}

/// `transport` can give this for the identity call for these credentials.
pub open spec fn identity_transferred<Tr>(
    transport: Tr,
    config: ConfigModel,
    credentials: CredentialsModel,
    outcome: Result<ResponseModel, TransportError>,
) -> bool where Tr: Fn(&CallRequest) -> Result<HttpResponse, TransportError> {
    exists|call: &CallRequest, given: Result<HttpResponse, TransportError>|
        call@ == identity_call(config, credentials) && #[trigger] transport.ensures(
            (call,),
            given,
        ) && outcome_model(given) == outcome
}

/// One attempt of the identity call for these credentials can come to this,
/// given what `transport` can do.
pub open spec fn identity_gives<Tr>(
    transport: Tr,
    config: ConfigModel,
    credentials: CredentialsModel,
    r: Result<TokenModel, ApiErrorModel>,
) -> bool where Tr: Fn(&CallRequest) -> Result<HttpResponse, TransportError> {
    exists|outcome: Result<ResponseModel, TransportError>|
        #[trigger] identity_transferred(transport, config, credentials, outcome)
            && identity_judged(outcome) == r
}

/// `transport` can answer the identity call for these credentials so that
/// the attempt gives this record.
pub open spec fn identity_answered<Tr>(
    transport: Tr,
    config: ConfigModel,
    credentials: CredentialsModel,
    answer: TokenModel,
) -> bool where Tr: Fn(&CallRequest) -> Result<HttpResponse, TransportError> {
    identity_gives(transport, config, credentials, Ok(answer))
}

/// The identity call for these credentials can fail with this error, given
/// what `transport` can do.
pub open spec fn identity_failed<Tr>(
    transport: Tr,
    config: ConfigModel,
    credentials: CredentialsModel,
    error: ApiErrorModel,
) -> bool where Tr: Fn(&CallRequest) -> Result<HttpResponse, TransportError> {
    identity_gives(transport, config, credentials, Err(error))
}

/// The identity call for these credentials can fail with an error of this
/// class, given what `transport` can do.
pub open spec fn identity_can_fail_as<Tr>(
    transport: Tr,
    config: ConfigModel,
    credentials: CredentialsModel,
    class: ErrorClass,
) -> bool where Tr: Fn(&CallRequest) -> Result<HttpResponse, TransportError> {
    exists|error: ApiErrorModel|
        #[trigger] identity_failed(transport, config, credentials, error) && class_of(error)
            == class
}

/// Makes one attempt of the identity call: hands it to `transport` and
/// judges what comes back.
pub fn attempt_identity<Tr>(
    transport: &Tr,
    call: &CallRequest,
) -> (r: Result<Token, ApiError>) where
    Tr: Fn(&CallRequest) -> Result<HttpResponse, TransportError>,

    requires
        transport.requires((call,)),
    ensures
        exists|given: Result<HttpResponse, TransportError>| #[trigger]
            transport.ensures((call,), given) && result_model(r) == identity_judged(
                outcome_model(given),
            ),
{
    let given = transport(call);
    proof {
        assert(transport.ensures((call,), given));
    }
    judge_identity(given)
}

/// A notice to stay away ends the identity call at once, whatever the
/// status it comes with: the attempt gives the record, which is no failure
/// and so is never retried, and the manager that takes it in is
/// rate-limited.
pub proof fn rate_limit_notice_ends_call(m: ManagerModel, answer: ResponseModel)
    requires
        m.state is Authenticating,
        tells_rate_limit(answer.body),
    ensures
        identity_judged(Ok(answer)) == Ok::<TokenModel, ApiErrorModel>(decoded(answer.body)->0),
        m.complete(decoded(answer.body)->0) is Ok,
        m.complete(decoded(answer.body)->0)->Ok_0.state is RateLimited,
{
}

/// What an attempt of the identity call gives is what the identity call can
/// come to.
pub proof fn lemma_identity_attempt<Tr>(
    transport: Tr,
    config: ConfigModel,
    credentials: CredentialsModel,
    call: &CallRequest,
    r: Result<Token, ApiError>,
) where Tr: Fn(&CallRequest) -> Result<HttpResponse, TransportError>
    requires
        call@ == identity_call(config, credentials),
        exists|given: Result<HttpResponse, TransportError>| #[trigger]
            transport.ensures((call,), given) && result_model(r) == identity_judged(
                outcome_model(given),
            ),
    ensures
        identity_gives(transport, config, credentials, result_model(r)),
        noticed(result_model(r)) == result_model(r),
{
    let given = choose|given: Result<HttpResponse, TransportError>| #[trigger]
        transport.ensures((call,), given) && result_model(r) == identity_judged(
            outcome_model(given),
        );
    assert(identity_transferred(transport, config, credentials, outcome_model(given)));
}

/// The mathematical content of a [`SchedulesDirect`] client.
pub struct ClientModel {
    pub config: ConfigModel,
    pub tokens: ManagerModel,
    pub policy: PolicyModel,
}

/// Where the service is.
pub open spec fn domain() -> Seq<char> {
    "https://json.schedulesdirect.org"@
}

/// The version of the interface that is spoken.
pub open spec fn api() -> Seq<char> {
    "20141201"@
}

/// A client of the service.
#[derive(Debug)]
pub struct SchedulesDirect {
    pub config: ClientConfig,
    pub tokens: TokenManager,
    pub policy: RetryPolicy,
}

impl View for SchedulesDirect {
    type V = ClientModel;

    open spec fn view(&self) -> ClientModel {
        ClientModel { config: self.config@, tokens: self.tokens@, policy: self.policy@ }
    }
}

impl SchedulesDirect {
    /// A client of the service at its usual address, with the usual retry
    /// policy and no token.
    pub fn new() -> (client: SchedulesDirect)
        ensures
            client@ == (ClientModel {
                config: ConfigModel::standard(domain(), api()),
                tokens: ManagerModel::initial(),
                policy: PolicyModel::standard(),
            }),
    {
        SchedulesDirect {
            config: ClientConfig::new("https://json.schedulesdirect.org", "20141201"),
            tokens: TokenManager::new(),
            policy: RetryPolicy::default(),
        }
    }

    /// A client with this configuration and retry policy, and no token.
    pub fn with_config(config: ClientConfig, policy: RetryPolicy) -> (client: SchedulesDirect)
        ensures
            client@ == (ClientModel {
                config: config@,
                tokens: ManagerModel::initial(),
                policy: policy@,
            }),
    {
        SchedulesDirect { config, tokens: TokenManager::new(), policy }
    }

    /// Announces an identity call and hands out the call to send: the
    /// credentials, posted to the token endpoint. The client drops the token
    /// it holds. Refused, with nothing changed, while another identity call
    /// is under way and once the service has asked to stay away.
    pub fn token_get(&mut self, credentials: &Credentials) -> (r: Result<CallRequest, TokenError>)
        ensures
            final(self)@.config == old(self)@.config,
            final(self)@.policy == old(self)@.policy,
            match r {
                Ok(call) => old(self)@.tokens.begin() == Ok::<ManagerModel, TokenError>(
                    final(self)@.tokens,
                ) && call@ == identity_call(old(self)@.config, credentials@),
                Err(e) => old(self)@.tokens.begin() == Err::<ManagerModel, TokenError>(e)
                    && final(self)@.tokens == old(self)@.tokens,
            },
    {
        match self.tokens.begin_authenticate() {
            Ok(()) => Ok(build_identity_call(&self.config, credentials)),
            Err(e) => Err(e),
        }
    }

    /// Hands in a token. The client holds it from then on if it is not
    /// empty, and holds none if it is; a client that was asked to stay away
    /// stays as it is.
    pub fn token_set(&mut self, token: &str)
        ensures
            final(self)@ == (ClientModel {
                tokens: old(self)@.tokens.supply(token@),
                ..old(self)@
            }),
    {
        self.tokens.set_token(token);
    }

    /// Obtains a token. The identity call for the credentials is handed to
    /// `transport`, and again after each failure that is worth another try,
    /// as the retry policy allows; `sleep` is called with each wait in
    /// milliseconds. A successful answer that decodes ends the call
    /// whatever its code, and so does a notice to stay away, whatever the
    /// status it comes with; the token manager takes either in. An error
    /// leaves the client unauthenticated. Nothing is sent where the token manager does not
    /// admit an identity call: `transport` need not even be callable then.
    pub fn authenticate<Tr, Sl>(
        &mut self,
        credentials: &Credentials,
        transport: Tr,
        sleep: Sl,
    ) -> (report: RunReport<AuthOutcome, AuthError>) where
        Tr: Fn(&CallRequest) -> Result<HttpResponse, TransportError>,
        Sl: Fn(u64),

        requires
            old(self)@.tokens.begin() is Ok ==> forall|sent: &CallRequest|
                transport.requires((sent,)),
            forall|ms: u64| 1 <= ms <= old(self)@.policy.max_interval ==> sleep.requires((ms,)),
        ensures
            final(self)@.config == old(self)@.config,
            final(self)@.policy == old(self)@.policy,
            match old(self)@.tokens.begin() {
                Err(refusal) => {
                    &&& report.result matches Err(x) && x@ == AuthErrorModel::Refused(refusal)
                    &&& report.retries == 0 && report.waited == 0 && report.failures@.len() == 0
                    &&& final(self)@.tokens == old(self)@.tokens
                },
                Ok(started) => {
                    &&& match report.result {
                        Ok(outcome) => exists|answer: TokenModel|
                            #[trigger] identity_answered(
                                transport,
                                old(self)@.config,
                                credentials@,
                                answer,
                            ) && outcome == ManagerModel::outcome(answer) && started.complete(answer)
                                == Ok::<ManagerModel, TokenError>(final(self)@.tokens),
                        Err(x) => x@ matches AuthErrorModel::Failed(e) && identity_failed(
                            transport,
                            old(self)@.config,
                            credentials@,
                            e,
                        ) && report.failures@.last() == class_of(e) && final(self)@.tokens
                            == ManagerModel::initial(),
                    }
                    &&& old(self)@.policy.records(
                        report.failures@,
                        report.retries as nat,
                        report.result is Ok,
                    )
                    &&& forall|i: int|
                        0 <= i < report.failures@.len() ==> identity_can_fail_as(
                            transport,
                            old(self)@.config,
                            credentials@,
                            #[trigger] report.failures@[i],
                        )
                    &&& forall|k: nat|
                        k < report.retries ==> #[trigger] slept(sleep, old(self)@.policy, k)
                    &&& report.waited == old(self)@.policy.total_wait(report.retries as nat)
                    &&& report.waited <= old(self)@.policy.max_elapsed_time
                },
            },
    {
        let call = match self.token_get(credentials) {
            Ok(call) => call,
            Err(refusal) => {
                return RunReport {
                    result: Err(AuthError::Refused(refusal)),
                    retries: 0,
                    waited: 0,
                    failures: Vec::new(),
                };
            },
        };
        let transport = &transport;
        let call = &call;
        let operation = || -> (r: Result<Token, ApiError>)
            ensures
                exists|given: Result<HttpResponse, TransportError>| #[trigger]
                    transport.ensures((call,), given) && result_model(r) == identity_judged(
                        outcome_model(given),
                    ),
            { attempt_identity(transport, call) };
        let RunReport { result, retries, waited, failures } = run(
            operation,
            self.policy,
            classify,
            sleep,
        );
        proof {
            let config = self@.config;
            assert forall|i: int| 0 <= i < failures@.len() implies identity_can_fail_as(
                *transport,
                config,
                credentials@,
                #[trigger] failures@[i],
            ) by {
                let class = failures@[i];
                assert(can_fail_as(operation, classify, class));
                let error = choose|error: ApiError|
                    operation.ensures((), Err::<Token, ApiError>(error))
                        && #[trigger] classify.ensures((&error,), class);
                lemma_identity_attempt(
                    *transport,
                    config,
                    credentials@,
                    call,
                    Err::<Token, ApiError>(error),
                );
                assert(identity_failed(*transport, config, credentials@, error@));
            }
            lemma_identity_attempt(*transport, config, credentials@, call, result);
        }
        let ghost came = result_model(result);
        let result = token_answered(&mut self.tokens, result);
        proof {
            if came is Ok {
                assert(identity_answered(*transport, self@.config, credentials@, came->Ok_0));
            }
        }
        RunReport { result, retries, waited, failures }
    }

    /// The call that asks how the account and the service are.
    pub fn status(&self) -> (r: Result<CallRequest, ApiError>)
        ensures
            hands_out(
                self@.tokens,
                Method::Get,
                self@.config.api_url("/status"@),
                None,
                r,
            ),
    {
        let url = self.config.api_url("/status");
        build_call(&self.tokens, Method::Get, url, None)
    }

    /// The call that asks which services there are.
    pub fn available(&self) -> (r: Result<CallRequest, ApiError>)
        ensures
            hands_out(
                self@.tokens,
                Method::Get,
                self@.config.api_url("/available"@),
                None,
                r,
            ),
    {
        let url = self.config.api_url("/available");
        build_call(&self.tokens, Method::Get, url, None)
    }

    /// The call that asks for the countries that are served.
    pub fn countries(&self) -> (r: Result<CallRequest, ApiError>)
        ensures
            hands_out(
                self@.tokens,
                Method::Get,
                self@.config.api_url("/available/countries"@),
                None,
                r,
            ),
    {
        let url = self.config.api_url("/available/countries");
        build_call(&self.tokens, Method::Get, url, None)
    }

    /// The call that asks for the languages that are used.
    pub fn languages(&self) -> (r: Result<CallRequest, ApiError>)
        ensures
            hands_out(
                self@.tokens,
                Method::Get,
                self@.config.api_url("/available/languages"@),
                None,
                r,
            ),
    {
        let url = self.config.api_url("/available/languages");
        build_call(&self.tokens, Method::Get, url, None)
    }

    /// The call that asks for the satellites that are covered.
    pub fn dvb_s(&self) -> (r: Result<CallRequest, ApiError>)
        ensures
            hands_out(
                self@.tokens,
                Method::Get,
                self@.config.api_url("/available/dvb-s"@),
                None,
                r,
            ),
    {
        let url = self.config.api_url("/available/dvb-s");
        build_call(&self.tokens, Method::Get, url, None)
    }

    /// The call that asks for the terrestrial transmitters of a country.
    pub fn dvb_t(&self, country_iso_3166_1: &str) -> (r: Result<CallRequest, ApiError>)
        ensures
            hands_out(
                self@.tokens,
                Method::Get,
                self@.config.api_url("/transmitters/"@ + country_iso_3166_1@),
                None,
                r,
            ),
    {
        let mut path = String::from_str("/transmitters/");
        path.append(country_iso_3166_1);
        let url = self.config.api_url(path.as_str());
        build_call(&self.tokens, Method::Get, url, None)
    }

    /// The call that asks for the headends that serve a postal code.
    pub fn headends(&self, country: &str, postalcode: &str) -> (r: Result<CallRequest, ApiError>)
        ensures
            hands_out(
                self@.tokens,
                Method::Get,
                self@.config.api_url("/headends?country="@
                    + country@
                    + "&postalcode="@
                    + postalcode@),
                None,
                r,
            ),
    {
        let mut path = String::from_str("/headends?country=");
        path.append(country);
        path.append("&postalcode=");
        path.append(postalcode);
        let url = self.config.api_url(path.as_str());
        build_call(&self.tokens, Method::Get, url, None)
    }

    /// The call that asks for the checksums of the schedules of the stations
    /// named in `station_ids`, a JSON text.
    pub fn schedules_md5(&self, station_ids: &str) -> (r: Result<CallRequest, ApiError>)
        ensures
            hands_out(
                self@.tokens,
                Method::Post,
                self@.config.api_url("/schedules/md5"@),
                Some(station_ids@),
                r,
            ),
    {
        let url = self.config.api_url("/schedules/md5");
        build_call(&self.tokens, Method::Post, url, Some(station_ids))
    }

    /// The call that asks for the schedules of the stations named in
    /// `station_ids`, a JSON text.
    pub fn schedules(&self, station_ids: &str) -> (r: Result<CallRequest, ApiError>)
        ensures
            hands_out(
                self@.tokens,
                Method::Post,
                self@.config.api_url("/schedules"@),
                Some(station_ids@),
                r,
            ),
    {
        let url = self.config.api_url("/schedules");
        build_call(&self.tokens, Method::Post, url, Some(station_ids))
    }

    /// The call that asks for the programs named in `programs`, a JSON text.
    pub fn programs(&self, programs: &str) -> (r: Result<CallRequest, ApiError>)
        ensures
            hands_out(
                self@.tokens,
                Method::Post,
                self@.config.api_url("/programs"@),
                Some(programs@),
                r,
            ),
    {
        let url = self.config.api_url("/programs");
        build_call(&self.tokens, Method::Post, url, Some(programs))
    }

    /// The call that asks for the generic descriptions of the programs named
    /// in `programs`, a JSON text.
    pub fn programs_generic(&self, programs: &str) -> (r: Result<CallRequest, ApiError>)
        ensures
            hands_out(
                self@.tokens,
                Method::Post,
                self@.config.api_url("/programs/generic"@),
                Some(programs@),
                r,
            ),
    {
        let url = self.config.api_url("/programs/generic");
        build_call(&self.tokens, Method::Post, url, Some(programs))
    }

    /// The call that asks for the images of the programs named in `programs`,
    /// a JSON text.
    pub fn metadata_programs(&self, programs: &str) -> (r: Result<CallRequest, ApiError>)
        ensures
            hands_out(
                self@.tokens,
                Method::Post,
                self@.config.api_url("/metadata/programs"@),
                Some(programs@),
                r,
            ),
    {
        let url = self.config.api_url("/metadata/programs");
        build_call(&self.tokens, Method::Post, url, Some(programs))
    }

    /// The call that asks for the awards of the programs named in `programs`,
    /// a JSON text.
    pub fn metadata_awards(&self, programs: &str) -> (r: Result<CallRequest, ApiError>)
        ensures
            hands_out(
                self@.tokens,
                Method::Post,
                self@.config.api_url("/metadata/awards"@),
                Some(programs@),
                r,
            ),
    {
        let url = self.config.api_url("/metadata/awards");
        build_call(&self.tokens, Method::Post, url, Some(programs))
    }

    /// The call that asks for the cross references of the programs named in
    /// `programs`, a JSON text.
    pub fn xref(&self, programs: &str) -> (r: Result<CallRequest, ApiError>)
        ensures
            hands_out(
                self@.tokens,
                Method::Post,
                self@.config.api_url("/xref"@),
                Some(programs@),
                r,
            ),
    {
        let url = self.config.api_url("/xref");
        build_call(&self.tokens, Method::Post, url, Some(programs))
    }

    /// The call that asks for a preview of a lineup.
    pub fn lineups_preview(&self, lineup: &str) -> (r: Result<CallRequest, ApiError>)
        ensures
            hands_out(
                self@.tokens,
                Method::Get,
                self@.config.api_url("/lineups/preview/"@ + lineup@),
                None,
                r,
            ),
    {
        let mut path = String::from_str("/lineups/preview/");
        path.append(lineup);
        let url = self.config.api_url(path.as_str());
        build_call(&self.tokens, Method::Get, url, None)
    }

    /// The call that adds a lineup to the account. Its address is the domain,
    /// the lineup as the service names it, a slash, the interface version,
    /// and `/lineups`.
    pub fn lineup_add(&self, lineup: &str) -> (r: Result<CallRequest, ApiError>)
        ensures
            hands_out(
                self@.tokens,
                Method::Put,
                self@.config.domain + lineup@ + "/"@ + self@.config.api + "/lineups"@,
                None,
                r,
            ),
    {
        let mut url = self.config.service_url(lineup);
        url.append("/");
        url.append(self.config.api.as_str());
        url.append("/lineups");
        build_call(&self.tokens, Method::Put, url, None)
    }

    /// The call that removes a lineup from the account. `lineup` is the path
    /// under which the service names it.
    pub fn lineup_delete(&self, lineup: &str) -> (r: Result<CallRequest, ApiError>)
        ensures
            hands_out(
                self@.tokens,
                Method::Delete,
                self@.config.service_url(lineup@),
                None,
                r,
            ),
    {
        let url = self.config.service_url(lineup);
        build_call(&self.tokens, Method::Delete, url, None)
    }

    /// The call that asks for the stations and channels of a lineup. `uri` is
    /// the path under which the service names it.
    pub fn lineup_map(&self, uri: &str) -> (r: Result<CallRequest, ApiError>)
        ensures
            hands_out(
                self@.tokens,
                Method::Get,
                self@.config.service_url(uri@),
                None,
                r,
            ),
    {
        let url = self.config.service_url(uri);
        build_call(&self.tokens, Method::Get, url, None)
    }
}

} // verus!
