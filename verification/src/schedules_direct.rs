//! The client for the later version of the service's interface, with the
//! parts of its answers that are plain records.

use crate::client::{
    build_call, build_identity_call, hands_out, identity_call, noticed, rate_limit_notice,
    result_model, AuthError, AuthErrorModel, ClientModel,
};
use crate::config::{ClientConfig, ConfigModel};
use crate::credentials::Credentials;
use crate::executor::ApiError;
use crate::request::{CallRequest, Method};
use crate::retry::{PolicyModel, RetryPolicy};
use crate::text::{clone_option, option_text, strip_quotes, unquoted};
use crate::token::{
    AuthOutcome, ManagerModel, TokenError, TokenManager, TokenModel, CODE_OK,
};
use vstd::prelude::*;

verus! {

/// What the service says of the schedule of one station.
#[derive(Debug)]
pub struct Schedule {
    pub station_id: String,
    pub code: u32,
    pub response: String,
    pub message: Option<String>,
    pub md5: Option<String>,
}

/// A title of a program, as the service gives it among its `titles120`.
#[derive(Debug)]
pub struct Title120 {
    pub title: String,
}

/// A description of a program in one language.
#[derive(Debug)]
pub struct Description {
    pub description_language: String,
    pub description: String,
}

/// The descriptions of a program: short ones, if there are any, and long
/// ones.
#[derive(Debug)]
pub struct Descriptions {
    pub description100: Option<Vec<Description>>,
    pub description1000: Vec<Description>,
}

/// Where an episode stands in its series.
#[derive(Clone, Copy, Debug, PartialEq, Eq, Structural)]
pub struct Gracenote {
    pub total_episodes: u32,
    pub season: u32,
    pub episode: u32,
}

/// The mathematical content of a [`Token`]: the answer of the identity
/// endpoint, and the mark that tells whether it grants a token.
pub struct AcceptedModel {
    pub valid: Option<bool>,
    pub answer: TokenModel,
}

/// The answer of the identity endpoint, with a mark that tells whether it
/// grants a token: none before any answer, `Some(true)` for an answer with
/// code 0 and a token that is not empty, `Some(false)` for any other.
#[derive(Debug)]
pub struct Token {
    pub valid: Option<bool>,
    response: Option<String>,
    code: i32,
    message: String,
    server_id: String,
    datetime: String,
    token: String,
}

impl View for Token {
    type V = AcceptedModel;

    closed spec fn view(&self) -> AcceptedModel {
        AcceptedModel {
            valid: self.valid,
            answer: TokenModel {
                response: option_text(self.response),
                code: self.code as int,
                message: self.message@,
                server_id: self.server_id@,
                datetime: self.datetime@,
                token: self.token@,
            },
        }
    }
}

/// The answer as it is kept: its token without double quotes, everything
/// else as it came.
pub open spec fn cleaned(answer: TokenModel) -> TokenModel {
    TokenModel { token: unquoted(answer.token), ..answer }
}

/// The record that accepting an answer gives: the answer as it is kept,
/// marked as valid exactly where it grants a token.
pub open spec fn accepted(answer: TokenModel) -> AcceptedModel {
    AcceptedModel { valid: Some(cleaned(answer).grants()), answer: cleaned(answer) }
}

/// An accepted record is marked as valid exactly where the manager that
/// takes it in comes to hold its token: never for an answer that asks to
/// stay away, and never for one that is refused.
pub proof fn valid_mark_agrees_with_manager(m: ManagerModel, answer: TokenModel)
    requires
        m.state is Authenticating,
    ensures
        m.complete(cleaned(answer)) is Ok,
        accepted(answer).valid == Some(true) <==> m.complete(cleaned(answer))->Ok_0.state is Valid,
        accepted(answer).valid == Some(true) <==> ManagerModel::outcome(cleaned(answer))
            == AuthOutcome::Authenticated,
        answer.rate_limited() ==> accepted(answer).valid == Some(false),
{
}

impl Token {
    /// The record that a client holds before it has a token: no mark, code
    /// 0 and empty texts.
    pub fn empty() -> (t: Token)
        ensures
            t@ == (AcceptedModel { valid: None, answer: TokenModel::empty() }),
    {
        Token {
            valid: None,
            response: None,
            code: 0,
            message: String::new(),
            server_id: String::new(),
            datetime: String::new(),
            token: String::new(),
        }
    }

    /// Accepts an answer of the identity endpoint: the double quotes are
    /// taken out of its token, and it is marked as valid where it then
    /// grants a token, with code 0 and a token that is not empty, and as
    /// not valid otherwise.
    pub fn accept(answer: &crate::token::Token) -> (t: Token)
        ensures
            t@ == accepted(answer@),
    {
        let token = strip_quotes(answer.token.as_str());
        let grants = answer.code == CODE_OK && !token.as_str().is_empty();
        Token {
            valid: Some(grants),
            response: clone_option(&answer.response),
            code: answer.code,
            message: answer.message.clone(),
            server_id: answer.server_id.clone(),
            datetime: answer.datetime.clone(),
            token,
        }
    }

    /// Whether the record is marked as a valid token.
    pub fn is_valid(&self) -> (r: bool)
        ensures
            r == (self@.valid == Some(true)),
    {
        match self.valid {
            Some(valid) => valid,
            None => false,
        }
    }

    /// The answer as the token manager takes it in.
    pub fn answer(&self) -> (t: crate::token::Token)
        ensures
            t@ == self@.answer,
    {
        crate::token::Token {
            response: clone_option(&self.response),
            code: self.code,
            message: self.message.clone(),
            server_id: self.server_id.clone(),
            datetime: self.datetime.clone(),
            token: self.token.clone(),
        }
    }

    /// The code of the answer.
    pub fn code(&self) -> (code: i32)
        ensures
            code == self@.answer.code,
    {
        self.code
    }

    /// The message of the answer.
    pub fn message(&self) -> (message: &str)
        ensures
            message@ == self@.answer.message,
    {
        self.message.as_str()
    }

    /// The token of the answer.
    pub fn token(&self) -> (token: &str)
        ensures
            token@ == self@.answer.token,
    {
        self.token.as_str()
    }
}

/// Where the service is.
pub open spec fn domain() -> Seq<char> {
    "https://w8xmzqba6c.execute-api.us-east-1.amazonaws.com"@
}

/// The version of the interface that is spoken.
pub open spec fn api() -> Seq<char> {
    "20191022"@
}

/// A client of the service.
#[derive(Debug)]
pub struct SchedulesDirect {
    pub config: ClientConfig,
    pub tokens: TokenManager,
    pub policy: RetryPolicy,
}

impl View for SchedulesDirect {
    type V = ClientModel;

    open spec fn view(&self) -> ClientModel {
        ClientModel { config: self.config@, tokens: self.tokens@, policy: self.policy@ }
    }
}

impl SchedulesDirect {
    /// A client of the service at its usual address, with the usual retry
    /// policy and no token.
    pub fn new() -> (client: SchedulesDirect)
        ensures
            client@ == (ClientModel {
                config: ConfigModel::standard(domain(), api()),
                tokens: ManagerModel::initial(),
                policy: PolicyModel::standard(),
            }),
    {
        SchedulesDirect {
            config: ClientConfig::new(
                "https://w8xmzqba6c.execute-api.us-east-1.amazonaws.com",
                "20191022",
            ),
            tokens: TokenManager::new(),
            policy: RetryPolicy::default(),
        }
    }

    /// Announces an identity call and hands out the call to send: the
    /// credentials, posted to the token endpoint. The client drops the token
    /// it holds. Refused, with nothing changed, while another identity call
    /// is under way and once the service has asked to stay away.
    pub fn token(&mut self, credentials: &Credentials) -> (r: Result<CallRequest, TokenError>)
        ensures
            final(self)@.config == old(self)@.config,
            final(self)@.policy == old(self)@.policy,
            match r {
                Ok(call) => old(self)@.tokens.begin() == Ok::<ManagerModel, TokenError>(
                    final(self)@.tokens,
                ) && call@ == identity_call(old(self)@.config, credentials@),
                Err(e) => old(self)@.tokens.begin() == Err::<ManagerModel, TokenError>(e)
                    && final(self)@.tokens == old(self)@.tokens,
            },
    {
        match self.tokens.begin_authenticate() {
            Ok(()) => Ok(build_identity_call(&self.config, credentials)),
            Err(e) => Err(e),
        }
    }

    /// Takes what the identity call came to. A record of the identity
    /// endpoint is accepted, with the double quotes taken out of its token,
    /// and handed to the token manager, which then holds the token if the
    /// record grants one; so is a notice to stay away that comes as an
    /// `Http` error. The accepted record is marked as valid exactly where
    /// the outcome is `Authenticated`. Any other error makes an
    /// authenticating manager unauthenticated again and is passed on.
    pub fn token_answered(
        &mut self,
        result: Result<crate::token::Token, ApiError>,
    ) -> (r: Result<(Token, AuthOutcome), AuthError>)
        ensures
            final(self)@.config == old(self)@.config,
            final(self)@.policy == old(self)@.policy,
            match noticed(result_model(result)) {
                Ok(answer) => match old(self)@.tokens.complete(cleaned(answer)) {
                    Ok(next) => r matches Ok(taken) && taken.0@ == accepted(answer) && taken.1
                        == ManagerModel::outcome(cleaned(answer)) && final(self)@.tokens == next,
                    Err(e) => r matches Err(x) && x@ == AuthErrorModel::Refused(e)
                        && final(self)@.tokens == old(self)@.tokens,
                },
                Err(e) => r matches Err(x) && x@ == AuthErrorModel::Failed(e)
                    && final(self)@.tokens == old(self)@.tokens.fail(),
            },
            r matches Ok(taken) ==> (taken.0@.valid == Some(true) <==> taken.1
                == AuthOutcome::Authenticated),
            r matches Ok(taken) ==> (taken.0@.valid == Some(true) <==> final(self)@.tokens.state
                is Valid),
    {
        match rate_limit_notice(result) {
            Ok(answer) => {
                let taken = Token::accept(&answer);
                match self.tokens.complete_authenticate(taken.answer()) {
                    Ok(outcome) => Ok((taken, outcome)),
                    Err(e) => Err(AuthError::Refused(e)),
                }
            },
            Err(e) => {
                self.tokens.fail_authenticate();
                Err(AuthError::Failed(e))
            },
        }
    }

    /// The call that asks how the account and the service are.
    pub fn status(&self) -> (r: Result<CallRequest, ApiError>)
        ensures
            hands_out(
                self@.tokens,
                Method::Get,
                self@.config.api_url("/status"@),
                None,
                r,
            ),
    {
        let url = self.config.api_url("/status");
        build_call(&self.tokens, Method::Get, url, None)
    }

    /// The call that asks which services there are.
    pub fn available(&self) -> (r: Result<CallRequest, ApiError>)
        ensures
            hands_out(
                self@.tokens,
                Method::Get,
                self@.config.api_url("/available"@),
                None,
                r,
            ),
    {
        let url = self.config.api_url("/available");
        build_call(&self.tokens, Method::Get, url, None)
    }

    /// The call that asks for what one of the services lists. `service` is
    /// the path under which the service names it.
    pub fn service_map(&self, service: &str) -> (r: Result<CallRequest, ApiError>)
        ensures
            hands_out(
                self@.tokens,
                Method::Get,
                self@.config.service_url(service@),
                None,
                r,
            ),
    {
        let url = self.config.service_url(service);
        build_call(&self.tokens, Method::Get, url, None)
    }

    /// The call that asks for the countries that are served.
    pub fn countries(&self) -> (r: Result<CallRequest, ApiError>)
        ensures
            hands_out(
                self@.tokens,
                Method::Get,
                self@.config.api_url("/available/countries"@),
                None,
                r,
            ),
    {
        let url = self.config.api_url("/available/countries");
        build_call(&self.tokens, Method::Get, url, None)
    }

    /// The call that asks for the languages that are used.
    pub fn languages(&self) -> (r: Result<CallRequest, ApiError>)
        ensures
            hands_out(
                self@.tokens,
                Method::Get,
                self@.config.api_url("/available/languages"@),
                None,
                r,
            ),
    {
        let url = self.config.api_url("/available/languages");
        build_call(&self.tokens, Method::Get, url, None)
    }

    /// The call that asks for the terrestrial transmitters of a country.
    pub fn transmitter(&self, country_iso_3166_1: &str) -> (r: Result<CallRequest, ApiError>)
        ensures
            hands_out(
                self@.tokens,
                Method::Get,
                self@.config.api_url("/available/transmitters/"@ + country_iso_3166_1@),
                None,
                r,
            ),
    {
        let mut path = String::from_str("/available/transmitters/");
        path.append(country_iso_3166_1);
        let url = self.config.api_url(path.as_str());
        build_call(&self.tokens, Method::Get, url, None)
    }

    /// The call that asks for the lineups that serve a postal code.
    pub fn lineups(&self, country: &str, postalcode: &str) -> (r: Result<CallRequest, ApiError>)
        ensures
            hands_out(
                self@.tokens,
                Method::Get,
                self@.config.api_url("/lineups?country="@
                    + country@
                    + "&postalcode="@
                    + postalcode@),
                None,
                r,
            ),
    {
        let mut path = String::from_str("/lineups?country=");
        path.append(country);
        path.append("&postalcode=");
        path.append(postalcode);
        let url = self.config.api_url(path.as_str());
        build_call(&self.tokens, Method::Get, url, None)
    }

    /// The call that asks for the checksums of the schedules of the stations
    /// named in `station_ids`, a JSON text. An answer with status 502 is an
    /// error like any other server error, and worth another try.
    pub fn schedules_md5(&self, station_ids: &str) -> (r: Result<CallRequest, ApiError>)
        ensures
            hands_out(
                self@.tokens,
                Method::Post,
                self@.config.api_url("/schedules/md5"@),
                Some(station_ids@),
                r,
            ),
    {
        let url = self.config.api_url("/schedules/md5");
        build_call(&self.tokens, Method::Post, url, Some(station_ids))
    }

    /// The call that asks for the schedules of the stations named in
    /// `station_ids`, a JSON text.
    pub fn schedules(&self, station_ids: &str) -> (r: Result<CallRequest, ApiError>)
        ensures
            hands_out(
                self@.tokens,
                Method::Post,
                self@.config.api_url("/schedules"@),
                Some(station_ids@),
                r,
            ),
    {
        let url = self.config.api_url("/schedules");
        build_call(&self.tokens, Method::Post, url, Some(station_ids))
    }

    /// The call that asks for a preview of a lineup.
    pub fn lineups_preview(&self, lineup_id: &str) -> (r: Result<CallRequest, ApiError>)
        ensures
            hands_out(
                self@.tokens,
                Method::Get,
                self@.config.api_url("/lineups/preview/"@ + lineup_id@),
                None,
                r,
            ),
    {
        let mut path = String::from_str("/lineups/preview/");
        path.append(lineup_id);
        let url = self.config.api_url(path.as_str());
        build_call(&self.tokens, Method::Get, url, None)
    }

    /// The call that asks for the programs named in `programs`, a JSON text.
    pub fn programs(&self, programs: &str) -> (r: Result<CallRequest, ApiError>)
        ensures
            hands_out(
                self@.tokens,
                Method::Post,
                self@.config.api_url("/programs"@),
                Some(programs@),
                r,
            ),
    {
        let url = self.config.api_url("/programs");
        build_call(&self.tokens, Method::Post, url, Some(programs))
    }

    /// The call that asks for the generic descriptions of the programs named
    /// in `programs`, a JSON text.
    pub fn programs_generic(&self, programs: &str) -> (r: Result<CallRequest, ApiError>)
        ensures
            hands_out(
                self@.tokens,
                Method::Post,
                self@.config.api_url("/programs/generic"@),
                Some(programs@),
                r,
            ),
    {
        let url = self.config.api_url("/programs/generic");
        build_call(&self.tokens, Method::Post, url, Some(programs))
    }

    /// The call that asks for the images of the programs named in `programs`,
    /// a JSON text.
    pub fn metadata_programs(&self, programs: &str) -> (r: Result<CallRequest, ApiError>)
        ensures
            hands_out(
                self@.tokens,
                Method::Post,
                self@.config.api_url("/metadata/programs"@),
                Some(programs@),
                r,
            ),
    {
        let url = self.config.api_url("/metadata/programs");
        build_call(&self.tokens, Method::Post, url, Some(programs))
    }

    /// The call that asks for the awards of the programs named in `programs`,
    /// a JSON text.
    pub fn metadata_awards(&self, programs: &str) -> (r: Result<CallRequest, ApiError>)
        ensures
            hands_out(
                self@.tokens,
                Method::Post,
                self@.config.api_url("/metadata/awards"@),
                Some(programs@),
                r,
            ),
    {
        let url = self.config.api_url("/metadata/awards");
        build_call(&self.tokens, Method::Post, url, Some(programs))
    }

    /// The call that adds a lineup to the account. `lineup` is the path under
    /// which the service names it.
    pub fn lineup_add(&self, lineup: &str) -> (r: Result<CallRequest, ApiError>)
        ensures
            hands_out(
                self@.tokens,
                Method::Put,
                self@.config.service_url(lineup@),
                None,
                r,
            ),
    {
        let url = self.config.service_url(lineup);
        build_call(&self.tokens, Method::Put, url, None)
    }

    /// The call that removes a lineup from the account. `lineup` is the path
    /// under which the service names it.
    pub fn lineup_delete(&self, lineup: &str) -> (r: Result<CallRequest, ApiError>)
        ensures
            hands_out(
                self@.tokens,
                Method::Delete,
                self@.config.service_url(lineup@),
                None,
                r,
            ),
    {
        let url = self.config.service_url(lineup);
        build_call(&self.tokens, Method::Delete, url, None)
    }

    /// The call that asks for the stations and channels of a lineup. `uri` is
    /// the path under which the service names it.
    pub fn lineup_map(&self, uri: &str) -> (r: Result<CallRequest, ApiError>)
        ensures
            hands_out(
                self@.tokens,
                Method::Get,
                self@.config.service_url(uri@),
                None,
                r,
            ),
    {
        let url = self.config.service_url(uri);
        build_call(&self.tokens, Method::Get, url, None)
    }
}

} // verus!
