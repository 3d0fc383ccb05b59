//! The session token and its lifecycle.
//!
//! A token is obtained by one identity call and attached to every call after
//! it. The manager starts unauthenticated, is authenticating while the
//! identity call is under way, and holds a valid token once the service has
//! answered with code 0. When the service reports the token as invalid the
//! manager falls back to unauthenticated. Code 3000 tells that the account
//! is locked out for a while: the manager then stays rate-limited for good.

use crate::json::{integer_member, json_integer_member, json_text_member, text_member};
use crate::text::{clone_option, option_text};
use vstd::prelude::*;

verus! {

/// The code of an identity response that grants a token.
pub const CODE_OK: i32 = 0;

/// The code of an identity response that asks to stay away for a while.
pub const CODE_RATE_LIMITED: i32 = 3000;

/// The mathematical content of a [`Token`].
pub struct TokenModel {
    pub response: Option<Seq<char>>,
    pub code: int,
    pub message: Seq<char>,
    pub server_id: Seq<char>,
    pub datetime: Seq<char>,
    pub token: Seq<char>,
}

impl TokenModel {
    /// The record that stands for "no token": code 0 and empty texts.
    pub open spec fn empty() -> TokenModel {
        TokenModel {
            response: None,
            code: 0,
            message: Seq::empty(),
            server_id: Seq::empty(),
            datetime: Seq::empty(),
            token: Seq::empty(),
        }
    }

    /// The response grants a token: its code is 0 and its token is not empty.
    pub open spec fn grants(self) -> bool {
        self.code == CODE_OK && self.token.len() > 0
    }

    /// The response tells that the account is locked out for a while.
    pub open spec fn rate_limited(self) -> bool {
        self.code == CODE_RATE_LIMITED
    }
}

/// The record that the body of an answer of the identity endpoint spells.
/// The body has to hold an integer `code` that fits in 32 bits and the
/// strings `message`, `serverID`, `datetime` and `token`; the string
/// `response` may be missing.
pub open spec fn decoded(body: Seq<char>) -> Option<TokenModel> {
    let code = json_integer_member(body, "code"@);
    let message = json_text_member(body, "message"@);
    let server_id = json_text_member(body, "serverID"@);
    let datetime = json_text_member(body, "datetime"@);
    let token = json_text_member(body, "token"@);
    if code is Some && i32::MIN <= code->0 <= i32::MAX && message is Some && server_id is Some
        && datetime is Some && token is Some {
        Some(
            TokenModel {
                response: json_text_member(body, "response"@),
                code: code->0 as int,
                message: message->0,
                server_id: server_id->0,
                datetime: datetime->0,
                token: token->0,
            },
        )
    } else {
        None
    }
}

/// The answer of the identity endpoint.
#[derive(Debug)]
pub struct Token {
    pub response: Option<String>,
    pub code: i32,
    pub message: String,
    pub server_id: String,
    pub datetime: String,
    pub token: String,
}

impl View for Token {
    type V = TokenModel;

    open spec fn view(&self) -> TokenModel {
        TokenModel {
            response: option_text(self.response),
            code: self.code as int,
            message: self.message@,
            server_id: self.server_id@,
            datetime: self.datetime@,
            token: self.token@,
        }
    }
}

impl Token {
    /// The record that stands for "no token".
    pub fn empty() -> (t: Token)
        ensures
            t@ == TokenModel::empty(),
    {
        Token {
            response: None,
            code: CODE_OK,
            message: String::new(),
            server_id: String::new(),
            datetime: String::new(),
            token: String::new(),
        }
    }

    /// The record of a token that was obtained elsewhere: code 0, the token,
    /// and nothing else.
    pub fn of_value(value: &str) -> (t: Token)
        ensures
            t@ == (TokenModel { token: value@, ..TokenModel::empty() }),
    {
        Token {
            response: None,
            code: CODE_OK,
            message: String::new(),
            server_id: String::new(),
            datetime: String::new(),
            token: String::from_str(value),
        }
    }

    /// Reads the record out of the body of an answer of the identity
    /// endpoint. `None` where the body does not spell such a record. The
    /// token is taken as the body's JSON string spells it, with nothing
    /// added and nothing trimmed.
    pub fn decode(body: &str) -> (r: Option<Token>)
        ensures
            match r {
                Some(t) => decoded(body@) == Some(t@),
                None => decoded(body@) is None,
            },
    {
        let code = match integer_member(body, "code") {
            Some(c) => c,
            None => return None,
        };
        if code < i32::MIN as i64 || code > i32::MAX as i64 {
            return None;
        }
        let message = match text_member(body, "message") {
            Some(m) => m,
            None => return None,
        };
        let server_id = match text_member(body, "serverID") {
            Some(s) => s,
            None => return None,
        };
        let datetime = match text_member(body, "datetime") {
            Some(d) => d,
            None => return None,
        };
        let token = match text_member(body, "token") {
            Some(t) => t,
            None => return None,
        };
        Some(
            Token {
                response: text_member(body, "response"),
                code: code as i32,
                message,
                server_id,
                datetime,
                token,
            },
        )
    }

    /// A copy of the record.
    pub fn duplicate(&self) -> (t: Token)
        ensures
            t@ == self@,
    {
        Token {
            response: clone_option(&self.response),
            code: self.code,
            message: self.message.clone(),
            server_id: self.server_id.clone(),
            datetime: self.datetime.clone(),
            token: self.token.clone(),
        }
    }

    /// Whether the response grants a token.
    pub fn grants(&self) -> (r: bool)
        ensures
            r == self@.grants(),
    {
        self.code == CODE_OK && !self.token.as_str().is_empty()
    }

    /// Whether the response tells that the account is locked out for a while.
    pub fn rate_limited(&self) -> (r: bool)
        ensures
            r == self@.rate_limited(),
    {
        self.code == CODE_RATE_LIMITED
    }
}

/// Where the manager stands.
#[derive(Clone, Copy, Debug, PartialEq, Eq, Structural)]
pub enum TokenState {
    /// No token is held and none is being obtained.
    Unauthenticated,
    /// The identity call is under way.
    Authenticating,
    /// A token is held.
    Valid,
    /// The service asked to stay away: no further identity call is made.
    RateLimited,
}

/// Why the manager refuses.
#[derive(Clone, Copy, Debug, PartialEq, Eq, Structural)]
pub enum TokenError {
    /// No valid token is held.
    NotAuthenticated,
    /// The service asked to stay away.
    RateLimited,
    /// An identity call is already under way.
    AuthenticationInProgress,
    /// No identity call is under way.
    NoAuthenticationInProgress,
}

/// How an identity call ended.
#[derive(Clone, Copy, Debug, PartialEq, Eq, Structural)]
pub enum AuthOutcome {
    /// A token was granted and is now held.
    Authenticated,
    /// The service asked to stay away.
    RateLimited,
    /// The service refused, or granted an empty token.
    Rejected,
}

/// What can happen to a manager.
pub enum TokenEvent {
    /// An identity call is about to be made.
    Begin,
    /// The identity endpoint answered.
    Complete(TokenModel),
    /// The identity call failed without an answer.
    Fail,
    /// The service reported the token as invalid.
    Invalidate,
    /// A token obtained elsewhere is handed in.
    Supply(Seq<char>),
}

/// The mathematical content of a [`TokenManager`]: its state and the record
/// it holds.
pub struct ManagerModel {
    pub state: TokenState,
    pub token: TokenModel,
}

impl ManagerModel {
    /// The manager before anything has happened.
    pub open spec fn initial() -> ManagerModel {
        ManagerModel { state: TokenState::Unauthenticated, token: TokenModel::empty() }
    }

    /// What holds of every manager: a valid one holds a granted token.
    pub open spec fn wf(self) -> bool {
        self.state is Valid ==> self.token.grants()
    }

    /// The token to attach to a call, if one is held.
    pub open spec fn current(self) -> Result<Seq<char>, TokenError> {
        if self.state is Valid {
            Ok(self.token.token)
        } else {
            Err(TokenError::NotAuthenticated)
        }
    }

    /// The manager once an identity call is announced, where it may be made.
    pub open spec fn begin(self) -> Result<ManagerModel, TokenError> {
        match self.state {
            TokenState::RateLimited => Err(TokenError::RateLimited),
            TokenState::Authenticating => Err(TokenError::AuthenticationInProgress),
            _ => Ok(ManagerModel { state: TokenState::Authenticating, token: TokenModel::empty() }),
        }
    }

    /// How an identity call with this answer ends.
    pub open spec fn outcome(response: TokenModel) -> AuthOutcome {
        if response.grants() {
            AuthOutcome::Authenticated
        } else if response.rate_limited() {
            AuthOutcome::RateLimited
        } else {
            AuthOutcome::Rejected
        }
    }

    /// The manager once the identity endpoint has answered, where an
    /// identity call was under way: it holds the answer as it came.
    pub open spec fn complete(self, response: TokenModel) -> Result<ManagerModel, TokenError> {
        if self.state is Authenticating {
            Ok(
                ManagerModel {
                    state: match Self::outcome(response) {
                        AuthOutcome::Authenticated => TokenState::Valid,
                        AuthOutcome::RateLimited => TokenState::RateLimited,
                        AuthOutcome::Rejected => TokenState::Unauthenticated,
                    },
                    token: response,
                },
            )
        } else {
            Err(TokenError::NoAuthenticationInProgress)
        }
    }

    /// The manager once the identity call has failed without an answer.
    pub open spec fn fail(self) -> ManagerModel {
        if self.state is Authenticating {
            Self::initial()
        } else {
            self
        }
    }

    /// The manager once the service has reported the token as invalid.
    pub open spec fn invalidate(self) -> ManagerModel {
        if self.state is Valid {
            Self::initial()
        } else {
            self
        }
    }

    /// The manager once a token obtained elsewhere is handed in: it holds
    /// that token if it is not empty, and none if it is. A rate-limited
    /// manager stays as it is.
    pub open spec fn supply(self, value: Seq<char>) -> ManagerModel {
        if self.state is RateLimited {
            self
        } else if value.len() > 0 {
            ManagerModel {
                state: TokenState::Valid,
                token: TokenModel { token: value, ..TokenModel::empty() },
            }
        } else {
            Self::initial()
        }
    }

    /// The manager after one event. An event that is refused leaves it as it
    /// is.
    pub open spec fn step(self, event: TokenEvent) -> ManagerModel {
        match event {
            TokenEvent::Begin => match self.begin() {
                Ok(next) => next,
                Err(_) => self,
            },
            TokenEvent::Complete(response) => match self.complete(response) {
                Ok(next) => next,
                Err(_) => self,
            },
            TokenEvent::Fail => self.fail(),
            TokenEvent::Invalidate => self.invalidate(),
            TokenEvent::Supply(value) => self.supply(value),
        }
    }

    /// The manager after a sequence of events.
    pub open spec fn after(self, events: Seq<TokenEvent>) -> ManagerModel
        decreases events.len(),
    {
        if events.len() == 0 {
            self
        } else {
            self.after(events.drop_last()).step(events.last())
        }
    }
}

/// The event hands the manager a token: an answer that grants one, or a
/// token obtained elsewhere that is not empty.
pub open spec fn hands_token(event: TokenEvent) -> bool {
    match event {
        TokenEvent::Complete(response) => response.grants(),
        TokenEvent::Supply(value) => value.len() > 0,
        _ => false,
    }
}

/// Every event leaves a well-formed manager well-formed.
pub proof fn step_keeps_wf(m: ManagerModel, event: TokenEvent)
    requires
        m.wf(),
    ensures
        m.step(event).wf(),
{
}

/// A manager that has been through a sequence of events is valid only if it
/// was valid before or one of the events handed it a token.
pub proof fn lemma_valid_needs_token(m: ManagerModel, events: Seq<TokenEvent>)
    requires
        forall|i: int| 0 <= i < events.len() ==> !hands_token(#[trigger] events[i]),
        !(m.state is Valid),
    ensures
        !(m.after(events).state is Valid),
    decreases events.len(),
{
    if events.len() > 0 {
        let earlier = events.drop_last();
        assert forall|i: int| 0 <= i < earlier.len() implies !hands_token(
            #[trigger] earlier[i],
        ) by {
            assert(earlier[i] == events[i]);
        }
        lemma_valid_needs_token(m, earlier);
        assert(!hands_token(events.last()));
    }
}

/// Before an identity call has succeeded, and as long as no token is handed
/// in from elsewhere, asking for the current token fails with
/// `NotAuthenticated`, whatever else has happened.
pub proof fn no_token_before_success(events: Seq<TokenEvent>)
    requires
        forall|i: int| 0 <= i < events.len() ==> !hands_token(#[trigger] events[i]),
    ensures
        ManagerModel::initial().after(events).current() == Err::<Seq<char>, TokenError>(
            TokenError::NotAuthenticated,
        ),
{
    lemma_valid_needs_token(ManagerModel::initial(), events);
}

/// After an identity call that was answered with a granted token, the
/// current token is exactly the token of the answer.
pub proof fn granted_token_is_current(m: ManagerModel, response: TokenModel)
    requires
        m.state is Authenticating,
        response.grants(),
    ensures
        m.complete(response) is Ok,
        m.complete(response)->Ok_0.current() == Ok::<Seq<char>, TokenError>(response.token),
{
}

/// An answer with code 3000 makes the manager rate-limited, and a
/// rate-limited manager stays exactly as it is through every event: it
/// admits no further identity call and never holds a token.
pub proof fn rate_limit_is_terminal(m: ManagerModel, response: TokenModel, events: Seq<TokenEvent>)
    requires
        m.state is Authenticating,
        response.code == CODE_RATE_LIMITED,
    ensures
        m.complete(response) is Ok,
        m.complete(response)->Ok_0.state is RateLimited,
        m.complete(response)->Ok_0.after(events) == m.complete(response)->Ok_0,
        m.complete(response)->Ok_0.begin() == Err::<ManagerModel, TokenError>(
            TokenError::RateLimited,
        ),
        m.complete(response)->Ok_0.current() is Err,
{
    lemma_rate_limited_stays(m.complete(response)->Ok_0, events);
}

/// A rate-limited manager is the same after any sequence of events.
pub proof fn lemma_rate_limited_stays(m: ManagerModel, events: Seq<TokenEvent>)
    requires
        m.state is RateLimited,
    ensures
        m.after(events) == m,
    decreases events.len(),
{
    if events.len() > 0 {
        lemma_rate_limited_stays(m, events.drop_last());
    }
}

/// While an identity call is under way no other is admitted: a second
/// announcement is refused until the first call has come to an end.
pub proof fn one_identity_call_at_a_time(m: ManagerModel)
    requires
        m.begin() is Ok,
    ensures
        m.begin()->Ok_0.state is Authenticating,
        m.begin()->Ok_0.begin() == Err::<ManagerModel, TokenError>(
            TokenError::AuthenticationInProgress,
        ),
        m.begin()->Ok_0.fail().begin() is Ok,
{
}

/// A report that the token is invalid takes a valid manager to
/// unauthenticated, where no token is to be had, and a second such report
/// changes nothing.
pub proof fn invalidation_happens_once(m: ManagerModel)
    ensures
        m.state is Valid ==> m.invalidate().state is Unauthenticated,
        m.state is Valid ==> m.invalidate().current() is Err,
        m.invalidate().invalidate() == m.invalidate(),
{
}

/// The owner of the session token.
#[derive(Debug)]
pub struct TokenManager {
    state: TokenState,
    token: Token,
}

impl View for TokenManager {
    type V = ManagerModel;

    closed spec fn view(&self) -> ManagerModel {
        ManagerModel { state: self.state, token: self.token@ }
    }
}

impl TokenManager {
    #[verifier::type_invariant]
    closed spec fn well_formed(self) -> bool {
        self@.wf()
    }

    /// A manager that holds no token.
    pub fn new() -> (m: TokenManager)
        ensures
            m@ == ManagerModel::initial(),
    {
        TokenManager { state: TokenState::Unauthenticated, token: Token::empty() }
    }

    /// Where the manager stands.
    pub fn state(&self) -> (state: TokenState)
        ensures
            state == self@.state,
            self@.wf(),
    {
        proof {
            use_type_invariant(self);
        }
        self.state
    }

    /// The record that the manager holds: the last answer of the identity
    /// endpoint, or the empty record where none is kept.
    pub fn last_response(&self) -> (token: &Token)
        ensures
            token@ == self@.token,
    {
        &self.token
    }

    /// The token to attach to a call. It is there exactly when the manager
    /// is valid; otherwise the answer is `NotAuthenticated`.
    pub fn current_token(&self) -> (r: Result<&str, TokenError>)
        ensures
            match r {
                Ok(value) => self@.current() == Ok::<Seq<char>, TokenError>(value@) && value@.len()
                    > 0,
                Err(e) => self@.current() == Err::<Seq<char>, TokenError>(e),
            },
    {
        proof {
            use_type_invariant(self);
        }
        match self.state {
            TokenState::Valid => Ok(self.token.token.as_str()),
            _ => Err(TokenError::NotAuthenticated),
        }
    }

    /// Announces an identity call. The manager drops what it holds and is
    /// authenticating from then on. The call is refused, and nothing
    /// changes, while another identity call is under way and once the
    /// service has asked to stay away.
    pub fn begin_authenticate(&mut self) -> (r: Result<(), TokenError>)
        ensures
            match r {
                Ok(()) => old(self)@.begin() == Ok::<ManagerModel, TokenError>(final(self)@),
                Err(e) => old(self)@.begin() == Err::<ManagerModel, TokenError>(e) && final(self)@
                    == old(self)@,
            },
    {
        match self.state {
            TokenState::RateLimited => Err(TokenError::RateLimited),
            TokenState::Authenticating => Err(TokenError::AuthenticationInProgress),
            _ => {
                *self = TokenManager { state: TokenState::Authenticating, token: Token::empty() };
                Ok(())
            },
        }
    }

    /// Takes the answer of the identity endpoint. The manager keeps the
    /// answer as it came. With code 0 and a token that is not empty it is
    /// valid from then on; with code 3000 it is rate-limited for good; with
    /// any other answer it is unauthenticated again. Refused, with nothing
    /// changed, where no identity call was under way.
    pub fn complete_authenticate(&mut self, response: Token) -> (r: Result<AuthOutcome, TokenError>)
        ensures
            match r {
                Ok(outcome) => old(self)@.complete(response@) == Ok::<ManagerModel, TokenError>(
                    final(self)@,
                ) && outcome == ManagerModel::outcome(response@),
                Err(e) => old(self)@.complete(response@) == Err::<ManagerModel, TokenError>(e)
                    && final(self)@ == old(self)@,
            },
    {
        match self.state {
            TokenState::Authenticating => {
                if response.grants() {
                    *self = TokenManager { state: TokenState::Valid, token: response };
                    Ok(AuthOutcome::Authenticated)
                } else if response.rate_limited() {
                    *self = TokenManager { state: TokenState::RateLimited, token: response };
                    Ok(AuthOutcome::RateLimited)
                } else {
                    *self = TokenManager { state: TokenState::Unauthenticated, token: response };
                    Ok(AuthOutcome::Rejected)
                }
            },
            _ => Err(TokenError::NoAuthenticationInProgress),
        }
    }

    /// Takes note that the identity call failed without an answer: an
    /// authenticating manager is unauthenticated again.
    pub fn fail_authenticate(&mut self)
        ensures
            final(self)@ == old(self)@.fail(),
    {
        match self.state {
            TokenState::Authenticating => {
                *self = TokenManager::new();
            },
            _ => {},
        }
    }

    /// Takes note that the service reported the token as invalid. A valid
    /// manager drops its token and is unauthenticated; any other manager
    /// stays as it is. Tells whether the manager changed.
    pub fn invalidate(&mut self) -> (changed: bool)
        ensures
            final(self)@ == old(self)@.invalidate(),
            changed == (old(self)@.state is Valid),
    {
        match self.state {
            TokenState::Valid => {
                *self = TokenManager::new();
                true
            },
            _ => false,
        }
    }

    /// Hands in a token that was obtained elsewhere. The manager is valid
    /// with it if it is not empty and unauthenticated if it is; a
    /// rate-limited manager stays as it is.
    pub fn set_token(&mut self, value: &str)
        ensures
            final(self)@ == old(self)@.supply(value@),
    {
        match self.state {
            TokenState::RateLimited => {},
            _ => {
                if value.is_empty() {
                    *self = TokenManager::new();
                } else {
                    *self = TokenManager { state: TokenState::Valid, token: Token::of_value(value) };
                }
            },
        }
    }
}

} // verus!
