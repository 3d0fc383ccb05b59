use schedules_direct::client::{
    attempt_identity, build_call, build_identity_call, judge_identity, rate_limit_notice,
    token_answered, AuthError, SchedulesDirect,
};
use schedules_direct::config::{ClientConfig, CLIENT_TIMEOUT};
use schedules_direct::credentials::Credentials;
use schedules_direct::executor::{ApiError, HttpResponse, TransportError};
use schedules_direct::request::{CallRequest, Method};
use schedules_direct::retry::{ErrorClass, RetryPolicy};
use schedules_direct::token::{AuthOutcome, Token, TokenError, TokenManager, TokenState};
use std::cell::{Cell, RefCell};

fn credentials() -> Credentials {
    Credentials {
        username: "alice".to_string(),
        password_hash: "a9993e364706816aba3e25717850c26c9cd0d89d".to_string(),
    }
}

fn client_with_token(token: &str) -> SchedulesDirect {
    let mut sd = SchedulesDirect::new();
    sd.token_set(token);
    sd
}

fn response(status: u16, body: &str) -> HttpResponse {
    HttpResponse { status, body: body.to_string() }
}

fn token_body(code: i32, token: &str) -> String {
    format!(
        r#"{{"response":"OK","code":{},"serverID":"s1","message":"m","datetime":"d","token":"{}"}}"#,
        code, token
    )
}

fn check(call: CallRequest, method: Method, url: &str, body: Option<&str>, token: &str) {
    assert_eq!(call.method(), method);
    assert_eq!(call.url(), url);
    assert_eq!(call.body(), body);
    assert_eq!(call.headers().len(), 1);
    assert_eq!(call.header("token"), Some(token));
}

const BASE: &str = "https://json.schedulesdirect.org/20141201";

#[test]
fn new_client_has_the_usual_configuration() {
    let sd = SchedulesDirect::new();
    assert_eq!(sd.config.domain, "https://json.schedulesdirect.org");
    assert_eq!(sd.config.api, "20141201");
    assert_eq!(sd.config.user_agent, "RustGrabber");
    assert_eq!(sd.config.content_type, "application/json;charset=UTF-8");
    assert_eq!(sd.config.timeout_secs, 10);
    assert_eq!(CLIENT_TIMEOUT, 10);
    assert!(sd.config.gzip);
    assert_eq!(sd.tokens.state(), TokenState::Unauthenticated);
    assert_eq!(sd.policy.initial_interval(), 500);
    assert_eq!(sd.policy.max_elapsed_time(), 900_000);
}

#[test]
fn configured_client_keeps_its_configuration() {
    let policy = RetryPolicy::new(1, 1000, 2, 3).unwrap();
    let mut sd = SchedulesDirect::with_config(ClientConfig::new("http://localhost:8080", "v9"), policy);
    assert_eq!(sd.policy.max_interval(), 2);
    assert_eq!(sd.tokens.state(), TokenState::Unauthenticated);
    sd.token_set("t");
    check(sd.status().unwrap(), Method::Get, "http://localhost:8080/v9/status", None, "t");
}

#[test]
fn addresses_are_joined_from_domain_version_and_path() {
    let config = ClientConfig::new("https://h", "v1");
    assert_eq!(config.api_url("/status"), "https://h/v1/status");
    assert_eq!(config.api_url(""), "https://h/v1");
    assert_eq!(config.service_url("/v1/lineups/X"), "https://h/v1/lineups/X");
}

#[test]
fn calls_are_refused_without_a_token() {
    let sd = SchedulesDirect::new();
    assert_eq!(sd.status().err(), Some(ApiError::Unauthenticated));
    assert_eq!(sd.available().err(), Some(ApiError::Unauthenticated));
    assert_eq!(sd.countries().err(), Some(ApiError::Unauthenticated));
    assert_eq!(sd.languages().err(), Some(ApiError::Unauthenticated));
    assert_eq!(sd.dvb_s().err(), Some(ApiError::Unauthenticated));
    assert_eq!(sd.dvb_t("GBR").err(), Some(ApiError::Unauthenticated));
    assert_eq!(sd.headends("USA", "98119").err(), Some(ApiError::Unauthenticated));
    assert_eq!(sd.schedules_md5("[]").err(), Some(ApiError::Unauthenticated));
    assert_eq!(sd.schedules("[]").err(), Some(ApiError::Unauthenticated));
    assert_eq!(sd.lineups_preview("X").err(), Some(ApiError::Unauthenticated));
    assert_eq!(sd.programs("[]").err(), Some(ApiError::Unauthenticated));
    assert_eq!(sd.programs_generic("[]").err(), Some(ApiError::Unauthenticated));
    assert_eq!(sd.metadata_programs("[]").err(), Some(ApiError::Unauthenticated));
    assert_eq!(sd.metadata_awards("[]").err(), Some(ApiError::Unauthenticated));
    assert_eq!(sd.xref("[]").err(), Some(ApiError::Unauthenticated));
    assert_eq!(sd.lineup_add("/x").err(), Some(ApiError::Unauthenticated));
    assert_eq!(sd.lineup_delete("/x").err(), Some(ApiError::Unauthenticated));
    assert_eq!(sd.lineup_map("/x").err(), Some(ApiError::Unauthenticated));
    let mut sd = SchedulesDirect::new();
    sd.token_set("");
    assert_eq!(sd.status().err(), Some(ApiError::Unauthenticated));
}

#[test]
fn calls_without_arguments_go_to_their_paths() {
    let sd = client_with_token("tok");
    check(sd.status().unwrap(), Method::Get, &format!("{}/status", BASE), None, "tok");
    check(sd.available().unwrap(), Method::Get, &format!("{}/available", BASE), None, "tok");
    check(sd.countries().unwrap(), Method::Get, &format!("{}/available/countries", BASE), None, "tok");
    check(sd.languages().unwrap(), Method::Get, &format!("{}/available/languages", BASE), None, "tok");
    check(sd.dvb_s().unwrap(), Method::Get, &format!("{}/available/dvb-s", BASE), None, "tok");
}

#[test]
fn calls_with_arguments_put_them_into_the_address() {
    let sd = client_with_token("tok");
    check(sd.dvb_t("GBR").unwrap(), Method::Get, &format!("{}/transmitters/GBR", BASE), None, "tok");
    check(
        sd.headends("USA", "98119").unwrap(),
        Method::Get,
        &format!("{}/headends?country=USA&postalcode=98119", BASE),
        None,
        "tok",
    );
    check(
        sd.lineups_preview("USA-OTA-98119").unwrap(),
        Method::Get,
        &format!("{}/lineups/preview/USA-OTA-98119", BASE),
        None,
        "tok",
    );
    check(
        sd.lineup_add("/20141201/lineups/USA-OTA-98119").unwrap(),
        Method::Put,
        "https://json.schedulesdirect.org/20141201/lineups/USA-OTA-98119/20141201/lineups",
        None,
        "tok",
    );
    check(
        sd.lineup_delete("/20141201/lineups/USA-OTA-98119").unwrap(),
        Method::Delete,
        "https://json.schedulesdirect.org/20141201/lineups/USA-OTA-98119",
        None,
        "tok",
    );
    check(
        sd.lineup_map("/20141201/lineups/USA-OTA-98119").unwrap(),
        Method::Get,
        "https://json.schedulesdirect.org/20141201/lineups/USA-OTA-98119",
        None,
        "tok",
    );
}

#[test]
fn calls_with_a_body_post_it() {
    let sd = client_with_token("tok");
    let ids = r#"[{"stationID":"19631"}]"#;
    let programs = r#"["SH009682820000","SH011366480000"]"#;
    check(sd.schedules_md5(ids).unwrap(), Method::Post, &format!("{}/schedules/md5", BASE), Some(ids), "tok");
    check(sd.schedules(ids).unwrap(), Method::Post, &format!("{}/schedules", BASE), Some(ids), "tok");
    check(sd.programs(programs).unwrap(), Method::Post, &format!("{}/programs", BASE), Some(programs), "tok");
    check(
        sd.programs_generic(programs).unwrap(),
        Method::Post,
        &format!("{}/programs/generic", BASE),
        Some(programs),
        "tok",
    );
    check(
        sd.metadata_programs(programs).unwrap(),
        Method::Post,
        &format!("{}/metadata/programs", BASE),
        Some(programs),
        "tok",
    );
    check(
        sd.metadata_awards(programs).unwrap(),
        Method::Post,
        &format!("{}/metadata/awards", BASE),
        Some(programs),
        "tok",
    );
    check(sd.xref(programs).unwrap(), Method::Post, &format!("{}/xref", BASE), Some(programs), "tok");
}

#[test]
fn build_call_attaches_the_token_or_refuses() {
    let mut m = TokenManager::new();
    assert_eq!(
        build_call(&m, Method::Get, "u".to_string(), None).err(),
        Some(ApiError::Unauthenticated)
    );
    m.set_token("t");
    check(build_call(&m, Method::Put, "u".to_string(), Some("b")).unwrap(), Method::Put, "u", Some("b"), "t");
}

#[test]
fn identity_call_posts_the_credentials_as_json() {
    let call = build_identity_call(&ClientConfig::new("https://h", "v1"), &credentials());
    assert_eq!(call.method(), Method::Post);
    assert_eq!(call.url(), "https://h/v1/token");
    assert!(call.headers().is_empty());
    assert_eq!(
        call.body(),
        Some(r#"{"password":"a9993e364706816aba3e25717850c26c9cd0d89d","username":"alice"}"#)
    );
}

#[test]
fn identity_call_escapes_what_json_escapes() {
    let odd = Credentials { username: "a\"b\\c\n".to_string(), password_hash: "ff".to_string() };
    let call = build_identity_call(&ClientConfig::new("https://h", "v1"), &odd);
    assert_eq!(call.body(), Some(r#"{"password":"ff","username":"a\"b\\c\n"}"#));
}

#[test]
fn token_get_announces_the_identity_call() {
    let mut sd = client_with_token("old");
    let call = sd.token_get(&credentials()).unwrap();
    assert_eq!(call.url(), "https://json.schedulesdirect.org/20141201/token");
    assert_eq!(call.method(), Method::Post);
    assert_eq!(call.header("token"), None);
    assert_eq!(sd.tokens.state(), TokenState::Authenticating);
    assert_eq!(sd.status().err(), Some(ApiError::Unauthenticated));
    assert_eq!(sd.token_get(&credentials()).err(), Some(TokenError::AuthenticationInProgress));
    assert_eq!(sd.tokens.state(), TokenState::Authenticating);
}

#[test]
fn token_answered_takes_the_answer_in() {
    let mut m = TokenManager::new();
    m.begin_authenticate().unwrap();
    let answer = Token::decode(&token_body(0, "abc")).unwrap();
    assert_eq!(token_answered(&mut m, Ok(answer)), Ok(AuthOutcome::Authenticated));
    assert_eq!(m.current_token(), Ok("abc"));

    let answer = Token::decode(&token_body(0, "def")).unwrap();
    assert_eq!(
        token_answered(&mut m, Ok(answer)),
        Err(AuthError::Refused(TokenError::NoAuthenticationInProgress))
    );
    assert_eq!(m.current_token(), Ok("abc"));

    m.begin_authenticate().unwrap();
    assert_eq!(
        token_answered(&mut m, Err(ApiError::Transport)),
        Err(AuthError::Failed(ApiError::Transport))
    );
    assert_eq!(m.state(), TokenState::Unauthenticated);
}

#[test]
fn authenticate_holds_the_token_of_the_answer() {
    let mut sd = SchedulesDirect::new();
    let seen = RefCell::new(Vec::new());
    let report = sd.authenticate(
        &credentials(),
        |r: &CallRequest| {
            seen.borrow_mut().push((r.url().to_string(), r.body().map(|b| b.to_string())));
            Ok(response(200, &token_body(0, "f3fca79989cafe7dead71beefedc812b")))
        },
        |_ms| panic!("nothing to wait for"),
    );
    assert_eq!(report.result, Ok(AuthOutcome::Authenticated));
    assert_eq!(report.retries, 0);
    assert_eq!(sd.tokens.current_token(), Ok("f3fca79989cafe7dead71beefedc812b"));
    assert_eq!(
        *seen.borrow(),
        vec![(
            "https://json.schedulesdirect.org/20141201/token".to_string(),
            Some(
                r#"{"password":"a9993e364706816aba3e25717850c26c9cd0d89d","username":"alice"}"#
                    .to_string()
            )
        )]
    );
    check(sd.status().unwrap(), Method::Get, &format!("{}/status", BASE), None, "f3fca79989cafe7dead71beefedc812b");
}

#[test]
fn authenticate_does_not_retry_after_code_3000_and_stays_away() {
    let mut sd = SchedulesDirect::new();
    let calls = Cell::new(0u32);
    let transport = |_r: &CallRequest| {
        calls.set(calls.get() + 1);
        Ok(response(200, &token_body(3000, "")))
    };
    let report = sd.authenticate(&credentials(), &transport, |_ms| panic!("no retry after 3000"));
    assert_eq!(report.result, Ok(AuthOutcome::RateLimited));
    assert_eq!(calls.get(), 1);
    assert_eq!(report.retries, 0);
    assert!(report.failures.is_empty());
    assert_eq!(sd.tokens.state(), TokenState::RateLimited);
    assert_eq!(sd.tokens.last_response().code, 3000);

    let report = sd.authenticate(&credentials(), &transport, |_ms| panic!("no call at all"));
    assert_eq!(report.result, Err(AuthError::Refused(TokenError::RateLimited)));
    assert_eq!(calls.get(), 1);
    assert_eq!(sd.tokens.state(), TokenState::RateLimited);
    assert_eq!(sd.token_get(&credentials()).err(), Some(TokenError::RateLimited));
    sd.token_set("abc");
    assert_eq!(sd.status().err(), Some(ApiError::Unauthenticated));
}

#[test]
fn authenticate_reports_a_refusal_of_the_service() {
    let mut sd = SchedulesDirect::new();
    let report = sd.authenticate(
        &credentials(),
        |_r: &CallRequest| Ok(response(200, &token_body(4003, ""))),
        |_ms| {},
    );
    assert_eq!(report.result, Ok(AuthOutcome::Rejected));
    assert_eq!(sd.tokens.state(), TokenState::Unauthenticated);
    assert_eq!(sd.tokens.last_response().code, 4003);
}

#[test]
fn authenticate_retries_server_errors_and_then_succeeds() {
    let mut sd = SchedulesDirect::new();
    let calls = Cell::new(0u32);
    let sleeps = RefCell::new(Vec::new());
    let report = sd.authenticate(
        &credentials(),
        |_r: &CallRequest| {
            calls.set(calls.get() + 1);
            match calls.get() {
                1 => Err(TransportError::Timeout),
                2 => Ok(response(502, "")),
                _ => Ok(response(200, &token_body(0, "tok"))),
            }
        },
        |ms| sleeps.borrow_mut().push(ms),
    );
    assert_eq!(report.result, Ok(AuthOutcome::Authenticated));
    assert_eq!(*sleeps.borrow(), vec![500, 750]);
    assert_eq!(report.failures, vec![ErrorClass::Retryable, ErrorClass::Retryable]);
    assert_eq!(sd.tokens.current_token(), Ok("tok"));
}

#[test]
fn authenticate_fails_on_client_error_and_on_undecodable_answer() {
    let mut sd = SchedulesDirect::new();
    let report = sd.authenticate(
        &credentials(),
        |_r: &CallRequest| Ok(response(400, "bad")),
        |_ms| panic!("a client error is final"),
    );
    assert_eq!(
        report.result,
        Err(AuthError::Failed(ApiError::Http { status: 400, body: "bad".to_string() }))
    );
    assert_eq!(sd.tokens.state(), TokenState::Unauthenticated);

    let report = sd.authenticate(
        &credentials(),
        |_r: &CallRequest| Ok(response(200, r#"{"code":0}"#)),
        |_ms| panic!("an undecodable answer is final"),
    );
    assert_eq!(
        report.result,
        Err(AuthError::Failed(ApiError::MalformedResponse { raw_body: r#"{"code":0}"#.to_string() }))
    );
    assert_eq!(sd.tokens.state(), TokenState::Unauthenticated);
    assert_eq!(report.failures, vec![ErrorClass::Fatal]);
}

#[test]
fn authenticate_gives_up_when_the_service_stays_away() {
    let policy = RetryPolicy::new(100, 2000, 400, 1000).unwrap();
    let mut sd = SchedulesDirect::with_config(ClientConfig::new("https://h", "v1"), policy);
    let calls = Cell::new(0u32);
    let report = sd.authenticate(
        &credentials(),
        |_r: &CallRequest| -> Result<HttpResponse, TransportError> {
            calls.set(calls.get() + 1);
            Err(TransportError::Connection)
        },
        |_ms| {},
    );
    assert_eq!(report.result, Err(AuthError::Failed(ApiError::Transport)));
    assert_eq!(calls.get(), 4);
    assert_eq!(report.waited, 700);
    assert_eq!(sd.tokens.state(), TokenState::Unauthenticated);
}

fn http(status: u16, body: &str) -> ApiError {
    ApiError::Http { status, body: body.to_string() }
}

#[test]
fn rate_limit_notice_turns_an_http_error_with_code_3000_into_the_record() {
    let body = token_body(3000, "");
    let record = rate_limit_notice(Err(http(503, &body))).unwrap();
    assert_eq!(record.code, 3000);
    assert_eq!(record.message, "m");
    assert_eq!(record.server_id, "s1");
    let record = rate_limit_notice(Err(http(400, &body))).unwrap();
    assert_eq!(record.code, 3000);
}

#[test]
fn rate_limit_notice_leaves_everything_else_as_it_came() {
    let other = token_body(4003, "");
    assert_eq!(rate_limit_notice(Err(http(400, &other))).err(), Some(http(400, &other)));
    let granted = token_body(0, "tok");
    assert_eq!(rate_limit_notice(Err(http(500, &granted))).err(), Some(http(500, &granted)));
    assert_eq!(rate_limit_notice(Err(http(502, "bad gateway"))).err(), Some(http(502, "bad gateway")));
    assert_eq!(rate_limit_notice(Err(http(500, r#"{"code":3000}"#))).err(), Some(http(500, r#"{"code":3000}"#)));
    assert_eq!(rate_limit_notice(Err(ApiError::Transport)).err(), Some(ApiError::Transport));
    assert_eq!(rate_limit_notice(Err(ApiError::Unauthenticated)).err(), Some(ApiError::Unauthenticated));
    let malformed = ApiError::MalformedResponse { raw_body: token_body(3000, "") };
    assert_eq!(
        rate_limit_notice(Err(ApiError::MalformedResponse { raw_body: token_body(3000, "") })).err(),
        Some(malformed)
    );
    let kept = rate_limit_notice(Ok(Token::decode(&token_body(0, "tok")).unwrap())).unwrap();
    assert_eq!(kept.token, "tok");
    assert_eq!(kept.code, 0);
}

#[test]
fn judge_identity_reads_the_record_of_a_successful_answer() {
    let record = judge_identity(Ok(response(200, &token_body(0, "abc")))).unwrap();
    assert_eq!(record.token, "abc");
    let record = judge_identity(Ok(response(200, &token_body(4003, "")))).unwrap();
    assert_eq!(record.code, 4003);
    assert_eq!(
        judge_identity(Ok(response(200, "<html>"))).err(),
        Some(ApiError::MalformedResponse { raw_body: "<html>".to_string() })
    );
}

#[test]
fn judge_identity_takes_a_rate_limit_notice_whatever_the_status() {
    let body = token_body(3000, "");
    for status in [200u16, 400, 403, 429, 500, 502, 503] {
        let record = judge_identity(Ok(response(status, &body))).unwrap();
        assert_eq!(record.code, 3000);
    }
}

#[test]
fn judge_identity_turns_other_failures_into_errors() {
    let granted = token_body(0, "tok");
    assert_eq!(judge_identity(Ok(response(500, &granted))).err(), Some(http(500, &granted)));
    assert_eq!(judge_identity(Ok(response(404, "nf"))).err(), Some(http(404, "nf")));
    assert_eq!(judge_identity(Err(TransportError::Timeout)).err(), Some(ApiError::Transport));
}

#[test]
fn attempt_identity_hands_the_call_to_the_transport_once() {
    let calls = Cell::new(0u32);
    let call = build_identity_call(&ClientConfig::new("https://h", "v1"), &credentials());
    let transport = |r: &CallRequest| {
        calls.set(calls.get() + 1);
        assert_eq!(r.url(), "https://h/v1/token");
        Ok(response(200, &token_body(0, "abc")))
    };
    let record = attempt_identity(&transport, &call).unwrap();
    assert_eq!(record.token, "abc");
    assert_eq!(calls.get(), 1);
}

#[test]
fn token_answered_takes_a_rate_limit_notice_that_comes_as_an_error() {
    let mut m = TokenManager::new();
    m.begin_authenticate().unwrap();
    let notice = http(503, &token_body(3000, ""));
    assert_eq!(token_answered(&mut m, Err(notice)), Ok(AuthOutcome::RateLimited));
    assert_eq!(m.state(), TokenState::RateLimited);
    assert_eq!(m.last_response().code, 3000);
    assert_eq!(m.begin_authenticate(), Err(TokenError::RateLimited));

    let mut m = TokenManager::new();
    m.begin_authenticate().unwrap();
    let other = http(503, &token_body(4003, ""));
    assert_eq!(
        token_answered(&mut m, Err(http(503, &token_body(4003, "")))),
        Err(AuthError::Failed(other))
    );
    assert_eq!(m.state(), TokenState::Unauthenticated);
}

#[test]
fn authenticate_does_not_retry_a_server_error_that_says_code_3000() {
    let mut sd = SchedulesDirect::new();
    let calls = Cell::new(0u32);
    let transport = |_r: &CallRequest| {
        calls.set(calls.get() + 1);
        Ok(response(503, &token_body(3000, "")))
    };
    let report = sd.authenticate(&credentials(), &transport, |_ms| panic!("no retry after 3000"));
    assert_eq!(report.result, Ok(AuthOutcome::RateLimited));
    assert_eq!(calls.get(), 1);
    assert_eq!(report.retries, 0);
    assert_eq!(report.waited, 0);
    assert!(report.failures.is_empty());
    assert_eq!(sd.tokens.state(), TokenState::RateLimited);
    assert_eq!(sd.tokens.last_response().code, 3000);

    let report = sd.authenticate(&credentials(), &transport, |_ms| panic!("no call at all"));
    assert_eq!(report.result, Err(AuthError::Refused(TokenError::RateLimited)));
    assert_eq!(calls.get(), 1);
}

#[test]
fn authenticate_stays_away_after_a_client_error_that_says_code_3000() {
    let mut sd = SchedulesDirect::new();
    let report = sd.authenticate(
        &credentials(),
        |_r: &CallRequest| Ok(response(400, &token_body(3000, ""))),
        |_ms| panic!("no retry after 3000"),
    );
    assert_eq!(report.result, Ok(AuthOutcome::RateLimited));
    assert_eq!(sd.tokens.state(), TokenState::RateLimited);
    assert_eq!(sd.token_get(&credentials()).err(), Some(TokenError::RateLimited));
}

#[test]
fn authenticate_retries_a_server_error_and_then_takes_the_notice() {
    let mut sd = SchedulesDirect::new();
    let calls = Cell::new(0u32);
    let sleeps = RefCell::new(Vec::new());
    let report = sd.authenticate(
        &credentials(),
        |_r: &CallRequest| {
            calls.set(calls.get() + 1);
            if calls.get() == 1 {
                Ok(response(502, "bad gateway"))
            } else {
                Ok(response(502, &token_body(3000, "")))
            }
        },
        |ms| sleeps.borrow_mut().push(ms),
    );
    assert_eq!(report.result, Ok(AuthOutcome::RateLimited));
    assert_eq!(calls.get(), 2);
    assert_eq!(*sleeps.borrow(), vec![500]);
    assert_eq!(report.failures, vec![ErrorClass::Retryable]);
    assert_eq!(sd.tokens.state(), TokenState::RateLimited);
}
