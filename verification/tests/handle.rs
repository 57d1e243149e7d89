use chainmail::{
    AuthError, ChainmailMiddleware, ChainmailReqExt, ConfigError, ResolutionSlot, Strategies,
    Strategy,
};
use iron::status;
use iron::{IronError, IronResult, Response};

/// The request of these tests: the trail of everything that touched it.
type Trail = Vec<String>;

type Failure = Box<dyn Fn(&mut Trail) -> IronResult<Response>>;

/// A strategy that signs the trail and gives a fixed outcome.
struct Signing {
    tag: &'static str,
    identity: Option<&'static str>,
}

impl Strategy<Trail, String> for Signing {
    fn is_valid(&self, _req: &mut Trail) -> bool {
        true
    }

    fn authenticate(&self, req: &mut Trail) -> Result<String, AuthError> {
        req.push(self.tag.to_string());
        match self.identity {
            Some(id) => Ok(id.to_string()),
            None => Err(AuthError::new("rejected")),
        }
    }
}

fn middleware(outcomes: &[(&'static str, Option<&'static str>)]) -> ChainmailMiddleware<Signing, Failure> {
    let mut strategies = Strategies::new();
    for (name, identity) in outcomes {
        strategies.insert(name.to_string(), Signing { tag: *name, identity: *identity });
    }
    ChainmailMiddleware::new(strategies)
}

fn marked(code: status::Status, mark: &str) -> Response {
    let mut response = Response::with(code);
    response.headers.set_raw("x-answered-by", vec![mark.as_bytes().to_vec()]);
    response
}

fn mark_of(response: &Response) -> Option<String> {
    response
        .headers
        .get_raw("x-answered-by")
        .map(|lines| String::from_utf8(lines[0].clone()).unwrap())
}

fn login_page() -> Failure {
    Box::new(|req: &mut Trail| {
        req.push("failure".to_string());
        Ok(marked(status::Forbidden, "failure"))
    })
}

/// A protected handler that answers with `code` and writes down whom it saw.
fn protected(code: status::Status) -> impl Fn(&mut Trail, ResolutionSlot<String>) -> IronResult<Response> {
    move |req: &mut Trail, slot: ResolutionSlot<String>| {
        let seen = match &*slot.current_user() {
            Some(authed) => format!("base saw {} by {}", authed.user, authed.authed_by),
            None => "base saw nobody".to_string(),
        };
        assert_eq!(slot.is_signed_in(), slot.current_user().is_some());
        req.push(seen);
        Ok(marked(code, "base"))
    }
}

fn trail(list: &[&str]) -> Trail {
    list.iter().map(|s| s.to_string()).collect()
}

fn answer(handled: Result<IronResult<Response>, ConfigError>) -> Response {
    handled.expect("the configuration is complete").expect("the handler answered")
}

#[test]
fn forced_auth_keeps_an_unknown_caller_from_the_protected_handler() {
    let mut m = middleware(&[("token", None), ("session", None)]);
    m.force = true;
    m.failure_handler = Some(login_page());
    let mut req: Trail = Vec::new();
    let response = answer(m.handle(&mut req, &protected(status::Ok)));
    assert_eq!(response.status, Some(status::Forbidden));
    assert_eq!(mark_of(&response), Some("failure".to_string()));
    assert_eq!(req, trail(&["token", "session", "failure"]));
}

#[test]
fn without_force_the_protected_handler_sees_nobody() {
    let mut m = middleware(&[("token", None), ("session", None)]);
    m.failure_handler = Some(login_page());
    let mut req: Trail = Vec::new();
    let response = answer(m.handle(&mut req, &protected(status::Ok)));
    assert_eq!(response.status, Some(status::Ok));
    assert_eq!(mark_of(&response), Some("base".to_string()));
    assert_eq!(req, trail(&["token", "session", "base saw nobody"]));
}

#[test]
fn the_protected_handler_sees_who_was_found() {
    let m = middleware(&[("token", None), ("session", Some("u1")), ("basic", Some("u9"))]);
    let mut req: Trail = Vec::new();
    let response = answer(m.handle(&mut req, &protected(status::Ok)));
    assert_eq!(mark_of(&response), Some("base".to_string()));
    assert_eq!(req, trail(&["token", "session", "base saw u1 by session"]));
}

#[test]
fn forced_auth_without_failure_handler_serves_a_known_caller() {
    let mut m = middleware(&[("token", Some("u2"))]);
    m.force = true;
    let mut req: Trail = Vec::new();
    let response = answer(m.handle(&mut req, &protected(status::Ok)));
    assert_eq!(response.status, Some(status::Ok));
    assert_eq!(mark_of(&response), Some("base".to_string()));
    assert_eq!(req, trail(&["token", "base saw u2 by token"]));
}

#[test]
fn forced_auth_without_failure_handler_fails_on_an_unknown_caller() {
    let mut m = middleware(&[("token", None)]);
    m.force = true;
    let mut req: Trail = Vec::new();
    match m.handle(&mut req, &protected(status::Ok)) {
        Err(error) => assert_eq!(error, ConfigError::NoFailureHandler),
        Ok(_) => panic!("nobody could have answered"),
    }
    assert_eq!(req, trail(&["token"]));
}

#[test]
fn an_unauthorized_response_is_replaced() {
    let mut m = middleware(&[("token", Some("u1"))]);
    m.intercept_401 = true;
    m.failure_handler = Some(login_page());
    let mut req: Trail = Vec::new();
    let response = answer(m.handle(&mut req, &protected(status::Unauthorized)));
    assert_eq!(response.status, Some(status::Forbidden));
    assert_eq!(mark_of(&response), Some("failure".to_string()));
    assert_eq!(req, trail(&["token", "base saw u1 by token", "failure"]));
}

#[test]
fn other_responses_come_back_as_they_are() {
    let mut m = middleware(&[("token", Some("u1"))]);
    m.intercept_401 = true;
    m.failure_handler = Some(login_page());
    for code in [status::Ok, status::NotFound, status::Forbidden, status::ImATeapot] {
        let mut req: Trail = Vec::new();
        let response = answer(m.handle(&mut req, &protected(code)));
        assert_eq!(response.status, Some(code));
        assert_eq!(mark_of(&response), Some("base".to_string()));
        assert_eq!(req, trail(&["token", "base saw u1 by token"]));
    }
}

#[test]
fn a_response_without_status_comes_back_as_it_is() {
    let mut m = middleware(&[]);
    m.intercept_401 = true;
    m.failure_handler = Some(login_page());
    let mut req: Trail = Vec::new();
    let base = |req: &mut Trail, _slot: ResolutionSlot<String>| {
        req.push("base".to_string());
        Ok(Response::new())
    };
    let response = answer(m.handle(&mut req, &base));
    assert!(response.status.is_none());
    assert_eq!(req, trail(&["base"]));
}

#[test]
fn without_intercept_an_unauthorized_response_comes_back() {
    let mut m = middleware(&[("token", Some("u1"))]);
    m.failure_handler = Some(login_page());
    let mut req: Trail = Vec::new();
    let response = answer(m.handle(&mut req, &protected(status::Unauthorized)));
    assert_eq!(response.status, Some(status::Unauthorized));
    assert_eq!(mark_of(&response), Some("base".to_string()));
    assert_eq!(req, trail(&["token", "base saw u1 by token"]));
}

#[test]
fn intercept_without_failure_handler_fails_on_unauthorized() {
    let mut m = middleware(&[("token", Some("u1"))]);
    m.intercept_401 = true;
    let mut req: Trail = Vec::new();
    match m.handle(&mut req, &protected(status::Unauthorized)) {
        Err(error) => assert_eq!(error, ConfigError::NoInterceptHandler),
        Ok(_) => panic!("nobody could have answered in place of the response"),
    }
    assert_eq!(req, trail(&["token", "base saw u1 by token"]));

    let mut again: Trail = Vec::new();
    let response = answer(m.handle(&mut again, &protected(status::Ok)));
    assert_eq!(response.status, Some(status::Ok));
}

#[test]
fn a_failure_of_the_protected_handler_is_handed_on() {
    let mut m = middleware(&[("token", Some("u1"))]);
    m.intercept_401 = true;
    m.force = true;
    m.failure_handler = Some(login_page());
    let mut req: Trail = Vec::new();
    let base = |req: &mut Trail, _slot: ResolutionSlot<String>| -> IronResult<Response> {
        req.push("base".to_string());
        Err(IronError {
            error: Box::new(std::fmt::Error),
            response: marked(status::Unauthorized, "base error"),
        })
    };
    let handled = m.handle(&mut req, &base).expect("the configuration is complete");
    match handled {
        Err(error) => {
            assert_eq!(error.response.status, Some(status::Unauthorized));
            assert_eq!(mark_of(&error.response), Some("base error".to_string()));
        }
        Ok(_) => panic!("the failure must come back"),
    }
    assert_eq!(req, trail(&["token", "base"]));
}

#[test]
fn a_blocked_request_and_a_replaced_response_get_the_same_answer() {
    let mut m = middleware(&[("token", None)]);
    m.force = true;
    m.intercept_401 = true;
    m.failure_handler = Some(login_page());
    let mut blocked: Trail = Vec::new();
    let first = answer(m.handle(&mut blocked, &protected(status::Ok)));
    assert_eq!(blocked, trail(&["token", "failure"]));

    m.force = false;
    let mut replaced: Trail = Vec::new();
    let second = answer(m.handle(&mut replaced, &protected(status::Unauthorized)));
    assert_eq!(replaced, trail(&["token", "base saw nobody", "failure"]));
    assert_eq!(first.status, second.status);
    assert_eq!(mark_of(&first), mark_of(&second));
}

#[test]
fn the_failure_handler_may_fail_too() {
    let mut m = middleware(&[("token", None)]);
    m.force = true;
    m.failure_handler = Some(Box::new(|req: &mut Trail| {
        req.push("failure".to_string());
        Err(IronError::new(std::fmt::Error, status::InternalServerError))
    }));
    let mut req: Trail = Vec::new();
    let handled = m.handle(&mut req, &protected(status::Ok)).expect("the configuration is complete");
    match handled {
        Err(error) => assert_eq!(error.response.status, Some(status::InternalServerError)),
        Ok(_) => panic!("the failure of the failure handler must come back"),
    }
    assert_eq!(req, trail(&["token", "failure"]));
}
