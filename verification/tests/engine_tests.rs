use reqwest::engine::engine_step;
use reqwest::engine::run;
use reqwest::Body;
use reqwest::Client;
use reqwest::CustomPolicy;
use reqwest::Headers;
use reqwest::Hop;
use reqwest::Kind;
use reqwest::Method;
use reqwest::RedirectAction;
use reqwest::RedirectAttempt;
use reqwest::RedirectPolicy;
use reqwest::RequestState;
use reqwest::Response;
use reqwest::RunOutcome;
use reqwest::StepOutcome;
use reqwest::Url;

fn redirect_response(status: u16, at: &str, location: &str) -> Response {
    let mut headers = Headers::new();
    headers.append("Location", location);
    Response {
        status,
        headers,
        url: Url::parse(at).unwrap(),
    }
}

fn plain_response(status: u16, at: &str) -> Response {
    Response {
        status,
        headers: Headers::new(),
        url: Url::parse(at).unwrap(),
    }
}

fn get_state(url: &str) -> RequestState {
    RequestState {
        method: Method::Get,
        url: Url::parse(url).unwrap(),
        headers: Headers::new(),
        body: None,
    }
}

#[test]
fn redirect_chain_follows_and_sets_referer() {
    let client = Client::new().unwrap();
    let state = client.get("http://a/1").prepare().unwrap();
    let mut visited = Vec::new();

    let out = engine_step(
        &client.redirect_policy,
        state,
        &mut visited,
        redirect_response(302, "http://a/1", "/2"),
    );
    let next_state = match out {
        StepOutcome::Next(st) => st,
        _ => panic!("expected the redirect to be followed"),
    };
    assert_eq!(next_state.url.as_str(), "http://a/2");
    assert_eq!(next_state.headers.get_first("Referer"), Some("http://a/1".to_string()));

    let out = engine_step(
        &client.redirect_policy,
        next_state,
        &mut visited,
        plain_response(200, "http://a/2"),
    );
    match out {
        StepOutcome::Done(r) => {
            assert_eq!(r.status, 200);
            assert_eq!(r.url.as_str(), "http://a/2");
        }
        _ => panic!("expected the 200 response to end the call"),
    }
}

#[test]
fn too_many_redirects_surfaces_with_url() {
    let client = Client::new().unwrap();
    let state = client.get("http://a/0").prepare().unwrap();
    let mut hops = Vec::new();
    for i in 0..11 {
        hops.push(Hop::Reply(redirect_response(
            302,
            &format!("http://a/{}", i),
            &format!("http://a/{}", i + 1),
        )));
    }
    match run(&client.redirect_policy, state, hops) {
        RunOutcome::Fail(e) => {
            assert!(matches!(e.kind(), Kind::TooManyRedirects));
            // The default limit of 10 is spent once ten URLs are on the
            // visited list, at the reply reporting http://a/9.
            assert_eq!(e.url().as_ref().unwrap().as_str(), "http://a/9");
        }
        _ => panic!("expected the redirect limit to fail the call"),
    }
}

#[test]
fn redirect_loop_detected_below_limit() {
    let client = Client::new().unwrap();
    let state = client.get("http://a/0").prepare().unwrap();
    let hops = vec![
        Hop::Reply(redirect_response(302, "http://a/0", "/1")),
        Hop::Reply(redirect_response(302, "http://a/1", "/2")),
        Hop::Reply(redirect_response(302, "http://a/2", "/3")),
        Hop::Reply(redirect_response(302, "http://a/3", "/1")),
    ];
    match run(&client.redirect_policy, state, hops) {
        RunOutcome::Fail(e) => {
            assert!(matches!(e.kind(), Kind::RedirectLoop));
            assert_eq!(e.url().as_ref().unwrap().as_str(), "http://a/3");
        }
        _ => panic!("expected the loop to fail the call"),
    }
}

struct FollowAll;

impl CustomPolicy for FollowAll {
    // The ghost half of the trait; never called at run time.
    fn spec_decide(
        &self,
        _: vstd::seq::Seq<char>,
        _: vstd::seq::Seq<vstd::seq::Seq<char>>,
    ) -> reqwest::Action {
        unreachable!()
    }

    fn decide(&self, attempt: RedirectAttempt<'_>) -> RedirectAction {
        attempt.follow()
    }
}

#[test]
fn custom_follow_all_visits_chain_in_order() {
    let policy = RedirectPolicy::custom(FollowAll);
    let state = get_state("http://a/1");
    let mut visited = Vec::new();

    let st2 = match engine_step(&policy, state, &mut visited, redirect_response(302, "http://a/1", "/2"))
    {
        StepOutcome::Next(st) => st,
        _ => panic!("expected follow"),
    };
    assert_eq!(st2.url.as_str(), "http://a/2");

    let st3 = match engine_step(&policy, st2, &mut visited, redirect_response(301, "http://a/2", "/3"))
    {
        StepOutcome::Next(st) => st,
        _ => panic!("expected follow"),
    };
    assert_eq!(st3.url.as_str(), "http://a/3");

    match engine_step(&policy, st3, &mut visited, plain_response(200, "http://a/3")) {
        StepOutcome::Done(r) => assert_eq!(r.status, 200),
        _ => panic!("expected the 200 response to end the call"),
    }

    let seen: Vec<&str> = visited.iter().map(|u| u.as_str()).collect();
    assert_eq!(seen, vec!["http://a/1", "http://a/2"]);
}

#[test]
fn custom_follow_all_round_trip_over_run() {
    let policy = RedirectPolicy::custom(FollowAll);
    let state = get_state("http://a/1");
    let hops = vec![
        Hop::Reply(redirect_response(302, "http://a/1", "/2")),
        Hop::Reply(redirect_response(308, "http://a/2", "/3")),
        Hop::Reply(plain_response(204, "http://a/3")),
    ];
    match run(&policy, state, hops) {
        RunOutcome::Done(r) => {
            assert_eq!(r.status, 204);
            assert_eq!(r.url.as_str(), "http://a/3");
        }
        _ => panic!("expected the chain to end at the first non-redirect"),
    }
}

#[test]
fn unconditional_redirect_rewrites_method_and_drops_body() {
    let policy = RedirectPolicy::limited(10);
    for status in [301u16, 302, 303] {
        let state = RequestState {
            method: Method::Post,
            url: Url::parse("http://a/1").unwrap(),
            headers: Headers::new(),
            body: Some(Body::from_text("payload")),
        };
        let mut visited = Vec::new();
        match engine_step(&policy, state, &mut visited, redirect_response(status, "http://a/1", "/2"))
        {
            StepOutcome::Next(st) => {
                assert_eq!(st.method, Method::Get);
                assert!(st.body.is_none());
            }
            _ => panic!("expected follow"),
        }
    }
}

#[test]
fn unconditional_redirect_keeps_get_and_head() {
    let policy = RedirectPolicy::limited(10);
    for method in [Method::Get, Method::Head] {
        let state = RequestState {
            method,
            url: Url::parse("http://a/1").unwrap(),
            headers: Headers::new(),
            body: None,
        };
        let mut visited = Vec::new();
        match engine_step(&policy, state, &mut visited, redirect_response(301, "http://a/1", "/2")) {
            StepOutcome::Next(st) => assert_eq!(st.method, method),
            _ => panic!("expected follow"),
        }
    }
}

#[test]
fn non_resettable_body_ends_with_original_response() {
    let policy = RedirectPolicy::limited(10);
    for status in [307u16, 308] {
        let state = RequestState {
            method: Method::Post,
            url: Url::parse("http://a/1").unwrap(),
            headers: Headers::new(),
            body: Some(Body::Stream),
        };
        let mut visited = Vec::new();
        match engine_step(&policy, state, &mut visited, redirect_response(status, "http://a/1", "/2"))
        {
            StepOutcome::Done(r) => {
                assert_eq!(r.status, status);
                assert_eq!(r.url.as_str(), "http://a/1");
            }
            _ => panic!("expected the original response, not a hop and not an error"),
        }
        assert!(visited.is_empty());
    }
}

#[test]
fn conditional_redirect_keeps_method_and_resettable_body() {
    let policy = RedirectPolicy::limited(10);
    let state = RequestState {
        method: Method::Put,
        url: Url::parse("http://a/1").unwrap(),
        headers: Headers::new(),
        body: Some(Body::from_text("payload")),
    };
    let mut visited = Vec::new();
    match engine_step(&policy, state, &mut visited, redirect_response(307, "http://a/1", "/2")) {
        StepOutcome::Next(st) => {
            assert_eq!(st.method, Method::Put);
            let body = st.body.unwrap();
            assert_eq!(body.as_bytes().unwrap().as_slice(), b"payload");
        }
        _ => panic!("expected follow"),
    }
}

#[test]
fn missing_location_ends_with_response() {
    let policy = RedirectPolicy::limited(10);
    let mut visited = Vec::new();
    match engine_step(&policy, get_state("http://a/1"), &mut visited, plain_response(302, "http://a/1"))
    {
        StepOutcome::Done(r) => assert_eq!(r.status, 302),
        _ => panic!("expected the response itself"),
    }
}

#[test]
fn unparseable_location_ends_with_response() {
    let policy = RedirectPolicy::limited(10);
    let mut visited = Vec::new();
    let resp = redirect_response(302, "http://a/1", "http://[bad");
    match engine_step(&policy, get_state("http://a/1"), &mut visited, resp) {
        StepOutcome::Done(r) => assert_eq!(r.status, 302),
        _ => panic!("expected the response itself"),
    }
}

#[test]
fn policy_stop_returns_current_response() {
    let policy = RedirectPolicy::none();
    let mut visited = Vec::new();
    let resp = redirect_response(302, "http://a/1", "/2");
    match engine_step(&policy, get_state("http://a/1"), &mut visited, resp) {
        StepOutcome::Done(r) => {
            assert_eq!(r.status, 302);
            assert_eq!(r.url.as_str(), "http://a/1");
        }
        _ => panic!("expected the pre-redirect response"),
    }
}

#[test]
fn transport_failure_carries_current_url() {
    let client = Client::new().unwrap();
    let state = client.get("http://a/1").prepare().unwrap();
    let hops = vec![Hop::TransportFailed("connection refused".to_string())];
    match run(&client.redirect_policy, state, hops) {
        RunOutcome::Fail(e) => {
            assert!(matches!(e.kind(), Kind::Http(_)));
            assert_eq!(e.description(), "connection refused");
            assert_eq!(e.url().as_ref().unwrap().as_str(), "http://a/1");
        }
        _ => panic!("expected the transport failure to fail the call"),
    }
}

#[test]
fn exhausted_transcript_is_pending() {
    let client = Client::new().unwrap();
    let state = client.get("http://a/1").prepare().unwrap();
    match run(&client.redirect_policy, state, Vec::new()) {
        RunOutcome::Pending(st) => assert_eq!(st.url.as_str(), "http://a/1"),
        _ => panic!("expected a pending request"),
    }
}
