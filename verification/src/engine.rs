//! The execution engine: the redirect-following loop as a state machine.
//!
//! One hop sends the current request and classifies the response. Statuses
//! 301, 302 and 303 redirect unconditionally, discard the body and rewrite
//! the method to GET unless it is GET or HEAD; 307 and 308 redirect only
//! when the body, if any, can be re-sent, and change nothing; every other
//! status ends the call with the response. A redirect status without a
//! usable `Location` target also ends the call with the response. When a
//! target resolves, a `Referer` header is set, the current URL joins the
//! visited history, and the policy decides: follow, stop with the current
//! response, or fail with a loop or limit error.
//!
//! The transport itself is a collaborator: [`engine_step`] turns one
//! transport outcome into the next state, and [`run`] folds a transcript
//! of outcomes. Both are proved equal to the one transition relation,
//! [`step_model`] and [`run_model`].
use vstd::prelude::*;

use crate::body::spec_can_reset;
use crate::body::can_reset;
use crate::body::Body;
use crate::body::BodyView;
use crate::error::Error;
use crate::error::ErrorView;
use crate::error::Kind;
use crate::error::KindView;
use crate::header::first_value;
use crate::header::set_value;
use crate::header::Headers;
use crate::method::Method;
use crate::redirect::check_redirect;
use crate::redirect::policy_action;
use crate::redirect::urls_view;
use crate::redirect::Action;
use crate::redirect::CustomPolicy;
use crate::redirect::RedirectPolicy;
use crate::url::url_join_norm;
use crate::url::Url;

verus! {

/// The request about to be sent: the redirect chain's mutable state.
#[derive(Debug)]
pub struct RequestState {
    pub method: Method,
    pub url: Url,
    pub headers: Headers,
    pub body: Option<Body>,
}

/// The mathematical content of a [`RequestState`].
pub struct StateView {
    pub method: Method,
    pub url: Seq<char>,
    pub headers: Seq<(Seq<char>, Seq<char>)>,
    pub body: Option<BodyView>,
}

impl View for RequestState {
    type V = StateView;

    open spec fn view(&self) -> StateView {
        StateView {
            method: self.method,
            url: self.url@,
            headers: self.headers@,
            body: match &self.body {
                Some(b) => Some(b@),
                None => None,
            },
        }
    }
}

/// What one hop's response gave the engine: the status, the response
/// headers, and the URL the transport reports as actually fetched.
#[derive(Debug)]
pub struct Response {
    pub status: u16,
    pub headers: Headers,
    pub url: Url,
}

/// The mathematical content of a [`Response`].
pub struct ResponseView {
    pub status: u16,
    pub headers: Seq<(Seq<char>, Seq<char>)>,
    pub url: Seq<char>,
}

impl View for Response {
    type V = ResponseView;

    open spec fn view(&self) -> ResponseView {
        ResponseView { status: self.status, headers: self.headers@, url: self.url@ }
    }
}

/// One transport outcome: a response, or the transport's description of
/// its failure.
pub enum Hop {
    Reply(Response),
    TransportFailed(String),
}

/// The mathematical content of a [`Hop`].
pub enum HopView {
    Reply(ResponseView),
    TransportFailed(Seq<char>),
}

impl View for Hop {
    type V = HopView;

    open spec fn view(&self) -> HopView {
        match self {
            Hop::Reply(r) => HopView::Reply(r@),
            Hop::TransportFailed(m) => HopView::TransportFailed(m@),
        }
    }
}

/// The views of a transcript of transport outcomes.
pub open spec fn hops_view(hops: Seq<Hop>) -> Seq<HopView> {
    hops.map_values(|h: Hop| h@)
}

/// What one hop decided: send a next request, end with a response, or
/// fail.
pub enum StepOutcome {
    Next(RequestState),
    Done(Response),
    Fail(Error),
}

/// The mathematical content of a [`StepOutcome`].
pub enum StepView {
    Next(StateView),
    Done(ResponseView),
    Fail(ErrorView),
}

impl View for StepOutcome {
    type V = StepView;

    open spec fn view(&self) -> StepView {
        match self {
            StepOutcome::Next(st) => StepView::Next(st@),
            StepOutcome::Done(r) => StepView::Done(r@),
            StepOutcome::Fail(e) => StepView::Fail(e@),
        }
    }
}

/// What a whole transcript decided: a final response, a failure, or — when
/// the transcript ran out while the engine still wanted to follow — the
/// request that would be sent next.
pub enum RunOutcome {
    Done(Response),
    Fail(Error),
    Pending(RequestState),
}

/// The mathematical content of a [`RunOutcome`].
pub enum RunView {
    Done(ResponseView),
    Fail(ErrorView),
    Pending(StateView),
}

impl View for RunOutcome {
    type V = RunView;

    open spec fn view(&self) -> RunView {
        match self {
            RunOutcome::Done(r) => RunView::Done(r@),
            RunOutcome::Fail(e) => RunView::Fail(e@),
            RunOutcome::Pending(st) => RunView::Pending(st@),
        }
    }
}

/// Whether the status redirects unconditionally, discarding the body and
/// downgrading the method: 301 Moved Permanently, 302 Found, 303 See
/// Other.
pub open spec fn is_unconditional_redirect(status: u16) -> bool {
    status == 301 || status == 302 || status == 303
}

/// Whether the status redirects only when the body can be re-sent,
/// preserving method and body: 307 Temporary Redirect, 308 Permanent
/// Redirect.
pub open spec fn is_conditional_redirect(status: u16) -> bool {
    status == 307 || status == 308
}

/// Whether the status is a redirect the engine may follow.
pub open spec fn is_redirect_status(status: u16) -> bool {
    is_unconditional_redirect(status) || is_conditional_redirect(status)
}

/// The method an unconditional redirect rewrites to: GET and HEAD are
/// kept, every other method becomes GET.
pub open spec fn rewritten_method(m: Method) -> Method {
    if m == Method::Get || m == Method::Head {
        m
    } else {
        Method::Get
    }
}

/// The method the next request carries after a response of this status.
pub open spec fn hop_method(m: Method, status: u16) -> Method {
    if is_unconditional_redirect(status) {
        rewritten_method(m)
    } else {
        m
    }
}

/// The body the next request carries after a response of this status.
pub open spec fn hop_body(b: Option<BodyView>, status: u16) -> Option<BodyView> {
    if is_unconditional_redirect(status) {
        None
    } else {
        b
    }
}

/// Whether a response of this status asks the engine to redirect at all:
/// unconditionally for 301, 302 and 303; for 307 and 308 only when the
/// body, if any, can be re-sent; never otherwise.
pub open spec fn wants_redirect(body: Option<BodyView>, status: u16) -> bool {
    if is_unconditional_redirect(status) {
        true
    } else if is_conditional_redirect(status) {
        match body {
            Some(b) => spec_can_reset(b),
            None => true,
        }
    } else {
        false
    }
}

/// The transition relation of one hop, and the visited history it leaves
/// behind. The response ends the call unless its status asks for a
/// redirect and its `Location` header resolves against the current URL;
/// then the current URL becomes the `Referer` and joins the history, and
/// the policy's decision on the resolved candidate and the full history
/// settles the outcome, with loop and limit failures carrying the
/// response's own reported URL.
pub open spec fn step_model<C: CustomPolicy>(
    policy: &RedirectPolicy<C>,
    st: StateView,
    visited: Seq<Seq<char>>,
    resp: ResponseView,
) -> (StepView, Seq<Seq<char>>) {
    if !wants_redirect(st.body, resp.status) {
        (StepView::Done(resp), visited)
    } else {
        match first_value(resp.headers, "Location"@) {
            None => (StepView::Done(resp), visited),
            Some(loc) => match url_join_norm(st.url, loc) {
                None => (StepView::Done(resp), visited),
                Some(next) => {
                    let visited2 = visited.push(st.url);
                    match policy_action(policy, next, visited2) {
                        Action::Follow => (
                            StepView::Next(
                                StateView {
                                    method: hop_method(st.method, resp.status),
                                    url: next,
                                    headers: set_value(st.headers, "Referer"@, st.url),
                                    body: hop_body(st.body, resp.status),
                                },
                            ),
                            visited2,
                        ),
                        Action::Stop => (StepView::Done(resp), visited2),
                        Action::LoopDetected => (
                            StepView::Fail(
                                ErrorView { kind: KindView::RedirectLoop, url: Some(resp.url) },
                            ),
                            visited2,
                        ),
                        Action::TooManyRedirects => (
                            StepView::Fail(
                                ErrorView { kind: KindView::TooManyRedirects, url: Some(resp.url) },
                            ),
                            visited2,
                        ),
                    }
                },
            },
        }
    }
}

/// Perform one hop of the redirect loop on the response the transport
/// returned, extending the visited history as the model says.
pub fn engine_step<C: CustomPolicy>(
    policy: &RedirectPolicy<C>,
    state: RequestState,
    visited: &mut Vec<Url>,
    resp: Response,
) -> (out: StepOutcome)
    ensures
        (out@, urls_view(final(visited)@)) == step_model(
            policy,
            state@,
            urls_view(old(visited)@),
            resp@,
        ),
{
    let ghost st0 = state@;
    let RequestState { mut method, url, mut headers, mut body } = state;
    let status = resp.status;
    let should_redirect: bool;
    if status == 301 || status == 302 || status == 303 {
        body = None;
        match method {
            Method::Get | Method::Head => {},
            _ => {
                method = Method::Get;
            },
        }
        should_redirect = true;
    } else if status == 307 || status == 308 {
        should_redirect = match &body {
            Some(b) => can_reset(b),
            None => true,
        };
    } else {
        should_redirect = false;
    }
    if !should_redirect {
        return StepOutcome::Done(resp);
    }
    let loc = match resp.headers.get_first("Location") {
        Some(l) => l,
        None => {
            return StepOutcome::Done(resp);
        },
    };
    let next = match url.join(loc.as_str()) {
        Ok(u) => u,
        Err(_) => {
            return StepOutcome::Done(resp);
        },
    };
    headers.set("Referer", url.as_str());
    let ghost url_v = url@;
    visited.push(url);
    proof {
        assert(urls_view(visited@) =~= urls_view(old(visited)@).push(url_v));
    }
    let action = check_redirect(policy, &next, visited.as_slice());
    match action {
        Action::Follow => StepOutcome::Next(RequestState { method, url: next, headers, body }),
        Action::Stop => StepOutcome::Done(resp),
        Action::LoopDetected => StepOutcome::Fail(crate::error::loop_detected(resp.url)),
        Action::TooManyRedirects => StepOutcome::Fail(crate::error::too_many_redirects(resp.url)),
    }
}

/// The outcome of the whole redirect loop on a transcript of transport
/// outcomes, hop by hop: a transport failure fails the call with the
/// then-current URL attached; a response is put through [`step_model`];
/// an exhausted transcript leaves the next request pending.
pub open spec fn run_model<C: CustomPolicy>(
    policy: &RedirectPolicy<C>,
    st: StateView,
    visited: Seq<Seq<char>>,
    hops: Seq<HopView>,
) -> RunView
    decreases hops.len(),
{
    if hops.len() == 0 {
        RunView::Pending(st)
    } else {
        match hops[0] {
            HopView::TransportFailed(msg) => RunView::Fail(
                ErrorView { kind: KindView::Http(msg), url: Some(st.url) },
            ),
            HopView::Reply(resp) => {
                let stepped = step_model(policy, st, visited, resp);
                match stepped.0 {
                    StepView::Done(r) => RunView::Done(r),
                    StepView::Fail(e) => RunView::Fail(e),
                    StepView::Next(st2) => run_model(policy, st2, stepped.1, hops.drop_first()),
                }
            },
        }
    }
}

/// Drive the redirect loop over a transcript of transport outcomes,
/// starting from the finalized initial request and an empty history.
#[verifier::loop_isolation(false)]
pub fn run<C: CustomPolicy>(
    policy: &RedirectPolicy<C>,
    initial: RequestState,
    hops: Vec<Hop>,
) -> (out: RunOutcome)
    ensures
        out@ == run_model(policy, initial@, Seq::empty(), hops_view(hops@)),
{
    let ghost all = hops_view(hops@);
    let mut st = initial;
    let mut visited: Vec<Url> = Vec::new();
    let mut remaining = hops;
    proof {
        assert(urls_view(visited@) =~= Seq::<Seq<char>>::empty());
    }
    loop
        invariant
            run_model(policy, initial@, Seq::empty(), all) == run_model(
                policy,
                st@,
                urls_view(visited@),
                hops_view(remaining@),
            ),
        decreases remaining@.len(),
    {
        if remaining.len() == 0 {
            return RunOutcome::Pending(st);
        }
        let ghost before = hops_view(remaining@);
        let hop = remaining.remove(0);
        proof {
            assert(hops_view(remaining@) =~= before.drop_first());
            assert(before[0] == hop@);
        }
        match hop {
            Hop::TransportFailed(msg) => {
                return RunOutcome::Fail(crate::error::with_url(Kind::Http(msg), st.url));
            },
            Hop::Reply(resp) => {
                match engine_step(policy, st, &mut visited, resp) {
                    StepOutcome::Done(r) => {
                        return RunOutcome::Done(r);
                    },
                    StepOutcome::Fail(e) => {
                        return RunOutcome::Fail(e);
                    },
                    StepOutcome::Next(st2) => {
                        st = st2;
                    },
                }
            },
        }
    }
}

/// Method-rewrite law: when a 301, 302 or 303 response leads to a next
/// request, that request's method is GET unless the method was GET or
/// HEAD, which are kept, and its body is absent, whatever it was.
pub proof fn lemma_unconditional_redirect_rewrites<C: CustomPolicy>(
    policy: &RedirectPolicy<C>,
    st: StateView,
    visited: Seq<Seq<char>>,
    resp: ResponseView,
)
    requires
        is_unconditional_redirect(resp.status),
    ensures
        step_model(policy, st, visited, resp).0 matches StepView::Next(st2) ==> {
            &&& st2.body is None
            &&& st2.method == if st.method == Method::Get || st.method == Method::Head {
                st.method
            } else {
                Method::Get
            }
        },
{
}

/// A 307 or 308 response met by a body that cannot be re-sent ends the
/// call with that response itself — the hop is not attempted, and it is
/// no error — and leaves the visited history as it was.
pub proof fn lemma_non_resettable_body_terminates<C: CustomPolicy>(
    policy: &RedirectPolicy<C>,
    st: StateView,
    visited: Seq<Seq<char>>,
    resp: ResponseView,
)
    requires
        is_conditional_redirect(resp.status),
        st.body matches Some(b) && !spec_can_reset(b),
    ensures
        step_model(policy, st, visited, resp) == (StepView::Done(resp), visited),
{
}

/// Whether the policy follows every candidate, whatever the history.
pub open spec fn follow_all<C: CustomPolicy>(policy: &RedirectPolicy<C>) -> bool {
    forall|next: Seq<char>, previous: Seq<Seq<char>>|
        policy_action(policy, next, previous) == Action::Follow
}

/// The response of a hop known to be a reply.
pub open spec fn hop_reply(h: HopView) -> ResponseView {
    match h {
        HopView::Reply(r) => r,
        HopView::TransportFailed(_) => arbitrary(),
    }
}

/// The URLs the engine requests over a transcript, in order: one per
/// consumed hop, starting at the current state's URL.
pub open spec fn run_urls<C: CustomPolicy>(
    policy: &RedirectPolicy<C>,
    st: StateView,
    visited: Seq<Seq<char>>,
    hops: Seq<HopView>,
) -> Seq<Seq<char>>
    decreases hops.len(),
{
    if hops.len() == 0 {
        Seq::empty()
    } else {
        match hops[0] {
            HopView::TransportFailed(_) => seq![st.url],
            HopView::Reply(resp) => {
                let stepped = step_model(policy, st, visited, resp);
                match stepped.0 {
                    StepView::Next(st2) => seq![st.url] + run_urls(
                        policy,
                        st2,
                        stepped.1,
                        hops.drop_first(),
                    ),
                    StepView::Done(_) => seq![st.url],
                    StepView::Fail(_) => seq![st.url],
                }
            },
        }
    }
}

/// Termination law: under the built-in limit policy, the engine issues a
/// bounded number of requests, however long the transcript — a history
/// short of the maximum leaves room for at most `max - visited.len()`
/// follows, so one more request than that.
pub proof fn lemma_limit_bounds_requests<C: CustomPolicy>(
    policy: &RedirectPolicy<C>,
    max: nat,
    st: StateView,
    visited: Seq<Seq<char>>,
    hops: Seq<HopView>,
)
    requires
        crate::redirect::is_limit(policy, max),
        visited.len() < max,
    ensures
        run_urls(policy, st, visited, hops).len() <= max - visited.len() + 1,
    decreases hops.len(),
{
    if hops.len() == 0 {
    } else {
        match hops[0] {
            HopView::TransportFailed(_) => {},
            HopView::Reply(resp) => {
                let stepped = step_model(policy, st, visited, resp);
                match stepped.0 {
                    StepView::Next(st2) => {
                        let visited2 = visited.push(st.url);
                        crate::redirect::lemma_limit_follows_novel(policy, max, st2.url, visited2);
                        lemma_limit_bounds_requests(policy, max, st2, visited2, hops.drop_first());
                    },
                    StepView::Done(_) => {},
                    StepView::Fail(_) => {},
                }
            },
        }
    }
}

/// Round-trip law: under a policy that follows every candidate, a
/// transcript of replies whose redirects resolve along a chain of targets
/// makes the engine request every target in order — the first being the
/// initial URL — and end with the first reply whose status is not a
/// redirect. The initial request carries no body.
pub proof fn lemma_follow_all_visits_chain<C: CustomPolicy>(
    policy: &RedirectPolicy<C>,
    init: StateView,
    visited: Seq<Seq<char>>,
    hops: Seq<HopView>,
    targets: Seq<Seq<char>>,
)
    requires
        follow_all(policy),
        init.body is None,
        hops.len() >= 1,
        targets.len() == hops.len(),
        targets[0] == init.url,
        forall|i: int| 0 <= i < hops.len() ==> (#[trigger] hops[i]) is Reply,
        forall|i: int|
            0 <= i < hops.len() - 1 ==> {
                let resp = hop_reply(#[trigger] hops[i]);
                &&& is_redirect_status(resp.status)
                &&& first_value(resp.headers, "Location"@) is Some
                &&& url_join_norm(targets[i], first_value(resp.headers, "Location"@).unwrap())
                    == Some(targets[i + 1])
            },
        !is_redirect_status(hop_reply(hops[hops.len() - 1]).status),
    ensures
        run_model(policy, init, visited, hops) == RunView::Done(hop_reply(hops[hops.len() - 1])),
        run_urls(policy, init, visited, hops) == targets,
    decreases hops.len(),
{
    assert(hops[0] is Reply);
    let resp = hop_reply(hops[0]);
    if hops.len() == 1 {
        assert(!wants_redirect(init.body, resp.status));
        assert(run_urls(policy, init, visited, hops) =~= targets);
    } else {
        assert(is_redirect_status(resp.status) && first_value(resp.headers, "Location"@) is Some
            && url_join_norm(targets[0], first_value(resp.headers, "Location"@).unwrap()) == Some(
            targets[1],
        ));
        assert(wants_redirect(init.body, resp.status));
        let next = targets[1];
        let visited2 = visited.push(init.url);
        assert(policy_action(policy, next, visited2) == Action::Follow);
        let stepped = step_model(policy, init, visited, resp);
        let st2 = StateView {
            method: hop_method(init.method, resp.status),
            url: next,
            headers: set_value(init.headers, "Referer"@, init.url),
            body: hop_body(init.body, resp.status),
        };
        assert(stepped == (StepView::Next(st2), visited2));
        assert(st2.body is None);
        let rest = hops.drop_first();
        let rest_targets = targets.drop_first();
        assert(forall|i: int| 0 <= i < rest.len() ==> #[trigger] rest[i] == hops[i + 1]);
        assert(forall|i: int|
            0 <= i < rest_targets.len() ==> #[trigger] rest_targets[i] == targets[i + 1]);
        assert(forall|i: int|
            0 <= i < rest.len() - 1 ==> {
                let r = hop_reply(#[trigger] rest[i]);
                &&& is_redirect_status(r.status)
                &&& first_value(r.headers, "Location"@) is Some
                &&& url_join_norm(rest_targets[i], first_value(r.headers, "Location"@).unwrap())
                    == Some(rest_targets[i + 1])
            });
        lemma_follow_all_visits_chain(policy, st2, visited2, rest, rest_targets);
        assert(run_model(policy, init, visited, hops) == run_model(policy, st2, visited2, rest));
        assert(run_urls(policy, init, visited, hops) == seq![init.url] + run_urls(
            policy,
            st2,
            visited2,
            rest,
        ));
        assert(seq![init.url] + rest_targets =~= targets);
    }
}

} // verus!

