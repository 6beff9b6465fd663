//! Redirect policies.
//!
//! A policy is a decision function: given the next candidate URL and the
//! list of previously visited URLs it returns one of the four
//! [`Action`]s. The built-in policies are a redirect count limit with loop
//! detection, and one that follows nothing; a caller-supplied
//! [`CustomPolicy`] may replace them, and is then solely responsible for
//! its own loop and limit detection.
use vstd::prelude::*;

use crate::url::Url;

verus! {

/// An action to perform when a redirect status code is found.
#[derive(Clone, Copy, Debug, PartialEq, Eq, Structural)]
pub enum Action {
    /// Follow the redirect to the candidate URL.
    Follow,
    /// Do not follow; the response in hand is final.
    Stop,
    /// Fail: the candidate was already visited.
    LoopDetected,
    /// Fail: the chain used up the allowed number of redirects.
    TooManyRedirects,
}

/// The serializations of a sequence of URLs.
pub open spec fn urls_view(urls: Seq<Url>) -> Seq<Seq<char>> {
    urls.map_values(|u: Url| u@)
}

/// One redirect decision's input: the candidate URL and the URLs already
/// visited in this chain, in order.
pub struct RedirectAttempt<'a> {
    next: &'a Url,
    previous: &'a [Url],
}

/// The decision a policy took on one [`RedirectAttempt`].
pub struct RedirectAction {
    inner: Action,
}

impl View for RedirectAction {
    type V = Action;

    closed spec fn view(&self) -> Action {
        self.inner
    }
}

impl RedirectAction {
    /// The action this decision stands for.
    pub fn action(&self) -> (r: Action)
        ensures
            r == self@,
    {
        self.inner
    }
}

impl<'a> View for RedirectAttempt<'a> {
    type V = (Seq<char>, Seq<Seq<char>>);

    closed spec fn view(&self) -> (Seq<char>, Seq<Seq<char>>) {
        (self.next@, urls_view(self.previous@))
    }
}

impl<'a> RedirectAttempt<'a> {
    /// The candidate URL of this attempt.
    pub fn url(&self) -> (r: &'a Url)
        ensures
            r@ == self@.0,
    {
        self.next
    }

    /// The URLs already visited in this chain, in order.
    pub fn previous(&self) -> (r: &'a [Url])
        ensures
            urls_view(r@) == self@.1,
    {
        self.previous
    }

    /// Decide to follow the redirect.
    pub fn follow(self) -> (r: RedirectAction)
        ensures
            r@ == Action::Follow,
    {
        RedirectAction { inner: Action::Follow }
    }

    /// Decide not to follow the redirect.
    pub fn stop(self) -> (r: RedirectAction)
        ensures
            r@ == Action::Stop,
    {
        RedirectAction { inner: Action::Stop }
    }

    /// Report the candidate as an already-visited URL.
    pub fn loop_detected(self) -> (r: RedirectAction)
        ensures
            r@ == Action::LoopDetected,
    {
        RedirectAction { inner: Action::LoopDetected }
    }

    /// Report the chain as having used up its allowed redirects.
    pub fn too_many_redirects(self) -> (r: RedirectAction)
        ensures
            r@ == Action::TooManyRedirects,
    {
        RedirectAction { inner: Action::TooManyRedirects }
    }
}

/// A caller-supplied redirect policy.
///
/// `spec_decide` is the policy's mathematical decision function and
/// `decide` must return exactly that decision. An implementation outside
/// verified code is trusted to meet this contract; the engine imposes no
/// loop or limit detection of its own on a custom policy.
pub trait CustomPolicy {
    /// The decision owed on a candidate URL and a visited history.
    spec fn spec_decide(&self, next: Seq<char>, previous: Seq<Seq<char>>) -> Action;

    /// Decide on one redirect attempt.
    fn decide(&self, attempt: RedirectAttempt<'_>) -> (r: RedirectAction)
        ensures
            r@ == self.spec_decide(attempt@.0, attempt@.1),
    ;
}

/// The custom-policy slot of a client that uses only built-in policies.
pub struct NoCustom;

impl CustomPolicy for NoCustom {
    open spec fn spec_decide(&self, next: Seq<char>, previous: Seq<Seq<char>>) -> Action {
        Action::Stop
    }

    fn decide(&self, attempt: RedirectAttempt<'_>) -> (r: RedirectAction) {
        attempt.stop()
    }
}

enum Policy<C: CustomPolicy> {
    Custom(C),
    Limit(usize),
    NoFollow,
}

/// A type that controls the policy on how to handle the following of
/// redirects.
///
/// The default value will catch redirect loops, and has a maximum of 10
/// redirects it will follow in a chain before returning an error.
pub struct RedirectPolicy<C: CustomPolicy> {
    inner: Policy<C>,
}

/// The decision the policy owes on a candidate URL and a visited history:
/// a custom policy decides for itself; a limit policy reports the limit
/// once the history has used it up, else a loop once the candidate was
/// already visited, else follows; the no-follow policy always stops.
pub closed spec fn policy_action<C: CustomPolicy>(
    p: &RedirectPolicy<C>,
    next: Seq<char>,
    previous: Seq<Seq<char>>,
) -> Action {
    match &p.inner {
        Policy::Custom(c) => c.spec_decide(next, previous),
        Policy::Limit(max) => {
            if previous.len() == *max as nat {
                Action::TooManyRedirects
            } else if previous.contains(next) {
                Action::LoopDetected
            } else {
                Action::Follow
            }
        },
        Policy::NoFollow => Action::Stop,
    }
}

/// Whether `p` is the built-in limit policy with the given maximum.
pub closed spec fn is_limit<C: CustomPolicy>(p: &RedirectPolicy<C>, max: nat) -> bool {
    p.inner matches Policy::Limit(m) && m as nat == max
}

/// Whether `p` is the built-in policy that follows nothing.
pub closed spec fn is_no_follow<C: CustomPolicy>(p: &RedirectPolicy<C>) -> bool {
    p.inner is NoFollow
}

/// Whether `p` delegates every decision to the custom policy `c`.
pub closed spec fn is_custom<C: CustomPolicy>(p: &RedirectPolicy<C>, c: C) -> bool {
    p.inner matches Policy::Custom(cc) && cc == c
}

impl RedirectPolicy<NoCustom> {
    /// Create a `RedirectPolicy` with a maximum number of redirects.
    ///
    /// A [`crate::error::Kind::TooManyRedirects`] error will be returned
    /// by the engine if the max is reached.
    pub fn limited(max: usize) -> (r: RedirectPolicy<NoCustom>)
        ensures
            is_limit(&r, max as nat),
    {
        RedirectPolicy { inner: Policy::Limit(max) }
    }

    /// Create a `RedirectPolicy` that does not follow any redirect.
    pub fn none() -> (r: RedirectPolicy<NoCustom>)
        ensures
            is_no_follow(&r),
    {
        RedirectPolicy { inner: Policy::NoFollow }
    }
}

impl Default for RedirectPolicy<NoCustom> {
    /// The default policy: a limit of 10 redirects, with loop detection.
    fn default() -> (r: Self)
        ensures
            is_limit(&r, 10),
    {
        RedirectPolicy::limited(10)
    }
}

impl<C: CustomPolicy> RedirectPolicy<C> {
    /// Create a custom `RedirectPolicy` using the passed decision
    /// function.
    ///
    /// The default `RedirectPolicy` handles redirect loops and a maximum
    /// loop chain, but the custom variant does not do that for you
    /// automatically: the custom policy should have some way of handling
    /// those, and there are [`Action`] variants for both cases that can be
    /// used as return values.
    pub fn custom(policy: C) -> (r: RedirectPolicy<C>)
        ensures
            is_custom(&r, policy),
    {
        RedirectPolicy { inner: Policy::Custom(policy) }
    }

    /// Decide on one redirect attempt.
    pub fn redirect(&self, attempt: RedirectAttempt<'_>) -> (r: RedirectAction)
        ensures
            r@ == policy_action(self, attempt@.0, attempt@.1),
    {
        match &self.inner {
            Policy::Custom(custom) => custom.decide(attempt),
            Policy::Limit(max) => {
                if attempt.previous.len() == *max {
                    attempt.too_many_redirects()
                } else if history_contains(attempt.previous, attempt.next) {
                    attempt.loop_detected()
                } else {
                    attempt.follow()
                }
            },
            Policy::NoFollow => attempt.stop(),
        }
    }
}

/// Whether the candidate URL already appears in the visited history.
fn history_contains(previous: &[Url], next: &Url) -> (r: bool)
    ensures
        r == urls_view(previous@).contains(next@),
{
    let mut i: usize = 0;
    while i < previous.len()
        invariant
            i <= previous@.len(),
            forall|j: int| 0 <= j < i ==> urls_view(previous@)[j] != next@,
        decreases previous@.len() - i,
    {
        if &previous[i] == next {
            proof {
                assert(urls_view(previous@)[i as int] == next@);
            }
            return true;
        }
        i += 1;
    }
    proof {
        assert(forall|j: int|
            0 <= j < urls_view(previous@).len() ==> urls_view(previous@)[j] != next@);
    }
    false
}

/// Evaluate a policy on a candidate URL and a visited history.
pub fn check_redirect<C: CustomPolicy>(policy: &RedirectPolicy<C>, next: &Url, previous: &[Url])
    -> (r: Action)
    ensures
        r == policy_action(policy, next@, urls_view(previous@)),
{
    policy.redirect(RedirectAttempt { next, previous }).action()
}

/// A limit policy whose history has reached its maximum reports
/// `TooManyRedirects`, whether or not the candidate is novel.
pub proof fn lemma_limit_reached<C: CustomPolicy>(
    p: &RedirectPolicy<C>,
    max: nat,
    next: Seq<char>,
    previous: Seq<Seq<char>>,
)
    requires
        is_limit(p, max),
        previous.len() == max,
    ensures
        policy_action(p, next, previous) == Action::TooManyRedirects,
{
}

/// A limit policy whose history holds the candidate but has not reached
/// its maximum reports `LoopDetected`: the limit check takes precedence
/// only once the limit is reached.
pub proof fn lemma_loop_detected<C: CustomPolicy>(
    p: &RedirectPolicy<C>,
    max: nat,
    next: Seq<char>,
    previous: Seq<Seq<char>>,
)
    requires
        is_limit(p, max),
        previous.len() < max,
        previous.contains(next),
    ensures
        policy_action(p, next, previous) == Action::LoopDetected,
{
}

/// A limit policy follows exactly the novel candidates, and only while
/// the history's length differs from its maximum.
pub proof fn lemma_limit_follows_novel<C: CustomPolicy>(
    p: &RedirectPolicy<C>,
    max: nat,
    next: Seq<char>,
    previous: Seq<Seq<char>>,
)
    requires
        is_limit(p, max),
    ensures
        policy_action(p, next, previous) == Action::Follow <==> previous.len() != max
            && !previous.contains(next),
{
}

/// The policy that follows nothing stops on every input.
pub proof fn lemma_none_stops<C: CustomPolicy>(
    p: &RedirectPolicy<C>,
    next: Seq<char>,
    previous: Seq<Seq<char>>,
)
    requires
        is_no_follow(p),
    ensures
        policy_action(p, next, previous) == Action::Stop,
{
}

/// A custom policy's decision is its own: the engine adds nothing to it.
pub proof fn lemma_custom_decides<C: CustomPolicy>(
    p: &RedirectPolicy<C>,
    c: C,
    next: Seq<char>,
    previous: Seq<Seq<char>>,
)
    requires
        is_custom(p, c),
    ensures
        policy_action(p, next, previous) == c.spec_decide(next, previous),
{
}

} // verus!
