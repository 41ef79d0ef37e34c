use vstd::prelude::*;

use crate::error::RedirectError;
use crate::target::{Target, TargetView};

verus! {

/// The decision rule a `RedirectPolicy` applies at each hop.
pub enum Policy<F> {
    /// Delegate every decision to a caller-supplied function.
    Custom(F),
    /// Follow at most this many hops, and refuse to revisit a target.
    Limit(usize),
    /// Never follow a redirect.
    NoFollow,
}

/// What a bounded policy decides for one hop: when the history has already
/// used up the whole hop budget the chain has too many redirects — this is
/// checked first, so a hop that both exhausts the budget and would loop
/// still reports `TooManyRedirects` — otherwise a next hop that was already
/// visited is a redirect loop, and any other hop is followed.
pub open spec fn decision(max: nat, next: TargetView, previous: Seq<TargetView>) -> Result<
    bool,
    RedirectError,
> {
    if previous.len() == max {
        Err(RedirectError::TooManyRedirects)
    } else if previous.contains(next) {
        Err(RedirectError::RedirectLoop)
    } else {
        Ok(true)
    }
}

/// A type that controls the policy on how the following of redirects is
/// handled.
///
/// The default value will catch redirect loops, and has a maximum of 10
/// redirects it will follow in a chain before returning an error.
pub struct RedirectPolicy<F> {
    inner: Policy<F>,
}

impl<F> RedirectPolicy<F> {
    /// The decision rule this policy was built with.
    pub closed spec fn policy(&self) -> Policy<F> {
        self.inner
    }

    /// Create a `RedirectPolicy` with a maximum number of redirects.
    ///
    /// A `RedirectError::TooManyRedirects` is returned by `redirect` once
    /// the history reaches the maximum.
    pub fn limited(max: usize) -> (r: RedirectPolicy<F>)
        ensures
            r.policy() == Policy::<F>::Limit(max),
    {
        RedirectPolicy { inner: Policy::Limit(max) }
    }

    /// Create a `RedirectPolicy` that does not follow any redirect.
    pub fn none() -> (r: RedirectPolicy<F>)
        ensures
            r.policy() == Policy::<F>::NoFollow,
    {
        RedirectPolicy { inner: Policy::NoFollow }
    }
}

impl<F: Fn(&Target, &[Target]) -> Result<bool, RedirectError>> RedirectPolicy<F> {
    /// Create a custom `RedirectPolicy` using the passed function.
    ///
    /// The bounded policy catches redirect loops and caps the length of a
    /// chain, but the custom variant does not do that automatically: every
    /// decision, including loop and hop-count protection, is the supplied
    /// function's responsibility. `RedirectError` has variants for both
    /// cases that can be used as return values.
    pub fn custom(policy: F) -> (r: RedirectPolicy<F>)
        ensures
            r.policy() == Policy::Custom(policy),
    {
        RedirectPolicy { inner: Policy::Custom(policy) }
    }

    /// Decide whether the redirect to `next`, after the already-followed
    /// hops in `previous`, should be followed.
    ///
    /// A bounded policy answers exactly as `decision` says; a policy that
    /// never follows answers `Ok(false)` whatever its inputs; a custom
    /// policy hands back its function's answer unchanged.
    pub fn redirect(&self, next: &Target, previous: &[Target]) -> (r: Result<
        bool,
        RedirectError,
    >)
        requires
            self.policy() matches Policy::Custom(f) ==> call_requires(f, (next, previous)),
        ensures
            self.policy() matches Policy::NoFollow ==> r == Ok::<bool, RedirectError>(false),
            self.policy() matches Policy::Limit(max) ==> r == decision(
                max as nat,
                next.deep_view(),
                previous.deep_view(),
            ),
            self.policy() matches Policy::Custom(f) ==> call_ensures(f, (next, previous), r),
    {
        match &self.inner {
            Policy::Custom(f) => f(next, previous),
            Policy::Limit(max) => {
                if previous.len() == *max {
                    Err(RedirectError::TooManyRedirects)
                } else if contains_target(previous, next) {
                    Err(RedirectError::RedirectLoop)
                } else {
                    Ok(true)
                }
            },
            Policy::NoFollow => Ok(false),
        }
    }
}

impl<F> Default for RedirectPolicy<F> {
    /// The default policy: bounded, with a maximum of exactly 10 redirects.
    fn default() -> (r: RedirectPolicy<F>)
        ensures
            r.policy() == Policy::<F>::Limit(10),
    {
        RedirectPolicy::limited(10)
    }
}

/// Hop budget first: once the history has used up the whole budget, a
/// bounded policy reports `TooManyRedirects`, whether or not the next hop
/// would also loop.
pub proof fn lemma_hop_budget(max: nat, next: TargetView, previous: Seq<TargetView>)
    requires
        previous.len() == max,
    ensures
        decision(max, next, previous) == Err::<bool, RedirectError>(
            RedirectError::TooManyRedirects,
        ),
{
}

/// Loop precedence: while the history is still shorter than the maximum, a
/// next hop that was already visited is reported as `RedirectLoop`.
pub proof fn lemma_loop_precedence(max: nat, next: TargetView, previous: Seq<TargetView>)
    requires
        previous.len() < max,
        previous.contains(next),
    ensures
        decision(max, next, previous) == Err::<bool, RedirectError>(RedirectError::RedirectLoop),
{
}

/// Idempotence of the decision: `redirect` under a bounded or never-follow
/// policy pins its result to one function of the inputs — the contract
/// forces any two results for identical inputs, here `one` and `other`, to
/// be identical.
pub proof fn lemma_decision_idempotent<F>(
    policy: RedirectPolicy<F>,
    next: TargetView,
    previous: Seq<TargetView>,
    one: Result<bool, RedirectError>,
    other: Result<bool, RedirectError>,
)
    requires
        !(policy.policy() matches Policy::Custom(_)),
        policy.policy() matches Policy::NoFollow ==> one == Ok::<bool, RedirectError>(false)
            && other == Ok::<bool, RedirectError>(false),
        policy.policy() matches Policy::Limit(max) ==> one == decision(max as nat, next, previous)
            && other == decision(max as nat, next, previous),
    ensures
        one == other,
{
}

/// Whether `history` holds a target structurally equal to `next`.
fn contains_target(history: &[Target], next: &Target) -> (r: bool)
    ensures
        r == history.deep_view().contains(next.deep_view()),
{
    let ghost views = history.deep_view();
    let mut i: usize = 0;
    while i < history.len()
        invariant
            0 <= i <= history.len(),
            views == history.deep_view(),
            forall|j: int| 0 <= j < i ==> views[j] != next.deep_view(),
        decreases history.len() - i,
    {
        if history[i] == *next {
            assert(views[i as int] == next.deep_view());
            return true;
        }
        i += 1;
    }
    assert(forall|j: int| 0 <= j < views.len() ==> views[j] != next.deep_view());
    false
}

} // verus!
