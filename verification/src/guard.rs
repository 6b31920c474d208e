//! The guard of a resource server: a strategy chain under another name.

use vstd::prelude::*;
use http::request::Parts;
use crate::error::AuthError;
use crate::policy::AuthPolicy;
use crate::held::Held;
use crate::strategy::{chain_admits, run_chain, AuthenticationStrategy, ChainLink};

verus! {

/// Guards routes with an ordered chain of strategies and a policy.
#[verifier::reject_recursive_types(I)]
pub struct AuthkestraGuard<I> {
    strategies: Vec<ChainLink<I>>,
    policy: AuthPolicy,
}

impl<I> AuthkestraGuard<I> {
    /// The strategies of the guard, in the order in which they are asked.
    pub closed spec fn strategies(&self) -> Seq<ChainLink<I>> {
        self.strategies@
    }

    /// The policy of the guard.
    pub closed spec fn spec_policy(&self) -> AuthPolicy {
        self.policy
    }

    /// A builder with no strategy and the default policy.
    pub fn builder() -> (builder: AuthkestraGuardBuilder<I>)
        ensures
            builder.strategies().len() == 0,
            builder.spec_policy() == AuthPolicy::FirstSuccess,
    {
        AuthkestraGuardBuilder { strategies: Vec::new(), policy: AuthPolicy::FirstSuccess }
    }

    /// Authenticates the request with the configured strategies and policy.
    pub fn authenticate(&self, parts: &Parts) -> (answer: Result<Option<I>, AuthError>)
        ensures
            chain_admits(self.strategies(), self.spec_policy(), *parts, answer),
            self.strategies().len() == 0 ==> answer == Ok::<Option<I>, AuthError>(None),
    {
        run_chain(&self.strategies, self.policy, parts)
    }
}

/// Collects the strategies and the policy of an [`AuthkestraGuard`].
#[verifier::reject_recursive_types(I)]
pub struct AuthkestraGuardBuilder<I> {
    strategies: Vec<ChainLink<I>>,
    policy: AuthPolicy,
}

impl<I> AuthkestraGuardBuilder<I> {
    /// The strategies added so far.
    pub closed spec fn strategies(&self) -> Seq<ChainLink<I>> {
        self.strategies@
    }

    /// The policy chosen so far.
    pub closed spec fn spec_policy(&self) -> AuthPolicy {
        self.policy
    }

    /// Appends a strategy to the chain.
    pub fn strategy(self, strategy: Box<dyn AuthenticationStrategy<I>>) -> (builder: Self)
        ensures
            builder.strategies().len() == self.strategies().len() + 1,
            builder.strategies().drop_last() == self.strategies(),
            builder.strategies().last().inner == strategy,
            builder.spec_policy() == self.spec_policy(),
    {
        let link = Held::new(strategy);
        self.with_link(link)
    }

    /// Appends a strategy that is held in a link already. For a caller that
    /// reasons about the chain it builds, the link is the strategy's name:
    /// the chain's contract speaks of the very link that was appended.
    pub fn with_link(self, link: ChainLink<I>) -> (builder: Self)
        ensures
            builder.strategies() == self.strategies().push(link),
            builder.strategies().len() == self.strategies().len() + 1,
            builder.strategies().drop_last() == self.strategies(),
            builder.strategies().last() == link,
            builder.spec_policy() == self.spec_policy(),
    {
        let mut strategies = self.strategies;
        strategies.push(link);
        proof {
            assert(strategies@.drop_last() =~= self.strategies());
        }
        AuthkestraGuardBuilder { strategies, policy: self.policy }
    }

    /// Sets the policy.
    pub fn policy(self, policy: AuthPolicy) -> (builder: Self)
        ensures
            builder.strategies() == self.strategies(),
            builder.spec_policy() == policy,
    {
        AuthkestraGuardBuilder { strategies: self.strategies, policy }
    }

    /// Finishes the guard.
    pub fn build(self) -> (guard: AuthkestraGuard<I>)
        ensures
            guard.strategies() == self.strategies(),
            guard.spec_policy() == self.spec_policy(),
    {
        AuthkestraGuard { strategies: self.strategies, policy: self.policy }
    }
}

impl<I> Default for AuthkestraGuardBuilder<I> {
    fn default() -> (builder: Self)
        ensures
            builder.strategies().len() == 0,
            builder.spec_policy() == AuthPolicy::FirstSuccess,
    {
        AuthkestraGuardBuilder { strategies: Vec::new(), policy: AuthPolicy::FirstSuccess }
    }
}

} // verus!
