//! Authentication strategies and the chain that combines them.

use vstd::prelude::*;
use vstd::string::StringExecFns;
use std::marker::PhantomData;
use http::header::HeaderName;
use http::request::Parts;
use crate::error::AuthError;
use crate::held::Held;
use crate::policy::{chain_result, lemma_chain_runs_to_last, AuthPolicy};
use crate::request::{header_name_text, header_str, header_text, parts_headers, request_fields};
use crate::utils::{
    basic_credentials, bearer_token, cookie_value, extract_basic_credentials,
    extract_bearer_token, extract_cookie,
};

verus! {

/// One way of recognising who sent a request.
///
/// The answer is `Ok(Some(identity))` when credentials were found and
/// accepted, `Ok(None)` when the request carries nothing this strategy looks
/// at, and `Err(..)` when it carries credentials that the strategy rejects or
/// cannot check.
pub trait AuthenticationStrategy<I>: Send + Sync {
    /// The answers that this strategy may give to `parts`. Unless a
    /// strategy says more, any answer is possible.
    open spec fn admits(&self, parts: Parts, outcome: Result<Option<I>, AuthError>) -> bool {
        true
    }

    /// Attempts to authenticate the request.
    fn authenticate(&self, parts: &Parts) -> (outcome: Result<Option<I>, AuthError>)
        ensures
            self.admits(*parts, outcome),
    ;
}

/// One strategy of a chain, whatever its type.
pub type ChainLink<I> = Held<dyn AuthenticationStrategy<I>>;

/// `outcomes` lists, in order, what the strategies that a chain consulted
/// answered to `parts`: each answer is one its strategy may give, none but
/// the last settles the chain, and the chain stops short of its end only on
/// an answer that settles it.
pub open spec fn chain_explains<I>(
    strategies: Seq<ChainLink<I>>,
    policy: AuthPolicy,
    parts: Parts,
    outcomes: Seq<Result<Option<I>, AuthError>>,
) -> bool {
    &&& outcomes.len() <= strategies.len()
    &&& forall|k: int|
        0 <= k < outcomes.len() ==> (#[trigger] strategies[k]).inner.admits(parts, outcomes[k])
    &&& forall|k: int| 0 <= k < outcomes.len() - 1 ==> !policy.spec_settles(#[trigger] outcomes[k])
    &&& outcomes.len() < strategies.len() ==> outcomes.len() > 0 && policy.spec_settles(
        outcomes.last(),
    )
}

/// `answer` is what the chain may answer to `parts`: the result of the policy
/// over the answers of the strategies it consulted.
pub open spec fn chain_admits<I>(
    strategies: Seq<ChainLink<I>>,
    policy: AuthPolicy,
    parts: Parts,
    answer: Result<Option<I>, AuthError>,
) -> bool {
    exists|outcomes: Seq<Result<Option<I>, AuthError>>|
        #[trigger] chain_explains(strategies, policy, parts, outcomes) && answer == chain_result(
            policy,
            outcomes,
        )
}

/// The answer of a `FirstSuccess` chain is the answer of one of its
/// strategies, all strategies before which found no credentials, unless it is
/// `None`: then every strategy of the chain found none.
pub proof fn lemma_first_success_answer<I>(
    strategies: Seq<ChainLink<I>>,
    parts: Parts,
    answer: Result<Option<I>, AuthError>,
)
    requires
        chain_admits(strategies, AuthPolicy::FirstSuccess, parts, answer),
    ensures
        answer == Ok::<Option<I>, AuthError>(None) ==> forall|j: int|
            0 <= j < strategies.len() ==> (#[trigger] strategies[j]).inner.admits(
                parts,
                Ok::<Option<I>, AuthError>(None),
            ),
        answer != Ok::<Option<I>, AuthError>(None) ==> exists|k: int|
            0 <= k < strategies.len() && (#[trigger] strategies[k]).inner.admits(parts, answer)
                && forall|j: int|
                0 <= j < k ==> (#[trigger] strategies[j]).inner.admits(
                    parts,
                    Ok::<Option<I>, AuthError>(None),
                ),
{
    let policy = AuthPolicy::FirstSuccess;
    let outcomes = choose|outcomes: Seq<Result<Option<I>, AuthError>>|
        #[trigger] chain_explains(strategies, policy, parts, outcomes) && answer == chain_result(
            policy,
            outcomes,
        );
    if outcomes.len() > 0 {
        lemma_chain_runs_to_last(policy, outcomes);
        let k = outcomes.len() - 1;
        assert(strategies[k].inner.admits(parts, outcomes[k]));
        assert forall|j: int| 0 <= j < k implies (#[trigger] strategies[j]).inner.admits(
            parts,
            Ok::<Option<I>, AuthError>(None),
        ) by {
            assert(strategies[j].inner.admits(parts, outcomes[j]));
            assert(!policy.spec_settles(outcomes[j]));
        }
    }
}

/// Whether the strategy at position `j` may answer `parts` with an identity.
pub open spec fn may_identify<I>(
    strategies: Seq<ChainLink<I>>,
    j: int,
    parts: Parts,
) -> bool {
    exists|identity: I| #[trigger]
        strategies[j].inner.admits(parts, Ok::<Option<I>, AuthError>(Some(identity)))
}

/// The answer of an `AllSuccess` chain is the answer of one of its
/// strategies, all strategies before which produced an identity; an identity
/// is the answer of the last strategy of the chain.
pub proof fn lemma_all_success_answer<I>(
    strategies: Seq<ChainLink<I>>,
    parts: Parts,
    answer: Result<Option<I>, AuthError>,
)
    requires
        chain_admits(strategies, AuthPolicy::AllSuccess, parts, answer),
        strategies.len() > 0,
    ensures
        exists|k: int|
            0 <= k < strategies.len() && (#[trigger] strategies[k]).inner.admits(parts, answer)
                && forall|j: int| 0 <= j < k ==> #[trigger] may_identify(strategies, j, parts),
        answer matches Ok(Some(_)) ==> strategies.last().inner.admits(parts, answer),
{
    let policy = AuthPolicy::AllSuccess;
    let outcomes = choose|outcomes: Seq<Result<Option<I>, AuthError>>|
        #[trigger] chain_explains(strategies, policy, parts, outcomes) && answer == chain_result(
            policy,
            outcomes,
        );
    lemma_chain_runs_to_last(policy, outcomes);
    let k = outcomes.len() - 1;
    assert(strategies[k].inner.admits(parts, outcomes[k]));
    assert forall|j: int| 0 <= j < k implies #[trigger] may_identify(strategies, j, parts) by {
        assert(strategies[j].inner.admits(parts, outcomes[j]));
        assert(!policy.spec_settles(outcomes[j]));
        assert(outcomes[j] matches Ok(Some(_)));
        let identity = outcomes[j]->Ok_0->Some_0;
        assert(outcomes[j] == Ok::<Option<I>, AuthError>(Some(identity)));
        assert(strategies[j].inner.admits(parts, Ok::<Option<I>, AuthError>(Some(identity))));
        assert(may_identify(strategies, j, parts));
    }
    if answer matches Ok(Some(_)) {
        assert(policy.spec_settles(outcomes[k]) == false);
        assert(outcomes.len() == strategies.len());
    }
    assert(0 <= k < strategies.len() && strategies[k].inner.admits(parts, answer) && forall|j: int|
        0 <= j < k ==> #[trigger] may_identify(strategies, j, parts));
}

/// The answer of a `FailFast` chain is the answer of its first strategy.
pub proof fn lemma_fail_fast_answer<I>(
    strategies: Seq<ChainLink<I>>,
    parts: Parts,
    answer: Result<Option<I>, AuthError>,
)
    requires
        chain_admits(strategies, AuthPolicy::FailFast, parts, answer),
        strategies.len() > 0,
    ensures
        strategies[0].inner.admits(parts, answer),
{
    let policy = AuthPolicy::FailFast;
    let outcomes = choose|outcomes: Seq<Result<Option<I>, AuthError>>|
        #[trigger] chain_explains(strategies, policy, parts, outcomes) && answer == chain_result(
            policy,
            outcomes,
        );
    lemma_chain_runs_to_last(policy, outcomes);
    if outcomes.len() > 1 {
        assert(!policy.spec_settles(outcomes[0]));
    }
    assert(strategies[0].inner.admits(parts, outcomes[0]));
}

/// Consults `strategies` in order under `policy`.
///
/// Strategies are asked one after the other; the chain stops at the first
/// answer that settles it and never asks a strategy behind that one.
pub fn run_chain<I>(
    strategies: &Vec<ChainLink<I>>,
    policy: AuthPolicy,
    parts: &Parts,
) -> (answer: Result<Option<I>, AuthError>)
    ensures
        chain_admits(strategies@, policy, *parts, answer),
        strategies@.len() == 0 ==> answer == Ok::<Option<I>, AuthError>(None),
{
    let mut answer: Result<Option<I>, AuthError> = Ok(None);
    let ghost mut outcomes: Seq<Result<Option<I>, AuthError>> = Seq::empty();
    let mut i: usize = 0;
    while i < strategies.len()
        invariant
            0 <= i <= strategies@.len(),
            outcomes.len() == i,
            forall|k: int| 0 <= k < i ==> (#[trigger] strategies@[k]).inner.admits(*parts, outcomes[k]),
            forall|k: int| 0 <= k < i ==> !policy.spec_settles(#[trigger] outcomes[k]),
            i == 0 ==> answer == Ok::<Option<I>, AuthError>(None),
            i > 0 ==> answer == outcomes.last(),
        decreases strategies@.len() - i,
    {
        let outcome = strategies[i].inner.authenticate(parts);
        let stop = policy.settles(&outcome);
        proof {
            outcomes = outcomes.push(outcome);
        }
        if stop {
            proof {
                lemma_chain_runs_to_last(policy, outcomes);
                assert(chain_explains(strategies@, policy, *parts, outcomes));
            }
            return outcome;
        }
        answer = outcome;
        i = i + 1;
    }
    proof {
        if outcomes.len() > 0 {
            lemma_chain_runs_to_last(policy, outcomes);
        }
        assert(chain_explains(strategies@, policy, *parts, outcomes));
    }
    answer
}

/// An ordered chain of strategies and the policy that combines them.
#[verifier::reject_recursive_types(I)]
pub struct Authenticator<I> {
    strategies: Vec<ChainLink<I>>,
    policy: AuthPolicy,
}

impl<I> Authenticator<I> {
    /// The strategies of the chain, in the order in which they are asked.
    pub closed spec fn strategies(&self) -> Seq<ChainLink<I>> {
        self.strategies@
    }

    /// The policy of the chain.
    pub closed spec fn spec_policy(&self) -> AuthPolicy {
        self.policy
    }

    /// A builder with no strategy and the default policy.
    pub fn builder() -> (builder: AuthenticatorBuilder<I>)
        ensures
            builder.strategies().len() == 0,
            builder.spec_policy() == AuthPolicy::FirstSuccess,
    {
        AuthenticatorBuilder { strategies: Vec::new(), policy: AuthPolicy::FirstSuccess }
    }

    /// Authenticates the request with the configured strategies and policy.
    pub fn authenticate(&self, parts: &Parts) -> (answer: Result<Option<I>, AuthError>)
        ensures
            chain_admits(self.strategies(), self.spec_policy(), *parts, answer),
            self.strategies().len() == 0 ==> answer == Ok::<Option<I>, AuthError>(None),
    {
        run_chain(&self.strategies, self.policy, parts)
    }

    /// The number of strategies in the chain.
    pub fn len(&self) -> (n: usize)
        ensures
            n == self.strategies().len(),
    {
        self.strategies.len()
    }

    /// The policy of the chain.
    pub fn policy(&self) -> (policy: AuthPolicy)
        ensures
            policy == self.spec_policy(),
    {
        self.policy
    }
}

/// Collects the strategies and the policy of an [`Authenticator`].
#[verifier::reject_recursive_types(I)]
pub struct AuthenticatorBuilder<I> {
    strategies: Vec<ChainLink<I>>,
    policy: AuthPolicy,
}

impl<I> AuthenticatorBuilder<I> {
    /// The strategies added so far.
    pub closed spec fn strategies(&self) -> Seq<ChainLink<I>> {
        self.strategies@
    }

    /// The policy chosen so far.
    pub closed spec fn spec_policy(&self) -> AuthPolicy {
        self.policy
    }

    /// Appends a strategy to the chain.
    pub fn with_strategy(self, strategy: Box<dyn AuthenticationStrategy<I>>) -> (builder: Self)
        ensures
            builder.strategies().len() == self.strategies().len() + 1,
            builder.strategies().drop_last() == self.strategies(),
            builder.strategies().last().inner == strategy,
            builder.spec_policy() == self.spec_policy(),
    {
        let link = Held::new(strategy);
        self.with_link(link)
    }

    /// Appends a strategy that is held in a link already. For a caller that
    /// reasons about the chain it builds, the link is the strategy's name:
    /// the chain's contract speaks of the very link that was appended.
    pub fn with_link(self, link: ChainLink<I>) -> (builder: Self)
        ensures
            builder.strategies() == self.strategies().push(link),
            builder.strategies().len() == self.strategies().len() + 1,
            builder.strategies().drop_last() == self.strategies(),
            builder.strategies().last() == link,
            builder.spec_policy() == self.spec_policy(),
    {
        let mut strategies = self.strategies;
        strategies.push(link);
        proof {
            assert(strategies@.drop_last() =~= self.strategies());
        }
        AuthenticatorBuilder { strategies, policy: self.policy }
    }

    /// Sets the policy.
    pub fn policy(self, policy: AuthPolicy) -> (builder: Self)
        ensures
            builder.strategies() == self.strategies(),
            builder.spec_policy() == policy,
    {
        AuthenticatorBuilder { strategies: self.strategies, policy }
    }

    /// Finishes the chain.
    pub fn build(self) -> (authenticator: Authenticator<I>)
        ensures
            authenticator.strategies() == self.strategies(),
            authenticator.spec_policy() == self.spec_policy(),
    {
        Authenticator { strategies: self.strategies, policy: self.policy }
    }
}

impl<I> Default for AuthenticatorBuilder<I> {
    fn default() -> (builder: Self)
        ensures
            builder.strategies().len() == 0,
            builder.spec_policy() == AuthPolicy::FirstSuccess,
    {
        AuthenticatorBuilder { strategies: Vec::new(), policy: AuthPolicy::FirstSuccess }
    }
}

/// Checks a user name and a password.
pub trait BasicAuthenticator: Send + Sync {
    /// The identity that an accepted pair stands for.
    type Identity;

    /// The answers that this authenticator may give to a pair. Unless an
    /// authenticator says more, any answer is possible.
    open spec fn admits(
        &self,
        username: Seq<char>,
        password: Seq<char>,
        outcome: Result<Option<Self::Identity>, AuthError>,
    ) -> bool {
        true
    }

    /// Validates the credentials.
    fn authenticate(&self, username: &str, password: &str) -> (outcome: Result<
        Option<Self::Identity>,
        AuthError,
    >)
        ensures
            self.admits(username@, password@, outcome),
    ;
}

/// Authentication by the `Authorization: Basic ...` header.
pub struct BasicStrategy<P, I> {
    authenticator: P,
    _marker: PhantomData<I>,
}

impl<P, I> BasicStrategy<P, I> {
    /// The authenticator that checks the credentials.
    pub closed spec fn authenticator(&self) -> P {
        self.authenticator
    }

    /// A strategy that hands the credentials of the header to `authenticator`.
    pub fn new(authenticator: P) -> (strategy: Self)
        ensures
            strategy.authenticator() == authenticator,
    {
        BasicStrategy { authenticator, _marker: PhantomData }
    }
}

impl<P, I> AuthenticationStrategy<I> for BasicStrategy<P, I> where
    P: BasicAuthenticator<Identity = I>,
    I: Send + Sync,
 {
    /// Without readable `Basic` credentials the answer is `Ok(None)`;
    /// otherwise it is what the authenticator answers to them.
    open spec fn admits(&self, parts: Parts, outcome: Result<Option<I>, AuthError>) -> bool {
        match header_text(request_fields(parts), "authorization"@) {
            Some(value) => match basic_credentials(value) {
                Some((username, password)) => self.authenticator().admits(
                    username,
                    password,
                    outcome,
                ),
                None => outcome == Ok::<Option<I>, AuthError>(None),
            },
            None => outcome == Ok::<Option<I>, AuthError>(None),
        }
    }

    fn authenticate(&self, parts: &Parts) -> (outcome: Result<Option<I>, AuthError>) {
        match extract_basic_credentials(parts_headers(parts)) {
            Some((username, password)) => self.authenticator.authenticate(
                username.as_str(),
                password.as_str(),
            ),
            None => Ok(None),
        }
    }
}

/// Checks a bearer token.
pub trait TokenValidator: Send + Sync {
    /// The identity that an accepted token stands for.
    type Identity;

    /// The answers that this validator may give to a token. Unless a
    /// validator says more, any answer is possible.
    open spec fn admits(
        &self,
        token: Seq<char>,
        outcome: Result<Option<Self::Identity>, AuthError>,
    ) -> bool {
        true
    }

    /// Validates the token.
    fn validate(&self, token: &str) -> (outcome: Result<Option<Self::Identity>, AuthError>)
        ensures
            self.admits(token@, outcome),
    ;
}

/// Authentication by the `Authorization: Bearer ...` header.
pub struct TokenStrategy<V, I> {
    validator: V,
    _marker: PhantomData<I>,
}

impl<V, I> TokenStrategy<V, I> {
    /// The validator that checks the token.
    pub closed spec fn validator(&self) -> V {
        self.validator
    }

    /// A strategy that hands the bearer token to `validator`.
    pub fn new(validator: V) -> (strategy: Self)
        ensures
            strategy.validator() == validator,
    {
        TokenStrategy { validator, _marker: PhantomData }
    }
}

impl<V, I> AuthenticationStrategy<I> for TokenStrategy<V, I> where
    V: TokenValidator<Identity = I>,
    I: Send + Sync,
 {
    /// Without a readable bearer token the answer is `Ok(None)`; otherwise
    /// it is what the validator answers to the token.
    open spec fn admits(&self, parts: Parts, outcome: Result<Option<I>, AuthError>) -> bool {
        match header_text(request_fields(parts), "authorization"@) {
            Some(value) => match bearer_token(value) {
                Some(token) => self.validator().admits(token, outcome),
                None => outcome == Ok::<Option<I>, AuthError>(None),
            },
            None => outcome == Ok::<Option<I>, AuthError>(None),
        }
    }

    fn authenticate(&self, parts: &Parts) -> (outcome: Result<Option<I>, AuthError>) {
        match extract_bearer_token(parts_headers(parts)) {
            Some(token) => self.validator.validate(token),
            None => Ok(None),
        }
    }
}

/// Loads the identity of a session.
pub trait SessionProvider: Send + Sync {
    /// The identity that a session stands for.
    type Identity;

    /// The answers that this provider may give for a session id. Unless a
    /// provider says more, any answer is possible.
    open spec fn admits(
        &self,
        session_id: Seq<char>,
        outcome: Result<Option<Self::Identity>, AuthError>,
    ) -> bool {
        true
    }

    /// Loads the identity that belongs to the session id.
    fn load_session(&self, session_id: &str) -> (outcome: Result<
        Option<Self::Identity>,
        AuthError,
    >)
        ensures
            self.admits(session_id@, outcome),
    ;
}

/// Authentication by a session cookie.
pub struct SessionStrategy<P, I> {
    provider: P,
    cookie_name: String,
    _marker: PhantomData<I>,
}

impl<P, I> SessionStrategy<P, I> {
    /// The provider that loads sessions.
    pub closed spec fn provider(&self) -> P {
        self.provider
    }

    /// The name of the cookie that holds the session id.
    pub closed spec fn cookie_name(&self) -> Seq<char> {
        self.cookie_name@
    }

    /// A strategy that reads the session id from the cookie `cookie_name`.
    pub fn new(provider: P, cookie_name: &str) -> (strategy: Self)
        ensures
            strategy.provider() == provider,
            strategy.cookie_name() == cookie_name@,
    {
        SessionStrategy { provider, cookie_name: String::from_str(cookie_name), _marker: PhantomData }
    }
}

impl<P, I> AuthenticationStrategy<I> for SessionStrategy<P, I> where
    P: SessionProvider<Identity = I>,
    I: Send + Sync,
 {
    /// Without the cookie the answer is `Ok(None)`; otherwise it is what the
    /// provider answers for the cookie's value.
    open spec fn admits(&self, parts: Parts, outcome: Result<Option<I>, AuthError>) -> bool {
        match header_text(request_fields(parts), "cookie"@) {
            Some(header) => match cookie_value(header, self.cookie_name()) {
                Some(session_id) => self.provider().admits(session_id, outcome),
                None => outcome == Ok::<Option<I>, AuthError>(None),
            },
            None => outcome == Ok::<Option<I>, AuthError>(None),
        }
    }

    fn authenticate(&self, parts: &Parts) -> (outcome: Result<Option<I>, AuthError>) {
        match extract_cookie(parts_headers(parts), self.cookie_name.as_str()) {
            Some(session_id) => self.provider.load_session(session_id),
            None => Ok(None),
        }
    }
}

/// Authentication by a header of the caller's choice.
#[verifier::reject_recursive_types(I)]
pub struct HeaderStrategy<F, I> where F: Fn(String) -> Result<Option<I>, AuthError> {
    header_name: HeaderName,
    validator: F,
    _marker: PhantomData<I>,
}

impl<F, I> HeaderStrategy<F, I> where F: Fn(String) -> Result<Option<I>, AuthError> {
    /// The validator accepts every header value as its input.
    #[verifier::type_invariant]
    spec fn callable(self) -> bool {
        forall|value: String| call_requires(self.validator, (value,))
    }

    /// The lower-case name of the header that is read.
    pub closed spec fn header(&self) -> Seq<char> {
        header_name_text(self.header_name)
    }

    /// The function that judges the header's value.
    pub closed spec fn validator(&self) -> F {
        self.validator
    }

    /// A strategy that hands the value of the header `header_name` to
    /// `validator`.
    pub fn new(header_name: HeaderName, validator: F) -> (strategy: Self)
        requires
            forall|value: String| call_requires(validator, (value,)),
        ensures
            strategy.header() == header_name_text(header_name),
            strategy.validator() == validator,
    {
        HeaderStrategy { header_name, validator, _marker: PhantomData }
    }
}

impl<F, I> AuthenticationStrategy<I> for HeaderStrategy<F, I> where
    F: Fn(String) -> Result<Option<I>, AuthError> + Send + Sync,
    I: Send + Sync,
 {
    /// Without the header, or with a value that is not visible ASCII, the
    /// answer is `Ok(None)`; otherwise it is what the validator returns for
    /// the value.
    open spec fn admits(&self, parts: Parts, outcome: Result<Option<I>, AuthError>) -> bool {
        match header_text(request_fields(parts), self.header()) {
            Some(value) => exists|input: String|
                input@ == value && call_ensures(self.validator(), (input,), outcome),
            None => outcome == Ok::<Option<I>, AuthError>(None),
        }
    }

    fn authenticate(&self, parts: &Parts) -> (outcome: Result<Option<I>, AuthError>) {
        proof {
            use_type_invariant(self);
        }
        match header_str(parts_headers(parts), &self.header_name) {
            Some(value) => {
                let input = String::from_str(value);
                let outcome = (self.validator)(input);
                proof {
                    assert(input@ == value@ && call_ensures(self.validator(), (input,), outcome));
                }
                outcome
            },
            None => Ok(None),
        }
    }
}

} // verus!
