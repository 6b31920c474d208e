use vstd::prelude::*;
use crate::error::AuthError;

verus! {

/// How a chain of strategies combines the outcomes of its members.
#[derive(Debug, Clone, Copy, PartialEq, Eq, Structural)]
pub enum AuthPolicy {
    /// Strategies are tried in order and the first identity wins. An error
    /// from any strategy ends the chain with that error.
    FirstSuccess,
    /// Every strategy has to produce an identity; the identity of the last one
    /// is kept. The first strategy without credentials ends the chain with
    /// `None`, the first error ends it with that error.
    AllSuccess,
    /// Only the first configured strategy is consulted.
    FailFast,
}

impl Default for AuthPolicy {
    fn default() -> (policy: AuthPolicy)
        ensures
            policy == AuthPolicy::FirstSuccess,
    {
        AuthPolicy::FirstSuccess
    }
}

impl AuthPolicy {
    /// Whether the chain stops once a strategy has answered `outcome`.
    pub open spec fn spec_settles<I>(self, outcome: Result<Option<I>, AuthError>) -> bool {
        match self {
            AuthPolicy::FirstSuccess => !(outcome matches Ok(None)),
            AuthPolicy::AllSuccess => !(outcome matches Ok(Some(_))),
            AuthPolicy::FailFast => true,
        }
    }

    /// Decides, after a strategy has answered, whether the chain is over.
    ///
    /// A driver consults the strategies in order, keeps the latest outcome and
    /// stops when this returns `true` or no strategy is left; the outcome it
    /// holds then is the chain's answer.
    pub fn settles<I>(&self, outcome: &Result<Option<I>, AuthError>) -> (stop: bool)
        ensures
            stop == self.spec_settles(*outcome),
    {
        match self {
            AuthPolicy::FirstSuccess => match outcome {
                Ok(None) => false,
                _ => true,
            },
            AuthPolicy::AllSuccess => match outcome {
                Ok(Some(_)) => false,
                _ => true,
            },
            AuthPolicy::FailFast => true,
        }
    }
}

/// The answer of a chain whose strategies, asked in order, would answer
/// `outcomes`: the outcome of the last strategy that is consulted, and
/// `Ok(None)` for an empty chain.
pub open spec fn chain_result<I>(policy: AuthPolicy, outcomes: Seq<Result<Option<I>, AuthError>>)
    -> Result<Option<I>, AuthError>
    decreases outcomes.len(),
{
    if outcomes.len() == 0 {
        Ok(None)
    } else if policy.spec_settles(outcomes[0]) || outcomes.len() == 1 {
        outcomes[0]
    } else {
        chain_result(policy, outcomes.drop_first())
    }
}

/// How many strategies the chain consults before it answers.
pub open spec fn chain_consulted<I>(
    policy: AuthPolicy,
    outcomes: Seq<Result<Option<I>, AuthError>>,
) -> nat
    decreases outcomes.len(),
{
    if outcomes.len() == 0 {
        0
    } else if policy.spec_settles(outcomes[0]) {
        1
    } else {
        1 + chain_consulted(policy, outcomes.drop_first())
    }
}

/// Under `FirstSuccess`, when the strategies before position `k` found no
/// credentials and strategy `k` produced `identity`, the chain answers with
/// `identity`, whatever the strategies after `k` would have answered, and
/// consults none of them.
pub proof fn lemma_first_success_takes_first_identity<I>(
    outcomes: Seq<Result<Option<I>, AuthError>>,
    k: int,
    identity: I,
)
    requires
        0 <= k < outcomes.len(),
        outcomes[k] == Ok::<Option<I>, AuthError>(Some(identity)),
        forall|j: int| 0 <= j < k ==> outcomes[j] == Ok::<Option<I>, AuthError>(None),
    ensures
        chain_result(AuthPolicy::FirstSuccess, outcomes) == Ok::<Option<I>, AuthError>(
            Some(identity),
        ),
        chain_consulted(AuthPolicy::FirstSuccess, outcomes) == k + 1,
    decreases k,
{
    if k > 0 {
        let rest = outcomes.drop_first();
        assert(rest[k - 1] == outcomes[k]);
        assert forall|j: int| 0 <= j < k - 1 implies rest[j] == Ok::<Option<I>, AuthError>(
            None,
        ) by {
            assert(rest[j] == outcomes[j + 1]);
        }
        lemma_first_success_takes_first_identity(rest, k - 1, identity);
    }
}

/// Under `FirstSuccess`, the first error ends the chain with that error when
/// the strategies before it found no credentials; no later strategy is tried.
pub proof fn lemma_first_success_stops_at_error<I>(
    outcomes: Seq<Result<Option<I>, AuthError>>,
    k: int,
    error: AuthError,
)
    requires
        0 <= k < outcomes.len(),
        outcomes[k] == Err::<Option<I>, AuthError>(error),
        forall|j: int| 0 <= j < k ==> outcomes[j] == Ok::<Option<I>, AuthError>(None),
    ensures
        chain_result(AuthPolicy::FirstSuccess, outcomes) == Err::<Option<I>, AuthError>(error),
        chain_consulted(AuthPolicy::FirstSuccess, outcomes) == k + 1,
    decreases k,
{
    if k > 0 {
        let rest = outcomes.drop_first();
        assert(rest[k - 1] == outcomes[k]);
        assert forall|j: int| 0 <= j < k - 1 implies rest[j] == Ok::<Option<I>, AuthError>(
            None,
        ) by {
            assert(rest[j] == outcomes[j + 1]);
        }
        lemma_first_success_stops_at_error(rest, k - 1, error);
    }
}

/// Under `FirstSuccess`, a chain in which no strategy finds credentials
/// answers `None`.
pub proof fn lemma_first_success_all_absent<I>(outcomes: Seq<Result<Option<I>, AuthError>>)
    requires
        forall|j: int| 0 <= j < outcomes.len() ==> outcomes[j] == Ok::<Option<I>, AuthError>(None),
    ensures
        chain_result(AuthPolicy::FirstSuccess, outcomes) == Ok::<Option<I>, AuthError>(None),
    decreases outcomes.len(),
{
    if outcomes.len() > 1 {
        let rest = outcomes.drop_first();
        assert forall|j: int| 0 <= j < rest.len() implies rest[j] == Ok::<Option<I>, AuthError>(
            None,
        ) by {
            assert(rest[j] == outcomes[j + 1]);
        }
        lemma_first_success_all_absent(rest);
    }
}

/// Under `AllSuccess`, when strategy `k` finds no credentials and no strategy
/// before it failed, the chain answers `None`, even if a later strategy would
/// produce an identity.
pub proof fn lemma_all_success_needs_every_strategy<I>(
    outcomes: Seq<Result<Option<I>, AuthError>>,
    k: int,
)
    requires
        0 <= k < outcomes.len(),
        outcomes[k] == Ok::<Option<I>, AuthError>(None),
        forall|j: int| 0 <= j < k ==> outcomes[j] is Ok,
    ensures
        chain_result(AuthPolicy::AllSuccess, outcomes) == Ok::<Option<I>, AuthError>(None),
    decreases k,
{
    if k > 0 && !AuthPolicy::AllSuccess.spec_settles(outcomes[0]) {
        let rest = outcomes.drop_first();
        assert(rest[k - 1] == outcomes[k]);
        assert forall|j: int| 0 <= j < k - 1 implies rest[j] is Ok by {
            assert(rest[j] == outcomes[j + 1]);
        }
        lemma_all_success_needs_every_strategy(rest, k - 1);
    }
}

/// Under `AllSuccess`, when every strategy produces an identity, the chain
/// answers with the identity of the last strategy.
pub proof fn lemma_all_success_keeps_last_identity<I>(outcomes: Seq<Result<Option<I>, AuthError>>)
    requires
        outcomes.len() > 0,
        forall|j: int|
            0 <= j < outcomes.len() ==> (#[trigger] outcomes[j]) matches Ok(Some(_)),
    ensures
        chain_result(AuthPolicy::AllSuccess, outcomes) == outcomes.last(),
        chain_consulted(AuthPolicy::AllSuccess, outcomes) == outcomes.len(),
    decreases outcomes.len(),
{
    if outcomes.len() > 1 {
        let rest = outcomes.drop_first();
        assert forall|j: int| 0 <= j < rest.len() implies (#[trigger] rest[j]) matches Ok(
            Some(_),
        ) by {
            assert(rest[j] == outcomes[j + 1]);
        }
        lemma_all_success_keeps_last_identity(rest);
        assert(rest.last() == outcomes.last());
    } else {
        assert(chain_consulted(AuthPolicy::AllSuccess, outcomes.drop_first()) == 0);
    }
    assert(outcomes[0] matches Ok(Some(_)));
}

/// Under `FailFast`, the chain's answer is the first strategy's answer, and
/// two chains that agree on their first strategy agree on their answer.
pub proof fn lemma_fail_fast_is_first_strategy<I>(
    outcomes: Seq<Result<Option<I>, AuthError>>,
    others: Seq<Result<Option<I>, AuthError>>,
)
    requires
        outcomes.len() > 0,
        others.len() > 0,
        outcomes[0] == others[0],
    ensures
        chain_result(AuthPolicy::FailFast, outcomes) == outcomes[0],
        chain_result(AuthPolicy::FailFast, others) == chain_result(AuthPolicy::FailFast, outcomes),
        chain_consulted(AuthPolicy::FailFast, outcomes) == 1,
{
}

/// The chain's answer depends only on the strategies it consults: a chain
/// that agrees with `outcomes` on that many leading strategies, and is no
/// shorter, gives the same answer.
pub proof fn lemma_chain_ignores_unconsulted<I>(
    policy: AuthPolicy,
    outcomes: Seq<Result<Option<I>, AuthError>>,
    others: Seq<Result<Option<I>, AuthError>>,
)
    requires
        chain_consulted(policy, outcomes) < outcomes.len(),
        others.len() >= chain_consulted(policy, outcomes),
        forall|j: int|
            0 <= j < chain_consulted(policy, outcomes) ==> others[j] == outcomes[j],
    ensures
        chain_result(policy, others) == chain_result(policy, outcomes),
        chain_consulted(policy, others) == chain_consulted(policy, outcomes),
    decreases outcomes.len(),
{
    assert(others[0] == outcomes[0]);
    if !policy.spec_settles(outcomes[0]) {
        let rest = outcomes.drop_first();
        let other_rest = others.drop_first();
        assert forall|j: int| 0 <= j < chain_consulted(policy, rest) implies other_rest[j]
            == rest[j] by {
            assert(other_rest[j] == others[j + 1]);
            assert(rest[j] == outcomes[j + 1]);
        }
        lemma_chain_ignores_unconsulted(policy, rest, other_rest);
    }
}

/// When no outcome but the last settles the chain, the chain consults every
/// strategy and answers with the last outcome.
pub proof fn lemma_chain_runs_to_last<I>(
    policy: AuthPolicy,
    outcomes: Seq<Result<Option<I>, AuthError>>,
)
    requires
        outcomes.len() > 0,
        forall|j: int| 0 <= j < outcomes.len() - 1 ==> !policy.spec_settles(outcomes[j]),
    ensures
        chain_result(policy, outcomes) == outcomes.last(),
    decreases outcomes.len(),
{
    if outcomes.len() > 1 {
        let rest = outcomes.drop_first();
        assert forall|j: int| 0 <= j < rest.len() - 1 implies !policy.spec_settles(rest[j]) by {
            assert(rest[j] == outcomes[j + 1]);
        }
        lemma_chain_runs_to_last(policy, rest);
        assert(rest.last() == outcomes.last());
    }
}

} // verus!
