//! The service that holds the configured providers, the session store and
//! the token manager.

use vstd::prelude::*;
use crate::error::AuthError;
use crate::flow::ErasedOAuthFlow;
use crate::held::Shared;
use std::sync::Arc;
use crate::session::{
    create_admits, create_session, is_default_config, Session, SessionConfig, SessionStore,
};
use crate::state::Identity;
use crate::text_map::TextMap;

verus! {

/// A login flow as the service keeps it.
pub type RegisteredFlow = Shared<dyn ErasedOAuthFlow>;

/// Marks a component that has not been configured.
#[derive(Clone, Copy, Debug, Default)]
pub struct Missing;

/// Holds a component that has been configured.
#[derive(Clone, Debug)]
pub struct Configured<T>(pub T);

/// The authentication service: login flows by provider id, and, where
/// configured, a session store and a token manager.
pub struct Authkestra<S = Missing, T = Missing> {
    /// The login flows, by provider id.
    pub providers: TextMap<RegisteredFlow>,
    /// The session store, or `Missing`.
    pub session_store: S,
    /// How session cookies are set.
    pub session_config: SessionConfig,
    /// The token manager, or `Missing`.
    pub token_manager: T,
}

impl Authkestra<Missing, Missing> {
    /// A builder with no provider, no store and no token manager.
    pub fn builder() -> (builder: AuthkestraBuilder<Missing, Missing>)
        ensures
            builder.providers@ == Map::<Seq<char>, RegisteredFlow>::empty(),
            is_default_config(builder.session_config),
    {
        AuthkestraBuilder {
            providers: TextMap::new(),
            session_store: Missing,
            session_config: SessionConfig::default(),
            token_manager: Missing,
        }
    }
}

impl<T> Authkestra<Configured<Arc<dyn SessionStore>>, T> {
    /// Creates and saves a session for `identity`, lasting for the
    /// configured maximum age, or a day if none is configured.
    pub fn create_session(&self, identity: Identity) -> (outcome: Result<Session, AuthError>)
        ensures
            create_admits(&*self.session_store.0, identity, self.session_config.max_age, outcome),
    {
        create_session(&*self.session_store.0, identity, self.session_config.max_age)
    }
}

impl<S: Clone, T: Clone> Clone for Authkestra<S, T> {
    /// A service that shares the flows of this one and holds clones of its
    /// store and its token manager.
    fn clone(&self) -> (copy: Self)
        ensures
            copy.providers@ == self.providers@,
            cloned(self.session_store, copy.session_store),
            copy.session_config == self.session_config,
            cloned(self.token_manager, copy.token_manager),
    {
        let providers = self.providers.clone();
        proof {
            assert(providers@ =~= self.providers@);
        }
        Authkestra {
            providers,
            session_store: self.session_store.clone(),
            session_config: self.session_config.clone(),
            token_manager: self.token_manager.clone(),
        }
    }
}

/// `after` is `before` with a flow registered under `id`: it has that id,
/// and every other id has the flow it had.
pub open spec fn registered(
    before: Map<Seq<char>, RegisteredFlow>,
    after: Map<Seq<char>, RegisteredFlow>,
    id: Seq<char>,
) -> bool {
    &&& after.dom() == before.dom().insert(id)
    &&& forall|other: Seq<char>|
        other != id && before.dom().contains(other) ==> #[trigger] after[other] == before[other]
}

/// Collects the parts of an [`Authkestra`].
pub struct AuthkestraBuilder<S, T> {
    /// The login flows, by provider id.
    pub providers: TextMap<RegisteredFlow>,
    /// The session store, or `Missing`.
    pub session_store: S,
    /// How session cookies are set.
    pub session_config: SessionConfig,
    /// The token manager, or `Missing`.
    pub token_manager: T,
}

impl<S, T> AuthkestraBuilder<S, T> {
    /// Registers a login flow under the id of its provider, replacing a flow
    /// registered under the same id. Every other flow stays as it is.
    pub fn provider(self, flow: Arc<dyn ErasedOAuthFlow>) -> (builder: Self)
        ensures
            exists|id: Seq<char>|
                #[trigger] flow.id_admits(id) && registered(
                    self.providers@,
                    builder.providers@,
                    id,
                ) && builder.providers@[id].inner == flow,
            builder.session_store == self.session_store,
            builder.session_config == self.session_config,
            builder.token_manager == self.token_manager,
    {
        let id = flow.provider_id();
        let ghost name = id@;
        let held = Shared::new(flow);
        let builder = self.provider_held(id, held);
        proof {
            assert(flow.id_admits(name) && registered(self.providers@, builder.providers@, name)
                && builder.providers@[name].inner == flow);
        }
        builder
    }

    /// Registers under `id` a login flow that is held already, replacing a
    /// flow registered under the same id.
    pub fn provider_held(self, id: String, flow: RegisteredFlow) -> (builder: Self)
        ensures
            builder.providers@ == self.providers@.insert(id@, flow),
            registered(self.providers@, builder.providers@, id@),
            builder.providers@[id@] == flow,
            builder.session_store == self.session_store,
            builder.session_config == self.session_config,
            builder.token_manager == self.token_manager,
    {
        let mut providers = self.providers;
        providers.insert(id, flow);
        AuthkestraBuilder {
            providers,
            session_store: self.session_store,
            session_config: self.session_config,
            token_manager: self.token_manager,
        }
    }

    /// Sets the session store.
    pub fn session_store(self, store: Arc<dyn SessionStore>) -> (builder: AuthkestraBuilder<
        Configured<Arc<dyn SessionStore>>,
        T,
    >)
        ensures
            builder.providers == self.providers,
            builder.session_store.0 == store,
            builder.session_config == self.session_config,
            builder.token_manager == self.token_manager,
    {
        let configured = Configured(store);
        AuthkestraBuilder {
            providers: self.providers,
            session_store: configured,
            session_config: self.session_config,
            token_manager: self.token_manager,
        }
    }

    /// Sets the token manager.
    pub fn token_manager<M>(self, manager: M) -> (builder: AuthkestraBuilder<S, Configured<M>>)
        ensures
            builder.providers == self.providers,
            builder.session_store == self.session_store,
            builder.session_config == self.session_config,
            builder.token_manager.0 == manager,
    {
        AuthkestraBuilder {
            providers: self.providers,
            session_store: self.session_store,
            session_config: self.session_config,
            token_manager: Configured(manager),
        }
    }

    /// Sets how session cookies are set.
    pub fn session_config(self, config: SessionConfig) -> (builder: Self)
        ensures
            builder.providers == self.providers,
            builder.session_store == self.session_store,
            builder.session_config == config,
            builder.token_manager == self.token_manager,
    {
        AuthkestraBuilder {
            providers: self.providers,
            session_store: self.session_store,
            session_config: config,
            token_manager: self.token_manager,
        }
    }

    /// Finishes the service.
    pub fn build(self) -> (service: Authkestra<S, T>)
        ensures
            service.providers == self.providers,
            service.session_store == self.session_store,
            service.session_config == self.session_config,
            service.token_manager == self.token_manager,
    {
        Authkestra {
            providers: self.providers,
            session_store: self.session_store,
            session_config: self.session_config,
            token_manager: self.token_manager,
        }
    }
}

} // verus!
