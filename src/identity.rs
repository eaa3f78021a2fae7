//! Identity resolution: the stable identity id is read from its plain cache
//! entry, and fetched from the provider and stored only on a miss.
use vstd::prelude::*;

use crate::secret_store::FileCache;
use vstd::utf8::encode_utf8;

use crate::text::{lemma_text_round_trip, utf8_text};
use crate::token::ProviderError;

verus! {

/// Where identity resolution stands.
#[derive(Clone, Copy, Debug, PartialEq, Eq, Structural)]
pub enum IdentityPhase {
    /// Waiting for the stored identity entry.
    ReadingCache,
    /// Waiting for the provider to resolve the identity.
    Resolving,
    /// The identity id is known.
    Resolved,
    /// The provider could not resolve it.
    Failed,
}

/// What happened since the last action.
#[derive(Debug, PartialEq, Eq)]
pub enum IdentityEvent {
    /// The bytes of the identity entry, `None` when it is absent.
    CachedIdentity(Option<Vec<u8>>),
    /// The provider's answer to identity resolution.
    IdentityResolved(Result<String, ProviderError>),
}

/// What the caller has to do next.
#[derive(Clone, Debug, PartialEq, Eq)]
pub enum IdentityAction {
    /// Read the identity entry.
    ReadIdentity,
    /// Ask the provider to resolve the identity with the identity token.
    Resolve,
    /// Done: use this identity id, storing it first when `store` is set.
    Ready { identity_id: String, store: bool },
    /// Stop with this error.
    Fail(ProviderError),
    /// The event does not belong to the current phase; nothing changed.
    Ignore,
}

/// An `IdentityAction` with its string seen as a character sequence.
pub enum IdentityModel {
    ReadIdentity,
    Resolve,
    Ready(Seq<char>, bool),
    Fail(ProviderError),
    Ignore,
}

impl IdentityAction {
    pub open spec fn model(&self) -> IdentityModel {
        match self {
            IdentityAction::ReadIdentity => IdentityModel::ReadIdentity,
            IdentityAction::Resolve => IdentityModel::Resolve,
            IdentityAction::Ready { identity_id, store } => IdentityModel::Ready(identity_id@, *store),
            IdentityAction::Fail(e) => IdentityModel::Fail(*e),
            IdentityAction::Ignore => IdentityModel::Ignore,
        }
    }
}

/// The transition of identity resolution from `phase` on `event`. An entry
/// that is not text counts as a miss.
pub open spec fn identity_transition(phase: IdentityPhase, event: IdentityEvent) -> (
    IdentityPhase,
    IdentityModel,
) {
    match phase {
        IdentityPhase::ReadingCache => match event {
            IdentityEvent::CachedIdentity(Some(stored)) => match utf8_text(stored@) {
                Some(id) => (IdentityPhase::Resolved, IdentityModel::Ready(id, false)),
                None => (IdentityPhase::Resolving, IdentityModel::Resolve),
            },
            IdentityEvent::CachedIdentity(None) => (IdentityPhase::Resolving, IdentityModel::Resolve),
            _ => (phase, IdentityModel::Ignore),
        },
        IdentityPhase::Resolving => match event {
            IdentityEvent::IdentityResolved(Ok(id)) => (
                IdentityPhase::Resolved,
                IdentityModel::Ready(id@, true),
            ),
            IdentityEvent::IdentityResolved(Err(e)) => (IdentityPhase::Failed, IdentityModel::Fail(e)),
            _ => (phase, IdentityModel::Ignore),
        },
        _ => (phase, IdentityModel::Ignore),
    }
}

/// Identity resolution for one invocation.
pub struct IdentityResolver {
    /// Where resolution stands.
    pub phase: IdentityPhase,
}

impl IdentityResolver {
    /// Resolution that first looks in the cache.
    pub fn new() -> (r: Self)
        ensures
            r.phase == IdentityPhase::ReadingCache,
    {
        IdentityResolver { phase: IdentityPhase::ReadingCache }
    }

    /// Resolution that asks the provider right away, as account setup does.
    pub fn fetching() -> (r: Self)
        ensures
            r.phase == IdentityPhase::Resolving,
    {
        IdentityResolver { phase: IdentityPhase::Resolving }
    }

    /// The first action to perform.
    pub fn start(&self) -> (r: IdentityAction)
        ensures
            r.model() == match self.phase {
                IdentityPhase::ReadingCache => IdentityModel::ReadIdentity,
                IdentityPhase::Resolving => IdentityModel::Resolve,
                _ => IdentityModel::Ignore,
            },
    {
        match self.phase {
            IdentityPhase::ReadingCache => IdentityAction::ReadIdentity,
            IdentityPhase::Resolving => IdentityAction::Resolve,
            _ => IdentityAction::Ignore,
        }
    }

    /// Takes one event and returns the next action.
    pub fn step(&mut self, event: IdentityEvent) -> (action: IdentityAction)
        ensures
            (final(self).phase, action.model()) == identity_transition(old(self).phase, event),
    {
        match self.phase {
            IdentityPhase::ReadingCache => match event {
                IdentityEvent::CachedIdentity(Some(stored)) => match FileCache::get(stored) {
                    Ok(id) => {
                        self.phase = IdentityPhase::Resolved;
                        IdentityAction::Ready { identity_id: id, store: false }
                    },
                    Err(_) => {
                        self.phase = IdentityPhase::Resolving;
                        IdentityAction::Resolve
                    },
                },
                IdentityEvent::CachedIdentity(None) => {
                    self.phase = IdentityPhase::Resolving;
                    IdentityAction::Resolve
                },
                _ => IdentityAction::Ignore,
            },
            IdentityPhase::Resolving => match event {
                IdentityEvent::IdentityResolved(Ok(id)) => {
                    self.phase = IdentityPhase::Resolved;
                    IdentityAction::Ready { identity_id: id, store: true }
                },
                IdentityEvent::IdentityResolved(Err(e)) => {
                    self.phase = IdentityPhase::Failed;
                    IdentityAction::Fail(e)
                },
                _ => IdentityAction::Ignore,
            },
            _ => IdentityAction::Ignore,
        }
    }
}

/// Once an identity id has been stored, later resolutions are served from
/// the cache: the entry that `set` makes of it yields that id with no call to
/// the provider and nothing to store.
pub proof fn lemma_stored_identity_is_served_from_cache(id: Seq<char>, stored: Vec<u8>)
    requires
        stored@ == encode_utf8(id),
    ensures
        identity_transition(IdentityPhase::ReadingCache, IdentityEvent::CachedIdentity(Some(stored)))
            == (IdentityPhase::Resolved, IdentityModel::Ready(id, false)),
{
    lemma_text_round_trip(id);
}

} // verus!
