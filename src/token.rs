//! The token lifecycle: a state machine that produces a currently valid
//! identity token from a cached refresh token, falling back to interactive
//! login. The caller performs each action it returns (reads the cache,
//! prompts, calls the provider) and hands the outcome back as the next event.
use vstd::prelude::*;

use vstd::utf8::encode_utf8;

use crate::secret_store::{encrypts, lemma_encrypted_entry_round_trip, open_text, FileCache};

verus! {

/// The error kinds the identity provider reports, one closed set for all of
/// its operations.
#[derive(Clone, Copy, Debug, PartialEq, Eq, Structural)]
pub enum ProviderError {
    /// Credentials or token rejected: wrong password, unknown user, expired
    /// or revoked refresh token.
    AuthRejected,
    /// The account exists but its email address is not verified yet.
    AccountUnverified,
    /// Network or transport failure.
    ProviderUnavailable,
}

/// The tokens a successful login returns.
#[derive(Clone, Debug, PartialEq, Eq)]
pub struct LoginTokens {
    pub id_token: String,
    pub refresh_token: String,
}

/// Where the token lifecycle stands.
#[derive(Clone, Copy, Debug, PartialEq, Eq, Structural)]
pub enum TokenPhase {
    /// Waiting for the stored refresh-token entry.
    ReadingCache,
    /// Waiting for the provider to exchange the cached refresh token.
    Refreshing,
    /// Waiting for the user to enter credentials.
    NeedLogin,
    /// Waiting for the provider's answer to a login.
    LoggingIn,
    /// A fresh identity token is at hand.
    HaveFreshIdToken,
    /// Stopped on an error that re-entering credentials cannot fix.
    Failed,
}

/// What happened since the last action.
#[derive(Debug, PartialEq, Eq)]
pub enum TokenEvent {
    /// The bytes of the refresh-token entry, `None` when it is absent.
    CachedRefreshToken(Option<Vec<u8>>),
    /// The provider's answer to a refresh: an identity token or an error.
    Refreshed(Result<String, ProviderError>),
    /// Credentials the user entered.
    Credentials { username: String, password: String },
    /// The provider's answer to a login.
    LoggedIn(Result<LoginTokens, ProviderError>),
}

/// What the caller has to do next.
#[derive(Clone, Debug, PartialEq, Eq)]
pub enum TokenAction {
    /// Read the refresh-token entry.
    ReadRefreshToken,
    /// Ask the provider to exchange this refresh token for an identity token.
    Refresh { refresh_token: String },
    /// Ask the user for a username and password.
    PromptLogin,
    /// Log in with these credentials.
    Login { username: String, password: String },
    /// Done: use this identity token; when a new refresh token came with it,
    /// store it encrypted first.
    Ready { id_token: String, new_refresh_token: Option<String> },
    /// Stop with this error.
    Fail(ProviderError),
    /// The event does not belong to the current phase; nothing changed.
    Ignore,
}

/// A `TokenAction` with its strings seen as character sequences.
pub enum ActionModel {
    ReadRefreshToken,
    Refresh(Seq<char>),
    PromptLogin,
    Login(Seq<char>, Seq<char>),
    Ready(Seq<char>, Option<Seq<char>>),
    Fail(ProviderError),
    Ignore,
}

impl TokenAction {
    pub open spec fn model(&self) -> ActionModel {
        match self {
            TokenAction::ReadRefreshToken => ActionModel::ReadRefreshToken,
            TokenAction::Refresh { refresh_token } => ActionModel::Refresh(refresh_token@),
            TokenAction::PromptLogin => ActionModel::PromptLogin,
            TokenAction::Login { username, password } => ActionModel::Login(username@, password@),
            TokenAction::Ready { id_token, new_refresh_token } => ActionModel::Ready(
                id_token@,
                match new_refresh_token {
                    Some(t) => Some(t@),
                    None => None,
                },
            ),
            TokenAction::Fail(e) => ActionModel::Fail(*e),
            TokenAction::Ignore => ActionModel::Ignore,
        }
    }
}

/// Whether a failed refresh falls back to login: every failure but a
/// network one, which is reported instead.
pub open spec fn refresh_falls_back(e: ProviderError) -> bool {
    e != ProviderError::ProviderUnavailable
}

/// Whether a failed login is retried by prompting again: every failure but
/// an unverified account, which new credentials cannot fix.
pub open spec fn login_retried(e: ProviderError) -> bool {
    e != ProviderError::AccountUnverified
}

/// The transition of the token lifecycle, under master key `key`, from
/// `phase` on `event`: the next phase and the action to perform.
pub open spec fn token_transition(key: Seq<u8>, phase: TokenPhase, event: TokenEvent) -> (
    TokenPhase,
    ActionModel,
) {
    match phase {
        TokenPhase::ReadingCache => match event {
            TokenEvent::CachedRefreshToken(Some(stored)) => match open_text(key, stored@) {
                Some(t) => (TokenPhase::Refreshing, ActionModel::Refresh(t)),
                None => (TokenPhase::NeedLogin, ActionModel::PromptLogin),
            },
            TokenEvent::CachedRefreshToken(None) => (TokenPhase::NeedLogin, ActionModel::PromptLogin),
            _ => (phase, ActionModel::Ignore),
        },
        TokenPhase::Refreshing => match event {
            TokenEvent::Refreshed(Ok(id_token)) => (
                TokenPhase::HaveFreshIdToken,
                ActionModel::Ready(id_token@, None),
            ),
            TokenEvent::Refreshed(Err(e)) => if refresh_falls_back(e) {
                (TokenPhase::NeedLogin, ActionModel::PromptLogin)
            } else {
                (TokenPhase::Failed, ActionModel::Fail(e))
            },
            _ => (phase, ActionModel::Ignore),
        },
        TokenPhase::NeedLogin => match event {
            TokenEvent::Credentials { username, password } => (
                TokenPhase::LoggingIn,
                ActionModel::Login(username@, password@),
            ),
            _ => (phase, ActionModel::Ignore),
        },
        TokenPhase::LoggingIn => match event {
            TokenEvent::LoggedIn(Ok(tokens)) => (
                TokenPhase::HaveFreshIdToken,
                ActionModel::Ready(tokens.id_token@, Some(tokens.refresh_token@)),
            ),
            TokenEvent::LoggedIn(Err(e)) => if login_retried(e) {
                (TokenPhase::NeedLogin, ActionModel::PromptLogin)
            } else {
                (TokenPhase::Failed, ActionModel::Fail(e))
            },
            _ => (phase, ActionModel::Ignore),
        },
        TokenPhase::HaveFreshIdToken => (phase, ActionModel::Ignore),
        TokenPhase::Failed => (phase, ActionModel::Ignore),
    }
}

/// The action a phase starts with: reading the cache, or prompting for a
/// login; other phases are entered only by a transition.
pub open spec fn initial_action(phase: TokenPhase) -> ActionModel {
    match phase {
        TokenPhase::ReadingCache => ActionModel::ReadRefreshToken,
        TokenPhase::NeedLogin => ActionModel::PromptLogin,
        _ => ActionModel::Ignore,
    }
}

/// The token lifecycle of one invocation.
pub struct TokenManager {
    /// The store that holds the refresh token.
    pub cache: FileCache,
    /// Where the lifecycle stands.
    pub phase: TokenPhase,
    /// How many logins were attempted, saturating at `u64::MAX`.
    pub login_attempts: u64,
}

impl TokenManager {
    /// A lifecycle that starts from the cached refresh token.
    pub fn new(cache: FileCache) -> (r: Self)
        ensures
            r.cache == cache,
            r.phase == TokenPhase::ReadingCache,
            r.login_attempts == 0,
    {
        TokenManager { cache, phase: TokenPhase::ReadingCache, login_attempts: 0 }
    }

    /// A lifecycle that ignores any cached token and starts with a login, as
    /// setting up an account does.
    pub fn for_login(cache: FileCache) -> (r: Self)
        ensures
            r.cache == cache,
            r.phase == TokenPhase::NeedLogin,
            r.login_attempts == 0,
    {
        TokenManager { cache, phase: TokenPhase::NeedLogin, login_attempts: 0 }
    }

    /// The first action to perform.
    pub fn start(&self) -> (r: TokenAction)
        ensures
            r.model() == initial_action(self.phase),
    {
        match self.phase {
            TokenPhase::ReadingCache => TokenAction::ReadRefreshToken,
            TokenPhase::NeedLogin => TokenAction::PromptLogin,
            _ => TokenAction::Ignore,
        }
    }

    /// Takes one event and returns the next action.
    pub fn step(&mut self, event: TokenEvent) -> (action: TokenAction)
        ensures
            (final(self).phase, action.model()) == token_transition(
                old(self).cache.master_key(),
                old(self).phase,
                event,
            ),
            final(self).cache == old(self).cache,
            final(self).login_attempts == if action is Login {
                if old(self).login_attempts < u64::MAX {
                    old(self).login_attempts + 1
                } else {
                    old(self).login_attempts as int
                }
            } else {
                old(self).login_attempts as int
            },
    {
        match self.phase {
            TokenPhase::ReadingCache => match event {
                TokenEvent::CachedRefreshToken(Some(stored)) => match self.cache.get_encrypted(stored) {
                    Ok(t) => {
                        self.phase = TokenPhase::Refreshing;
                        TokenAction::Refresh { refresh_token: t }
                    },
                    Err(_) => {
                        self.phase = TokenPhase::NeedLogin;
                        TokenAction::PromptLogin
                    },
                },
                TokenEvent::CachedRefreshToken(None) => {
                    self.phase = TokenPhase::NeedLogin;
                    TokenAction::PromptLogin
                },
                _ => TokenAction::Ignore,
            },
            TokenPhase::Refreshing => match event {
                TokenEvent::Refreshed(Ok(id_token)) => {
                    self.phase = TokenPhase::HaveFreshIdToken;
                    TokenAction::Ready { id_token, new_refresh_token: None }
                },
                TokenEvent::Refreshed(Err(e)) => {
                    if e != ProviderError::ProviderUnavailable {
                        self.phase = TokenPhase::NeedLogin;
                        TokenAction::PromptLogin
                    } else {
                        self.phase = TokenPhase::Failed;
                        TokenAction::Fail(e)
                    }
                },
                _ => TokenAction::Ignore,
            },
            TokenPhase::NeedLogin => match event {
                TokenEvent::Credentials { username, password } => {
                    self.phase = TokenPhase::LoggingIn;
                    if self.login_attempts < u64::MAX {
                        self.login_attempts = self.login_attempts + 1;
                    }
                    TokenAction::Login { username, password }
                },
                _ => TokenAction::Ignore,
            },
            TokenPhase::LoggingIn => match event {
                TokenEvent::LoggedIn(Ok(tokens)) => {
                    self.phase = TokenPhase::HaveFreshIdToken;
                    TokenAction::Ready {
                        id_token: tokens.id_token,
                        new_refresh_token: Some(tokens.refresh_token),
                    }
                },
                TokenEvent::LoggedIn(Err(e)) => {
                    if e != ProviderError::AccountUnverified {
                        self.phase = TokenPhase::NeedLogin;
                        TokenAction::PromptLogin
                    } else {
                        self.phase = TokenPhase::Failed;
                        TokenAction::Fail(e)
                    }
                },
                _ => TokenAction::Ignore,
            },
            TokenPhase::HaveFreshIdToken => TokenAction::Ignore,
            TokenPhase::Failed => TokenAction::Ignore,
        }
    }
}

/// The phase reached and the actions returned when the events are fed in
/// order from `phase`.
pub open spec fn run_token_events(key: Seq<u8>, phase: TokenPhase, events: Seq<TokenEvent>) -> (
    TokenPhase,
    Seq<ActionModel>,
)
    decreases events.len(),
{
    if events.len() == 0 {
        (phase, seq![])
    } else {
        let (next, action) = token_transition(key, phase, events[0]);
        let (last, rest) = run_token_events(key, next, events.drop_first());
        (last, seq![action] + rest)
    }
}

/// How many of the actions are logins.
pub open spec fn count_logins(actions: Seq<ActionModel>) -> nat
    decreases actions.len(),
{
    if actions.len() == 0 {
        0
    } else {
        (if actions[0] is Login {
            1nat
        } else {
            0nat
        }) + count_logins(actions.drop_first())
    }
}

/// A scripted provider: the user enters the same credentials each time, the
/// provider fails the first logins with `failures`, one each, and then
/// accepts with `tokens`.
pub open spec fn login_script(
    username: String,
    password: String,
    failures: Seq<ProviderError>,
    tokens: LoginTokens,
) -> Seq<TokenEvent>
    decreases failures.len(),
{
    let creds = TokenEvent::Credentials { username, password };
    if failures.len() == 0 {
        seq![creds, TokenEvent::LoggedIn(Ok(tokens))]
    } else {
        seq![creds, TokenEvent::LoggedIn(Err(failures[0]))] + login_script(
            username,
            password,
            failures.drop_first(),
            tokens,
        )
    }
}

/// The login loop terminates: when the provider fails a number of logins,
/// none of them for an unverified account, and then accepts, the lifecycle
/// ends with a fresh identity token after exactly one more login attempt
/// than there were failures, and hands back the new refresh token to store.
pub proof fn lemma_login_retry_terminates(
    key: Seq<u8>,
    username: String,
    password: String,
    failures: Seq<ProviderError>,
    tokens: LoginTokens,
)
    requires
        forall|i: int| 0 <= i < failures.len() ==> login_retried(#[trigger] failures[i]),
    ensures
        ({
            let (last, actions) = run_token_events(
                key,
                TokenPhase::NeedLogin,
                login_script(username, password, failures, tokens),
            );
            &&& last == TokenPhase::HaveFreshIdToken
            &&& count_logins(actions) == failures.len() + 1
            &&& actions.len() > 0
            &&& actions.last() == ActionModel::Ready(tokens.id_token@, Some(tokens.refresh_token@))
        }),
    decreases failures.len(),
{
    let script = login_script(username, password, failures, tokens);
    let creds = TokenEvent::Credentials { username, password };
    let login = ActionModel::Login(username@, password@);
    if failures.len() == 0 {
        let ready = ActionModel::Ready(tokens.id_token@, Some(tokens.refresh_token@));
        assert(script.drop_first().drop_first() =~= Seq::<TokenEvent>::empty());
        assert(script.drop_first()[0] == TokenEvent::LoggedIn(Ok(tokens)));
        let (end, none) = run_token_events(
            key,
            TokenPhase::HaveFreshIdToken,
            script.drop_first().drop_first(),
        );
        assert(end == TokenPhase::HaveFreshIdToken && none.len() == 0);
        let (mid, tail) = run_token_events(key, TokenPhase::LoggingIn, script.drop_first());
        assert(tail =~= seq![ready]);
        assert(mid == TokenPhase::HaveFreshIdToken);
        let (last, actions) = run_token_events(key, TokenPhase::NeedLogin, script);
        assert(last == TokenPhase::HaveFreshIdToken);
        assert(actions =~= seq![login, ready]);
        assert(actions.drop_first() =~= seq![ready]);
        assert(actions.drop_first().drop_first() =~= Seq::<ActionModel>::empty());
        assert(count_logins(actions.drop_first().drop_first()) == 0);
        assert(count_logins(actions.drop_first()) == 0);
        assert(count_logins(actions) == 1);
        assert(actions.last() == ready);
    } else {
        let rest = login_script(username, password, failures.drop_first(), tokens);
        assert forall|i: int| 0 <= i < failures.drop_first().len() implies login_retried(
            #[trigger] failures.drop_first()[i],
        ) by {
            assert(failures.drop_first()[i] == failures[i + 1]);
        }
        lemma_login_retry_terminates(key, username, password, failures.drop_first(), tokens);
        assert(script.drop_first().drop_first() =~= rest);
        let (last, rest_actions) = run_token_events(key, TokenPhase::NeedLogin, rest);
        let (_, tail) = run_token_events(key, TokenPhase::LoggingIn, script.drop_first());
        assert(tail =~= seq![ActionModel::PromptLogin] + rest_actions);
        let (_, actions) = run_token_events(key, TokenPhase::NeedLogin, script);
        assert(actions =~= seq![login] + (seq![ActionModel::PromptLogin] + rest_actions));
        assert(actions.drop_first() =~= seq![ActionModel::PromptLogin] + rest_actions);
        assert(actions.drop_first().drop_first() =~= rest_actions);
        assert(count_logins(actions.drop_first()) == count_logins(rest_actions));
        assert(count_logins(actions) == failures.len() + 1);
        assert(actions.last() == rest_actions.last());
    }
}

/// A refresh token stored after a login is used on the next run: the entry
/// that `set_encrypted` makes of its text leads straight to a refresh with
/// that token, without a prompt.
pub proof fn lemma_stored_refresh_token_is_used(key: Seq<u8>, token: Seq<char>, stored: Vec<u8>)
    requires
        encrypts(key, encode_utf8(token), stored@),
    ensures
        token_transition(key, TokenPhase::ReadingCache, TokenEvent::CachedRefreshToken(Some(stored)))
            == (TokenPhase::Refreshing, ActionModel::Refresh(token)),
{
    lemma_encrypted_entry_round_trip(key, token, stored@);
}

/// A refresh-token entry that does not decrypt to text (corrupted, written
/// under another key, truncated or not UTF-8) is treated as a cache miss: the
/// lifecycle moves on to login instead of failing.
pub proof fn lemma_corrupt_cache_falls_back_to_login(key: Seq<u8>, stored: Vec<u8>)
    requires
        open_text(key, stored@) is None,
    ensures
        token_transition(key, TokenPhase::ReadingCache, TokenEvent::CachedRefreshToken(Some(stored)))
            == (TokenPhase::NeedLogin, ActionModel::PromptLogin),
{
}

/// One round of the login loop. Entered credentials lead to exactly one login
/// attempt with them; a failure that new credentials can fix leads back to the
/// prompt, and a success ends the lifecycle with the identity token it
/// returned and its refresh token to store.
pub proof fn lemma_login_round(
    key: Seq<u8>,
    username: String,
    password: String,
    outcome: Result<LoginTokens, ProviderError>,
)
    ensures
        token_transition(
            key,
            TokenPhase::NeedLogin,
            TokenEvent::Credentials { username, password },
        ) == (TokenPhase::LoggingIn, ActionModel::Login(username@, password@)),
        match outcome {
            Ok(t) => token_transition(key, TokenPhase::LoggingIn, TokenEvent::LoggedIn(outcome)) == (
                TokenPhase::HaveFreshIdToken,
                ActionModel::Ready(t.id_token@, Some(t.refresh_token@)),
            ),
            Err(e) => e != ProviderError::AccountUnverified ==> token_transition(
                key,
                TokenPhase::LoggingIn,
                TokenEvent::LoggedIn(outcome),
            ) == (TokenPhase::NeedLogin, ActionModel::PromptLogin),
        },
{
}

} // verus!
