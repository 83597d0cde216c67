//! Interactive OAuth bootstrap.
//!
//! One interactive invocation walks `Idle → AuthorizationUrlBuilt →
//! ListeningForCallback → CodeReceived → TokenExchanged → Persisted`; the
//! terminal failures `StateMismatch`, `Timeout` and `ExchangeFailed` are
//! reachable from the listening and exchange steps.  The machine here makes
//! every decision; the surrounding process opens the browser, accepts the
//! one callback connection, performs the exchange POST and writes the
//! store, and reports each result back as an event.
//!
//! Two guarantees are stated on the step function itself: a callback whose
//! `state` differs from the issued one ends the flow in `StateMismatch`
//! and never produces an exchange request, and a callback timeout ends the
//! flow in `Timeout` and never produces a persist action.

use vstd::prelude::*;

use crate::callback::{callback_accepted, CallbackQuery};
use crate::error::OAuthError;
use crate::oauth::{
    code_exchange_body, code_exchange_body_spec, split_scopes_spec, AuthorizeContext, OAuthConfig,
    OAuthTokens,
};
use crate::store::{SerializedTokens, TokensView};

verus! {

/// Why an interactive flow ended without tokens.
pub enum FlowFailure {
    /// The callback's `state` was not the issued one (CSRF defense).
    StateMismatch { expected: String, actual: String },
    /// No callback arrived within the allowed window.
    Timeout,
    /// The code exchange failed, or its response was unusable.
    ExchangeFailed(String),
}

/// Where one interactive flow invocation stands.
pub enum FlowStage {
    Idle,
    AuthorizationUrlBuilt { state: String },
    ListeningForCallback { state: String },
    CodeReceived { state: String, code: String },
    TokenExchanged { refresh_token: String },
    Persisted,
    Failed(FlowFailure),
}

/// What the surrounding process reports back to the machine.
pub enum FlowEvent {
    /// The authorization URL was built, with its CSRF state.
    UrlBuilt(AuthorizeContext),
    /// The loopback listener is bound and waiting.
    ListenerReady,
    /// The one callback connection arrived and was parsed.
    CallbackReceived(CallbackQuery),
    /// No connection arrived within the allowed window.
    CallbackTimedOut,
    /// The code exchange answered with tokens.
    ExchangeSucceeded(OAuthTokens),
    /// The code exchange failed.
    ExchangeRejected(String),
    /// The tokens were written to the store.
    PersistCompleted,
}

/// What the surrounding process must do next.
pub enum FlowAction {
    /// Open the browser on the authorization URL and await the callback.
    OpenBrowser { url: String },
    /// POST this form body to the token endpoint.
    ExchangeCode { body: String },
    /// Write this record to the store under the invocation's key.
    PersistTokens { tokens: SerializedTokens },
}

/// Whether an event is the callback timeout.
pub open spec fn is_timeout_event(e: &FlowEvent) -> bool {
    e is CallbackTimedOut
}

/// Build the persisted record from freshly exchanged tokens: the refresh
/// token, the granted scopes, the access token's expiry and type, and the
/// write instant.  Access tokens are not persisted.
pub fn serialize_tokens(tokens: &OAuthTokens, refresh_token: &String, now: i64) -> (r:
    SerializedTokens)
    ensures
        r@ == (TokensView {
            refresh_token: refresh_token@,
            scopes: split_scopes_spec(
                match tokens.scope {
                    Some(ref s) => s@,
                    None => Seq::<char>::empty(),
                },
            ),
            expires_at: Some(tokens.expires_at),
            token_type: match tokens.token_type {
                Some(ref t) => Some(t@),
                None => None,
            },
            updated_at: now,
        }),
{
    let scopes = match &tokens.scope {
        Some(s) => crate::oauth::split_scopes(s),
        None => {
            let empty: Vec<String> = Vec::new();
            proof {
                assert(empty@.map_values(|x: String| x@) =~= Seq::<Seq<char>>::empty());
                crate::callback::lemma_find_char_bounds(Seq::<char>::empty(), 0, ' ');
            }
            empty
        },
    };
    let token_type = match &tokens.token_type {
        Some(t) => Some(t.clone()),
        None => None,
    };
    let r = SerializedTokens {
        refresh_token: refresh_token.clone(),
        scopes,
        expires_at: Some(tokens.expires_at),
        token_type,
        updated_at: now,
    };
    proof {
        assert(r@ =~= (TokensView {
            refresh_token: refresh_token@,
            scopes: split_scopes_spec(
                match tokens.scope {
                    Some(ref s) => s@,
                    None => Seq::<char>::empty(),
                },
            ),
            expires_at: Some(tokens.expires_at),
            token_type: match tokens.token_type {
                Some(ref t) => Some(t@),
                None => None,
            },
            updated_at: now,
        }));
    }
    r
}

/// Advance the flow by one event.
///
/// The contract carries the flow's two safety guarantees beside the
/// transition relation: a timeout never yields any action (so nothing can
/// be persisted after it), and a callback is answered with an exchange
/// request only when it passed verification against the issued state —
/// a mismatched `state` ends in `Failed(StateMismatch)` with no action.
pub fn flow_step(cfg: &OAuthConfig, stage: FlowStage, event: FlowEvent, now: i64) -> (r: (
    FlowStage,
    Option<FlowAction>,
))
    ensures
        is_timeout_event(&event) ==> r.1 is None,
        (is_timeout_event(&event) && stage is ListeningForCallback) ==> (r.0 matches
            FlowStage::Failed(f) && f is Timeout),
        stage is Idle ==> (event matches FlowEvent::UrlBuilt(ctx) ==> {
            &&& r.0 matches FlowStage::AuthorizationUrlBuilt { state } && state == ctx.state
            &&& r.1 matches Some(a) && a matches FlowAction::OpenBrowser { url } && url == ctx.url
        }),
        stage matches FlowStage::AuthorizationUrlBuilt { state: s1 } ==> (event
            is ListenerReady ==> (r.0 matches FlowStage::ListeningForCallback { state } && state
            == s1 && r.1 is None)),
        stage matches FlowStage::ListeningForCallback { state: s1 } ==> (event matches
            FlowEvent::CallbackReceived(q) ==> {
            &&& callback_accepted(s1@, q@) ==> {
                &&& r.0 matches FlowStage::CodeReceived { state, code } && state == s1 && Some(
                    code@,
                ) == q@.code
                &&& r.1 matches Some(a) && a matches FlowAction::ExchangeCode { body } && body@
                    == code_exchange_body_spec(
                    cfg.client_id@,
                    match cfg.client_secret {
                        Some(ref s) => Some(s@),
                        None => None,
                    },
                    cfg.redirect_uri@,
                    q@.code.unwrap(),
                )
            }
            &&& (q@.error is None && q@.state != Some(s1@)) ==> (r.0 matches FlowStage::Failed(f)
                && f matches FlowFailure::StateMismatch { expected, actual } && expected@ == s1@
                && r.1 is None)
            &&& !callback_accepted(s1@, q@) ==> (r.0 is Failed && r.1 is None)
        }),
        stage is CodeReceived ==> (event matches FlowEvent::ExchangeSucceeded(t) ==> {
            &&& t.refresh_token is None ==> (r.0 matches FlowStage::Failed(f) && f matches
                FlowFailure::ExchangeFailed(m) && m@ == "no refresh token received"@ && r.1
                is None)
            &&& t.refresh_token matches Some(rt) ==> {
                &&& r.0 matches FlowStage::TokenExchanged { refresh_token } && refresh_token == rt
                &&& r.1 matches Some(a) && a matches FlowAction::PersistTokens { tokens }
                    && tokens@.refresh_token == rt@ && tokens@.expires_at == Some(t.expires_at)
                    && tokens@.updated_at == now
            }
        }),
        stage is CodeReceived ==> (event matches FlowEvent::ExchangeRejected(m) ==> (r.0 matches
            FlowStage::Failed(f) && f matches FlowFailure::ExchangeFailed(m2) && m2 == m && r.1
            is None)),
        (stage is TokenExchanged && event is PersistCompleted) ==> (r.0 is Persisted && r.1
            is None),
{
    match (stage, event) {
        (FlowStage::Idle, FlowEvent::UrlBuilt(ctx)) => {
            (
                FlowStage::AuthorizationUrlBuilt { state: ctx.state },
                Some(FlowAction::OpenBrowser { url: ctx.url }),
            )
        },
        (FlowStage::AuthorizationUrlBuilt { state }, FlowEvent::ListenerReady) => {
            (FlowStage::ListeningForCallback { state }, None)
        },
        (FlowStage::ListeningForCallback { state }, FlowEvent::CallbackReceived(q)) => {
            match crate::callback::verify_callback(&state, &q) {
                Ok(code) => {
                    let body = code_exchange_body(cfg, &code);
                    (
                        FlowStage::CodeReceived { state, code },
                        Some(FlowAction::ExchangeCode { body }),
                    )
                },
                Err(OAuthError::StateMismatch { expected, actual }) => {
                    (
                        FlowStage::Failed(FlowFailure::StateMismatch { expected, actual }),
                        None,
                    )
                },
                Err(e) => {
                    (FlowStage::Failed(FlowFailure::ExchangeFailed(e.render())), None)
                },
            }
        },
        (FlowStage::ListeningForCallback { state: _ }, FlowEvent::CallbackTimedOut) => {
            (FlowStage::Failed(FlowFailure::Timeout), None)
        },
        (FlowStage::CodeReceived { state: _, code: _ }, FlowEvent::ExchangeSucceeded(t)) => {
            match &t.refresh_token {
                None => {
                    (
                        FlowStage::Failed(
                            FlowFailure::ExchangeFailed(
                                String::from_str("no refresh token received"),
                            ),
                        ),
                        None,
                    )
                },
                Some(rt) => {
                    let rt = rt.clone();
                    let tokens = serialize_tokens(&t, &rt, now);
                    (
                        FlowStage::TokenExchanged { refresh_token: rt },
                        Some(FlowAction::PersistTokens { tokens }),
                    )
                },
            }
        },
        (FlowStage::CodeReceived { state: _, code: _ }, FlowEvent::ExchangeRejected(m)) => {
            (FlowStage::Failed(FlowFailure::ExchangeFailed(m)), None)
        },
        (FlowStage::TokenExchanged { refresh_token: _ }, FlowEvent::PersistCompleted) => {
            (FlowStage::Persisted, None)
        },
        (s, _) => (s, None),
    }
}

/// What the bootstrap orchestration does before building the provider.
#[derive(Debug, Clone, Copy, PartialEq, Eq, Structural)]
pub enum BootstrapPlan {
    /// A refresh token is already stored; use it.
    UseStored,
    /// Nothing stored: run the interactive browser flow first.
    RunInteractive,
    /// Bootstrap is disabled; build the provider without any flow.
    SkipBootstrap,
}

/// Decide the bootstrap step: when disabled, never attempt the flow; when
/// enabled, run it exactly when nothing is stored for the key.
pub fn bootstrap_plan(stored_present: bool, bootstrap_disabled: bool) -> (r: BootstrapPlan)
    ensures
        bootstrap_disabled ==> r == BootstrapPlan::SkipBootstrap,
        (!bootstrap_disabled && stored_present) ==> r == BootstrapPlan::UseStored,
        (!bootstrap_disabled && !stored_present) ==> r == BootstrapPlan::RunInteractive,
{
    if bootstrap_disabled {
        BootstrapPlan::SkipBootstrap
    } else if stored_present {
        BootstrapPlan::UseStored
    } else {
        BootstrapPlan::RunInteractive
    }
}

/// Whether the bootstrap-disable flag's observed value disables the
/// interactive flow; an unset variable leaves bootstrap enabled.
pub fn bootstrap_disabled_from_env(value: Option<String>) -> (r: bool)
    ensures
        r == (match value {
            Some(v) => crate::envcfg::truthy_flag_spec(v@),
            None => false,
        }),
{
    crate::envcfg::truthy_flag(value)
}

/// The user-OAuth provider's first step on a token fetch: the stored
/// refresh token is exchanged on every call; with nothing stored the fetch
/// fails and names the bootstrap that is missing.
pub fn refresh_token_from_store(stored: Option<SerializedTokens>) -> (r: Result<
    String,
    OAuthError,
>)
    ensures
        stored matches Some(t) ==> (r matches Ok(rt) && rt == t.refresh_token),
        stored is None ==> (r matches Err(e) && e matches OAuthError::Refresh(m) && m@
            == "no refresh token stored; run the interactive login first"@),
{
    match stored {
        Some(t) => Ok(t.refresh_token),
        None => Err(
            OAuthError::Refresh(
                String::from_str("no refresh token stored; run the interactive login first"),
            ),
        ),
    }
}

} // verus!
