//! Credential resolution: which authorization header a dispatch must carry,
//! and how a stored credential or a refresh outcome turns into one.

use vstd::prelude::*;

use crate::models::Credential;
use crate::models::ProviderError;
use crate::models::ProviderErrorView;

verus! {

/// The adapter's authentication strategy: exactly one is active, chosen at
/// construction and immutable afterwards.
pub enum AuthStrategy {
    /// A static secret sent as a URL query parameter.
    ApiKey { key: String },
    /// A credential fetched and refreshed from an external store, keyed by
    /// this provider identifier. The store itself lives outside the adapter.
    OAuth { provider_id: String },
    /// Ambient credentials: the transport attaches them; the adapter only
    /// shapes the endpoint from the project and location.
    VertexAI { project_id: String, location: String },
}

#[verifier::ext_equal]
pub enum AuthStrategyView {
    ApiKey { key: Seq<char> },
    OAuth { provider_id: Seq<char> },
    VertexAI { project_id: Seq<char>, location: Seq<char> },
}

impl View for AuthStrategy {
    type V = AuthStrategyView;

    open spec fn view(&self) -> AuthStrategyView {
        match self {
            AuthStrategy::ApiKey { key } => AuthStrategyView::ApiKey { key: key@ },
            AuthStrategy::OAuth { provider_id } => AuthStrategyView::OAuth {
                provider_id: provider_id@,
            },
            AuthStrategy::VertexAI { project_id, location } => AuthStrategyView::VertexAI {
                project_id: project_id@,
                location: location@,
            },
        }
    }
}

/// What credential resolution decided after one external step.
pub enum AuthStep {
    /// Resolution is complete; send this authorization header, if any.
    UseHeader { header: Option<String> },
    /// The stored credential is near expiry: the external refresh operation
    /// must run before the dispatch may proceed.
    NeedsRefresh,
}

#[verifier::ext_equal]
pub enum AuthStepView {
    UseHeader { header: Option<Seq<char>> },
    NeedsRefresh,
}

impl View for AuthStep {
    type V = AuthStepView;

    open spec fn view(&self) -> AuthStepView {
        match self {
            AuthStep::UseHeader { header } => AuthStepView::UseHeader {
                header: header.deep_view(),
            },
            AuthStep::NeedsRefresh => AuthStepView::NeedsRefresh,
        }
    }
}

/// The authorization header value carrying an access token.
pub open spec fn spec_bearer(token: Seq<char>) -> Seq<char> {
    "Bearer "@ + token
}

/// The failure message when the store holds no credential for a provider.
pub open spec fn spec_missing_credential_message(provider_id: Seq<char>) -> Seq<char> {
    "No OAuth token found for provider '"@ + provider_id + "'"@
}

/// The failure message when the external refresh operation fails.
pub open spec fn spec_refresh_failed_message(error: Seq<char>) -> Seq<char> {
    "Failed to refresh OAuth token: "@ + error
}

fn bearer_of(token: &String) -> (h: String)
    ensures
        h@ == spec_bearer(token@),
{
    String::from_str("Bearer ").concat(token.as_str())
}

/// Decides from a store lookup how resolution continues: a missing
/// credential is fatal, a fresh one yields its bearer header at once, and a
/// near-expiry one demands a refresh.
pub fn auth_after_lookup(provider_id: &str, credential: Option<&Credential>) -> (r: Result<
    AuthStep,
    ProviderError,
>)
    ensures
        credential is None ==> (r matches Err(e) && e@ == ProviderErrorView::AuthError(
            spec_missing_credential_message(provider_id@),
        )),
        credential matches Some(c) ==> ({
            &&& !c.needs_refresh ==> (r matches Ok(s) && s@ == (AuthStepView::UseHeader {
                header: Some(spec_bearer(c@.access_token)),
            }))
            &&& c.needs_refresh ==> (r matches Ok(s) && s@ == AuthStepView::NeedsRefresh)
        }),
{
    match credential {
        Some(c) => {
            if c.needs_refresh {
                Ok(AuthStep::NeedsRefresh)
            } else {
                Ok(AuthStep::UseHeader { header: Some(bearer_of(&c.access_token)) })
            }
        },
        None => {
            let message = String::from_str("No OAuth token found for provider '").concat(
                provider_id,
            ).concat("'");
            Err(ProviderError::AuthError(message))
        },
    }
}

/// Decides from the external refresh outcome how resolution ends: a fresh
/// credential yields its bearer header; a failure is fatal, with no fallback
/// to the stale token.
pub fn auth_after_refresh(outcome: Result<Credential, String>) -> (r: Result<
    String,
    ProviderError,
>)
    ensures
        outcome matches Ok(c) ==> (r matches Ok(h) && h@ == spec_bearer(c@.access_token)),
        outcome matches Err(e) ==> (r matches Err(err) && err@ == ProviderErrorView::AuthError(
            spec_refresh_failed_message(e@),
        )),
{
    match outcome {
        Ok(c) => Ok(bearer_of(&c.access_token)),
        Err(e) => {
            let message = String::from_str("Failed to refresh OAuth token: ").concat(e.as_str());
            Err(ProviderError::AuthError(message))
        },
    }
}

} // verus!

