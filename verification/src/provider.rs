//! The provider configuration: construction with base-URL derivation, the
//! endpoint builder, and the small configuration queries.

use vstd::prelude::*;

use crate::auth::AuthStrategy;
use crate::auth::AuthStrategyView;
use crate::models::CountTokensRequest;
use crate::models::CountTokensResponse;
use crate::models::ProviderError;
use crate::models::ProviderErrorView;

verus! {

/// The adapter's configuration: identity, supported models, base URL,
/// custom headers and the one active authentication strategy. Constructed
/// once and immutable for the adapter's lifetime.
pub struct GeminiProvider {
    pub name: String,
    pub base_url: String,
    pub models: Vec<String>,
    pub custom_headers: Vec<(String, String)>,
    pub strategy: AuthStrategy,
}

#[verifier::ext_equal]
pub struct ProviderView {
    pub name: Seq<char>,
    pub base_url: Seq<char>,
    pub models: Seq<Seq<char>>,
    pub custom_headers: Seq<(Seq<char>, Seq<char>)>,
    pub strategy: AuthStrategyView,
}

impl View for GeminiProvider {
    type V = ProviderView;

    open spec fn view(&self) -> ProviderView {
        ProviderView {
            name: self.name@,
            base_url: self.base_url@,
            models: self.models.deep_view(),
            custom_headers: self.custom_headers.deep_view(),
            strategy: self.strategy@,
        }
    }
}

/// The base URL derived for an ambient-credential configuration.
pub open spec fn spec_vertex_base(location: Seq<char>) -> Seq<char> {
    "https://"@ + location + "-aiplatform.googleapis.com/v1"@
}

/// The fixed base URL of the non-ambient service.
pub open spec fn spec_google_ai_base() -> Seq<char> {
    "https://generativelanguage.googleapis.com/v1beta"@
}

/// The configured base URL: an explicit override always wins; otherwise the
/// strategy picks the derived default.
pub open spec fn spec_base_url(overriding: Option<Seq<char>>, s: AuthStrategyView) -> Seq<char> {
    match overriding {
        Some(u) => u,
        None => match s {
            AuthStrategyView::VertexAI { location, .. } => spec_vertex_base(location),
            _ => spec_google_ai_base(),
        },
    }
}

/// The endpoint for one call: three shapes, one per strategy. The static
/// secret travels in the URL; a bearer credential travels in a header and
/// leaves the URL bare; ambient credentials use the project/location path.
pub open spec fn spec_build_url(c: ProviderView, model: Seq<char>) -> Seq<char> {
    match c.strategy {
        AuthStrategyView::VertexAI { project_id, location } => c.base_url + "/projects/"@
            + project_id + "/locations/"@ + location + "/publishers/google/models/"@ + model
            + ":generateContent"@,
        AuthStrategyView::ApiKey { key } => c.base_url + "/models/"@ + model
            + ":generateContent?key="@ + key,
        AuthStrategyView::OAuth { .. } => c.base_url + "/models/"@ + model + ":generateContent"@,
    }
}

impl GeminiProvider {
    /// Builds a configuration. The base URL defaults by strategy unless
    /// explicitly overridden.
    pub fn new(
        name: String,
        models: Vec<String>,
        base_url: Option<String>,
        custom_headers: Vec<(String, String)>,
        strategy: AuthStrategy,
    ) -> (p: GeminiProvider)
        ensures
            p@.name == name@,
            p@.models == models.deep_view(),
            p@.custom_headers == custom_headers.deep_view(),
            p@.strategy == strategy@,
            p@.base_url == spec_base_url(base_url.deep_view(), strategy@),
    {
        let url: String = match base_url {
            Some(u) => u,
            None => match &strategy {
                AuthStrategy::VertexAI { location, .. } => String::from_str("https://").concat(
                    location.as_str(),
                ).concat("-aiplatform.googleapis.com/v1"),
                _ => "https://generativelanguage.googleapis.com/v1beta".to_owned(),
            },
        };
        GeminiProvider { name, base_url: url, models, custom_headers, strategy }
    }

    /// Whether this configuration resolves credentials through the store.
    pub fn is_oauth(&self) -> (r: bool)
        ensures
            r == (self@.strategy is OAuth),
    {
        match &self.strategy {
            AuthStrategy::OAuth { .. } => true,
            _ => false,
        }
    }

    /// Whether this configuration relies on ambient credentials.
    pub fn is_vertex_ai(&self) -> (r: bool)
        ensures
            r == (self@.strategy is VertexAI),
    {
        match &self.strategy {
            AuthStrategy::VertexAI { .. } => true,
            _ => false,
        }
    }

    /// Exact-match lookup of a model identifier in the configured list.
    pub fn supports_model(&self, model: &str) -> (r: bool)
        ensures
            r == exists|i: int| 0 <= i < self@.models.len() && self@.models[i] == model@,
    {
        let wanted: String = model.to_owned();
        let mut i: usize = 0;
        while i < self.models.len()
            invariant
                0 <= i <= self@.models.len(),
                wanted@ == model@,
                forall|j: int| 0 <= j < i ==> self@.models[j] != model@,
            decreases self@.models.len() - i,
        {
            if self.models[i] == wanted {
                proof {
                    assert(self@.models[i as int] == model@);
                }
                return true;
            }
            i += 1;
        }
        false
    }

    /// The provider identifier whose credential must be fetched before a
    /// dispatch, if the strategy needs one.
    pub fn auth_credential_needed(&self) -> (r: Option<&String>)
        ensures
            match self@.strategy {
                AuthStrategyView::OAuth { provider_id } => r matches Some(p) && p@ == provider_id,
                _ => r is None,
            },
    {
        match &self.strategy {
            AuthStrategy::OAuth { provider_id } => Some(provider_id),
            _ => None,
        }
    }

    /// Streaming delivery is not implemented for this provider: the call
    /// fails at once, before any network activity, and never yields chunks.
    pub fn send_message_stream(&self) -> (r: Result<(), ProviderError>)
        ensures
            r matches Err(e) && e@ == ProviderErrorView::ConfigError(
                "Streaming not yet implemented for Gemini"@,
            ),
    {
        Err(ProviderError::ConfigError("Streaming not yet implemented for Gemini".to_owned()))
    }

    /// Token counting is not implemented for this provider: the call fails
    /// at once, before any network activity.
    pub fn count_tokens(&self, _request: &CountTokensRequest) -> (r: Result<
        CountTokensResponse,
        ProviderError,
    >)
        ensures
            r matches Err(e) && e@ == ProviderErrorView::ConfigError(
                "Token counting not yet implemented for Gemini"@,
            ),
    {
        Err(ProviderError::ConfigError("Token counting not yet implemented for Gemini".to_owned()))
    }

    /// The provider endpoint for one call against the given model.
    pub fn build_url(&self, model: &str) -> (url: String)
        ensures
            url@ == spec_build_url(self@, model@),
    {
        match &self.strategy {
            AuthStrategy::VertexAI { project_id, location } => String::from_str(
                self.base_url.as_str(),
            ).concat("/projects/").concat(project_id.as_str()).concat("/locations/").concat(
                location.as_str(),
            ).concat("/publishers/google/models/").concat(model).concat(":generateContent"),
            AuthStrategy::ApiKey { key } => String::from_str(self.base_url.as_str()).concat(
                "/models/",
            ).concat(model).concat(":generateContent?key=").concat(key.as_str()),
            AuthStrategy::OAuth { .. } => String::from_str(self.base_url.as_str()).concat(
                "/models/",
            ).concat(model).concat(":generateContent"),
        }
    }
}

} // verus!
