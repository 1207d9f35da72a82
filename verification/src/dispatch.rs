//! The dispatcher as a state machine. Each call owns one dispatch; the
//! caller performs the external work an action asks for (a store lookup, a
//! refresh, the one HTTP call) and feeds the outcome back as the next event.
//! Every decision between those steps is made, and verified, here.

use vstd::prelude::*;
use vstd::pervasive::unreached;

use crate::auth::auth_after_lookup;
use crate::auth::auth_after_refresh;
use crate::auth::spec_bearer;
use crate::auth::spec_missing_credential_message;
use crate::auth::spec_refresh_failed_message;
use crate::auth::AuthStep;
use crate::auth::AuthStrategy;
use crate::auth::AuthStrategyView;
use crate::clock::now_millis;
use crate::models::AnthropicRequest;
use crate::models::Credential;
use crate::models::CredentialView;
use crate::models::ProviderError;
use crate::models::ProviderErrorView;
use crate::models::ProviderResponse;
use crate::models::RequestView;
use crate::models::ResponseView;
use crate::provider::spec_build_url;
use crate::provider::GeminiProvider;
use crate::provider::ProviderView;
use crate::transform::spec_no_candidates_message;
use crate::transform::spec_transform_request;
use crate::transform::spec_transform_response;
use crate::transform::transform_request;
use crate::transform::transform_response_at;
use crate::wire::GeminiRequest;
use crate::wire::GeminiRequestView;
use crate::wire::GeminiResponse;
use crate::wire::GeminiResponseView;

verus! {

/// Where a dispatch stands between two external steps.
pub enum DispatchState {
    /// The stored credential for this provider is being looked up.
    AwaitingCredential { url: String, body: GeminiRequest, provider_id: String, model: String },
    /// The external refresh operation is running.
    AwaitingRefresh { url: String, body: GeminiRequest, provider_id: String, model: String },
    /// The one HTTP call is in flight.
    AwaitingHttp { model: String },
    /// The dispatch is over.
    Finished,
}

#[verifier::ext_equal]
pub enum DispatchStateView {
    AwaitingCredential {
        url: Seq<char>,
        body: GeminiRequestView,
        provider_id: Seq<char>,
        model: Seq<char>,
    },
    AwaitingRefresh {
        url: Seq<char>,
        body: GeminiRequestView,
        provider_id: Seq<char>,
        model: Seq<char>,
    },
    AwaitingHttp { model: Seq<char> },
    Finished,
}

impl View for DispatchState {
    type V = DispatchStateView;

    open spec fn view(&self) -> DispatchStateView {
        match self {
            DispatchState::AwaitingCredential { url, body, provider_id, model } => {
                DispatchStateView::AwaitingCredential {
                    url: url@,
                    body: body@,
                    provider_id: provider_id@,
                    model: model@,
                }
            },
            DispatchState::AwaitingRefresh { url, body, provider_id, model } => {
                DispatchStateView::AwaitingRefresh {
                    url: url@,
                    body: body@,
                    provider_id: provider_id@,
                    model: model@,
                }
            },
            DispatchState::AwaitingHttp { model } => DispatchStateView::AwaitingHttp {
                model: model@,
            },
            DispatchState::Finished => DispatchStateView::Finished,
        }
    }
}

/// The external work the caller must perform next.
pub enum DispatchAction {
    /// Ask the token store for this provider's credential.
    LookupCredential { provider_id: String },
    /// Run the external refresh operation for this provider.
    RefreshCredential { provider_id: String },
    /// Issue the one HTTP call: a JSON post of the body to the URL with
    /// exactly these headers.
    SendHttp { url: String, headers: Vec<(String, String)>, body: GeminiRequest },
    /// Hand this outcome to the adapter's caller; nothing else runs.
    Finish { outcome: Result<ProviderResponse, ProviderError> },
}

#[verifier::ext_equal]
pub enum DispatchActionView {
    LookupCredential { provider_id: Seq<char> },
    RefreshCredential { provider_id: Seq<char> },
    SendHttp {
        url: Seq<char>,
        headers: Seq<(Seq<char>, Seq<char>)>,
        body: GeminiRequestView,
    },
    Finish { outcome: Result<ResponseView, ProviderErrorView> },
}

impl View for DispatchAction {
    type V = DispatchActionView;

    open spec fn view(&self) -> DispatchActionView {
        match self {
            DispatchAction::LookupCredential { provider_id } => {
                DispatchActionView::LookupCredential { provider_id: provider_id@ }
            },
            DispatchAction::RefreshCredential { provider_id } => {
                DispatchActionView::RefreshCredential { provider_id: provider_id@ }
            },
            DispatchAction::SendHttp { url, headers, body } => DispatchActionView::SendHttp {
                url: url@,
                headers: headers.deep_view(),
                body: body@,
            },
            DispatchAction::Finish { outcome } => DispatchActionView::Finish {
                outcome: match outcome {
                    Ok(resp) => Ok(resp@),
                    Err(e) => Err(e@),
                },
            },
        }
    }
}

/// What the external work reported back.
pub enum DispatchEvent {
    /// The token store answered the lookup.
    CredentialLookedUp { credential: Option<Credential> },
    /// The external refresh operation ended.
    CredentialRefreshed { outcome: Result<Credential, String> },
    /// The HTTP call returned success and its body parsed as a provider
    /// response.
    HttpSucceeded { response: GeminiResponse },
    /// The HTTP call returned a non-success status; the body, when it could
    /// be read.
    HttpFailed { status: u16, body: Option<String> },
    /// The transport failed or the success body could not be decoded.
    HttpTransportFailed { message: String },
}

#[verifier::ext_equal]
pub enum DispatchEventView {
    CredentialLookedUp { credential: Option<CredentialView> },
    CredentialRefreshed { outcome: Result<CredentialView, Seq<char>> },
    HttpSucceeded { response: GeminiResponseView },
    HttpFailed { status: u16, body: Option<Seq<char>> },
    HttpTransportFailed { message: Seq<char> },
}

impl View for DispatchEvent {
    type V = DispatchEventView;

    open spec fn view(&self) -> DispatchEventView {
        match self {
            DispatchEvent::CredentialLookedUp { credential } => {
                DispatchEventView::CredentialLookedUp { credential: credential.deep_view() }
            },
            DispatchEvent::CredentialRefreshed { outcome } => {
                DispatchEventView::CredentialRefreshed {
                    outcome: match outcome {
                        Ok(c) => Ok(c@),
                        Err(e) => Err(e@),
                    },
                }
            },
            DispatchEvent::HttpSucceeded { response } => DispatchEventView::HttpSucceeded {
                response: response@,
            },
            DispatchEvent::HttpFailed { status, body } => DispatchEventView::HttpFailed {
                status: *status,
                body: body.deep_view(),
            },
            DispatchEvent::HttpTransportFailed { message } => {
                DispatchEventView::HttpTransportFailed { message: message@ }
            },
        }
    }
}

/// The headers of the one HTTP call: the JSON content type, then the
/// resolved authorization header when there is one, then every configured
/// custom header in order.
pub open spec fn spec_request_headers(
    custom: Seq<(Seq<char>, Seq<char>)>,
    auth: Option<Seq<char>>,
) -> Seq<(Seq<char>, Seq<char>)> {
    seq![("Content-Type"@, "application/json"@)] + match auth {
        Some(h) => seq![("Authorization"@, h)],
        None => Seq::empty(),
    } + custom
}

/// The placeholder body of a failure response that could not be read.
pub open spec fn spec_unknown_error_message() -> Seq<char> {
    "Unknown error"@
}

/// The failure message when an event is fed to a dispatch state it does not
/// belong to.
pub open spec fn spec_protocol_message() -> Seq<char> {
    "Dispatch event does not match dispatch state"@
}

/// The first step of a dispatch: the request is transformed and the URL
/// built; a store-backed strategy must look its credential up first, any
/// other goes straight to the HTTP call with no authorization header.
pub open spec fn spec_begin_dispatch(c: ProviderView, r: RequestView) -> (DispatchStateView,
    DispatchActionView) {
    let body = spec_transform_request(r);
    let url = spec_build_url(c, r.model);
    match c.strategy {
        AuthStrategyView::OAuth { provider_id } => (
            DispatchStateView::AwaitingCredential { url, body, provider_id, model: r.model },
            DispatchActionView::LookupCredential { provider_id },
        ),
        _ => (
            DispatchStateView::AwaitingHttp { model: r.model },
            DispatchActionView::SendHttp {
                url,
                headers: spec_request_headers(c.custom_headers, None),
                body,
            },
        ),
    }
}

/// One step of the dispatch: the reaction to one external outcome. `ts` is
/// the wall-clock millisecond read when a success response is transformed;
/// no other step reads the clock.
pub open spec fn spec_dispatch_step(
    c: ProviderView,
    s: DispatchStateView,
    e: DispatchEventView,
    ts: i64,
) -> (DispatchStateView, DispatchActionView) {
    match (s, e) {
        (
            DispatchStateView::AwaitingCredential { url, body, provider_id, model },
            DispatchEventView::CredentialLookedUp { credential },
        ) => match credential {
            None => (
                DispatchStateView::Finished,
                DispatchActionView::Finish {
                    outcome: Err(
                        ProviderErrorView::AuthError(spec_missing_credential_message(provider_id)),
                    ),
                },
            ),
            Some(cred) => if cred.needs_refresh {
                (
                    DispatchStateView::AwaitingRefresh { url, body, provider_id, model },
                    DispatchActionView::RefreshCredential { provider_id },
                )
            } else {
                (
                    DispatchStateView::AwaitingHttp { model },
                    DispatchActionView::SendHttp {
                        url,
                        headers: spec_request_headers(
                            c.custom_headers,
                            Some(spec_bearer(cred.access_token)),
                        ),
                        body,
                    },
                )
            },
        },
        (
            DispatchStateView::AwaitingRefresh { url, body, provider_id, model },
            DispatchEventView::CredentialRefreshed { outcome },
        ) => match outcome {
            Ok(cred) => (
                DispatchStateView::AwaitingHttp { model },
                DispatchActionView::SendHttp {
                    url,
                    headers: spec_request_headers(
                        c.custom_headers,
                        Some(spec_bearer(cred.access_token)),
                    ),
                    body,
                },
            ),
            Err(error) => (
                DispatchStateView::Finished,
                DispatchActionView::Finish {
                    outcome: Err(ProviderErrorView::AuthError(spec_refresh_failed_message(error))),
                },
            ),
        },
        (
            DispatchStateView::AwaitingHttp { model },
            DispatchEventView::HttpSucceeded { response },
        ) => (
            DispatchStateView::Finished,
            DispatchActionView::Finish {
                outcome: if response.candidates.len() > 0 {
                    Ok(spec_transform_response(response, model, ts))
                } else {
                    Err(ProviderErrorView::TransformError(spec_no_candidates_message()))
                },
            },
        ),
        (
            DispatchStateView::AwaitingHttp { .. },
            DispatchEventView::HttpFailed { status, body },
        ) => (
            DispatchStateView::Finished,
            DispatchActionView::Finish {
                outcome: Err(
                    ProviderErrorView::ApiError {
                        status,
                        message: match body {
                            Some(b) => b,
                            None => spec_unknown_error_message(),
                        },
                    },
                ),
            },
        ),
        (
            DispatchStateView::AwaitingHttp { .. },
            DispatchEventView::HttpTransportFailed { message },
        ) => (
            DispatchStateView::Finished,
            DispatchActionView::Finish {
                outcome: Err(ProviderErrorView::NetworkError(message)),
            },
        ),
        _ => (
            DispatchStateView::Finished,
            DispatchActionView::Finish {
                outcome: Err(ProviderErrorView::ConfigError(spec_protocol_message())),
            },
        ),
    }
}

impl GeminiProvider {
    fn request_headers(&self, auth: Option<String>) -> (hs: Vec<(String, String)>)
        ensures
            hs.deep_view() == spec_request_headers(self@.custom_headers, auth.deep_view()),
    {
        let ghost auth_v: Option<Seq<char>> = auth.deep_view();
        let mut hs: Vec<(String, String)> = Vec::new();
        hs.push(("Content-Type".to_owned(), "application/json".to_owned()));
        match auth {
            Some(h) => {
                hs.push(("Authorization".to_owned(), h));
            },
            None => {},
        }
        let ghost prefix: Seq<(Seq<char>, Seq<char>)> = hs.deep_view();
        proof {
            assert(prefix =~~= seq![("Content-Type"@, "application/json"@)] + match auth_v {
                Some(h) => seq![("Authorization"@, h)],
                None => Seq::<(Seq<char>, Seq<char>)>::empty(),
            });
        }
        let mut i: usize = 0;
        while i < self.custom_headers.len()
            invariant
                0 <= i <= self.custom_headers@.len(),
                hs.deep_view() == prefix + self@.custom_headers.take(i as int),
            decreases self.custom_headers@.len() - i,
        {
            let ghost before: Seq<(Seq<char>, Seq<char>)> = hs.deep_view();
            let key = self.custom_headers[i].0.clone();
            let value = self.custom_headers[i].1.clone();
            hs.push((key, value));
            proof {
                assert(key@ == self.custom_headers@[i as int].0@);
                assert(value@ == self.custom_headers@[i as int].1@);
                assert(hs.deep_view() =~~= before.push((key@, value@)));
                assert(self@.custom_headers.take(i + 1) =~~= self@.custom_headers.take(
                    i as int,
                ).push(self@.custom_headers[i as int]));
                assert(hs.deep_view() =~~= prefix + self@.custom_headers.take(i + 1));
            }
            i += 1;
        }
        proof {
            assert(self@.custom_headers.take(self.custom_headers@.len() as int)
                =~~= self@.custom_headers);
            assert(hs.deep_view() =~~= spec_request_headers(self@.custom_headers, auth_v));
        }
        hs
    }

    /// Starts a dispatch for one canonical request; nothing external has
    /// happened yet when this returns.
    pub fn begin_dispatch(&self, request: &AnthropicRequest) -> (r: (
        DispatchState,
        DispatchAction,
    ))
        ensures
            r.0@ == spec_begin_dispatch(self@, request@).0,
            r.1@ == spec_begin_dispatch(self@, request@).1,
    {
        let body = match transform_request(request) {
            Ok(b) => b,
            Err(_) => unreached(),
        };
        let url = self.build_url(request.model.as_str());
        match &self.strategy {
            AuthStrategy::OAuth { provider_id } => {
                let state = DispatchState::AwaitingCredential {
                    url,
                    body,
                    provider_id: provider_id.clone(),
                    model: request.model.clone(),
                };
                let action = DispatchAction::LookupCredential {
                    provider_id: provider_id.clone(),
                };
                proof {
                    assert(state@ =~~= spec_begin_dispatch(self@, request@).0);
                    assert(action@ =~~= spec_begin_dispatch(self@, request@).1);
                }
                (state, action)
            },
            _ => {
                let headers = self.request_headers(None);
                let state = DispatchState::AwaitingHttp { model: request.model.clone() };
                let action = DispatchAction::SendHttp { url, headers, body };
                proof {
                    assert(state@ =~~= spec_begin_dispatch(self@, request@).0);
                    assert(action@ =~~= spec_begin_dispatch(self@, request@).1);
                }
                (state, action)
            },
        }
    }

    /// Advances a dispatch by one external outcome. Only the reaction to a
    /// success response reads the clock, for the synthesized identifier, so
    /// the step is pinned up to that one reading.
    pub fn dispatch_step(&self, state: DispatchState, event: DispatchEvent) -> (r: (
        DispatchState,
        DispatchAction,
    ))
        ensures
            exists|ts: i64| #[trigger] spec_dispatch_step(self@, state@, event@, ts) == (
                r.0@,
                r.1@,
            ),
    {
        let ghost s0 = state@;
        let ghost e0 = event@;
        match (state, event) {
            (
                DispatchState::AwaitingCredential { url, body, provider_id, model },
                DispatchEvent::CredentialLookedUp { credential },
            ) => {
                let step = auth_after_lookup(provider_id.as_str(), credential.as_ref());
                let r = match step {
                    Err(e) => (
                        DispatchState::Finished,
                        DispatchAction::Finish { outcome: Err(e) },
                    ),
                    Ok(AuthStep::NeedsRefresh) => (
                        DispatchState::AwaitingRefresh {
                            url,
                            body,
                            provider_id: provider_id.clone(),
                            model,
                        },
                        DispatchAction::RefreshCredential { provider_id },
                    ),
                    Ok(AuthStep::UseHeader { header }) => {
                        let headers = self.request_headers(header);
                        (
                            DispatchState::AwaitingHttp { model },
                            DispatchAction::SendHttp { url, headers, body },
                        )
                    },
                };
                proof {
                    assert(spec_dispatch_step(self@, s0, e0, 0) == (r.0@, r.1@)) by {
                        assert(spec_dispatch_step(self@, s0, e0, 0).0 =~~= r.0@);
                        assert(spec_dispatch_step(self@, s0, e0, 0).1 =~~= r.1@);
                    }
                }
                r
            },
            (
                DispatchState::AwaitingRefresh { url, body, provider_id: _, model },
                DispatchEvent::CredentialRefreshed { outcome },
            ) => {
                let r = match auth_after_refresh(outcome) {
                    Ok(header) => {
                        let headers = self.request_headers(Some(header));
                        (
                            DispatchState::AwaitingHttp { model },
                            DispatchAction::SendHttp { url, headers, body },
                        )
                    },
                    Err(e) => (
                        DispatchState::Finished,
                        DispatchAction::Finish { outcome: Err(e) },
                    ),
                };
                proof {
                    assert(spec_dispatch_step(self@, s0, e0, 0) == (r.0@, r.1@)) by {
                        assert(spec_dispatch_step(self@, s0, e0, 0).0 =~~= r.0@);
                        assert(spec_dispatch_step(self@, s0, e0, 0).1 =~~= r.1@);
                    }
                }
                r
            },
            (
                DispatchState::AwaitingHttp { model },
                DispatchEvent::HttpSucceeded { response },
            ) => {
                let ts = now_millis();
                let outcome = transform_response_at(&response, model, ts);
                let r = (DispatchState::Finished, DispatchAction::Finish { outcome });
                proof {
                    assert(spec_dispatch_step(self@, s0, e0, ts) == (r.0@, r.1@)) by {
                        assert(spec_dispatch_step(self@, s0, e0, ts).0 =~~= r.0@);
                        assert(spec_dispatch_step(self@, s0, e0, ts).1 =~~= r.1@);
                    }
                }
                r
            },
            (DispatchState::AwaitingHttp { model: _ }, DispatchEvent::HttpFailed { status, body }) => {
                let message = match body {
                    Some(b) => b,
                    None => "Unknown error".to_owned(),
                };
                let r = (
                    DispatchState::Finished,
                    DispatchAction::Finish {
                        outcome: Err(ProviderError::ApiError { status, message }),
                    },
                );
                proof {
                    assert(spec_dispatch_step(self@, s0, e0, 0) == (r.0@, r.1@)) by {
                        assert(spec_dispatch_step(self@, s0, e0, 0).0 =~~= r.0@);
                        assert(spec_dispatch_step(self@, s0, e0, 0).1 =~~= r.1@);
                    }
                }
                r
            },
            (
                DispatchState::AwaitingHttp { model: _ },
                DispatchEvent::HttpTransportFailed { message },
            ) => {
                let r = (
                    DispatchState::Finished,
                    DispatchAction::Finish {
                        outcome: Err(ProviderError::NetworkError(message)),
                    },
                );
                proof {
                    assert(spec_dispatch_step(self@, s0, e0, 0) == (r.0@, r.1@)) by {
                        assert(spec_dispatch_step(self@, s0, e0, 0).0 =~~= r.0@);
                        assert(spec_dispatch_step(self@, s0, e0, 0).1 =~~= r.1@);
                    }
                }
                r
            },
            (_, _) => {
                let r = (
                    DispatchState::Finished,
                    DispatchAction::Finish {
                        outcome: Err(
                            ProviderError::ConfigError(
                                "Dispatch event does not match dispatch state".to_owned(),
                            ),
                        ),
                    },
                );
                proof {
                    assert(spec_dispatch_step(self@, s0, e0, 0) == (r.0@, r.1@)) by {
                        assert(spec_dispatch_step(self@, s0, e0, 0).0 =~~= r.0@);
                        assert(spec_dispatch_step(self@, s0, e0, 0).1 =~~= r.1@);
                    }
                }
                r
            },
        }
    }
}

} // verus!
