//! Who is asking: the claims an authorizer attached to a request.
//!
//! The request context, the authorizer's part of it and the JSON values it
//! holds belong to the gateway's libraries. This module reads them through
//! three of their functions, whose contracts are taken on trust, and does
//! the rest on plain text.

use lambda_http::aws_lambda_events::apigw::ApiGatewayRequestAuthorizer;
use lambda_http::request::RequestContext;
use serde_json::Value;
use vstd::prelude::*;
use crate::text::{lemma_split_is_never_empty, split, split_on};

verus! {

/// The context that a gateway attaches to a request. Nothing is known of
/// what it holds but what [`authorizer_of`] names.
#[verifier::external_type_specification]
#[verifier::external_body]
pub struct ExRequestContext(RequestContext);

/// What an authorizer said of a caller. Nothing is known of what it holds
/// but what [`claim_of`] names.
#[verifier::external_type_specification]
#[verifier::external_body]
pub struct ExApiGatewayRequestAuthorizer(ApiGatewayRequestAuthorizer);

/// A JSON value. Nothing is known of what it holds but what [`text_of`]
/// names.
#[verifier::external_type_specification]
#[verifier::external_body]
pub struct ExValue(Value);

/// The authorizer's part of a request context, if the context has one.
pub uninterp spec fn authorizer_of(context: RequestContext) -> Option<ApiGatewayRequestAuthorizer>;

/// The value that an authorizer claimed under a name, if it claimed one.
pub uninterp spec fn claim_of(authorizer: ApiGatewayRequestAuthorizer, name: Seq<char>) -> Option<
    Value,
>;

/// The text of a JSON value that is a string; nothing for any other value.
pub uninterp spec fn text_of(value: Value) -> Option<Seq<char>>;

/// `RequestContext::authorizer` of `lambda_http` gives the authorizer's
/// part of a context: that of a REST or WebSocket gateway always, that of
/// an HTTP gateway where the request went through an authorizer, none for
/// any other context. The contract claims no more than that the result is
/// a function of the context, and gives it its name.
pub assume_specification[ RequestContext::authorizer ](context: &RequestContext) -> (authorizer:
    Option<&ApiGatewayRequestAuthorizer>)
    ensures
        match authorizer {
            Some(found) => authorizer_of(*context) == Some(*found),
            None => authorizer_of(*context) is None,
        },
;

/// `Value::as_str` of `serde_json` gives the text of a value that is a
/// string, and nothing for any other value. The contract claims no more
/// than that the result is a function of the value, and gives it its name.
pub assume_specification[ Value::as_str ](value: &Value) -> (text: Option<&str>)
    ensures
        match text {
            Some(found) => text_of(*value) == Some(found@),
            None => text_of(*value) is None,
        },
;

/// Looks a claim up in the authorizer's `fields` with `HashMap::get`, which
/// gives the value filed under a key equal to `name`, if there is one. The
/// contract claims no more than that the result is a function of the
/// authorizer and the name, and gives it its name.
#[verifier::external_body]
fn claim<'a>(authorizer: &'a ApiGatewayRequestAuthorizer, name: &str) -> (value: Option<&'a Value>)
    ensures
        match value {
            Some(found) => claim_of(*authorizer, name@) == Some(*found),
            None => claim_of(*authorizer, name@) is None,
        },
{
    authorizer.fields.get(name)
}

/// The claims of one caller.
///
/// The identity claim has the form `provider:address`. A claim without a
/// colon names a provider and no address; what follows a second colon is
/// not part of the address.
#[derive(Debug, PartialEq, Eq)]
pub struct AuthorizationContext {
    namespace: Option<String>,
    id: Option<String>,
    provider: Option<String>,
    address: Option<String>,
    scopes: Vec<String>,
}

/// What an [`AuthorizationContext`] holds.
pub struct AuthorizationContextView {
    pub namespace: Option<Seq<char>>,
    pub id: Option<Seq<char>>,
    pub provider: Option<Seq<char>>,
    pub address: Option<Seq<char>>,
    pub scopes: Seq<Seq<char>>,
}

impl View for AuthorizationContext {
    type V = AuthorizationContextView;

    closed spec fn view(&self) -> AuthorizationContextView {
        AuthorizationContextView {
            namespace: self.namespace.deep_view(),
            id: self.id.deep_view(),
            provider: self.provider.deep_view(),
            address: self.address.deep_view(),
            scopes: self.scopes.deep_view(),
        }
    }
}

impl DeepView for AuthorizationContext {
    type V = AuthorizationContextView;

    open spec fn deep_view(&self) -> AuthorizationContextView {
        self@
    }
}

/// The provider named by an identity claim: what stands before the first
/// colon, or the whole claim if it has no colon.
pub open spec fn provider_of(id: Seq<char>) -> Seq<char> {
    split(id, ':')[0]
}

/// The address named by an identity claim: what stands between the first
/// colon and the second, or after the first if there is no second; nothing
/// if the claim has no colon.
pub open spec fn address_of(id: Seq<char>) -> Option<Seq<char>> {
    let pieces = split(id, ':');
    if pieces.len() > 1 {
        Some(pieces[1])
    } else {
        None
    }
}

/// The context that a set of claims amounts to: namespace and identity as
/// claimed, provider and address read off the identity, and the scopes
/// claim cut at every space.
pub open spec fn claimed(
    namespace: Option<Seq<char>>,
    id: Option<Seq<char>>,
    scopes: Seq<char>,
) -> AuthorizationContextView {
    AuthorizationContextView {
        namespace,
        id,
        provider: match id {
            Some(id) => Some(provider_of(id)),
            None => None,
        },
        address: match id {
            Some(id) => address_of(id),
            None => None,
        },
        scopes: split(scopes, ' '),
    }
}

/// The text of the claim that an authorizer made under `name`: nothing if
/// it made no such claim, or if what it claimed is not a string.
pub open spec fn claim_text(authorizer: ApiGatewayRequestAuthorizer, name: Seq<char>) -> Option<
    Seq<char>,
> {
    match claim_of(authorizer, name) {
        Some(value) => text_of(value),
        None => None,
    }
}

/// Why a request context gives no authorization context.
#[derive(Clone, Copy, Debug, PartialEq, Eq, Structural)]
pub enum ClaimsError {
    /// The request context has no authorizer's part.
    MissingAuthorizer,
    /// The authorizer made no `scopes` claim, or one that is not a string.
    MissingScopes,
}

/// What a request context amounts to: the context of the claims
/// `namespace`, `id` and `scopes` of its authorizer, where it has an
/// authorizer and the authorizer claims scopes.
pub open spec fn authorized(context: RequestContext) -> Result<
    AuthorizationContextView,
    ClaimsError,
> {
    match authorizer_of(context) {
        None => Err(ClaimsError::MissingAuthorizer),
        Some(authorizer) => match claim_text(authorizer, "scopes"@) {
            None => Err(ClaimsError::MissingScopes),
            Some(scopes) => Ok(
                claimed(
                    claim_text(authorizer, "namespace"@),
                    claim_text(authorizer, "id"@),
                    scopes,
                ),
            ),
        },
    }
}

/// The text of the claim that an authorizer made under `name`.
pub fn read_claim(authorizer: &ApiGatewayRequestAuthorizer, name: &str) -> (text: Option<String>)
    ensures
        text.deep_view() == claim_text(*authorizer, name@),
{
    match claim(authorizer, name) {
        Some(value) => match value.as_str() {
            Some(text) => Some(text.to_owned()),
            None => None,
        },
        None => None,
    }
}

impl AuthorizationContextView {
    /// Provider and address are those that the identity names.
    pub open spec fn consistent(self) -> bool {
        match self.id {
            Some(id) => self.provider == Some(provider_of(id)) && self.address == address_of(id),
            None => self.provider is None && self.address is None,
        }
    }
}

impl AuthorizationContext {
    /// Every context is consistent: provider and address are never set
    /// apart from the identity.
    #[verifier::type_invariant]
    spec fn well_formed(&self) -> bool {
        self@.consistent()
    }

    /// The context of the caller whose claims the authorizer attached to
    /// the request.
    ///
    /// Fails exactly where the request context has no authorizer's part, or
    /// where the authorizer claims no scopes.
    pub fn new(request_context: &RequestContext) -> (context: Result<Self, ClaimsError>)
        ensures
            authorized(*request_context) == match context {
                Ok(found) => Ok(found@),
                Err(error) => Err(error),
            },
            context matches Ok(found) ==> found@.consistent(),
    {
        let authorizer = match request_context.authorizer() {
            Some(authorizer) => authorizer,
            None => {
                return Err(ClaimsError::MissingAuthorizer);
            },
        };
        let namespace = read_claim(authorizer, "namespace");
        let id = read_claim(authorizer, "id");
        match read_claim(authorizer, "scopes") {
            Some(scopes) => Ok(AuthorizationContext::from_claims(namespace, id, scopes.as_str())),
            None => Err(ClaimsError::MissingScopes),
        }
    }

    /// The context of a caller with the given claims.
    ///
    /// `scopes` is the scopes claim as issued, one scope after another with
    /// a single space between them.
    pub fn from_claims(namespace: Option<String>, id: Option<String>, scopes: &str) -> (context:
        Self)
        ensures
            context@ == claimed(namespace.deep_view(), id.deep_view(), scopes@),
            context@.consistent(),
    {
        let scopes = split_on(scopes, ' ');
        let (provider, address) = match &id {
            Some(id) => {
                let pieces = split_on(id.as_str(), ':');
                proof {
                    lemma_split_is_never_empty(id@, ':');
                }
                let provider = pieces[0].clone();
                let address = if pieces.len() > 1 {
                    Some(pieces[1].clone())
                } else {
                    None
                };
                (Some(provider), address)
            },
            None => (None, None),
        };
        AuthorizationContext { namespace, id, provider, address, scopes }
    }

    /// The identity as claimed.
    pub fn id(&self) -> (id: &Option<String>)
        ensures
            id.deep_view() == self@.id,
    {
        &self.id
    }

    /// The namespace as claimed.
    pub fn namespace(&self) -> (namespace: &Option<String>)
        ensures
            namespace.deep_view() == self@.namespace,
    {
        &self.namespace
    }

    /// The provider that the identity names.
    pub fn provider(&self) -> (provider: &Option<String>)
        ensures
            provider.deep_view() == self@.provider,
            self@.consistent(),
    {
        proof {
            use_type_invariant(self);
        }
        &self.provider
    }

    /// The address that the identity names.
    pub fn address(&self) -> (address: &Option<String>)
        ensures
            address.deep_view() == self@.address,
            self@.consistent(),
    {
        proof {
            use_type_invariant(self);
        }
        &self.address
    }

    /// The scopes the caller was granted, in the order of the claim.
    pub fn scopes(&self) -> (scopes: &Vec<String>)
        ensures
            scopes.deep_view() == self@.scopes,
    {
        &self.scopes
    }
}

} // verus!
