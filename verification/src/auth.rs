//! Authentication: who made a request, and what the authentication layer
//! does when the identity cannot be established.

use vstd::prelude::*;
use crate::text::{owned, str_eq};

verus! {

/// The identity attached to a request.
#[derive(Debug)]
#[allow(inconsistent_fields)]
pub enum AuthContext {
    /// No identity
    Anonymous,
    /// An end user of a tenant
    User { user_id: u128, tenant_id: u128, roles: Vec<String> },
    /// A platform administrator
    Admin { admin_id: u128 },
    /// A calling service, possibly acting for a tenant
    Service { service_name: String, tenant_id: Option<u128> },
    /// The owner of a resource within a tenant
    Owner { user_id: u128, tenant_id: u128 },
}

/// The tenant an identity belongs to.
pub open spec fn spec_tenant_of(a: AuthContext) -> Option<u128> {
    match a {
        AuthContext::User { tenant_id, .. } => Some(tenant_id),
        AuthContext::Owner { tenant_id, .. } => Some(tenant_id),
        AuthContext::Service { tenant_id, .. } => tenant_id,
        _ => None,
    }
}

impl AuthContext {
    /// The tenant this identity belongs to, if any.
    pub fn tenant_id(&self) -> (r: Option<u128>)
        ensures
            r == spec_tenant_of(*self),
    {
        match self {
            AuthContext::User { tenant_id, .. } => Some(*tenant_id),
            AuthContext::Owner { tenant_id, .. } => Some(*tenant_id),
            AuthContext::Service { tenant_id, .. } => *tenant_id,
            _ => None,
        }
    }

    /// Whether this identity is an administrator.
    pub fn is_admin(&self) -> (r: bool)
        ensures
            r == (*self is Admin),
    {
        match self {
            AuthContext::Admin { .. } => true,
            _ => false,
        }
    }
}

/// Auth middleware layer: the identity provider and the default policy
/// from the configuration (e.g. "public", "authenticated").
pub struct AuthLayer<P> {
    provider: P,
    default_policy: String,
}

impl<P> AuthLayer<P> {
    /// The identity provider.
    pub closed spec fn spec_provider(&self) -> P {
        self.provider
    }

    /// The default policy.
    pub closed spec fn spec_default_policy(&self) -> Seq<char> {
        self.default_policy@
    }

    /// Create a new auth layer with the given provider.
    pub fn new(provider: P, default_policy: String) -> (r: AuthLayer<P>)
        ensures
            r.spec_provider() == provider,
            r.spec_default_policy() == default_policy@,
    {
        AuthLayer { provider, default_policy }
    }

    /// The identity provider.
    pub fn provider(&self) -> (r: &P)
        ensures
            *r == self.spec_provider(),
    {
        &self.provider
    }

    /// The default policy.
    pub fn default_policy(&self) -> (r: &str)
        ensures
            r@ == self.spec_default_policy(),
    {
        self.default_policy.as_str()
    }

    /// What the middleware does with the provider's answer for a request.
    pub fn decide(&self, extracted: Result<AuthContext, String>) -> (r: AuthOutcome)
        ensures
            spec_auth_outcome(extracted, self.spec_default_policy(), r),
    {
        auth_decision(extracted, self.default_policy.as_str())
    }
}

/// Create the auth layer for a provider and default policy.
pub fn build_auth_layer<P>(provider: P, default_policy: String) -> (r: AuthLayer<P>)
    ensures
        r.spec_provider() == provider,
        r.spec_default_policy() == default_policy@,
{
    AuthLayer::new(provider, default_policy)
}

/// What the authentication middleware does with a request.
#[derive(Debug)]
pub enum AuthOutcome {
    /// Attach the identity to the request and pass it on
    Proceed(AuthContext),
    /// Answer 401 with `WWW-Authenticate: Bearer` and this body
    Unauthorized { message: String },
}

/// A recognised identity is attached; without one the request goes on as
/// anonymous when the default policy is "public", and is refused with
/// "Unauthorized: <reason>" otherwise.
pub open spec fn spec_auth_outcome(
    extracted: Result<AuthContext, String>,
    default_policy: Seq<char>,
    r: AuthOutcome,
) -> bool {
    match extracted {
        Ok(ctx) => r == AuthOutcome::Proceed(ctx),
        Err(e) => if default_policy == "public"@ {
            r == AuthOutcome::Proceed(AuthContext::Anonymous)
        } else {
            r matches AuthOutcome::Unauthorized { message } && message@ == "Unauthorized: "@ + e@
        },
    }
}

/// Decide the fate of a request from the provider's answer and the
/// default policy.
pub fn auth_decision(extracted: Result<AuthContext, String>, default_policy: &str) -> (r:
    AuthOutcome)
    ensures
        spec_auth_outcome(extracted, default_policy@, r),
{
    match extracted {
        Ok(ctx) => AuthOutcome::Proceed(ctx),
        Err(e) => {
            if str_eq(default_policy, "public") {
                AuthOutcome::Proceed(AuthContext::Anonymous)
            } else {
                let mut m = owned("Unauthorized: ");
                m.append(e.as_str());
                AuthOutcome::Unauthorized { message: m }
            }
        },
    }
}

} // verus!
