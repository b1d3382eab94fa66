//! The decision on one request's origin.
use vstd::prelude::*;
use crate::pattern::{pattern_matches, whole_match};
use crate::policy::{fixed_methods, rule_views, CorsPolicy, Method, OriginRule, RuleModel};

verus! {

/// Whether `rule` allows `origin`.
pub open spec fn rule_allows(rule: RuleModel, origin: Seq<char>) -> bool {
    match rule {
        RuleModel::Exact(s) => s == origin,
        RuleModel::Pattern(p) => whole_match(p, origin),
    }
}

/// Whether some rule of `rules` allows `origin`; their order does not matter.
pub open spec fn rules_allow(rules: Seq<RuleModel>, origin: Seq<char>) -> bool {
    exists|i: int| 0 <= i < rules.len() && rule_allows(#[trigger] rules[i], origin)
}

/// The header values sent back to an allowed origin.
pub struct AllowedResponse {
    /// The request's own origin, never a wildcard.
    pub allow_origin: String,
    /// The methods that the origin may use.
    pub allow_methods: Vec<Method>,
    /// Whether every request header is allowed.
    pub allow_any_header: bool,
    /// Whether credentials may be sent; never.
    pub allow_credentials: bool,
}

/// The outcome for one request.
pub enum AccessDecision {
    /// No `Origin` header: not a cross-origin request, no CORS headers.
    NotApplicable,
    /// The origin is not allowed: no CORS headers, the browser blocks the page.
    Denied,
    /// The origin is allowed, with these header values.
    Allowed(AllowedResponse),
}

/// A copy of `methods`.
fn copy_methods(methods: &Vec<Method>) -> (r: Vec<Method>)
    ensures
        r@ == methods@,
{
    let mut r: Vec<Method> = Vec::new();
    let mut m: usize = 0;
    while m < methods.len()
        invariant
            m <= methods@.len(),
            r@ == methods@.take(m as int),
        decreases methods@.len() - m,
    {
        r.push(methods[m]);
        m += 1;
        proof {
            assert(r@ =~= methods@.take(m as int));
        }
    }
    proof {
        assert(r@ =~= methods@);
    }
    r
}

impl CorsPolicy {
    /// Decides on a request whose `Origin` header is `origin`, if it has one.
    ///
    /// Without the header nothing is decided. Otherwise the origin is allowed
    /// when some rule allows it: an exact rule by equality, a pattern when it
    /// matches the whole origin. An allowed origin is echoed back with the
    /// policy's methods, every header, and no credentials.
    pub fn decide(&self, origin: Option<&str>) -> (r: AccessDecision)
        ensures
            origin is None <==> r is NotApplicable,
            origin matches Some(o) ==> (r is Allowed <==> rules_allow(self@.rules, o@)),
            r matches AccessDecision::Allowed(a) ==> (origin matches Some(o) && a.allow_origin@ == o@
                && a.allow_methods@ == fixed_methods() && a.allow_any_header
                && !a.allow_credentials),
    {
        proof {
            use_type_invariant(self);
            self.lemma_view_parts();
        }
        let o = match origin {
            None => {
                return AccessDecision::NotApplicable;
            },
            Some(o) => o,
        };
        let requested = o.to_owned();
        let mut i: usize = 0;
        while i < self.origin_rules.len()
            invariant
                i <= self.origin_rules@.len(),
                requested@ == o@,
                origin == Some(o),
                self@.rules == rule_views(self.origin_rules@),
                self.allowed_methods@ == fixed_methods(),
                self.allow_any_header,
                !self.allow_credentials,
                forall|k: int| 0 <= k < i ==> !rule_allows(#[trigger] rule_views(self.origin_rules@)[k], o@),
            decreases self.origin_rules@.len() - i,
        {
            let allows = match &self.origin_rules[i] {
                OriginRule::Exact(s) => *s == requested,
                OriginRule::Pattern(p) => pattern_matches(p.as_str(), o),
            };
            if allows {
                let methods = copy_methods(&self.allowed_methods);
                proof {
                    assert(rule_allows(rule_views(self.origin_rules@)[i as int], o@));
                }
                return AccessDecision::Allowed(
                    AllowedResponse {
                        allow_origin: requested,
                        allow_methods: methods,
                        allow_any_header: self.allow_any_header,
                        allow_credentials: self.allow_credentials,
                    },
                );
            }
            i += 1;
        }
        AccessDecision::Denied
    }
}

} // verus!
