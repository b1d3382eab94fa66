//! Cross-origin access policy of a local HTTP API: which browser origins may
//! read its responses, and the header values that say so.
//!
//! [`cors`] builds a [`CorsPolicy`] once from a [`PolicyConfig`];
//! [`CorsPolicy::decide`] then answers each request from the request's
//! `Origin` header alone.

mod decimal;
mod laws;
mod matcher;
mod pattern;
mod policy;

pub use decimal::{decimal_digits, digit_char};
pub use laws::{
    lemma_chrome_extensions_allowed_in_test_mode, lemma_extra_origin_exact,
    lemma_firefox_extensions_allowed, lemma_other_chrome_extensions_denied,
    lemma_own_chrome_extension_allowed, lemma_own_port_allowed, lemma_test_harness_allowed,
    single_line,
};
pub use matcher::{rule_allows, rules_allow, AccessDecision, AllowedResponse};
pub use pattern::{
    anchored, any_suffix, pattern_compiles, pattern_matches, plain, plain_char, prefix_then_line,
    regex_compiles, regex_finds, simple_source, source_compiles, whole_match,
};
pub use policy::{
    any_chrome_extension, any_firefox_extension, cors, exact_origins, exact_rules, fixed_methods,
    localhost_origin, loopback_origin, own_chrome_extension, pattern_rules, pattern_sources,
    policy_rules, rule_compiles, rule_views, string_views, CorsPolicy, Method, OriginRule,
    PolicyConfig, PolicyError, PolicyModel, RuleModel, TEST_HARNESS_PORT,
};
