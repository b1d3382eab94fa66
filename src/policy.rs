//! The policy: which origins are allowed, with which methods and headers.
use vstd::prelude::*;
use crate::decimal::{decimal_digits, write_decimal};
use crate::pattern::{any_suffix, pattern_compiles, plain, plain_char, simple_source, source_compiles};

verus! {

/// The port on which integration tests run their own server.
pub const TEST_HARNESS_PORT: u16 = 27180;

/// What the service is configured with.
pub struct PolicyConfig {
    /// The port the service listens on.
    pub port: u16,
    /// Further origins allowed by exact match, as the operator wrote them.
    pub extra_origins: Vec<String>,
    /// Test mode: the test harness's origins and every Chrome extension are allowed too.
    pub testing: bool,
}

/// The strings of `v` as character sequences.
pub open spec fn string_views(v: Seq<String>) -> Seq<Seq<char>> {
    v.map_values(|s: String| s@)
}

impl PolicyConfig {
    /// The extra origins as character sequences.
    pub open spec fn extras(&self) -> Seq<Seq<char>> {
        string_views(self.extra_origins@)
    }
}

/// A rule that allows origins.
pub enum OriginRule {
    /// Allows the origin equal to this string, character for character.
    Exact(String),
    /// Allows every origin that this regular expression matches as a whole.
    Pattern(String),
}

/// An [`OriginRule`] over character sequences.
pub ghost enum RuleModel {
    Exact(Seq<char>),
    Pattern(Seq<char>),
}

impl View for OriginRule {
    type V = RuleModel;

    open spec fn view(&self) -> RuleModel {
        match self {
            OriginRule::Exact(s) => RuleModel::Exact(s@),
            OriginRule::Pattern(p) => RuleModel::Pattern(p@),
        }
    }
}

/// A request method that cross-origin requests may use.
#[derive(Clone, Copy, Debug, PartialEq, Eq, Structural)]
pub enum Method {
    Get,
    Post,
    Delete,
}

/// Why a policy could not be built.
#[derive(Debug)]
pub enum PolicyError {
    /// This origin pattern is not a valid regular expression.
    InvalidPattern(String),
}

/// The policy as values: its rules, methods and header flags.
pub ghost struct PolicyModel {
    pub rules: Seq<RuleModel>,
    pub methods: Seq<Method>,
    pub any_header: bool,
    pub credentials: bool,
}

/// A built policy. Only [`cors`] makes one, and it is never changed after.
pub struct CorsPolicy {
    pub(crate) origin_rules: Vec<OriginRule>,
    pub(crate) allowed_methods: Vec<Method>,
    /// Every request header is allowed. A list of header names would be the
    /// place to narrow this, should it ever need to be.
    pub(crate) allow_any_header: bool,
    pub(crate) allow_credentials: bool,
}

/// A rule that can be evaluated: an exact origin, or a pattern that compiles.
pub open spec fn rule_compiles(rule: RuleModel) -> bool {
    match rule {
        RuleModel::Exact(_) => true,
        RuleModel::Pattern(p) => source_compiles(p),
    }
}

/// The methods allowed to every allowed origin.
pub open spec fn fixed_methods() -> Seq<Method> {
    seq![Method::Get, Method::Post, Method::Delete]
}

impl View for CorsPolicy {
    type V = PolicyModel;

    closed spec fn view(&self) -> PolicyModel {
        PolicyModel {
            rules: rule_views(self.origin_rules@),
            methods: self.allowed_methods@,
            any_header: self.allow_any_header,
            credentials: self.allow_credentials,
        }
    }
}

impl CorsPolicy {
    /// What the view of a policy is made of.
    pub(crate) proof fn lemma_view_parts(&self)
        ensures
            self@.rules == rule_views(self.origin_rules@),
            self@.methods == self.allowed_methods@,
            self@.any_header == self.allow_any_header,
            self@.credentials == self.allow_credentials,
    {
    }

    #[verifier::type_invariant]
    pub(crate) open spec fn fixed_parts(&self) -> bool {
        &&& self.allowed_methods@ == fixed_methods()
        &&& self.allow_any_header
        &&& !self.allow_credentials
        &&& forall|i: int|
            0 <= i < self.origin_rules@.len() ==> rule_compiles(#[trigger] self.origin_rules@[i]@)
    }
}

/// The origin of a page served by this machine's loopback address on `port`.
pub open spec fn loopback_origin(port: nat) -> Seq<char> {
    "http://127.0.0.1:"@ + decimal_digits(port)
}

/// The origin of a page served by `localhost` on `port`.
pub open spec fn localhost_origin(port: nat) -> Seq<char> {
    "http://localhost:"@ + decimal_digits(port)
}

/// The origin of the first-party Chrome extension.
pub open spec fn own_chrome_extension() -> Seq<char> {
    "chrome-extension://nglaklhklhcoonedhgnpgddginnjdadi"@
}

/// The pattern of every Firefox extension.
pub open spec fn any_firefox_extension() -> Seq<char> {
    "moz-extension://.*"@
}

/// The pattern of every Chrome extension.
pub open spec fn any_chrome_extension() -> Seq<char> {
    "chrome-extension://.*"@
}

/// The origins allowed by exact match.
pub open spec fn exact_origins(port: nat, extras: Seq<Seq<char>>, testing: bool) -> Seq<Seq<char>> {
    seq![loopback_origin(port), localhost_origin(port)] + extras + if testing {
        seq![loopback_origin(TEST_HARNESS_PORT as nat), localhost_origin(TEST_HARNESS_PORT as nat)]
    } else {
        Seq::empty()
    }
}

/// The patterns that origins are matched against.
pub open spec fn pattern_sources(testing: bool) -> Seq<Seq<char>> {
    seq![own_chrome_extension(), any_firefox_extension()] + if testing {
        seq![any_chrome_extension()]
    } else {
        Seq::empty()
    }
}

/// Exact rules for `origins`.
pub open spec fn exact_rules(origins: Seq<Seq<char>>) -> Seq<RuleModel> {
    origins.map_values(|s: Seq<char>| RuleModel::Exact(s))
}

/// Pattern rules for `sources`.
pub open spec fn pattern_rules(sources: Seq<Seq<char>>) -> Seq<RuleModel> {
    sources.map_values(|p: Seq<char>| RuleModel::Pattern(p))
}

/// The rules of `v` as values.
pub open spec fn rule_views(v: Seq<OriginRule>) -> Seq<RuleModel> {
    v.map_values(|r: OriginRule| r@)
}

/// The built-in patterns are literals, or literals followed by `.*`.
pub(crate) proof fn lemma_builtin_patterns_simple()
    ensures
        simple_source(own_chrome_extension()),
        simple_source(any_firefox_extension()),
        simple_source(any_chrome_extension()),
        plain(own_chrome_extension()),
        !plain(any_firefox_extension()),
        !plain(any_chrome_extension()),
        any_firefox_extension().drop_last().drop_last() == "moz-extension://"@,
        any_chrome_extension().drop_last().drop_last() == "chrome-extension://"@,
{
    reveal_strlit("chrome-extension://nglaklhklhcoonedhgnpgddginnjdadi");
    reveal_strlit("moz-extension://.*");
    reveal_strlit("chrome-extension://.*");
    assert(any_firefox_extension().drop_last().drop_last() =~= "moz-extension://"@) by {
        reveal_strlit("moz-extension://");
    }
    assert(any_chrome_extension().drop_last().drop_last() =~= "chrome-extension://"@) by {
        reveal_strlit("chrome-extension://");
    }
    assert(any_firefox_extension().subrange(16, 18) =~= any_suffix());
    assert(any_chrome_extension().subrange(19, 21) =~= any_suffix());
    assert(!plain_char(any_firefox_extension()[16]));
    assert(!plain_char(any_chrome_extension()[19]));
}

/// The rules of the policy built from a configuration: exact origins first, then patterns.
pub open spec fn policy_rules(port: nat, extras: Seq<Seq<char>>, testing: bool) -> Seq<RuleModel> {
    exact_rules(exact_origins(port, extras, testing)) + pattern_rules(pattern_sources(testing))
}

/// `prefix` followed by the decimal notation of `port`.
fn origin_on_port(prefix: &str, port: u16) -> (r: String)
    ensures
        r@ == prefix@ + decimal_digits(port as nat),
{
    let mut r = String::from_str(prefix);
    write_decimal(port, &mut r);
    r
}

/// Builds the policy of `config`.
///
/// Allowed by exact match: the loopback and `localhost` origins on the
/// configured port, the extra origins, and in test mode the same two origins on
/// the test harness's port. Allowed by pattern: the first-party Chrome
/// extension and every Firefox extension (whose identifiers change with each
/// install), and in test mode every Chrome extension. All patterns compile, so
/// the build succeeds.
pub fn cors(config: &PolicyConfig) -> (r: Result<CorsPolicy, PolicyError>)
    ensures
        r matches Ok(policy) && policy@.rules == policy_rules(
            config.port as nat,
            config.extras(),
            config.testing,
        ) && policy@.methods == fixed_methods() && policy@.any_header && !policy@.credentials,
{
    let mut exact: Vec<String> = Vec::new();
    exact.push(origin_on_port("http://127.0.0.1:", config.port));
    exact.push(origin_on_port("http://localhost:", config.port));
    let mut i: usize = 0;
    while i < config.extra_origins.len()
        invariant
            i <= config.extra_origins@.len(),
            string_views(exact@) == seq![
                loopback_origin(config.port as nat),
                localhost_origin(config.port as nat),
            ] + config.extras().take(i as int),
        decreases config.extra_origins@.len() - i,
    {
        let ghost before = exact@;
        exact.push(config.extra_origins[i].clone());
        proof {
            assert(string_views(exact@) =~= string_views(before).push(config.extras()[i as int]));
            assert(config.extras().take(i + 1) =~= config.extras().take(i as int).push(
                config.extras()[i as int],
            ));
        }
        i += 1;
    }
    if config.testing {
        exact.push(origin_on_port("http://127.0.0.1:", TEST_HARNESS_PORT));
        exact.push(origin_on_port("http://localhost:", TEST_HARNESS_PORT));
    }
    proof {
        assert(config.extras().take(config.extras().len() as int) =~= config.extras());
        assert(string_views(exact@) =~= exact_origins(
            config.port as nat,
            config.extras(),
            config.testing,
        ));
    }
    let mut sources: Vec<String> = Vec::new();
    sources.push(String::from_str("chrome-extension://nglaklhklhcoonedhgnpgddginnjdadi"));
    // Firefox gives each install of an extension an identifier of its own, so
    // the only way to let our extension in is to let every extension in.
    sources.push(String::from_str("moz-extension://.*"));
    // In test mode any Chrome extension may call in; never outside it.
    if config.testing {
        sources.push(String::from_str("chrome-extension://.*"));
    }
    assert(string_views(sources@) =~= pattern_sources(config.testing));
    let mut rules: Vec<OriginRule> = Vec::new();
    let mut j: usize = 0;
    while j < exact.len()
        invariant
            j <= exact@.len(),
            rule_views(rules@) == exact_rules(string_views(exact@).take(j as int)),
            forall|k: int| 0 <= k < rules@.len() ==> rule_compiles(#[trigger] rules@[k]@),
        decreases exact@.len() - j,
    {
        let ghost before = rules@;
        rules.push(OriginRule::Exact(exact[j].clone()));
        proof {
            assert(string_views(exact@).take(j + 1) =~= string_views(exact@).take(j as int).push(
                exact@[j as int]@,
            ));
            assert(rule_views(rules@) =~= rule_views(before).push(
                RuleModel::Exact(exact@[j as int]@),
            ));
            assert(exact_rules(string_views(exact@).take(j + 1)) =~= exact_rules(
                string_views(exact@).take(j as int),
            ).push(RuleModel::Exact(exact@[j as int]@)));
            assert(forall|m: int| 0 <= m < before.len() ==> rules@[m] == before[m]);
        }
        j += 1;
    }
    proof {
        assert(string_views(exact@).take(exact@.len() as int) =~= string_views(exact@));
    }
    let ghost exact_part = rules@;
    let mut k: usize = 0;
    while k < sources.len()
        invariant
            k <= sources@.len(),
            string_views(sources@) == pattern_sources(config.testing),
            rule_views(exact_part) == exact_rules(string_views(exact@)),
            rule_views(rules@) == rule_views(exact_part) + pattern_rules(
                string_views(sources@).take(k as int),
            ),
            forall|m: int| 0 <= m < rules@.len() ==> rule_compiles(#[trigger] rules@[m]@),
        decreases sources@.len() - k,
    {
        // The built-in patterns all compile, which the proof below shows;
        // a pattern that did not would stop the build here.
        if !pattern_compiles(sources[k].as_str()) {
            proof {
                lemma_builtin_patterns_simple();
                assert(pattern_sources(config.testing)[k as int] == sources@[k as int]@);
                assert(pattern_sources(true) =~= seq![
                    own_chrome_extension(),
                    any_firefox_extension(),
                    any_chrome_extension(),
                ]);
                assert(pattern_sources(false) =~= seq![
                    own_chrome_extension(),
                    any_firefox_extension(),
                ]);
                assert(source_compiles(sources@[k as int]@));
            }
            return Err(PolicyError::InvalidPattern(sources[k].clone()));
        }
        let ghost before = rules@;
        rules.push(OriginRule::Pattern(sources[k].clone()));
        proof {
            assert(string_views(sources@).take(k + 1) =~= string_views(sources@).take(
                k as int,
            ).push(sources@[k as int]@));
            assert(pattern_rules(string_views(sources@).take(k + 1)) =~= pattern_rules(
                string_views(sources@).take(k as int),
            ).push(RuleModel::Pattern(sources@[k as int]@)));
            assert(rule_views(rules@) =~= rule_views(before).push(
                RuleModel::Pattern(sources@[k as int]@),
            ));
            assert(forall|m: int| 0 <= m < before.len() ==> rules@[m] == before[m]);
        }
        k += 1;
    }
    proof {
        assert(string_views(sources@).take(sources@.len() as int) =~= string_views(sources@));
    }
    let policy = CorsPolicy {
        origin_rules: rules,
        allowed_methods: vec![Method::Get, Method::Post, Method::Delete],
        allow_any_header: true,
        allow_credentials: false,
    };
    proof {
        assert(policy@.methods =~= fixed_methods());
    }
    Ok(policy)
}

} // verus!
