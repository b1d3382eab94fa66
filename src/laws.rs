//! What every policy built by `cors` allows and denies.
use vstd::prelude::*;
use crate::matcher::{rule_allows, rules_allow};
use crate::pattern::prefix_then_line;
use crate::policy::{
    any_chrome_extension, any_firefox_extension, exact_origins, lemma_builtin_patterns_simple,
    localhost_origin, loopback_origin, own_chrome_extension, pattern_sources, policy_rules,
    RuleModel, TEST_HARNESS_PORT,
};

verus! {

/// Where each origin and pattern stands among the rules.
proof fn lemma_rule_positions(port: nat, extras: Seq<Seq<char>>, testing: bool)
    ensures
        policy_rules(port, extras, testing).len() == exact_origins(port, extras, testing).len()
            + pattern_sources(testing).len(),
        forall|i: int|
            0 <= i < exact_origins(port, extras, testing).len() ==> #[trigger] policy_rules(
                port,
                extras,
                testing,
            )[i] == RuleModel::Exact(exact_origins(port, extras, testing)[i]),
        forall|j: int|
            0 <= j < pattern_sources(testing).len() ==> #[trigger] policy_rules(
                port,
                extras,
                testing,
            )[exact_origins(port, extras, testing).len() as int + j] == RuleModel::Pattern(
                pattern_sources(testing)[j],
            ),
        exact_origins(port, extras, testing).len() == extras.len() + if testing { 4int } else { 2int },
        exact_origins(port, extras, testing)[0] == loopback_origin(port),
        exact_origins(port, extras, testing)[1] == localhost_origin(port),
        forall|i: int|
            0 <= i < extras.len() ==> #[trigger] exact_origins(port, extras, testing)[2 + i]
                == extras[i],
        testing ==> exact_origins(port, extras, testing)[2 + extras.len() as int] == loopback_origin(
            TEST_HARNESS_PORT as nat,
        ),
        testing ==> exact_origins(port, extras, testing)[3 + extras.len() as int] == localhost_origin(
            TEST_HARNESS_PORT as nat,
        ),
        pattern_sources(testing)[0] == own_chrome_extension(),
        pattern_sources(testing)[1] == any_firefox_extension(),
        testing ==> pattern_sources(testing).len() == 3 && pattern_sources(testing)[2]
            == any_chrome_extension(),
        !testing ==> pattern_sources(testing).len() == 2,
{
}

/// The loopback and `localhost` origins on the configured port are always allowed.
pub proof fn lemma_own_port_allowed(port: nat, extras: Seq<Seq<char>>, testing: bool)
    ensures
        rules_allow(policy_rules(port, extras, testing), loopback_origin(port)),
        rules_allow(policy_rules(port, extras, testing), localhost_origin(port)),
{
    lemma_rule_positions(port, extras, testing);
    assert(rule_allows(policy_rules(port, extras, testing)[0], loopback_origin(port)));
    assert(rule_allows(policy_rules(port, extras, testing)[1], localhost_origin(port)));
}

/// Each extra origin is allowed, and the rule it gives allows that string alone.
pub proof fn lemma_extra_origin_exact(
    port: nat,
    extras: Seq<Seq<char>>,
    testing: bool,
    i: int,
    other: Seq<char>,
)
    requires
        0 <= i < extras.len(),
    ensures
        rules_allow(policy_rules(port, extras, testing), extras[i]),
        policy_rules(port, extras, testing)[2 + i] == RuleModel::Exact(extras[i]),
        rule_allows(policy_rules(port, extras, testing)[2 + i], other) <==> other == extras[i],
{
    lemma_rule_positions(port, extras, testing);
    assert(policy_rules(port, extras, testing)[2 + i] == RuleModel::Exact(extras[i]));
}

/// In test mode the loopback and `localhost` origins on the test harness's port
/// are allowed.
pub proof fn lemma_test_harness_allowed(port: nat, extras: Seq<Seq<char>>)
    ensures
        rules_allow(policy_rules(port, extras, true), loopback_origin(TEST_HARNESS_PORT as nat)),
        rules_allow(policy_rules(port, extras, true), localhost_origin(TEST_HARNESS_PORT as nat)),
{
    lemma_rule_positions(port, extras, true);
    let n = extras.len() as int;
    assert(policy_rules(port, extras, true)[2 + n] == RuleModel::Exact(
        loopback_origin(TEST_HARNESS_PORT as nat),
    ));
    assert(policy_rules(port, extras, true)[3 + n] == RuleModel::Exact(
        localhost_origin(TEST_HARNESS_PORT as nat),
    ));
}

/// No character of `s` is a newline.
pub open spec fn single_line(s: Seq<char>) -> bool {
    forall|i: int| 0 <= i < s.len() ==> #[trigger] s[i] != '\n'
}

/// `prefix + rest` matches a pattern made of `prefix` and `.*` when `rest` is one line.
proof fn lemma_prefix_then_line(prefix: Seq<char>, rest: Seq<char>)
    requires
        single_line(rest),
    ensures
        prefix_then_line(prefix, prefix + rest),
{
    let text = prefix + rest;
    assert(text.subrange(0, prefix.len() as int) =~= prefix);
    assert forall|i: int| prefix.len() <= i < text.len() implies #[trigger] text[i] != '\n' by {
        assert(text[i] == rest[i - prefix.len()]);
    }
}

/// The first-party Chrome extension is always allowed.
pub proof fn lemma_own_chrome_extension_allowed(port: nat, extras: Seq<Seq<char>>, testing: bool)
    ensures
        rules_allow(policy_rules(port, extras, testing), own_chrome_extension()),
{
    lemma_rule_positions(port, extras, testing);
    lemma_builtin_patterns_simple();
    let n = exact_origins(port, extras, testing).len() as int;
    assert(rule_allows(policy_rules(port, extras, testing)[n], own_chrome_extension()));
}

/// Every Firefox extension is allowed, whatever its identifier (one line of
/// any characters).
pub proof fn lemma_firefox_extensions_allowed(
    port: nat,
    extras: Seq<Seq<char>>,
    testing: bool,
    id: Seq<char>,
)
    requires
        single_line(id),
    ensures
        rules_allow(policy_rules(port, extras, testing), "moz-extension://"@ + id),
{
    lemma_rule_positions(port, extras, testing);
    lemma_builtin_patterns_simple();
    lemma_prefix_then_line("moz-extension://"@, id);
    let n = exact_origins(port, extras, testing).len() as int;
    assert(rule_allows(policy_rules(port, extras, testing)[n + 1], "moz-extension://"@ + id));
}

/// In test mode every Chrome extension is allowed.
pub proof fn lemma_chrome_extensions_allowed_in_test_mode(
    port: nat,
    extras: Seq<Seq<char>>,
    id: Seq<char>,
)
    requires
        single_line(id),
    ensures
        rules_allow(policy_rules(port, extras, true), "chrome-extension://"@ + id),
{
    lemma_rule_positions(port, extras, true);
    lemma_builtin_patterns_simple();
    lemma_prefix_then_line("chrome-extension://"@, id);
    let n = exact_origins(port, extras, true).len() as int;
    assert(rule_allows(policy_rules(port, extras, true)[n + 2], "chrome-extension://"@ + id));
}

/// Outside test mode a Chrome extension other than the first-party one is
/// denied, unless it is one of the extra origins.
pub proof fn lemma_other_chrome_extensions_denied(
    port: nat,
    extras: Seq<Seq<char>>,
    id: Seq<char>,
)
    requires
        "chrome-extension://"@ + id != own_chrome_extension(),
        !extras.contains("chrome-extension://"@ + id),
    ensures
        !rules_allow(policy_rules(port, extras, false), "chrome-extension://"@ + id),
{
    let origin = "chrome-extension://"@ + id;
    let rules = policy_rules(port, extras, false);
    lemma_rule_positions(port, extras, false);
    lemma_builtin_patterns_simple();
    reveal_strlit("chrome-extension://");
    reveal_strlit("moz-extension://");
    reveal_strlit("http://127.0.0.1:");
    reveal_strlit("http://localhost:");
    assert(origin[0] == 'c');
    assert(loopback_origin(port)[0] == 'h');
    assert(localhost_origin(port)[0] == 'h');
    assert forall|i: int| 0 <= i < rules.len() implies !rule_allows(#[trigger] rules[i], origin) by {
        if 2 <= i < 2 + extras.len() {
            assert(rules[i] == RuleModel::Exact(extras[i - 2]));
            if extras[i - 2] == origin {
                assert(extras.contains(origin));
            }
        } else if i == 2 + extras.len() + 1 {
            assert("moz-extension://"@[0] == 'm');
            assert(origin.subrange(0, 16)[0] == 'c');
        }
    }
}

} // verus!
