//! Ordered validation rules and the first-failure discipline shared by every
//! validating constructor.

use vstd::prelude::*;

verus! {

/// One row of an entity's validation table, already evaluated on an input:
/// whether the rule holds there, and the reason reported when it does not.
pub struct Rule {
    pub passes: bool,
    pub reason: Seq<char>,
}

/// The reason of the earliest rule that does not pass, if there is one.
pub open spec fn first_failure(rules: Seq<Rule>) -> Option<Seq<char>>
    decreases rules.len(),
{
    if rules.len() == 0 {
        None
    } else if !rules[0].passes {
        Some(rules[0].reason)
    } else {
        first_failure(rules.drop_first())
    }
}

/// Every rule of the table passes.
pub open spec fn all_pass(rules: Seq<Rule>) -> bool {
    forall|i: int| 0 <= i < rules.len() ==> (#[trigger] rules[i]).passes
}

/// Rule `at` fails and every rule before it passes.
pub open spec fn fails_first_at(rules: Seq<Rule>, at: int) -> bool {
    &&& 0 <= at < rules.len()
    &&& !rules[at].passes
    &&& forall|j: int| 0 <= j < at ==> (#[trigger] rules[j]).passes
}

/// A table is accepted exactly when each of its rules passes.
pub proof fn lemma_accepted_iff_all_pass(rules: Seq<Rule>)
    ensures
        first_failure(rules) is None <==> all_pass(rules),
    decreases rules.len(),
{
    if rules.len() > 0 {
        let rest = rules.drop_first();
        lemma_accepted_iff_all_pass(rest);
        if rules[0].passes {
            if all_pass(rest) {
                assert forall|i: int| 0 <= i < rules.len() implies (#[trigger] rules[i]).passes by {
                    if i > 0 {
                        assert(rest[i - 1].passes);
                    }
                }
            } else {
                let k = choose|k: int| 0 <= k < rest.len() && !(#[trigger] rest[k]).passes;
                assert(!rules[k + 1].passes);
            }
        } else {
            assert(!rules[0].passes);
        }
    }
}

/// When two or more rules fail at once, the reason reported is that of the
/// earliest of them in table order, never that of a later one.
pub proof fn lemma_reports_earliest_failure(rules: Seq<Rule>, at: int)
    requires
        fails_first_at(rules, at),
    ensures
        first_failure(rules) == Some(rules[at].reason),
    decreases rules.len(),
{
    if at > 0 {
        let rest = rules.drop_first();
        assert(rules[0].passes);
        assert forall|j: int| 0 <= j < at - 1 implies (#[trigger] rest[j]).passes by {
            assert(rules[j + 1].passes);
        }
        lemma_reports_earliest_failure(rest, at - 1);
    }
}

/// A reported reason always belongs to a rule that fails while all the rules
/// before it pass.
pub proof fn lemma_failure_has_earliest_rule(rules: Seq<Rule>) -> (at: int)
    requires
        first_failure(rules) is Some,
    ensures
        fails_first_at(rules, at),
        first_failure(rules) == Some(rules[at].reason),
    decreases rules.len(),
{
    if !rules[0].passes {
        0
    } else {
        let rest = rules.drop_first();
        let k = lemma_failure_has_earliest_rule(rest);
        assert forall|j: int| 0 <= j < k + 1 implies (#[trigger] rules[j]).passes by {
            if j > 0 {
                assert(rest[j - 1].passes);
            }
        }
        k + 1
    }
}

} // verus!
