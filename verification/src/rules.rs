//! The filters of a logger as a list of rules, and what follows from their
//! order.

use vstd::prelude::*;
use crate::filter::{filter_matches, FilterType};
use crate::level::LevelFilter;

verus! {

/// One filter of a logger, as the contracts see it: records whose source the
/// name matches under the type pass when they are at least as severe as the
/// level.
pub struct Rule {
    pub name: Seq<char>,
    pub filter_type: FilterType,
    pub level: LevelFilter,
}

/// Whether a filter applies to a source.
pub open spec fn rule_applies(rule: Rule, source: Seq<char>) -> bool {
    filter_matches(rule.name, rule.filter_type, source)
}

/// The level of the first filter in `rules` that applies to `source`, if any
/// does. Filters are tried in the order in which they were added, and the
/// first that applies decides, whatever the later ones say.
pub open spec fn matched_level(rules: Seq<Rule>, source: Seq<char>) -> Option<LevelFilter>
    decreases rules.len(),
{
    if rules.len() == 0 {
        None
    } else if rule_applies(rules[0], source) {
        Some(rules[0].level)
    } else {
        matched_level(rules.drop_first(), source)
    }
}

/// The most permissive of the default level and the levels of the filters:
/// the threshold that lets through every record that any of them lets
/// through.
pub open spec fn most_permissive(rules: Seq<Rule>, default_level: LevelFilter) -> LevelFilter
    decreases rules.len(),
{
    if rules.len() == 0 {
        default_level
    } else {
        most_permissive(rules.drop_last(), default_level).spec_max(rules.last().level)
    }
}

/// Whether the filter at `i` is the first in `rules` that applies to
/// `source`.
pub open spec fn first_applying(rules: Seq<Rule>, source: Seq<char>, i: int) -> bool {
    &&& 0 <= i < rules.len()
    &&& rule_applies(rules[i], source)
    &&& forall|j: int| 0 <= j < i ==> !rule_applies(#[trigger] rules[j], source)
}

/// The first filter that applies to a source decides: its level is the one
/// that is found, whatever filters come after it.
pub proof fn lemma_first_match_decides(rules: Seq<Rule>, source: Seq<char>, i: int)
    requires
        first_applying(rules, source, i),
    ensures
        matched_level(rules, source) == Some(rules[i].level),
    decreases rules.len(),
{
    if i > 0 {
        let rest = rules.drop_first();
        assert(!rule_applies(rules[0], source));
        assert forall|j: int| 0 <= j < i - 1 implies !rule_applies(#[trigger] rest[j], source) by {
            assert(rest[j] == rules[j + 1]);
        }
        lemma_first_match_decides(rest, source, i - 1);
    }
}

/// A level is found only as the level of the first filter that applies, and
/// none is found only where no filter applies.
pub proof fn lemma_match_found(rules: Seq<Rule>, source: Seq<char>)
    ensures
        matched_level(rules, source) matches Some(level) ==> exists|i: int|
            #[trigger] first_applying(rules, source, i) && rules[i].level == level,
        matched_level(rules, source) is None ==> forall|j: int|
            0 <= j < rules.len() ==> !rule_applies(#[trigger] rules[j], source),
    decreases rules.len(),
{
    if rules.len() > 0 {
        if rule_applies(rules[0], source) {
            assert(first_applying(rules, source, 0));
        } else {
            let rest = rules.drop_first();
            lemma_match_found(rest, source);
            match matched_level(rest, source) {
                Some(level) => {
                    let i = choose|i: int|
                        #[trigger] first_applying(rest, source, i) && rest[i].level == level;
                    assert forall|j: int| 0 <= j < i + 1 implies !rule_applies(
                        #[trigger] rules[j],
                        source,
                    ) by {
                        if j > 0 {
                            assert(rules[j] == rest[j - 1]);
                        }
                    }
                    assert(first_applying(rules, source, i + 1));
                },
                None => {
                    assert forall|j: int| 0 <= j < rules.len() implies !rule_applies(
                        #[trigger] rules[j],
                        source,
                    ) by {
                        if j > 0 {
                            assert(rules[j] == rest[j - 1]);
                        }
                    }
                },
            }
        }
    }
}

/// Taking out a filter that does not apply to a source changes nothing for
/// that source.
pub proof fn lemma_idle_filter(rules: Seq<Rule>, source: Seq<char>, j: int)
    requires
        0 <= j < rules.len(),
        !rule_applies(rules[j], source),
    ensures
        matched_level(rules.remove(j), source) == matched_level(rules, source),
    decreases rules.len(),
{
    if j == 0 {
        assert(rules.remove(0) =~= rules.drop_first());
    } else {
        assert(rules.remove(j)[0] == rules[0]);
        assert(rules.remove(j).drop_first() =~= rules.drop_first().remove(j - 1));
        if !rule_applies(rules[0], source) {
            lemma_idle_filter(rules.drop_first(), source, j - 1);
        }
    }
}

/// A filter that repeats the name and the type of an earlier one is dead: it
/// decides for no source, so with or without it the same level is found.
pub proof fn lemma_repeated_filter_is_dead(rules: Seq<Rule>, source: Seq<char>, i: int, j: int)
    requires
        0 <= i < j < rules.len(),
        rules[i].name == rules[j].name,
        rules[i].filter_type == rules[j].filter_type,
    ensures
        matched_level(rules.remove(j), source) == matched_level(rules, source),
    decreases rules.len(),
{
    assert(rules.remove(j)[0] == rules[0]);
    if rule_applies(rules[0], source) {
    } else if i == 0 {
        lemma_idle_filter(rules, source, j);
    } else {
        assert(rules.remove(j).drop_first() =~= rules.drop_first().remove(j - 1));
        lemma_repeated_filter_is_dead(rules.drop_first(), source, i - 1, j - 1);
    }
}

/// The most permissive threshold lets through whatever the default level or
/// the level of a filter lets through, and it is one of these levels.
pub proof fn lemma_most_permissive(rules: Seq<Rule>, default_level: LevelFilter)
    ensures
        most_permissive(rules, default_level).allows(default_level),
        forall|i: int|
            0 <= i < rules.len() ==> most_permissive(rules, default_level).allows(
                (#[trigger] rules[i]).level,
            ),
        most_permissive(rules, default_level) == default_level || exists|i: int|
            0 <= i < rules.len() && (#[trigger] rules[i]).level == most_permissive(
                rules,
                default_level,
            ),
    decreases rules.len(),
{
    if rules.len() > 0 {
        let front = rules.drop_last();
        let most = most_permissive(rules, default_level);
        lemma_most_permissive(front, default_level);
        assert forall|i: int| 0 <= i < rules.len() implies most.allows(
            (#[trigger] rules[i]).level,
        ) by {
            if i < front.len() {
                assert(rules[i] == front[i]);
            }
        }
        if most != default_level {
            if most == rules.last().level {
                assert(rules[rules.len() - 1].level == most);
            } else {
                let i = choose|i: int|
                    0 <= i < front.len() && (#[trigger] front[i]).level == most_permissive(
                        front,
                        default_level,
                    );
                assert(rules[i] == front[i]);
            }
        }
    }
}

} // verus!
