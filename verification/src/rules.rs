//! Birth and survival rules, each a bit set over neighbour counts: bit `n` set
//! means "with exactly `n` live neighbours".
use vstd::prelude::*;

verus! {

/// Birth rule the simulation starts with: a dead cell with 3 live neighbours is born.
pub const DEFAULT_BORN_RULES: u16 = 0b0000_1000;

/// Survival rule the simulation starts with: a live cell with 2 or 3 live
/// neighbours survives.
pub const DEFAULT_SURVIVE_RULES: u16 = 0b0000_1100;

/// Largest neighbour count a cell can have (eight neighbours).
pub const MAX_NEIGHBOURS: u32 = 8;

/// Whether `rules` holds neighbour count `count`.
pub open spec fn has_count(rules: u16, count: u32) -> bool {
    rules & (1u16 << count) != 0
}

/// Whether `rules` holds neighbour count `count` (a checkbox's state in the
/// controls panel).
pub fn rule_has_count(rules: u16, count: u32) -> (held: bool)
    requires
        count < 16,
    ensures
        held == has_count(rules, count),
{
    let mask = 1u16 << count;
    (rules & mask) != 0
}

/// `rules` with neighbour count `count` added when `checked`, removed otherwise.
pub fn with_rule_count(rules: u16, count: u32, checked: bool) -> (updated: u16)
    requires
        count < 16,
    ensures
        updated == (if checked { rules | (1u16 << count) } else { rules & !(1u16 << count) }),
        has_count(updated, count) == checked,
        forall|other: u32|
            #![trigger has_count(updated, other)]
            other < 16 && other != count ==> has_count(updated, other) == has_count(rules, other),
{
    let mask = 1u16 << count;
    let updated = if checked {
        rules | mask
    } else {
        rules & !mask
    };
    proof {
        lemma_update_count(rules, count, checked, updated);
    }
    updated
}

/// Setting one count of a rule touches that count alone: afterwards it is held
/// exactly when it was checked, and every other count is as it was.
pub proof fn lemma_update_count(rules: u16, count: u32, checked: bool, updated: u16)
    requires
        count < 16,
        updated == (if checked { rules | (1u16 << count) } else { rules & !(1u16 << count) }),
    ensures
        has_count(updated, count) == checked,
        forall|other: u32|
            #![trigger has_count(updated, other)]
            other < 16 && other != count ==> has_count(updated, other) == has_count(rules, other),
{
    if checked {
        assert(updated & (1u16 << count) != 0) by (bit_vector)
            requires
                updated == rules | (1u16 << count),
                count < 16,
        ;
        assert forall|other: u32| other < 16 && other != count implies #[trigger] has_count(
            updated,
            other,
        ) == has_count(rules, other) by {
            assert((updated & (1u16 << other) != 0) == (rules & (1u16 << other) != 0))
                by (bit_vector)
                requires
                    updated == rules | (1u16 << count),
                    count < 16,
                    other < 16,
                    other != count,
            ;
        }
    } else {
        assert(updated & (1u16 << count) == 0) by (bit_vector)
            requires
                updated == rules & !(1u16 << count),
                count < 16,
        ;
        assert forall|other: u32| other < 16 && other != count implies #[trigger] has_count(
            updated,
            other,
        ) == has_count(rules, other) by {
            assert((updated & (1u16 << other) != 0) == (rules & (1u16 << other) != 0))
                by (bit_vector)
                requires
                    updated == rules & !(1u16 << count),
                    count < 16,
                    other < 16,
                    other != count,
            ;
        }
    }
}

/// Checking a count and unchecking it again gives back the rule one started
/// from, when that count was not held before.
pub proof fn lemma_check_then_uncheck(rules: u16, count: u32)
    requires
        count < 16,
        !has_count(rules, count),
    ensures
        (rules | (1u16 << count)) & !(1u16 << count) == rules,
{
    assert((rules | (1u16 << count)) & !(1u16 << count) == rules) by (bit_vector)
        requires
            count < 16,
            rules & (1u16 << count) == 0,
    ;
}

/// The starting rules are those of Conway's Game of Life: birth on exactly 3
/// live neighbours, survival on 2 or 3.
pub proof fn lemma_default_rules_are_conway(count: u32)
    requires
        count < 16,
    ensures
        has_count(DEFAULT_BORN_RULES, count) <==> count == 3,
        has_count(DEFAULT_SURVIVE_RULES, count) <==> (count == 2 || count == 3),
{
    assert((0b0000_1000u16 & (1u16 << count) != 0) <==> count == 3) by (bit_vector)
        requires
            count < 16,
    ;
    assert((0b0000_1100u16 & (1u16 << count) != 0) <==> (count == 2 || count == 3)) by (bit_vector)
        requires
            count < 16,
    ;
}

} // verus!
