//! The per-tick population rules: growth, migration and shrink, as pure
//! arithmetic on population counts. The tick simulator decides *when* a rule
//! fires (a random trial); these functions say exactly *what* a fired rule
//! does to the counts involved, for every count.

use vstd::prelude::*;

verus! {

/// A population count clamped to what a machine word can hold.
pub open spec fn capped(v: int) -> int {
    if v <= usize::MAX as int {
        v
    } else {
        usize::MAX as int
    }
}

/// Units added by a fired growth rule: one percent, rounded down.
pub open spec fn growth_amount(pop: int) -> int {
    pop / 100
}

/// The population after a fired growth rule.
pub open spec fn grown(pop: int) -> int {
    capped(pop + growth_amount(pop))
}

/// Units moved by a fired migration rule: one percent, rounded down.
pub open spec fn migration_amount(pop: int) -> int {
    pop / 100
}

/// Units removed by a fired shrink rule: one percent rounded down while the
/// population is above 10, the whole population otherwise.
pub open spec fn shrink_amount(pop: int) -> int {
    if pop > 10 {
        pop / 100
    } else {
        pop
    }
}

/// The population after a fired shrink rule.
pub open spec fn shrunk(pop: int) -> int {
    pop - shrink_amount(pop)
}

/// What a rule removes never exceeds what is there: each amount lies
/// between 0 and the current population.
pub proof fn lemma_amounts_within(pop: int)
    requires
        0 <= pop,
    ensures
        0 <= growth_amount(pop) <= pop,
        0 <= migration_amount(pop) <= pop,
        0 <= shrink_amount(pop) <= pop,
{
    vstd::arithmetic::div_mod::lemma_div_pos_is_pos(pop, 100);
    vstd::arithmetic::div_mod::lemma_div_nonincreasing(pop, 100);
}

/// The population after a fired growth rule, clamped at the machine limit.
pub fn apply_growth(pop: usize) -> (r: usize)
    ensures
        r as int == grown(pop as int),
{
    let amount = pop / 100;
    if pop <= usize::MAX - amount {
        pop + amount
    } else {
        usize::MAX
    }
}

/// The population after a fired shrink rule. A population of at most 10 is
/// fully extinguished.
pub fn apply_shrink(pop: usize) -> (r: usize)
    ensures
        r as int == shrunk(pop as int),
        pop <= 10 ==> r == 0,
{
    proof {
        lemma_amounts_within(pop as int);
    }
    let amount = if pop > 10 {
        pop / 100
    } else {
        pop
    };
    pop - amount
}

/// The two populations after a fired migration moves one percent of `from`
/// (rounded down) over to `to`. No unit appears from nowhere: the pair's sum
/// never grows, and it is conserved exactly unless the receiving count hits
/// the machine limit.
pub fn migrate_pops(from: usize, to: usize) -> (r: (usize, usize))
    ensures
        r.0 as int == from as int - migration_amount(from as int),
        r.1 as int == capped(to as int + migration_amount(from as int)),
        r.0 + r.1 <= from + to,
        to as int + migration_amount(from as int) <= usize::MAX as int ==> r.0 + r.1 == from
            + to,
{
    proof {
        lemma_amounts_within(from as int);
    }
    let amount = from / 100;
    let new_from = from - amount;
    let new_to = if to <= usize::MAX - amount {
        to + amount
    } else {
        usize::MAX
    };
    (new_from, new_to)
}

/// One application of a population rule to a single cell's count, as the
/// cell itself sees it: growth adds, shrink removes, a migration out removes,
/// and a migration in adds what a neighbor sent, clamped at the machine
/// limit.
pub enum PopRule {
    Grow,
    Shrink,
    MigrateOut,
    MigrateIn(nat),
}

/// The count after one rule application.
pub open spec fn apply_rule(rule: PopRule, pop: int) -> int {
    match rule {
        PopRule::Grow => grown(pop),
        PopRule::Shrink => shrunk(pop),
        PopRule::MigrateOut => pop - migration_amount(pop),
        PopRule::MigrateIn(amount) => capped(pop + amount),
    }
}

/// The count after a whole sequence of rule applications, oldest first.
pub open spec fn apply_rules(rules: Seq<PopRule>, pop: int) -> int
    decreases rules.len(),
{
    if rules.len() == 0 {
        pop
    } else {
        apply_rule(rules.last(), apply_rules(rules.drop_last(), pop))
    }
}

/// One rule application keeps a representable count representable: it stays
/// between 0 and the machine limit.
pub proof fn lemma_rule_keeps_count_representable(rule: PopRule, pop: int)
    requires
        0 <= pop <= usize::MAX,
    ensures
        0 <= apply_rule(rule, pop) <= usize::MAX,
{
    lemma_amounts_within(pop);
}

/// A population count never goes negative: after any sequence of growth,
/// migration and shrink applications, a count that started nonnegative (and
/// representable) is still nonnegative (and representable).
pub proof fn lemma_rules_never_negative(rules: Seq<PopRule>, pop: int)
    requires
        0 <= pop <= usize::MAX,
    ensures
        0 <= apply_rules(rules, pop) <= usize::MAX,
    decreases rules.len(),
{
    if rules.len() > 0 {
        lemma_rules_never_negative(rules.drop_last(), pop);
        lemma_rule_keeps_count_representable(rules.last(), apply_rules(rules.drop_last(), pop));
    }
}

/// A fired shrink on a population of at most 10 drives it to exactly 0.
pub proof fn lemma_shrink_extinguishes(pop: int)
    requires
        0 <= pop <= 10,
    ensures
        shrunk(pop) == 0,
{
}

} // verus!
