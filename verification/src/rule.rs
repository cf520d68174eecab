//! The rule table: an 8-bit rule read as a truth table over the eight
//! three-cell neighbourhoods.

use vstd::prelude::*;

verus! {

/// The output cell that `rule` assigns to neighbourhood `pattern`: bit
/// number `pattern` of `rule`.
pub open spec fn rule_output(pattern: u8, rule: u8) -> u8 {
    (rule >> pattern) & 1
}

/// Looks up the next value of a cell whose neighbourhood is `pattern`.
pub fn apply_rule(pattern: u8, rule: u8) -> (out: u8)
    requires
        pattern < 8,
    ensures
        out == rule_output(pattern, rule),
        out <= 1,
{
    proof {
        lemma_rule_output_is_binary(pattern, rule);
    }
    (rule >> pattern) & 1
}

/// Whatever the rule and the pattern, the output is a binary cell.
pub proof fn lemma_rule_output_is_binary(pattern: u8, rule: u8)
    ensures
        rule_output(pattern, rule) <= 1,
{
    assert((rule >> pattern) & 1 <= 1) by (bit_vector);
}

/// Rule 0 sends every pattern to 0.
pub proof fn lemma_rule_zero(pattern: u8)
    ensures
        rule_output(pattern, 0) == 0,
{
    assert((0u8 >> pattern) & 1 == 0) by (bit_vector);
}

/// Rule 1 sends the empty pattern to 1 and every other pattern to 0.
pub proof fn lemma_rule_one(pattern: u8)
    requires
        pattern < 8,
    ensures
        rule_output(pattern, 1) == (if pattern == 0 { 1u8 } else { 0u8 }),
{
    assert((1u8 >> pattern) & 1 == (if pattern == 0 { 1u8 } else { 0u8 })) by (bit_vector)
        requires
            pattern < 8,
    ;
}

} // verus!
