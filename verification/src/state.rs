//! The automaton as a mathematical object, and what one step does to it.
//!
//! A step rewrites every cell at once: each new cell is computed from the
//! pattern that the old generation shows around it, never from a cell that
//! the same step has already produced.

use vstd::prelude::*;
use crate::lattice::{is_binary_row, uniform, WIDTH};
use crate::neighborhood::{lemma_neighborhood_components, neighborhood, BoundaryMode};
use crate::rule::{lemma_rule_one, lemma_rule_output_is_binary, lemma_rule_zero, rule_output};

verus! {

/// The generation that follows `l` under `rule`. Every cell of the result is
/// computed from `l` itself.
pub open spec fn next_generation(l: Seq<u8>, rule: u8, mode: BoundaryMode) -> Seq<u8> {
    Seq::new(WIDTH as nat, |i: int| rule_output(neighborhood(l, mode, i), rule))
}

/// What an automaton is, apart from how it is stored.
pub struct AutomatonState {
    /// The current generation; entry `i` is the cell at index `i`.
    pub lattice: Seq<u8>,
    /// The rule.
    pub rule: u8,
    /// The boundary mode.
    pub boundary_mode: BoundaryMode,
}

impl AutomatonState {
    /// The lattice holds 128 binary cells.
    pub open spec fn is_valid(self) -> bool {
        is_binary_row(self.lattice)
    }

    /// The state one generation later: the lattice is replaced as a whole,
    /// the rule and the boundary mode stay.
    pub open spec fn step(self) -> AutomatonState {
        AutomatonState {
            lattice: next_generation(self.lattice, self.rule, self.boundary_mode),
            rule: self.rule,
            boundary_mode: self.boundary_mode,
        }
    }
}

/// A step always ends in a valid state.
pub proof fn lemma_step_is_valid(s: AutomatonState)
    ensures
        s.step().is_valid(),
{
    assert forall|i: int| 0 <= i < WIDTH implies #[trigger] s.step().lattice[i] <= 1 by {
        lemma_rule_output_is_binary(neighborhood(s.lattice, s.boundary_mode, i), s.rule);
    }
}

/// Rule 0 absorbs: a step from any lattice ends in the all-zero lattice, and
/// a further step changes nothing.
pub proof fn lemma_rule_zero_absorbs(s: AutomatonState)
    requires
        s.rule == 0,
    ensures
        s.step().lattice == uniform(0),
        s.step().step() == s.step(),
{
    let once = s.step();
    assert forall|i: int| 0 <= i < WIDTH implies #[trigger] once.lattice[i] == 0 by {
        lemma_rule_zero(neighborhood(s.lattice, s.boundary_mode, i));
    }
    assert forall|i: int| 0 <= i < WIDTH implies #[trigger] once.step().lattice[i] == 0 by {
        lemma_rule_zero(neighborhood(once.lattice, once.boundary_mode, i));
    }
    assert(once.lattice =~= uniform(0));
    assert(once.step().lattice =~= uniform(0));
}

/// Rule 1 makes the all-zero lattice oscillate with period 2: one step ends
/// in the all-one lattice, the next is back at all zero.
pub proof fn lemma_rule_one_oscillates(s: AutomatonState)
    requires
        s.rule == 1,
        s.lattice == uniform(0),
    ensures
        s.step().lattice == uniform(1),
        s.step().step() == s,
{
    let once = s.step();
    assert forall|i: int| 0 <= i < WIDTH implies #[trigger] once.lattice[i] == 1 by {
        lemma_neighborhood_components(s.lattice, s.boundary_mode, i);
        lemma_rule_one(neighborhood(s.lattice, s.boundary_mode, i));
    }
    assert(once.lattice =~= uniform(1));
    assert forall|i: int| 0 <= i < WIDTH implies #[trigger] once.step().lattice[i] == 0 by {
        lemma_neighborhood_components(once.lattice, once.boundary_mode, i);
        lemma_rule_one(neighborhood(once.lattice, once.boundary_mode, i));
    }
    assert(once.step().lattice =~= uniform(0));
}

} // verus!
