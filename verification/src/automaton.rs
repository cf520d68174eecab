//! The automaton: a lattice together with the rule and the boundary mode
//! that it was built with.

use vstd::prelude::*;
use crate::lattice::{
    find_nth_bit, is_binary_row, lemma_mirrored_is_binary, lemma_unpack_pack, mirrored, pack,
    pack_below, unpack, WIDTH,
};
use crate::neighborhood::{beyond_edge, neighborhood, BoundaryMode, LEFT, RIGHT};
use crate::rule::apply_rule;
use crate::state::{next_generation, AutomatonState};

verus! {

/// Why an automaton could not be built.
#[derive(Clone, Copy, Debug, PartialEq, Eq, Structural)]
pub enum AutomatonError {
    /// The initial cells were not 128 values, or one of them was neither 0
    /// nor 1.
    InvalidInput,
}

/// A cellular automaton over 128 binary cells.
///
/// The cells are stored in sequence form, index 127 first. The rule and the
/// boundary mode cannot be changed once the automaton exists.
pub struct Automaton {
    fields: Vec<u8>,
    rule: u8,
    boundary_mode: BoundaryMode,
}

impl View for Automaton {
    type V = AutomatonState;

    closed spec fn view(&self) -> AutomatonState {
        AutomatonState {
            lattice: mirrored(self.fields@),
            rule: self.rule,
            boundary_mode: self.boundary_mode,
        }
    }
}

/// Tells whether `cells` can be the sequence form of a lattice.
fn is_binary(cells: &Vec<u8>) -> (ok: bool)
    ensures
        ok == is_binary_row(cells@),
{
    if cells.len() != WIDTH {
        return false;
    }
    let mut p: usize = 0;
    while p < WIDTH
        invariant
            p <= WIDTH,
            cells@.len() == WIDTH,
            forall|q: int| 0 <= q < p ==> #[trigger] cells@[q] <= 1,
        decreases WIDTH - p,
    {
        if cells[p] > 1 {
            return false;
        }
        p += 1;
    }
    true
}

impl Automaton {
    #[verifier::type_invariant]
    spec fn well_formed(self) -> bool {
        is_binary_row(self.fields@)
    }

    /// Builds an automaton from the sequence form of its first generation:
    /// `initial[0]` is the cell at index 127, `initial[127]` the cell at
    /// index 0.
    pub fn new(rule: u8, initial: Vec<u8>, periodic_boundary: bool) -> (made: Result<
        Automaton,
        AutomatonError,
    >)
        ensures
            match made {
                Ok(automaton) => {
                    &&& is_binary_row(initial@)
                    &&& automaton@ == (AutomatonState {
                        lattice: mirrored(initial@),
                        rule,
                        boundary_mode: BoundaryMode::of(periodic_boundary),
                    })
                    &&& automaton@.is_valid()
                },
                Err(error) => !is_binary_row(initial@) && error == AutomatonError::InvalidInput,
            },
    {
        if !is_binary(&initial) {
            return Err(AutomatonError::InvalidInput);
        }
        proof {
            lemma_mirrored_is_binary(initial@);
        }
        Ok(
            Automaton {
                fields: initial,
                rule,
                boundary_mode: BoundaryMode::from_periodic(periodic_boundary),
            },
        )
    }

    /// Builds an automaton from the packed form of its first generation: bit
    /// `i` of `packed` is the cell at index `i`.
    pub fn from_packed(rule: u8, packed: u128, periodic_boundary: bool) -> (made: Automaton)
        ensures
            made@ == (AutomatonState {
                lattice: unpack(packed),
                rule,
                boundary_mode: BoundaryMode::of(periodic_boundary),
            }),
            made@.is_valid(),
    {
        let mut fields: Vec<u8> = Vec::new();
        let mut p: usize = 0;
        while p < WIDTH
            invariant
                p <= WIDTH,
                fields@.len() == p,
                forall|q: int|
                    0 <= q < p ==> #[trigger] fields@[q] == unpack(packed)[WIDTH - 1 - q],
            decreases WIDTH - p,
        {
            fields.push(find_nth_bit(packed, WIDTH - 1 - p));
            p += 1;
        }
        let made = Automaton {
            fields,
            rule,
            boundary_mode: BoundaryMode::from_periodic(periodic_boundary),
        };
        assert(made@.lattice =~= unpack(packed));
        made
    }

    /// Advances the automaton by one generation.
    pub fn update(&mut self)
        ensures
            final(self)@ == old(self)@.step(),
            final(self)@.is_valid(),
    {
        proof {
            use_type_invariant(&*self);
        }
        let mut new_fields: Vec<u8> = vec![0u8; WIDTH];
        let mut i: u8 = 0;
        while i < 128
            invariant
                i <= 128,
                *self == *old(self),
                new_fields@.len() == WIDTH,
                forall|j: int| 0 <= j < WIDTH ==> #[trigger] new_fields@[j] <= 1,
                forall|j: int|
                    0 <= j < i ==> #[trigger] new_fields@[127 - j] == next_generation(
                        self@.lattice,
                        self.rule,
                        self.boundary_mode,
                    )[j],
            decreases 128 - i,
        {
            let pattern = self.detect_pattern(i);
            let new_bit = apply_rule(pattern, self.rule);
            new_fields[127 - i as usize] = new_bit;
            i += 1;
        }
        self.fields = new_fields;
        assert(self@.lattice =~= old(self)@.step().lattice);
    }

    /// The value that stands in for the neighbour of the cell at
    /// `center_index`, on the side where the lattice ends.
    fn beyond_edge_cell(&self, center_index: u8, offset: i8) -> (cell: u8)
        requires
            center_index == 0 && offset == RIGHT || center_index == 127 && offset == LEFT,
        ensures
            cell == beyond_edge(
                self@.lattice,
                self@.boundary_mode,
                center_index as int,
                offset as int,
            ),
            cell <= 1,
    {
        proof {
            use_type_invariant(self);
        }
        match self.boundary_mode {
            BoundaryMode::Fixed => 0,
            BoundaryMode::Periodic => {
                if offset == LEFT {
                    self.fields[127]
                } else {
                    self.fields[0]
                }
            },
        }
    }

    /// The pattern around the cell at `center_index`, in the current
    /// generation.
    pub fn detect_pattern(&self, center_index: u8) -> (pattern: u8)
        requires
            center_index < WIDTH,
        ensures
            pattern == neighborhood(self@.lattice, self@.boundary_mode, center_index as int),
            pattern < 8,
    {
        proof {
            use_type_invariant(self);
        }
        let right = if center_index == 0 {
            self.beyond_edge_cell(center_index, RIGHT)
        } else {
            self.fields[127 - center_index as usize + 1]
        };
        let center = self.fields[127 - center_index as usize];
        let left = if center_index == 127 {
            self.beyond_edge_cell(center_index, LEFT)
        } else {
            self.fields[127 - center_index as usize - 1]
        };
        assert((left << 2) | (center << 1) | right == 4 * left + 2 * center + right) by (bit_vector)
            requires
                left <= 1,
                center <= 1,
                right <= 1,
        ;
        (left << 2) | (center << 1) | right
    }

    /// The current generation in sequence form: position 0 holds the cell at
    /// index 127, position 127 the cell at index 0.
    pub fn to_list(&self) -> (cells: Vec<u8>)
        ensures
            cells@ == mirrored(self@.lattice),
            is_binary_row(cells@),
            self@.is_valid(),
    {
        proof {
            use_type_invariant(self);
            lemma_mirrored_is_binary(self.fields@);
        }
        self.fields.clone()
    }

    /// The current generation in packed form: bit `i` holds the cell at
    /// index `i`.
    pub fn to_packed(&self) -> (packed: u128)
        ensures
            packed == pack(self@.lattice),
            unpack(packed) == self@.lattice,
    {
        proof {
            use_type_invariant(self);
            lemma_mirrored_is_binary(self.fields@);
            lemma_unpack_pack(self@.lattice);
        }
        let mut packed: u128 = 0;
        let mut i: usize = 0;
        while i < WIDTH
            invariant
                i <= WIDTH,
                self.fields@.len() == WIDTH,
                packed == pack_below(self@.lattice, i as nat),
            decreases WIDTH - i,
        {
            let cell = self.fields[WIDTH - 1 - i];
            packed = packed | ((cell as u128) << i);
            i += 1;
        }
        packed
    }

    /// The rule that the automaton was built with.
    pub fn rule(&self) -> (rule: u8)
        ensures
            rule == self@.rule,
    {
        self.rule
    }

    /// The boundary mode that the automaton was built with.
    pub fn boundary_mode(&self) -> (mode: BoundaryMode)
        ensures
            mode == self@.boundary_mode,
    {
        self.boundary_mode
    }
}

} // verus!
