use std::collections::HashMap;
use vstd::prelude::*;
use crate::globals::TYPES_NUM;
use crate::palette::{PaletteColor, type_colors, type_color_list};

verus! {

broadcast use vstd::std_specs::hash::group_hash_axioms;

/// The identity of a particle type: its id and the colour it is drawn in.
#[derive(Clone, Copy, Debug, PartialEq, Eq, Structural)]
pub struct ParticleType {
    pub type_id: u128,
    pub color: PaletteColor,
}

/// The entry of the type table for `id`.
pub open spec fn standard_type(id: int) -> ParticleType {
    ParticleType { type_id: id as u128, color: type_colors()[id] }
}

/// The table of particle types, keyed by type id: one entry per id
/// `0..TYPES_NUM`, each id paired with the colour of that position in the
/// type palette.
pub struct ParticleTypes {
    types: HashMap<u128, ParticleType>,
}

impl View for ParticleTypes {
    type V = Map<u128, ParticleType>;

    closed spec fn view(&self) -> Map<u128, ParticleType> {
        self.types@
    }
}

/// The table holds exactly the ids `0..TYPES_NUM`, each with its standard
/// entry.
pub open spec fn is_standard_table(m: Map<u128, ParticleType>) -> bool {
    &&& forall|id: u128| #[trigger] m.contains_key(id) <==> id < TYPES_NUM
    &&& forall|id: u128| id < TYPES_NUM ==> #[trigger] m[id] == standard_type(id as int)
}

impl ParticleTypes {
    #[verifier::type_invariant]
    spec fn well_formed(self) -> bool {
        is_standard_table(self.types@)
    }

    /// Builds the table: type `n` gets the `n`-th colour of the type palette.
    pub fn new() -> (t: Self)
        ensures
            is_standard_table(t@),
    {
        let colors = type_color_list();
        let mut types: HashMap<u128, ParticleType> = HashMap::new();
        let mut n: usize = 0;
        while n < colors.len()
            invariant
                colors@ == type_colors(),
                n <= colors@.len(),
                forall|id: u128| #[trigger] types@.contains_key(id) <==> id < n,
                forall|id: u128| id < n ==> #[trigger] types@[id] == standard_type(id as int),
            decreases colors@.len() - n,
        {
            let type_id = n as u128;
            types.insert(type_id, ParticleType { type_id, color: colors[n] });
            n = n + 1;
        }
        ParticleTypes { types }
    }

    /// The entry of type `id`; the table holds ids `0..TYPES_NUM` only.
    pub fn get_type(&self, id: u128) -> (t: &ParticleType)
        requires
            id < TYPES_NUM,
        ensures
            *t == standard_type(id as int),
            t.type_id == id,
    {
        proof {
            use_type_invariant(self);
        }
        self.types.get(&id).unwrap()
    }
}

/// Whether the interaction strength of type `type_id` towards type `index` is
/// fixed at zero instead of drawn at random: only the last type's response to
/// itself is.
pub fn fixed_action(type_id: u128, index: usize) -> (b: bool)
    ensures
        b == (index == TYPES_NUM - 1 && type_id as usize == TYPES_NUM - 1),
{
    index == TYPES_NUM - 1 && type_id as usize == TYPES_NUM - 1
}

} // verus!

verus! {

/// Each particle type is drawn in a colour of its own: no two entries of the
/// type table share a colour, and each entry carries its own position as id.
pub proof fn law_types_distinct(i: int, j: int)
    requires
        0 <= i < TYPES_NUM,
        0 <= j < TYPES_NUM,
        i != j,
    ensures
        standard_type(i).color != standard_type(j).color,
        standard_type(i).type_id != standard_type(j).type_id,
{
    assert(type_colors().len() == 19);
}

} // verus!
