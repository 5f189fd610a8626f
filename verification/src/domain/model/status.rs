use vstd::prelude::*;

verus! {

/// A lasting condition that a Pokémon in battle can be under.
#[derive(Debug, Clone, Copy, PartialEq, Eq, Structural)]
pub enum StatusCondition {
    Burn,
    Freeze,
    Paralysis,
    Poison,
    BadPoison,
    Sleep,
}

} // verus!
