use vstd::prelude::*;
use crate::domain::model::ability::Ability;
use crate::domain::model::ability::AbilityModel;
use crate::domain::model::pokemon::Pokemon;
use crate::domain::model::pokemon::PokemonModel;
use crate::domain::model::stats::StatName;
use crate::domain::model::status::StatusCondition;

verus! {

/// A Pokémon in battle: what it brings from its record, and what changes while
/// it fights.
#[derive(Debug, PartialEq, Eq)]
pub struct ActivePokemon {
    pub name: String,
    pub active_ability: Ability,
    pub current_hp: u32,
    pub max_hp: u32,
    pub status: Option<StatusCondition>,
    pub attack: u32,
    pub defense: u32,
    pub special_attack: u32,
    pub special_defense: u32,
    pub speed: u32,
    pub attack_rank: i8,
    pub defense_rank: i8,
    pub special_attack_rank: i8,
    pub special_defense_rank: i8,
    pub speed_rank: i8,
    pub accuracy_rank: i8,
    pub evasion_rank: i8,
}

/// The mathematical value of an [`ActivePokemon`].
pub ghost struct ActivePokemonModel {
    pub name: Seq<char>,
    pub active_ability: AbilityModel,
    pub current_hp: u32,
    pub max_hp: u32,
    pub status: Option<StatusCondition>,
    pub attack: u32,
    pub defense: u32,
    pub special_attack: u32,
    pub special_defense: u32,
    pub speed: u32,
    pub attack_rank: i8,
    pub defense_rank: i8,
    pub special_attack_rank: i8,
    pub special_defense_rank: i8,
    pub speed_rank: i8,
    pub accuracy_rank: i8,
    pub evasion_rank: i8,
}

/// Whether a rank lies between -6 and +6.
pub open spec fn is_rank(rank: i8) -> bool {
    -6 <= rank <= 6
}

impl ActivePokemonModel {
    /// The hit points do not exceed their maximum, and every rank lies between
    /// -6 and +6.
    pub open spec fn well_formed(self) -> bool {
        &&& self.current_hp <= self.max_hp
        &&& is_rank(self.attack_rank)
        &&& is_rank(self.defense_rank)
        &&& is_rank(self.special_attack_rank)
        &&& is_rank(self.special_defense_rank)
        &&& is_rank(self.speed_rank)
        &&& is_rank(self.accuracy_rank)
        &&& is_rank(self.evasion_rank)
    }
}

impl View for ActivePokemon {
    type V = ActivePokemonModel;

    open spec fn view(&self) -> ActivePokemonModel {
        ActivePokemonModel {
            name: self.name@,
            active_ability: self.active_ability@,
            current_hp: self.current_hp,
            max_hp: self.max_hp,
            status: self.status,
            attack: self.attack,
            defense: self.defense,
            special_attack: self.special_attack,
            special_defense: self.special_defense,
            speed: self.speed,
            attack_rank: self.attack_rank,
            defense_rank: self.defense_rank,
            special_attack_rank: self.special_attack_rank,
            special_defense_rank: self.special_defense_rank,
            speed_rank: self.speed_rank,
            accuracy_rank: self.accuracy_rank,
            evasion_rank: self.evasion_rank,
        }
    }
}

impl Clone for ActivePokemon {
    fn clone(&self) -> (r: Self)
        ensures
            r@ == self@,
    {
        ActivePokemon {
            name: self.name.clone(),
            active_ability: self.active_ability.clone(),
            current_hp: self.current_hp,
            max_hp: self.max_hp,
            status: self.status,
            attack: self.attack,
            defense: self.defense,
            special_attack: self.special_attack,
            special_defense: self.special_defense,
            speed: self.speed,
            attack_rank: self.attack_rank,
            defense_rank: self.defense_rank,
            special_attack_rank: self.special_attack_rank,
            special_defense_rank: self.special_defense_rank,
            speed_rank: self.speed_rank,
            accuracy_rank: self.accuracy_rank,
            evasion_rank: self.evasion_rank,
        }
    }
}

/// The stat that a Pokémon would need for battle and does not list.
#[derive(Debug, Clone, Copy, PartialEq, Eq, Structural)]
pub struct MissingStat {
    pub stat: StatName,
}

/// A Pokémon as it enters battle: at full hit points, under no condition, all
/// ranks at zero, its stats at their base values.
pub open spec fn entering(
    name: Seq<char>,
    ability: AbilityModel,
    hp: u32,
    attack: u32,
    defense: u32,
    special_attack: u32,
    special_defense: u32,
    speed: u32,
) -> ActivePokemonModel {
    ActivePokemonModel {
        name,
        active_ability: ability,
        current_hp: hp,
        max_hp: hp,
        status: None,
        attack,
        defense,
        special_attack,
        special_defense,
        speed,
        attack_rank: 0,
        defense_rank: 0,
        special_attack_rank: 0,
        special_defense_rank: 0,
        speed_rank: 0,
        accuracy_rank: 0,
        evasion_rank: 0,
    }
}

/// The first of the six stats, in their order, that a Pokémon does not list.
pub open spec fn first_missing(pokemon: PokemonModel) -> Option<StatName> {
    if pokemon.base_stat(StatName::Hp) is None {
        Some(StatName::Hp)
    } else if pokemon.base_stat(StatName::Attack) is None {
        Some(StatName::Attack)
    } else if pokemon.base_stat(StatName::Defense) is None {
        Some(StatName::Defense)
    } else if pokemon.base_stat(StatName::SpecialAttack) is None {
        Some(StatName::SpecialAttack)
    } else if pokemon.base_stat(StatName::SpecialDefense) is None {
        Some(StatName::SpecialDefense)
    } else if pokemon.base_stat(StatName::Speed) is None {
        Some(StatName::Speed)
    } else {
        None
    }
}

impl ActivePokemon {
    /// Sends a Pokémon into battle with one of its abilities. The Pokémon must
    /// list all six stats; [`ActivePokemon::try_new`] asks for nothing.
    pub fn new(pokemon: &Pokemon, ability: &Ability) -> (r: Self)
        requires
            pokemon@.has_all_stats(),
        ensures
            r@ == entering(
                pokemon@.name,
                ability@,
                pokemon@.base_stat(StatName::Hp)->Some_0,
                pokemon@.base_stat(StatName::Attack)->Some_0,
                pokemon@.base_stat(StatName::Defense)->Some_0,
                pokemon@.base_stat(StatName::SpecialAttack)->Some_0,
                pokemon@.base_stat(StatName::SpecialDefense)->Some_0,
                pokemon@.base_stat(StatName::Speed)->Some_0,
            ),
            r@.well_formed(),
    {
        ActivePokemon::assemble(
            pokemon,
            ability,
            pokemon.base_stat(StatName::Hp).unwrap(),
            pokemon.base_stat(StatName::Attack).unwrap(),
            pokemon.base_stat(StatName::Defense).unwrap(),
            pokemon.base_stat(StatName::SpecialAttack).unwrap(),
            pokemon.base_stat(StatName::SpecialDefense).unwrap(),
            pokemon.base_stat(StatName::Speed).unwrap(),
        )
    }

    /// Sends a Pokémon into battle with one of its abilities, or names the
    /// first stat that the Pokémon does not list.
    pub fn try_new(pokemon: &Pokemon, ability: &Ability) -> (r: Result<Self, MissingStat>)
        ensures
            match r {
                Ok(active) => first_missing(pokemon@) is None && active@.well_formed() && active@
                    == entering(
                    pokemon@.name,
                    ability@,
                    pokemon@.base_stat(StatName::Hp)->Some_0,
                    pokemon@.base_stat(StatName::Attack)->Some_0,
                    pokemon@.base_stat(StatName::Defense)->Some_0,
                    pokemon@.base_stat(StatName::SpecialAttack)->Some_0,
                    pokemon@.base_stat(StatName::SpecialDefense)->Some_0,
                    pokemon@.base_stat(StatName::Speed)->Some_0,
                ),
                Err(missing) => first_missing(pokemon@) == Some(missing.stat),
            },
    {
        let max_hp = match pokemon.base_stat(StatName::Hp) {
            Some(value) => value,
            None => return Err(MissingStat { stat: StatName::Hp }),
        };
        let attack = match pokemon.base_stat(StatName::Attack) {
            Some(value) => value,
            None => return Err(MissingStat { stat: StatName::Attack }),
        };
        let defense = match pokemon.base_stat(StatName::Defense) {
            Some(value) => value,
            None => return Err(MissingStat { stat: StatName::Defense }),
        };
        let special_attack = match pokemon.base_stat(StatName::SpecialAttack) {
            Some(value) => value,
            None => return Err(MissingStat { stat: StatName::SpecialAttack }),
        };
        let special_defense = match pokemon.base_stat(StatName::SpecialDefense) {
            Some(value) => value,
            None => return Err(MissingStat { stat: StatName::SpecialDefense }),
        };
        let speed = match pokemon.base_stat(StatName::Speed) {
            Some(value) => value,
            None => return Err(MissingStat { stat: StatName::Speed }),
        };
        Ok(
            ActivePokemon::assemble(
                pokemon,
                ability,
                max_hp,
                attack,
                defense,
                special_attack,
                special_defense,
                speed,
            ),
        )
    }

    fn assemble(
        pokemon: &Pokemon,
        ability: &Ability,
        hp: u32,
        attack: u32,
        defense: u32,
        special_attack: u32,
        special_defense: u32,
        speed: u32,
    ) -> (r: Self)
        ensures
            r@ == entering(
                pokemon@.name,
                ability@,
                hp,
                attack,
                defense,
                special_attack,
                special_defense,
                speed,
            ),
    {
        ActivePokemon {
            name: pokemon.name.clone(),
            active_ability: ability.clone(),
            current_hp: hp,
            max_hp: hp,
            status: None,
            attack,
            defense,
            special_attack,
            special_defense,
            speed,
            attack_rank: 0,
            defense_rank: 0,
            special_attack_rank: 0,
            special_defense_rank: 0,
            speed_rank: 0,
            accuracy_rank: 0,
            evasion_rank: 0,
        }
    }

    /// Takes damage: the hit points go down by `damage`, and stop at zero.
    pub fn take_damage(&mut self, damage: u32)
        ensures
            final(self)@ == (ActivePokemonModel {
                current_hp: if old(self).current_hp >= damage {
                    (old(self).current_hp - damage) as u32
                } else {
                    0
                },
                ..old(self)@
            }),
            old(self)@.well_formed() ==> final(self)@.well_formed(),
    {
        self.current_hp = self.current_hp.saturating_sub(damage);
    }

    /// Whether no hit points are left.
    pub fn is_fainted(&self) -> (r: bool)
        ensures
            r == (self@.current_hp == 0),
    {
        self.current_hp == 0
    }

    /// Puts the Pokémon under a condition, in place of any it was under.
    pub fn set_status(&mut self, status: StatusCondition)
        ensures
            final(self)@ == (ActivePokemonModel { status: Some(status), ..old(self)@ }),
            old(self)@.well_formed() ==> final(self)@.well_formed(),
    {
        self.status = Some(status);
    }
}

} // verus!
