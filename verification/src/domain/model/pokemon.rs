use vstd::prelude::*;
use crate::decode::Decoded;
use crate::decode::FromJson;
use crate::domain::model::common::collapse_reference;
use crate::domain::model::common::lemma_reference_collapse;
use crate::domain::model::common::PokemonTypeName;
use crate::domain::model::common::reference_json;
use crate::domain::model::common::reference_name;
use crate::domain::model::moves::MoveName;
use crate::domain::model::stats::StatName;
use crate::error::ParseError;
use crate::error::ParseErrorModel;
use crate::filter::FilterConfig;
use crate::filter::FilterModel;
use crate::filter::Trim;
use crate::json::first_member;
use crate::json::JsonModel;
use crate::json::JsonValue;
use crate::json::model_of;
use crate::text::clone_all;
use crate::text::clone_optional_text;
use crate::text::optional_text;
use crate::text::views;

verus! {

/// The name of an ability.
#[derive(Debug, PartialEq, Eq)]
pub struct AbilityName {
    pub name: String,
}

impl View for AbilityName {
    type V = Seq<char>;

    open spec fn view(&self) -> Seq<char> {
        self.name@
    }
}

impl Clone for AbilityName {
    fn clone(&self) -> (r: Self)
        ensures
            r@ == self@,
    {
        AbilityName { name: self.name.clone() }
    }
}

impl AbilityName {
    pub fn new(name: String) -> (r: Self)
        ensures
            r@ == name@,
    {
        AbilityName { name }
    }
}

impl FromJson for AbilityName {
    /// Decoded from a reference, of which the name is kept.
    open spec fn decoded(json: JsonModel, field: Seq<char>) -> Decoded<Seq<char>> {
        reference_name(json, field)
    }

    fn from_json(json: &JsonValue, field: &'static str) -> (r: Result<Self, ParseError>) {
        Ok(AbilityName::new(collapse_reference(json, field)?))
    }
}

/// An ability that a Pokémon can have, and the slot it takes.
#[derive(Debug, PartialEq, Eq)]
pub struct PokemonAbility {
    pub ability: AbilityName,
    pub is_hidden: bool,
    pub slot: u32,
}

/// The mathematical value of a [`PokemonAbility`].
pub ghost struct PokemonAbilityModel {
    pub ability: Seq<char>,
    pub is_hidden: bool,
    pub slot: u32,
}

impl View for PokemonAbility {
    type V = PokemonAbilityModel;

    open spec fn view(&self) -> PokemonAbilityModel {
        PokemonAbilityModel {
            ability: self.ability@,
            is_hidden: self.is_hidden,
            slot: self.slot,
        }
    }
}

impl Clone for PokemonAbility {
    fn clone(&self) -> (r: Self)
        ensures
            r@ == self@,
    {
        PokemonAbility {
            ability: self.ability.clone(),
            is_hidden: self.is_hidden,
            slot: self.slot,
        }
    }
}

impl FromJson for PokemonAbility {
    open spec fn decoded(json: JsonModel, field: Seq<char>) -> Decoded<PokemonAbilityModel> {
        let ability = json.record_field::<AbilityName>("ability"@);
        let is_hidden = json.bool_field("is_hidden"@);
        let slot = json.u32_field("slot"@);
        if json.as_object(field) is Err {
            Err(json.as_object(field)->Err_0)
        } else if ability is Err {
            Err(ability->Err_0)
        } else if is_hidden is Err {
            Err(is_hidden->Err_0)
        } else if slot is Err {
            Err(slot->Err_0)
        } else {
            Ok(
                PokemonAbilityModel {
                    ability: ability->Ok_0,
                    is_hidden: is_hidden->Ok_0,
                    slot: slot->Ok_0,
                },
            )
        }
    }

    fn from_json(json: &JsonValue, field: &'static str) -> (r: Result<Self, ParseError>) {
        let object = json.as_object(field)?;
        let ability = object.record_field::<AbilityName>("ability")?;
        let is_hidden = object.bool_field("is_hidden")?;
        let slot = object.u32_field("slot")?;
        Ok(PokemonAbility { ability, is_hidden, slot })
    }
}

/// The name of a form that a Pokémon takes.
#[derive(Debug, PartialEq, Eq)]
pub struct PokemonForm {
    pub name: String,
}

impl View for PokemonForm {
    type V = Seq<char>;

    open spec fn view(&self) -> Seq<char> {
        self.name@
    }
}

impl Clone for PokemonForm {
    fn clone(&self) -> (r: Self)
        ensures
            r@ == self@,
    {
        PokemonForm { name: self.name.clone() }
    }
}

impl PokemonForm {
    pub fn new(name: String) -> (r: Self)
        ensures
            r@ == name@,
    {
        PokemonForm { name }
    }
}

impl FromJson for PokemonForm {
    /// Decoded from a reference, of which the name is kept.
    open spec fn decoded(json: JsonModel, field: Seq<char>) -> Decoded<Seq<char>> {
        reference_name(json, field)
    }

    fn from_json(json: &JsonValue, field: &'static str) -> (r: Result<Self, ParseError>) {
        Ok(PokemonForm::new(collapse_reference(json, field)?))
    }
}

/// A move that a Pokémon can learn.
#[derive(Debug, PartialEq, Eq)]
pub struct PokemonMove {
    pub move_name: MoveName,
}

impl View for PokemonMove {
    type V = Seq<char>;

    open spec fn view(&self) -> Seq<char> {
        self.move_name@
    }
}

impl Clone for PokemonMove {
    fn clone(&self) -> (r: Self)
        ensures
            r@ == self@,
    {
        PokemonMove {
            move_name: self.move_name.clone(),
        }
    }
}

impl FromJson for PokemonMove {
    open spec fn decoded(json: JsonModel, field: Seq<char>) -> Decoded<Seq<char>> {
        let move_name = json.reference_field("move"@);
        if json.as_object(field) is Err {
            Err(json.as_object(field)->Err_0)
        } else if move_name is Err {
            Err(move_name->Err_0)
        } else {
            Ok(move_name->Ok_0)
        }
    }

    fn from_json(json: &JsonValue, field: &'static str) -> (r: Result<Self, ParseError>) {
        let object = json.as_object(field)?;
        let move_name = MoveName::new(object.reference_field("move")?);
        Ok(PokemonMove { move_name })
    }
}

/// The base value of one stat of a Pokémon, and the effort it yields.
#[derive(Debug, Clone, Copy, PartialEq, Eq, Structural)]
pub struct PokemonStat {
    pub stat: StatName,
    pub effort: u32,
    pub base_stat: u32,
}

impl View for PokemonStat {
    type V = PokemonStat;

    open spec fn view(&self) -> PokemonStat {
        *self
    }
}

impl FromJson for PokemonStat {
    open spec fn decoded(json: JsonModel, field: Seq<char>) -> Decoded<PokemonStat> {
        let stat = json.vocabulary_field::<StatName>("stat"@);
        let effort = json.u32_field("effort"@);
        let base_stat = json.u32_field("base_stat"@);
        if json.as_object(field) is Err {
            Err(json.as_object(field)->Err_0)
        } else if stat is Err {
            Err(stat->Err_0)
        } else if effort is Err {
            Err(effort->Err_0)
        } else if base_stat is Err {
            Err(base_stat->Err_0)
        } else {
            Ok(PokemonStat { stat: stat->Ok_0, effort: effort->Ok_0, base_stat: base_stat->Ok_0 })
        }
    }

    fn from_json(json: &JsonValue, field: &'static str) -> (r: Result<Self, ParseError>) {
        let object = json.as_object(field)?;
        let stat = object.vocabulary_field::<StatName>("stat")?;
        let effort = object.u32_field("effort")?;
        let base_stat = object.u32_field("base_stat")?;
        Ok(PokemonStat { stat, effort, base_stat })
    }
}

impl PokemonStat {
    /// The JSON object that stands for a stat entry: the stat as a reference
    /// by its canonical name, with an empty address, then the effort and the
    /// base value.
    pub open spec fn encoded(self) -> JsonModel {
        JsonModel::Object(
            seq![
                ("stat"@, reference_json(self.stat.text(), Seq::empty())),
                ("effort"@, JsonModel::Number(Some(self.effort as int))),
                ("base_stat"@, JsonModel::Number(Some(self.base_stat as int))),
            ],
        )
    }

    /// Decoding what was encoded gives the entry back, wherever it stands.
    pub proof fn lemma_encoded_round_trip(entry: PokemonStat, field: Seq<char>)
        ensures
            PokemonStat::decoded(entry.encoded(), field) == Ok::<PokemonStat, ParseErrorModel>(
                entry,
            ),
    {
        reveal_strlit("stat");
        reveal_strlit("effort");
        reveal_strlit("base_stat");
        reveal_with_fuel(first_member, 4);
        let members = seq![
            ("stat"@, reference_json(entry.stat.text(), Seq::empty())),
            ("effort"@, JsonModel::Number(Some(entry.effort as int))),
            ("base_stat"@, JsonModel::Number(Some(entry.base_stat as int))),
        ];
        assert("stat"@.len() == 4 && "effort"@.len() == 6 && "base_stat"@.len() == 9);
        assert(members.skip(1)[0] == members[1]);
        assert(members.skip(1).skip(1)[0] == members[2]);
        lemma_reference_collapse(entry.stat.text(), Seq::empty(), "stat"@);
        StatName::lemma_round_trip(entry.stat);
        let json = entry.encoded();
        assert(json.member("stat"@) == Some(members[0].1));
        assert(json.member("effort"@) == Some(members[1].1));
        assert(json.member("base_stat"@) == Some(members[2].1));
    }

    /// Writes the entry as the JSON object that it is decoded from.
    pub fn to_json(&self) -> (json: JsonValue)
        ensures
            json@ == self.encoded(),
    {
        let mut reference: Vec<(String, JsonValue)> = Vec::new();
        reference.push(("name".to_owned(), JsonValue::Text(self.stat.as_str().to_owned())));
        reference.push(("url".to_owned(), JsonValue::Text(String::new())));
        let mut members: Vec<(String, JsonValue)> = Vec::new();
        members.push(("stat".to_owned(), JsonValue::Object(reference)));
        members.push(("effort".to_owned(), JsonValue::Number(Some(self.effort as i128))));
        members.push(("base_stat".to_owned(), JsonValue::Number(Some(self.base_stat as i128))));
        let json = JsonValue::Object(members);
        proof {
            reveal_with_fuel(model_of, 3);
            let inner = JsonValue::Object(reference);
            assert(inner@->Object_0 =~= seq![
                ("name"@, JsonModel::Text(self.stat.text())),
                ("url"@, JsonModel::Text(Seq::empty())),
            ]);
            assert(json@->Object_0 =~= self.encoded()->Object_0);
        }
        json
    }
}

/// A type of a Pokémon, and the slot it takes.
#[derive(Debug, PartialEq, Eq)]
pub struct PokemonType {
    pub slot: u32,
    pub type_info: PokemonTypeName,
}

/// The mathematical value of a [`PokemonType`].
pub ghost struct PokemonTypeModel {
    pub slot: u32,
    pub type_info: Seq<char>,
}

impl View for PokemonType {
    type V = PokemonTypeModel;

    open spec fn view(&self) -> PokemonTypeModel {
        PokemonTypeModel {
            slot: self.slot,
            type_info: self.type_info@,
        }
    }
}

impl Clone for PokemonType {
    fn clone(&self) -> (r: Self)
        ensures
            r@ == self@,
    {
        PokemonType {
            slot: self.slot,
            type_info: self.type_info.clone(),
        }
    }
}

impl FromJson for PokemonType {
    open spec fn decoded(json: JsonModel, field: Seq<char>) -> Decoded<PokemonTypeModel> {
        let slot = json.u32_field("slot"@);
        let type_info = json.record_field::<PokemonTypeName>("type"@);
        if json.as_object(field) is Err {
            Err(json.as_object(field)->Err_0)
        } else if slot is Err {
            Err(slot->Err_0)
        } else if type_info is Err {
            Err(type_info->Err_0)
        } else {
            Ok(
                PokemonTypeModel {
                    slot: slot->Ok_0,
                    type_info: type_info->Ok_0,
                },
            )
        }
    }

    fn from_json(json: &JsonValue, field: &'static str) -> (r: Result<Self, ParseError>) {
        let object = json.as_object(field)?;
        let slot = object.u32_field("slot")?;
        let type_info = object.record_field::<PokemonTypeName>("type")?;
        Ok(PokemonType { slot, type_info })
    }
}

/// A Pokémon. The species must be mentioned, and may be `null`.
#[derive(Debug, PartialEq, Eq)]
pub struct Pokemon {
    pub id: u32,
    pub name: String,
    pub abilities: Vec<PokemonAbility>,
    pub forms: Vec<PokemonForm>,
    pub moves: Vec<PokemonMove>,
    pub species: Option<String>,
    pub stats: Vec<PokemonStat>,
    pub types: Vec<PokemonType>,
}

/// The mathematical value of a [`Pokemon`].
pub ghost struct PokemonModel {
    pub id: u32,
    pub name: Seq<char>,
    pub abilities: Seq<PokemonAbilityModel>,
    pub forms: Seq<Seq<char>>,
    pub moves: Seq<Seq<char>>,
    pub species: Option<Seq<char>>,
    pub stats: Seq<PokemonStat>,
    pub types: Seq<PokemonTypeModel>,
}

impl View for Pokemon {
    type V = PokemonModel;

    open spec fn view(&self) -> PokemonModel {
        PokemonModel {
            id: self.id,
            name: self.name@,
            abilities: views(self.abilities@),
            forms: views(self.forms@),
            moves: views(self.moves@),
            species: optional_text(self.species),
            stats: views(self.stats@),
            types: views(self.types@),
        }
    }
}

impl Clone for Pokemon {
    fn clone(&self) -> (r: Self)
        ensures
            r@ == self@,
    {
        Pokemon {
            id: self.id,
            name: self.name.clone(),
            abilities: clone_all(&self.abilities),
            forms: clone_all(&self.forms),
            moves: clone_all(&self.moves),
            species: clone_optional_text(&self.species),
            stats: clone_all(&self.stats),
            types: clone_all(&self.types),
        }
    }
}

impl FromJson for Pokemon {
    open spec fn decoded(json: JsonModel, field: Seq<char>) -> Decoded<PokemonModel> {
        let id = json.u32_field("id"@);
        let name = json.text_field("name"@);
        let abilities = json.records_field::<PokemonAbility>("abilities"@);
        let forms = json.records_field::<PokemonForm>("forms"@);
        let moves = json.records_field::<PokemonMove>("moves"@);
        let species = json.nullable_reference_field("species"@);
        let stats = json.records_field::<PokemonStat>("stats"@);
        let types = json.records_field::<PokemonType>("types"@);
        if json.as_object(field) is Err {
            Err(json.as_object(field)->Err_0)
        } else if id is Err {
            Err(id->Err_0)
        } else if name is Err {
            Err(name->Err_0)
        } else if abilities is Err {
            Err(abilities->Err_0)
        } else if forms is Err {
            Err(forms->Err_0)
        } else if moves is Err {
            Err(moves->Err_0)
        } else if species is Err {
            Err(species->Err_0)
        } else if stats is Err {
            Err(stats->Err_0)
        } else if types is Err {
            Err(types->Err_0)
        } else {
            Ok(
                PokemonModel {
                    id: id->Ok_0,
                    name: name->Ok_0,
                    abilities: abilities->Ok_0,
                    forms: forms->Ok_0,
                    moves: moves->Ok_0,
                    species: species->Ok_0,
                    stats: stats->Ok_0,
                    types: types->Ok_0,
                },
            )
        }
    }

    fn from_json(json: &JsonValue, field: &'static str) -> (r: Result<Self, ParseError>) {
        let object = json.as_object(field)?;
        let id = object.u32_field("id")?;
        let name = object.text_field("name")?;
        let abilities = object.records_field::<PokemonAbility>("abilities")?;
        let forms = object.records_field::<PokemonForm>("forms")?;
        let moves = object.records_field::<PokemonMove>("moves")?;
        let species = object.nullable_reference_field("species")?;
        let stats = object.records_field::<PokemonStat>("stats")?;
        let types = object.records_field::<PokemonType>("types")?;
        Ok(Pokemon { id, name, abilities, forms, moves, species, stats, types })
    }
}

/// The base value of the first entry of `stats` for `stat`.
pub open spec fn first_base_stat(stats: Seq<PokemonStat>, stat: StatName) -> Option<u32>
    decreases stats.len(),
{
    if stats.len() == 0 {
        None
    } else if stats[0].stat == stat {
        Some(stats[0].base_stat)
    } else {
        first_base_stat(stats.skip(1), stat)
    }
}

impl PokemonModel {
    /// The base value of a stat, if the Pokémon lists the stat.
    pub open spec fn base_stat(self, stat: StatName) -> Option<u32> {
        first_base_stat(self.stats, stat)
    }

    /// Whether the Pokémon lists all six stats.
    pub open spec fn has_all_stats(self) -> bool {
        forall|stat: StatName| self.base_stat(stat) is Some
    }

    /// Whether no stat is listed twice, as it is in a well-formed source.
    pub open spec fn has_distinct_stats(self) -> bool {
        forall|i: int, j: int|
            0 <= i < j < self.stats.len() ==> self.stats[i].stat != self.stats[j].stat
    }
}

impl Pokemon {
    /// Looks up the base value of a stat. A Pokémon that does not list the
    /// stat gives `None`.
    pub fn base_stat(&self, stat: StatName) -> (r: Option<u32>)
        ensures
            r == self@.base_stat(stat),
    {
        let ghost all = views(self.stats@);
        let mut i: usize = 0;
        proof {
            assert(all.skip(0) == all);
        }
        while i < self.stats.len()
            invariant
                i <= self.stats.len(),
                all == views(self.stats@),
                first_base_stat(all, stat) == first_base_stat(all.skip(i as int), stat),
            decreases self.stats.len() - i,
        {
            proof {
                assert(all.skip(i as int)[0] == self.stats@[i as int]);
                assert(all.skip(i as int).skip(1) == all.skip(i + 1));
            }
            if self.stats[i].stat == stat {
                return Some(self.stats[i].base_stat);
            }
            i += 1;
        }
        None
    }

    /// Whether no stat is listed twice.
    pub fn has_distinct_stats(&self) -> (r: bool)
        ensures
            r == self@.has_distinct_stats(),
    {
        let ghost all = views(self.stats@);
        let mut j: usize = 0;
        while j < self.stats.len()
            invariant
                j <= self.stats.len(),
                all == views(self.stats@),
                forall|a: int, b: int| 0 <= a < b < j ==> all[a].stat != all[b].stat,
            decreases self.stats.len() - j,
        {
            let mut i: usize = 0;
            while i < j
                invariant
                    i <= j < self.stats.len(),
                    all == views(self.stats@),
                    forall|a: int| 0 <= a < i ==> all[a].stat != all[j as int].stat,
                decreases j - i,
            {
                if self.stats[i].stat == self.stats[j].stat {
                    assert(all[i as int].stat == all[j as int].stat);
                    return false;
                }
                i += 1;
            }
            j += 1;
        }
        true
    }
}

impl Trim for Pokemon {
    /// Pokémon are not trimmed.
    open spec fn trimmed(record: PokemonModel, config: FilterModel) -> PokemonModel {
        record
    }

    fn trim(self, config: &FilterConfig) -> (r: Self) {
        self
    }

    proof fn lemma_trim_idempotent(record: PokemonModel, config: FilterModel) {
    }
}

} // verus!
