use vstd::prelude::*;
use crate::decode::Decoded;
use crate::decode::FromJson;
use crate::domain::model::common::decoded_localized_name;
use crate::domain::model::common::Language;
use crate::domain::model::common::LocalizedNameModel;
use crate::domain::model::common::PokemonTypeName;
use crate::error::ParseError;
use crate::filter::FilterConfig;
use crate::filter::FilterModel;
use crate::filter::Trim;
use crate::json::JsonModel;
use crate::json::JsonValue;
use crate::text::clone_all;
use crate::text::views;

verus! {

/// How a type fares against the others, by the names of those types: which it
/// hits for double, half or no damage, and which hit it so.
#[derive(Debug, PartialEq, Eq)]
pub struct DamageRelations {
    pub double_damage_from: Vec<PokemonTypeName>,
    pub double_damage_to: Vec<PokemonTypeName>,
    pub half_damage_from: Vec<PokemonTypeName>,
    pub half_damage_to: Vec<PokemonTypeName>,
    pub no_damage_from: Vec<PokemonTypeName>,
    pub no_damage_to: Vec<PokemonTypeName>,
}

/// The mathematical value of a [`DamageRelations`].
pub ghost struct DamageRelationsModel {
    pub double_damage_from: Seq<Seq<char>>,
    pub double_damage_to: Seq<Seq<char>>,
    pub half_damage_from: Seq<Seq<char>>,
    pub half_damage_to: Seq<Seq<char>>,
    pub no_damage_from: Seq<Seq<char>>,
    pub no_damage_to: Seq<Seq<char>>,
}

impl View for DamageRelations {
    type V = DamageRelationsModel;

    open spec fn view(&self) -> DamageRelationsModel {
        DamageRelationsModel {
            double_damage_from: views(self.double_damage_from@),
            double_damage_to: views(self.double_damage_to@),
            half_damage_from: views(self.half_damage_from@),
            half_damage_to: views(self.half_damage_to@),
            no_damage_from: views(self.no_damage_from@),
            no_damage_to: views(self.no_damage_to@),
        }
    }
}

impl Clone for DamageRelations {
    fn clone(&self) -> (r: Self)
        ensures
            r@ == self@,
    {
        DamageRelations {
            double_damage_from: clone_all(&self.double_damage_from),
            double_damage_to: clone_all(&self.double_damage_to),
            half_damage_from: clone_all(&self.half_damage_from),
            half_damage_to: clone_all(&self.half_damage_to),
            no_damage_from: clone_all(&self.no_damage_from),
            no_damage_to: clone_all(&self.no_damage_to),
        }
    }
}

impl FromJson for DamageRelations {
    open spec fn decoded(json: JsonModel, field: Seq<char>) -> Decoded<DamageRelationsModel> {
        let double_damage_from = json.records_field::<PokemonTypeName>("double_damage_from"@);
        let double_damage_to = json.records_field::<PokemonTypeName>("double_damage_to"@);
        let half_damage_from = json.records_field::<PokemonTypeName>("half_damage_from"@);
        let half_damage_to = json.records_field::<PokemonTypeName>("half_damage_to"@);
        let no_damage_from = json.records_field::<PokemonTypeName>("no_damage_from"@);
        let no_damage_to = json.records_field::<PokemonTypeName>("no_damage_to"@);
        if json.as_object(field) is Err {
            Err(json.as_object(field)->Err_0)
        } else if double_damage_from is Err {
            Err(double_damage_from->Err_0)
        } else if double_damage_to is Err {
            Err(double_damage_to->Err_0)
        } else if half_damage_from is Err {
            Err(half_damage_from->Err_0)
        } else if half_damage_to is Err {
            Err(half_damage_to->Err_0)
        } else if no_damage_from is Err {
            Err(no_damage_from->Err_0)
        } else if no_damage_to is Err {
            Err(no_damage_to->Err_0)
        } else {
            Ok(
                DamageRelationsModel {
                    double_damage_from: double_damage_from->Ok_0,
                    double_damage_to: double_damage_to->Ok_0,
                    half_damage_from: half_damage_from->Ok_0,
                    half_damage_to: half_damage_to->Ok_0,
                    no_damage_from: no_damage_from->Ok_0,
                    no_damage_to: no_damage_to->Ok_0,
                },
            )
        }
    }

    fn from_json(json: &JsonValue, field: &'static str) -> (r: Result<Self, ParseError>) {
        let object = json.as_object(field)?;
        let double_damage_from = object.records_field::<PokemonTypeName>("double_damage_from")?;
        let double_damage_to = object.records_field::<PokemonTypeName>("double_damage_to")?;
        let half_damage_from = object.records_field::<PokemonTypeName>("half_damage_from")?;
        let half_damage_to = object.records_field::<PokemonTypeName>("half_damage_to")?;
        let no_damage_from = object.records_field::<PokemonTypeName>("no_damage_from")?;
        let no_damage_to = object.records_field::<PokemonTypeName>("no_damage_to")?;
        Ok(
            DamageRelations {
                double_damage_from,
                double_damage_to,
                half_damage_from,
                half_damage_to,
                no_damage_from,
                no_damage_to,
            },
        )
    }
}

/// The name of a type in one language.
#[derive(Debug, PartialEq, Eq)]
pub struct Name {
    pub language: Language,
    pub name: String,
}

impl View for Name {
    type V = LocalizedNameModel;

    open spec fn view(&self) -> LocalizedNameModel {
        LocalizedNameModel {
            language: self.language@,
            name: self.name@,
        }
    }
}

impl Clone for Name {
    fn clone(&self) -> (r: Self)
        ensures
            r@ == self@,
    {
        Name {
            language: self.language.clone(),
            name: self.name.clone(),
        }
    }
}

impl FromJson for Name {
    open spec fn decoded(json: JsonModel, field: Seq<char>) -> Decoded<LocalizedNameModel> {
        decoded_localized_name(json, field)
    }

    fn from_json(json: &JsonValue, field: &'static str) -> (r: Result<Self, ParseError>) {
        let object = json.as_object(field)?;
        let name = object.text_field("name")?;
        let language = object.record_field::<Language>("language")?;
        Ok(Name { language, name })
    }
}

/// An elemental type.
#[derive(Debug, PartialEq, Eq)]
pub struct PokeType {
    pub id: u32,
    pub name: String,
    pub damage_relations: DamageRelations,
    pub names: Vec<Name>,
}

/// The mathematical value of a [`PokeType`].
pub ghost struct PokeTypeModel {
    pub id: u32,
    pub name: Seq<char>,
    pub damage_relations: DamageRelationsModel,
    pub names: Seq<LocalizedNameModel>,
}

impl View for PokeType {
    type V = PokeTypeModel;

    open spec fn view(&self) -> PokeTypeModel {
        PokeTypeModel {
            id: self.id,
            name: self.name@,
            damage_relations: self.damage_relations@,
            names: views(self.names@),
        }
    }
}

impl Clone for PokeType {
    fn clone(&self) -> (r: Self)
        ensures
            r@ == self@,
    {
        PokeType {
            id: self.id,
            name: self.name.clone(),
            damage_relations: self.damage_relations.clone(),
            names: clone_all(&self.names),
        }
    }
}

impl FromJson for PokeType {
    open spec fn decoded(json: JsonModel, field: Seq<char>) -> Decoded<PokeTypeModel> {
        let id = json.u32_field("id"@);
        let name = json.text_field("name"@);
        let damage_relations = json.record_field::<DamageRelations>("damage_relations"@);
        let names = json.records_field::<Name>("names"@);
        if json.as_object(field) is Err {
            Err(json.as_object(field)->Err_0)
        } else if id is Err {
            Err(id->Err_0)
        } else if name is Err {
            Err(name->Err_0)
        } else if damage_relations is Err {
            Err(damage_relations->Err_0)
        } else if names is Err {
            Err(names->Err_0)
        } else {
            Ok(
                PokeTypeModel {
                    id: id->Ok_0,
                    name: name->Ok_0,
                    damage_relations: damage_relations->Ok_0,
                    names: names->Ok_0,
                },
            )
        }
    }

    fn from_json(json: &JsonValue, field: &'static str) -> (r: Result<Self, ParseError>) {
        let object = json.as_object(field)?;
        let id = object.u32_field("id")?;
        let name = object.text_field("name")?;
        let damage_relations = object.record_field::<DamageRelations>("damage_relations")?;
        let names = object.records_field::<Name>("names")?;
        Ok(PokeType { id, name, damage_relations, names })
    }
}

impl Trim for PokeType {
    /// Types are not trimmed.
    open spec fn trimmed(record: PokeTypeModel, config: FilterModel) -> PokeTypeModel {
        record
    }

    fn trim(self, config: &FilterConfig) -> (r: Self) {
        self
    }

    proof fn lemma_trim_idempotent(record: PokeTypeModel, config: FilterModel) {
    }
}

} // verus!
