use vstd::prelude::*;
use crate::decode::Decoded;
use crate::decode::FromJson;
use crate::domain::model::common::decoded_flavor_text;
use crate::domain::model::common::decoded_localized_effect;
use crate::domain::model::common::decoded_localized_name;
use crate::domain::model::common::FlavorTextModel;
use crate::domain::model::common::Language;
use crate::domain::model::common::LocalizedEffectModel;
use crate::domain::model::common::LocalizedNameModel;
use crate::domain::model::common::VersionGroup;
use crate::error::ParseError;
use crate::filter::Entry;
use crate::filter::FilterConfig;
use crate::filter::FilterModel;
use crate::filter::lemma_filter_idempotent;
use crate::filter::retain;
use crate::filter::retained;
use crate::filter::Trim;
use crate::json::JsonModel;
use crate::json::JsonValue;
use crate::text::clone_all;
use crate::text::views;

verus! {

/// What an ability does, told in one language.
#[derive(Debug, PartialEq, Eq)]
pub struct EffectEntry {
    pub effect: String,
    pub short_effect: String,
    pub language: Language,
}

impl View for EffectEntry {
    type V = LocalizedEffectModel;

    open spec fn view(&self) -> LocalizedEffectModel {
        LocalizedEffectModel {
            effect: self.effect@,
            short_effect: self.short_effect@,
            language: self.language@,
        }
    }
}

impl Clone for EffectEntry {
    fn clone(&self) -> (r: Self)
        ensures
            r@ == self@,
    {
        EffectEntry {
            effect: self.effect.clone(),
            short_effect: self.short_effect.clone(),
            language: self.language.clone(),
        }
    }
}

impl FromJson for EffectEntry {
    open spec fn decoded(json: JsonModel, field: Seq<char>) -> Decoded<LocalizedEffectModel> {
        decoded_localized_effect(json, field)
    }

    fn from_json(json: &JsonValue, field: &'static str) -> (r: Result<Self, ParseError>) {
        let object = json.as_object(field)?;
        let effect = object.text_field("effect")?;
        let short_effect = object.text_field("short_effect")?;
        let language = object.record_field::<Language>("language")?;
        Ok(EffectEntry { effect, short_effect, language })
    }
}

/// The description of an ability in one language and one group of versions.
#[derive(Debug, PartialEq, Eq)]
pub struct FlavorTextEntry {
    pub flavor_text: String,
    pub language: Language,
    pub version_group: VersionGroup,
}

impl View for FlavorTextEntry {
    type V = FlavorTextModel;

    open spec fn view(&self) -> FlavorTextModel {
        FlavorTextModel {
            flavor_text: self.flavor_text@,
            language: self.language@,
            version_group: self.version_group@,
        }
    }
}

impl Clone for FlavorTextEntry {
    fn clone(&self) -> (r: Self)
        ensures
            r@ == self@,
    {
        FlavorTextEntry {
            flavor_text: self.flavor_text.clone(),
            language: self.language.clone(),
            version_group: self.version_group.clone(),
        }
    }
}

impl FromJson for FlavorTextEntry {
    open spec fn decoded(json: JsonModel, field: Seq<char>) -> Decoded<FlavorTextModel> {
        decoded_flavor_text(json, field, "flavor_text"@)
    }

    fn from_json(json: &JsonValue, field: &'static str) -> (r: Result<Self, ParseError>) {
        let object = json.as_object(field)?;
        let flavor_text = object.text_field("flavor_text")?;
        let language = object.record_field::<Language>("language")?;
        let version_group = object.record_field::<VersionGroup>("version_group")?;
        Ok(FlavorTextEntry { flavor_text, language, version_group })
    }
}

/// The name of an ability in one language.
#[derive(Debug, PartialEq, Eq)]
pub struct Name {
    pub name: String,
    pub language: Language,
}

impl View for Name {
    type V = LocalizedNameModel;

    open spec fn view(&self) -> LocalizedNameModel {
        LocalizedNameModel {
            name: self.name@,
            language: self.language@,
        }
    }
}

impl Clone for Name {
    fn clone(&self) -> (r: Self)
        ensures
            r@ == self@,
    {
        Name {
            name: self.name.clone(),
            language: self.language.clone(),
        }
    }
}

impl FromJson for Name {
    open spec fn decoded(json: JsonModel, field: Seq<char>) -> Decoded<LocalizedNameModel> {
        decoded_localized_name(json, field)
    }

    fn from_json(json: &JsonValue, field: &'static str) -> (r: Result<Self, ParseError>) {
        let object = json.as_object(field)?;
        let name = object.text_field("name")?;
        let language = object.record_field::<Language>("language")?;
        Ok(Name { name, language })
    }
}

/// An ability.
#[derive(Debug, PartialEq, Eq)]
pub struct Ability {
    pub id: u32,
    pub name: String,
    pub effect_entries: Vec<EffectEntry>,
    pub flavor_text_entries: Vec<FlavorTextEntry>,
    pub names: Vec<Name>,
}

/// The mathematical value of an [`Ability`].
pub ghost struct AbilityModel {
    pub id: u32,
    pub name: Seq<char>,
    pub effect_entries: Seq<LocalizedEffectModel>,
    pub flavor_text_entries: Seq<FlavorTextModel>,
    pub names: Seq<LocalizedNameModel>,
}

impl View for Ability {
    type V = AbilityModel;

    open spec fn view(&self) -> AbilityModel {
        AbilityModel {
            id: self.id,
            name: self.name@,
            effect_entries: views(self.effect_entries@),
            flavor_text_entries: views(self.flavor_text_entries@),
            names: views(self.names@),
        }
    }
}

impl Clone for Ability {
    fn clone(&self) -> (r: Self)
        ensures
            r@ == self@,
    {
        Ability {
            id: self.id,
            name: self.name.clone(),
            effect_entries: clone_all(&self.effect_entries),
            flavor_text_entries: clone_all(&self.flavor_text_entries),
            names: clone_all(&self.names),
        }
    }
}

impl FromJson for Ability {
    open spec fn decoded(json: JsonModel, field: Seq<char>) -> Decoded<AbilityModel> {
        let id = json.u32_field("id"@);
        let name = json.text_field("name"@);
        let effect_entries = json.records_field::<EffectEntry>("effect_entries"@);
        let flavor_text_entries = json.records_field::<FlavorTextEntry>("flavor_text_entries"@);
        let names = json.records_field::<Name>("names"@);
        if json.as_object(field) is Err {
            Err(json.as_object(field)->Err_0)
        } else if id is Err {
            Err(id->Err_0)
        } else if name is Err {
            Err(name->Err_0)
        } else if effect_entries is Err {
            Err(effect_entries->Err_0)
        } else if flavor_text_entries is Err {
            Err(flavor_text_entries->Err_0)
        } else if names is Err {
            Err(names->Err_0)
        } else {
            Ok(
                AbilityModel {
                    id: id->Ok_0,
                    name: name->Ok_0,
                    effect_entries: effect_entries->Ok_0,
                    flavor_text_entries: flavor_text_entries->Ok_0,
                    names: names->Ok_0,
                },
            )
        }
    }

    fn from_json(json: &JsonValue, field: &'static str) -> (r: Result<Self, ParseError>) {
        let object = json.as_object(field)?;
        let id = object.u32_field("id")?;
        let name = object.text_field("name")?;
        let effect_entries = object.records_field::<EffectEntry>("effect_entries")?;
        let flavor_text_entries = object.records_field::<FlavorTextEntry>("flavor_text_entries")?;
        let names = object.records_field::<Name>("names")?;
        Ok(Ability { id, name, effect_entries, flavor_text_entries, names })
    }
}

impl Entry for EffectEntry {
    /// An effect text is kept when its language is allowed.
    open spec fn kept(entry: LocalizedEffectModel, config: FilterModel) -> bool {
        config.languages.contains(entry.language)
    }

    fn is_kept(&self, config: &FilterConfig) -> (r: bool) {
        config.allows_language(self.language.code.as_str())
    }
}

impl Entry for FlavorTextEntry {
    /// A description is kept when its language and its group of versions are
    /// both allowed.
    open spec fn kept(entry: FlavorTextModel, config: FilterModel) -> bool {
        config.languages.contains(entry.language) && config.versions.contains(entry.version_group)
    }

    fn is_kept(&self, config: &FilterConfig) -> (r: bool) {
        config.allows_language(self.language.code.as_str()) && config.allows_version(
            self.version_group.name.as_str(),
        )
    }
}

impl Entry for Name {
    /// A name is kept when its language is allowed.
    open spec fn kept(entry: LocalizedNameModel, config: FilterModel) -> bool {
        config.languages.contains(entry.language)
    }

    fn is_kept(&self, config: &FilterConfig) -> (r: bool) {
        config.allows_language(self.language.code.as_str())
    }
}

impl Trim for Ability {
    /// All three collections of an ability are trimmed.
    open spec fn trimmed(record: AbilityModel, config: FilterModel) -> AbilityModel {
        AbilityModel {
            id: record.id,
            name: record.name,
            effect_entries: retained::<EffectEntry>(record.effect_entries, config),
            flavor_text_entries: retained::<FlavorTextEntry>(record.flavor_text_entries, config),
            names: retained::<Name>(record.names, config),
        }
    }

    fn trim(self, config: &FilterConfig) -> (r: Self) {
        Ability {
            id: self.id,
            name: self.name,
            effect_entries: retain(self.effect_entries, config),
            flavor_text_entries: retain(self.flavor_text_entries, config),
            names: retain(self.names, config),
        }
    }

    proof fn lemma_trim_idempotent(record: AbilityModel, config: FilterModel) {
        lemma_filter_idempotent(
            record.effect_entries,
            |entry: LocalizedEffectModel| EffectEntry::kept(entry, config),
        );
        lemma_filter_idempotent(
            record.flavor_text_entries,
            |entry: FlavorTextModel| FlavorTextEntry::kept(entry, config),
        );
        lemma_filter_idempotent(
            record.names,
            |entry: LocalizedNameModel| Name::kept(entry, config),
        );
    }
}

} // verus!
