use vstd::prelude::*;
use crate::decode::Decoded;
use crate::decode::FromJson;
use crate::domain::model::common::decoded_flavor_text;
use crate::domain::model::common::decoded_localized_effect;
use crate::domain::model::common::decoded_localized_name;
use crate::domain::model::common::FlavorTextModel;
use crate::domain::model::common::Language;
use crate::domain::model::common::LocalizedEffectModel;
use crate::domain::model::common::LocalizedNameModel;
use crate::domain::model::common::VersionGroup;
use crate::error::ParseError;
use crate::filter::FilterConfig;
use crate::filter::FilterModel;
use crate::filter::Trim;
use crate::json::JsonModel;
use crate::json::JsonValue;
use crate::text::clone_all;
use crate::text::views;

verus! {

/// What an item does, told in one language.
#[derive(Debug, PartialEq, Eq)]
pub struct EffectEntry {
    pub effect: String,
    pub language: Language,
    pub short_effect: String,
}

impl View for EffectEntry {
    type V = LocalizedEffectModel;

    open spec fn view(&self) -> LocalizedEffectModel {
        LocalizedEffectModel {
            effect: self.effect@,
            language: self.language@,
            short_effect: self.short_effect@,
        }
    }
}

impl Clone for EffectEntry {
    fn clone(&self) -> (r: Self)
        ensures
            r@ == self@,
    {
        EffectEntry {
            effect: self.effect.clone(),
            language: self.language.clone(),
            short_effect: self.short_effect.clone(),
        }
    }
}

impl FromJson for EffectEntry {
    open spec fn decoded(json: JsonModel, field: Seq<char>) -> Decoded<LocalizedEffectModel> {
        decoded_localized_effect(json, field)
    }

    fn from_json(json: &JsonValue, field: &'static str) -> (r: Result<Self, ParseError>) {
        let object = json.as_object(field)?;
        let effect = object.text_field("effect")?;
        let short_effect = object.text_field("short_effect")?;
        let language = object.record_field::<Language>("language")?;
        Ok(EffectEntry { effect, language, short_effect })
    }
}

/// The description of an item in one language and one group of versions.
#[derive(Debug, PartialEq, Eq)]
pub struct FlavorTextEntry {
    pub flavor_text: String,
    pub language: Language,
    pub version_group: VersionGroup,
}

impl View for FlavorTextEntry {
    type V = FlavorTextModel;

    open spec fn view(&self) -> FlavorTextModel {
        FlavorTextModel {
            flavor_text: self.flavor_text@,
            language: self.language@,
            version_group: self.version_group@,
        }
    }
}

impl Clone for FlavorTextEntry {
    fn clone(&self) -> (r: Self)
        ensures
            r@ == self@,
    {
        FlavorTextEntry {
            flavor_text: self.flavor_text.clone(),
            language: self.language.clone(),
            version_group: self.version_group.clone(),
        }
    }
}

impl FromJson for FlavorTextEntry {
    /// Upstream the text of an item's description stands under `text`.
    open spec fn decoded(json: JsonModel, field: Seq<char>) -> Decoded<FlavorTextModel> {
        decoded_flavor_text(json, field, "text"@)
    }

    fn from_json(json: &JsonValue, field: &'static str) -> (r: Result<Self, ParseError>) {
        let object = json.as_object(field)?;
        let flavor_text = object.text_field("text")?;
        let language = object.record_field::<Language>("language")?;
        let version_group = object.record_field::<VersionGroup>("version_group")?;
        Ok(FlavorTextEntry { flavor_text, language, version_group })
    }
}

/// The name of an item in one language.
#[derive(Debug, PartialEq, Eq)]
pub struct Name {
    pub language: Language,
    pub name: String,
}

impl View for Name {
    type V = LocalizedNameModel;

    open spec fn view(&self) -> LocalizedNameModel {
        LocalizedNameModel {
            language: self.language@,
            name: self.name@,
        }
    }
}

impl Clone for Name {
    fn clone(&self) -> (r: Self)
        ensures
            r@ == self@,
    {
        Name {
            language: self.language.clone(),
            name: self.name.clone(),
        }
    }
}

impl FromJson for Name {
    open spec fn decoded(json: JsonModel, field: Seq<char>) -> Decoded<LocalizedNameModel> {
        decoded_localized_name(json, field)
    }

    fn from_json(json: &JsonValue, field: &'static str) -> (r: Result<Self, ParseError>) {
        let object = json.as_object(field)?;
        let name = object.text_field("name")?;
        let language = object.record_field::<Language>("language")?;
        Ok(Name { language, name })
    }
}

/// An item. A cost of `None` means that the item has no price, which is not a
/// price of zero.
#[derive(Debug, PartialEq, Eq)]
pub struct Item {
    pub id: u32,
    pub name: String,
    pub cost: Option<u32>,
    pub effect_entries: Vec<EffectEntry>,
    pub flavor_text_entries: Vec<FlavorTextEntry>,
    pub names: Vec<Name>,
}

/// The mathematical value of an [`Item`].
pub ghost struct ItemModel {
    pub id: u32,
    pub name: Seq<char>,
    pub cost: Option<u32>,
    pub effect_entries: Seq<LocalizedEffectModel>,
    pub flavor_text_entries: Seq<FlavorTextModel>,
    pub names: Seq<LocalizedNameModel>,
}

impl View for Item {
    type V = ItemModel;

    open spec fn view(&self) -> ItemModel {
        ItemModel {
            id: self.id,
            name: self.name@,
            cost: self.cost,
            effect_entries: views(self.effect_entries@),
            flavor_text_entries: views(self.flavor_text_entries@),
            names: views(self.names@),
        }
    }
}

impl Clone for Item {
    fn clone(&self) -> (r: Self)
        ensures
            r@ == self@,
    {
        Item {
            id: self.id,
            name: self.name.clone(),
            cost: self.cost,
            effect_entries: clone_all(&self.effect_entries),
            flavor_text_entries: clone_all(&self.flavor_text_entries),
            names: clone_all(&self.names),
        }
    }
}

impl FromJson for Item {
    open spec fn decoded(json: JsonModel, field: Seq<char>) -> Decoded<ItemModel> {
        let id = json.u32_field("id"@);
        let name = json.text_field("name"@);
        let cost = json.optional_u32_field("cost"@);
        let effect_entries = json.records_field::<EffectEntry>("effect_entries"@);
        let flavor_text_entries = json.records_field::<FlavorTextEntry>("flavor_text_entries"@);
        let names = json.records_field::<Name>("names"@);
        if json.as_object(field) is Err {
            Err(json.as_object(field)->Err_0)
        } else if id is Err {
            Err(id->Err_0)
        } else if name is Err {
            Err(name->Err_0)
        } else if cost is Err {
            Err(cost->Err_0)
        } else if effect_entries is Err {
            Err(effect_entries->Err_0)
        } else if flavor_text_entries is Err {
            Err(flavor_text_entries->Err_0)
        } else if names is Err {
            Err(names->Err_0)
        } else {
            Ok(
                ItemModel {
                    id: id->Ok_0,
                    name: name->Ok_0,
                    cost: cost->Ok_0,
                    effect_entries: effect_entries->Ok_0,
                    flavor_text_entries: flavor_text_entries->Ok_0,
                    names: names->Ok_0,
                },
            )
        }
    }

    fn from_json(json: &JsonValue, field: &'static str) -> (r: Result<Self, ParseError>) {
        let object = json.as_object(field)?;
        let id = object.u32_field("id")?;
        let name = object.text_field("name")?;
        let cost = object.optional_u32_field("cost")?;
        let effect_entries = object.records_field::<EffectEntry>("effect_entries")?;
        let flavor_text_entries = object.records_field::<FlavorTextEntry>("flavor_text_entries")?;
        let names = object.records_field::<Name>("names")?;
        Ok(Item { id, name, cost, effect_entries, flavor_text_entries, names })
    }
}

impl Trim for Item {
    /// Items are not trimmed.
    open spec fn trimmed(record: ItemModel, config: FilterModel) -> ItemModel {
        record
    }

    fn trim(self, config: &FilterConfig) -> (r: Self) {
        self
    }

    proof fn lemma_trim_idempotent(record: ItemModel, config: FilterModel) {
    }
}

} // verus!
