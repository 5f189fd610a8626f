use vstd::prelude::*;
use crate::decode::Decoded;
use crate::decode::FromJson;
use crate::decode::Vocabulary;
use crate::domain::model::common::decoded_plain_name;
use crate::domain::model::common::Version;
use crate::error::ParseError;
use crate::filter::Entry;
use crate::filter::FilterConfig;
use crate::filter::FilterModel;
use crate::filter::lemma_filter_idempotent;
use crate::filter::retain;
use crate::filter::retained;
use crate::filter::Trim;
use crate::json::JsonModel;
use crate::json::JsonValue;
use crate::text::clone_all;
use crate::text::same_text;
use crate::text::views;

verus! {

/// The colour that a species is filed under.
#[derive(Debug, Clone, Copy, PartialEq, Eq, Structural)]
pub enum PokemonColor {
    Black,
    Blue,
    Brown,
    Gray,
    Green,
    Pink,
    Purple,
    Red,
    White,
    Yellow,
}

impl View for PokemonColor {
    type V = PokemonColor;

    open spec fn view(&self) -> PokemonColor {
        *self
    }
}

impl PokemonColor {
    /// The canonical name of a colour.
    pub open spec fn text(self) -> Seq<char> {
        match self {
            PokemonColor::Black => "black"@,
            PokemonColor::Blue => "blue"@,
            PokemonColor::Brown => "brown"@,
            PokemonColor::Gray => "gray"@,
            PokemonColor::Green => "green"@,
            PokemonColor::Pink => "pink"@,
            PokemonColor::Purple => "purple"@,
            PokemonColor::Red => "red"@,
            PokemonColor::White => "white"@,
            PokemonColor::Yellow => "yellow"@,
        }
    }

    /// The colour that a name stands for, if it stands for one.
    pub open spec fn named(name: Seq<char>) -> Option<PokemonColor> {
        if name == "black"@ {
            Some(PokemonColor::Black)
        } else if name == "blue"@ {
            Some(PokemonColor::Blue)
        } else if name == "brown"@ {
            Some(PokemonColor::Brown)
        } else if name == "gray"@ {
            Some(PokemonColor::Gray)
        } else if name == "green"@ {
            Some(PokemonColor::Green)
        } else if name == "pink"@ {
            Some(PokemonColor::Pink)
        } else if name == "purple"@ {
            Some(PokemonColor::Purple)
        } else if name == "red"@ {
            Some(PokemonColor::Red)
        } else if name == "white"@ {
            Some(PokemonColor::White)
        } else if name == "yellow"@ {
            Some(PokemonColor::Yellow)
        } else {
            None
        }
    }

    /// No two colours share a name.
    pub proof fn lemma_text_injective(a: PokemonColor, b: PokemonColor)
        requires
            a.text() == b.text(),
        ensures
            a == b,
    {
        reveal_strlit("black");
        reveal_strlit("blue");
        reveal_strlit("brown");
        reveal_strlit("gray");
        reveal_strlit("green");
        reveal_strlit("pink");
        reveal_strlit("purple");
        reveal_strlit("red");
        reveal_strlit("white");
        reveal_strlit("yellow");
        assert("black"@.len() == 5);
        assert("black"@[0] == 'b');
        assert("black"@[1] == 'l');
        assert("blue"@.len() == 4);
        assert("blue"@[0] == 'b');
        assert("brown"@.len() == 5);
        assert("brown"@[0] == 'b');
        assert("brown"@[1] == 'r');
        assert("gray"@.len() == 4);
        assert("gray"@[0] == 'g');
        assert("green"@.len() == 5);
        assert("green"@[0] == 'g');
        assert("pink"@.len() == 4);
        assert("pink"@[0] == 'p');
        assert("purple"@.len() == 6);
        assert("purple"@[0] == 'p');
        assert("red"@.len() == 3);
        assert("white"@.len() == 5);
        assert("white"@[0] == 'w');
        assert("yellow"@.len() == 6);
        assert("yellow"@[0] == 'y');
    }

    /// Parsing is total and explicit: a name gives the one colour that bears
    /// it, and none exactly when no colour bears it.
    pub proof fn lemma_named_exact(name: Seq<char>)
        ensures
            match PokemonColor::named(name) {
                Some(found) => found.text() == name && forall|other: PokemonColor|
                    other.text() == name ==> other == found,
                None => forall|other: PokemonColor| other.text() != name,
            },
    {
        assert forall|a: PokemonColor, b: PokemonColor| a.text() == b.text() implies a == b by {
            PokemonColor::lemma_text_injective(a, b);
        }
        match PokemonColor::named(name) {
            Some(found) => {
                assert(found.text() == name);
            },
            None => {
                assert forall|other: PokemonColor| other.text() != name by {
                    match other {
                        PokemonColor::Black => {},
                        PokemonColor::Blue => {},
                        PokemonColor::Brown => {},
                        PokemonColor::Gray => {},
                        PokemonColor::Green => {},
                        PokemonColor::Pink => {},
                        PokemonColor::Purple => {},
                        PokemonColor::Red => {},
                        PokemonColor::White => {},
                        PokemonColor::Yellow => {},
                    }
                }
            },
        }
    }

    /// The canonical name of a colour parses back to it.
    pub proof fn lemma_round_trip(value: PokemonColor)
        ensures
            PokemonColor::named(value.text()) == Some(value),
    {
        PokemonColor::lemma_named_exact(value.text());
    }

    pub fn from_str(s: &str) -> (r: Option<PokemonColor>)
        ensures
            r == PokemonColor::named(s@),
    {
        if same_text(s, "black") {
            Some(PokemonColor::Black)
        } else if same_text(s, "blue") {
            Some(PokemonColor::Blue)
        } else if same_text(s, "brown") {
            Some(PokemonColor::Brown)
        } else if same_text(s, "gray") {
            Some(PokemonColor::Gray)
        } else if same_text(s, "green") {
            Some(PokemonColor::Green)
        } else if same_text(s, "pink") {
            Some(PokemonColor::Pink)
        } else if same_text(s, "purple") {
            Some(PokemonColor::Purple)
        } else if same_text(s, "red") {
            Some(PokemonColor::Red)
        } else if same_text(s, "white") {
            Some(PokemonColor::White)
        } else if same_text(s, "yellow") {
            Some(PokemonColor::Yellow)
        } else {
            None
        }
    }

    pub fn as_str(&self) -> (r: &'static str)
        ensures
            r@ == self.text(),
    {
        match self {
            PokemonColor::Black => "black",
            PokemonColor::Blue => "blue",
            PokemonColor::Brown => "brown",
            PokemonColor::Gray => "gray",
            PokemonColor::Green => "green",
            PokemonColor::Pink => "pink",
            PokemonColor::Purple => "purple",
            PokemonColor::Red => "red",
            PokemonColor::White => "white",
            PokemonColor::Yellow => "yellow",
        }
    }
}

impl Vocabulary for PokemonColor {
    open spec fn named_value(name: Seq<char>) -> Option<PokemonColor> {
        PokemonColor::named(name)
    }

    fn from_name(name: &str) -> (r: Option<PokemonColor>) {
        PokemonColor::from_str(name)
    }
}

/// The description of a species as one version shows it.
#[derive(Debug, PartialEq, Eq)]
pub struct FlavorTextEntry {
    pub flavor_text: String,
    pub version: Version,
}

/// The mathematical value of a [`FlavorTextEntry`].
pub ghost struct FlavorTextEntryModel {
    pub flavor_text: Seq<char>,
    pub version: Seq<char>,
}

impl View for FlavorTextEntry {
    type V = FlavorTextEntryModel;

    open spec fn view(&self) -> FlavorTextEntryModel {
        FlavorTextEntryModel {
            flavor_text: self.flavor_text@,
            version: self.version@,
        }
    }
}

impl Clone for FlavorTextEntry {
    fn clone(&self) -> (r: Self)
        ensures
            r@ == self@,
    {
        FlavorTextEntry {
            flavor_text: self.flavor_text.clone(),
            version: self.version.clone(),
        }
    }
}

impl FromJson for FlavorTextEntry {
    open spec fn decoded(json: JsonModel, field: Seq<char>) -> Decoded<FlavorTextEntryModel> {
        let flavor_text = json.text_field("flavor_text"@);
        let version = json.record_field::<Version>("version"@);
        if json.as_object(field) is Err {
            Err(json.as_object(field)->Err_0)
        } else if flavor_text is Err {
            Err(flavor_text->Err_0)
        } else if version is Err {
            Err(version->Err_0)
        } else {
            Ok(
                FlavorTextEntryModel {
                    flavor_text: flavor_text->Ok_0,
                    version: version->Ok_0,
                },
            )
        }
    }

    fn from_json(json: &JsonValue, field: &'static str) -> (r: Result<Self, ParseError>) {
        let object = json.as_object(field)?;
        let flavor_text = object.text_field("flavor_text")?;
        let version = object.record_field::<Version>("version")?;
        Ok(FlavorTextEntry { flavor_text, version })
    }
}

/// One of the names of a species.
#[derive(Debug, PartialEq, Eq)]
pub struct Name {
    pub name: String,
}

impl View for Name {
    type V = Seq<char>;

    open spec fn view(&self) -> Seq<char> {
        self.name@
    }
}

impl Clone for Name {
    fn clone(&self) -> (r: Self)
        ensures
            r@ == self@,
    {
        Name {
            name: self.name.clone(),
        }
    }
}

impl FromJson for Name {
    open spec fn decoded(json: JsonModel, field: Seq<char>) -> Decoded<Seq<char>> {
        decoded_plain_name(json, field)
    }

    fn from_json(json: &JsonValue, field: &'static str) -> (r: Result<Self, ParseError>) {
        let object = json.as_object(field)?;
        let name = object.text_field("name")?;
        Ok(Name { name })
    }
}

/// A species.
#[derive(Debug, PartialEq, Eq)]
pub struct PokemonSpecies {
    pub id: u32,
    pub name: String,
    pub color: PokemonColor,
    pub egg_groups: Vec<String>,
    pub flavor_text_entries: Vec<FlavorTextEntry>,
    pub names: Vec<Name>,
}

/// The mathematical value of a [`PokemonSpecies`].
pub ghost struct PokemonSpeciesModel {
    pub id: u32,
    pub name: Seq<char>,
    pub color: PokemonColor,
    pub egg_groups: Seq<Seq<char>>,
    pub flavor_text_entries: Seq<FlavorTextEntryModel>,
    pub names: Seq<Seq<char>>,
}

impl View for PokemonSpecies {
    type V = PokemonSpeciesModel;

    open spec fn view(&self) -> PokemonSpeciesModel {
        PokemonSpeciesModel {
            id: self.id,
            name: self.name@,
            color: self.color,
            egg_groups: views(self.egg_groups@),
            flavor_text_entries: views(self.flavor_text_entries@),
            names: views(self.names@),
        }
    }
}

impl Clone for PokemonSpecies {
    fn clone(&self) -> (r: Self)
        ensures
            r@ == self@,
    {
        PokemonSpecies {
            id: self.id,
            name: self.name.clone(),
            color: self.color,
            egg_groups: clone_all(&self.egg_groups),
            flavor_text_entries: clone_all(&self.flavor_text_entries),
            names: clone_all(&self.names),
        }
    }
}

impl FromJson for PokemonSpecies {
    open spec fn decoded(json: JsonModel, field: Seq<char>) -> Decoded<PokemonSpeciesModel> {
        let id = json.u32_field("id"@);
        let name = json.text_field("name"@);
        let color = json.vocabulary_field::<PokemonColor>("color"@);
        let egg_groups = json.reference_names_field("egg_groups"@);
        let flavor_text_entries = json.records_field::<FlavorTextEntry>("flavor_text_entries"@);
        let names = json.records_field::<Name>("names"@);
        if json.as_object(field) is Err {
            Err(json.as_object(field)->Err_0)
        } else if id is Err {
            Err(id->Err_0)
        } else if name is Err {
            Err(name->Err_0)
        } else if color is Err {
            Err(color->Err_0)
        } else if egg_groups is Err {
            Err(egg_groups->Err_0)
        } else if flavor_text_entries is Err {
            Err(flavor_text_entries->Err_0)
        } else if names is Err {
            Err(names->Err_0)
        } else {
            Ok(
                PokemonSpeciesModel {
                    id: id->Ok_0,
                    name: name->Ok_0,
                    color: color->Ok_0,
                    egg_groups: egg_groups->Ok_0,
                    flavor_text_entries: flavor_text_entries->Ok_0,
                    names: names->Ok_0,
                },
            )
        }
    }

    fn from_json(json: &JsonValue, field: &'static str) -> (r: Result<Self, ParseError>) {
        let object = json.as_object(field)?;
        let id = object.u32_field("id")?;
        let name = object.text_field("name")?;
        let color = object.vocabulary_field::<PokemonColor>("color")?;
        let egg_groups = object.reference_names_field("egg_groups")?;
        let flavor_text_entries = object.records_field::<FlavorTextEntry>("flavor_text_entries")?;
        let names = object.records_field::<Name>("names")?;
        Ok(PokemonSpecies { id, name, color, egg_groups, flavor_text_entries, names })
    }
}

impl Entry for FlavorTextEntry {
    /// A description is kept when its version is allowed.
    open spec fn kept(entry: FlavorTextEntryModel, config: FilterModel) -> bool {
        config.versions.contains(entry.version)
    }

    fn is_kept(&self, config: &FilterConfig) -> (r: bool) {
        config.allows_version(self.version.name.as_str())
    }
}

impl Trim for PokemonSpecies {
    /// Of a species the descriptions are trimmed, by version; its names stay
    /// as they are.
    open spec fn trimmed(record: PokemonSpeciesModel, config: FilterModel) -> PokemonSpeciesModel {
        PokemonSpeciesModel {
            flavor_text_entries: retained::<FlavorTextEntry>(record.flavor_text_entries, config),
            ..record
        }
    }

    fn trim(self, config: &FilterConfig) -> (r: Self) {
        PokemonSpecies {
            id: self.id,
            name: self.name,
            color: self.color,
            egg_groups: self.egg_groups,
            flavor_text_entries: retain(self.flavor_text_entries, config),
            names: self.names,
        }
    }

    proof fn lemma_trim_idempotent(record: PokemonSpeciesModel, config: FilterModel) {
        lemma_filter_idempotent(
            record.flavor_text_entries,
            |entry: FlavorTextEntryModel| FlavorTextEntry::kept(entry, config),
        );
    }
}

} // verus!
