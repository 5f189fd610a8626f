use vstd::prelude::*;
use crate::decode::Decoded;
use crate::decode::FromJson;
use crate::decode::Vocabulary;
use crate::error::outcome;
use crate::error::ParseError;
use crate::error::ParseErrorModel;
use crate::filter::Entry;
use crate::filter::FilterConfig;
use crate::filter::FilterModel;
use crate::json::JsonModel;
use crate::json::JsonValue;
use crate::text::optional_text;
use crate::text::views;

verus! {

/// A reference to another resource as the upstream format writes it: the name
/// of the resource and, mostly, its address.
#[derive(Debug, PartialEq, Eq)]
pub struct NamedAPIResource {
    pub name: String,
    pub url: Option<String>,
}

/// The mathematical value of a [`NamedAPIResource`].
pub ghost struct NamedAPIResourceModel {
    pub name: Seq<char>,
    pub url: Option<Seq<char>>,
}

impl View for NamedAPIResource {
    type V = NamedAPIResourceModel;

    open spec fn view(&self) -> NamedAPIResourceModel {
        NamedAPIResourceModel { name: self.name@, url: optional_text(self.url) }
    }
}

impl Clone for NamedAPIResource {
    fn clone(&self) -> (r: Self)
        ensures
            r@ == self@,
    {
        NamedAPIResource {
            name: self.name.clone(),
            url: match &self.url {
                Some(u) => Some(u.clone()),
                None => None,
            },
        }
    }
}

impl NamedAPIResource {
    /// Collapses the reference to the name it refers to; the address is
    /// dropped.
    pub fn into_name(self) -> (name: String)
        ensures
            name@ == self@.name,
    {
        self.name
    }
}

impl FromJson for NamedAPIResource {
    /// A reference is an object with a text `name`; its `url` may be absent or
    /// `null`, and is a text otherwise.
    open spec fn decoded(json: JsonModel, field: Seq<char>) -> Decoded<NamedAPIResourceModel> {
        let name = json.text_field("name"@);
        let url = json.optional_text_field("url"@);
        if json.as_object(field) is Err {
            Err(json.as_object(field)->Err_0)
        } else if name is Err {
            Err(name->Err_0)
        } else if url is Err {
            Err(url->Err_0)
        } else {
            Ok(NamedAPIResourceModel { name: name->Ok_0, url: url->Ok_0 })
        }
    }

    fn from_json(json: &JsonValue, field: &'static str) -> (r: Result<Self, ParseError>) {
        let object = json.as_object(field)?;
        let name = object.text_field("name")?;
        let url = object.optional_text_field("url")?;
        Ok(NamedAPIResource { name, url })
    }
}

/// The name that the reference in `json` refers to.
pub open spec fn reference_name(json: JsonModel, field: Seq<char>) -> Decoded<Seq<char>> {
    match NamedAPIResource::decoded(json, field) {
        Ok(reference) => Ok(reference.name),
        Err(e) => Err(e),
    }
}

/// Decodes a reference and collapses it to the name it refers to.
pub fn collapse_reference(json: &JsonValue, field: &'static str) -> (r: Result<String, ParseError>)
    ensures
        outcome(r) == reference_name(json@, field@),
{
    Ok(NamedAPIResource::from_json(json, field)?.into_name())
}

/// The JSON object that the upstream format writes for a reference.
pub open spec fn reference_json(name: Seq<char>, url: Seq<char>) -> JsonModel {
    JsonModel::Object(seq![("name"@, JsonModel::Text(name)), ("url"@, JsonModel::Text(url))])
}

/// Collapsing a reference recovers exactly the name that was written into it,
/// whatever its address and wherever it stands.
pub proof fn lemma_reference_collapse(name: Seq<char>, url: Seq<char>, field: Seq<char>)
    ensures
        reference_name(reference_json(name, url), field) == Ok::<Seq<char>, ParseErrorModel>(name),
{
    reveal_strlit("name");
    reveal_strlit("url");
    reveal_with_fuel(crate::json::first_member, 3);
    let members = seq![("name"@, JsonModel::Text(name)), ("url"@, JsonModel::Text(url))];
    assert("name"@.len() != "url"@.len());
    assert(members.skip(1)[0] == members[1]);
}

impl JsonModel {
    /// The name that the reference under `field` refers to.
    pub open spec fn reference_field(self, field: Seq<char>) -> Decoded<Seq<char>> {
        match self.required(field) {
            Ok(v) => reference_name(v, field),
            Err(e) => Err(e),
        }
    }

    /// The name that the reference under `field` refers to; the field must be
    /// mentioned and may be `null`.
    pub open spec fn nullable_reference_field(self, field: Seq<char>) -> Decoded<
        Option<Seq<char>>,
    > {
        match self.nullable(field) {
            Err(e) => Err(e),
            Ok(None) => Ok(None),
            Ok(Some(v)) => match reference_name(v, field) {
                Ok(name) => Ok(Some(name)),
                Err(e) => Err(e),
            },
        }
    }

    /// The names that the references of the array under `field` refer to.
    pub open spec fn reference_names_field(self, field: Seq<char>) -> Decoded<Seq<Seq<char>>> {
        match self.records_field::<NamedAPIResource>(field) {
            Ok(references) => Ok(Seq::new(references.len(), |i: int| references[i].name)),
            Err(e) => Err(e),
        }
    }

    /// The value of a closed vocabulary that the reference under `field`
    /// names. A name outside the vocabulary is a failure of its own.
    pub open spec fn vocabulary_field<E: Vocabulary>(self, field: Seq<char>) -> Decoded<E> {
        match self.reference_field(field) {
            Err(e) => Err(e),
            Ok(name) => match E::named_value(name) {
                Some(value) => Ok(value),
                None => Err(ParseErrorModel::Unknown { field, value: name }),
            },
        }
    }
}

/// The readers of references, executable.
impl JsonValue {
    pub fn reference_field(&self, field: &'static str) -> (r: Result<String, ParseError>)
        ensures
            outcome(r) == self@.reference_field(field@),
    {
        collapse_reference(self.required(field)?, field)
    }

    pub fn nullable_reference_field(&self, field: &'static str) -> (r: Result<
        Option<String>,
        ParseError,
    >)
        ensures
            match r {
                Ok(name) => self@.nullable_reference_field(field@) == Ok::<
                    Option<Seq<char>>,
                    ParseErrorModel,
                >(optional_text(name)),
                Err(e) => self@.nullable_reference_field(field@) == Err::<
                    Option<Seq<char>>,
                    ParseErrorModel,
                >(e@),
            },
    {
        match self.nullable(field)? {
            None => Ok(None),
            Some(v) => Ok(Some(collapse_reference(v, field)?)),
        }
    }

    pub fn reference_names_field(&self, field: &'static str) -> (r: Result<
        Vec<String>,
        ParseError,
    >)
        ensures
            match r {
                Ok(names) => self@.reference_names_field(field@) == Ok::<
                    Seq<Seq<char>>,
                    ParseErrorModel,
                >(views(names@)),
                Err(e) => self@.reference_names_field(field@) == Err::<
                    Seq<Seq<char>>,
                    ParseErrorModel,
                >(e@),
            },
    {
        let references = self.records_field::<NamedAPIResource>(field)?;
        let ghost all = views(references@);
        let mut names: Vec<String> = Vec::new();
        for reference in it: references
            invariant
                views(it.seq()) == all,
                names@.len() == it.index(),
                forall|k: int| 0 <= k < names@.len() ==> names@[k]@ == all[k].name,
        {
            assert(all[it.index() as int] == reference@);
            names.push(reference.into_name());
        }
        proof {
            assert(views(names@) =~= Seq::new(all.len(), |i: int| all[i].name));
        }
        Ok(names)
    }

    pub fn vocabulary_field<E: Vocabulary>(&self, field: &'static str) -> (r: Result<
        E,
        ParseError,
    >)
        ensures
            match r {
                Ok(value) => self@.vocabulary_field::<E>(field@) == Ok::<E, ParseErrorModel>(value),
                Err(e) => self@.vocabulary_field::<E>(field@) == Err::<E, ParseErrorModel>(e@),
            },
    {
        let name = self.reference_field(field)?;
        match E::from_name(name.as_str()) {
            Some(value) => Ok(value),
            None => Err(ParseError::Unknown { field, value: name }),
        }
    }
}

/// The code of a language, such as `en`.
#[derive(Debug, PartialEq, Eq)]
pub struct Language {
    pub code: String,
}

impl View for Language {
    type V = Seq<char>;

    open spec fn view(&self) -> Seq<char> {
        self.code@
    }
}

impl Clone for Language {
    fn clone(&self) -> (r: Self)
        ensures
            r@ == self@,
    {
        Language { code: self.code.clone() }
    }
}

impl Language {
    pub fn new(code: String) -> (r: Self)
        ensures
            r@ == code@,
    {
        Language { code }
    }

    pub fn japanese() -> (r: Self)
        ensures
            r@ == "ja"@,
    {
        Language { code: "ja".to_owned() }
    }

    pub fn english() -> (r: Self)
        ensures
            r@ == "en"@,
    {
        Language { code: "en".to_owned() }
    }
}

impl From<NamedAPIResource> for Language {
    fn from(resource: NamedAPIResource) -> (r: Self) {
        Language { code: resource.name }
    }
}

impl vstd::std_specs::convert::FromSpecImpl<NamedAPIResource> for Language {
    /// Collapsing a reference keeps its name and drops its address.
    open spec fn obeys_from_spec() -> bool {
        true
    }

    open spec fn from_spec(resource: NamedAPIResource) -> Self {
        Language { code: resource.name }
    }
}

impl FromJson for Language {
    /// Decoded from a reference, of which the name is kept.
    open spec fn decoded(json: JsonModel, field: Seq<char>) -> Decoded<Seq<char>> {
        reference_name(json, field)
    }

    fn from_json(json: &JsonValue, field: &'static str) -> (r: Result<Self, ParseError>) {
        Ok(Language::new(collapse_reference(json, field)?))
    }
}

/// The name of an elemental type.
#[derive(Debug, PartialEq, Eq)]
pub struct PokemonTypeName {
    pub name: String,
}

impl View for PokemonTypeName {
    type V = Seq<char>;

    open spec fn view(&self) -> Seq<char> {
        self.name@
    }
}

impl Clone for PokemonTypeName {
    fn clone(&self) -> (r: Self)
        ensures
            r@ == self@,
    {
        PokemonTypeName { name: self.name.clone() }
    }
}

impl PokemonTypeName {
    pub fn new(name: String) -> (r: Self)
        ensures
            r@ == name@,
    {
        PokemonTypeName { name }
    }
}

impl From<NamedAPIResource> for PokemonTypeName {
    fn from(resource: NamedAPIResource) -> (r: Self) {
        PokemonTypeName { name: resource.name }
    }
}

impl vstd::std_specs::convert::FromSpecImpl<NamedAPIResource> for PokemonTypeName {
    /// Collapsing a reference keeps its name and drops its address.
    open spec fn obeys_from_spec() -> bool {
        true
    }

    open spec fn from_spec(resource: NamedAPIResource) -> Self {
        PokemonTypeName { name: resource.name }
    }
}

impl FromJson for PokemonTypeName {
    /// Decoded from a reference, of which the name is kept.
    open spec fn decoded(json: JsonModel, field: Seq<char>) -> Decoded<Seq<char>> {
        reference_name(json, field)
    }

    fn from_json(json: &JsonValue, field: &'static str) -> (r: Result<Self, ParseError>) {
        Ok(PokemonTypeName::new(collapse_reference(json, field)?))
    }
}

/// The name of a game version.
#[derive(Debug, PartialEq, Eq)]
pub struct Version {
    pub name: String,
}

impl View for Version {
    type V = Seq<char>;

    open spec fn view(&self) -> Seq<char> {
        self.name@
    }
}

impl Clone for Version {
    fn clone(&self) -> (r: Self)
        ensures
            r@ == self@,
    {
        Version { name: self.name.clone() }
    }
}

impl Version {
    pub fn new(name: String) -> (r: Self)
        ensures
            r@ == name@,
    {
        Version { name }
    }

    pub fn scarlet() -> (r: Self)
        ensures
            r@ == "scarlet"@,
    {
        Version { name: "scarlet".to_owned() }
    }

    pub fn violet() -> (r: Self)
        ensures
            r@ == "violet"@,
    {
        Version { name: "violet".to_owned() }
    }
}

impl From<NamedAPIResource> for Version {
    fn from(resource: NamedAPIResource) -> (r: Self) {
        Version { name: resource.name }
    }
}

impl vstd::std_specs::convert::FromSpecImpl<NamedAPIResource> for Version {
    /// Collapsing a reference keeps its name and drops its address.
    open spec fn obeys_from_spec() -> bool {
        true
    }

    open spec fn from_spec(resource: NamedAPIResource) -> Self {
        Version { name: resource.name }
    }
}

impl FromJson for Version {
    /// Decoded from a reference, of which the name is kept.
    open spec fn decoded(json: JsonModel, field: Seq<char>) -> Decoded<Seq<char>> {
        reference_name(json, field)
    }

    fn from_json(json: &JsonValue, field: &'static str) -> (r: Result<Self, ParseError>) {
        Ok(Version::new(collapse_reference(json, field)?))
    }
}

/// The name of a group of game versions that share their data.
#[derive(Debug, PartialEq, Eq)]
pub struct VersionGroup {
    pub name: String,
}

impl View for VersionGroup {
    type V = Seq<char>;

    open spec fn view(&self) -> Seq<char> {
        self.name@
    }
}

impl Clone for VersionGroup {
    fn clone(&self) -> (r: Self)
        ensures
            r@ == self@,
    {
        VersionGroup { name: self.name.clone() }
    }
}

impl VersionGroup {
    pub fn new(name: String) -> (r: Self)
        ensures
            r@ == name@,
    {
        VersionGroup { name }
    }

    pub fn scarlet_violet() -> (r: Self)
        ensures
            r@ == "scarlet-violet"@,
    {
        VersionGroup { name: "scarlet-violet".to_owned() }
    }
}

impl From<NamedAPIResource> for VersionGroup {
    fn from(resource: NamedAPIResource) -> (r: Self) {
        VersionGroup { name: resource.name }
    }
}

impl vstd::std_specs::convert::FromSpecImpl<NamedAPIResource> for VersionGroup {
    /// Collapsing a reference keeps its name and drops its address.
    open spec fn obeys_from_spec() -> bool {
        true
    }

    open spec fn from_spec(resource: NamedAPIResource) -> Self {
        VersionGroup { name: resource.name }
    }
}

impl FromJson for VersionGroup {
    /// Decoded from a reference, of which the name is kept.
    open spec fn decoded(json: JsonModel, field: Seq<char>) -> Decoded<Seq<char>> {
        reference_name(json, field)
    }

    fn from_json(json: &JsonValue, field: &'static str) -> (r: Result<Self, ParseError>) {
        Ok(VersionGroup::new(collapse_reference(json, field)?))
    }
}

/// A descriptive text in one language, as one group of versions shows it.
#[derive(Debug, PartialEq, Eq)]
pub struct FlavorText {
    pub flavor_text: String,
    pub language: Language,
    pub version_group: VersionGroup,
}

/// The mathematical value of a flavor text.
pub ghost struct FlavorTextModel {
    pub flavor_text: Seq<char>,
    pub language: Seq<char>,
    pub version_group: Seq<char>,
}

impl View for FlavorText {
    type V = FlavorTextModel;

    open spec fn view(&self) -> FlavorTextModel {
        FlavorTextModel {
            flavor_text: self.flavor_text@,
            language: self.language@,
            version_group: self.version_group@,
        }
    }
}

impl Clone for FlavorText {
    fn clone(&self) -> (r: Self)
        ensures
            r@ == self@,
    {
        FlavorText {
            flavor_text: self.flavor_text.clone(),
            language: self.language.clone(),
            version_group: self.version_group.clone(),
        }
    }
}

impl FlavorText {
    pub fn new(flavor_text: String, language: Language, version_group: VersionGroup) -> (r: Self)
        ensures
            r@ == (FlavorTextModel {
                flavor_text: flavor_text@,
                language: language@,
                version_group: version_group@,
            }),
    {
        FlavorText { flavor_text, language, version_group }
    }
}

impl Entry for FlavorText {
    /// A flavor text is kept when its language and its group of versions are
    /// both allowed.
    open spec fn kept(entry: FlavorTextModel, config: FilterModel) -> bool {
        config.languages.contains(entry.language) && config.versions.contains(entry.version_group)
    }

    fn is_kept(&self, config: &FilterConfig) -> (r: bool) {
        config.allows_language(self.language.code.as_str()) && config.allows_version(
            self.version_group.name.as_str(),
        )
    }
}

/// The flavor text that `json` holds, its text standing under `text`.
pub open spec fn decoded_flavor_text(json: JsonModel, field: Seq<char>, text: Seq<char>) -> Decoded<
    FlavorTextModel,
> {
    let flavor_text = json.text_field(text);
    let language = json.record_field::<Language>("language"@);
    let version_group = json.record_field::<VersionGroup>("version_group"@);
    if json.as_object(field) is Err {
        Err(json.as_object(field)->Err_0)
    } else if flavor_text is Err {
        Err(flavor_text->Err_0)
    } else if language is Err {
        Err(language->Err_0)
    } else if version_group is Err {
        Err(version_group->Err_0)
    } else {
        Ok(
            FlavorTextModel {
                flavor_text: flavor_text->Ok_0,
                language: language->Ok_0,
                version_group: version_group->Ok_0,
            },
        )
    }
}

impl FromJson for FlavorText {
    open spec fn decoded(json: JsonModel, field: Seq<char>) -> Decoded<FlavorTextModel> {
        decoded_flavor_text(json, field, "flavor_text"@)
    }

    fn from_json(json: &JsonValue, field: &'static str) -> (r: Result<Self, ParseError>) {
        let object = json.as_object(field)?;
        let flavor_text = object.text_field("flavor_text")?;
        let language = object.record_field::<Language>("language")?;
        let version_group = object.record_field::<VersionGroup>("version_group")?;
        Ok(FlavorText { flavor_text, language, version_group })
    }
}

/// An effect text in one language.
pub ghost struct LocalizedEffectModel {
    pub effect: Seq<char>,
    pub short_effect: Seq<char>,
    pub language: Seq<char>,
}

/// The effect text that `json` holds.
pub open spec fn decoded_localized_effect(json: JsonModel, field: Seq<char>) -> Decoded<
    LocalizedEffectModel,
> {
    let effect = json.text_field("effect"@);
    let short_effect = json.text_field("short_effect"@);
    let language = json.record_field::<Language>("language"@);
    if json.as_object(field) is Err {
        Err(json.as_object(field)->Err_0)
    } else if effect is Err {
        Err(effect->Err_0)
    } else if short_effect is Err {
        Err(short_effect->Err_0)
    } else if language is Err {
        Err(language->Err_0)
    } else {
        Ok(
            LocalizedEffectModel {
                effect: effect->Ok_0,
                short_effect: short_effect->Ok_0,
                language: language->Ok_0,
            },
        )
    }
}

/// A name in one language.
pub ghost struct LocalizedNameModel {
    pub name: Seq<char>,
    pub language: Seq<char>,
}

/// The localized name that `json` holds.
pub open spec fn decoded_localized_name(json: JsonModel, field: Seq<char>) -> Decoded<
    LocalizedNameModel,
> {
    let name = json.text_field("name"@);
    let language = json.record_field::<Language>("language"@);
    if json.as_object(field) is Err {
        Err(json.as_object(field)->Err_0)
    } else if name is Err {
        Err(name->Err_0)
    } else if language is Err {
        Err(language->Err_0)
    } else {
        Ok(LocalizedNameModel { name: name->Ok_0, language: language->Ok_0 })
    }
}

/// The name that the object `json` holds under `name`.
pub open spec fn decoded_plain_name(json: JsonModel, field: Seq<char>) -> Decoded<Seq<char>> {
    let name = json.text_field("name"@);
    if json.as_object(field) is Err {
        Err(json.as_object(field)->Err_0)
    } else {
        name
    }
}

} // verus!
