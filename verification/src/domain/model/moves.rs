use vstd::prelude::*;
use crate::decode::Decoded;
use crate::decode::FromJson;
use crate::decode::Vocabulary;
use crate::domain::model::common::decoded_plain_name;
use crate::domain::model::common::FlavorText;
use crate::domain::model::common::FlavorTextModel;
use crate::domain::model::common::PokemonTypeName;
use crate::domain::model::stats::StatName;
use crate::error::ParseError;
use crate::filter::Entry;
use crate::filter::FilterConfig;
use crate::filter::FilterModel;
use crate::filter::lemma_filter_idempotent;
use crate::filter::retain;
use crate::filter::retained;
use crate::filter::Trim;
use crate::json::JsonModel;
use crate::json::JsonValue;
use crate::text::clone_all;
use crate::text::same_text;
use crate::text::views;

verus! {

/// How a move deals its damage, if it deals any.
#[derive(Debug, Clone, Copy, PartialEq, Eq, Structural)]
pub enum DamageClass {
    Physical,
    Special,
    Status,
}

impl View for DamageClass {
    type V = DamageClass;

    open spec fn view(&self) -> DamageClass {
        *self
    }
}

impl DamageClass {
    /// The canonical name of a damage class.
    pub open spec fn text(self) -> Seq<char> {
        match self {
            DamageClass::Physical => "physical"@,
            DamageClass::Special => "special"@,
            DamageClass::Status => "status"@,
        }
    }

    /// The damage class that a name stands for, if it stands for one.
    pub open spec fn named(name: Seq<char>) -> Option<DamageClass> {
        if name == "physical"@ {
            Some(DamageClass::Physical)
        } else if name == "special"@ {
            Some(DamageClass::Special)
        } else if name == "status"@ {
            Some(DamageClass::Status)
        } else {
            None
        }
    }

    /// No two damage classes share a name.
    pub proof fn lemma_text_injective(a: DamageClass, b: DamageClass)
        requires
            a.text() == b.text(),
        ensures
            a == b,
    {
        reveal_strlit("physical");
        reveal_strlit("special");
        reveal_strlit("status");
        assert("physical"@.len() == 8);
        assert("special"@.len() == 7);
        assert("status"@.len() == 6);
    }

    /// Parsing is total and explicit: a name gives the one damage class that
    /// bears it, and none exactly when no damage class bears it.
    pub proof fn lemma_named_exact(name: Seq<char>)
        ensures
            match DamageClass::named(name) {
                Some(found) => found.text() == name && forall|other: DamageClass|
                    other.text() == name ==> other == found,
                None => forall|other: DamageClass| other.text() != name,
            },
    {
        assert forall|a: DamageClass, b: DamageClass| a.text() == b.text() implies a == b by {
            DamageClass::lemma_text_injective(a, b);
        }
        match DamageClass::named(name) {
            Some(found) => {
                assert(found.text() == name);
            },
            None => {
                assert forall|other: DamageClass| other.text() != name by {
                    match other {
                        DamageClass::Physical => {},
                        DamageClass::Special => {},
                        DamageClass::Status => {},
                    }
                }
            },
        }
    }

    /// The canonical name of a damage class parses back to it.
    pub proof fn lemma_round_trip(value: DamageClass)
        ensures
            DamageClass::named(value.text()) == Some(value),
    {
        DamageClass::lemma_named_exact(value.text());
    }

    pub fn from_str(s: &str) -> (r: Option<DamageClass>)
        ensures
            r == DamageClass::named(s@),
    {
        if same_text(s, "physical") {
            Some(DamageClass::Physical)
        } else if same_text(s, "special") {
            Some(DamageClass::Special)
        } else if same_text(s, "status") {
            Some(DamageClass::Status)
        } else {
            None
        }
    }

    pub fn as_str(&self) -> (r: &'static str)
        ensures
            r@ == self.text(),
    {
        match self {
            DamageClass::Physical => "physical",
            DamageClass::Special => "special",
            DamageClass::Status => "status",
        }
    }

    pub fn is_physical(&self) -> (r: bool)
        ensures
            r == (*self == DamageClass::Physical),
    {
        matches!(self, DamageClass::Physical)
    }

    pub fn is_special(&self) -> (r: bool)
        ensures
            r == (*self == DamageClass::Special),
    {
        matches!(self, DamageClass::Special)
    }

    pub fn is_status(&self) -> (r: bool)
        ensures
            r == (*self == DamageClass::Status),
    {
        matches!(self, DamageClass::Status)
    }
}

impl Vocabulary for DamageClass {
    open spec fn named_value(name: Seq<char>) -> Option<DamageClass> {
        DamageClass::named(name)
    }

    fn from_name(name: &str) -> (r: Option<DamageClass>) {
        DamageClass::from_str(name)
    }
}

/// Whom or what a move is aimed at.
#[derive(Debug, Clone, Copy, PartialEq, Eq, Structural)]
pub enum MoveTarget {
    SelectedPokemon,
    AllOpponents,
    UserOrAlly,
    AllOtherPokemon,
    User,
    RandomOpponent,
    AllPokemon,
    AllAllies,
    UserAndAllies,
    AllFoes,
    SpecificMove,
    EntireBattlefield,
    OpponentsField,
    UserField,
    AllOpponentsField,
    AllPokemonMaybeOthers,
}

impl View for MoveTarget {
    type V = MoveTarget;

    open spec fn view(&self) -> MoveTarget {
        *self
    }
}

impl MoveTarget {
    /// The canonical name of a target.
    pub open spec fn text(self) -> Seq<char> {
        match self {
            MoveTarget::SelectedPokemon => "selected-pokemon"@,
            MoveTarget::AllOpponents => "all-opponents"@,
            MoveTarget::UserOrAlly => "user-or-ally"@,
            MoveTarget::AllOtherPokemon => "all-other-pokemon"@,
            MoveTarget::User => "user"@,
            MoveTarget::RandomOpponent => "random-opponent"@,
            MoveTarget::AllPokemon => "all-pokemon"@,
            MoveTarget::AllAllies => "all-allies"@,
            MoveTarget::UserAndAllies => "user-and-allies"@,
            MoveTarget::AllFoes => "all-foes"@,
            MoveTarget::SpecificMove => "specific-move"@,
            MoveTarget::EntireBattlefield => "entire-battlefield"@,
            MoveTarget::OpponentsField => "opponents-field"@,
            MoveTarget::UserField => "user-field"@,
            MoveTarget::AllOpponentsField => "all-opponents-field"@,
            MoveTarget::AllPokemonMaybeOthers => "all-pokemon-maybe-others"@,
        }
    }

    /// The target that a name stands for, if it stands for one.
    pub open spec fn named(name: Seq<char>) -> Option<MoveTarget> {
        if name == "selected-pokemon"@ {
            Some(MoveTarget::SelectedPokemon)
        } else if name == "all-opponents"@ {
            Some(MoveTarget::AllOpponents)
        } else if name == "user-or-ally"@ {
            Some(MoveTarget::UserOrAlly)
        } else if name == "all-other-pokemon"@ {
            Some(MoveTarget::AllOtherPokemon)
        } else if name == "user"@ {
            Some(MoveTarget::User)
        } else if name == "random-opponent"@ {
            Some(MoveTarget::RandomOpponent)
        } else if name == "all-pokemon"@ {
            Some(MoveTarget::AllPokemon)
        } else if name == "all-allies"@ {
            Some(MoveTarget::AllAllies)
        } else if name == "user-and-allies"@ {
            Some(MoveTarget::UserAndAllies)
        } else if name == "all-foes"@ {
            Some(MoveTarget::AllFoes)
        } else if name == "specific-move"@ {
            Some(MoveTarget::SpecificMove)
        } else if name == "entire-battlefield"@ {
            Some(MoveTarget::EntireBattlefield)
        } else if name == "opponents-field"@ {
            Some(MoveTarget::OpponentsField)
        } else if name == "user-field"@ {
            Some(MoveTarget::UserField)
        } else if name == "all-opponents-field"@ {
            Some(MoveTarget::AllOpponentsField)
        } else if name == "all-pokemon-maybe-others"@ {
            Some(MoveTarget::AllPokemonMaybeOthers)
        } else {
            None
        }
    }

    /// No two targets share a name.
    pub proof fn lemma_text_injective(a: MoveTarget, b: MoveTarget)
        requires
            a.text() == b.text(),
        ensures
            a == b,
    {
        reveal_strlit("selected-pokemon");
        reveal_strlit("all-opponents");
        reveal_strlit("user-or-ally");
        reveal_strlit("all-other-pokemon");
        reveal_strlit("user");
        reveal_strlit("random-opponent");
        reveal_strlit("all-pokemon");
        reveal_strlit("all-allies");
        reveal_strlit("user-and-allies");
        reveal_strlit("all-foes");
        reveal_strlit("specific-move");
        reveal_strlit("entire-battlefield");
        reveal_strlit("opponents-field");
        reveal_strlit("user-field");
        reveal_strlit("all-opponents-field");
        reveal_strlit("all-pokemon-maybe-others");
        assert("selected-pokemon"@.len() == 16);
        assert("all-opponents"@.len() == 13);
        assert("all-opponents"@[0] == 'a');
        assert("user-or-ally"@.len() == 12);
        assert("all-other-pokemon"@.len() == 17);
        assert("user"@.len() == 4);
        assert("random-opponent"@.len() == 15);
        assert("random-opponent"@[0] == 'r');
        assert("all-pokemon"@.len() == 11);
        assert("all-allies"@.len() == 10);
        assert("all-allies"@[0] == 'a');
        assert("user-and-allies"@.len() == 15);
        assert("user-and-allies"@[0] == 'u');
        assert("all-foes"@.len() == 8);
        assert("specific-move"@.len() == 13);
        assert("specific-move"@[0] == 's');
        assert("entire-battlefield"@.len() == 18);
        assert("opponents-field"@.len() == 15);
        assert("opponents-field"@[0] == 'o');
        assert("user-field"@.len() == 10);
        assert("user-field"@[0] == 'u');
        assert("all-opponents-field"@.len() == 19);
        assert("all-pokemon-maybe-others"@.len() == 24);
    }

    /// Parsing is total and explicit: a name gives the one target that bears
    /// it, and none exactly when no target bears it.
    pub proof fn lemma_named_exact(name: Seq<char>)
        ensures
            match MoveTarget::named(name) {
                Some(found) => found.text() == name && forall|other: MoveTarget|
                    other.text() == name ==> other == found,
                None => forall|other: MoveTarget| other.text() != name,
            },
    {
        assert forall|a: MoveTarget, b: MoveTarget| a.text() == b.text() implies a == b by {
            MoveTarget::lemma_text_injective(a, b);
        }
        match MoveTarget::named(name) {
            Some(found) => {
                assert(found.text() == name);
            },
            None => {
                assert forall|other: MoveTarget| other.text() != name by {
                    match other {
                        MoveTarget::SelectedPokemon => {},
                        MoveTarget::AllOpponents => {},
                        MoveTarget::UserOrAlly => {},
                        MoveTarget::AllOtherPokemon => {},
                        MoveTarget::User => {},
                        MoveTarget::RandomOpponent => {},
                        MoveTarget::AllPokemon => {},
                        MoveTarget::AllAllies => {},
                        MoveTarget::UserAndAllies => {},
                        MoveTarget::AllFoes => {},
                        MoveTarget::SpecificMove => {},
                        MoveTarget::EntireBattlefield => {},
                        MoveTarget::OpponentsField => {},
                        MoveTarget::UserField => {},
                        MoveTarget::AllOpponentsField => {},
                        MoveTarget::AllPokemonMaybeOthers => {},
                    }
                }
            },
        }
    }

    /// The canonical name of a target parses back to it.
    pub proof fn lemma_round_trip(value: MoveTarget)
        ensures
            MoveTarget::named(value.text()) == Some(value),
    {
        MoveTarget::lemma_named_exact(value.text());
    }

    pub fn from_str(s: &str) -> (r: Option<MoveTarget>)
        ensures
            r == MoveTarget::named(s@),
    {
        if same_text(s, "selected-pokemon") {
            Some(MoveTarget::SelectedPokemon)
        } else if same_text(s, "all-opponents") {
            Some(MoveTarget::AllOpponents)
        } else if same_text(s, "user-or-ally") {
            Some(MoveTarget::UserOrAlly)
        } else if same_text(s, "all-other-pokemon") {
            Some(MoveTarget::AllOtherPokemon)
        } else if same_text(s, "user") {
            Some(MoveTarget::User)
        } else if same_text(s, "random-opponent") {
            Some(MoveTarget::RandomOpponent)
        } else if same_text(s, "all-pokemon") {
            Some(MoveTarget::AllPokemon)
        } else if same_text(s, "all-allies") {
            Some(MoveTarget::AllAllies)
        } else if same_text(s, "user-and-allies") {
            Some(MoveTarget::UserAndAllies)
        } else if same_text(s, "all-foes") {
            Some(MoveTarget::AllFoes)
        } else if same_text(s, "specific-move") {
            Some(MoveTarget::SpecificMove)
        } else if same_text(s, "entire-battlefield") {
            Some(MoveTarget::EntireBattlefield)
        } else if same_text(s, "opponents-field") {
            Some(MoveTarget::OpponentsField)
        } else if same_text(s, "user-field") {
            Some(MoveTarget::UserField)
        } else if same_text(s, "all-opponents-field") {
            Some(MoveTarget::AllOpponentsField)
        } else if same_text(s, "all-pokemon-maybe-others") {
            Some(MoveTarget::AllPokemonMaybeOthers)
        } else {
            None
        }
    }

    pub fn as_str(&self) -> (r: &'static str)
        ensures
            r@ == self.text(),
    {
        match self {
            MoveTarget::SelectedPokemon => "selected-pokemon",
            MoveTarget::AllOpponents => "all-opponents",
            MoveTarget::UserOrAlly => "user-or-ally",
            MoveTarget::AllOtherPokemon => "all-other-pokemon",
            MoveTarget::User => "user",
            MoveTarget::RandomOpponent => "random-opponent",
            MoveTarget::AllPokemon => "all-pokemon",
            MoveTarget::AllAllies => "all-allies",
            MoveTarget::UserAndAllies => "user-and-allies",
            MoveTarget::AllFoes => "all-foes",
            MoveTarget::SpecificMove => "specific-move",
            MoveTarget::EntireBattlefield => "entire-battlefield",
            MoveTarget::OpponentsField => "opponents-field",
            MoveTarget::UserField => "user-field",
            MoveTarget::AllOpponentsField => "all-opponents-field",
            MoveTarget::AllPokemonMaybeOthers => "all-pokemon-maybe-others",
        }
    }
}

impl Vocabulary for MoveTarget {
    open spec fn named_value(name: Seq<char>) -> Option<MoveTarget> {
        MoveTarget::named(name)
    }

    fn from_name(name: &str) -> (r: Option<MoveTarget>) {
        MoveTarget::from_str(name)
    }
}

/// The name of a move.
#[derive(Debug, PartialEq, Eq)]
pub struct MoveName {
    pub name: String,
}

impl View for MoveName {
    type V = Seq<char>;

    open spec fn view(&self) -> Seq<char> {
        self.name@
    }
}

impl Clone for MoveName {
    fn clone(&self) -> (r: Self)
        ensures
            r@ == self@,
    {
        MoveName { name: self.name.clone() }
    }
}

impl MoveName {
    pub fn new(name: String) -> (r: Self)
        ensures
            r@ == name@,
    {
        MoveName { name }
    }
}

impl FromJson for MoveName {
    /// One of the names of a move: an object with a text `name`.
    open spec fn decoded(json: JsonModel, field: Seq<char>) -> Decoded<Seq<char>> {
        decoded_plain_name(json, field)
    }

    fn from_json(json: &JsonValue, field: &'static str) -> (r: Result<Self, ParseError>) {
        let object = json.as_object(field)?;
        let name = object.text_field("name")?;
        Ok(MoveName { name })
    }
}

/// The power of a move; `None` for a move that has none, which is not a power
/// of zero.
#[derive(Debug, Clone, Copy, PartialEq, Eq, Structural)]
pub struct MovePower(pub Option<u32>);

impl MovePower {
    pub fn new(power: Option<u32>) -> (r: Self)
        ensures
            r.0 == power,
    {
        MovePower(power)
    }

    pub fn value(&self) -> (r: Option<u32>)
        ensures
            r == self.0,
    {
        self.0
    }

    pub fn is_none(&self) -> (r: bool)
        ensures
            r == (self.0 is None),
    {
        self.0.is_none()
    }
}

/// The power points of a move.
#[derive(Debug, Clone, Copy, PartialEq, Eq, Structural)]
pub struct MovePP(pub u32);

impl MovePP {
    pub fn new(pp: u32) -> (r: Self)
        ensures
            r.0 == pp,
    {
        MovePP(pp)
    }

    pub fn value(&self) -> (r: u32)
        ensures
            r == self.0,
    {
        self.0
    }
}

/// The priority of a move: above zero it goes before, below zero after the
/// moves of priority zero.
#[derive(Debug, Clone, Copy, PartialEq, Eq, Structural)]
pub struct MovePriority(pub i32);

impl MovePriority {
    pub fn new(priority: i32) -> (r: Self)
        ensures
            r.0 == priority,
    {
        MovePriority(priority)
    }

    pub fn value(&self) -> (r: i32)
        ensures
            r == self.0,
    {
        self.0
    }

    pub fn is_high_priority(&self) -> (r: bool)
        ensures
            r == (self.0 > 0),
    {
        self.0 > 0
    }

    pub fn is_low_priority(&self) -> (r: bool)
        ensures
            r == (self.0 < 0),
    {
        self.0 < 0
    }

    pub fn is_normal_priority(&self) -> (r: bool)
        ensures
            r == (self.0 == 0),
    {
        self.0 == 0
    }
}

/// What a move does.
#[derive(Debug, PartialEq, Eq)]
pub struct EffectEntry {
    pub effect: String,
    pub short_effect: String,
}

/// The mathematical value of an [`EffectEntry`].
pub ghost struct EffectEntryModel {
    pub effect: Seq<char>,
    pub short_effect: Seq<char>,
}

impl View for EffectEntry {
    type V = EffectEntryModel;

    open spec fn view(&self) -> EffectEntryModel {
        EffectEntryModel {
            effect: self.effect@,
            short_effect: self.short_effect@,
        }
    }
}

impl Clone for EffectEntry {
    fn clone(&self) -> (r: Self)
        ensures
            r@ == self@,
    {
        EffectEntry {
            effect: self.effect.clone(),
            short_effect: self.short_effect.clone(),
        }
    }
}

impl FromJson for EffectEntry {
    open spec fn decoded(json: JsonModel, field: Seq<char>) -> Decoded<EffectEntryModel> {
        let effect = json.text_field("effect"@);
        let short_effect = json.text_field("short_effect"@);
        if json.as_object(field) is Err {
            Err(json.as_object(field)->Err_0)
        } else if effect is Err {
            Err(effect->Err_0)
        } else if short_effect is Err {
            Err(short_effect->Err_0)
        } else {
            Ok(
                EffectEntryModel {
                    effect: effect->Ok_0,
                    short_effect: short_effect->Ok_0,
                },
            )
        }
    }

    fn from_json(json: &JsonValue, field: &'static str) -> (r: Result<Self, ParseError>) {
        let object = json.as_object(field)?;
        let effect = object.text_field("effect")?;
        let short_effect = object.text_field("short_effect")?;
        Ok(EffectEntry { effect, short_effect })
    }
}

/// A change that a move makes to one stat, by so many stages.
#[derive(Debug, Clone, Copy, PartialEq, Eq, Structural)]
pub struct StatChange {
    pub change: i32,
    pub stat: StatName,
}

impl View for StatChange {
    type V = StatChange;

    open spec fn view(&self) -> StatChange {
        *self
    }
}

impl FromJson for StatChange {
    open spec fn decoded(json: JsonModel, field: Seq<char>) -> Decoded<StatChange> {
        let change = json.i32_field("change"@);
        let stat = json.vocabulary_field::<StatName>("stat"@);
        if json.as_object(field) is Err {
            Err(json.as_object(field)->Err_0)
        } else if change is Err {
            Err(change->Err_0)
        } else if stat is Err {
            Err(stat->Err_0)
        } else {
            Ok(StatChange { change: change->Ok_0, stat: stat->Ok_0 })
        }
    }

    fn from_json(json: &JsonValue, field: &'static str) -> (r: Result<Self, ParseError>) {
        let object = json.as_object(field)?;
        let change = object.i32_field("change")?;
        let stat = object.vocabulary_field::<StatName>("stat")?;
        Ok(StatChange { change, stat })
    }
}

/// A move. Accuracy, effect chance and power are `None` where they do not
/// apply; the power must be mentioned all the same.
#[derive(Debug, PartialEq, Eq)]
pub struct Move {
    pub id: u32,
    pub name: String,
    pub accuracy: Option<u32>,
    pub damage_class: DamageClass,
    pub effect_chance: Option<u32>,
    pub effect_entries: Vec<EffectEntry>,
    pub flavor_text_entries: Vec<FlavorText>,
    pub names: Vec<MoveName>,
    pub power: MovePower,
    pub pp: MovePP,
    pub priority: MovePriority,
    pub stat_changes: Vec<StatChange>,
    pub target: MoveTarget,
    pub type_info: PokemonTypeName,
}

/// The mathematical value of a [`Move`].
pub ghost struct MoveModel {
    pub id: u32,
    pub name: Seq<char>,
    pub accuracy: Option<u32>,
    pub damage_class: DamageClass,
    pub effect_chance: Option<u32>,
    pub effect_entries: Seq<EffectEntryModel>,
    pub flavor_text_entries: Seq<FlavorTextModel>,
    pub names: Seq<Seq<char>>,
    pub power: Option<u32>,
    pub pp: u32,
    pub priority: i32,
    pub stat_changes: Seq<StatChange>,
    pub target: MoveTarget,
    pub type_info: Seq<char>,
}

impl View for Move {
    type V = MoveModel;

    open spec fn view(&self) -> MoveModel {
        MoveModel {
            id: self.id,
            name: self.name@,
            accuracy: self.accuracy,
            damage_class: self.damage_class,
            effect_chance: self.effect_chance,
            effect_entries: views(self.effect_entries@),
            flavor_text_entries: views(self.flavor_text_entries@),
            names: views(self.names@),
            power: self.power.0,
            pp: self.pp.0,
            priority: self.priority.0,
            stat_changes: views(self.stat_changes@),
            target: self.target,
            type_info: self.type_info@,
        }
    }
}

impl Clone for Move {
    fn clone(&self) -> (r: Self)
        ensures
            r@ == self@,
    {
        Move {
            id: self.id,
            name: self.name.clone(),
            accuracy: self.accuracy,
            damage_class: self.damage_class,
            effect_chance: self.effect_chance,
            effect_entries: clone_all(&self.effect_entries),
            flavor_text_entries: clone_all(&self.flavor_text_entries),
            names: clone_all(&self.names),
            power: self.power,
            pp: self.pp,
            priority: self.priority,
            stat_changes: clone_all(&self.stat_changes),
            target: self.target,
            type_info: self.type_info.clone(),
        }
    }
}

impl FromJson for Move {
    open spec fn decoded(json: JsonModel, field: Seq<char>) -> Decoded<MoveModel> {
        let id = json.u32_field("id"@);
        let name = json.text_field("name"@);
        let accuracy = json.optional_u32_field("accuracy"@);
        let damage_class = json.vocabulary_field::<DamageClass>("damage_class"@);
        let effect_chance = json.optional_u32_field("effect_chance"@);
        let effect_entries = json.records_field::<EffectEntry>("effect_entries"@);
        let flavor_text_entries = json.records_field::<FlavorText>("flavor_text_entries"@);
        let names = json.records_field::<MoveName>("names"@);
        let power = json.nullable_u32_field("power"@);
        let pp = json.u32_field("pp"@);
        let priority = json.i32_field("priority"@);
        let stat_changes = json.records_field::<StatChange>("stat_changes"@);
        let target = json.vocabulary_field::<MoveTarget>("target"@);
        let type_info = json.record_field::<PokemonTypeName>("type"@);
        if json.as_object(field) is Err {
            Err(json.as_object(field)->Err_0)
        } else if id is Err {
            Err(id->Err_0)
        } else if name is Err {
            Err(name->Err_0)
        } else if accuracy is Err {
            Err(accuracy->Err_0)
        } else if damage_class is Err {
            Err(damage_class->Err_0)
        } else if effect_chance is Err {
            Err(effect_chance->Err_0)
        } else if effect_entries is Err {
            Err(effect_entries->Err_0)
        } else if flavor_text_entries is Err {
            Err(flavor_text_entries->Err_0)
        } else if names is Err {
            Err(names->Err_0)
        } else if power is Err {
            Err(power->Err_0)
        } else if pp is Err {
            Err(pp->Err_0)
        } else if priority is Err {
            Err(priority->Err_0)
        } else if stat_changes is Err {
            Err(stat_changes->Err_0)
        } else if target is Err {
            Err(target->Err_0)
        } else if type_info is Err {
            Err(type_info->Err_0)
        } else {
            Ok(
                MoveModel {
                    id: id->Ok_0,
                    name: name->Ok_0,
                    accuracy: accuracy->Ok_0,
                    damage_class: damage_class->Ok_0,
                    effect_chance: effect_chance->Ok_0,
                    effect_entries: effect_entries->Ok_0,
                    flavor_text_entries: flavor_text_entries->Ok_0,
                    names: names->Ok_0,
                    power: power->Ok_0,
                    pp: pp->Ok_0,
                    priority: priority->Ok_0,
                    stat_changes: stat_changes->Ok_0,
                    target: target->Ok_0,
                    type_info: type_info->Ok_0,
                },
            )
        }
    }

    fn from_json(json: &JsonValue, field: &'static str) -> (r: Result<Self, ParseError>) {
        let object = json.as_object(field)?;
        let id = object.u32_field("id")?;
        let name = object.text_field("name")?;
        let accuracy = object.optional_u32_field("accuracy")?;
        let damage_class = object.vocabulary_field::<DamageClass>("damage_class")?;
        let effect_chance = object.optional_u32_field("effect_chance")?;
        let effect_entries = object.records_field::<EffectEntry>("effect_entries")?;
        let flavor_text_entries = object.records_field::<FlavorText>("flavor_text_entries")?;
        let names = object.records_field::<MoveName>("names")?;
        let power = MovePower::new(object.nullable_u32_field("power")?);
        let pp = MovePP::new(object.u32_field("pp")?);
        let priority = MovePriority::new(object.i32_field("priority")?);
        let stat_changes = object.records_field::<StatChange>("stat_changes")?;
        let target = object.vocabulary_field::<MoveTarget>("target")?;
        let type_info = object.record_field::<PokemonTypeName>("type")?;
        Ok(
            Move {
                id,
                name,
                accuracy,
                damage_class,
                effect_chance,
                effect_entries,
                flavor_text_entries,
                names,
                power,
                pp,
                priority,
                stat_changes,
                target,
                type_info,
            },
        )
    }
}

impl Trim for Move {
    /// Of a move the flavor texts are trimmed, by language and by group of
    /// versions; its effect texts and names stay as they are.
    open spec fn trimmed(record: MoveModel, config: FilterModel) -> MoveModel {
        MoveModel {
            flavor_text_entries: retained::<FlavorText>(record.flavor_text_entries, config),
            ..record
        }
    }

    fn trim(self, config: &FilterConfig) -> (r: Self) {
        Move {
            id: self.id,
            name: self.name,
            accuracy: self.accuracy,
            damage_class: self.damage_class,
            effect_chance: self.effect_chance,
            effect_entries: self.effect_entries,
            flavor_text_entries: retain(self.flavor_text_entries, config),
            names: self.names,
            power: self.power,
            pp: self.pp,
            priority: self.priority,
            stat_changes: self.stat_changes,
            target: self.target,
            type_info: self.type_info,
        }
    }

    proof fn lemma_trim_idempotent(record: MoveModel, config: FilterModel) {
        lemma_filter_idempotent(
            record.flavor_text_entries,
            |entry: FlavorTextModel| FlavorText::kept(entry, config),
        );
    }
}

} // verus!
