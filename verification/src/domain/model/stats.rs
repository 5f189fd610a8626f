use vstd::prelude::*;
use crate::decode::Vocabulary;
use crate::text::same_text;

verus! {

/// The six stats of a Pokémon.
#[derive(Debug, Clone, Copy, PartialEq, Eq, Hash, Structural)]
pub enum StatName {
    Hp,
    Attack,
    Defense,
    SpecialAttack,
    SpecialDefense,
    Speed,
}

impl View for StatName {
    type V = StatName;

    open spec fn view(&self) -> StatName {
        *self
    }
}

impl StatName {
    /// The canonical name of a stat.
    pub open spec fn text(self) -> Seq<char> {
        match self {
            StatName::Hp => "hp"@,
            StatName::Attack => "attack"@,
            StatName::Defense => "defense"@,
            StatName::SpecialAttack => "special-attack"@,
            StatName::SpecialDefense => "special-defense"@,
            StatName::Speed => "speed"@,
        }
    }

    /// The stat that a name stands for, if it stands for one.
    pub open spec fn named(name: Seq<char>) -> Option<StatName> {
        if name == "hp"@ {
            Some(StatName::Hp)
        } else if name == "attack"@ {
            Some(StatName::Attack)
        } else if name == "defense"@ {
            Some(StatName::Defense)
        } else if name == "special-attack"@ {
            Some(StatName::SpecialAttack)
        } else if name == "special-defense"@ {
            Some(StatName::SpecialDefense)
        } else if name == "speed"@ {
            Some(StatName::Speed)
        } else {
            None
        }
    }

    /// No two stats share a name.
    pub proof fn lemma_text_injective(a: StatName, b: StatName)
        requires
            a.text() == b.text(),
        ensures
            a == b,
    {
        reveal_strlit("hp");
        reveal_strlit("attack");
        reveal_strlit("defense");
        reveal_strlit("special-attack");
        reveal_strlit("special-defense");
        reveal_strlit("speed");
        assert("hp"@.len() == 2);
        assert("attack"@.len() == 6);
        assert("defense"@.len() == 7);
        assert("special-attack"@.len() == 14);
        assert("special-defense"@.len() == 15);
        assert("speed"@.len() == 5);
    }

    /// Parsing is total and explicit: a name gives the one stat that bears it,
    /// and none exactly when no stat bears it.
    pub proof fn lemma_named_exact(name: Seq<char>)
        ensures
            match StatName::named(name) {
                Some(found) => found.text() == name && forall|other: StatName|
                    other.text() == name ==> other == found,
                None => forall|other: StatName| other.text() != name,
            },
    {
        assert forall|a: StatName, b: StatName| a.text() == b.text() implies a == b by {
            StatName::lemma_text_injective(a, b);
        }
        match StatName::named(name) {
            Some(found) => {
                assert(found.text() == name);
            },
            None => {
                assert forall|other: StatName| other.text() != name by {
                    match other {
                        StatName::Hp => {},
                        StatName::Attack => {},
                        StatName::Defense => {},
                        StatName::SpecialAttack => {},
                        StatName::SpecialDefense => {},
                        StatName::Speed => {},
                    }
                }
            },
        }
    }

    /// The canonical name of a stat parses back to it.
    pub proof fn lemma_round_trip(value: StatName)
        ensures
            StatName::named(value.text()) == Some(value),
    {
        StatName::lemma_named_exact(value.text());
    }

    pub fn from_str(s: &str) -> (r: Option<StatName>)
        ensures
            r == StatName::named(s@),
    {
        if same_text(s, "hp") {
            Some(StatName::Hp)
        } else if same_text(s, "attack") {
            Some(StatName::Attack)
        } else if same_text(s, "defense") {
            Some(StatName::Defense)
        } else if same_text(s, "special-attack") {
            Some(StatName::SpecialAttack)
        } else if same_text(s, "special-defense") {
            Some(StatName::SpecialDefense)
        } else if same_text(s, "speed") {
            Some(StatName::Speed)
        } else {
            None
        }
    }

    pub fn as_str(&self) -> (r: &'static str)
        ensures
            r@ == self.text(),
    {
        match self {
            StatName::Hp => "hp",
            StatName::Attack => "attack",
            StatName::Defense => "defense",
            StatName::SpecialAttack => "special-attack",
            StatName::SpecialDefense => "special-defense",
            StatName::Speed => "speed",
        }
    }
}

impl Vocabulary for StatName {
    open spec fn named_value(name: Seq<char>) -> Option<StatName> {
        StatName::named(name)
    }

    fn from_name(name: &str) -> (r: Option<StatName>) {
        StatName::from_str(name)
    }
}

} // verus!
