use vstd::prelude::*;

use crate::names::{split_words, NameFromEnum};

verus! {

/// Form of government.
#[derive(Clone, Copy, Debug, PartialEq, Eq, Structural)]
pub enum Government {
    Democracy,
    Neutral,
    Autocracy,
}

/// Political ideology.
#[derive(Clone, Copy, Debug, PartialEq, Eq, Structural)]
pub enum Ideology {
    Left,
    Neutral,
    Right,
}

/// Cultural stance.
#[derive(Clone, Copy, Debug, PartialEq, Eq, Structural)]
pub enum Culture {
    Conservative,
    Neutral,
    Progressive,
}

/// Economic orientation.
#[derive(Clone, Copy, Debug, PartialEq, Eq, Structural)]
pub enum Orientation {
    Socialism,
    Neutral,
    Capitalism,
}

/// The four fields of the political landscape.
#[derive(Clone, Copy, Debug, PartialEq, Eq, Structural)]
pub enum PoliticalField {
    Government,
    Ideology,
    Culture,
    Orientation,
}

impl NameFromEnum for Government {
    open spec fn spec_ident(&self) -> Seq<char> {
        match self {
            Government::Democracy => "Democracy"@,
            Government::Neutral => "Neutral"@,
            Government::Autocracy => "Autocracy"@,
        }
    }

    fn ident(&self) -> (r: &'static str) {
        match self {
            Government::Democracy => "Democracy",
            Government::Neutral => "Neutral",
            Government::Autocracy => "Autocracy",
        }
    }
}

impl NameFromEnum for Ideology {
    open spec fn spec_ident(&self) -> Seq<char> {
        match self {
            Ideology::Left => "Left"@,
            Ideology::Neutral => "Neutral"@,
            Ideology::Right => "Right"@,
        }
    }

    fn ident(&self) -> (r: &'static str) {
        match self {
            Ideology::Left => "Left",
            Ideology::Neutral => "Neutral",
            Ideology::Right => "Right",
        }
    }
}

impl NameFromEnum for Culture {
    open spec fn spec_ident(&self) -> Seq<char> {
        match self {
            Culture::Conservative => "Conservative"@,
            Culture::Neutral => "Neutral"@,
            Culture::Progressive => "Progressive"@,
        }
    }

    fn ident(&self) -> (r: &'static str) {
        match self {
            Culture::Conservative => "Conservative",
            Culture::Neutral => "Neutral",
            Culture::Progressive => "Progressive",
        }
    }
}

impl NameFromEnum for Orientation {
    open spec fn spec_ident(&self) -> Seq<char> {
        match self {
            Orientation::Socialism => "Socialism"@,
            Orientation::Neutral => "Neutral"@,
            Orientation::Capitalism => "Capitalism"@,
        }
    }

    fn ident(&self) -> (r: &'static str) {
        match self {
            Orientation::Socialism => "Socialism",
            Orientation::Neutral => "Neutral",
            Orientation::Capitalism => "Capitalism",
        }
    }
}

impl NameFromEnum for PoliticalField {
    open spec fn spec_ident(&self) -> Seq<char> {
        match self {
            PoliticalField::Government => "Government"@,
            PoliticalField::Ideology => "Ideology"@,
            PoliticalField::Culture => "Culture"@,
            PoliticalField::Orientation => "Orientation"@,
        }
    }

    fn ident(&self) -> (r: &'static str) {
        match self {
            PoliticalField::Government => "Government",
            PoliticalField::Ideology => "Ideology",
            PoliticalField::Culture => "Culture",
            PoliticalField::Orientation => "Orientation",
        }
    }
}

/// Text of the government field.
pub const GOVERNMENT_TEXT: &'static str = "Defines the structure of political authority within the state, from democratic \
    systems that emphasize representation and citizen participation, to autocratic \
    regimes centered around centralized control and limited individual freedoms.";

/// Text of the ideology field.
pub const IDEOLOGY_TEXT: &'static str = "Represents the dominant political worldview, influencing how power, equality, \
    and justice are interpreted—ranging from progressive left-wing ideals to \
    conservative right-wing beliefs, with neutral positions offering moderate approaches.";

/// Text of the culture field.
pub const CULTURE_TEXT: &'static str = "Captures the societal attitude toward tradition, change, and social values—whether \
    rooted in conservative norms, aligned with progressive reforms, or maintaining a \
    neutral stance that balances both.";

/// Text of the orientation field.
pub const ORIENTATION_TEXT: &'static str = "Reflects the state's economic philosophy, determining whether it leans toward \
    collective welfare and redistribution (socialism), free-market competition and \
    individual enterprise (capitalism), or a centrist mix of both approaches.";

/// Where a stance lies on its axis: -1 for the first pole, 0 for neutral, 1 for the
/// second pole.
pub open spec fn alignment(pole: int, value: int) -> int {
    if pole == 0 {
        0
    } else if (pole < 0 && value < 0) || (pole > 0 && value > 0) {
        1
    } else {
        -1
    }
}

impl PoliticalField {
    pub open spec fn spec_emoji(self) -> &'static str {
        match self {
            PoliticalField::Government => "👑",
            PoliticalField::Ideology => "🍀",
            PoliticalField::Culture => "👨",
            PoliticalField::Orientation => "💲",
        }
    }

    /// The icon of the field.
    pub fn emoji(&self) -> (r: &'static str)
        ensures
            r == self.spec_emoji(),
    {
        match self {
            PoliticalField::Government => "👑",
            PoliticalField::Ideology => "🍀",
            PoliticalField::Culture => "👨",
            PoliticalField::Orientation => "💲",
        }
    }

    pub open spec fn spec_description(self) -> &'static str {
        match self {
            PoliticalField::Government => GOVERNMENT_TEXT,
            PoliticalField::Ideology => IDEOLOGY_TEXT,
            PoliticalField::Culture => CULTURE_TEXT,
            PoliticalField::Orientation => ORIENTATION_TEXT,
        }
    }

    /// What the field is about.
    pub fn description(&self) -> (r: &'static str)
        ensures
            r == self.spec_description(),
    {
        match self {
            PoliticalField::Government => GOVERNMENT_TEXT,
            PoliticalField::Ideology => IDEOLOGY_TEXT,
            PoliticalField::Culture => CULTURE_TEXT,
            PoliticalField::Orientation => ORIENTATION_TEXT,
        }
    }

    /// The identifiers of the field's three stances, from the first pole to the second.
    pub open spec fn spec_stances(self) -> Seq<Seq<char>> {
        match self {
            PoliticalField::Government => seq!["Democracy"@, "Neutral"@, "Autocracy"@],
            PoliticalField::Ideology => seq!["Left"@, "Neutral"@, "Right"@],
            PoliticalField::Culture => seq!["Conservative"@, "Neutral"@, "Progressive"@],
            PoliticalField::Orientation => seq!["Socialism"@, "Neutral"@, "Capitalism"@],
        }
    }

    /// The names of the field's three stances, from the first pole to the second.
    pub fn fields(&self) -> (r: Vec<String>)
        ensures
            r.len() == 3,
            forall|i: int| 0 <= i < 3 ==> #[trigger] r[i]@ == split_words(self.spec_stances()[i]),
    {
        let mut r: Vec<String> = Vec::new();
        match self {
            PoliticalField::Government => {
                r.push(Government::Democracy.to_name());
                r.push(Government::Neutral.to_name());
                r.push(Government::Autocracy.to_name());
            },
            PoliticalField::Ideology => {
                r.push(Ideology::Left.to_name());
                r.push(Ideology::Neutral.to_name());
                r.push(Ideology::Right.to_name());
            },
            PoliticalField::Culture => {
                r.push(Culture::Conservative.to_name());
                r.push(Culture::Neutral.to_name());
                r.push(Culture::Progressive.to_name());
            },
            PoliticalField::Orientation => {
                r.push(Orientation::Socialism.to_name());
                r.push(Orientation::Neutral.to_name());
                r.push(Orientation::Capitalism.to_name());
            },
        }
        r
    }
}

impl Government {
    /// -1 for democracy, 0 for neutral, 1 for autocracy.
    pub open spec fn pole(self) -> int {
        match self {
            Government::Democracy => -1,
            Government::Neutral => 0,
            Government::Autocracy => 1,
        }
    }
}

impl Ideology {
    /// -1 for left, 0 for neutral, 1 for right.
    pub open spec fn pole(self) -> int {
        match self {
            Ideology::Left => -1,
            Ideology::Neutral => 0,
            Ideology::Right => 1,
        }
    }
}

impl Culture {
    /// -1 for conservative, 0 for neutral, 1 for progressive.
    pub open spec fn pole(self) -> int {
        match self {
            Culture::Conservative => -1,
            Culture::Neutral => 0,
            Culture::Progressive => 1,
        }
    }
}

impl Orientation {
    /// -1 for socialism, 0 for neutral, 1 for capitalism.
    pub open spec fn pole(self) -> int {
        match self {
            Orientation::Socialism => -1,
            Orientation::Neutral => 0,
            Orientation::Capitalism => 1,
        }
    }
}

/// The political stance of a country or a sector.
#[derive(Clone, Copy, Debug, PartialEq, Eq, Structural)]
pub struct Politics {
    pub government: Government,
    pub ideology: Ideology,
    pub culture: Culture,
    pub orientation: Orientation,
}

impl Politics {
    /// The pole of the stance taken in a field.
    pub open spec fn pole_of(self, field: PoliticalField) -> int {
        match field {
            PoliticalField::Government => self.government.pole(),
            PoliticalField::Ideology => self.ideology.pole(),
            PoliticalField::Culture => self.culture.pole(),
            PoliticalField::Orientation => self.orientation.pole(),
        }
    }

    /// The identifier of the stance taken in a field.
    pub open spec fn stance_ident(self, field: PoliticalField) -> Seq<char> {
        match field {
            PoliticalField::Government => self.government.spec_ident(),
            PoliticalField::Ideology => self.ideology.spec_ident(),
            PoliticalField::Culture => self.culture.spec_ident(),
            PoliticalField::Orientation => self.orientation.spec_ident(),
        }
    }

    /// The name of the stance taken in a field.
    pub fn get(&self, field: &PoliticalField) -> (r: String)
        ensures
            r@ == split_words(self.stance_ident(*field)),
    {
        match field {
            PoliticalField::Government => self.government.to_name(),
            PoliticalField::Ideology => self.ideology.to_name(),
            PoliticalField::Culture => self.culture.to_name(),
            PoliticalField::Orientation => self.orientation.to_name(),
        }
    }

    /// Whether a push in direction `value` (negative towards the first pole, positive
    /// towards the second) agrees with the stance in `field`: 1 if it does, 0 if the
    /// stance is neutral, -1 if it goes against it.
    pub fn matches(&self, field: &PoliticalField, value: i8) -> (r: i8)
        ensures
            r == alignment(self.pole_of(*field), value as int),
    {
        match field {
            PoliticalField::Government => match self.government {
                Government::Democracy if value < 0 => 1,
                Government::Neutral => 0,
                Government::Autocracy if value > 0 => 1,
                _ => -1,
            },
            PoliticalField::Ideology => match self.ideology {
                Ideology::Left if value < 0 => 1,
                Ideology::Neutral => 0,
                Ideology::Right if value > 0 => 1,
                _ => -1,
            },
            PoliticalField::Culture => match self.culture {
                Culture::Conservative if value < 0 => 1,
                Culture::Neutral => 0,
                Culture::Progressive if value > 0 => 1,
                _ => -1,
            },
            PoliticalField::Orientation => match self.orientation {
                Orientation::Socialism if value < 0 => 1,
                Orientation::Neutral => 0,
                Orientation::Capitalism if value > 0 => 1,
                _ => -1,
            },
        }
    }
}

/// A push in a field agrees with a stance (1) when it goes towards the stance's pole,
/// is neutral (0) towards a neutral stance, and goes against it (-1) otherwise; a push
/// the other way gives the opposite answer.
pub proof fn stance_decides_the_match(p: Politics, f: PoliticalField, v: int)
    requires
        v != 0,
    ensures
        alignment(p.pole_of(f), v) == if p.stance_ident(f) == f.spec_stances()[1] {
            0
        } else if (v < 0 && p.stance_ident(f) == f.spec_stances()[0]) || (v > 0 && p.stance_ident(f)
            == f.spec_stances()[2]) {
            1
        } else {
            -1
        },
        -1 <= alignment(p.pole_of(f), v) <= 1,
        alignment(p.pole_of(f), -v) == -alignment(p.pole_of(f), v),
{
    reveal_strlit("Democracy");
    reveal_strlit("Neutral");
    reveal_strlit("Autocracy");
    reveal_strlit("Left");
    reveal_strlit("Right");
    reveal_strlit("Conservative");
    reveal_strlit("Progressive");
    reveal_strlit("Socialism");
    reveal_strlit("Capitalism");
    assert("Democracy"@[0] == 'D');
    assert("Neutral"@[0] == 'N');
    assert("Autocracy"@[0] == 'A');
    assert("Left"@[0] == 'L');
    assert("Right"@[0] == 'R');
    assert("Conservative"@[0] == 'C');
    assert("Progressive"@[0] == 'P');
    assert("Socialism"@[0] == 'S');
    assert("Capitalism"@[0] == 'C');
    assert(f.spec_stances()[0] != f.spec_stances()[1]);
    assert(f.spec_stances()[2] != f.spec_stances()[1]);
    assert(f.spec_stances()[0] != f.spec_stances()[2]);
}

impl Default for Politics {
    /// Neutral in every field.
    fn default() -> (r: Self)
        ensures
            r.government == Government::Neutral,
            r.ideology == Ideology::Neutral,
            r.culture == Culture::Neutral,
            r.orientation == Orientation::Neutral,
    {
        Politics {
            government: Government::Neutral,
            ideology: Ideology::Neutral,
            culture: Culture::Neutral,
            orientation: Orientation::Neutral,
        }
    }
}

/// The global tendency in each political field, between `-RANGE` and `RANGE`.
#[derive(Clone, Copy, Debug, PartialEq, Eq, Structural)]
pub struct PoliticalLandscape {
    pub government: i32,
    pub ideology: i32,
    pub culture: i32,
    pub orientation: i32,
}

impl PoliticalLandscape {
    pub const RANGE: i32 = 50;
}

impl Default for PoliticalLandscape {
    /// Zero in every field.
    fn default() -> (r: Self)
        ensures
            r.government == 0,
            r.ideology == 0,
            r.culture == 0,
            r.orientation == 0,
    {
        PoliticalLandscape { government: 0, ideology: 0, culture: 0, orientation: 0 }
    }
}

} // verus!
