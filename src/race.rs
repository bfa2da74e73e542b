use vstd::prelude::*;

verus! {

/// The playable races of the core rules.
#[derive(Debug, Clone, Copy, PartialEq, Eq, Hash, Structural)]
pub enum Race {
    Dragonborn,
    Dwarf,
    Elf,
    Gnome,
    HalfElf,
    Halfling,
    HalfOrc,
    Human,
    Tiefling,
}

/// The race's name, as it is written in the enum.
pub open spec fn race_name(r: Race) -> Seq<char> {
    match r {
        Race::Dragonborn => "Dragonborn"@,
        Race::Dwarf => "Dwarf"@,
        Race::Elf => "Elf"@,
        Race::Gnome => "Gnome"@,
        Race::HalfElf => "HalfElf"@,
        Race::Halfling => "Halfling"@,
        Race::HalfOrc => "HalfOrc"@,
        Race::Human => "Human"@,
        Race::Tiefling => "Tiefling"@,
    }
}

/// Every race, in declaration order.
pub open spec fn all_races() -> Seq<Race> {
    seq![
        Race::Dragonborn,
        Race::Dwarf,
        Race::Elf,
        Race::Gnome,
        Race::HalfElf,
        Race::Halfling,
        Race::HalfOrc,
        Race::Human,
        Race::Tiefling,
    ]
}

impl Race {
    /// The race's name.
    pub fn to_string(&self) -> (r: String)
        ensures
            r@ == race_name(*self),
    {
        match self {
            Race::Dragonborn => String::from_str("Dragonborn"),
            Race::Dwarf => String::from_str("Dwarf"),
            Race::Elf => String::from_str("Elf"),
            Race::Gnome => String::from_str("Gnome"),
            Race::HalfElf => String::from_str("HalfElf"),
            Race::Halfling => String::from_str("Halfling"),
            Race::HalfOrc => String::from_str("HalfOrc"),
            Race::Human => String::from_str("Human"),
            Race::Tiefling => String::from_str("Tiefling"),
        }
    }

    /// Every race, in declaration order.
    pub fn all() -> (r: Vec<Race>)
        ensures
            r@ == all_races(),
    {
        let v = vec![
            Race::Dragonborn,
            Race::Dwarf,
            Race::Elf,
            Race::Gnome,
            Race::HalfElf,
            Race::Halfling,
            Race::HalfOrc,
            Race::Human,
            Race::Tiefling,
        ];
        proof {
            assert(v@ =~= all_races());
        }
        v
    }
}

/// The list of races holds every race exactly once.
pub proof fn lemma_all_races_complete(r: Race)
    ensures
        all_races().contains(r),
        all_races().no_duplicates(),
{
    let s = all_races();
    let i: int = match r {
        Race::Dragonborn => 0,
        Race::Dwarf => 1,
        Race::Elf => 2,
        Race::Gnome => 3,
        Race::HalfElf => 4,
        Race::Halfling => 5,
        Race::HalfOrc => 6,
        Race::Human => 7,
        Race::Tiefling => 8,
    };
    assert(s[i] == r);
}

} // verus!
