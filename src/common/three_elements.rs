use vstd::prelude::*;
use crate::affinity::Affinity;
use crate::color_hints::ColorHint;

verus! {

/// Three elements in a cycle: fire, water, grass.
#[derive(Debug, Clone, Copy, PartialEq, Eq, Structural)]
pub enum Element {
    Fire,
    Water,
    Grass,
}

/// Fire is weak against water, water against grass, grass against fire.
pub open spec fn three_weak(a: Element, b: Element) -> bool {
    match a {
        Element::Fire => b == Element::Water,
        Element::Water => b == Element::Grass,
        Element::Grass => b == Element::Fire,
    }
}

/// An element is strong against another when they differ and it is not weak against it.
pub open spec fn three_strong(a: Element, b: Element) -> bool {
    a != b && !three_weak(a, b)
}

impl Affinity for Element {
    fn weak_against(&self, other: &Self) -> (r: bool)
        ensures
            r == three_weak(*self, *other),
    {
        match self {
            Element::Fire => *other == Element::Water,
            Element::Water => *other == Element::Grass,
            Element::Grass => *other == Element::Fire,
        }
    }

    fn strong_against(&self, other: &Self) -> (r: bool)
        ensures
            r == three_strong(*self, *other),
    {
        if *self == *other {
            return false;
        }
        !self.weak_against(other)
    }
}

/// The color name of each element.
pub open spec fn three_color(e: Element) -> Seq<char> {
    match e {
        Element::Fire => "Red"@,
        Element::Water => "Blue"@,
        Element::Grass => "Green"@,
    }
}

impl ColorHint for Element {
    fn color(&self) -> (r: String)
        ensures
            r@ == three_color(*self),
    {
        match self {
            Element::Fire => String::from_str("Red"),
            Element::Water => String::from_str("Blue"),
            Element::Grass => String::from_str("Green"),
        }
    }
}

} // verus!
