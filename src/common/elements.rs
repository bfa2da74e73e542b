use vstd::prelude::*;
use crate::affinity::Affinity;
use crate::color_hints::ColorHint;

verus! {

/// Eight elements; `Normal` is neither weak nor strong against anything.
#[derive(Debug, Clone, Copy, PartialEq, Eq, Structural)]
pub enum Element {
    Fire,
    Water,
    Ice,
    Grass,
    Electric,
    Ground,
    Flying,
    Normal,
}

/// Which element each one is weak against.
pub open spec fn element_weak(a: Element, b: Element) -> bool {
    if a == Element::Normal || b == Element::Normal {
        false
    } else {
        match a {
            Element::Fire => b == Element::Water,
            Element::Water => b == Element::Grass || b == Element::Ground,
            Element::Grass => b == Element::Fire,
            Element::Ice => b == Element::Fire || b == Element::Grass,
            Element::Electric => b == Element::Ground || b == Element::Flying,
            Element::Ground => b == Element::Flying,
            Element::Flying => b == Element::Electric || b == Element::Ice,
            Element::Normal => false,
        }
    }
}

/// Strong: neither side is `Normal`, the two differ, and there is no weakness.
pub open spec fn element_strong(a: Element, b: Element) -> bool {
    a != Element::Normal && b != Element::Normal && a != b && !element_weak(a, b)
}

impl Affinity for Element {
    fn weak_against(&self, other: &Self) -> (r: bool)
        ensures
            r == element_weak(*self, *other),
    {
        if *self == Element::Normal || *other == Element::Normal {
            return false;
        }
        match self {
            Element::Fire => *other == Element::Water,
            Element::Water => *other == Element::Grass || *other == Element::Ground,
            Element::Grass => *other == Element::Fire,
            Element::Ice => *other == Element::Fire || *other == Element::Grass,
            Element::Electric => *other == Element::Ground || *other == Element::Flying,
            Element::Ground => *other == Element::Flying,
            Element::Flying => *other == Element::Electric || *other == Element::Ice,
            Element::Normal => false,
        }
    }

    fn strong_against(&self, other: &Self) -> (r: bool)
        ensures
            r == element_strong(*self, *other),
    {
        if *self == Element::Normal || *other == Element::Normal || *self == *other {
            return false;
        }
        !self.weak_against(other)
    }
}

/// No element is both weak and strong against another, and `Normal` is neutral.
pub proof fn lemma_element_exclusive(a: Element, b: Element)
    ensures
        !(element_weak(a, b) && element_strong(a, b)),
        !element_weak(a, Element::Normal) && !element_strong(a, Element::Normal),
        !element_weak(Element::Normal, b) && !element_strong(Element::Normal, b),
{
}

/// The color name of each element.
pub open spec fn element_color(e: Element) -> Seq<char> {
    match e {
        Element::Fire => "Red"@,
        Element::Water => "Blue"@,
        Element::Grass => "Green"@,
        Element::Ice => "Cyan"@,
        Element::Electric => "Orange"@,
        Element::Ground => "Brown"@,
        Element::Flying => "White"@,
        Element::Normal => "Gray"@,
    }
}

impl ColorHint for Element {
    fn color(&self) -> (r: String)
        ensures
            r@ == element_color(*self),
    {
        match self {
            Element::Fire => String::from_str("Red"),
            Element::Water => String::from_str("Blue"),
            Element::Grass => String::from_str("Green"),
            Element::Ice => String::from_str("Cyan"),
            Element::Electric => String::from_str("Orange"),
            Element::Ground => String::from_str("Brown"),
            Element::Flying => String::from_str("White"),
            Element::Normal => String::from_str("Gray"),
        }
    }
}

} // verus!
