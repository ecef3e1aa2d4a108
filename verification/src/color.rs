//! The two colors of a pack.

use crate::suit::Suit;
use std::cmp::Ordering;
use vstd::prelude::*;

verus! {

/// A color: that of a suit, or that of a joker. Black is lower than red.
#[derive(Clone, Copy, PartialEq, Eq, Structural, Ord, Debug, Hash)]
pub enum Color {
    Black,
    Red,
}

impl Color {
    /// The position of this color in declaration order.
    pub open spec fn ordinal(self) -> nat {
        match self {
            Color::Black => 0,
            Color::Red => 1,
        }
    }

    /// Both colors, in declaration order.
    pub open spec fn all() -> Seq<Color> {
        seq![Color::Black, Color::Red]
    }

    /// The letter that stands for this color, its initial: `B` for black,
    /// `R` for red.
    pub open spec fn glyph(self) -> char {
        match self {
            Color::Black => 'B',
            Color::Red => 'R',
        }
    }

    /// The color of a suit: clubs and spades are black, diamonds and hearts
    /// are red.
    pub open spec fn of_suit(suit: Suit) -> Color {
        match suit {
            Suit::Clubs => Color::Black,
            Suit::Diamonds => Color::Red,
            Suit::Hearts => Color::Red,
            Suit::Spades => Color::Black,
        }
    }

    /// The position of this color in declaration order.
    pub fn index(self) -> (i: usize)
        ensures
            i == self.ordinal(),
            i < 2,
            Color::all()[i as int] == self,
    {
        match self {
            Color::Black => 0,
            Color::Red => 1,
        }
    }

    /// Both colors, in declaration order.
    pub fn values() -> (v: [Color; 2])
        ensures
            v@ == Color::all(),
    {
        let v = [Color::Black, Color::Red];
        assert(v@ =~= Color::all());
        v
    }

    /// This color as text: its letter.
    pub fn to_string(&self) -> (s: String)
        ensures
            s@ == seq![self.glyph()],
    {
        proof {
            reveal_strlit("B");
            reveal_strlit("R");
        }
        let s = match self {
            Color::Black => "B".to_owned(),
            Color::Red => "R".to_owned(),
        };
        assert(s@ =~= seq![self.glyph()]);
        s
    }
}

impl From<Suit> for Color {
    fn from(suit: Suit) -> (color: Color) {
        match suit {
            Suit::Clubs => Color::Black,
            Suit::Diamonds => Color::Red,
            Suit::Hearts => Color::Red,
            Suit::Spades => Color::Black,
        }
    }
}

impl vstd::std_specs::convert::FromSpecImpl<Suit> for Color {
    open spec fn obeys_from_spec() -> bool {
        true
    }

    open spec fn from_spec(suit: Suit) -> Color {
        Color::of_suit(suit)
    }
}

impl PartialOrd for Color {
    fn partial_cmp(&self, other: &Self) -> (r: Option<Ordering>) {
        let a: usize = self.index();
        let b: usize = other.index();
        if a < b {
            Some(Ordering::Less)
        } else if a == b {
            Some(Ordering::Equal)
        } else {
            Some(Ordering::Greater)
        }
    }
}

impl vstd::std_specs::cmp::PartialOrdSpecImpl for Color {
    open spec fn obeys_partial_cmp_spec() -> bool {
        true
    }

    open spec fn partial_cmp_spec(&self, other: &Self) -> Option<Ordering> {
        if self.ordinal() < other.ordinal() {
            Some(Ordering::Less)
        } else if self.ordinal() == other.ordinal() {
            Some(Ordering::Equal)
        } else {
            Some(Ordering::Greater)
        }
    }
}

/// Both colors stand in the list of colors, once, at their own positions.
pub proof fn lemma_colors_complete()
    ensures
        Color::all().len() == 2,
        forall|c: Color| #[trigger] Color::all()[c.ordinal() as int] == c,
        forall|i: int| 0 <= i < 2 ==> (#[trigger] Color::all()[i]).ordinal() == i,
{
}

} // verus!
