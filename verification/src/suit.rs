//! The four suits of a pack.

use std::cmp::Ordering;
use vstd::prelude::*;

verus! {

/// A suit. The suits are ordered as they are declared: clubs lowest,
/// spades highest.
#[derive(Clone, Copy, PartialEq, Eq, Structural, Ord, Debug, Hash)]
pub enum Suit {
    Clubs,
    Diamonds,
    Hearts,
    Spades,
}

impl Suit {
    /// The position of this suit in declaration order.
    pub open spec fn ordinal(self) -> nat {
        match self {
            Suit::Clubs => 0,
            Suit::Diamonds => 1,
            Suit::Hearts => 2,
            Suit::Spades => 3,
        }
    }

    /// All suits, in declaration order.
    pub open spec fn all() -> Seq<Suit> {
        seq![Suit::Clubs, Suit::Diamonds, Suit::Hearts, Suit::Spades]
    }

    /// The letter that stands for this suit.
    pub open spec fn glyph(self) -> char {
        match self {
            Suit::Clubs => 'C',
            Suit::Diamonds => 'D',
            Suit::Hearts => 'H',
            Suit::Spades => 'S',
        }
    }

    /// The position of this suit in declaration order.
    pub fn index(self) -> (i: usize)
        ensures
            i == self.ordinal(),
            i < 4,
            Suit::all()[i as int] == self,
    {
        match self {
            Suit::Clubs => 0,
            Suit::Diamonds => 1,
            Suit::Hearts => 2,
            Suit::Spades => 3,
        }
    }

    /// All suits, in declaration order.
    pub fn values() -> (v: [Suit; 4])
        ensures
            v@ == Suit::all(),
    {
        let v = [Suit::Clubs, Suit::Diamonds, Suit::Hearts, Suit::Spades];
        assert(v@ =~= Suit::all());
        v
    }

    /// This suit as text: its letter.
    pub fn to_string(&self) -> (s: String)
        ensures
            s@ == seq![self.glyph()],
    {
        proof {
            reveal_strlit("C");
            reveal_strlit("D");
            reveal_strlit("H");
            reveal_strlit("S");
        }
        let s = match self {
            Suit::Clubs => "C".to_owned(),
            Suit::Diamonds => "D".to_owned(),
            Suit::Hearts => "H".to_owned(),
            Suit::Spades => "S".to_owned(),
        };
        assert(s@ =~= seq![self.glyph()]);
        s
    }
}

impl PartialOrd for Suit {
    fn partial_cmp(&self, other: &Self) -> (r: Option<Ordering>) {
        let a: usize = self.index();
        let b: usize = other.index();
        if a < b {
            Some(Ordering::Less)
        } else if a == b {
            Some(Ordering::Equal)
        } else {
            Some(Ordering::Greater)
        }
    }
}

impl vstd::std_specs::cmp::PartialOrdSpecImpl for Suit {
    open spec fn obeys_partial_cmp_spec() -> bool {
        true
    }

    open spec fn partial_cmp_spec(&self, other: &Self) -> Option<Ordering> {
        if self.ordinal() < other.ordinal() {
            Some(Ordering::Less)
        } else if self.ordinal() == other.ordinal() {
            Some(Ordering::Equal)
        } else {
            Some(Ordering::Greater)
        }
    }
}

/// Every suit stands in the list of all suits, once, at its own position.
pub proof fn lemma_suits_complete()
    ensures
        Suit::all().len() == 4,
        forall|s: Suit| #[trigger] Suit::all()[s.ordinal() as int] == s,
        forall|i: int| 0 <= i < 4 ==> (#[trigger] Suit::all()[i]).ordinal() == i,
{
}

} // verus!
