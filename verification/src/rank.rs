//! The ranks of a pack, the joker's among them.

use std::cmp::Ordering;
use vstd::std_specs::cmp::PartialOrdSpec;
use vstd::prelude::*;

verus! {

/// A rank. The ranks are ordered as they are declared: two lowest, then
/// the other numbers, the faces, the ace, and the joker above all.
#[derive(Clone, Copy, PartialEq, Eq, Structural, Ord, Debug, Hash)]
pub enum Rank {
    Two,
    Three,
    Four,
    Five,
    Six,
    Seven,
    Eight,
    Nine,
    Ten,
    Jack,
    Queen,
    King,
    Ace,
    Joker,
}

impl Rank {
    /// The position of this rank in declaration order.
    pub open spec fn ordinal(self) -> nat {
        match self {
            Rank::Two => 0,
            Rank::Three => 1,
            Rank::Four => 2,
            Rank::Five => 3,
            Rank::Six => 4,
            Rank::Seven => 5,
            Rank::Eight => 6,
            Rank::Nine => 7,
            Rank::Ten => 8,
            Rank::Jack => 9,
            Rank::Queen => 10,
            Rank::King => 11,
            Rank::Ace => 12,
            Rank::Joker => 13,
        }
    }

    /// All ranks, in declaration order.
    pub open spec fn all() -> Seq<Rank> {
        seq![
            Rank::Two,
            Rank::Three,
            Rank::Four,
            Rank::Five,
            Rank::Six,
            Rank::Seven,
            Rank::Eight,
            Rank::Nine,
            Rank::Ten,
            Rank::Jack,
            Rank::Queen,
            Rank::King,
            Rank::Ace,
            Rank::Joker,
        ]
    }

    /// This rank as text: the decimal number of a number rank, the initial
    /// of a face or of the ace, a question mark for the joker.
    pub open spec fn glyphs(self) -> Seq<char> {
        match self {
            Rank::Two => seq!['2'],
            Rank::Three => seq!['3'],
            Rank::Four => seq!['4'],
            Rank::Five => seq!['5'],
            Rank::Six => seq!['6'],
            Rank::Seven => seq!['7'],
            Rank::Eight => seq!['8'],
            Rank::Nine => seq!['9'],
            Rank::Ten => seq!['1', '0'],
            Rank::Jack => seq!['J'],
            Rank::Queen => seq!['Q'],
            Rank::King => seq!['K'],
            Rank::Ace => seq!['A'],
            Rank::Joker => seq!['?'],
        }
    }

    /// The position of this rank in declaration order.
    pub fn index(self) -> (i: usize)
        ensures
            i == self.ordinal(),
            i < 14,
            Rank::all()[i as int] == self,
    {
        match self {
            Rank::Two => 0,
            Rank::Three => 1,
            Rank::Four => 2,
            Rank::Five => 3,
            Rank::Six => 4,
            Rank::Seven => 5,
            Rank::Eight => 6,
            Rank::Nine => 7,
            Rank::Ten => 8,
            Rank::Jack => 9,
            Rank::Queen => 10,
            Rank::King => 11,
            Rank::Ace => 12,
            Rank::Joker => 13,
        }
    }

    /// All ranks, in declaration order.
    pub fn values() -> (v: [Rank; 14])
        ensures
            v@ == Rank::all(),
    {
        let v = [
            Rank::Two,
            Rank::Three,
            Rank::Four,
            Rank::Five,
            Rank::Six,
            Rank::Seven,
            Rank::Eight,
            Rank::Nine,
            Rank::Ten,
            Rank::Jack,
            Rank::Queen,
            Rank::King,
            Rank::Ace,
            Rank::Joker,
        ];
        assert(v@ =~= Rank::all());
        v
    }

    /// This rank as text.
    pub fn to_string(&self) -> (s: String)
        ensures
            s@ == self.glyphs(),
    {
        proof {
            reveal_strlit("2");
            reveal_strlit("3");
            reveal_strlit("4");
            reveal_strlit("5");
            reveal_strlit("6");
            reveal_strlit("7");
            reveal_strlit("8");
            reveal_strlit("9");
            reveal_strlit("10");
            reveal_strlit("J");
            reveal_strlit("Q");
            reveal_strlit("K");
            reveal_strlit("A");
            reveal_strlit("?");
        }
        let s = match self {
            Rank::Two => "2".to_owned(),
            Rank::Three => "3".to_owned(),
            Rank::Four => "4".to_owned(),
            Rank::Five => "5".to_owned(),
            Rank::Six => "6".to_owned(),
            Rank::Seven => "7".to_owned(),
            Rank::Eight => "8".to_owned(),
            Rank::Nine => "9".to_owned(),
            Rank::Ten => "10".to_owned(),
            Rank::Jack => "J".to_owned(),
            Rank::Queen => "Q".to_owned(),
            Rank::King => "K".to_owned(),
            Rank::Ace => "A".to_owned(),
            Rank::Joker => "?".to_owned(),
        };
        assert(s@ =~= self.glyphs());
        s
    }
}

impl PartialOrd for Rank {
    fn partial_cmp(&self, other: &Self) -> (r: Option<Ordering>) {
        let a: usize = self.index();
        let b: usize = other.index();
        if a < b {
            Some(Ordering::Less)
        } else if a == b {
            Some(Ordering::Equal)
        } else {
            Some(Ordering::Greater)
        }
    }
}

impl vstd::std_specs::cmp::PartialOrdSpecImpl for Rank {
    open spec fn obeys_partial_cmp_spec() -> bool {
        true
    }

    open spec fn partial_cmp_spec(&self, other: &Self) -> Option<Ordering> {
        if self.ordinal() < other.ordinal() {
            Some(Ordering::Less)
        } else if self.ordinal() == other.ordinal() {
            Some(Ordering::Equal)
        } else {
            Some(Ordering::Greater)
        }
    }
}

/// Every rank stands in the list of all ranks, once, at its own position.
pub proof fn lemma_ranks_complete()
    ensures
        Rank::all().len() == 14,
        forall|r: Rank| #[trigger] Rank::all()[r.ordinal() as int] == r,
        forall|i: int| 0 <= i < 14 ==> (#[trigger] Rank::all()[i]).ordinal() == i,
{
}

/// The joker is the highest rank: every other rank is below it.
pub proof fn lemma_joker_is_highest(rank: Rank)
    ensures
        rank.ordinal() <= Rank::Joker.ordinal(),
        rank != Rank::Joker ==> rank.partial_cmp_spec(&Rank::Joker) == Some(Ordering::Less),
{
}

} // verus!
