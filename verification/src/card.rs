//! A playing card: a suit and a rank, or a joker of one color.

use crate::color::Color;
use crate::rank::Rank;
use crate::sequence::{full_cards, standard_cards, IterCards};
use crate::suit::Suit;
use std::cmp::Ordering;
use vstd::std_specs::cmp::PartialOrdSpec;
use vstd::prelude::*;
use vstd::string::StringExecFns;

verus! {

/// A playing card.
///
/// Cards are ordered by shape first, every suit card below every joker;
/// suit cards then by suit and by rank, jokers by color.
#[derive(Clone, Copy, PartialEq, Eq, Structural, Ord, Debug, Hash)]
pub enum Card {
    /// A card of a suit, with a rank.
    SuitCard(Suit, Rank),
    /// A black or a red joker.
    JokerCard(Color),
}

impl Card {
    /// A suit card is valid when its rank is not the joker's. Every joker is
    /// valid.
    pub open spec fn is_valid(self) -> bool {
        match self {
            Card::SuitCard(_, rank) => rank != Rank::Joker,
            Card::JokerCard(_) => true,
        }
    }

    /// The rank of this card: the joker's for a joker.
    pub open spec fn spec_rank(self) -> Rank {
        match self {
            Card::SuitCard(_, rank) => rank,
            Card::JokerCard(_) => Rank::Joker,
        }
    }

    /// The suit of this card: none for a joker.
    pub open spec fn spec_suit(self) -> Option<Suit> {
        match self {
            Card::SuitCard(suit, _) => Some(suit),
            Card::JokerCard(_) => None,
        }
    }

    /// The color of this card: its suit's, or the joker's own.
    pub open spec fn spec_color(self) -> Color {
        match self {
            Card::SuitCard(suit, _) => Color::of_suit(suit),
            Card::JokerCard(color) => color,
        }
    }

    /// This card as text: the rank and then the suit's letter, or for a
    /// joker the color's letter and then the joker's mark.
    pub open spec fn glyphs(self) -> Seq<char> {
        match self {
            Card::SuitCard(suit, rank) => rank.glyphs().push(suit.glyph()),
            Card::JokerCard(color) => seq![color.glyph()] + Rank::Joker.glyphs(),
        }
    }

    /// What cards are ordered by: the shape, then the suit or the color,
    /// then the rank.
    pub open spec fn sort_key(self) -> (nat, nat, nat) {
        match self {
            Card::SuitCard(suit, rank) => (0, suit.ordinal(), rank.ordinal()),
            Card::JokerCard(color) => (1, color.ordinal(), 0),
        }
    }

    /// Rank of this card.
    #[verifier::when_used_as_spec(spec_rank)]
    pub fn rank(self) -> (rank: Rank)
        ensures
            rank == self.spec_rank(),
    {
        match self {
            Card::JokerCard(_) => Rank::Joker,
            Card::SuitCard(_, rank) => rank,
        }
    }

    /// Suit of this card.
    #[verifier::when_used_as_spec(spec_suit)]
    pub fn suit(self) -> (suit: Option<Suit>)
        ensures
            suit == self.spec_suit(),
    {
        match self {
            Card::JokerCard(_) => None,
            Card::SuitCard(suit, _) => Some(suit),
        }
    }

    /// Color of this card: red or black.
    #[verifier::when_used_as_spec(spec_color)]
    pub fn color(self) -> (color: Color)
        ensures
            color == self.spec_color(),
    {
        match self {
            Card::JokerCard(color) => color,
            Card::SuitCard(suit, _) => Color::from(suit),
        }
    }

    /// Get an iterator over the standard cards.
    pub fn iter_standard() -> (cards: IterCards)
        ensures
            cards@ == standard_cards(),
    {
        IterCards::standard()
    }

    /// Get an iterator over the standard cards and jokers.
    pub fn iter_full() -> (cards: IterCards)
        ensures
            cards@ == full_cards(),
    {
        IterCards::full()
    }

    /// This card as text.
    pub fn to_string(&self) -> (s: String)
        ensures
            s@ == self.glyphs(),
    {
        match self {
            Card::SuitCard(suit, rank) => {
                let mut s = rank.to_string();
                let t = suit.to_string();
                s.append(t.as_str());
                assert(s@ =~= self.glyphs());
                s
            },
            Card::JokerCard(color) => {
                let mut s = color.to_string();
                let t = Rank::Joker.to_string();
                s.append(t.as_str());
                assert(s@ =~= self.glyphs());
                s
            },
        }
    }

    fn key(self) -> (k: (usize, usize, usize))
        ensures
            k.0 == self.sort_key().0,
            k.1 == self.sort_key().1,
            k.2 == self.sort_key().2,
    {
        match self {
            Card::SuitCard(suit, rank) => (0, suit.index(), rank.index()),
            Card::JokerCard(color) => (1, color.index(), 0),
        }
    }
}

impl PartialOrd for Card {
    fn partial_cmp(&self, other: &Self) -> (r: Option<Ordering>) {
        let a = self.key();
        let b = other.key();
        if a.0 < b.0 || (a.0 == b.0 && (a.1 < b.1 || (a.1 == b.1 && a.2 < b.2))) {
            Some(Ordering::Less)
        } else if a.0 == b.0 && a.1 == b.1 && a.2 == b.2 {
            Some(Ordering::Equal)
        } else {
            Some(Ordering::Greater)
        }
    }
}

impl vstd::std_specs::cmp::PartialOrdSpecImpl for Card {
    open spec fn obeys_partial_cmp_spec() -> bool {
        true
    }

    open spec fn partial_cmp_spec(&self, other: &Self) -> Option<Ordering> {
        let a = self.sort_key();
        let b = other.sort_key();
        if a.0 < b.0 || (a.0 == b.0 && (a.1 < b.1 || (a.1 == b.1 && a.2 < b.2))) {
            Some(Ordering::Less)
        } else if a == b {
            Some(Ordering::Equal)
        } else {
            Some(Ordering::Greater)
        }
    }
}

/// All jokers have one rank, whatever their colors, and it is above the
/// rank of every valid suit card.
pub proof fn lemma_joker_rank(a: Color, b: Color, suit: Suit, rank: Rank)
    requires
        Card::SuitCard(suit, rank).is_valid(),
    ensures
        Card::JokerCard(a).rank() == Card::JokerCard(b).rank(),
        Card::SuitCard(suit, rank).rank().ordinal() < Card::JokerCard(a).rank().ordinal(),
        Card::SuitCard(suit, rank).rank().partial_cmp_spec(&Card::JokerCard(a).rank()) == Some(
            Ordering::Less,
        ),
{
}

/// The order of cards agrees with their equality: two cards compare as
/// equal only when they are the same card, and of two different cards one
/// is below the other.
pub proof fn lemma_order_agrees_with_equality(a: Card, b: Card)
    ensures
        a.partial_cmp_spec(&b) == Some(Ordering::Equal) <==> a == b,
        a.partial_cmp_spec(&b) == Some(Ordering::Less) <==> b.partial_cmp_spec(&a) == Some(
            Ordering::Greater,
        ),
{
}

} // verus!
