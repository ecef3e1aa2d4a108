//! The canonical order of a pack, and the sequence that walks it.

use crate::card::Card;
use crate::color::Color;
use crate::rank::Rank;
use crate::suit::Suit;
use vstd::prelude::*;

verus! {

/// The fifty-two suit cards in canonical order: rank by rank from the two
/// to the ace, and within each rank suit by suit in the suits' own order.
pub open spec fn standard_cards() -> Seq<Card> {
    Seq::new(52, |i: int| Card::SuitCard(Suit::all()[i % 4], Rank::all()[i / 4]))
}

/// The place of a suit card among the standard cards: rank first, then
/// suit.
pub open spec fn place(suit: Suit, rank: Rank) -> int {
    (rank.ordinal() * 4 + suit.ordinal()) as int
}

/// The jokers in canonical order: one of each color, in the colors' own
/// order.
pub open spec fn joker_cards() -> Seq<Card> {
    Seq::new(2, |i: int| Card::JokerCard(Color::all()[i]))
}

/// The fifty-two suit cards in canonical order, and the two jokers after
/// them.
pub open spec fn full_cards() -> Seq<Card> {
    standard_cards() + joker_cards()
}

/// All cards of a pack in canonical order, with or without the jokers.
pub open spec fn pack_cards(jokers: bool) -> Seq<Card> {
    if jokers {
        full_cards()
    } else {
        standard_cards()
    }
}

/// A walk through the cards of a pack in canonical order. Its view is
/// what is still to come.
pub struct IterCards {
    rank: usize,
    suit: usize,
    jokers: bool,
}

impl View for IterCards {
    type V = Seq<Card>;

    closed spec fn view(&self) -> Seq<Card> {
        pack_cards(self.jokers).skip(self.rank * 4 + self.suit)
    }
}

impl IterCards {
    #[verifier::type_invariant]
    spec fn well_formed(self) -> bool {
        &&& self.rank <= 13
        &&& self.rank < 13 ==> self.suit < 4
        &&& self.rank == 13 ==> self.suit <= (if self.jokers { 2usize } else { 0usize })
    }

    /// Get a walk over the standard cards.
    pub fn standard() -> (cards: IterCards)
        ensures
            cards@ == standard_cards(),
    {
        let cards = IterCards { rank: 0, suit: 0, jokers: false };
        assert(cards@ =~= standard_cards());
        cards
    }

    /// Get a walk over the standard cards and jokers.
    pub fn full() -> (cards: IterCards)
        ensures
            cards@ == full_cards(),
    {
        let cards = IterCards { rank: 0, suit: 0, jokers: true };
        assert(cards@ =~= full_cards());
        cards
    }

    /// Hand out the next card, if one is left, and step past it. At the
    /// end nothing is handed out and nothing changes.
    pub fn next(&mut self) -> (card: Option<Card>)
        ensures
            old(self)@.len() > 0 ==> card == Some(old(self)@[0]) && final(self)@ == old(self)@.skip(1),
            old(self)@.len() == 0 ==> card.is_none() && final(self)@ == old(self)@,
    {
        proof {
            use_type_invariant(&*self);
        }
        let ranks = Rank::values();
        let suits = Suit::values();
        let colors = Color::values();
        if self.rank >= ranks.len() {
            return None;
        }
        if self.rank == ranks.len() - 1 {
            if !self.jokers || self.suit >= colors.len() {
                return None;
            }
            let result = Card::JokerCard(colors[self.suit]);
            self.suit += 1;
            assert(self@ =~= old(self)@.skip(1));
            return Some(result);
        }
        let result = Card::SuitCard(suits[self.suit], ranks[self.rank]);
        if self.suit + 1 >= suits.len() {
            self.suit = 0;
            self.rank += 1;
        } else {
            self.suit += 1;
        }
        assert(self@ =~= old(self)@.skip(1));
        Some(result)
    }

    /// Walk to the end and gather the cards that were still to come, in
    /// order.
    pub fn collect(self) -> (cards: Vec<Card>)
        ensures
            cards@ == self@,
    {
        let mut walk = self;
        let mut cards: Vec<Card> = Vec::new();
        loop
            invariant
                cards@ + walk@ == self@,
            ensures
                cards@ == self@,
            decreases walk@.len(),
        {
            match walk.next() {
                Some(card) => {
                    cards.push(card);
                    assert(cards@ + walk@ =~= self@);
                },
                None => {
                    assert(cards@ =~= self@);
                    break;
                },
            }
        }
        cards
    }
}

/// The standard cards are the fifty-two pairs of a suit and a rank below
/// the joker's, each at the place that its rank and then its suit give it:
/// the four suits of the two first, the four suits of the ace last.
pub proof fn lemma_standard_cards_order()
    ensures
        standard_cards().len() == 52,
        forall|suit: Suit, rank: Rank|
            rank != Rank::Joker ==> 0 <= #[trigger] place(suit, rank) < 52 && standard_cards()[place(
                suit,
                rank,
            )] == Card::SuitCard(suit, rank),
        forall|i: int|
            0 <= i < 52 ==> #[trigger] standard_cards()[i] == Card::SuitCard(
                Suit::all()[i % 4],
                Rank::all()[i / 4],
            ),
        forall|i: int| 0 <= i < 52 ==> (#[trigger] standard_cards()[i]).is_valid(),
{
}

/// No card stands twice among the standard cards: each pair of a suit and a
/// rank is found at one place only.
pub proof fn lemma_standard_cards_distinct()
    ensures
        forall|i: int, j: int|
            0 <= i < 52 && 0 <= j < 52 && i != j ==> #[trigger] standard_cards()[i]
                != #[trigger] standard_cards()[j],
        forall|i: int, suit: Suit, rank: Rank|
            0 <= i < 52 && #[trigger] standard_cards()[i] == Card::SuitCard(suit, rank) ==> i
                == #[trigger] place(suit, rank),
        standard_cards().no_duplicates(),
{
    assert forall|i: int, j: int| 0 <= i < 52 && 0 <= j < 52 && i != j implies #[trigger]
        standard_cards()[i] != #[trigger] standard_cards()[j] by {
        if i % 4 == j % 4 {
            assert(i / 4 != j / 4);
            assert(Rank::all()[i / 4].ordinal() == i / 4);
            assert(Rank::all()[j / 4].ordinal() == j / 4);
        } else {
            assert(Suit::all()[i % 4].ordinal() == i % 4);
            assert(Suit::all()[j % 4].ordinal() == j % 4);
        }
    }
    assert forall|i: int, suit: Suit, rank: Rank|
        0 <= i < 52 && #[trigger] standard_cards()[i] == Card::SuitCard(suit, rank) implies i
        == #[trigger] place(suit, rank) by {
        assert(Rank::all()[i / 4].ordinal() == i / 4);
        assert(Suit::all()[i % 4].ordinal() == i % 4);
    }
}

/// The full pack is the standard cards in their order, then the black
/// joker, then the red one.
pub proof fn lemma_full_cards_order()
    ensures
        full_cards().len() == 54,
        full_cards().subrange(0, 52) == standard_cards(),
        full_cards().subrange(52, 54) == joker_cards(),
        full_cards()[52] == Card::JokerCard(Color::Black),
        full_cards()[53] == Card::JokerCard(Color::Red),
        forall|i: int| 0 <= i < 54 ==> (#[trigger] full_cards()[i]).is_valid(),
        full_cards().no_duplicates(),
{
    assert(full_cards().subrange(0, 52) =~= standard_cards());
    assert(full_cards().subrange(52, 54) =~= joker_cards());
    lemma_standard_cards_distinct();
}

} // verus!
