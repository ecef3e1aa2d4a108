//! A deck: cards in an order, with a top to draw from and to put on.

use crate::card::Card;
use crate::random::shuffle;
use crate::sequence::{full_cards, standard_cards};
use rand::thread_rng;
use vstd::prelude::*;
use vstd::std_specs::slice::into_iter_elts;

verus! {

/// A "deck" of cards is an ordered collection. The last card is the top.
/// A card may be in it more than once.
#[derive(Debug)]
pub struct Deck {
    cards: Vec<Card>,
}

impl View for Deck {
    type V = Seq<Card>;

    closed spec fn view(&self) -> Seq<Card> {
        self.cards@
    }
}

impl Deck {
    /// Make a new empty deck.
    pub fn new() -> (deck: Self)
        ensures
            deck@ == Seq::<Card>::empty(),
    {
        Self { cards: Vec::new() }
    }

    /// Make a new empty deck with reserved space
    /// for `capacity` cards.
    pub fn with_capacity(capacity: usize) -> (deck: Self)
        ensures
            deck@ == Seq::<Card>::empty(),
    {
        Self { cards: Vec::with_capacity(capacity) }
    }

    /// Make a new standard deck.
    pub fn standard() -> (deck: Self)
        ensures
            deck@ == standard_cards(),
            deck@.len() == 52,
    {
        Self { cards: Card::iter_standard().collect() }
    }

    /// Make a new standard deck with jokers.
    pub fn full() -> (deck: Self)
        ensures
            deck@ == full_cards(),
            deck@.len() == 54,
    {
        Self { cards: Card::iter_full().collect() }
    }

    /// Iterator over the current deck, bottom first. The deck stays as it
    /// is.
    pub fn iter(&self) -> (iter: std::slice::Iter<'_, Card>)
        ensures
            into_iter_elts(iter) == self@,
    {
        let iter = self.cards.iter();
        assert(into_iter_elts(iter) =~= self@);
        iter
    }

    /// Pop the top card off the current deck.
    pub fn draw(&mut self) -> (card: Option<Card>)
        ensures
            old(self)@.len() > 0 ==> card == Some(old(self)@.last()) && final(self)@ == old(
                self,
            )@.drop_last(),
            old(self)@.len() == 0 ==> card.is_none() && final(self)@ == old(self)@,
    {
        self.cards.pop()
    }

    /// Put `card` on top of the current deck.
    pub fn put(&mut self, card: Card)
        ensures
            final(self)@ == old(self)@.push(card),
    {
        self.cards.push(card)
    }

    /// Get the underlying deck as a vector.
    pub fn into_inner(self) -> (cards: Vec<Card>)
        ensures
            cards@ == self@,
    {
        self.cards
    }

    /// Make a vector of cards into a deck.
    pub fn from_inner(cards: Vec<Card>) -> (deck: Self)
        ensures
            deck@ == cards@,
    {
        Self { cards }
    }

    /// The cards of the deck, bottom first.
    pub fn cards(&self) -> (cards: &Vec<Card>)
        ensures
            cards@ == self@,
    {
        &self.cards
    }

    /// Move all the cards of `other` onto the top
    /// of this deck, in the order they appear.
    pub fn append(&mut self, other: Self)
        ensures
            final(self)@ == old(self)@ + other@,
    {
        let mut other = other;
        self.cards.append(&mut other.cards);
    }

    /// Reverse the order of cards in this deck.
    pub fn reverse(&mut self)
        ensures
            final(self)@ == old(self)@.reverse(),
    {
        let n: usize = self.cards.len();
        let mut i: usize = 0;
        while i < n / 2
            invariant
                n == old(self)@.len(),
                self@.len() == n,
                i <= n / 2,
                forall|k: int| 0 <= k < i ==> self@[k] == old(self)@[n - 1 - k],
                forall|k: int| n - i <= k < n ==> self@[k] == old(self)@[n - 1 - k],
                forall|k: int| i <= k < n - i ==> self@[k] == old(self)@[k],
            decreases n / 2 - i,
        {
            let low = self.cards[i];
            let high = self.cards[n - 1 - i];
            self.cards[i] = high;
            self.cards[n - 1 - i] = low;
            i += 1;
        }
        assert(self@ =~= old(self)@.reverse());
    }

    /// Shuffle the current deck: the same cards, each as often as before,
    /// in an order that chance picks.
    ///
    /// The order is drawn from the calling thread's random generator, which
    /// the system seeds. Where the system can give no seed, at the thread's
    /// first draw or when the generator seeds itself anew, the program stops
    /// here: that is a state of the machine, which no caller can rule out.
    pub fn shuffle(&mut self)
        ensures
            final(self)@.to_multiset() == old(self)@.to_multiset(),
            final(self)@.len() == old(self)@.len(),
    {
        let mut rng = thread_rng();
        shuffle(&mut self.cards, &mut rng);
        proof {
            old(self)@.to_multiset_ensures();
            self@.to_multiset_ensures();
        }
    }
}

impl Clone for Deck {
    fn clone(&self) -> (deck: Self)
        ensures
            deck@ == self@,
    {
        Self { cards: self.cards.clone() }
    }
}

impl Default for Deck {
    fn default() -> (deck: Self)
        ensures
            deck@ == Seq::<Card>::empty(),
    {
        Self { cards: Vec::new() }
    }
}

/// To draw a card and put it back at once leaves the deck as it was: the
/// same cards in the same order.
pub proof fn lemma_draw_then_put(cards: Seq<Card>)
    requires
        cards.len() > 0,
    ensures
        cards.drop_last().push(cards.last()) == cards,
{
    assert(cards.drop_last().push(cards.last()) =~= cards);
}

/// To put a card and draw at once hands that card back and leaves the deck
/// as it was.
pub proof fn lemma_put_then_draw(cards: Seq<Card>, card: Card)
    ensures
        cards.push(card).last() == card,
        cards.push(card).drop_last() == cards,
{
    assert(cards.push(card).drop_last() =~= cards);
}

/// To reverse a deck twice restores its order.
pub proof fn lemma_reverse_twice(cards: Seq<Card>)
    ensures
        cards.reverse().reverse() == cards,
{
    assert(cards.reverse().reverse() =~= cards);
}

/// A reversed deck holds the same cards, each as often as before.
pub proof fn lemma_reverse_keeps_cards(cards: Seq<Card>)
    ensures
        cards.reverse().to_multiset() == cards.to_multiset(),
        cards.reverse().len() == cards.len(),
{
    cards.lemma_reverse_to_multiset();
}

} // verus!
