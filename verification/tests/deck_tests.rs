use cards::{Card, Color, Deck, Rank, Suit};

fn sorted(mut cards: Vec<Card>) -> Vec<Card> {
    cards.sort();
    cards
}

fn four_aces() -> Vec<Card> {
    vec![
        Card::SuitCard(Suit::Clubs, Rank::Ace),
        Card::SuitCard(Suit::Diamonds, Rank::Ace),
        Card::SuitCard(Suit::Hearts, Rank::Ace),
        Card::SuitCard(Suit::Spades, Rank::Ace),
    ]
}

#[test]
fn new_decks_are_empty() {
    assert_eq!(Deck::new().iter().count(), 0);
    assert_eq!(Deck::with_capacity(54).iter().count(), 0);
    assert_eq!(Deck::default().iter().count(), 0);
    assert!(Deck::new().into_inner().is_empty());
}

#[test]
fn standard_and_full_deck_sizes() {
    assert_eq!(Deck::standard().iter().count(), 52);
    assert_eq!(Deck::full().iter().count(), 54);
}

#[test]
fn decks_follow_the_canonical_order() {
    assert_eq!(Deck::standard().into_inner(), Card::iter_standard().collect());
    assert_eq!(Deck::full().into_inner(), Card::iter_full().collect());
    let full = Deck::full();
    let cards = full.cards();
    assert_eq!(cards[0], Card::SuitCard(Suit::Clubs, Rank::Two));
    assert_eq!(cards[51], Card::SuitCard(Suit::Spades, Rank::Ace));
    assert_eq!(cards[52], Card::JokerCard(Color::Black));
    assert_eq!(cards[53], Card::JokerCard(Color::Red));
}

#[test]
fn iter_walks_bottom_to_top_and_leaves_the_deck() {
    let deck = Deck::from_inner(four_aces());
    let first: Vec<Card> = deck.iter().copied().collect();
    let second: Vec<Card> = deck.iter().copied().collect();
    assert_eq!(first, four_aces());
    assert_eq!(second, four_aces());
    assert_eq!(deck.cards(), &four_aces());
}

#[test]
fn draw_takes_the_last_card() {
    let mut deck = Deck::standard();
    assert_eq!(deck.draw(), Some(Card::SuitCard(Suit::Spades, Rank::Ace)));
    assert_eq!(deck.draw(), Some(Card::SuitCard(Suit::Hearts, Rank::Ace)));
    assert_eq!(deck.iter().count(), 50);

    let mut full = Deck::full();
    assert_eq!(full.draw(), Some(Card::JokerCard(Color::Red)));
    assert_eq!(full.draw(), Some(Card::JokerCard(Color::Black)));
}

#[test]
fn draw_on_an_empty_deck_gives_nothing() {
    let mut deck = Deck::new();
    assert_eq!(deck.draw(), None);
    assert_eq!(deck.draw(), None);
    assert_eq!(deck.iter().count(), 0);

    let mut one = Deck::from_inner(vec![Card::JokerCard(Color::Red)]);
    assert_eq!(one.draw(), Some(Card::JokerCard(Color::Red)));
    assert_eq!(one.draw(), None);
}

#[test]
fn put_adds_on_top() {
    let mut deck = Deck::new();
    deck.put(Card::SuitCard(Suit::Clubs, Rank::Five));
    deck.put(Card::JokerCard(Color::Black));
    deck.put(Card::SuitCard(Suit::Clubs, Rank::Five));
    assert_eq!(
        deck.cards(),
        &vec![
            Card::SuitCard(Suit::Clubs, Rank::Five),
            Card::JokerCard(Color::Black),
            Card::SuitCard(Suit::Clubs, Rank::Five),
        ]
    );
    assert_eq!(deck.draw(), Some(Card::SuitCard(Suit::Clubs, Rank::Five)));
    assert_eq!(deck.draw(), Some(Card::JokerCard(Color::Black)));
}

#[test]
fn draw_then_put_restores_the_deck() {
    let mut deck = Deck::full();
    let before = deck.cards().clone();
    let card = deck.draw().unwrap();
    deck.put(card);
    assert_eq!(deck.cards(), &before);

    let mut small = Deck::from_inner(four_aces());
    let card = small.draw().unwrap();
    small.put(card);
    assert_eq!(small.into_inner(), four_aces());
}

#[test]
fn inner_round_trip() {
    let cards = vec![
        Card::JokerCard(Color::Red),
        Card::SuitCard(Suit::Hearts, Rank::Ten),
        Card::JokerCard(Color::Red),
    ];
    assert_eq!(Deck::from_inner(cards.clone()).into_inner(), cards);
}

#[test]
fn clone_keeps_the_cards() {
    let deck = Deck::from_inner(four_aces());
    let mut copy = deck.clone();
    assert_eq!(copy.cards(), deck.cards());
    copy.draw();
    assert_eq!(deck.iter().count(), 4);
    assert_eq!(copy.iter().count(), 3);
}

#[test]
fn append_puts_the_other_deck_on_top() {
    let a1 = Card::SuitCard(Suit::Clubs, Rank::Two);
    let a2 = Card::SuitCard(Suit::Hearts, Rank::Jack);
    let b1 = Card::JokerCard(Color::Black);
    let b2 = Card::SuitCard(Suit::Spades, Rank::Nine);
    let mut a = Deck::from_inner(vec![a1, a2]);
    let b = Deck::from_inner(vec![b1, b2]);
    a.append(b);
    assert_eq!(a.cards(), &vec![a1, a2, b1, b2]);
    assert_eq!(a.draw(), Some(b2));

    let mut empty = Deck::new();
    empty.append(Deck::new());
    assert_eq!(empty.iter().count(), 0);

    let mut two_packs = Deck::standard();
    two_packs.append(Deck::standard());
    assert_eq!(two_packs.iter().count(), 104);
}

#[test]
fn reverse_inverts_the_order() {
    let a1 = Card::SuitCard(Suit::Clubs, Rank::Two);
    let a2 = Card::SuitCard(Suit::Hearts, Rank::Jack);
    let a3 = Card::JokerCard(Color::Red);
    let mut deck = Deck::from_inner(vec![a1, a2, a3]);
    deck.reverse();
    assert_eq!(deck.cards(), &vec![a3, a2, a1]);
    deck.reverse();
    assert_eq!(deck.cards(), &vec![a1, a2, a3]);

    let mut even = Deck::from_inner(four_aces());
    even.reverse();
    let mut expected = four_aces();
    expected.reverse();
    assert_eq!(even.cards(), &expected);

    let mut empty = Deck::new();
    empty.reverse();
    assert_eq!(empty.iter().count(), 0);

    let mut one = Deck::from_inner(vec![a1]);
    one.reverse();
    assert_eq!(one.into_inner(), vec![a1]);
}

#[test]
fn reverse_twice_restores_a_full_deck() {
    let mut deck = Deck::full();
    deck.reverse();
    assert_eq!(deck.cards()[0], Card::JokerCard(Color::Red));
    assert_eq!(deck.cards()[53], Card::SuitCard(Suit::Clubs, Rank::Two));
    deck.reverse();
    assert_eq!(deck.into_inner(), Deck::full().into_inner());
}

#[test]
fn shuffle_keeps_the_cards() {
    let mut deck = Deck::full();
    deck.append(Deck::standard());
    let before = sorted(deck.cards().clone());
    deck.shuffle();
    assert_eq!(deck.iter().count(), 106);
    assert_eq!(sorted(deck.into_inner()), before);

    let mut empty = Deck::new();
    empty.shuffle();
    assert_eq!(empty.iter().count(), 0);

    let mut one = Deck::from_inner(vec![Card::JokerCard(Color::Black)]);
    one.shuffle();
    assert_eq!(one.into_inner(), vec![Card::JokerCard(Color::Black)]);
}

#[test]
fn shuffle_changes_the_order() {
    let canonical = Deck::full().into_inner();
    let mut changed = 0;
    for _ in 0..5 {
        let mut deck = Deck::full();
        deck.shuffle();
        if deck.cards() != &canonical {
            changed += 1;
        }
    }
    assert!(changed >= 4);
}

#[test]
fn shuffle_is_close_to_uniform() {
    let aces = four_aces();
    let trials = 8000;
    let mut seen = [[0u32; 4]; 4];
    for _ in 0..trials {
        let mut deck = Deck::from_inner(aces.clone());
        deck.shuffle();
        for (place, card) in deck.iter().enumerate() {
            let which = aces.iter().position(|c| c == card).unwrap();
            seen[place][which] += 1;
        }
    }
    for row in seen {
        assert_eq!(row.iter().sum::<u32>(), trials);
        for count in row {
            assert!(count > 1700 && count < 2300, "count {}", count);
        }
    }
}
