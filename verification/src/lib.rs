//! Playing cards: suits, ranks and colors, the cards built from them, the
//! canonical order of a pack, and a deck that can be shuffled, drawn from
//! and combined with another.

pub mod card;
pub mod color;
pub mod deck;
pub mod random;
pub mod rank;
pub mod sequence;
pub mod suit;

pub use card::Card;
pub use color::Color;
pub use deck::Deck;
pub use rank::Rank;
pub use sequence::IterCards;
pub use suit::Suit;
