//! A deck of playing cards: fourteen ranks in four suits, built in a fixed
//! order, shuffled in place and rendered as text.

pub mod card;
pub mod decimal;
pub mod deck;
pub mod shuffle;
pub mod suit;

pub use card::Card;
pub use deck::create_deck;
pub use shuffle::shuffle_cards;
pub use suit::Suit;
