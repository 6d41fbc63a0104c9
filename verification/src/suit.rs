//! The four suits and the fixed order in which a deck runs through them.

use vstd::prelude::*;

verus! {

/// One of the four groups that a card belongs to.
///
/// The order of the variants is the order in which a deck is laid out; it
/// ranks nothing.
#[derive(Clone, Copy, Debug, PartialEq, Eq, Structural)]
pub enum Suit {
    Diamonds,
    Hearts,
    Clubs,
    Spades,
}

impl Suit {
    /// All suits, in layout order.
    pub const SUITS: [Suit; 4] = [Suit::Diamonds, Suit::Hearts, Suit::Clubs, Suit::Spades];

    /// The position of this suit in the layout order.
    pub open spec fn position(self) -> int {
        match self {
            Suit::Diamonds => 0,
            Suit::Hearts => 1,
            Suit::Clubs => 2,
            Suit::Spades => 3,
        }
    }

    /// The suit's name as a sequence of characters.
    pub open spec fn name_text(self) -> Seq<char> {
        match self {
            Suit::Diamonds => "Diamonds"@,
            Suit::Hearts => "Hearts"@,
            Suit::Clubs => "Clubs"@,
            Suit::Spades => "Spades"@,
        }
    }

    /// The suit's name, unabbreviated.
    pub fn name(&self) -> (text: &'static str)
        ensures
            text@ == self.name_text(),
    {
        match self {
            Suit::Diamonds => "Diamonds",
            Suit::Hearts => "Hearts",
            Suit::Clubs => "Clubs",
            Suit::Spades => "Spades",
        }
    }
}

} // verus!
