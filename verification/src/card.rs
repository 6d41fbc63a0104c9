//! A single playing card: how a rank and a suit make one, and how it reads.

use crate::decimal::{decimal, decimal_text};
use crate::suit::Suit;
use vstd::prelude::*;
use vstd::string::StringExecFns;

verus! {

/// A playing card. Only a number card stores its rank; every other card is
/// known by its variant.
#[derive(Clone, Copy, Debug, PartialEq, Eq, Structural)]
pub enum Card {
    Ace(Suit),
    Number(usize, Suit),
    Jack(Suit),
    Queen(Suit),
    King(Suit),
    Joker(Suit),
}

impl Card {
    /// The card that a rank and a suit make. Rank 1 is the ace, 2 to 10 the
    /// number cards, 11 to 13 jack, queen and king; every other rank, below
    /// or above, is a joker.
    pub open spec fn classify(rank: int, suit: Suit) -> Card {
        if rank == 1 {
            Card::Ace(suit)
        } else if 2 <= rank <= 10 {
            Card::Number(rank as usize, suit)
        } else if rank == 11 {
            Card::Jack(suit)
        } else if rank == 12 {
            Card::Queen(suit)
        } else if rank == 13 {
            Card::King(suit)
        } else {
            Card::Joker(suit)
        }
    }

    /// A number card holds a rank from 2 to 10.
    pub open spec fn wf(self) -> bool {
        match self {
            Card::Number(n, _) => 2 <= n <= 10,
            _ => true,
        }
    }

    /// The card's suit.
    pub open spec fn suit(self) -> Suit {
        match self {
            Card::Ace(s) => s,
            Card::Number(_, s) => s,
            Card::Jack(s) => s,
            Card::Queen(s) => s,
            Card::King(s) => s,
            Card::Joker(s) => s,
        }
    }

    /// The card's rank, with 14 standing for the joker.
    pub open spec fn rank(self) -> int {
        match self {
            Card::Ace(_) => 1,
            Card::Number(n, _) => n as int,
            Card::Jack(_) => 11,
            Card::Queen(_) => 12,
            Card::King(_) => 13,
            Card::Joker(_) => 14,
        }
    }

    /// What the card is called apart from its suit: the name of its variant,
    /// or the stored rank in decimal notation.
    pub open spec fn face_text(self) -> Seq<char> {
        match self {
            Card::Ace(_) => "Ace"@,
            Card::Number(n, _) => decimal_text(n as nat),
            Card::Jack(_) => "Jack"@,
            Card::Queen(_) => "Queen"@,
            Card::King(_) => "King"@,
            Card::Joker(_) => "Joker"@,
        }
    }

    /// The card as text: face and suit in square brackets, joined by `of`.
    pub open spec fn text(self) -> Seq<char> {
        "["@ + self.face_text() + " of "@ + self.suit().name_text() + "]"@
    }

    /// Makes the card of rank `n` in `suit`.
    pub fn new(n: usize, suit: Suit) -> (card: Card)
        ensures
            card == Card::classify(n as int, suit),
            card.wf(),
    {
        match n {
            1 => Card::Ace(suit),
            2..=10 => Card::Number(n, suit),
            11 => Card::Jack(suit),
            12 => Card::Queen(suit),
            13 => Card::King(suit),
            _ => Card::Joker(suit),
        }
    }

    /// Renders the card, as in `[7 of Hearts]` or `[Joker of Spades]`.
    pub fn render(&self) -> (text: String)
        ensures
            text@ == self.text(),
    {
        let (face, suit): (String, Suit) = match *self {
            Card::Ace(s) => (String::from_str("Ace"), s),
            Card::Number(n, s) => (decimal(n), s),
            Card::Jack(s) => (String::from_str("Jack"), s),
            Card::Queen(s) => (String::from_str("Queen"), s),
            Card::King(s) => (String::from_str("King"), s),
            Card::Joker(s) => (String::from_str("Joker"), s),
        };
        let mut text = String::from_str("[");
        text.append(face.as_str());
        text.append(" of ");
        text.append(suit.name());
        text.append("]");
        text
    }
}

/// A well-formed card is the one that its own rank and suit make.
pub proof fn lemma_classify_rank_suit(card: Card)
    requires
        card.wf(),
    ensures
        1 <= card.rank() <= 14,
        Card::classify(card.rank(), card.suit()) == card,
{
}

/// Over the ranks 1 to 14, the card tells the rank and the suit it was made
/// of, so no two pairs make the same card.
pub proof fn lemma_classify_injective(rank: int, suit: Suit)
    requires
        1 <= rank <= 14,
    ensures
        Card::classify(rank, suit).wf(),
        Card::classify(rank, suit).rank() == rank,
        Card::classify(rank, suit).suit() == suit,
{
}

} // verus!
