//! The full deck in its fixed order.

use crate::card::Card;
use crate::suit::Suit;
use vstd::prelude::*;

verus! {

/// The deck before any shuffle: the ranks 1 to 14 in rising order, and under
/// each rank the four suits in layout order.
pub open spec fn ordered_deck() -> Seq<Card> {
    Seq::new(56, |i: int| Card::classify(i / 4 + 1, Suit::SUITS[i % 4]))
}

/// Where the ordered deck holds the card of `rank` and `suit`.
pub open spec fn slot(rank: int, suit: Suit) -> int {
    4 * (rank - 1) + suit.position()
}

/// The card of a rank from 1 to 14 and a suit lies in the ordered deck at its
/// slot and nowhere else.
pub proof fn lemma_ordered_deck_slot(rank: int, suit: Suit)
    requires
        1 <= rank <= 14,
    ensures
        0 <= slot(rank, suit) < 56,
        forall|i: int|
            0 <= i < 56 ==> (#[trigger] ordered_deck()[i] == Card::classify(rank, suit) <==> i
                == slot(rank, suit)),
{
    assert forall|i: int| 0 <= i < 56 implies (#[trigger] ordered_deck()[i] == Card::classify(
        rank,
        suit,
    ) <==> i == slot(rank, suit)) by {
        let card = ordered_deck()[i];
        assert(card.rank() == i / 4 + 1);
        assert(card.suit().position() == i % 4);
    }
}

/// No card lies twice in the ordered deck, and every card in it is
/// well-formed.
pub proof fn lemma_ordered_deck_distinct()
    ensures
        ordered_deck().no_duplicates(),
        forall|i: int| 0 <= i < 56 ==> (#[trigger] ordered_deck()[i]).wf(),
{
    assert forall|i: int, j: int| 0 <= i < 56 && 0 <= j < 56 && i != j implies ordered_deck()[i]
        != ordered_deck()[j] by {
        lemma_ordered_deck_slot(i / 4 + 1, Suit::SUITS[i % 4]);
    }
}

/// Any arrangement of the ordered deck's cards has 56 cards and holds the
/// card of each rank from 1 to 14 and each suit exactly once.
pub proof fn lemma_each_card_once(deck: Seq<Card>, rank: int, suit: Suit)
    requires
        deck.to_multiset() == ordered_deck().to_multiset(),
        1 <= rank <= 14,
    ensures
        deck.len() == 56,
        deck.to_multiset().count(Card::classify(rank, suit)) == 1,
{
    let card = Card::classify(rank, suit);
    vstd::seq_lib::to_multiset_len(deck);
    vstd::seq_lib::to_multiset_len(ordered_deck());
    lemma_ordered_deck_slot(rank, suit);
    lemma_ordered_deck_distinct();
    assert(ordered_deck()[slot(rank, suit)] == card);
    assert(ordered_deck().contains(card));
    vstd::seq_lib::to_multiset_contains(ordered_deck(), card);
    ordered_deck().lemma_multiset_has_no_duplicates();
}

/// Builds the deck of 56 cards in its fixed order.
pub fn create_deck() -> (cards: Vec<Card>)
    ensures
        cards@ == ordered_deck(),
        cards@.len() == 56,
        forall|i: int| 0 <= i < 56 ==> (#[trigger] cards@[i]).wf(),
        forall|rank: int, suit: Suit|
            1 <= rank <= 14 ==> cards@.to_multiset().count(#[trigger] Card::classify(rank, suit))
                == 1,
{
    let mut cards: Vec<Card> = Vec::with_capacity(56);
    for n in 1usize..15
        invariant
            cards@.len() == 4 * (n - 1),
            forall|i: int| 0 <= i < cards@.len() ==> cards@[i] == ordered_deck()[i],
    {
        for k in 0usize..4
            invariant
                1 <= n < 15,
                cards@.len() == 4 * (n - 1) + k,
                forall|i: int| 0 <= i < cards@.len() ==> cards@[i] == ordered_deck()[i],
        {
            cards.push(Card::new(n, Suit::SUITS[k]));
        }
    }
    proof {
        assert(cards@ =~= ordered_deck());
        lemma_ordered_deck_distinct();
        assert forall|rank: int, suit: Suit| 1 <= rank <= 14 implies cards@.to_multiset().count(
            #[trigger] Card::classify(rank, suit),
        ) == 1 by {
            lemma_each_card_once(cards@, rank, suit);
        }
    }
    cards
}

} // verus!
