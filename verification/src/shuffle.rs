//! Shuffling a deck in place with the thread's random number generator.

use crate::card::Card;
use rand::seq::SliceRandom;
use vstd::prelude::*;

verus! {

/// `rand::rngs::ThreadRng`, a handle to the calling thread's generator.
/// Nothing is known of what it holds.
#[verifier::external_type_specification]
#[verifier::external_body]
pub struct ExThreadRng(rand::rngs::ThreadRng);

/// `rand::thread_rng` hands out the handle. Nothing is claimed of it: the
/// generator is seeded by the operating system, and the call panics if the
/// system gives no entropy when the thread first asks.
pub assume_specification[ rand::thread_rng ]() -> (rng: rand::rngs::ThreadRng)
;

/// `rand::seq::SliceRandom::shuffle` on the cards as a slice. It walks the
/// slice from the back and swaps each place with a place at or before it that
/// the generator picks, so the cards afterwards are the cards before in some
/// order. Which order is left open.
#[verifier::external_body]
fn shuffle_slice(cards: &mut Vec<Card>, rng: &mut rand::rngs::ThreadRng)
    ensures
        final(cards)@.to_multiset() == old(cards)@.to_multiset(),
{
    cards.shuffle(rng);
}

/// Shuffles the cards in place. The cards after the call are the cards
/// before it, each as often as before. Their order is drawn at random, and
/// the contract leaves it open.
pub fn shuffle_cards(cards: &mut Vec<Card>)
    ensures
        final(cards)@.to_multiset() == old(cards)@.to_multiset(),
        final(cards)@.len() == old(cards)@.len(),
{
    let mut rng = rand::thread_rng();
    shuffle_slice(cards, &mut rng);
    proof {
        vstd::seq_lib::to_multiset_len(cards@);
        vstd::seq_lib::to_multiset_len(old(cards)@);
    }
}

} // verus!
