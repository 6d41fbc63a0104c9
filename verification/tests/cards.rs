use deck_of_cards::decimal::decimal;
use deck_of_cards::{Card, Suit};

#[test]
fn classify_named_ranks() {
    assert_eq!(Card::new(1, Suit::Diamonds), Card::Ace(Suit::Diamonds));
    assert_eq!(Card::new(4, Suit::Clubs), Card::Number(4, Suit::Clubs));
    assert_eq!(Card::new(13, Suit::Spades), Card::King(Suit::Spades));
    assert_eq!(Card::new(14, Suit::Hearts), Card::Joker(Suit::Hearts));
}

#[test]
fn classify_every_rank_of_the_deck() {
    for suit in Suit::SUITS {
        assert_eq!(Card::new(1, suit), Card::Ace(suit));
        let mut n: usize = 2;
        while n <= 10 {
            assert_eq!(Card::new(n, suit), Card::Number(n, suit));
            n += 1;
        }
        assert_eq!(Card::new(11, suit), Card::Jack(suit));
        assert_eq!(Card::new(12, suit), Card::Queen(suit));
        assert_eq!(Card::new(13, suit), Card::King(suit));
        assert_eq!(Card::new(14, suit), Card::Joker(suit));
    }
}

#[test]
fn classify_ranks_outside_the_deck_are_jokers() {
    assert_eq!(Card::new(0, Suit::Clubs), Card::Joker(Suit::Clubs));
    assert_eq!(Card::new(15, Suit::Clubs), Card::Joker(Suit::Clubs));
    assert_eq!(Card::new(1000, Suit::Diamonds), Card::Joker(Suit::Diamonds));
    assert_eq!(Card::new(usize::MAX, Suit::Spades), Card::Joker(Suit::Spades));
}

#[test]
fn classify_number_bounds() {
    assert_eq!(Card::new(2, Suit::Hearts), Card::Number(2, Suit::Hearts));
    assert_eq!(Card::new(10, Suit::Hearts), Card::Number(10, Suit::Hearts));
    assert!(!matches!(Card::new(1, Suit::Hearts), Card::Number(_, _)));
    assert!(!matches!(Card::new(11, Suit::Hearts), Card::Number(_, _)));
}

#[test]
fn render_number_and_joker() {
    assert_eq!(Card::Number(7, Suit::Hearts).render(), "[7 of Hearts]");
    assert_eq!(Card::Joker(Suit::Spades).render(), "[Joker of Spades]");
}

#[test]
fn render_every_variant() {
    assert_eq!(Card::Ace(Suit::Diamonds).render(), "[Ace of Diamonds]");
    assert_eq!(Card::Number(2, Suit::Clubs).render(), "[2 of Clubs]");
    assert_eq!(Card::Number(10, Suit::Spades).render(), "[10 of Spades]");
    assert_eq!(Card::Jack(Suit::Hearts).render(), "[Jack of Hearts]");
    assert_eq!(Card::Queen(Suit::Clubs).render(), "[Queen of Clubs]");
    assert_eq!(Card::King(Suit::Diamonds).render(), "[King of Diamonds]");
    assert_eq!(Card::Joker(Suit::Hearts).render(), "[Joker of Hearts]");
}

#[test]
fn render_writes_any_stored_rank_in_decimal() {
    assert_eq!(Card::Number(0, Suit::Clubs).render(), "[0 of Clubs]");
    assert_eq!(Card::Number(15, Suit::Clubs).render(), "[15 of Clubs]");
    assert_eq!(Card::Number(1234, Suit::Hearts).render(), "[1234 of Hearts]");
}

#[test]
fn render_agrees_with_the_standard_formatter() {
    for suit in Suit::SUITS {
        let mut n: usize = 2;
        while n <= 10 {
            let expected: String = format!("[{} of {:?}]", n, suit);
            assert_eq!(Card::Number(n, suit).render(), expected);
            n += 1;
        }
        assert_eq!(Card::Ace(suit).render(), format!("[Ace of {:?}]", suit));
        assert_eq!(Card::Jack(suit).render(), format!("[Jack of {:?}]", suit));
        assert_eq!(Card::Queen(suit).render(), format!("[Queen of {:?}]", suit));
        assert_eq!(Card::King(suit).render(), format!("[King of {:?}]", suit));
        assert_eq!(Card::Joker(suit).render(), format!("[Joker of {:?}]", suit));
    }
}

#[test]
fn suit_names() {
    assert_eq!(Suit::Diamonds.name(), "Diamonds");
    assert_eq!(Suit::Hearts.name(), "Hearts");
    assert_eq!(Suit::Clubs.name(), "Clubs");
    assert_eq!(Suit::Spades.name(), "Spades");
}

#[test]
fn suit_layout_order() {
    assert_eq!(
        Suit::SUITS,
        [Suit::Diamonds, Suit::Hearts, Suit::Clubs, Suit::Spades]
    );
}

#[test]
fn decimal_single_digits() {
    let digits: [&str; 10] = ["0", "1", "2", "3", "4", "5", "6", "7", "8", "9"];
    let mut d: usize = 0;
    while d < 10 {
        assert_eq!(decimal(d), digits[d]);
        d += 1;
    }
}

#[test]
fn decimal_longer_numbers() {
    assert_eq!(decimal(10), "10");
    assert_eq!(decimal(99), "99");
    assert_eq!(decimal(100), "100");
    assert_eq!(decimal(1009), "1009");
    assert_eq!(decimal(4_294_967_295), "4294967295");
    assert_eq!(decimal(usize::MAX), format!("{}", usize::MAX));
}
