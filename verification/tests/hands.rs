use liars_dice::die::Die;
use liars_dice::hand::Hand;
use rand::rngs::StdRng;
use rand::SeedableRng;

fn hand_of(faces: &[u8]) -> Hand {
    Hand { dice: faces.iter().map(|face| Die { face: *face }).collect() }
}

#[test]
fn a_new_hand_shows_jokers() {
    let hand = Hand::new(5);
    assert_eq!(hand.faces(), vec![1, 1, 1, 1, 1]);
    assert_eq!(Hand::new(0).faces(), Vec::<u8>::new());
}

#[test]
fn a_rolled_die_shows_one_of_six_faces() {
    let mut rng = StdRng::seed_from_u64(11);
    for _ in 0..500 {
        let die = Die::roll(&mut rng);
        assert!(1 <= die.face && die.face <= 6);
    }
}

#[test]
fn rolled_dice_do_not_all_show_the_same() {
    let mut rng = StdRng::seed_from_u64(12);
    let mut seen = [false; 7];
    for _ in 0..500 {
        seen[Die::roll(&mut rng).face as usize] = true;
    }
    assert_eq!(seen, [false, true, true, true, true, true, true]);
}

#[test]
fn a_roll_keeps_the_size_of_the_hand() {
    let mut rng = StdRng::seed_from_u64(13);
    for size in 0..8 {
        let mut hand = Hand::new(size);
        hand.roll(&mut rng);
        assert_eq!(hand.dice.len(), size);
        assert!(hand.faces().iter().all(|face| 1 <= *face && *face <= 6));
    }
}

#[test]
fn the_same_seed_rolls_the_same_hands() {
    let mut first = StdRng::seed_from_u64(2024);
    let mut second = StdRng::seed_from_u64(2024);
    for _ in 0..20 {
        let mut one = Hand::new(5);
        let mut other = Hand::new(5);
        one.roll(&mut first);
        other.roll(&mut second);
        assert_eq!(one.faces(), other.faces());
    }
}

#[test]
fn jokers_count_towards_any_face_and_once_towards_their_own() {
    let hand = hand_of(&[1, 3, 3, 5]);
    assert_eq!(hand.count_matching(3), 3);
    assert_eq!(hand.count_matching(5), 2);
    assert_eq!(hand.count_matching(6), 1);
    assert_eq!(hand.count_matching(1), 1);
    assert_eq!(hand_of(&[]).count_matching(4), 0);
    assert_eq!(hand_of(&[1, 1, 1]).count_matching(1), 3);
    assert_eq!(hand_of(&[2, 4, 6]).count_matching(1), 0);
}

#[test]
fn a_lost_die_is_the_last() {
    let mut hand = hand_of(&[2, 4, 6]);
    hand.lose_die();
    assert_eq!(hand.faces(), vec![2, 4]);
    hand.lose_die();
    hand.lose_die();
    assert_eq!(hand.faces(), Vec::<u8>::new());
    hand.lose_die();
    assert_eq!(hand.faces(), Vec::<u8>::new());
}

#[test]
fn a_won_die_shows_the_joker() {
    let mut hand = hand_of(&[2, 4]);
    hand.gain_die(5);
    assert_eq!(hand.faces(), vec![2, 4, 1]);
}

#[test]
fn a_full_hand_wins_no_die() {
    let mut hand = hand_of(&[2, 4, 6]);
    hand.gain_die(3);
    assert_eq!(hand.faces(), vec![2, 4, 6]);
    hand.gain_die(2);
    assert_eq!(hand.faces(), vec![2, 4, 6]);
}
