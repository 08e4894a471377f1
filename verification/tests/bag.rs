use rand::thread_rng;
use tetrs::game::bag::Bag;
use tetrs::game::piece::PieceType;

#[test]
fn test_bag_produces_all_pieces() {
    let mut rng = thread_rng();
    let mut bag = Bag::new(&mut rng);
    let mut seen = std::collections::HashSet::new();
    for _ in 0..7 {
        seen.insert(bag.next(&mut rng));
    }
    assert_eq!(seen.len(), 7);
}

#[test]
fn test_bag_peek() {
    let mut rng = thread_rng();
    let bag = Bag::new(&mut rng);
    let preview = bag.peek(3);
    assert_eq!(preview.len(), 3);
}

#[test]
fn test_bag_peek_matches_next() {
    let mut rng = thread_rng();
    let mut bag = Bag::new(&mut rng);
    let preview = bag.peek(3);
    let first = bag.next(&mut rng);
    assert_eq!(preview[0], first);
}

#[test]
fn test_bag_crosses_boundary() {
    let mut rng = thread_rng();
    let mut bag = Bag::new(&mut rng);
    for _ in 0..14 {
        bag.next(&mut rng);
    }
    let piece = bag.next(&mut rng);
    assert!(PieceType::ALL.contains(&piece));
}

#[test]
fn every_seven_draws_hold_every_shape_once() {
    let mut rng = thread_rng();
    let mut bag = Bag::new(&mut rng);
    for _ in 0..30 {
        let mut seen = std::collections::HashSet::new();
        for _ in 0..7 {
            assert!(seen.insert(bag.next(&mut rng)));
        }
        assert_eq!(seen.len(), 7);
    }
    assert_eq!(bag.pieces_drawn(), 210);
}

#[test]
fn peek_shows_what_comes_next_across_bags() {
    let mut rng = thread_rng();
    let mut bag = Bag::new(&mut rng);
    for _ in 0..5 {
        bag.next(&mut rng);
    }
    let preview = bag.peek(9);
    assert_eq!(preview.len(), 9);
    assert_eq!(bag.peek(100).len(), 9);
    assert_eq!(bag.peek(0).len(), 0);
    for expected in preview {
        assert_eq!(bag.next(&mut rng), expected);
    }
}

#[test]
fn bags_come_in_different_orders() {
    let mut rng = thread_rng();
    let mut bag = Bag::new(&mut rng);
    let mut orders = std::collections::HashSet::new();
    for _ in 0..40 {
        let mut order = Vec::new();
        for _ in 0..7 {
            order.push(bag.next(&mut rng));
        }
        orders.insert(order);
    }
    assert!(orders.len() > 1);
}

#[test]
fn swap_in_opens_the_following_bag() {
    let mut rng = thread_rng();
    let mut bag = Bag::new(&mut rng);
    for _ in 0..7 {
        bag.next(&mut rng);
    }
    let following = bag.peek(7);
    let fresh = vec![
        PieceType::L,
        PieceType::J,
        PieceType::Z,
        PieceType::S,
        PieceType::T,
        PieceType::O,
        PieceType::I,
    ];
    let piece = bag.swap_in(fresh.clone());
    assert_eq!(piece, following[0]);
    let mut expected: Vec<PieceType> = following[1..].to_vec();
    expected.extend(fresh);
    assert_eq!(bag.peek(13), expected);
    assert_eq!(bag.pieces_drawn(), 8);
}
