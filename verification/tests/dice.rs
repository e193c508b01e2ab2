use dice_tray::dice::{Die, DieResult, DieResultType};

#[test]
fn test_die_creation_and_roll() {
    let faces = 20;
    let mut die = Die::new(0, Some("TestDie".to_string()), faces, None);
    assert_eq!(die.get_identity(), "TestDie");
    assert!(die.get_current_face() >= 1 && die.get_current_face() <= faces);
    let first_roll = die.get_current_face();
    die.roll(Some(DieResultType::Face));
    println!(
        "First roll: {}, Second roll: {}",
        first_roll,
        die.get_current_face()
    );
}

#[test]
fn new_die_without_label_is_named_after_its_faces() {
    let die = Die::new(7, None, 100, None);
    assert_eq!(die.get_label(), "d100");
    assert_eq!(die.get_id(), 7);
    assert_eq!(die.get_face_count(), 100);
    assert_eq!(*die.get_result_type(), DieResultType::Face);
    assert_eq!(die.get_result(), DieResult::Number(die.get_current_face()));
}

#[test]
fn every_roll_shows_a_face_of_the_die() {
    let mut die = Die::new(0, None, 6, None);
    for _ in 0..500 {
        die.roll(None);
        assert!(1 <= die.get_current_face() && die.get_current_face() <= 6);
    }
    let mut coin = Die::new(1, None, 1, None);
    for _ in 0..20 {
        coin.roll(None);
        assert_eq!(coin.get_current_face(), 1);
    }
}

#[test]
fn rolls_draw_more_than_one_face() {
    let mut die = Die::new(0, None, 1000, None);
    let first = die.get_current_face();
    let mut other = false;
    for _ in 0..200 {
        die.roll(None);
        if die.get_current_face() != first {
            other = true;
        }
    }
    assert!(other);
}

#[test]
fn same_seed_gives_same_first_face() {
    let saved = |id| {
        Die::from_saved(
            id,
            "d20".to_string(),
            20,
            0xD1CE_5EED,
            1,
            DieResult::Number(1),
            DieResultType::Face,
        )
    };
    let mut a = saved(1);
    let mut b = saved(2);
    a.roll(None);
    b.roll(None);
    assert_eq!(a.get_current_face(), b.get_current_face());
    for _ in 0..50 {
        a.roll(None);
        b.roll(None);
        assert_eq!(a.get_current_face(), b.get_current_face());
    }
    assert_eq!(a.get_rng_seed(), 0xD1CE_5EED);
}

#[test]
fn from_saved_restores_without_rolling() {
    let die = Die::from_saved(
        3,
        "atk".to_string(),
        8,
        42,
        5,
        DieResult::Number(17),
        DieResultType::Sum,
    );
    assert_eq!(die.get_id(), 3);
    assert_eq!(die.get_label(), "atk");
    assert_eq!(die.get_face_count(), 8);
    assert_eq!(die.get_current_face(), 5);
    assert_eq!(die.get_result(), DieResult::Number(17));
    assert_eq!(die.get_result_value(), Some(17));
    assert_eq!(*die.get_result_type(), DieResultType::Sum);
    assert_eq!(die.get_rng_seed(), 42);
}

#[test]
fn sum_accumulates_every_face() {
    let mut die = Die::from_saved(
        0,
        "d6".to_string(),
        6,
        1,
        1,
        DieResult::Number(1),
        DieResultType::Face,
    );
    die.land(Some(DieResultType::Sum), 4);
    assert_eq!(die.get_result(), DieResult::Number(4));
    die.land(Some(DieResultType::Sum), 6);
    assert_eq!(die.get_result(), DieResult::Number(10));
    die.land(None, 1);
    assert_eq!(die.get_result(), DieResult::Number(11));
    assert_eq!(die.get_current_face(), 1);
}

#[test]
fn sum_of_real_rolls_is_the_sum_of_the_faces() {
    let mut die = Die::new(0, None, 12, None);
    let mut expected = 0;
    for _ in 0..40 {
        die.roll(Some(DieResultType::Sum));
        expected += die.get_current_face();
        assert_eq!(die.get_result(), DieResult::Number(expected));
    }
}

#[test]
fn best_keeps_the_highest_face() {
    let mut die = Die::from_saved(
        0,
        "d10".to_string(),
        10,
        1,
        9,
        DieResult::Number(9),
        DieResultType::Face,
    );
    die.land(Some(DieResultType::Best), 3);
    assert_eq!(die.get_result(), DieResult::Number(3));
    die.land(Some(DieResultType::Best), 7);
    assert_eq!(die.get_result(), DieResult::Number(7));
    die.land(None, 2);
    assert_eq!(die.get_result(), DieResult::Number(7));
    die.land(None, 10);
    assert_eq!(die.get_result(), DieResult::Number(10));
}

#[test]
fn worst_keeps_the_lowest_face() {
    let mut die = Die::from_saved(
        0,
        "d10".to_string(),
        10,
        1,
        1,
        DieResult::Number(1),
        DieResultType::Face,
    );
    die.land(Some(DieResultType::Worst), 8);
    assert_eq!(die.get_result(), DieResult::Number(8));
    die.land(None, 9);
    assert_eq!(die.get_result(), DieResult::Number(8));
    die.land(None, 2);
    assert_eq!(die.get_result(), DieResult::Number(2));
}

#[test]
fn best_and_worst_are_monotone_over_real_rolls() {
    let mut best = Die::new(0, None, 20, Some(DieResultType::Best));
    let mut worst = Die::new(1, None, 20, Some(DieResultType::Worst));
    let mut high = best.get_result_value().unwrap();
    let mut low = worst.get_result_value().unwrap();
    for _ in 0..100 {
        best.roll(None);
        worst.roll(None);
        let h = best.get_result_value().unwrap();
        let l = worst.get_result_value().unwrap();
        assert!(h >= high && h >= best.get_current_face());
        assert!(l <= low && l <= worst.get_current_face());
        high = h;
        low = l;
    }
}

#[test]
fn changing_the_type_resets_the_accumulator() {
    let mut die = Die::from_saved(
        0,
        "d6".to_string(),
        6,
        1,
        6,
        DieResult::Number(50),
        DieResultType::Sum,
    );
    die.set_result_type(DieResultType::Best);
    assert_eq!(die.get_result(), DieResult::Number(1));
    die.set_result_type(DieResultType::Worst);
    assert_eq!(die.get_result(), DieResult::Number(6));
    die.set_result_type(DieResultType::Sum);
    assert_eq!(die.get_result(), DieResult::Number(0));
    die.set_result_type(DieResultType::Face);
    assert_eq!(die.get_result(), DieResult::Number(0));
    die.set_result_type(DieResultType::Table);
    assert_eq!(die.get_result(), DieResult::NoResult);
    assert_eq!(die.get_current_face(), 6);
}

#[test]
fn asking_for_the_same_type_changes_nothing() {
    let mut die = Die::from_saved(
        0,
        "d6".to_string(),
        6,
        1,
        6,
        DieResult::Number(50),
        DieResultType::Sum,
    );
    die.set_result_type(DieResultType::Sum);
    assert_eq!(die.get_result(), DieResult::Number(50));
    die.land(Some(DieResultType::Sum), 2);
    assert_eq!(die.get_result(), DieResult::Number(52));
}

#[test]
fn a_roll_with_a_new_type_starts_from_the_face() {
    let mut die = Die::from_saved(
        0,
        "d6".to_string(),
        6,
        1,
        6,
        DieResult::Number(50),
        DieResultType::Sum,
    );
    die.land(Some(DieResultType::Face), 3);
    assert_eq!(die.get_result(), DieResult::Number(3));
    die.land(Some(DieResultType::Sum), 4);
    assert_eq!(die.get_result(), DieResult::Number(4));
    die.land(Some(DieResultType::Table), 5);
    assert_eq!(die.get_result(), DieResult::NoResult);
    assert_eq!(die.get_result_value(), None);
}

#[test]
fn increment_and_decrement_wrap_around() {
    let mut die = Die::from_saved(
        0,
        "d4".to_string(),
        4,
        1,
        3,
        DieResult::Number(3),
        DieResultType::Face,
    );
    die.increment();
    assert_eq!(die.get_current_face(), 4);
    assert!(die.is_max());
    die.increment();
    assert_eq!(die.get_current_face(), 1);
    assert!(die.is_min());
    die.decrement();
    assert_eq!(die.get_current_face(), 4);
    die.decrement();
    assert_eq!(die.get_current_face(), 3);
    assert!(!die.is_min() && !die.is_max());
    assert_eq!(die.get_result(), DieResult::Number(3));
}

#[test]
fn set_current_face_clamps() {
    let mut die = Die::from_saved(
        0,
        "d6".to_string(),
        6,
        1,
        3,
        DieResult::Number(3),
        DieResultType::Face,
    );
    die.set_current_face(0);
    assert_eq!(die.get_current_face(), 1);
    die.set_current_face(99);
    assert_eq!(die.get_current_face(), 6);
    die.set_current_face(4);
    assert_eq!(die.get_current_face(), 4);
    assert_eq!(die.get_result(), DieResult::Number(3));
}

#[test]
fn can_roll_sees_a_sum_that_would_not_fit() {
    let mut die = Die::from_saved(
        0,
        "d6".to_string(),
        6,
        1,
        3,
        DieResult::Number(u32::MAX - 5),
        DieResultType::Sum,
    );
    assert!(!die.can_roll(None));
    assert!(!die.can_roll(Some(DieResultType::Sum)));
    assert!(die.can_roll(Some(DieResultType::Best)));
    die.set_identity("big".to_string());
    assert_eq!(die.get_label(), "big");
    assert!(die.has_label("big"));
    assert!(!die.has_label("d6"));
    let room = Die::from_saved(
        0,
        "d6".to_string(),
        6,
        1,
        3,
        DieResult::Number(u32::MAX - 6),
        DieResultType::Sum,
    );
    assert!(room.can_roll(None));
}

#[test]
fn is_num_or_falls_back() {
    assert_eq!(DieResult::Number(9).is_num_or(0), 9);
    assert_eq!(DieResult::String("x".to_string()).is_num_or(4), 4);
    assert_eq!(DieResult::NoResult.is_num_or(2), 2);
}

#[test]
fn die_summary_names_label_and_result() {
    let die = Die::from_saved(
        0,
        "atk".to_string(),
        6,
        1,
        3,
        DieResult::Number(120),
        DieResultType::Sum,
    );
    assert_eq!(die.get_summary(), "atk=120");
    let table = Die::from_saved(
        0,
        "loot".to_string(),
        6,
        1,
        3,
        DieResult::NoResult,
        DieResultType::Table,
    );
    assert_eq!(table.get_summary(), "loot=None");
}
