use dice_tray::dice::{Die, DieResult, DieResultType};
use dice_tray::tray::{Tray, TrayError, TrayResult, TrayResultType, TraySortType};

fn fixed(id: usize, label: &str, faces: u32, face: u32, result: u32, kind: DieResultType) -> Die {
    Die::from_saved(
        id,
        label.to_string(),
        faces,
        id as u64,
        face,
        DieResult::Number(result),
        kind,
    )
}

fn labels(tray: &Tray) -> Vec<String> {
    tray.get_dice()
        .iter()
        .map(|d| d.get_label().to_string())
        .collect()
}

fn ids(dice: &[Die]) -> Vec<usize> {
    dice.iter().map(|d| d.get_id()).collect()
}

#[test]
fn new_tray_is_empty_and_sums() {
    let tray = Tray::new("Main".to_string());
    assert_eq!(tray.get_id(), "Main");
    assert_eq!(tray.len(), 0);
    assert_eq!(*tray.get_result_type(), TrayResultType::Sum);
    assert_eq!(tray.get_result(), TrayResult::Number(0));
    assert_eq!(tray.get_summary(), "");
}

#[test]
fn add_keeps_insertion_order() {
    let mut tray = Tray::new("t".to_string());
    tray.add_die(fixed(0, "a", 6, 1, 1, DieResultType::Face));
    tray.add_dice(vec![
        fixed(1, "b", 6, 2, 2, DieResultType::Face),
        fixed(2, "c", 6, 3, 3, DieResultType::Face),
    ]);
    tray.add_die(fixed(3, "a", 6, 4, 4, DieResultType::Face));
    assert_eq!(labels(&tray), vec!["a", "b", "c", "a"]);
    assert_eq!(ids(tray.get_dice()), vec![0, 1, 2, 3]);
}

#[test]
fn remove_at_out_of_bounds_leaves_the_tray() {
    let mut tray = Tray::new("t".to_string());
    for i in 0..3 {
        tray.add_die(fixed(i, "d6", 6, 1, 1, DieResultType::Face));
    }
    let refused = tray.remove_at(5);
    assert_eq!(
        refused.unwrap_err(),
        TrayError::IndexOutOfBounds { index: 5, len: 3 }
    );
    assert_eq!(tray.len(), 3);
    assert_eq!(ids(tray.get_dice()), vec![0, 1, 2]);
    assert!(tray.remove_at(3).is_err());
}

#[test]
fn remove_at_takes_that_die() {
    let mut tray = Tray::new("t".to_string());
    for i in 0..4 {
        tray.add_die(fixed(i, "d6", 6, 1, 1, DieResultType::Face));
    }
    let die = tray.remove_at(1).unwrap();
    assert_eq!(die.get_id(), 1);
    assert_eq!(ids(tray.get_dice()), vec![0, 2, 3]);
    let die = tray.remove_at(2).unwrap();
    assert_eq!(die.get_id(), 3);
    assert_eq!(ids(tray.get_dice()), vec![0, 2]);
}

#[test]
fn remove_by_id_finds_the_die() {
    let mut tray = Tray::new("t".to_string());
    for i in 0..4 {
        tray.add_die(fixed(10 + i, "d6", 6, 1, 1, DieResultType::Face));
    }
    let die = tray.remove_by_id(12).unwrap();
    assert_eq!(die.get_id(), 12);
    assert_eq!(ids(tray.get_dice()), vec![10, 11, 13]);
    assert_eq!(
        tray.remove_by_id(12).unwrap_err(),
        TrayError::UnknownId { id: 12 }
    );
    assert_eq!(ids(tray.get_dice()), vec![10, 11, 13]);
    let mut empty = Tray::new("e".to_string());
    assert_eq!(
        empty.remove_by_id(0).unwrap_err(),
        TrayError::UnknownId { id: 0 }
    );
}

#[test]
fn remove_by_id_takes_the_last_of_equal_ids() {
    let mut tray = Tray::new("t".to_string());
    tray.add_die(fixed(7, "first", 6, 1, 1, DieResultType::Face));
    tray.add_die(fixed(8, "other", 6, 1, 1, DieResultType::Face));
    tray.add_die(fixed(7, "second", 6, 1, 1, DieResultType::Face));
    let die = tray.remove_by_id(7).unwrap();
    assert_eq!(die.get_label(), "second");
    assert_eq!(labels(&tray), vec!["first", "other"]);
}

#[test]
fn remove_by_label_takes_all_in_reverse() {
    let mut tray = Tray::new("t".to_string());
    tray.add_die(fixed(0, "atk", 6, 1, 1, DieResultType::Face));
    tray.add_die(fixed(1, "def", 6, 1, 1, DieResultType::Face));
    tray.add_die(fixed(2, "atk", 6, 1, 1, DieResultType::Face));
    tray.add_die(fixed(3, "dmg", 6, 1, 1, DieResultType::Face));
    tray.add_die(fixed(4, "atk", 6, 1, 1, DieResultType::Face));
    let removed = tray.remove_by_label("atk").unwrap();
    assert_eq!(ids(&removed), vec![4, 2, 0]);
    assert_eq!(ids(tray.get_dice()), vec![1, 3]);
}

#[test]
fn remove_by_label_without_match_is_an_error() {
    let mut tray = Tray::new("t".to_string());
    tray.add_die(fixed(0, "atk", 6, 1, 1, DieResultType::Face));
    tray.add_die(fixed(1, "def", 6, 1, 1, DieResultType::Face));
    let refused = tray.remove_by_label("dmg");
    assert_eq!(
        refused.unwrap_err(),
        TrayError::UnknownLabel {
            label: "dmg".to_string()
        }
    );
    assert_eq!(ids(tray.get_dice()), vec![0, 1]);
    let mut empty = Tray::new("e".to_string());
    assert!(empty.remove_by_label("atk").is_err());
    assert_eq!(empty.len(), 0);
}

#[test]
fn remove_all_twice_fails_the_second_time() {
    let mut tray = Tray::new("t".to_string());
    for i in 0..3 {
        tray.add_die(fixed(i, "d6", 6, 1, 1, DieResultType::Face));
    }
    let dice = tray.remove_all().unwrap();
    assert_eq!(ids(&dice), vec![0, 1, 2]);
    assert_eq!(tray.len(), 0);
    assert_eq!(tray.remove_all().unwrap_err(), TrayError::EmptyTray);
    assert_eq!(tray.len(), 0);
}

#[test]
fn clear_never_fails() {
    let mut tray = Tray::new("t".to_string());
    tray.clear();
    assert_eq!(tray.len(), 0);
    tray.add_die(fixed(0, "d6", 6, 1, 1, DieResultType::Face));
    tray.clear();
    assert_eq!(tray.len(), 0);
    tray.clear();
    assert_eq!(tray.len(), 0);
}

#[test]
fn roll_all_rolls_every_die() {
    let mut tray = Tray::new("t".to_string());
    for i in 0..5 {
        tray.add_die(fixed(i, "d6", 6, 1, 0, DieResultType::Sum));
    }
    assert!(tray.can_roll(None));
    let mut totals = vec![0u32; 5];
    for _ in 0..20 {
        tray.roll_all(None);
        for (i, die) in tray.get_dice().iter().enumerate() {
            assert!(1 <= die.get_current_face() && die.get_current_face() <= 6);
            totals[i] += die.get_current_face();
            assert_eq!(die.get_result(), DieResult::Number(totals[i]));
        }
    }
}

#[test]
fn roll_at_rolls_one_die_only() {
    let mut tray = Tray::new("t".to_string());
    for i in 0..3 {
        tray.add_die(fixed(i, "d6", 6, 1, 100, DieResultType::Sum));
    }
    tray.roll_at(1, None).unwrap();
    let dice = tray.get_dice();
    assert_eq!(dice[0].get_result(), DieResult::Number(100));
    assert_eq!(
        dice[1].get_result(),
        DieResult::Number(100 + dice[1].get_current_face())
    );
    assert_eq!(dice[2].get_result(), DieResult::Number(100));
    assert_eq!(
        tray.roll_at(3, None).unwrap_err(),
        TrayError::IndexOutOfBounds { index: 3, len: 3 }
    );
}

#[test]
fn roll_by_label_sums_nine_draws() {
    let mut tray = Tray::new("t".to_string());
    for i in 0..3 {
        tray.add_die(Die::new(i, Some("atk".to_string()), 6, None));
    }
    let mut drawn = 0;
    for _ in 0..3 {
        tray.roll_by_label("atk", Some(DieResultType::Sum)).unwrap();
        for die in tray.get_dice() {
            drawn += die.get_current_face();
        }
    }
    assert!(tray.result_fits());
    assert_eq!(tray.get_result(), TrayResult::Number(drawn));
}

#[test]
fn roll_by_label_leaves_other_dice() {
    let mut tray = Tray::new("t".to_string());
    tray.add_die(fixed(0, "atk", 6, 1, 10, DieResultType::Sum));
    tray.add_die(fixed(1, "def", 6, 2, 20, DieResultType::Sum));
    tray.add_die(fixed(2, "atk", 6, 3, 30, DieResultType::Sum));
    tray.roll_by_label("atk", None).unwrap();
    let dice = tray.get_dice();
    assert_eq!(
        dice[0].get_result(),
        DieResult::Number(10 + dice[0].get_current_face())
    );
    assert_eq!(dice[1].get_result(), DieResult::Number(20));
    assert_eq!(dice[1].get_current_face(), 2);
    assert_eq!(
        dice[2].get_result(),
        DieResult::Number(30 + dice[2].get_current_face())
    );
    assert_eq!(
        tray.roll_by_label("dmg", None).unwrap_err(),
        TrayError::UnknownLabel {
            label: "dmg".to_string()
        }
    );
}

#[test]
fn tray_result_sum_best_worst() {
    let mut tray = Tray::new("t".to_string());
    tray.add_die(fixed(0, "a", 20, 1, 7, DieResultType::Sum));
    tray.add_die(fixed(1, "b", 20, 1, 19, DieResultType::Best));
    tray.add_die(fixed(2, "c", 20, 1, 3, DieResultType::Worst));
    tray.add_die(Die::from_saved(
        3,
        "loot".to_string(),
        6,
        1,
        2,
        DieResult::NoResult,
        DieResultType::Table,
    ));
    assert_eq!(tray.get_result(), TrayResult::Number(29));
    tray.set_result_type(TrayResultType::Best);
    assert_eq!(tray.get_result(), TrayResult::Number(19));
    tray.set_result_type(TrayResultType::Worst);
    assert_eq!(tray.get_result(), TrayResult::Number(0));
    tray.remove_by_label("loot").unwrap();
    assert_eq!(tray.get_result(), TrayResult::Number(3));
    assert_eq!(*tray.get_dice()[0].get_result_type(), DieResultType::Sum);
}

#[test]
fn best_and_worst_of_an_empty_tray_are_absent() {
    let mut tray = Tray::new("t".to_string());
    tray.set_result_type(TrayResultType::Best);
    assert_eq!(tray.get_result(), TrayResult::NoResult);
    tray.set_result_type(TrayResultType::Worst);
    assert_eq!(tray.get_result(), TrayResult::NoResult);
}

#[test]
fn result_fits_sees_an_overflowing_sum() {
    let mut tray = Tray::new("t".to_string());
    tray.add_die(fixed(0, "a", 6, 1, u32::MAX - 1, DieResultType::Sum));
    tray.add_die(fixed(1, "b", 6, 1, 1, DieResultType::Sum));
    assert!(tray.result_fits());
    assert_eq!(tray.get_result(), TrayResult::Number(u32::MAX));
    tray.add_die(fixed(2, "c", 6, 1, 1, DieResultType::Sum));
    assert!(!tray.result_fits());
    assert!(!tray.can_roll(None));
    tray.set_result_type(TrayResultType::Best);
    assert!(tray.result_fits());
    assert_eq!(tray.get_result(), TrayResult::Number(u32::MAX - 1));
}

#[test]
fn sort_is_ascending_and_stable() {
    let mut tray = Tray::new("t".to_string());
    let faces = [4, 2, 6, 2, 1, 4, 2];
    for (i, face) in faces.iter().enumerate() {
        tray.add_die(fixed(i, "d6", 6, *face, *face, DieResultType::Face));
    }
    tray.sort(TraySortType::Face);
    let sorted: Vec<(u32, usize)> = tray
        .get_dice()
        .iter()
        .map(|d| (d.get_current_face(), d.get_id()))
        .collect();
    assert_eq!(
        sorted,
        vec![(1, 4), (2, 1), (2, 3), (2, 6), (4, 0), (4, 5), (6, 2)]
    );
    tray.sort(TraySortType::Face);
    assert_eq!(ids(tray.get_dice()), vec![4, 1, 3, 6, 0, 5, 2]);
}

#[test]
fn summary_lists_every_die() {
    let mut tray = Tray::new("t".to_string());
    tray.add_die(fixed(0, "atk", 6, 1, 12, DieResultType::Sum));
    tray.add_die(fixed(1, "d20", 20, 7, 7, DieResultType::Face));
    assert_eq!(tray.get_summary(), "@0:atk=12@1:d20=7");
}

#[test]
fn captions() {
    assert_eq!(TrayResultType::Sum.to_string(), "Tray sum");
    assert_eq!(TrayResultType::Best.to_string(), "High roll in tray");
    assert_eq!(TrayResultType::Worst.to_string(), "Worst roll in tray");
    assert_eq!(TrayResult::Number(4096).to_string(), "4096");
    assert_eq!(TrayResult::Number(0).to_string(), "0");
    assert_eq!(TrayResult::String("crit".to_string()).to_string(), "crit");
    assert_eq!(TrayResult::NoResult.to_string(), "None");
    assert_eq!(TraySortType::Face.to_string(), "Sorting tray by die face.");
}
