use dice_tray::dice::{Die, DieResult, DieResultType};
use dice_tray::dice_builders::new_die;
use dice_tray::dice_profile::{DieProfile, DieType};
use dice_tray::ordering::compare_dice;
use dice_tray::text::{order_texts, TextOrder};
use dice_tray::tray::{Tray, TrayError};
use std::cmp::Ordering;

fn showing(id: usize, label: &str, faces: u32, face: u32) -> Die {
    Die::from_saved(
        id,
        label.to_string(),
        faces,
        id as u64,
        face,
        DieResult::Number(face),
        DieResultType::Face,
    )
}

#[test]
fn dice_ordering() {
    let die1 = Die::new(1, None, 6, None);
    let die2 = Die::new(2, None, 6, None);
    let die3 = Die::new(3, None, 6, None);
    let die4 = Die::new(4, None, 6, None);
    let die5 = Die::new(5, None, 6, None);
    let die6 = Die::new(6, None, 6, None);

    let mut dice = Vec::new();
    dice.push(die1);
    dice.push(die2);
    dice.push(die3);
    dice.push(die4);
    dice.push(die5);
    dice.push(die6);

    let dice_results: Vec<u32> = dice.iter().map(|d| d.get_current_face()).collect();
    println!("Dice in inserted order: {:?}", dice_results);
    dice.sort_by(|a, b| a.partial_cmp(b).unwrap());
    let dice_results = dice
        .iter()
        .map(|d| d.get_current_face())
        .collect::<Vec<u32>>();
    println!("Dice in sorted order: {:?}", dice_results);
    for pair in dice_results.windows(2) {
        assert!(pair[0] <= pair[1]);
    }
}

#[test]
fn dice_compare_by_face_then_faces_then_label() {
    let a = showing(0, "b", 6, 3);
    assert_eq!(compare_dice(&a, &showing(1, "a", 4, 4)), TextOrder::Before);
    assert_eq!(compare_dice(&a, &showing(1, "z", 20, 2)), TextOrder::After);
    assert_eq!(compare_dice(&a, &showing(1, "a", 8, 3)), TextOrder::Before);
    assert_eq!(compare_dice(&a, &showing(1, "z", 4, 3)), TextOrder::After);
    assert_eq!(compare_dice(&a, &showing(1, "c", 6, 3)), TextOrder::Before);
    assert_eq!(compare_dice(&a, &showing(1, "a", 6, 3)), TextOrder::After);
    assert_eq!(compare_dice(&a, &showing(9, "b", 6, 3)), TextOrder::Same);
    assert_eq!(
        a.partial_cmp(&showing(1, "c", 6, 3)),
        Some(Ordering::Less)
    );
    assert_eq!(a.partial_cmp(&showing(9, "b", 6, 3)), Some(Ordering::Equal));
    assert!(a > showing(1, "a", 6, 3));
}

#[test]
fn dice_that_look_alike_are_equal() {
    let a = showing(0, "atk", 6, 3);
    let mut b = Die::from_saved(
        5,
        "atk".to_string(),
        6,
        999,
        3,
        DieResult::Number(40),
        DieResultType::Sum,
    );
    assert!(a == b);
    b.land(None, 4);
    assert!(a != b);
    assert!(a != showing(0, "atk", 8, 3));
    assert!(a != showing(0, "def", 6, 3));
}

#[test]
fn texts_order_by_code_point() {
    assert_eq!(order_texts("", ""), TextOrder::Same);
    assert_eq!(order_texts("", "a"), TextOrder::Before);
    assert_eq!(order_texts("a", ""), TextOrder::After);
    assert_eq!(order_texts("abc", "abd"), TextOrder::Before);
    assert_eq!(order_texts("abc", "ab"), TextOrder::After);
    assert_eq!(order_texts("Z", "a"), TextOrder::Before);
    assert_eq!(order_texts("d10", "d6"), TextOrder::Before);
    assert_eq!(order_texts("é", "z"), TextOrder::After);
    for (a, b) in [("x", "y"), ("same", "same"), ("ß", "ss"), ("d20", "d2")] {
        let expected = match a.cmp(b) {
            Ordering::Less => TextOrder::Before,
            Ordering::Equal => TextOrder::Same,
            Ordering::Greater => TextOrder::After,
        };
        assert_eq!(order_texts(a, b), expected);
    }
}

#[test]
fn result_type_codes() {
    assert_eq!(DieResultType::from_code('f'), Some(DieResultType::Face));
    assert_eq!(DieResultType::from_code('b'), Some(DieResultType::Best));
    assert_eq!(DieResultType::from_code('w'), Some(DieResultType::Worst));
    assert_eq!(DieResultType::from_code('e'), Some(DieResultType::Sum));
    assert_eq!(DieResultType::from_code('s'), None);
    assert_eq!(DieResultType::from_code('F'), None);
}

#[test]
fn relabel_a_die_in_the_tray() {
    let mut tray = Tray::new("t".to_string());
    tray.add_die(showing(0, "a", 6, 1));
    tray.add_die(showing(1, "b", 6, 2));
    assert_eq!(
        tray.set_identity_at(1, "hero".to_string()),
        Ok(("b".to_string(), "hero".to_string()))
    );
    assert_eq!(tray.get_dice()[1].get_label(), "hero");
    assert_eq!(tray.get_dice()[0].get_label(), "a");
    assert_eq!(
        tray.set_identity_at(2, "x".to_string()).unwrap_err(),
        TrayError::IndexOutOfBounds { index: 2, len: 2 }
    );
}

#[test]
fn change_types_without_rolling() {
    let mut tray = Tray::new("t".to_string());
    tray.add_die(showing(0, "a", 6, 3));
    tray.add_die(showing(1, "b", 6, 4));
    tray.add_die(showing(2, "a", 8, 5));
    tray.set_result_type_at(1, DieResultType::Worst).unwrap();
    assert_eq!(tray.get_dice()[1].get_result(), DieResult::Number(6));
    assert_eq!(tray.get_dice()[1].get_current_face(), 4);
    assert_eq!(tray.get_dice()[0].get_result(), DieResult::Number(3));
    assert!(tray.set_result_type_at(3, DieResultType::Sum).is_err());
    tray.set_result_type_by_label("a", DieResultType::Best)
        .unwrap();
    assert_eq!(tray.get_dice()[0].get_result(), DieResult::Number(1));
    assert_eq!(tray.get_dice()[2].get_result(), DieResult::Number(1));
    assert_eq!(*tray.get_dice()[1].get_result_type(), DieResultType::Worst);
    assert_eq!(
        tray.set_result_type_by_label("zz", DieResultType::Best)
            .unwrap_err(),
        TrayError::UnknownLabel {
            label: "zz".to_string()
        }
    );
    tray.set_all_result_type(DieResultType::Sum);
    for die in tray.get_dice() {
        assert_eq!(die.get_result(), DieResult::Number(0));
        assert_eq!(*die.get_result_type(), DieResultType::Sum);
    }
    tray.set_all_result_type(DieResultType::Sum);
    assert_eq!(tray.get_dice()[0].get_current_face(), 3);
}

#[test]
fn roll_by_label_and_place() {
    let mut tray = Tray::new("t".to_string());
    for i in 0..4 {
        let label = if i == 1 { "def" } else { "atk" };
        tray.add_die(Die::from_saved(
            i,
            label.to_string(),
            6,
            i as u64,
            1,
            DieResult::Number(100),
            DieResultType::Sum,
        ));
    }
    tray.roll_at_identities("atk", &vec![1, 2, 9], None)
        .unwrap();
    let dice = tray.get_dice();
    assert_eq!(dice[0].get_result(), DieResult::Number(100));
    assert_eq!(dice[1].get_result(), DieResult::Number(100));
    assert_eq!(
        dice[2].get_result(),
        DieResult::Number(100 + dice[2].get_current_face())
    );
    assert_eq!(dice[3].get_result(), DieResult::Number(100));
    assert!(tray.roll_at_identities("atk", &vec![1], None).is_err());
    assert!(tray.roll_at_identities("atk", &vec![], None).is_err());
    assert!(tray.roll_at_identities("zzz", &vec![0, 1], None).is_err());
}

#[test]
fn dice_dice_ordering() {
    let die1 = new_die(1, &DieProfile::new(None, DieType::Numerical(6))).unwrap();
    let die2 = new_die(2, &DieProfile::new(None, DieType::Numerical(6))).unwrap();
    let die3 = new_die(3, &DieProfile::new(None, DieType::Numerical(6))).unwrap();
    let die4 = new_die(4, &DieProfile::new(None, DieType::Numerical(6))).unwrap();
    let die5 = new_die(5, &DieProfile::new(None, DieType::Numerical(6))).unwrap();
    let die6 = new_die(6, &DieProfile::new(None, DieType::Numerical(6))).unwrap();

    let mut dice: Vec<Die> = Vec::new();
    dice.push(die1);
    dice.push(die2);
    dice.push(die3);
    dice.push(die4);
    dice.push(die5);
    dice.push(die6);

    let dice_results: Vec<u32> = dice.iter().map(|d| d.get_current_face()).collect();
    println!("Dice in inserted order: {:?}", dice_results);

    let dice_results = dice
        .iter()
        .map(|d| d.get_current_face())
        .collect::<Vec<u32>>();
    println!("Dice results: {:?}", dice_results);
}

#[test]
fn a_die_moves_from_tray_to_tray() {
    let mut from = Tray::new("from".to_string());
    let mut to = Tray::new("to".to_string());
    from.add_die(showing(0, "a", 6, 1));
    from.add_die(showing(1, "b", 6, 2));
    to.add_die(showing(2, "c", 6, 3));
    from.move_die_to(0, &mut to).unwrap();
    assert_eq!(from.len(), 1);
    assert_eq!(from.get_dice()[0].get_id(), 1);
    let moved: Vec<usize> = to.get_dice().iter().map(|d| d.get_id()).collect();
    assert_eq!(moved, vec![2, 0]);
    assert_eq!(
        from.move_die_to(1, &mut to).unwrap_err(),
        TrayError::IndexOutOfBounds { index: 1, len: 1 }
    );
    assert_eq!(from.len(), 1);
    assert_eq!(to.len(), 2);
}
