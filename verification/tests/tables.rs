use dice_tray::dice::{Die, DieResult, DieResultType};
use dice_tray::settings::DiceTraySettings;
use dice_tray::tables::{implement_test_table, DiceResultTable};
use std::collections::HashMap;

#[test]
fn test_table_has_six_outcomes() {
    let table = implement_test_table();
    assert_eq!(table.get_name(), "test");
    assert_eq!(table.lookup(1), Ok("Critical Fail"));
    assert_eq!(table.lookup(2), Ok("Fail"));
    assert_eq!(table.lookup(3), Ok("Neutral"));
    assert_eq!(table.lookup(4), Ok("Success"));
    assert_eq!(table.lookup(5), Ok("Critical Success"));
    assert_eq!(table.lookup(6), Ok("Unexpected Result"));
    assert_eq!(table.get_entries().len(), 6);
}

#[test]
fn lookup_wraps_once() {
    let table = implement_test_table();
    assert_eq!(table.lookup(7), Ok("Critical Fail"));
    assert_eq!(table.lookup(12), Ok("Unexpected Result"));
    assert_eq!(
        table.lookup(13),
        Err("No result found at 7 in table test ".to_string())
    );
    assert_eq!(
        table.lookup(0),
        Err("No result found at 0 in table test ".to_string())
    );
}

#[test]
fn new_numbers_the_texts_from_one() {
    let table = DiceResultTable::new(
        "coin".to_string(),
        vec!["heads".to_string(), "tails".to_string()],
    );
    assert_eq!(table.lookup(1), Ok("heads"));
    assert_eq!(table.lookup(2), Ok("tails"));
    assert_eq!(table.lookup(3), Ok("heads"));
    let empty = DiceResultTable::new("none".to_string(), vec![]);
    assert_eq!(
        empty.lookup(1),
        Err("No result found at 1 in table none ".to_string())
    );
}

#[test]
fn from_entries_keeps_the_map() {
    let mut map = HashMap::new();
    map.insert(2u32, "two".to_string());
    map.insert(9u32, "nine".to_string());
    let table = DiceResultTable::from_entries("odd".to_string(), map);
    assert_eq!(table.lookup(2), Ok("two"));
    assert_eq!(
        table.lookup(1),
        Err("No result found at 1 in table odd ".to_string())
    );
    assert_eq!(
        table.lookup(9),
        Err("No result found at 7 in table odd ".to_string())
    );
    assert_eq!(table.lookup(11), Ok("nine"));
    assert_eq!(table.lookup(4), Ok("two"));
}

#[test]
fn settings_find_tables_by_name() {
    let mut settings = DiceTraySettings::new();
    assert!(!settings.has_table("test"));
    assert_eq!(
        settings.dice_table_lookup("test", 1),
        Err("No table found with name test".to_string())
    );
    settings.add_result_table(implement_test_table());
    assert!(settings.has_table("test"));
    assert_eq!(settings.dice_table_lookup("test", 4), Ok("Success"));
    assert_eq!(
        settings.dice_table_lookup("test", 13),
        Err(
            "No result found for dice result 13 in table test | Error No result found at 7 in table test "
                .to_string()
        )
    );
}

#[test]
fn adding_a_table_replaces_its_namesake() {
    let mut settings = DiceTraySettings::new();
    settings.add_result_table(implement_test_table());
    settings.add_result_table(DiceResultTable::new(
        "coin".to_string(),
        vec!["heads".to_string(), "tails".to_string()],
    ));
    settings.add_result_table(DiceResultTable::new(
        "test".to_string(),
        vec!["only".to_string()],
    ));
    assert_eq!(settings.get_result_tables().len(), 2);
    assert_eq!(settings.dice_table_lookup("test", 1), Ok("only"));
    assert_eq!(settings.dice_table_lookup("coin", 2), Ok("tails"));
    assert_eq!(settings.get_result_tables()[0].get_name(), "test");
}

#[test]
fn die_result_goes_by_the_table() {
    let mut settings = DiceTraySettings::new();
    settings.add_result_table(implement_test_table());
    assert_eq!(
        settings.result_type_for(&Some("test".to_string())),
        DieResultType::Table
    );
    assert_eq!(
        settings.result_type_for(&Some("atk".to_string())),
        DieResultType::Face
    );
    assert_eq!(settings.result_type_for(&None), DieResultType::Face);
    let die = Die::from_saved(
        0,
        "test".to_string(),
        6,
        1,
        5,
        DieResult::NoResult,
        DieResultType::Table,
    );
    assert_eq!(
        settings.die_result(&die),
        DieResult::String("Critical Success".to_string())
    );
    let stray = Die::from_saved(
        0,
        "elsewhere".to_string(),
        6,
        1,
        5,
        DieResult::NoResult,
        DieResultType::Table,
    );
    assert_eq!(
        settings.die_result(&stray),
        DieResult::String("No result found.".to_string())
    );
    let plain = Die::from_saved(
        0,
        "test".to_string(),
        6,
        1,
        5,
        DieResult::Number(5),
        DieResultType::Face,
    );
    assert_eq!(settings.die_result(&plain), DieResult::Number(5));
}
