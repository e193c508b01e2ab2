use dice_tray::cli_parser::{
    captures, parse_add_command, parse_custom_command, parse_dice_notation,
    parse_dice_tray_commands, parse_drop_command, parse_identity_flag, parse_index_flag,
    parse_notation_groups, parse_roll_command, DiceTrayCommandType, ParsedDiceTrayCommand,
    Targets, DICE_NOTATION_PATTERN, IDENTITY_FLAG_PATTERN, INDEX_FLAG_PATTERN,
};
use dice_tray::text::{eq_ignoring_ascii_case, parse_number, split_on, split_words};

fn strings(items: &[&str]) -> Vec<String> {
    items.iter().map(|s| s.to_string()).collect()
}

fn command(kind: DiceTrayCommandType, text: Option<&str>) -> ParsedDiceTrayCommand {
    ParsedDiceTrayCommand {
        command_type: kind,
        command_string: text.map(|t| t.to_string()),
    }
}

#[test]
fn words_are_runs_without_white_space() {
    assert_eq!(split_words("  2d6   $atk\t@1,2 \n"), strings(&["2d6", "$atk", "@1,2"]));
    assert_eq!(split_words(""), Vec::<String>::new());
    assert_eq!(split_words(" \u{a0}\u{3000} "), Vec::<String>::new());
    assert_eq!(split_words("one"), strings(&["one"]));
    assert_eq!(split_words("a\u{2003}b"), strings(&["a", "b"]));
    assert_eq!(split_words("héllo wörld"), strings(&["héllo", "wörld"]));
}

#[test]
fn pieces_keep_empty_ones() {
    assert_eq!(split_on("a,b,c", ','), strings(&["a", "b", "c"]));
    assert_eq!(split_on("", ','), strings(&[""]));
    assert_eq!(split_on(",", ','), strings(&["", ""]));
    assert_eq!(split_on("a,,b,", ','), strings(&["a", "", "b", ""]));
    assert_eq!(split_on("abc", ','), strings(&["abc"]));
}

#[test]
fn numbers_are_digits_only() {
    assert_eq!(parse_number("0", 10), Some(0));
    assert_eq!(parse_number("007", 10), Some(7));
    assert_eq!(parse_number("10", 10), Some(10));
    assert_eq!(parse_number("11", 10), None);
    assert_eq!(parse_number("", 10), None);
    assert_eq!(parse_number("+5", 10), None);
    assert_eq!(parse_number("5 ", 10), None);
    assert_eq!(parse_number("٣", 10), None);
    assert_eq!(parse_number("4294967295", u32::MAX as u64), Some(4294967295));
    assert_eq!(parse_number("4294967296", u32::MAX as u64), None);
    assert_eq!(parse_number("18446744073709551615", u64::MAX), Some(u64::MAX));
    assert_eq!(parse_number("18446744073709551616", u64::MAX), None);
    assert_eq!(parse_number("99999999999999999999999", u64::MAX), None);
}

#[test]
fn ascii_case_is_ignored() {
    assert!(eq_ignoring_ascii_case("-ReRollBest", "-rerollbest"));
    assert!(eq_ignoring_ascii_case("", ""));
    assert!(!eq_ignoring_ascii_case("-a", "-b"));
    assert!(!eq_ignoring_ascii_case("-a", "-aa"));
    assert!(!eq_ignoring_ascii_case("é", "É"));
    assert!(!eq_ignoring_ascii_case("@", "`"));
    assert!(!eq_ignoring_ascii_case("[", "{"));
}

#[test]
fn the_regex_crate_is_really_asked() {
    let groups = captures(DICE_NOTATION_PATTERN, "3D20").unwrap();
    assert_eq!(
        groups,
        vec![
            Some("3D20".to_string()),
            Some("3".to_string()),
            Some("20".to_string())
        ]
    );
    assert_eq!(captures(DICE_NOTATION_PATTERN, "3d"), None);
    assert_eq!(captures(DICE_NOTATION_PATTERN, "x3d6"), None);
    let groups = captures(IDENTITY_FLAG_PATTERN, "$atk,def!").unwrap();
    assert_eq!(groups[0], Some("$atk,def".to_string()));
    assert_eq!(groups[1], Some("atk,def".to_string()));
    assert_eq!(groups[2], Some(",def".to_string()));
    let groups = captures(IDENTITY_FLAG_PATTERN, "$solo").unwrap();
    assert_eq!(groups[2], None);
    assert_eq!(captures(INDEX_FLAG_PATTERN, "@1,2x"), None);
    assert_eq!(captures("(", "anything"), None);
    assert!(captures("a(b)?", "xa").is_some());
}

#[test]
fn groups_are_read() {
    let groups = captures(IDENTITY_FLAG_PATTERN, "$atk,def").unwrap();
    assert_eq!(parse_identity_flag(&groups), Some(strings(&["atk", "def"])));
    let groups = captures(INDEX_FLAG_PATTERN, "@0,3,99999999999999999999999,2").unwrap();
    assert_eq!(parse_index_flag(&groups), Some(vec![0, 3, 2]));
    assert_eq!(parse_identity_flag(&vec![Some("whole".to_string())]), None);
    assert_eq!(parse_index_flag(&vec![Some("x".to_string()), None]), None);
    assert_eq!(
        parse_notation_groups(&vec![
            Some("d8".to_string()),
            Some("".to_string()),
            Some("8".to_string())
        ]),
        (1, 8)
    );
    assert_eq!(parse_notation_groups(&vec![]), (1, 6));
    assert_eq!(
        parse_notation_groups(&vec![
            None,
            Some("99999999999".to_string()),
            Some("99999999999".to_string())
        ]),
        (1, 6)
    );
}

#[test]
fn dice_notation() {
    assert_eq!(parse_dice_notation("2d6"), Ok((2, 6)));
    assert_eq!(parse_dice_notation("d20"), Ok((1, 20)));
    assert_eq!(parse_dice_notation("10D100"), Ok((10, 100)));
    assert_eq!(parse_dice_notation("0d0"), Ok((0, 0)));
    assert_eq!(parse_dice_notation("5000000000d7"), Ok((1, 7)));
    assert_eq!(parse_dice_notation("2d5000000000"), Ok((2, 6)));
    assert_eq!(
        parse_dice_notation("two dice"),
        Err("No dice notation found in dice command.".to_string())
    );
    assert!(parse_dice_notation("2d6 ").is_err());
    assert!(parse_dice_notation("").is_err());
}

#[test]
fn a_line_without_flags_is_one_add_command() {
    assert_eq!(
        parse_dice_tray_commands("2d6  d20"),
        vec![command(DiceTrayCommandType::Add, Some("2d6 d20"))]
    );
    assert_eq!(
        parse_dice_tray_commands(""),
        vec![command(DiceTrayCommandType::Add, Some(""))]
    );
}

#[test]
fn flags_split_a_line_into_commands() {
    assert_eq!(
        parse_dice_tray_commands("2d6 -r $atk @1 -RB -d\n"),
        vec![
            command(DiceTrayCommandType::Add, Some("2d6")),
            command(DiceTrayCommandType::Roll, Some("$atk @1")),
            command(DiceTrayCommandType::ReRollBest, None),
            command(DiceTrayCommandType::Drop, Some("")),
        ]
    );
    assert_eq!(
        parse_dice_tray_commands("-a 1d4"),
        vec![
            command(DiceTrayCommandType::Add, None),
            command(DiceTrayCommandType::Add, Some("1d4")),
        ]
    );
}

#[test]
fn every_flag_has_its_command() {
    let cases = [
        ("-a", DiceTrayCommandType::Add),
        ("-add", DiceTrayCommandType::Add),
        ("-r", DiceTrayCommandType::Roll),
        ("-roll", DiceTrayCommandType::Roll),
        ("-d", DiceTrayCommandType::Drop),
        ("-drop", DiceTrayCommandType::Drop),
        ("-rb", DiceTrayCommandType::ReRollBest),
        ("-rerollbest", DiceTrayCommandType::ReRollBest),
        ("-rw", DiceTrayCommandType::ReRollWorst),
        ("-rerollworst", DiceTrayCommandType::ReRollWorst),
        ("-e", DiceTrayCommandType::Explode),
        ("-explode", DiceTrayCommandType::Explode),
        ("-h", DiceTrayCommandType::Help),
        ("-HELP", DiceTrayCommandType::Help),
        ("-x", DiceTrayCommandType::Exit),
        ("-Exit", DiceTrayCommandType::Exit),
        ("-c", DiceTrayCommandType::Roll),
        ("-custom", DiceTrayCommandType::Roll),
        ("-", DiceTrayCommandType::Roll),
        ("-zzz", DiceTrayCommandType::Roll),
    ];
    for (flag, kind) in cases {
        assert_eq!(DiceTrayCommandType::from_flag(flag), kind, "{}", flag);
        let parsed = parse_dice_tray_commands(flag);
        assert_eq!(parsed.len(), 2);
        assert_eq!(parsed[1].command_type, kind);
    }
}

#[test]
fn roll_targets() {
    let targets = parse_roll_command(Some("$atk,def @0,2"));
    assert_eq!(targets.get_identity_flags(), Some(&strings(&["atk", "def"])));
    assert_eq!(targets.get_index_flags(), Some(&vec![0, 2]));
    assert!(!targets.is_empty());
    let targets = parse_roll_command(Some("nothing here"));
    assert!(targets.is_empty());
    assert_eq!(targets.get_identity_flags(), None);
    assert_eq!(targets.get_index_flags(), None);
    assert!(parse_roll_command(None).is_empty());
    let targets = parse_roll_command(Some("$a $b @1 @2,3"));
    assert_eq!(targets.get_identity_flags(), Some(&strings(&["b"])));
    assert_eq!(targets.get_index_flags(), Some(&vec![2, 3]));
    assert_eq!(targets, Targets::new(Some(strings(&["b"])), Some(vec![2, 3])));
}

#[test]
fn index_flags_that_cannot_be_read_leave_an_empty_list() {
    let targets = parse_drop_command(Some("@99999999999999999999999"));
    assert!(!targets.is_empty());
    assert_eq!(targets.get_index_flags(), None);
    assert_eq!(targets, Targets::new(None, Some(vec![])));
    assert!(parse_drop_command(None).is_empty());
    let targets = parse_drop_command(Some("$x @4"));
    assert_eq!(targets, Targets::new(Some(strings(&["x"])), Some(vec![4])));
}

#[test]
fn add_command_lists_the_dice() {
    assert_eq!(parse_add_command(None), None);
    assert_eq!(parse_add_command(Some("")), Some(vec![]));
    assert_eq!(
        parse_add_command(Some("2d6 $atk,x d20 junk $def 1d4 0d8")),
        Some(vec![
            (None, 6),
            (None, 6),
            (Some("atk".to_string()), 20),
            (Some("def".to_string()), 4),
        ])
    );
}

#[test]
fn custom_command_makes_a_table() {
    let table = parse_custom_command("$loot gold gems  nothing").unwrap();
    assert_eq!(table.get_name(), "loot");
    assert_eq!(table.lookup(1), Ok("gold"));
    assert_eq!(table.lookup(2), Ok("gems"));
    assert_eq!(table.lookup(3), Ok("nothing"));
    assert_eq!(table.lookup(4), Ok("gold"));
    let table = parse_custom_command("a $first b $second,third c").unwrap();
    assert_eq!(table.get_name(), "second");
    assert_eq!(table.lookup(3), Ok("c"));
}

#[test]
fn custom_command_says_what_it_lacks() {
    assert_eq!(
        parse_custom_command("gold gems").unwrap_err(),
        "No identity provided. Cannot create custom dice without an identity."
    );
    assert_eq!(
        parse_custom_command("").unwrap_err(),
        "No identity provided. Cannot create custom dice without an identity."
    );
    assert_eq!(
        parse_custom_command("$loot").unwrap_err(),
        "No identity provided. Cannot create a custom dice without at least one option for their face."
    );
}
