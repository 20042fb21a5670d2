use rusty_wit::catalog::{
    add_game, added_game, catalog_folder, copy_result, find_game, find_value, game_from_section,
    games_from_sections, get_games, id6_command, list_command, remove_game, remove_prompt,
    remove_result, select_games, Game, Property, Section, ToolOutput,
};
use rusty_wit::error::{Error, Step};
use rusty_wit::platform::Platform;

fn printed(text: &str) -> ToolOutput {
    ToolOutput { exit_code: Some(0), stdout: Some(String::from(text)) }
}

fn property(key: &str, value: &str) -> Property {
    Property { key: String::from(key), value: String::from(value) }
}

fn section(name: &str, lines: Vec<Property>) -> Section {
    Section { name: Some(String::from(name)), properties: lines }
}

fn game(id: &str, title: &str, size: u64, path: &str) -> Game {
    Game { id: String::from(id), title: String::from(title), size, path: String::from(path) }
}

fn strings(items: &[&str]) -> Vec<String> {
    items.iter().map(|s| String::from(*s)).collect()
}

#[test]
fn listing_with_summary_and_one_game() {
    let text = "[summary]\ntotal-discs=1\ntotal-size=4699979776\n\n[GAFE01]\nid=GAFE01\ntitle=Animal Crossing\nsize=4699979776\nfilename=/mnt/usb/wbfs/GAFE01.wbfs\n";
    let games = get_games(&printed(text)).unwrap();
    assert_eq!(
        games,
        vec![game("GAFE01", "Animal Crossing", 4699979776, "/mnt/usb/wbfs/GAFE01.wbfs")]
    );
    assert_eq!(games[0].id, "GAFE01");
}

#[test]
fn section_without_title_is_dropped() {
    let text = "[GAFE01]\nid=GAFE01\nsize=10\nfilename=a.wbfs\n[RMCE01]\nid=RMCE01\ntitle=Mario Kart\nsize=20\nfilename=b.wbfs\n";
    let games = get_games(&printed(text)).unwrap();
    assert_eq!(games, vec![game("RMCE01", "Mario Kart", 20, "b.wbfs")]);
}

#[test]
fn listing_without_game_sections_is_empty() {
    assert_eq!(get_games(&printed("")), Ok(vec![]));
    assert_eq!(get_games(&printed("[summary]\ntotal-discs=0\n")), Ok(vec![]));
    assert_eq!(get_games(&printed("stray=1\n[summary]\nx=y\n")), Ok(vec![]));
}

#[test]
fn section_with_unreadable_size_is_dropped() {
    let text = "[A]\nid=AAAAAA\ntitle=T\nsize=big\nfilename=a\n[B]\nid=BBBBBB\ntitle=U\nsize=1.5\nfilename=b\n[C]\nid=CCCCCC\ntitle=V\nsize=3\nfilename=c\n";
    assert_eq!(get_games(&printed(text)), Ok(vec![game("CCCCCC", "V", 3, "c")]));
}

#[test]
fn listing_keeps_the_order_of_the_sections() {
    let text = "[Z]\nid=ZZZZZZ\ntitle=Z\nsize=1\nfilename=z\n[A]\nid=AAAAAA\ntitle=A\nsize=2\nfilename=a\n";
    assert_eq!(
        get_games(&printed(text)),
        Ok(vec![game("ZZZZZZ", "Z", 1, "z"), game("AAAAAA", "A", 2, "a")])
    );
}

#[test]
fn listing_takes_the_first_value_of_a_repeated_key() {
    let text = "[A]\nid=AAAAAA\nid=BBBBBB\ntitle=A\nsize=2\nfilename=a\n";
    assert_eq!(get_games(&printed(text)), Ok(vec![game("AAAAAA", "A", 2, "a")]));
}

#[test]
fn listing_trims_what_the_parser_trims() {
    let text = "[ A ]\n id = AAAAAA \ntitle : A game\nsize=2\nfilename=a\n";
    assert_eq!(get_games(&printed(text)), Ok(vec![game("AAAAAA", "A game", 2, "a")]));
}

#[test]
fn failed_listing_is_a_tool_failure() {
    let failed = ToolOutput { exit_code: Some(1), stdout: Some(String::from("[A]\nid=AAAAAA\ntitle=A\nsize=2\nfilename=a\n")) };
    assert_eq!(get_games(&failed), Err(Error::ToolInvocationFailed(Step::List)));
    let killed = ToolOutput { exit_code: None, stdout: Some(String::new()) };
    assert_eq!(get_games(&killed), Err(Error::ToolInvocationFailed(Step::List)));
    let garbled = ToolOutput { exit_code: Some(0), stdout: None };
    assert_eq!(get_games(&garbled), Err(Error::ToolInvocationFailed(Step::List)));
}

#[test]
fn listing_that_is_no_ini_is_a_tool_failure() {
    assert_eq!(
        get_games(&printed("[A\nid=AAAAAA")),
        Err(Error::ToolInvocationFailed(Step::List))
    );
    assert_eq!(get_games(&printed("=value\n")), Err(Error::ToolInvocationFailed(Step::List)));
}

#[test]
fn games_from_sections_passes_over_what_describes_no_game() {
    let sections = vec![
        Section { name: None, properties: vec![property("id", "XXXXXX")] },
        section("summary", vec![property("id", "S"), property("title", "S"), property("size", "1"), property("filename", "s")]),
        section("A", vec![property("id", "AAAAAA"), property("title", "A"), property("size", "5"), property("filename", "a")]),
        section("B", vec![property("id", "BBBBBB"), property("title", "B"), property("size", "5")]),
        section("C", vec![property("title", "C"), property("size", "5"), property("filename", "c")]),
        section("D", vec![property("filename", "d"), property("size", "18446744073709551615"), property("title", ""), property("id", "")]),
        section("E", vec![property("id", "E"), property("title", "E"), property("size", "18446744073709551616"), property("filename", "e")]),
    ];
    assert_eq!(
        games_from_sections(&sections),
        vec![game("AAAAAA", "A", 5, "a"), game("", "", u64::MAX, "d")]
    );
    assert_eq!(games_from_sections(&vec![]), vec![]);
}

#[test]
fn game_from_section_needs_all_four_keys() {
    let full = section("A", vec![property("id", "AAAAAA"), property("title", "A"), property("size", "5"), property("filename", "a")]);
    assert_eq!(game_from_section(&full), Some(game("AAAAAA", "A", 5, "a")));
    for missing in 0..4 {
        let mut lines = full.properties.clone();
        lines.remove(missing);
        assert_eq!(game_from_section(&section("A", lines)), None);
    }
    let mut summary = full.clone();
    summary.name = Some(String::from("summary"));
    assert_eq!(game_from_section(&summary), None);
    let mut unnamed = full.clone();
    unnamed.name = None;
    assert_eq!(game_from_section(&unnamed), None);
    let mut other_case = full;
    other_case.name = Some(String::from("Summary"));
    assert_eq!(game_from_section(&other_case), Some(game("AAAAAA", "A", 5, "a")));
}

#[test]
fn find_value_takes_the_first() {
    let lines = vec![property("a", "1"), property("b", "2"), property("a", "3")];
    assert_eq!(find_value(&lines, "a"), Some(String::from("1")));
    assert_eq!(find_value(&lines, "b"), Some(String::from("2")));
    assert_eq!(find_value(&lines, "c"), None);
    assert_eq!(find_value(&lines, "A"), None);
    assert_eq!(find_value(&vec![], "a"), None);
}

#[test]
fn list_command_lists_the_catalog_folder() {
    let command = list_command(Platform::Linux, "/mnt/usb");
    assert_eq!(command.program, "/mnt/usb/wit-v3.04a-r8427-x86_64/bin/wit");
    assert_eq!(command.args, strings(&["list", "/mnt/usb/wbfs", "--sections"]));
    assert_eq!(catalog_folder(Platform::Windows, "E:\\"), "E:\\wbfs");
}

#[test]
fn id6_command_names_the_source() {
    let command = id6_command(Platform::MacOs, "/Volumes/USB", "/tmp/game.iso");
    assert_eq!(command.program, "/Volumes/USB/wit-v3.04a-r8427-mac/bin/wit");
    assert_eq!(command.args, strings(&["id6", "/tmp/game.iso"]));
}

#[test]
fn add_game_copies_under_the_identifier() {
    let plan = add_game(Platform::Linux, "/mnt/usb", "/tmp/game.iso", &printed("GAFE01\n")).unwrap();
    assert_eq!(plan.id, "GAFE01");
    assert_eq!(plan.destination, "/mnt/usb/wbfs/GAFE01.wbfs");
    assert_eq!(plan.command.program, "/mnt/usb/wit-v3.04a-r8427-x86_64/bin/wit");
    assert_eq!(
        plan.command.args,
        strings(&["copy", "/tmp/game.iso", "/mnt/usb/wbfs/GAFE01.wbfs", "--split", "--split-size", "4G-32K"])
    );
}

#[test]
fn added_game_is_found_in_the_next_listing_and_gone_after_removal() {
    let plan = add_game(Platform::Linux, "/mnt/usb", "/tmp/game.iso", &printed(" RMCE01 \r\n")).unwrap();
    let after_add = get_games(&printed(
        "[GAFE01]\nid=GAFE01\ntitle=A\nsize=1\nfilename=a\n[RMCE01]\nid=RMCE01\ntitle=B\nsize=2\nfilename=/mnt/usb/wbfs/RMCE01.wbfs\n",
    ))
    .unwrap();
    let place = find_game(&after_add, plan.id.as_str()).unwrap();
    assert_eq!(place, 1);
    assert_eq!(after_add[place].path, plan.destination);
    assert_eq!(after_add.iter().filter(|g| g.id == plan.id).count(), 1);
    let command = remove_game(Platform::Linux, "/mnt/usb", &after_add[place], true).unwrap();
    assert_eq!(command.args, strings(&["remove", "/mnt/usb/wbfs/RMCE01.wbfs"]));
    let after_remove = get_games(&printed("[GAFE01]\nid=GAFE01\ntitle=A\nsize=1\nfilename=a\n")).unwrap();
    assert_eq!(find_game(&after_remove, plan.id.as_str()), None);
}

#[test]
fn add_game_needs_an_identifier_of_six() {
    let bad = Err(Error::ToolInvocationFailed(Step::Copy));
    assert_eq!(add_game(Platform::Linux, "/mnt/usb", "g.iso", &printed("")), bad);
    assert_eq!(add_game(Platform::Linux, "/mnt/usb", "g.iso", &printed("GAFE0\n")), bad);
    assert_eq!(add_game(Platform::Linux, "/mnt/usb", "g.iso", &printed("GAFE012\n")), bad);
    assert_eq!(add_game(Platform::Linux, "/mnt/usb", "g.iso", &printed("   \n")), bad);
    let failed = ToolOutput { exit_code: Some(2), stdout: Some(String::from("GAFE01\n")) };
    assert_eq!(add_game(Platform::Linux, "/mnt/usb", "g.iso", &failed), bad);
    let garbled = ToolOutput { exit_code: Some(0), stdout: None };
    assert_eq!(add_game(Platform::Linux, "/mnt/usb", "g.iso", &garbled), bad);
}

#[test]
fn copy_fails_when_the_tool_fails() {
    assert_eq!(copy_result(&printed("")), Ok(()));
    assert_eq!(
        copy_result(&ToolOutput { exit_code: Some(1), stdout: None }),
        Err(Error::CopyFailed)
    );
    assert_eq!(
        copy_result(&ToolOutput { exit_code: None, stdout: None }),
        Err(Error::CopyFailed)
    );
}

#[test]
fn declined_removal_runs_nothing() {
    let target = game("GAFE01", "Animal Crossing", 1, "/mnt/usb/wbfs/GAFE01.wbfs");
    let catalog = vec![target.clone()];
    assert_eq!(remove_game(Platform::Linux, "/mnt/usb", &target, false), None);
    assert_eq!(catalog, vec![target]);
}

#[test]
fn confirmed_removal_removes_the_stored_path() {
    let target = game("GAFE01", "Animal Crossing", 1, "/mnt/usb/wbfs/GAFE01.wbfs");
    let command = remove_game(Platform::Linux, "/mnt/usb", &target, true).unwrap();
    assert_eq!(command.program, "/mnt/usb/wit-v3.04a-r8427-x86_64/bin/wit");
    assert_eq!(command.args, strings(&["remove", "/mnt/usb/wbfs/GAFE01.wbfs"]));
}

#[test]
fn removal_fails_when_the_tool_fails() {
    assert_eq!(remove_result(&printed("")), Ok(()));
    assert_eq!(
        remove_result(&ToolOutput { exit_code: Some(3), stdout: Some(String::new()) }),
        Err(Error::RemoveFailed)
    );
}

#[test]
fn removal_prompt_names_the_game() {
    let prompt = remove_prompt(&game("GAFE01", "Animal Crossing", 1, "p"));
    assert_eq!(prompt.title, "Remove Game");
    assert_eq!(prompt.description, "Are you sure you want to remove Animal Crossing?");
}

#[test]
fn find_game_takes_the_first_with_the_identifier() {
    let games = vec![game("A", "1", 1, "a"), game("B", "2", 2, "b"), game("A", "3", 3, "c")];
    assert_eq!(find_game(&games, "A"), Some(0));
    assert_eq!(find_game(&games, "B"), Some(1));
    assert_eq!(find_game(&games, "C"), None);
    assert_eq!(find_game(&vec![], "A"), None);
}

#[test]
fn empty_selection_is_no_failure() {
    assert_eq!(select_games(None), Vec::<String>::new());
    assert_eq!(select_games(Some(vec![])), Vec::<String>::new());
    assert_eq!(select_games(Some(strings(&["a.iso", "b.iso"]))), strings(&["a.iso", "b.iso"]));
}

#[test]
fn identifier_is_trimmed_of_unicode_white_space() {
    let plan = add_game(Platform::Linux, "/mnt/usb", "g.iso", &printed("GAFE01\u{a0}")).unwrap();
    assert_eq!(plan.id, "GAFE01");
    assert_eq!(plan.id.chars().count(), 6);
    assert_eq!(plan.destination, "/mnt/usb/wbfs/GAFE01.wbfs");
    let plan = add_game(Platform::Linux, "/mnt/usb", "g.iso", &printed("\u{2003}RMCE01\u{85}\n")).unwrap();
    assert_eq!(plan.id, "RMCE01");
}

#[test]
fn added_game_is_the_first_with_the_identifier() {
    let games = vec![game("A", "1", 1, "a"), game("B", "2", 2, "b"), game("B", "3", 3, "c")];
    assert_eq!(added_game(&games, "B"), Ok(game("B", "2", 2, "b")));
    assert_eq!(added_game(&games, "A"), Ok(game("A", "1", 1, "a")));
}

#[test]
fn addition_that_left_no_game_has_failed() {
    let games = vec![game("A", "1", 1, "a")];
    assert_eq!(added_game(&games, "B"), Err(Error::ToolInvocationFailed(Step::Copy)));
    assert_eq!(added_game(&vec![], "A"), Err(Error::ToolInvocationFailed(Step::Copy)));
}
