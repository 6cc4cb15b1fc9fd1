use modlist::action::Action;
use modlist::dialogue::{Notice, Stage, Step, TerminalAction};
use modlist::item::{Field, Item};
use modlist::terminal_actions::{
    advance, execute_command, get_terminal_action, AddItemCommand, DeleteItemCommand,
    ModifyItemCommand, QuitCommand, ShowItemsCommand, TerminalCommand,
};

fn item(filename: &str, action: Action, link: &str) -> Item {
    Item { filename: String::from(filename), action: action, download_link: String::from(link) }
}

fn list(len: usize) -> Vec<Item> {
    let mut items = Vec::new();
    for i in 0..len {
        items.push(item(&format!("file{}", i), Action::Update, &format!("link{}", i)));
    }
    items
}

fn same(a: &Item, b: &Item) -> bool {
    a.filename == b.filename && a.action == b.action && a.download_link == b.download_link
}

fn same_list(a: &Vec<Item>, b: &Vec<Item>) -> bool {
    a.len() == b.len() && (0..a.len()).all(|i| same(&a[i], &b[i]))
}

/// Feeds the lines one after another and returns the last step.
fn run(items: &mut Vec<Item>, lines: &[&str]) -> Step {
    let mut step = Step { next: Stage::Command, notices: Vec::new() };
    for line in lines {
        step = advance(step.next, items, line);
    }
    step
}

#[test]
fn command_letters_in_either_case() {
    assert_eq!(get_terminal_action("q"), Some(TerminalAction::Quit));
    assert_eq!(get_terminal_action("Q"), Some(TerminalAction::Quit));
    assert_eq!(get_terminal_action("a"), Some(TerminalAction::AddItem));
    assert_eq!(get_terminal_action("A"), Some(TerminalAction::AddItem));
    assert_eq!(get_terminal_action("m"), Some(TerminalAction::ModifyItem));
    assert_eq!(get_terminal_action("M"), Some(TerminalAction::ModifyItem));
    assert_eq!(get_terminal_action("d"), Some(TerminalAction::DeleteItem));
    assert_eq!(get_terminal_action("D"), Some(TerminalAction::DeleteItem));
    assert_eq!(get_terminal_action("s"), Some(TerminalAction::Show));
    assert_eq!(get_terminal_action("S"), Some(TerminalAction::Show));
}

#[test]
fn whatever_else_is_no_command() {
    for token in ["", "x", "quit", "qq", " q", "1", "add", "\u{212A}", "é"] {
        assert_eq!(get_terminal_action(token), None, "{:?}", token);
    }
}

#[test]
fn command_letters_agree_with_lower_casing() {
    let mut code: u32 = 0;
    while code <= 0x10FFFF {
        if let Some(c) = char::from_u32(code) {
            let token = c.to_string();
            let expected = match token.to_lowercase().as_str() {
                "q" => Some(TerminalAction::Quit),
                "a" => Some(TerminalAction::AddItem),
                "m" => Some(TerminalAction::ModifyItem),
                "d" => Some(TerminalAction::DeleteItem),
                "s" => Some(TerminalAction::Show),
                _ => None,
            };
            assert_eq!(get_terminal_action(&token), expected, "U+{:04X}", code);
        }
        code += 1;
    }
}

#[test]
fn field_choice_is_one_two_or_three() {
    assert_eq!(ModifyItemCommand::read_user("1"), Some(Field::Filename));
    assert_eq!(ModifyItemCommand::read_user("2"), Some(Field::Action));
    assert_eq!(ModifyItemCommand::read_user("3"), Some(Field::DownloadLink));
    for token in ["", "0", "4", "11", "+1", "01", " 1", "one", "１"] {
        assert_eq!(ModifyItemCommand::read_user(token), None, "{:?}", token);
    }
}

#[test]
fn add_always_appends() {
    for len in [0usize, 1, 5] {
        let mut items = list(len);
        let before = list(len);
        let step = run(&mut items, &["a", "mod.zip", "ADD", "http://x/y"]);
        assert!(matches!(step.next, Stage::Command));
        assert!(step.notices.is_empty());
        assert_eq!(items.len(), len + 1);
        assert!(same(&items[len], &item("mod.zip", Action::Add, "http://x/y")));
        for i in 0..len {
            assert!(same(&items[i], &before[i]));
        }
    }
}

#[test]
fn add_asks_for_the_three_fields_in_order() {
    let mut items = list(1);
    let step = advance(Stage::Command, &mut items, "A");
    assert_eq!(step.notices, vec![Notice::AddingItem]);
    assert!(matches!(&step.next, Stage::Adding { field: Field::Filename, draft }
        if draft.filename.is_empty() && draft.download_link.is_empty() && draft.action == Action::Add));
    let step = advance(step.next, &mut items, "mod.zip");
    assert_eq!(step.notices, vec![Notice::Blank]);
    assert!(matches!(&step.next, Stage::Adding { field: Field::Action, draft }
        if draft.filename == "mod.zip"));
    let step = advance(step.next, &mut items, "update");
    assert_eq!(step.notices, vec![Notice::Blank]);
    assert!(matches!(&step.next, Stage::Adding { field: Field::DownloadLink, draft }
        if draft.filename == "mod.zip" && draft.action == Action::Update));
    assert_eq!(items.len(), 1);
    let step = advance(step.next, &mut items, "http://x/y");
    assert!(step.notices.is_empty());
    assert!(matches!(step.next, Stage::Command));
    assert!(same(&items[1], &item("mod.zip", Action::Update, "http://x/y")));
}

#[test]
fn add_refuses_empty_texts_and_unknown_actions() {
    let mut items = list(0);
    let step = run(&mut items, &["a", ""]);
    assert_eq!(step.notices, vec![Notice::EmptyField]);
    assert!(matches!(step.next, Stage::Adding { field: Field::Filename, .. }));
    let step = advance(step.next, &mut items, "f");
    let step = advance(step.next, &mut items, "REMOVE");
    assert_eq!(step.notices, vec![Notice::InvalidInput]);
    assert!(matches!(&step.next, Stage::Adding { field: Field::Action, draft } if draft.filename == "f"));
    let step = advance(step.next, &mut items, "");
    assert_eq!(step.notices, vec![Notice::InvalidInput]);
    let step = advance(step.next, &mut items, "delete");
    let step = advance(step.next, &mut items, "");
    assert_eq!(step.notices, vec![Notice::EmptyField]);
    assert!(matches!(&step.next, Stage::Adding { field: Field::DownloadLink, draft }
        if draft.filename == "f" && draft.action == Action::Delete));
    assert!(items.is_empty());
    let step = advance(step.next, &mut items, "l");
    assert!(matches!(step.next, Stage::Command));
    assert_eq!(items.len(), 1);
    assert!(same(&items[0], &item("f", Action::Delete, "l")));
}

#[test]
fn delete_and_modify_on_empty_list_are_no_ops() {
    let mut items: Vec<Item> = Vec::new();
    let step = advance(Stage::Command, &mut items, "d");
    assert_eq!(step.notices, vec![Notice::NothingToDelete]);
    assert!(matches!(step.next, Stage::Command));
    assert!(items.is_empty());
    let step = advance(Stage::Command, &mut items, "m");
    assert_eq!(step.notices, vec![Notice::NothingToModify]);
    assert!(matches!(step.next, Stage::Command));
    assert!(items.is_empty());
}

#[test]
fn show_on_empty_list_only_warns() {
    let mut items: Vec<Item> = Vec::new();
    let step = advance(Stage::Command, &mut items, "s");
    assert_eq!(step.notices, vec![Notice::NothingToShow]);
    assert!(matches!(step.next, Stage::Command));
}

#[test]
fn show_prints_the_json_and_awaits_a_command() {
    let mut items = list(2);
    let step = advance(Stage::Command, &mut items, "s");
    assert_eq!(step.notices, vec![Notice::Json]);
    assert!(matches!(step.next, Stage::Command));
    assert!(same_list(&items, &list(2)));
}

#[test]
fn quit_on_empty_list_prints_nothing() {
    let mut items: Vec<Item> = Vec::new();
    let step = advance(Stage::Command, &mut items, "q");
    assert!(step.notices.is_empty());
    assert!(matches!(step.next, Stage::Finished));
    assert!(items.is_empty());
}

#[test]
fn quit_prints_the_json_of_a_list_with_entries() {
    let mut items = list(3);
    let step = advance(Stage::Command, &mut items, "Q");
    assert_eq!(step.notices, vec![Notice::Json]);
    assert!(matches!(step.next, Stage::Finished));
    assert!(same_list(&items, &list(3)));
}

#[test]
fn nothing_moves_a_finished_dialogue() {
    let mut items = list(1);
    let step = advance(Stage::Finished, &mut items, "a");
    assert!(step.notices.is_empty());
    assert!(matches!(step.next, Stage::Finished));
    assert!(same_list(&items, &list(1)));
}

#[test]
fn deleting_index_k_removes_exactly_that_item() {
    for len in 1..6usize {
        for k in 1..=len {
            let mut items = list(len);
            let before = list(len);
            let step = run(&mut items, &["d", &k.to_string()]);
            assert!(step.notices.is_empty());
            assert!(matches!(step.next, Stage::Command));
            assert_eq!(items.len(), len - 1);
            for i in 0..(k - 1) {
                assert!(same(&items[i], &before[i]));
            }
            for i in (k - 1)..(len - 1) {
                assert!(same(&items[i], &before[i + 1]));
            }
        }
    }
}

#[test]
fn delete_shows_the_listing_and_asks_again_after_a_bad_number() {
    let mut items = list(2);
    let step = advance(Stage::Command, &mut items, "d");
    assert_eq!(step.notices, vec![Notice::Listing]);
    assert!(matches!(step.next, Stage::DeleteSelecting));
    let step = advance(step.next, &mut items, "0");
    assert_eq!(step.notices, vec![Notice::OutOfBounds, Notice::Listing]);
    assert!(matches!(step.next, Stage::DeleteSelecting));
    let step = advance(step.next, &mut items, "3");
    assert_eq!(step.notices, vec![Notice::OutOfBounds, Notice::Listing]);
    let step = advance(step.next, &mut items, "two");
    assert_eq!(step.notices, vec![Notice::InvalidInput, Notice::Listing]);
    let step = advance(step.next, &mut items, "");
    assert_eq!(step.notices, vec![Notice::InvalidInput, Notice::Listing]);
    assert!(matches!(step.next, Stage::DeleteSelecting));
    assert!(same_list(&items, &list(2)));
    let step = advance(step.next, &mut items, "2");
    assert!(matches!(step.next, Stage::Command));
    assert_eq!(items.len(), 1);
    assert!(same(&items[0], &list(2)[0]));
}

#[test]
fn modify_overwrites_only_the_targeted_field() {
    let before = list(3);
    let mut items = list(3);
    let step = run(&mut items, &["m", "2", "1", "new.zip"]);
    assert!(matches!(step.next, Stage::Command));
    assert!(same(&items[1], &item("new.zip", Action::Update, "link1")));
    assert!(same(&items[0], &before[0]));
    assert!(same(&items[2], &before[2]));

    let mut items = list(3);
    run(&mut items, &["m", "3", "2", "delete"]);
    assert!(same(&items[2], &item("file2", Action::Delete, "link2")));
    assert!(same(&items[0], &before[0]));
    assert!(same(&items[1], &before[1]));

    let mut items = list(3);
    run(&mut items, &["m", "1", "3", "http://new"]);
    assert!(same(&items[0], &item("file0", Action::Update, "http://new")));
    assert!(same(&items[1], &before[1]));
    assert!(same(&items[2], &before[2]));
}

#[test]
fn modify_walks_through_its_questions() {
    let mut items = list(2);
    let step = advance(Stage::Command, &mut items, "m");
    assert_eq!(step.notices, vec![Notice::Listing]);
    assert!(matches!(step.next, Stage::ModifySelecting));
    let step = advance(step.next, &mut items, "9");
    assert_eq!(step.notices, vec![Notice::OutOfBounds, Notice::Listing]);
    let step = advance(step.next, &mut items, "2");
    assert_eq!(step.notices, vec![Notice::ModifyQuestion]);
    assert!(matches!(step.next, Stage::ModifyChoosing { index: 1 }));
    let step = advance(step.next, &mut items, "4");
    assert_eq!(step.notices, vec![Notice::InvalidInput]);
    assert!(matches!(step.next, Stage::ModifyChoosing { index: 1 }));
    let step = advance(step.next, &mut items, "2");
    assert!(step.notices.is_empty());
    assert!(matches!(step.next, Stage::ModifyEditing { index: 1, field: Field::Action }));
    let step = advance(step.next, &mut items, "REMOVE");
    assert_eq!(step.notices, vec![Notice::InvalidInput]);
    assert!(matches!(step.next, Stage::ModifyEditing { index: 1, field: Field::Action }));
    assert!(same_list(&items, &list(2)));
    let step = advance(step.next, &mut items, "Add");
    assert!(step.notices.is_empty());
    assert!(matches!(step.next, Stage::Command));
    assert_eq!(items[1].action, Action::Add);
}

#[test]
fn modify_refuses_an_empty_filename_and_an_empty_link() {
    let mut items = list(1);
    let step = run(&mut items, &["m", "1", "1", ""]);
    assert_eq!(step.notices, vec![Notice::InvalidInput]);
    assert!(matches!(step.next, Stage::ModifyEditing { index: 0, field: Field::Filename }));
    assert!(same_list(&items, &list(1)));
    let step = run(&mut items, &["m", "1", "3", ""]);
    assert_eq!(step.notices, vec![Notice::InvalidInput]);
    assert!(matches!(step.next, Stage::ModifyEditing { index: 0, field: Field::DownloadLink }));
    assert!(same_list(&items, &list(1)));
}

#[test]
fn modify_item_sets_one_field() {
    let mut entry = item("f", Action::Add, "l");
    assert!(ModifyItemCommand::modify_item(&mut entry, Field::Filename, "g"));
    assert!(same(&entry, &item("g", Action::Add, "l")));
    assert!(ModifyItemCommand::modify_item(&mut entry, Field::Action, "uPdAtE"));
    assert!(same(&entry, &item("g", Action::Update, "l")));
    assert!(ModifyItemCommand::modify_item(&mut entry, Field::DownloadLink, "m"));
    assert!(same(&entry, &item("g", Action::Update, "m")));
    assert!(!ModifyItemCommand::modify_item(&mut entry, Field::Filename, ""));
    assert!(!ModifyItemCommand::modify_item(&mut entry, Field::Action, "x"));
    assert!(!ModifyItemCommand::modify_item(&mut entry, Field::DownloadLink, ""));
    assert!(same(&entry, &item("g", Action::Update, "m")));
}

#[test]
fn re_prompt_never_consumes_list_state() {
    let before = list(3);
    let mut items = list(3);
    let mut step = Step { next: Stage::Command, notices: Vec::new() };
    for line in ["", "x", "quit", "7", "aa"] {
        step = advance(step.next, &mut items, line);
        assert_eq!(step.notices, vec![Notice::InvalidInput]);
        assert!(matches!(step.next, Stage::Command));
        assert!(same_list(&items, &before));
    }
    step = advance(step.next, &mut items, "d");
    for line in ["", "0", "4", "x", "-1", "99999999999999999999999"] {
        step = advance(step.next, &mut items, line);
        assert!(matches!(step.next, Stage::DeleteSelecting));
        assert!(same_list(&items, &before));
    }
    step = advance(step.next, &mut items, "1");
    assert!(matches!(step.next, Stage::Command));
    assert_eq!(items.len(), 2);
    assert!(same(&items[0], &before[1]));
    assert!(same(&items[1], &before[2]));
}

#[test]
fn execute_command_starts_each_command() {
    let mut items = list(2);
    let step = execute_command(TerminalAction::Quit, &mut items);
    assert!(matches!(step.next, Stage::Finished));
    assert_eq!(step.notices, vec![Notice::Json]);
    let step = execute_command(TerminalAction::AddItem, &mut items);
    assert!(matches!(step.next, Stage::Adding { field: Field::Filename, .. }));
    assert_eq!(step.notices, vec![Notice::AddingItem]);
    let step = execute_command(TerminalAction::ModifyItem, &mut items);
    assert!(matches!(step.next, Stage::ModifySelecting));
    assert_eq!(step.notices, vec![Notice::Listing]);
    let step = execute_command(TerminalAction::DeleteItem, &mut items);
    assert!(matches!(step.next, Stage::DeleteSelecting));
    assert_eq!(step.notices, vec![Notice::Listing]);
    let step = execute_command(TerminalAction::Show, &mut items);
    assert!(matches!(step.next, Stage::Command));
    assert_eq!(step.notices, vec![Notice::Json]);
    assert!(same_list(&items, &list(2)));
}

#[test]
fn commands_bound_to_a_list() {
    let mut items = list(1);
    let step = QuitCommand { items: &items }.execute();
    assert!(matches!(step.next, Stage::Finished));
    let step = ShowItemsCommand { items: &items }.execute();
    assert_eq!(step.notices, vec![Notice::Json]);
    let step = AddItemCommand { items: &mut items }.execute();
    assert!(matches!(step.next, Stage::Adding { .. }));
    let step = ModifyItemCommand { items: &mut items }.execute();
    assert!(matches!(step.next, Stage::ModifySelecting));
    let step = DeleteItemCommand { items: &mut items }.execute();
    assert!(matches!(step.next, Stage::DeleteSelecting));
    assert!(same_list(&items, &list(1)));

    let step = DeleteItemCommand { items: &mut items }.resume("1");
    assert!(matches!(step.next, Stage::Command));
    assert!(items.is_empty());
    let draft = item("f", Action::Add, "");
    let step = AddItemCommand { items: &mut items }.resume(Field::DownloadLink, draft, "l");
    assert!(matches!(step.next, Stage::Command));
    assert!(same(&items[0], &item("f", Action::Add, "l")));
    let step = ModifyItemCommand { items: &mut items }.select("1");
    assert!(matches!(step.next, Stage::ModifyChoosing { index: 0 }));
    let step = ModifyItemCommand { items: &mut items }.edit(0, Field::Filename, "g");
    assert!(matches!(step.next, Stage::Command));
    assert!(same(&items[0], &item("g", Action::Add, "l")));
}
