use modlist::action::{Action, InvalidAction};

fn parse(text: &str) -> Result<Action, InvalidAction> {
    Action::try_from(text)
}

#[test]
fn canonical_text_of_each_action() {
    assert_eq!(Action::Add.to_str(), "ADD");
    assert_eq!(Action::Delete.to_str(), "DELETE");
    assert_eq!(Action::Update.to_str(), "UPDATE");
}

#[test]
fn action_round_trip() {
    let tokens = ["ADD", "DELETE", "UPDATE", "add", "Delete", "uPDATE"];
    let expected = ["ADD", "DELETE", "UPDATE", "ADD", "DELETE", "UPDATE"];
    for i in 0..tokens.len() {
        let action = parse(tokens[i]).unwrap();
        assert_eq!(action.to_str(), expected[i]);
        assert_eq!(action.to_str(), tokens[i].to_uppercase());
    }
}

#[test]
fn each_token_names_its_own_action() {
    assert_eq!(parse("add").unwrap(), Action::Add);
    assert_eq!(parse("dElEtE").unwrap(), Action::Delete);
    assert_eq!(parse("Update").unwrap(), Action::Update);
}

#[test]
fn canonical_text_names_its_action() {
    for action in [Action::Add, Action::Delete, Action::Update] {
        assert_eq!(parse(action.to_str()).unwrap(), action);
    }
}

#[test]
fn unrecognized_action_fails() {
    let error = parse("REMOVE").unwrap_err();
    assert_eq!(error.text, "REMOVE");
    assert_eq!(error.message(), "Invalid action: REMOVE");
}

#[test]
fn near_misses_are_no_actions() {
    for text in ["", " ", "AD", "ADDD", "ADD ", " ADD", "A D D", "DELET", "UPDATES", "1", "ÀDD"] {
        let error = parse(text).unwrap_err();
        assert_eq!(error.text, text);
    }
}

#[test]
fn letters_outside_ascii_are_not_folded() {
    // U+212A, the Kelvin sign, lower-cases to `k`; U+0131, the dotless i, upper-cases to `I`.
    assert!(parse("UP\u{212A}ATE").is_err());
    assert!(parse("\u{0131}DD").is_err());
}

#[test]
fn invalid_action_message_keeps_the_text_as_it_is() {
    let error = InvalidAction { text: String::from("  x\ty ") };
    assert_eq!(error.message(), "Invalid action:   x\ty ");
}

#[test]
fn action_names_agree_with_upper_casing() {
    // A text is upper-cased character by character. No character outside ASCII is
    // upper-cased to letters of the three names alone, so a text names an action up
    // to ASCII case exactly when its upper-case form is the action's name.
    let mut code: u32 = 0;
    while code <= 0x10FFFF {
        if let Some(c) = char::from_u32(code) {
            let upper = c.to_string().to_uppercase();
            if c.is_ascii() {
                assert_eq!(upper, c.to_ascii_uppercase().to_string());
            } else {
                assert!(upper.chars().any(|u| !"ADELTUP".contains(u)), "U+{:04X}", code);
            }
        }
        code += 1;
    }
    for text in ["add", "Add", "aDD", "delete", "DeLeTe", "update", "UPDATE", "remove", "ad", ""] {
        let by_upper_case = match text.to_uppercase().as_str() {
            "ADD" => Some(Action::Add),
            "UPDATE" => Some(Action::Update),
            "DELETE" => Some(Action::Delete),
            _ => None,
        };
        assert_eq!(parse(text).ok(), by_upper_case);
    }
}
