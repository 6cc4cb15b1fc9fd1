//! The action attached to an entry, and its text form.

use vstd::prelude::*;
use vstd::string::StringExecFns;
use crate::text::{ascii_upper, ascii_upper_text, eq_ignore_ascii_case, same_ignoring_ascii_case};

verus! {

/// What is to be done with the file an entry names.
#[derive(Debug, Clone, Copy, PartialEq, Eq, Structural)]
pub enum Action {
    Add,
    Delete,
    Update,
}

/// The error of reading an action from a text that names none.
#[derive(Debug, Clone)]
pub struct InvalidAction {
    /// The text that was offered.
    pub text: String,
}

/// What every invalid-action message starts with.
pub open spec fn invalid_action_prefix() -> Seq<char> {
    seq!['I', 'n', 'v', 'a', 'l', 'i', 'd', ' ', 'a', 'c', 't', 'i', 'o', 'n', ':', ' ']
}

impl InvalidAction {
    /// The message of the error: a fixed prefix and the offending text.
    pub fn message(&self) -> (m: String)
        ensures
            m@ == invalid_action_prefix() + self.text@,
    {
        proof {
            reveal_strlit("Invalid action: ");
        }
        let mut m = String::from_str("Invalid action: ");
        assert(m@ =~= invalid_action_prefix());
        m.append(self.text.as_str());
        m
    }
}

impl Action {
    /// The canonical, upper-case text of an action.
    pub open spec fn canonical(self) -> Seq<char> {
        match self {
            Action::Add => seq!['A', 'D', 'D'],
            Action::Delete => seq!['D', 'E', 'L', 'E', 'T', 'E'],
            Action::Update => seq!['U', 'P', 'D', 'A', 'T', 'E'],
        }
    }

    /// The action that a text names: the one whose canonical text it equals up
    /// to the case of its letters.
    pub open spec fn named_by(text: Seq<char>) -> Option<Action> {
        if same_ignoring_ascii_case(text, Action::Add.canonical()) {
            Some(Action::Add)
        } else if same_ignoring_ascii_case(text, Action::Delete.canonical()) {
            Some(Action::Delete)
        } else if same_ignoring_ascii_case(text, Action::Update.canonical()) {
            Some(Action::Update)
        } else {
            None
        }
    }

    /// The canonical text of the action.
    pub fn to_str(&self) -> (s: &'static str)
        ensures
            s@ == self.canonical(),
    {
        proof {
            reveal_strlit("ADD");
            reveal_strlit("DELETE");
            reveal_strlit("UPDATE");
        }
        match self {
            Action::Add => "ADD",
            Action::Delete => "DELETE",
            Action::Update => "UPDATE",
        }
    }

    /// Reads an action from its name in any mix of upper and lower case. A text
    /// that names no action is handed back in the error.
    pub fn try_from(value: &str) -> (r: Result<Action, InvalidAction>)
        ensures
            match Action::named_by(value@) {
                Some(action) => r == Ok::<Action, InvalidAction>(action),
                None => r is Err && r->Err_0.text@ == value@,
            },
    {
        if eq_ignore_ascii_case(value, Action::Add.to_str()) {
            Ok(Action::Add)
        } else if eq_ignore_ascii_case(value, Action::Delete.to_str()) {
            Ok(Action::Delete)
        } else if eq_ignore_ascii_case(value, Action::Update.to_str()) {
            Ok(Action::Update)
        } else {
            Err(InvalidAction { text: String::from_str(value) })
        }
    }
}

/// Every action is named by its own canonical text.
pub proof fn law_canonical_names_itself(action: Action)
    ensures
        Action::named_by(action.canonical()) == Some(action),
{
    assert(same_ignoring_ascii_case(action.canonical(), action.canonical()));
    assert(Action::Add.canonical().len() != Action::Delete.canonical().len());
    assert(Action::Add.canonical().len() != Action::Update.canonical().len());
    assert(Action::Delete.canonical()[0] == 'D');
    assert(Action::Update.canonical()[0] == 'U');
}

/// The canonical text of the action that a text names is that text in upper case.
pub proof fn law_named_action_is_upper_case(text: Seq<char>, action: Action)
    requires
        Action::named_by(text) == Some(action),
    ensures
        action.canonical() == ascii_upper_text(text),
{
    let canon = action.canonical();
    assert(same_ignoring_ascii_case(text, canon));
    assert forall|i: int| 0 <= i < canon.len() implies canon[i] == #[trigger] ascii_upper_text(
        text,
    )[i] by {
        assert(ascii_upper(text[i]) == ascii_upper(canon[i]));
    }
    assert(canon =~= ascii_upper_text(text));
}

} // verus!
