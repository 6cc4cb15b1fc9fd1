//! The five commands, and the move that a line of input makes.

use vstd::prelude::*;
use crate::dialogue::{
    adding_turn, command_named_by, field_named_by, started, turn, Notice, Stage, StageView, Step,
    TerminalAction, Turn,
};
use crate::item::{Field, Item, ItemView};
use crate::select::{read_item_idx, Selection};
use crate::text::{chars_of, eq_ignore_ascii_case};

verus! {

/// A command of the dialogue, bound to the list it works on.
pub trait TerminalCommand {
    /// The list the command is bound to.
    spec fn entries(&self) -> Seq<ItemView>;

    /// Which of the commands this is.
    spec fn action(&self) -> TerminalAction;

    /// Starts the command: does what it does before it needs a line of input,
    /// and says what to print and what the next line is taken for. The list is
    /// left as it is.
    fn execute(&mut self) -> (step: Step)
        ensures
            final(self).entries() == old(self).entries(),
            step@ == started(old(self).action(), old(self).entries()),
    ;
}

/// Ends the dialogue, after showing the list if it has entries.
pub struct QuitCommand<'a> {
    pub items: &'a Vec<Item>,
}

impl<'a> TerminalCommand for QuitCommand<'a> {
    open spec fn entries(&self) -> Seq<ItemView> {
        self.items.deep_view()
    }

    open spec fn action(&self) -> TerminalAction {
        TerminalAction::Quit
    }

    fn execute(&mut self) -> (step: Step) {
        let mut notices: Vec<Notice> = Vec::new();
        if !self.items.is_empty() {
            notices.push(Notice::Json);
        }
        Step { next: Stage::Finished, notices: notices }
    }
}

/// Shows the list, if it has entries.
pub struct ShowItemsCommand<'a> {
    pub items: &'a Vec<Item>,
}

impl<'a> TerminalCommand for ShowItemsCommand<'a> {
    open spec fn entries(&self) -> Seq<ItemView> {
        self.items.deep_view()
    }

    open spec fn action(&self) -> TerminalAction {
        TerminalAction::Show
    }

    fn execute(&mut self) -> (step: Step) {
        let mut notices: Vec<Notice> = Vec::new();
        if self.items.is_empty() {
            notices.push(Notice::NothingToShow);
        } else {
            notices.push(Notice::Json);
        }
        Step { next: Stage::Command, notices: notices }
    }
}

/// Collects a new entry and puts it at the end of the list.
///
/// A command that changes the list holds it by a mutable borrow. Each of its
/// methods states, besides what it does to the list, that the borrow is handed
/// on as it was taken: the list that the lender gets back is the list that the
/// command leaves.
pub struct AddItemCommand<'a> {
    pub items: &'a mut Vec<Item>,
}

impl<'a> TerminalCommand for AddItemCommand<'a> {
    open spec fn entries(&self) -> Seq<ItemView> {
        self.items.deep_view()
    }

    open spec fn action(&self) -> TerminalAction {
        TerminalAction::AddItem
    }

    fn execute(&mut self) -> (step: Step)
        ensures
            *final(final(self).items) == *final(old(self).items),
    {
        let mut notices: Vec<Notice> = Vec::new();
        notices.push(Notice::AddingItem);
        Step {
            next: Stage::Adding { field: Field::Filename, draft: Item::default() },
            notices: notices,
        }
    }
}

impl<'a> AddItemCommand<'a> {
    /// Takes a line as the value of the field that is asked for. A value that
    /// the field cannot hold is refused and asked for again; the link completes
    /// the entry, which then joins the list.
    pub fn resume(&mut self, field: Field, draft: Item, line: &str) -> (step: Step)
        ensures
            *final(final(self).items) == *final(old(self).items),
            (Turn { items: final(self).items.deep_view(), step: step@ }) == adding_turn(
                field,
                draft@,
                old(self).items.deep_view(),
                line@,
            ),
    {
        let mut draft = draft;
        let mut notices: Vec<Notice> = Vec::new();
        if !draft.set_field(field, line) {
            match field {
                Field::Action => notices.push(Notice::InvalidInput),
                _ => notices.push(Notice::EmptyField),
            }
            return Step { next: Stage::Adding { field: field, draft: draft }, notices: notices };
        }
        match field {
            Field::Filename => {
                notices.push(Notice::Blank);
                Step {
                    next: Stage::Adding { field: Field::Action, draft: draft },
                    notices: notices,
                }
            },
            Field::Action => {
                notices.push(Notice::Blank);
                Step {
                    next: Stage::Adding { field: Field::DownloadLink, draft: draft },
                    notices: notices,
                }
            },
            Field::DownloadLink => {
                self.items.push(draft);
                proof {
                    assert(self.items.deep_view() =~= old(self).items.deep_view().push(draft@));
                }
                Step { next: Stage::Command, notices: notices }
            },
        }
    }
}

/// The step for a line that chose no entry: the warning, and the listing again.
fn unselected_step(stage: Stage, chosen: Selection) -> (step: Step)
    ensures
        step@.next == stage@,
        step@.notices == seq![
            if chosen == Selection::OutOfBounds {
                Notice::OutOfBounds
            } else {
                Notice::InvalidInput
            },
            Notice::Listing,
        ],
{
    let mut notices: Vec<Notice> = Vec::new();
    match chosen {
        Selection::OutOfBounds => notices.push(Notice::OutOfBounds),
        _ => notices.push(Notice::InvalidInput),
    }
    notices.push(Notice::Listing);
    Step { next: stage, notices: notices }
}

/// Removes an entry chosen by its number.
pub struct DeleteItemCommand<'a> {
    pub items: &'a mut Vec<Item>,
}

impl<'a> TerminalCommand for DeleteItemCommand<'a> {
    open spec fn entries(&self) -> Seq<ItemView> {
        self.items.deep_view()
    }

    open spec fn action(&self) -> TerminalAction {
        TerminalAction::DeleteItem
    }

    fn execute(&mut self) -> (step: Step)
        ensures
            *final(final(self).items) == *final(old(self).items),
    {
        let mut notices: Vec<Notice> = Vec::new();
        if self.items.is_empty() {
            notices.push(Notice::NothingToDelete);
            Step { next: Stage::Command, notices: notices }
        } else {
            notices.push(Notice::Listing);
            Step { next: Stage::DeleteSelecting, notices: notices }
        }
    }
}

impl<'a> DeleteItemCommand<'a> {
    /// Takes a line as the number of the entry to delete. The entry leaves the
    /// list and those behind it move up by one; a line that names no entry is
    /// refused and the number is asked for again.
    pub fn resume(&mut self, line: &str) -> (step: Step)
        ensures
            *final(final(self).items) == *final(old(self).items),
            (Turn { items: final(self).items.deep_view(), step: step@ }) == turn(
                StageView::DeleteSelecting,
                old(self).items.deep_view(),
                line@,
            ),
    {
        let mut notices: Vec<Notice> = Vec::new();
        assert(self.items.deep_view().len() == self.items@.len());
        match read_item_idx(self.items, line) {
            Selection::Chosen(index) => {
                self.items.remove(index);
                proof {
                    assert(self.items.deep_view() =~= old(self).items.deep_view().remove(
                        index as int,
                    ));
                }
                Step { next: Stage::Command, notices: notices }
            },
            other => unselected_step(Stage::DeleteSelecting, other),
        }
    }
}

/// Changes one field of an entry chosen by its number.
pub struct ModifyItemCommand<'a> {
    pub items: &'a mut Vec<Item>,
}

impl<'a> TerminalCommand for ModifyItemCommand<'a> {
    open spec fn entries(&self) -> Seq<ItemView> {
        self.items.deep_view()
    }

    open spec fn action(&self) -> TerminalAction {
        TerminalAction::ModifyItem
    }

    fn execute(&mut self) -> (step: Step)
        ensures
            *final(final(self).items) == *final(old(self).items),
    {
        let mut notices: Vec<Notice> = Vec::new();
        if self.items.is_empty() {
            notices.push(Notice::NothingToModify);
            Step { next: Stage::Command, notices: notices }
        } else {
            notices.push(Notice::Listing);
            Step { next: Stage::ModifySelecting, notices: notices }
        }
    }
}

impl<'a> ModifyItemCommand<'a> {
    /// Reads the choice of a field: `1`, `2` or `3`, and nothing else.
    pub fn read_user(line: &str) -> (field: Option<Field>)
        ensures
            field == field_named_by(line@),
    {
        let chars = chars_of(line);
        if chars.len() != 1 {
            return None;
        }
        let c: char = chars[0];
        assert(line@ =~= seq![c]);
        if c == '1' {
            Some(Field::Filename)
        } else if c == '2' {
            Some(Field::Action)
        } else if c == '3' {
            Some(Field::DownloadLink)
        } else {
            None
        }
    }

    /// Gives one field of an entry a new value, if the line is a value of that
    /// field. The other two fields are left as they are.
    pub fn modify_item(item: &mut Item, field: Field, line: &str) -> (accepted: bool)
        ensures
            match old(item)@.with_field(field, line@) {
                Some(changed) => accepted && final(item)@ == changed,
                None => !accepted && final(item)@ == old(item)@,
            },
    {
        item.set_field(field, line)
    }

    /// Takes a line as the number of the entry to modify.
    pub fn select(&mut self, line: &str) -> (step: Step)
        ensures
            *final(final(self).items) == *final(old(self).items),
            (Turn { items: final(self).items.deep_view(), step: step@ }) == turn(
                StageView::ModifySelecting,
                old(self).items.deep_view(),
                line@,
            ),
    {
        let mut notices: Vec<Notice> = Vec::new();
        assert(self.items.deep_view().len() == self.items@.len());
        match read_item_idx(self.items, line) {
            Selection::Chosen(index) => {
                notices.push(Notice::ModifyQuestion);
                Step { next: Stage::ModifyChoosing { index: index }, notices: notices }
            },
            other => unselected_step(Stage::ModifySelecting, other),
        }
    }

    /// Takes a line as the new value of a field of the entry at `index`. Only
    /// that field of that entry changes; a line that is no value of the field
    /// is refused and the value is asked for again.
    pub fn edit(&mut self, index: usize, field: Field, line: &str) -> (step: Step)
        requires
            index < old(self).items.len(),
        ensures
            *final(final(self).items) == *final(old(self).items),
            (Turn { items: final(self).items.deep_view(), step: step@ }) == turn(
                StageView::ModifyEditing { index: index, field: field },
                old(self).items.deep_view(),
                line@,
            ),
    {
        let mut notices: Vec<Notice> = Vec::new();
        if Self::modify_item(&mut self.items[index], field, line) {
            proof {
                assert(self.items.deep_view() =~= old(self).items.deep_view().update(
                    index as int,
                    self.items@[index as int]@,
                ));
            }
            Step { next: Stage::Command, notices: notices }
        } else {
            proof {
                assert(self.items.deep_view() =~= old(self).items.deep_view());
            }
            notices.push(Notice::InvalidInput);
            Step { next: Stage::ModifyEditing { index: index, field: field }, notices: notices }
        }
    }
}

/// Reads a command: one of the letters q, a, m, d and s, in either case.
pub fn get_terminal_action(line: &str) -> (action: Option<TerminalAction>)
    ensures
        action == command_named_by(line@),
{
    proof {
        reveal_strlit("q");
        reveal_strlit("a");
        reveal_strlit("m");
        reveal_strlit("d");
        reveal_strlit("s");
        assert("q"@ =~= seq!['q']);
        assert("a"@ =~= seq!['a']);
        assert("m"@ =~= seq!['m']);
        assert("d"@ =~= seq!['d']);
        assert("s"@ =~= seq!['s']);
    }
    if eq_ignore_ascii_case(line, "q") {
        Some(TerminalAction::Quit)
    } else if eq_ignore_ascii_case(line, "a") {
        Some(TerminalAction::AddItem)
    } else if eq_ignore_ascii_case(line, "m") {
        Some(TerminalAction::ModifyItem)
    } else if eq_ignore_ascii_case(line, "d") {
        Some(TerminalAction::DeleteItem)
    } else if eq_ignore_ascii_case(line, "s") {
        Some(TerminalAction::Show)
    } else {
        None
    }
}

/// Starts a command on the list.
pub fn execute_command(term_action: TerminalAction, items: &mut Vec<Item>) -> (step: Step)
    ensures
        final(items).deep_view() == old(items).deep_view(),
        step@ == started(term_action, old(items).deep_view()),
{
    match term_action {
        TerminalAction::Quit => QuitCommand { items: items }.execute(),
        TerminalAction::AddItem => AddItemCommand { items: items }.execute(),
        TerminalAction::ModifyItem => ModifyItemCommand { items: items }.execute(),
        TerminalAction::DeleteItem => DeleteItemCommand { items: items }.execute(),
        TerminalAction::Show => ShowItemsCommand { items: items }.execute(),
    }
}

/// Moves the dialogue on by one line of input: the line is taken for what the
/// stage awaits, the list is changed if the line completes a command, and the
/// step says what to print and what the next line is taken for. The stage has
/// to fit the list: the entry it speaks of is in the list.
pub fn advance(stage: Stage, items: &mut Vec<Item>, line: &str) -> (step: Step)
    requires
        stage@.fits(old(items).deep_view()),
    ensures
        (Turn { items: final(items).deep_view(), step: step@ }) == turn(
            stage@,
            old(items).deep_view(),
            line@,
        ),
{
    match stage {
        Stage::Command => match get_terminal_action(line) {
            Some(term_action) => execute_command(term_action, items),
            None => {
                let mut notices: Vec<Notice> = Vec::new();
                notices.push(Notice::InvalidInput);
                Step { next: Stage::Command, notices: notices }
            },
        },
        Stage::Adding { field, draft } => {
            AddItemCommand { items: items }.resume(field, draft, line)
        },
        Stage::DeleteSelecting => DeleteItemCommand { items: items }.resume(line),
        Stage::ModifySelecting => ModifyItemCommand { items: items }.select(line),
        Stage::ModifyChoosing { index } => {
            let mut notices: Vec<Notice> = Vec::new();
            match ModifyItemCommand::read_user(line) {
                Some(field) => Step {
                    next: Stage::ModifyEditing { index: index, field: field },
                    notices: notices,
                },
                None => {
                    notices.push(Notice::InvalidInput);
                    Step { next: Stage::ModifyChoosing { index: index }, notices: notices }
                },
            }
        },
        Stage::ModifyEditing { index, field } => {
            assert(items.deep_view().len() == items@.len());
            ModifyItemCommand { items: items }.edit(index, field, line)
        },
        Stage::Finished => Step { next: Stage::Finished, notices: Vec::new() },
    }
}

} // verus!
