//! The dialogue as a state machine: where it stands, what it prints, and how a
//! line of input moves it on.

use vstd::prelude::*;
use crate::action::Action;
use crate::item::{Field, Item, ItemView};
use crate::select::{selection, Selection};
use crate::text::same_ignoring_ascii_case;

verus! {

/// The commands of the dialogue.
#[derive(Debug, Clone, Copy, PartialEq, Eq, Structural)]
pub enum TerminalAction {
    Quit,
    AddItem,
    ModifyItem,
    DeleteItem,
    Show,
}

/// What the dialogue prints besides its prompts.
#[derive(Debug, Clone, Copy, PartialEq, Eq, Structural)]
pub enum Notice {
    /// The heading of the collection of a new entry.
    AddingItem,
    /// A new entry's filename or link was left empty.
    EmptyField,
    /// An empty line between two questions.
    Blank,
    /// The input was not one of those asked for.
    InvalidInput,
    /// The numbered listing of the entries.
    Listing,
    /// The number names no entry.
    OutOfBounds,
    /// The list as JSON.
    Json,
    /// The heading of the choice of a field.
    ModifyQuestion,
    /// There is no entry to modify.
    NothingToModify,
    /// There is no entry to delete.
    NothingToDelete,
    /// There is no entry to show.
    NothingToShow,
}

/// Where the dialogue stands: what the next line of input is taken for.
#[derive(Debug)]
pub enum Stage {
    /// A command is awaited.
    Command,
    /// A new entry is collected; the value of `field` is awaited.
    Adding { field: Field, draft: Item },
    /// The number of the entry to delete is awaited.
    DeleteSelecting,
    /// The number of the entry to modify is awaited.
    ModifySelecting,
    /// The field to modify of the entry at `index` is awaited.
    ModifyChoosing { index: usize },
    /// The new value of `field` of the entry at `index` is awaited.
    ModifyEditing { index: usize, field: Field },
    /// The dialogue is over.
    Finished,
}

/// A stage with its draft as plain text.
pub enum StageView {
    Command,
    Adding { field: Field, draft: ItemView },
    DeleteSelecting,
    ModifySelecting,
    ModifyChoosing { index: usize },
    ModifyEditing { index: usize, field: Field },
    Finished,
}

impl View for Stage {
    type V = StageView;

    open spec fn view(&self) -> StageView {
        match *self {
            Stage::Command => StageView::Command,
            Stage::Adding { field, draft } => StageView::Adding { field: field, draft: draft@ },
            Stage::DeleteSelecting => StageView::DeleteSelecting,
            Stage::ModifySelecting => StageView::ModifySelecting,
            Stage::ModifyChoosing { index } => StageView::ModifyChoosing { index: index },
            Stage::ModifyEditing { index, field } => StageView::ModifyEditing {
                index: index,
                field: field,
            },
            Stage::Finished => StageView::Finished,
        }
    }
}

/// What one move of the dialogue leaves behind: what to print, in order, and
/// where the dialogue then stands.
#[derive(Debug)]
pub struct Step {
    pub next: Stage,
    pub notices: Vec<Notice>,
}

/// A step as plain values.
pub struct StepView {
    pub next: StageView,
    pub notices: Seq<Notice>,
}

impl View for Step {
    type V = StepView;

    open spec fn view(&self) -> StepView {
        StepView { next: self.next@, notices: self.notices@ }
    }
}

/// The list and the step that a line of input leads to.
pub struct Turn {
    pub items: Seq<ItemView>,
    pub step: StepView,
}

/// The entry before anything was entered.
pub open spec fn blank_item() -> ItemView {
    ItemView {
        filename: Seq::<char>::empty(),
        action: Action::Add,
        download_link: Seq::<char>::empty(),
    }
}

impl StageView {
    /// A stage fits a list when the entry it speaks of is in the list, and when
    /// the draft it holds has a filename once the filename was asked for.
    pub open spec fn fits(self, items: Seq<ItemView>) -> bool {
        match self {
            StageView::Adding { field, draft } => field == Field::Filename || draft.filename.len()
                > 0,
            StageView::ModifyChoosing { index } => index < items.len(),
            StageView::ModifyEditing { index, field } => index < items.len(),
            _ => true,
        }
    }
}

/// The command that a text names: one of the letters q, a, m, d and s, in
/// either case.
pub open spec fn command_named_by(token: Seq<char>) -> Option<TerminalAction> {
    if same_ignoring_ascii_case(token, seq!['q']) {
        Some(TerminalAction::Quit)
    } else if same_ignoring_ascii_case(token, seq!['a']) {
        Some(TerminalAction::AddItem)
    } else if same_ignoring_ascii_case(token, seq!['m']) {
        Some(TerminalAction::ModifyItem)
    } else if same_ignoring_ascii_case(token, seq!['d']) {
        Some(TerminalAction::DeleteItem)
    } else if same_ignoring_ascii_case(token, seq!['s']) {
        Some(TerminalAction::Show)
    } else {
        None
    }
}

/// The field that a text names: 1 the filename, 2 the action, 3 the link.
pub open spec fn field_named_by(token: Seq<char>) -> Option<Field> {
    if token == seq!['1'] {
        Some(Field::Filename)
    } else if token == seq!['2'] {
        Some(Field::Action)
    } else if token == seq!['3'] {
        Some(Field::DownloadLink)
    } else {
        None
    }
}

/// How a command starts on a list. No command changes the list before it has
/// read a line.
pub open spec fn started(action: TerminalAction, items: Seq<ItemView>) -> StepView {
    match action {
        TerminalAction::Quit => StepView {
            next: StageView::Finished,
            notices: if items.len() > 0 {
                seq![Notice::Json]
            } else {
                Seq::<Notice>::empty()
            },
        },
        TerminalAction::AddItem => StepView {
            next: StageView::Adding { field: Field::Filename, draft: blank_item() },
            notices: seq![Notice::AddingItem],
        },
        TerminalAction::ModifyItem => if items.len() == 0 {
            StepView { next: StageView::Command, notices: seq![Notice::NothingToModify] }
        } else {
            StepView { next: StageView::ModifySelecting, notices: seq![Notice::Listing] }
        },
        TerminalAction::DeleteItem => if items.len() == 0 {
            StepView { next: StageView::Command, notices: seq![Notice::NothingToDelete] }
        } else {
            StepView { next: StageView::DeleteSelecting, notices: seq![Notice::Listing] }
        },
        TerminalAction::Show => StepView {
            next: StageView::Command,
            notices: if items.len() == 0 {
                seq![Notice::NothingToShow]
            } else {
                seq![Notice::Json]
            },
        },
    }
}

/// The dialogue stays where it is and says why.
pub open spec fn refused(stage: StageView, items: Seq<ItemView>, notices: Seq<Notice>) -> Turn {
    Turn { items: items, step: StepView { next: stage, notices: notices } }
}

/// A line of input while a new entry is collected. The fields are asked for in
/// the order filename, action, link; the entry joins the end of the list when
/// the link is given.
pub open spec fn adding_turn(
    field: Field,
    draft: ItemView,
    items: Seq<ItemView>,
    line: Seq<char>,
) -> Turn {
    match draft.with_field(field, line) {
        None => refused(
            StageView::Adding { field: field, draft: draft },
            items,
            seq![
                if field == Field::Action {
                    Notice::InvalidInput
                } else {
                    Notice::EmptyField
                },
            ],
        ),
        Some(filled) => match field {
            Field::Filename => Turn {
                items: items,
                step: StepView {
                    next: StageView::Adding { field: Field::Action, draft: filled },
                    notices: seq![Notice::Blank],
                },
            },
            Field::Action => Turn {
                items: items,
                step: StepView {
                    next: StageView::Adding { field: Field::DownloadLink, draft: filled },
                    notices: seq![Notice::Blank],
                },
            },
            Field::DownloadLink => Turn {
                items: items.push(filled),
                step: StepView { next: StageView::Command, notices: Seq::<Notice>::empty() },
            },
        },
    }
}

/// A line of input where the number of an entry is awaited, and was not given.
pub open spec fn unselected(stage: StageView, items: Seq<ItemView>, line: Seq<char>) -> Turn {
    refused(
        stage,
        items,
        seq![
            if selection(line, items.len()) == Selection::OutOfBounds {
                Notice::OutOfBounds
            } else {
                Notice::InvalidInput
            },
            Notice::Listing,
        ],
    )
}

/// The list and the step that a line of input leads to, from a stage and a list.
pub open spec fn turn(stage: StageView, items: Seq<ItemView>, line: Seq<char>) -> Turn {
    match stage {
        StageView::Command => match command_named_by(line) {
            Some(action) => Turn { items: items, step: started(action, items) },
            None => refused(stage, items, seq![Notice::InvalidInput]),
        },
        StageView::Adding { field, draft } => adding_turn(field, draft, items, line),
        StageView::DeleteSelecting => match selection(line, items.len()) {
            Selection::Chosen(index) => Turn {
                items: items.remove(index as int),
                step: StepView { next: StageView::Command, notices: Seq::<Notice>::empty() },
            },
            _ => unselected(stage, items, line),
        },
        StageView::ModifySelecting => match selection(line, items.len()) {
            Selection::Chosen(index) => Turn {
                items: items,
                step: StepView {
                    next: StageView::ModifyChoosing { index: index },
                    notices: seq![Notice::ModifyQuestion],
                },
            },
            _ => unselected(stage, items, line),
        },
        StageView::ModifyChoosing { index } => match field_named_by(line) {
            Some(field) => Turn {
                items: items,
                step: StepView {
                    next: StageView::ModifyEditing { index: index, field: field },
                    notices: Seq::<Notice>::empty(),
                },
            },
            None => refused(stage, items, seq![Notice::InvalidInput]),
        },
        StageView::ModifyEditing { index, field } => match items[index as int].with_field(
            field,
            line,
        ) {
            Some(changed) => Turn {
                items: items.update(index as int, changed),
                step: StepView { next: StageView::Command, notices: Seq::<Notice>::empty() },
            },
            None => refused(stage, items, seq![Notice::InvalidInput]),
        },
        StageView::Finished => refused(stage, items, Seq::<Notice>::empty()),
    }
}


/// Whether a line is one of those that a stage asks for. A line that is not
/// is refused: the stage asks again.
pub open spec fn accepted(stage: StageView, items: Seq<ItemView>, line: Seq<char>) -> bool {
    match stage {
        StageView::Command => command_named_by(line) is Some,
        StageView::Adding { field, draft } => draft.with_field(field, line) is Some,
        StageView::DeleteSelecting => selection(line, items.len()) is Chosen,
        StageView::ModifySelecting => selection(line, items.len()) is Chosen,
        StageView::ModifyChoosing { index } => field_named_by(line) is Some,
        StageView::ModifyEditing { index, field } => items[index as int].with_field(field, line)
            is Some,
        StageView::Finished => false,
    }
}

/// A stage together with the list.
pub struct Position {
    pub stage: StageView,
    pub items: Seq<ItemView>,
}

/// Where the dialogue stands, and with what list, after some lines of input.
pub open spec fn after_lines(stage: StageView, items: Seq<ItemView>, lines: Seq<Seq<char>>)
    -> Position
    decreases lines.len(),
{
    if lines.len() == 0 {
        Position { stage: stage, items: items }
    } else {
        let first = turn(stage, items, lines.first());
        after_lines(first.step.next, first.items, lines.drop_first())
    }
}

} // verus!
