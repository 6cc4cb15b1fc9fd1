//! What goes over the console: the line that was read, the prompts, and the
//! text of what the dialogue prints.

use vstd::prelude::*;
use vstd::string::StringExecFns;
use crate::dialogue::{Notice, Stage, StageView};
use crate::item::{Field, Item, ItemView};
use crate::json::{list_json, to_json, SerializeError};
use crate::listing::{enumerated_lines, listing};
use crate::text::{trim, trimmed};

verus! {

/// The text that a read of one line stands for: the line without the
/// whitespace at either end, the line end included; nothing if the read failed.
pub open spec fn entered(read: Option<Seq<char>>) -> Seq<char> {
    match read {
        Some(line) => trimmed(line),
        None => Seq::<char>::empty(),
    }
}

/// Turns what was read from the console into the text that was entered. `None`
/// stands for a read that failed.
pub fn read_user_input(read: Option<&str>) -> (text: String)
    ensures
        text@ == entered(
            match read {
                Some(line) => Some(line@),
                None => None,
            },
        ),
{
    match read {
        Some(line) => String::from_str(trim(line)),
        None => String::new(),
    }
}

/// The question that a stage puts before it reads a line.
pub open spec fn prompt_text(stage: StageView) -> Seq<char> {
    match stage {
        StageView::Command => "Enter command (q: Quit, a: Add, m: Modify, d: Delete, s: Show): "@,
        StageView::Adding { field, draft } => match field {
            Field::Filename => "Filename: "@,
            Field::Action => "Action (ADD, DELETE, UPDATE): "@,
            Field::DownloadLink => "Direct download link: "@,
        },
        StageView::DeleteSelecting => "Enter the item number you wish to change: "@,
        StageView::ModifySelecting => "Enter the item number you wish to change: "@,
        StageView::ModifyChoosing { index } =>
            "1: Filename\n2: Action\n3: Direct download link\n-> "@,
        StageView::ModifyEditing { index, field } => match field {
            Field::Filename => "Filename new value: "@,
            Field::Action => "Action new value (ADD, DELETE, UPDATE) : "@,
            Field::DownloadLink => "Direct download link new value: "@,
        },
        StageView::Finished => ""@,
    }
}

impl Stage {
    /// The question to put before the next line is read.
    pub fn prompt(&self) -> (text: &'static str)
        ensures
            text@ == prompt_text(self@),
    {
        match self {
            Stage::Command => "Enter command (q: Quit, a: Add, m: Modify, d: Delete, s: Show): ",
            Stage::Adding { field, draft } => match field {
                Field::Filename => "Filename: ",
                Field::Action => "Action (ADD, DELETE, UPDATE): ",
                Field::DownloadLink => "Direct download link: ",
            },
            Stage::DeleteSelecting => "Enter the item number you wish to change: ",
            Stage::ModifySelecting => "Enter the item number you wish to change: ",
            Stage::ModifyChoosing { index } =>
                "1: Filename\n2: Action\n3: Direct download link\n-> ",
            Stage::ModifyEditing { index, field } => match field {
                Field::Filename => "Filename new value: ",
                Field::Action => "Action new value (ADD, DELETE, UPDATE) : ",
                Field::DownloadLink => "Direct download link new value: ",
            },
            Stage::Finished => "",
        }
    }
}

/// The fixed text of a notice. For the listing it is the heading, and for the
/// JSON it is what stands before the JSON text.
pub open spec fn notice_text(notice: Notice) -> Seq<char> {
    match notice {
        Notice::AddingItem => "\n--- Adding a new item ---\n"@,
        Notice::EmptyField => "WARNING: filename is empty, please try again."@,
        Notice::Blank => "\n"@,
        Notice::InvalidInput => "WARNING: Invalid input, please try again."@,
        Notice::Listing => "\n\n-- ITEMS LISTED --\n\n"@,
        Notice::OutOfBounds => "WARNING: index out of bounds, please try again."@,
        Notice::Json => "\n\n"@,
        Notice::ModifyQuestion => "What do you want to modify?"@,
        Notice::NothingToModify => "WARNING: no items, cannot modify."@,
        Notice::NothingToDelete => "WARNING: no items, cannot delete."@,
        Notice::NothingToShow => "WARNING: no items, cannot show."@,
    }
}

/// What is printed for a notice, each text on a line of its own: the heading
/// and the numbered entries for the listing, the JSON text behind two line ends
/// for the JSON, and the notice's own text for every other. `None` where the
/// JSON text cannot be had.
pub open spec fn printed(notice: Notice, items: Seq<ItemView>) -> Option<Seq<Seq<char>>> {
    match notice {
        Notice::Listing => Some(seq![notice_text(notice)] + listing(items)),
        Notice::Json => match list_json(items) {
            Some(json) => Some(seq![notice_text(notice) + json]),
            None => None,
        },
        _ => Some(seq![notice_text(notice)]),
    }
}

impl Notice {
    /// The fixed text of the notice.
    pub fn text(&self) -> (text: &'static str)
        ensures
            text@ == notice_text(*self),
    {
        match self {
            Notice::AddingItem => "\n--- Adding a new item ---\n",
            Notice::EmptyField => "WARNING: filename is empty, please try again.",
            Notice::Blank => "\n",
            Notice::InvalidInput => "WARNING: Invalid input, please try again.",
            Notice::Listing => "\n\n-- ITEMS LISTED --\n\n",
            Notice::OutOfBounds => "WARNING: index out of bounds, please try again.",
            Notice::Json => "\n\n",
            Notice::ModifyQuestion => "What do you want to modify?",
            Notice::NothingToModify => "WARNING: no items, cannot modify.",
            Notice::NothingToDelete => "WARNING: no items, cannot delete.",
            Notice::NothingToShow => "WARNING: no items, cannot show.",
        }
    }

    /// The texts to print for the notice, each on a line of its own. Only the
    /// JSON can fail, and only where the serializer does.
    pub fn lines(&self, items: &Vec<Item>) -> (r: Result<Vec<String>, SerializeError>)
        ensures
            match printed(*self, items.deep_view()) {
                Some(texts) => r matches Ok(lines) && lines.deep_view() == texts,
                None => r is Err,
            },
    {
        let mut head = String::from_str(self.text());
        match self {
            Notice::Listing => {
                let mut lines: Vec<String> = Vec::new();
                lines.push(head);
                let mut entries = enumerated_lines(items);
                let ghost shown = entries.deep_view();
                lines.append(&mut entries);
                assert(lines.deep_view() =~= seq![notice_text(*self)] + shown);
                Ok(lines)
            },
            Notice::Json => match to_json(items) {
                Ok(json) => {
                    head.append(json.as_str());
                    let mut lines: Vec<String> = Vec::new();
                    lines.push(head);
                    assert(lines.deep_view() =~= printed(*self, items.deep_view())->Some_0);
                    Ok(lines)
                },
                Err(error) => Err(error),
            },
            _ => {
                let mut lines: Vec<String> = Vec::new();
                lines.push(head);
                assert(lines.deep_view() =~= printed(*self, items.deep_view())->Some_0);
                Ok(lines)
            },
        }
    }
}

} // verus!
