//! One entry of the list, and the change of one of its fields.

use vstd::prelude::*;
use vstd::string::StringExecFns;
use crate::action::Action;

verus! {

/// An entry of the list: a file, what to do with it, and where to get it.
#[derive(Debug, Clone)]
pub struct Item {
    /// The name under which the file is kept.
    pub filename: String,
    /// What is to be done with the file.
    pub action: Action,
    /// The direct link to the file.
    pub download_link: String,
}

/// An entry as plain text and action.
pub struct ItemView {
    pub filename: Seq<char>,
    pub action: Action,
    pub download_link: Seq<char>,
}

impl ItemView {
    /// An entry is complete when neither its filename nor its link is empty.
    pub open spec fn is_complete(self) -> bool {
        self.filename.len() > 0 && self.download_link.len() > 0
    }
}

impl View for Item {
    type V = ItemView;

    open spec fn view(&self) -> ItemView {
        ItemView {
            filename: self.filename@,
            action: self.action,
            download_link: self.download_link@,
        }
    }
}

impl DeepView for Item {
    type V = ItemView;

    open spec fn deep_view(&self) -> ItemView {
        self@
    }
}

/// Every entry of a list is complete.
pub open spec fn all_complete(items: Seq<ItemView>) -> bool {
    forall|i: int| 0 <= i < items.len() ==> (#[trigger] items[i]).is_complete()
}

impl Default for Item {
    /// The entry before anything was entered: empty texts, and the action `Add`.
    fn default() -> (item: Item)
        ensures
            item@ == (ItemView {
                filename: Seq::<char>::empty(),
                action: Action::Add,
                download_link: Seq::<char>::empty(),
            }),
    {
        Item { filename: String::new(), action: Action::Add, download_link: String::new() }
    }
}

/// One of the three fields of an entry.
#[derive(Debug, Clone, Copy, PartialEq, Eq, Structural)]
pub enum Field {
    Filename,
    Action,
    DownloadLink,
}

impl ItemView {
    /// The entry with one field set from a text, where the text is a value of
    /// that field: any text but the empty one for the filename and the link, the
    /// name of an action for the action.
    pub open spec fn with_field(self, field: Field, value: Seq<char>) -> Option<ItemView> {
        match field {
            Field::Filename => if value.len() > 0 {
                Some(ItemView { filename: value, ..self })
            } else {
                None
            },
            Field::Action => match Action::named_by(value) {
                Some(action) => Some(ItemView { action: action, ..self }),
                None => None,
            },
            Field::DownloadLink => if value.len() > 0 {
                Some(ItemView { download_link: value, ..self })
            } else {
                None
            },
        }
    }
}

impl Item {
    /// Sets one field from a text. Returns whether the text was accepted; if it
    /// was not, the entry is left as it was.
    pub fn set_field(&mut self, field: Field, value: &str) -> (accepted: bool)
        ensures
            match old(self)@.with_field(field, value@) {
                Some(changed) => accepted && final(self)@ == changed,
                None => !accepted && final(self)@ == old(self)@,
            },
    {
        match field {
            Field::Filename => {
                if value.is_empty() {
                    false
                } else {
                    self.filename = String::from_str(value);
                    true
                }
            },
            Field::Action => {
                match Action::try_from(value) {
                    Ok(action) => {
                        self.action = action;
                        true
                    },
                    Err(_) => false,
                }
            },
            Field::DownloadLink => {
                if value.is_empty() {
                    false
                } else {
                    self.download_link = String::from_str(value);
                    true
                }
            },
        }
    }
}

} // verus!
