//! The numbered listing of the entries that is shown before an entry is chosen.

use vstd::prelude::*;
use vstd::string::StringExecFns;
use crate::action::Action;
use crate::item::{Item, ItemView};
use crate::text::{decimal_string, decimal_text};

verus! {

/// A text as `{:?}` writes it: in double quotes, with the characters escaped
/// that cannot stand there as they are.
pub uninterp spec fn debug_text(text: Seq<char>) -> Seq<char>;

/// Calls `format!("{:?}", text)`, that is `<str as Debug>::fmt`. Trusted: the
/// result is a function of the text alone.
#[verifier::external_body]
fn debug_quoted(text: &str) -> (quoted: String)
    ensures
        quoted@ == debug_text(text@),
{
    format!("{:?}", text)
}

/// The name of an action's variant.
pub open spec fn variant_name(action: Action) -> Seq<char> {
    match action {
        Action::Add => "Add"@,
        Action::Delete => "Delete"@,
        Action::Update => "Update"@,
    }
}

/// An entry as it is shown in the listing, from its two texts as `{:?}` writes
/// them: the type's name and, in braces, each field with its name.
pub open spec fn shown_item(filename: Seq<char>, action: Action, download_link: Seq<char>) -> Seq<
    char,
> {
    "Item { filename: "@ + filename + ", action: "@ + variant_name(action) + ", download_link: "@
        + download_link + " }"@
}

/// An entry as it is shown in the listing.
pub open spec fn item_debug(item: ItemView) -> Seq<char> {
    shown_item(debug_text(item.filename), item.action, debug_text(item.download_link))
}

/// A line of the listing: the entry's number, a colon, and the entry.
pub open spec fn listing_line(number: nat, item: ItemView) -> Seq<char> {
    decimal_text(number) + ": "@ + item_debug(item)
}

/// The listing of a list: one line for each entry, numbered from 1.
pub open spec fn listing(items: Seq<ItemView>) -> Seq<Seq<char>> {
    Seq::new(items.len(), |i: int| listing_line((i + 1) as nat, items[i]))
}

/// The name of an action's variant.
fn variant_str(action: Action) -> (name: &'static str)
    ensures
        name@ == variant_name(action),
{
    match action {
        Action::Add => "Add",
        Action::Delete => "Delete",
        Action::Update => "Update",
    }
}

/// Puts an entry together from its filename and its link, each already written
/// as `{:?}` writes a text, and its action.
pub fn show_item(filename: &str, action: Action, download_link: &str) -> (shown: String)
    ensures
        shown@ == shown_item(filename@, action, download_link@),
{
    let mut shown = String::from_str("Item { filename: ");
    shown.append(filename);
    shown.append(", action: ");
    shown.append(variant_str(action));
    shown.append(", download_link: ");
    shown.append(download_link);
    shown.append(" }");
    shown
}

/// An entry as it is shown in the listing.
pub fn debug_item(item: &Item) -> (shown: String)
    ensures
        shown@ == item_debug(item@),
{
    let filename = debug_quoted(item.filename.as_str());
    let download_link = debug_quoted(item.download_link.as_str());
    show_item(filename.as_str(), item.action, download_link.as_str())
}

/// The lines of the listing of a list.
pub fn enumerated_lines(items: &Vec<Item>) -> (lines: Vec<String>)
    ensures
        lines.deep_view() == listing(items.deep_view()),
{
    let mut lines: Vec<String> = Vec::new();
    let n: usize = items.len();
    let mut i: usize = 0;
    while i < n
        invariant
            n == items@.len(),
            i <= n,
            lines@.len() == i,
            forall|j: int|
                0 <= j < i ==> (#[trigger] lines@[j])@ == listing_line(
                    (j + 1) as nat,
                    items@[j]@,
                ),
        decreases n - i,
    {
        let mut line = decimal_string(i + 1);
        line.append(": ");
        line.append(debug_item(&items[i]).as_str());
        lines.push(line);
        i += 1;
    }
    assert(lines.deep_view() =~= listing(items.deep_view()));
    lines
}

} // verus!
