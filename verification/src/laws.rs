//! What holds of the dialogue whatever is entered.

use vstd::prelude::*;
use crate::action::Action;
use crate::dialogue::{
    accepted, after_lines, command_named_by, started, turn, Notice, Position, StageView,
    TerminalAction,
};
use crate::item::{all_complete, Field, ItemView};
use crate::select::{selection, Selection};
use crate::text::{decimal_text, law_decimal_text_reads_back, parsed_number};

verus! {

/// A line of input keeps every entry complete, with a filename and a link, and
/// keeps the stage fitting the list.
pub proof fn law_turn_keeps_entries_complete(
    stage: StageView,
    items: Seq<ItemView>,
    line: Seq<char>,
)
    requires
        stage.fits(items),
        all_complete(items),
    ensures
        turn(stage, items, line).step.next.fits(turn(stage, items, line).items),
        all_complete(turn(stage, items, line).items),
{
    let after = turn(stage, items, line);
    match stage {
        StageView::Adding { field, draft } => {
            if field == Field::DownloadLink && draft.with_field(field, line) is Some {
                let filled = draft.with_field(field, line)->Some_0;
                assert(filled.is_complete());
                assert forall|i: int| 0 <= i < after.items.len() implies (
                #[trigger] after.items[i]).is_complete() by {
                    if i < items.len() {
                        assert(after.items[i] == items[i]);
                    }
                }
            }
        },
        StageView::DeleteSelecting => {
            if let Selection::Chosen(index) = selection(line, items.len()) {
                assert forall|i: int| 0 <= i < after.items.len() implies (
                #[trigger] after.items[i]).is_complete() by {
                    if i < index {
                        assert(after.items[i] == items[i]);
                    } else {
                        assert(after.items[i] == items[i + 1]);
                    }
                }
            }
        },
        StageView::ModifyEditing { index, field } => {
            if items[index as int].with_field(field, line) is Some {
                assert(items[index as int].is_complete());
                assert forall|i: int| 0 <= i < after.items.len() implies (
                #[trigger] after.items[i]).is_complete() by {
                    if i != index {
                        assert(after.items[i] == items[i]);
                    }
                }
            }
        },
        _ => {},
    }
}

/// Whatever is entered, from a stage that fits a list of complete entries the
/// dialogue only ever reaches lists of complete entries.
pub proof fn law_entries_stay_complete(
    stage: StageView,
    items: Seq<ItemView>,
    lines: Seq<Seq<char>>,
)
    requires
        stage.fits(items),
        all_complete(items),
    ensures
        after_lines(stage, items, lines).stage.fits(after_lines(stage, items, lines).items),
        all_complete(after_lines(stage, items, lines).items),
    decreases lines.len(),
{
    if lines.len() > 0 {
        law_turn_keeps_entries_complete(stage, items, lines.first());
        let first = turn(stage, items, lines.first());
        law_entries_stay_complete(first.step.next, first.items, lines.drop_first());
    }
}

/// The number under which the listing shows an entry chooses that entry.
pub proof fn law_listed_number_selects_its_entry(len: nat, index: usize)
    requires
        index < len <= usize::MAX,
    ensures
        selection(decimal_text((index + 1) as nat), len) == Selection::Chosen(index),
{
    law_decimal_text_reads_back((index + 1) as nat);
}

/// A line that the stage did not ask for leaves the list and the stage as they
/// were.
pub proof fn law_refused_line_changes_nothing(
    stage: StageView,
    items: Seq<ItemView>,
    line: Seq<char>,
)
    requires
        !accepted(stage, items, line),
    ensures
        turn(stage, items, line).items == items,
        turn(stage, items, line).step.next == stage,
{
}

/// However many lines are refused in a row, the list and the stage are
/// afterwards what they were before.
pub proof fn law_refused_lines_change_nothing(
    stage: StageView,
    items: Seq<ItemView>,
    lines: Seq<Seq<char>>,
)
    requires
        forall|i: int| 0 <= i < lines.len() ==> !accepted(stage, items, #[trigger] lines[i]),
    ensures
        after_lines(stage, items, lines) == (Position { stage: stage, items: items }),
    decreases lines.len(),
{
    if lines.len() > 0 {
        law_refused_line_changes_nothing(stage, items, lines.first());
        let rest = lines.drop_first();
        assert forall|i: int| 0 <= i < rest.len() implies !accepted(
            stage,
            items,
            #[trigger] rest[i],
        ) by {
            assert(rest[i] == lines[i + 1]);
        }
        law_refused_lines_change_nothing(stage, items, rest);
    }
}

/// Only a line that completes a new entry, chooses the entry to delete, or
/// gives a field its new value changes the list.
pub proof fn law_list_changes_only_on_completion(
    stage: StageView,
    items: Seq<ItemView>,
    line: Seq<char>,
)
    requires
        turn(stage, items, line).items != items,
    ensures
        accepted(stage, items, line),
        turn(stage, items, line).step.next == StageView::Command,
        stage matches StageView::Adding { field, draft } ==> field == Field::DownloadLink,
        stage is Adding || stage is DeleteSelecting || stage is ModifyEditing,
{
}

/// The add command, a filename, the name of an action and a link, entered in
/// this order, put one entry with these values at the end of the list and
/// leave the entries before it as they were. A command is then awaited.
pub proof fn law_add_appends(
    items: Seq<ItemView>,
    command: Seq<char>,
    filename: Seq<char>,
    action_text: Seq<char>,
    action: Action,
    link: Seq<char>,
)
    requires
        command_named_by(command) == Some(TerminalAction::AddItem),
        filename.len() > 0,
        Action::named_by(action_text) == Some(action),
        link.len() > 0,
    ensures
        after_lines(StageView::Command, items, seq![command, filename, action_text, link]) == (
        Position {
            stage: StageView::Command,
            items: items.push(
                ItemView { filename: filename, action: action, download_link: link },
            ),
        }),
{
    let lines = seq![command, filename, action_text, link];
    let t1 = turn(StageView::Command, items, command);
    let l1 = lines.drop_first();
    assert(l1 =~= seq![filename, action_text, link]);
    let t2 = turn(t1.step.next, t1.items, filename);
    let l2 = l1.drop_first();
    assert(l2 =~= seq![action_text, link]);
    let t3 = turn(t2.step.next, t2.items, action_text);
    let l3 = l2.drop_first();
    assert(l3 =~= seq![link]);
    let t4 = turn(t3.step.next, t3.items, link);
    let l4 = l3.drop_first();
    assert(l4.len() == 0);
    assert(after_lines(t4.step.next, t4.items, l4) == (Position {
        stage: t4.step.next,
        items: t4.items,
    }));
    assert(after_lines(t3.step.next, t3.items, l3) == after_lines(t4.step.next, t4.items, l4));
    assert(after_lines(t2.step.next, t2.items, l2) == after_lines(t3.step.next, t3.items, l3));
    assert(after_lines(t1.step.next, t1.items, l1) == after_lines(t2.step.next, t2.items, l2));
    assert(after_lines(StageView::Command, items, lines) == after_lines(
        t1.step.next,
        t1.items,
        l1,
    ));
}

/// On a list without entries the delete and the modify command do nothing but
/// warn: the list stays empty and a command is awaited again.
pub proof fn law_empty_list_has_nothing_to_change(items: Seq<ItemView>, command: Seq<char>)
    requires
        items.len() == 0,
        command_named_by(command) == Some(TerminalAction::DeleteItem) || command_named_by(command)
            == Some(TerminalAction::ModifyItem),
    ensures
        turn(StageView::Command, items, command).items == items,
        turn(StageView::Command, items, command).step.next == StageView::Command,
        turn(StageView::Command, items, command).step.notices == seq![
            if command_named_by(command) == Some(TerminalAction::DeleteItem) {
                Notice::NothingToDelete
            } else {
                Notice::NothingToModify
            },
        ],
{
}

/// Quitting ends the dialogue. The list is shown as JSON if it has entries, and
/// nothing is printed if it has none.
pub proof fn law_quit_ends_the_dialogue(items: Seq<ItemView>)
    ensures
        started(TerminalAction::Quit, items).next == StageView::Finished,
        items.len() == 0 ==> started(TerminalAction::Quit, items).notices == Seq::<Notice>::empty(),
        items.len() > 0 ==> started(TerminalAction::Quit, items).notices == seq![Notice::Json],
{
}

/// Deleting the entry with the number `number` takes exactly that entry out:
/// the list is shorter by one, the entries before it stay where they were, and
/// each entry behind it moves up by one place.
pub proof fn law_delete_removes_one(items: Seq<ItemView>, line: Seq<char>, number: nat)
    requires
        items.len() <= usize::MAX,
        parsed_number(line) == Some(number),
        1 <= number <= items.len(),
    ensures
        ({
            let after = turn(StageView::DeleteSelecting, items, line).items;
            &&& after.len() == items.len() - 1
            &&& forall|i: int| 0 <= i < number - 1 ==> after[i] == items[i]
            &&& forall|i: int| number - 1 <= i < after.len() ==> after[i] == items[i + 1]
        }),
{
    assert(selection(line, items.len()) == Selection::Chosen((number - 1) as usize));
}

/// Giving a field of an entry a new value changes that field of that entry and
/// nothing else: the entry's other two fields and every other entry are as
/// they were.
pub proof fn law_modify_changes_one_field(
    items: Seq<ItemView>,
    index: usize,
    field: Field,
    line: Seq<char>,
)
    requires
        index < items.len(),
    ensures
        ({
            let after = turn(
                StageView::ModifyEditing { index: index, field: field },
                items,
                line,
            ).items;
            &&& after.len() == items.len()
            &&& forall|i: int| 0 <= i < items.len() && i != index ==> after[i] == items[i]
            &&& field != Field::Filename ==> after[index as int].filename
                == items[index as int].filename
            &&& field != Field::Action ==> after[index as int].action == items[index as int].action
            &&& field != Field::DownloadLink ==> after[index as int].download_link
                == items[index as int].download_link
        }),
{
}

} // verus!
