//! A dialogue from its first command to its last: the list and the stage, kept
//! together so that the stage always fits the list.

use vstd::prelude::*;
use crate::console::prompt_text;
use crate::dialogue::{turn, Notice, Stage, StageView, StepView, Turn};
use crate::item::{all_complete, Item, ItemView};
use crate::laws::law_turn_keeps_entries_complete;
use crate::terminal_actions::advance;

verus! {

/// The list and the stage of one dialogue.
pub struct Session {
    items: Vec<Item>,
    stage: Stage,
}

impl Session {
    #[verifier::type_invariant]
    spec fn valid(self) -> bool {
        &&& self.stage@.fits(self.items.deep_view())
        &&& all_complete(self.items.deep_view())
    }

    /// The entries of the list.
    pub closed spec fn entries(&self) -> Seq<ItemView> {
        self.items.deep_view()
    }

    /// Where the dialogue stands.
    pub closed spec fn standing(&self) -> StageView {
        self.stage@
    }

    /// A dialogue at its start: no entries, and a command awaited.
    pub fn new() -> (session: Session)
        ensures
            session.entries() == Seq::<ItemView>::empty(),
            session.standing() == StageView::Command,
    {
        let items: Vec<Item> = Vec::new();
        assert(items.deep_view() =~= Seq::<ItemView>::empty());
        Session { items: items, stage: Stage::Command }
    }

    /// The entries of the list. Each has a filename and a link.
    pub fn items(&self) -> (items: &Vec<Item>)
        ensures
            items.deep_view() == self.entries(),
            all_complete(items.deep_view()),
    {
        proof {
            use_type_invariant(self);
        }
        &self.items
    }

    /// Where the dialogue stands.
    pub fn stage(&self) -> (stage: &Stage)
        ensures
            stage@ == self.standing(),
            stage@.fits(self.entries()),
    {
        proof {
            use_type_invariant(self);
        }
        &self.stage
    }

    /// The question to put before the next line is read.
    pub fn prompt(&self) -> (text: &'static str)
        ensures
            text@ == prompt_text(self.standing()),
    {
        self.stage.prompt()
    }

    /// Whether the dialogue is over.
    pub fn is_finished(&self) -> (over: bool)
        ensures
            over == (self.standing() == StageView::Finished),
    {
        match self.stage {
            Stage::Finished => true,
            _ => false,
        }
    }

    /// Moves the dialogue on by one line of input, and returns what to print.
    pub fn feed(&mut self, line: &str) -> (notices: Vec<Notice>)
        ensures
            (Turn {
                items: final(self).entries(),
                step: StepView { next: final(self).standing(), notices: notices@ },
            }) == turn(old(self).standing(), old(self).entries(), line@),
    {
        proof {
            use_type_invariant(&*self);
            law_turn_keeps_entries_complete(self.stage@, self.items.deep_view(), line@);
        }
        let mut stage = Stage::Command;
        std::mem::swap(&mut self.stage, &mut stage);
        let mut items: Vec<Item> = Vec::new();
        assert(items.deep_view() =~= Seq::<ItemView>::empty());
        std::mem::swap(&mut self.items, &mut items);
        let step = advance(stage, &mut items, line);
        self.items = items;
        self.stage = step.next;
        step.notices
    }
}

} // verus!
