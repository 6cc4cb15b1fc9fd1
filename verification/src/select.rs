//! Choosing an entry by the number under which the listing shows it.

use vstd::prelude::*;
use crate::item::Item;
use crate::text::{parse_usize, parsed_number, parsed_usize};

verus! {

/// What a text says when an entry's number is asked for.
#[derive(Debug, Clone, Copy, PartialEq, Eq, Structural)]
pub enum Selection {
    /// The entry at this position, counted from 0.
    Chosen(usize),
    /// A number, but of no entry.
    OutOfBounds,
    /// No number.
    Invalid,
}

/// The choice a text makes from a list of `len` entries. Entries are numbered
/// from 1; a text that is no numeral, or names a number too large for the
/// machine, chooses nothing and is invalid.
pub open spec fn selection(token: Seq<char>, len: nat) -> Selection {
    match parsed_usize(token) {
        None => Selection::Invalid,
        Some(number) => if 1 <= number <= len {
            Selection::Chosen((number - 1) as usize)
        } else {
            Selection::OutOfBounds
        },
    }
}

/// Reads the number of an entry of the list.
pub fn read_item_idx(items: &Vec<Item>, token: &str) -> (r: Selection)
    ensures
        r == selection(token@, items@.len()),
{
    match parse_usize(token) {
        None => Selection::Invalid,
        Some(number) => {
            if 1 <= number && number <= items.len() {
                Selection::Chosen(number - 1)
            } else {
                Selection::OutOfBounds
            }
        },
    }
}

/// A text chooses the entry at `index` exactly when it is the numeral of
/// `index + 1` and the list has such an entry: the numbers 1 to `len` are
/// accepted, 0 and every number above `len` are not.
pub proof fn law_selection_accepts_one_to_len(token: Seq<char>, len: nat, index: usize)
    requires
        len <= usize::MAX,
    ensures
        selection(token, len) == Selection::Chosen(index) <==> (parsed_number(token) == Some(
            (index + 1) as nat,
        ) && index < len),
{
}

/// A numeral of 0, or of a number above the length, is out of bounds.
pub proof fn law_selection_rejects_outside(token: Seq<char>, len: nat, number: nat)
    requires
        len <= usize::MAX,
        parsed_number(token) == Some(number),
        number == 0 || number > len,
    ensures
        selection(token, len) == Selection::OutOfBounds || selection(token, len)
            == Selection::Invalid,
        number <= usize::MAX ==> selection(token, len) == Selection::OutOfBounds,
{
}

} // verus!
