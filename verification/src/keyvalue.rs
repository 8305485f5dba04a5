//! Key-value texts as the library reads and writes them.
//!
//! A text is read as a file's content. A text is handed out for writing only
//! after it was read back and found to hold exactly what it was written
//! from: the library does not rely on the format to keep every value.

use crate::ini_file::ini_entries;
use crate::ini_file::ini_get;
use crate::ini_file::ini_parse;
use crate::ini_file::ini_slots;
use crate::ini_file::ini_text;
use crate::ini_file::ini_write;
use crate::ini_file::parsed_entries;
use crate::ini_file::slot_section;
use crate::ini_file::Entries;
use crate::ini_file::Slot;
use crate::text::optional_text;
use crate::text::strip_mark;
use crate::text::without_mark;
use ini::Ini;
use vstd::prelude::*;

verus! {

/// What a key-value text holds, read as a file's content: a byte order mark
/// at its start is skipped, the rest is parsed. `None` stands for a text
/// that cannot be parsed.
pub open spec fn read_entries(text: Seq<char>) -> Option<Entries> {
    parsed_entries(without_mark(text))
}

/// Whether two lookup tables find the same at one place: nothing in both, or
/// the same value in both.
pub open spec fn agree_at(a: Entries, b: Entries, slot: Slot) -> bool {
    &&& a.contains_key(slot) == b.contains_key(slot)
    &&& a.contains_key(slot) ==> a[slot] == b[slot]
}

/// What becomes of a text that was written from a lookup table: it is kept
/// if reading it gives exactly that table, and dropped if not. A text that
/// could not be written stays missing.
pub open spec fn faithful(written: Option<Seq<char>>, entries: Entries) -> Option<Seq<char>> {
    match written {
        Some(text) => if read_entries(text) == Some(entries) {
            Some(text)
        } else {
            None
        },
        None => None,
    }
}

/// Parses a key-value text as a file's content.
pub(crate) fn parse_text(text: &str) -> (r: Option<Ini>)
    ensures
        match r {
            Some(ini) => read_entries(text@) == Some(ini_entries(ini)),
            None => read_entries(text@) is None,
        },
{
    ini_parse(strip_mark(text))
}

/// Whether `a` and `b` hold the same at one place.
fn agree_at_slot(a: &Ini, b: &Ini, slot: &(Option<String>, String)) -> (same: bool)
    ensures
        same == agree_at(ini_entries(*a), ini_entries(*b), slot.deep_view()),
{
    let key = slot.1.as_str();
    let (in_a, in_b) = match &slot.0 {
        Some(name) => (ini_get(a, Some(name.as_str()), key), ini_get(b, Some(name.as_str()), key)),
        None => (ini_get(a, None, key), ini_get(b, None, key)),
    };
    match (in_a, in_b) {
        (Some(value_a), Some(value_b)) => value_a == value_b,
        (None, None) => true,
        _ => false,
    }
}

/// Whether `a` and `b` hold the same at each of the given places.
fn agree_on(a: &Ini, b: &Ini, slots: &Vec<(Option<String>, String)>) -> (same: bool)
    ensures
        same == (forall|i: int|
            0 <= i < slots.len() ==> agree_at(
                ini_entries(*a),
                ini_entries(*b),
                #[trigger] slots.deep_view()[i],
            )),
{
    let mut index: usize = 0;
    while index < slots.len()
        invariant
            index <= slots.len(),
            forall|i: int|
                0 <= i < index ==> agree_at(
                    ini_entries(*a),
                    ini_entries(*b),
                    #[trigger] slots.deep_view()[i],
                ),
        decreases slots.len() - index,
    {
        let same = agree_at_slot(a, b, &slots[index]);
        assert(slots.deep_view()[index as int] == slots[index as int].deep_view());
        if !same {
            return false;
        }
        index += 1;
    }
    true
}

/// Whether every lookup finds the same in `a` and in `b`.
pub(crate) fn same_entries(a: &Ini, b: &Ini) -> (same: bool)
    ensures
        same == (ini_entries(*a) == ini_entries(*b)),
{
    let slots_a = ini_slots(a);
    let slots_b = ini_slots(b);
    let same = agree_on(a, b, &slots_a) && agree_on(a, b, &slots_b);
    proof {
        let entries_a = ini_entries(*a);
        let entries_b = ini_entries(*b);
        if same {
            assert forall|slot: Slot| agree_at(entries_a, entries_b, slot) by {
                if entries_a.contains_key(slot) {
                    let i = choose|i: int|
                        0 <= i < slots_a.deep_view().len() && slots_a.deep_view()[i] == slot;
                    assert(agree_at(entries_a, entries_b, slots_a.deep_view()[i]));
                } else if entries_b.contains_key(slot) {
                    let i = choose|i: int|
                        0 <= i < slots_b.deep_view().len() && slots_b.deep_view()[i] == slot;
                    assert(agree_at(entries_a, entries_b, slots_b.deep_view()[i]));
                }
            }
            assert(entries_a =~= entries_b);
        }
    }
    same
}

/// Takes a text that was written from `ini` and gives it back if reading it
/// gives exactly what `ini` holds.
pub(crate) fn confirm(ini: &Ini, written: Option<String>) -> (r: Option<String>)
    ensures
        optional_text(r) == faithful(optional_text(written), ini_entries(*ini)),
{
    match written {
        None => None,
        Some(text) => {
            let same = match parse_text(text.as_str()) {
                Some(read_back) => same_entries(ini, &read_back),
                None => false,
            };
            if same {
                Some(text)
            } else {
                None
            }
        },
    }
}

/// The text of `ini`, handed out only if reading it back gives exactly what
/// `ini` holds: the text that the format's writer gives for `ini`, if there
/// is one and it is faithful, and `None` if not.
pub(crate) fn write_checked(ini: &Ini) -> (r: Option<String>)
    ensures
        optional_text(r) == faithful(ini_text(*ini), ini_entries(*ini)),
        r matches Some(text) ==> read_entries(text@) == Some(ini_entries(*ini)),
{
    confirm(ini, ini_write(ini))
}

} // verus!
