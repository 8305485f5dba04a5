//! The key-value text format of the client and of the vault.
//!
//! Both files are read and written by the `ini` crate. Nothing in this module
//! is proved: each item states what the crate's code is taken to do, and the
//! rest of the library is verified against these statements.

use ini::Ini;
use ini::LineSeparator;
use ini::WriteOption;
use vstd::prelude::*;

verus! {

/// `ini::Ini`: an ordered list of sections, each an ordered list of
/// key-value pairs. Nothing inside it is visible to the verifier.
#[verifier::external_type_specification]
#[verifier::external_body]
pub struct ExIni(Ini);

/// A place in a key-value text: the section's name (`None` for the unnamed
/// section at the top) and the key.
pub type Slot = (Option<Seq<char>>, Seq<char>);

/// A lookup table over the places of a key-value text.
pub type Entries = Map<Slot, Seq<char>>;

/// What a lookup in `ini` finds: for each section name and key, the first
/// value under that key in the first section of that name. This is what
/// `Ini::get_from` reads.
pub uninterp spec fn ini_entries(ini: Ini) -> Entries;

/// What `Ini::write_to_opt` writes for `ini` into a buffer in memory, with
/// basic escaping, `=` between key and value and a carriage return and a
/// line feed at the end of each line, whatever the system: the text, or
/// `None` where the write fails or gives bytes that are no text. With these
/// options the outcome depends on `ini` alone.
pub uninterp spec fn ini_text(ini: Ini) -> Option<Seq<char>>;

/// What `Ini::load_from_str` makes of a text: `None` where it reports a parse
/// error, else the lookup table of the value it returns.
pub uninterp spec fn parsed_entries(text: Seq<char>) -> Option<Entries>;

/// `Ini::new`: a value with an empty unnamed section and nothing else, so no
/// lookup finds anything in it.
#[verifier::external_body]
pub(crate) fn ini_new() -> (r: Ini)
    ensures
        ini_entries(r) == Entries::empty(),
{
    Ini::new()
}

/// `Ini::load_from_str`: parses `text` with the crate's default options. The
/// result depends on the text alone; `None` stands for the crate's parse
/// error.
#[verifier::external_body]
pub(crate) fn ini_parse(text: &str) -> (r: Option<Ini>)
    ensures
        match r {
            Some(ini) => parsed_entries(text@) == Some(ini_entries(ini)),
            None => parsed_entries(text@) is None,
        },
{
    match Ini::load_from_str(text) {
        Ok(ini) => Some(ini),
        Err(_) => None,
    }
}

/// `Ini::get_from`: the first value under `key` in the first section named
/// `section`, if there is one.
#[verifier::external_body]
pub(crate) fn ini_get(ini: &Ini, section: Option<&str>, key: &str) -> (r: Option<String>)
    ensures
        match r {
            Some(value) => ini_entries(*ini).contains_key((slot_section(section), key@))
                && ini_entries(*ini)[(slot_section(section), key@)] == value@,
            None => !ini_entries(*ini).contains_key((slot_section(section), key@)),
        },
{
    match ini.get_from(section, key) {
        Some(value) => Some(value.to_owned()),
        None => None,
    }
}

/// `Ini::set_to`: in the first section named `section`, which is added at the
/// end if there is none, every value under `key` is replaced by `value`
/// alone. Every other lookup finds what it found before.
#[verifier::external_body]
pub(crate) fn ini_set(ini: &mut Ini, section: Option<&str>, key: &str, value: &str)
    ensures
        ini_entries(*final(ini)) == ini_entries(*old(ini)).insert(
            (slot_section(section), key@),
            value@,
        ),
{
    ini.set_to(section, key.to_owned(), value.to_owned());
}

/// `Ini::iter` and, for each section it yields, `Properties::iter`: the
/// section's name and the key of every key-value pair, in the order in which
/// they are kept. Every place at which a lookup finds a value is among them.
#[verifier::external_body]
pub(crate) fn ini_slots(ini: &Ini) -> (r: Vec<(Option<String>, String)>)
    ensures
        forall|slot: Slot| #[trigger]
            ini_entries(*ini).contains_key(slot) ==> r.deep_view().contains(slot),
{
    let mut slots: Vec<(Option<String>, String)> = Vec::new();
    for (section, properties) in ini.iter() {
        for (key, _) in properties.iter() {
            let name = match section {
                Some(name) => Some(name.to_owned()),
                None => None,
            };
            slots.push((name, key.to_owned()));
        }
    }
    slots
}

/// `Ini::write_to_opt` into a byte buffer, with the line ending fixed to a
/// carriage return and a line feed and the crate's other defaults. `None`
/// stands for a write error or for bytes that are no text. Nothing is
/// claimed of what the text holds, only that it is the same for the same
/// value.
#[verifier::external_body]
pub(crate) fn ini_write(ini: &Ini) -> (r: Option<String>)
    ensures
        match r {
            Some(text) => ini_text(*ini) == Some(text@),
            None => ini_text(*ini) is None,
        },
{
    let mut buffer: Vec<u8> = Vec::new();
    let options = WriteOption { line_separator: LineSeparator::CRLF, ..WriteOption::default() };
    match ini.write_to_opt(&mut buffer, options) {
        Ok(()) => String::from_utf8(buffer).ok(),
        Err(_) => None,
    }
}

/// The section part of a [`Slot`] for a section given by name.
pub open spec fn slot_section(section: Option<&str>) -> Option<Seq<char>> {
    match section {
        Some(name) => Some(name@),
        None => None,
    }
}

} // verus!
