//! The section-keyed file behind the credential store, as the `ini` crate
//! parses, holds and writes it. Nothing in this file is proved: the types
//! are the crate's, the three names stand for what the crate computes, and
//! each function's contract says what the crate's source shows of the call
//! in its body.

use ini::Ini;
use vstd::prelude::*;

verus! {

/// `ini::Ini`, a parsed file. Verus sees nothing inside it.
#[verifier::external_type_specification]
#[verifier::external_body]
pub struct ExIni(Ini);

/// `ini::Error`, why a file could not be read or parsed.
#[verifier::external_type_specification]
#[verifier::external_body]
pub struct ExIniError(ini::Error);

/// What a file holds in its named sections: under each section's name, the
/// section's keys, each with the value that a lookup finds for it. Where a
/// name or a key occurs more than once, the crate's lookups find the first
/// occurrence, and that is the one held here. The section without a name is
/// left out.
pub uninterp spec fn ini_sections(file: Ini) -> Map<Seq<char>, Map<Seq<char>, Seq<char>>>;

/// What `Ini::read_from` makes of the bytes of a file: the named sections
/// of the file parsed, or `None` where the bytes are not UTF-8 or do not
/// parse.
pub uninterp spec fn ini_parsed(bytes: Seq<u8>) -> Option<Map<Seq<char>, Map<Seq<char>, Seq<char>>>>;

/// The bytes that `Ini::write_to` writes a file out as, or `None` where it
/// reports an error. The crate writes the sections in the order in which it
/// holds them, escapes what its default policy escapes, and ends each line
/// as the platform does.
pub uninterp spec fn ini_written(file: Ini) -> Option<Seq<u8>>;

/// The value found under `key` in the section `section`.
pub open spec fn lookup(
    sections: Map<Seq<char>, Map<Seq<char>, Seq<char>>>,
    section: Seq<char>,
    key: Seq<char>,
) -> Option<Seq<char>> {
    if sections.dom().contains(section) && sections[section].dom().contains(key) {
        Some(sections[section][key])
    } else {
        None
    }
}

/// `Ini::read_from` on a byte slice. The call reads the bytes as UTF-8 and
/// parses them with the crate's default options; it fails on bytes that are
/// not UTF-8 and on text that does not parse.
#[verifier::external_body]
pub(crate) fn ini_parse(bytes: &[u8]) -> (res: Result<Ini, ini::Error>)
    ensures
        match res {
            Ok(file) => ini_parsed(bytes@) == Some(ini_sections(file)),
            Err(_) => ini_parsed(bytes@) is None,
        },
{
    let mut reader = bytes;
    Ini::read_from(&mut reader)
}

/// `Ini::get_from` with a named section: the first value of `key` in the
/// first section called `section`, or `None` where there is no such section
/// or it has no such key.
#[verifier::external_body]
pub(crate) fn ini_get(file: &Ini, section: &str, key: &str) -> (res: Option<String>)
    ensures
        match res {
            Some(value) => lookup(ini_sections(*file), section@, key@) == Some(value@),
            None => lookup(ini_sections(*file), section@, key@) is None,
        },
{
    file.get_from(Some(section), key).map(String::from)
}

/// `Ini::section_mut` with a named section, then `Properties::insert`: in
/// the first section called `section`, `value` takes the place of every
/// value that `key` had, and no other key and no other section changes. A
/// file without such a section is left as it is.
#[verifier::external_body]
pub(crate) fn ini_put(file: &mut Ini, section: &str, key: &str, value: &str)
    ensures
        ini_sections(*final(file)) == if ini_sections(*old(file)).dom().contains(section@) {
            ini_sections(*old(file)).insert(
                section@,
                ini_sections(*old(file))[section@].insert(key@, value@),
            )
        } else {
            ini_sections(*old(file))
        },
{
    if let Some(properties) = file.section_mut(Some(section)) {
        properties.insert(key, value);
    }
}

/// `Ini::write_to` into a byte vector. The crate reports an error only where
/// the writer does; whether a byte vector ever does is not the crate's to
/// say, so nothing is claimed of it here.
#[verifier::external_body]
pub(crate) fn ini_write(file: &Ini) -> (res: Option<Vec<u8>>)
    ensures
        match res {
            Some(bytes) => ini_written(*file) == Some(bytes@),
            None => ini_written(*file) is None,
        },
{
    let mut bytes = Vec::new();
    match file.write_to(&mut bytes) {
        Ok(_) => Some(bytes),
        Err(_) => None,
    }
}

} // verus!
