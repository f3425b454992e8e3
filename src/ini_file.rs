//! The INI documents of the `ini` crate, as the library sees them: the values
//! that lookups return, the section names in order, and the key/value pairs of
//! the general (unnamed) section in order.
use vstd::prelude::*;
use crate::table::text_view;

verus! {

/// Values by section name and key.
pub type IniValues = Map<(Option<Seq<char>>, Seq<char>), Seq<char>>;

#[verifier::external_type_specification]
#[verifier::external_body]
pub struct ExIni(ini::Ini);

#[verifier::external_type_specification]
#[verifier::external_body]
pub struct ExIniParseError(ini::ParseError);

/// What `Ini::get_from(section, key)` returns for each section and key that
/// has a value: the first value of the key in the first section of that name.
pub uninterp spec fn ini_values(i: ini::Ini) -> IniValues;

/// The section names that `Ini::sections` yields, in order (`None` for the
/// general section).
pub uninterp spec fn ini_section_names(i: ini::Ini) -> Seq<Option<Seq<char>>>;

/// The key/value pairs of the general section, in the order that
/// `Properties::iter` yields them (empty where there is no general section).
pub uninterp spec fn ini_general_pairs(i: ini::Ini) -> Seq<(Seq<char>, Seq<char>)>;

/// What a document holds, as the three views above: its values, its section
/// names and its general section's pairs.
pub type IniModel = (IniValues, Seq<Option<Seq<char>>>, Seq<(Seq<char>, Seq<char>)>);

/// What `Ini::load_from_str` gives for a text: `None` where it refuses the
/// text, else the model of the document it parses.
pub uninterp spec fn ini_parsed(text: Seq<char>) -> Option<IniModel>;

/// The model of a document.
pub open spec fn ini_model(i: ini::Ini) -> IniModel {
    (ini_values(i), ini_section_names(i), ini_general_pairs(i))
}

/// `s` without a leading byte-order mark, which INI files may start with.
pub open spec fn without_bom(s: Seq<char>) -> Seq<char> {
    if s.len() > 0 && s[0] == '\u{feff}' {
        s.drop_first()
    } else {
        s
    }
}

/// `s` without a leading byte-order mark.
pub fn strip_bom(s: &str) -> (r: &str)
    ensures
        r@ == without_bom(s@),
{
    let n = s.unicode_len();
    if n > 0 && s.get_char(0) == '\u{feff}' {
        let r = s.substring_char(1, n);
        assert(r@ =~= s@.drop_first());
        r
    } else {
        s
    }
}

/// Relies on `Ini::new`: a document with an empty general section and nothing else.
#[verifier::external_body]
pub(crate) fn new_ini() -> (r: ini::Ini)
    ensures
        ini_values(r) == IniValues::empty(),
        ini_section_names(r).len() == 1,
        ini_section_names(r)[0] is None,
        ini_general_pairs(r).len() == 0,
{
    ini::Ini::new()
}

/// Relies on `Ini::load_from_str`: parses a text; whether it succeeds, and what
/// the document holds, depend on the text alone.
#[verifier::external_body]
pub(crate) fn parse_ini(text: &str) -> (r: Result<ini::Ini, ini::ParseError>)
    ensures
        r is Ok <==> ini_parsed(text@) is Some,
        r is Ok ==> ini_parsed(text@) == Some(ini_model(r->Ok_0)),
{
    ini::Ini::load_from_str(text)
}

/// Relies on `Ini::get_from`: the value of `key` in section `section`, if any.
#[verifier::external_body]
pub(crate) fn ini_get(i: &ini::Ini, section: &str, key: &str) -> (r: Option<String>)
    ensures
        r is Some <==> ini_values(*i).contains_key((Some(section@), key@)),
        r is Some ==> r->0@ == ini_values(*i)[(Some(section@), key@)],
{
    i.get_from(Some(section), key).map(|v| v.to_string())
}

/// Relies on `SectionSetter::set` through `Ini::with_section`: after the call
/// the section's first occurrence holds `value` as the only value of `key`;
/// the section is created where it is missing, and no other value changes.
#[verifier::external_body]
pub(crate) fn ini_set(i: &mut ini::Ini, section: &str, key: &str, value: &str)
    ensures
        ini_values(*final(i)) == ini_values(*old(i)).insert((Some(section@), key@), value@),
{
    i.with_section(Some(section)).set(key, value);
}

/// Relies on `Ini::sections`: the section names, in order.
#[verifier::external_body]
pub(crate) fn ini_sections(i: &ini::Ini) -> (r: Vec<Option<String>>)
    ensures
        r@.len() == ini_section_names(*i).len(),
        forall|j: int| 0 <= j < r@.len() ==> text_view(#[trigger] r@[j]) == ini_section_names(*i)[j],
{
    i.sections().map(|s| s.map(|n| n.to_string())).collect()
}

/// Relies on `Ini::section(None)` and `Properties::iter`: the key/value pairs
/// of the general section, in order.
#[verifier::external_body]
pub(crate) fn ini_general_section(i: &ini::Ini) -> (r: Vec<(String, String)>)
    ensures
        r@.len() == ini_general_pairs(*i).len(),
        forall|j: int|
            0 <= j < r@.len() ==> (#[trigger] r@[j]).0@ == ini_general_pairs(*i)[j].0 && r@[j].1@
                == ini_general_pairs(*i)[j].1,
{
    match i.section(None::<String>) {
        Some(p) => p.iter().map(|(k, v)| (k.to_string(), v.to_string())).collect(),
        None => Vec::new(),
    }
}

} // verus!
