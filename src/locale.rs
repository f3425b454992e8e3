//! The locale store: the translated messages of every loaded locale, the
//! locale in use, lookups that fall back to the key, and the loading of the
//! locale files.
use vstd::prelude::*;
use crate::ini_file::{
    ini_general_pairs, ini_general_section, ini_parsed, ini_section_names, ini_sections,
    parse_ini, strip_bom, without_bom,
};
use crate::table::{text_view, LocaleMap, MessageTable};

verus! {

/// Failures of the locale store.
pub enum LocaleError {
    /// A locale index or locale file is not a well-formed INI document.
    InvalidFile,
    /// The requested locale is not among the loaded ones.
    Unsupported(String),
}

impl LocaleError {
    /// A message for the user.
    pub fn message(&self) -> (r: String)
        ensures
            self is InvalidFile ==> r@ == "invalid locale file"@,
            self is Unsupported ==> r@ == "Unsupported locale: "@ + self->Unsupported_0@,
    {
        match self {
            LocaleError::InvalidFile => "invalid locale file".to_owned(),
            LocaleError::Unsupported(code) => {
                let mut r = "Unsupported locale: ".to_owned();
                r.append(code.as_str());
                r
            },
        }
    }
}

/// The loaded locales and the one in use.
pub struct LocaleStore {
    pub locales: LocaleMap,
    pub current: String,
}

/// The locale used where the system reports none.
pub open spec fn default_locale() -> Seq<char> {
    "en-US"@
}

/// The locale in use at start, from what the system reports: `en-US` where it
/// reports none, and `zh-CN` for the `zh-Hans-CN` that some systems report.
pub open spec fn initial_locale(system: Option<Seq<char>>) -> Seq<char> {
    match system {
        None => default_locale(),
        Some(s) => if s == "zh-Hans-CN"@ {
            "zh-CN"@
        } else {
            s
        },
    }
}

/// What looking up `key` gives in locale `locale`: the stored text where the
/// locale has the key with a text, else the key itself.
pub open spec fn translation(
    locales: Map<Seq<char>, Map<Seq<char>, Option<Seq<char>>>>,
    locale: Seq<char>,
    key: Seq<char>,
) -> Seq<char> {
    if locales.contains_key(locale) && locales[locale].contains_key(key)
        && locales[locale][key] is Some {
        locales[locale][key]->0
    } else {
        key
    }
}

/// `s` without its leading double quotes.
pub open spec fn strip_leading_quotes(s: Seq<char>) -> Seq<char>
    decreases s.len(),
{
    if s.len() > 0 && s[0] == '"' {
        strip_leading_quotes(s.drop_first())
    } else {
        s
    }
}

/// `s` without its trailing double quotes.
pub open spec fn strip_trailing_quotes(s: Seq<char>) -> Seq<char>
    decreases s.len(),
{
    if s.len() > 0 && s.last() == '"' {
        strip_trailing_quotes(s.drop_last())
    } else {
        s
    }
}

/// `s` without the double quotes at either end.
pub open spec fn trim_quotes_spec(s: Seq<char>) -> Seq<char> {
    strip_trailing_quotes(strip_leading_quotes(s))
}

/// The messages of a locale file's general section, each value without its
/// quotes; a later pair for a key replaces an earlier one.
pub open spec fn messages_of(pairs: Seq<(Seq<char>, Seq<char>)>) -> Map<
    Seq<char>,
    Option<Seq<char>>,
>
    decreases pairs.len(),
{
    if pairs.len() == 0 {
        Map::empty()
    } else {
        messages_of(pairs.drop_last()).insert(
            pairs.last().0,
            Some(trim_quotes_spec(pairs.last().1)),
        )
    }
}

/// The named sections of a locale index, in order: the locale codes.
pub open spec fn codes_of(names: Seq<Option<Seq<char>>>) -> Seq<Seq<char>>
    decreases names.len(),
{
    if names.len() == 0 {
        Seq::empty()
    } else {
        match names.last() {
            Some(n) => codes_of(names.drop_last()).push(n),
            None => codes_of(names.drop_last()),
        }
    }
}

/// Relies on `sys_locale::get_locale`: the system's preferred locale, if it
/// reports one. Nothing is known of the value.
#[verifier::external_body]
fn system_locale() -> (r: Option<String>) {
    sys_locale::get_locale()
}

/// The locale in use at start, from what the system reported.
pub fn normalize_locale(system: Option<String>) -> (r: String)
    ensures
        r@ == initial_locale(text_view(system)),
{
    match system {
        None => "en-US".to_owned(),
        Some(s) => {
            let mac = "zh-Hans-CN".to_owned();
            if s == mac {
                "zh-CN".to_owned()
            } else {
                s
            }
        },
    }
}

/// `s` without the double quotes at either end.
pub fn trim_quotes(s: &str) -> (r: String)
    ensures
        r@ == trim_quotes_spec(s@),
{
    let n = s.unicode_len();
    let mut start: usize = 0;
    assert(s@.subrange(0, n as int) =~= s@);
    while start < n && s.get_char(start) == '"'
        invariant
            n == s@.len(),
            start <= n,
            strip_leading_quotes(s@) == strip_leading_quotes(s@.subrange(start as int, n as int)),
        decreases n - start,
    {
        let ghost rest = s@.subrange(start as int, n as int);
        assert(rest.drop_first() =~= s@.subrange(start + 1, n as int));
        start = start + 1;
    }
    let mut end: usize = n;
    proof {
        let rest = s@.subrange(start as int, n as int);
        assert(strip_leading_quotes(rest) == rest);
    }
    while end > start && s.get_char(end - 1) == '"'
        invariant
            n == s@.len(),
            start <= end <= n,
            strip_leading_quotes(s@) == s@.subrange(start as int, n as int),
            strip_trailing_quotes(s@.subrange(start as int, n as int)) == strip_trailing_quotes(
                s@.subrange(start as int, end as int),
            ),
        decreases end - start,
    {
        let ghost rest = s@.subrange(start as int, end as int);
        assert(rest.drop_last() =~= s@.subrange(start as int, end - 1));
        end = end - 1;
    }
    let r = s.substring_char(start, end);
    r.to_owned()
}

/// The messages of a parsed locale file: each pair of its general section,
/// the value without its quotes; a later pair for a key replaces an earlier one.
pub fn locale_messages(file: &ini::Ini) -> (r: MessageTable)
    ensures
        r@ == messages_of(ini_general_pairs(*file)),
{
    let pairs = ini_general_section(file);
    let mut r = MessageTable::new();
    let mut i: usize = 0;
    while i < pairs.len()
        invariant
            i <= pairs@.len(),
            pairs@.len() == ini_general_pairs(*file).len(),
            forall|j: int|
                0 <= j < pairs@.len() ==> (#[trigger] pairs@[j]).0@ == ini_general_pairs(
                    *file,
                )[j].0 && pairs@[j].1@ == ini_general_pairs(*file)[j].1,
            r@ == messages_of(ini_general_pairs(*file).subrange(0, i as int)),
        decreases pairs@.len() - i,
    {
        let ghost all = ini_general_pairs(*file);
        assert(all.subrange(0, i + 1).drop_last() =~= all.subrange(0, i as int));
        let value = trim_quotes(pairs[i].1.as_str());
        r.insert(pairs[i].0.clone(), Some(value));
        i = i + 1;
    }
    assert(ini_general_pairs(*file).subrange(0, i as int) =~= ini_general_pairs(*file));
    r
}

/// The locale codes of a parsed locale index: its named sections, in order.
pub fn locale_codes(index: &ini::Ini) -> (r: Vec<String>)
    ensures
        r@.len() == codes_of(ini_section_names(*index)).len(),
        forall|j: int| 0 <= j < r@.len() ==> (#[trigger] r@[j])@ == codes_of(ini_section_names(*index))[j],
{
    let names = ini_sections(index);
    let ghost all = ini_section_names(*index);
    let mut r: Vec<String> = Vec::new();
    let mut i: usize = 0;
    while i < names.len()
        invariant
            i <= names@.len(),
            names@.len() == all.len(),
            all == ini_section_names(*index),
            forall|j: int| 0 <= j < names@.len() ==> text_view(#[trigger] names@[j]) == all[j],
            r@.len() == codes_of(all.subrange(0, i as int)).len(),
            forall|j: int|
                0 <= j < r@.len() ==> (#[trigger] r@[j])@ == codes_of(all.subrange(0, i as int))[j],
        decreases names@.len() - i,
    {
        assert(all.subrange(0, i + 1).drop_last() =~= all.subrange(0, i as int));
        assert(text_view(names@[i as int]) == all[i as int]);
        match &names[i] {
            Some(n) => {
                r.push(n.clone());
            },
            None => {},
        }
        i = i + 1;
    }
    assert(all.subrange(0, i as int) =~= all);
    r
}

/// The path, under the resource directory, of the file of locale `code`.
pub fn locale_file_name(code: &str) -> (r: String)
    ensures
        r@ == "resources/locale/"@ + code@ + ".ini"@,
{
    let mut r = "resources/locale/".to_owned();
    r.append(code);
    r.append(".ini");
    r
}

/// Parses a locale index (less a leading byte-order mark); `Ok` with its
/// locale codes exactly when the text is a well-formed INI document.
pub fn parse_locale_index(text: &str) -> (r: Result<Vec<String>, LocaleError>)
    ensures
        r is Ok <==> ini_parsed(without_bom(text@)) is Some,
        r is Ok ==> r->Ok_0@.len() == codes_of((ini_parsed(without_bom(text@))->0).1).len() && forall|j: int|
            0 <= j < r->Ok_0@.len() ==> (#[trigger] r->Ok_0@[j])@ == codes_of(
                (ini_parsed(without_bom(text@))->0).1,
            )[j],
        r is Err ==> r->Err_0 is InvalidFile,
{
    match parse_ini(strip_bom(text)) {
        Ok(index) => Ok(locale_codes(&index)),
        Err(_) => Err(LocaleError::InvalidFile),
    }
}

/// Parses a locale file (less a leading byte-order mark); `Ok` with its
/// messages exactly when the text is a well-formed INI document.
pub fn parse_locale_file(text: &str) -> (r: Result<MessageTable, LocaleError>)
    ensures
        r is Ok <==> ini_parsed(without_bom(text@)) is Some,
        r is Ok ==> r->Ok_0@ == messages_of((ini_parsed(without_bom(text@))->0).2),
        r is Err ==> r->Err_0 is InvalidFile,
{
    match parse_ini(strip_bom(text)) {
        Ok(file) => Ok(locale_messages(&file)),
        Err(_) => Err(LocaleError::InvalidFile),
    }
}

/// The messages a locale file's text gives, where it parses.
pub open spec fn file_messages(text: Seq<char>) -> Map<Seq<char>, Option<Seq<char>>> {
    messages_of((ini_parsed(without_bom(text))->0).2)
}

/// Whether a locale file's text parses.
pub open spec fn file_parses(text: Seq<char>) -> bool {
    ini_parsed(without_bom(text)) is Some
}

/// The locales that codes and the texts of their files give, a later code
/// replacing an earlier equal one.
pub open spec fn locales_from(codes: Seq<String>, texts: Seq<String>) -> Map<
    Seq<char>,
    Map<Seq<char>, Option<Seq<char>>>,
>
    decreases codes.len(),
{
    if codes.len() == 0 {
        Map::empty()
    } else {
        locales_from(codes.drop_last(), texts.drop_last()).insert(
            codes.last()@,
            file_messages(texts.last()@),
        )
    }
}

/// The locales of the index's codes from the texts of their files, one text
/// per code in the same order; `Err` with the index of the first text that
/// does not parse.
pub fn build_locale_map(codes: &Vec<String>, texts: &Vec<String>) -> (r: Result<LocaleMap, usize>)
    requires
        codes@.len() == texts@.len(),
    ensures
        r is Ok <==> forall|i: int| 0 <= i < texts@.len() ==> file_parses(#[trigger] texts@[i]@),
        r is Ok ==> r->Ok_0@ == locales_from(codes@, texts@),
        r is Err ==> r->Err_0 < texts@.len() && !file_parses(texts@[r->Err_0 as int]@),
{
    let mut map = LocaleMap::new();
    let mut i: usize = 0;
    while i < codes.len()
        invariant
            i <= codes@.len(),
            codes@.len() == texts@.len(),
            forall|j: int| 0 <= j < i ==> file_parses(#[trigger] texts@[j]@),
            map@ == locales_from(codes@.subrange(0, i as int), texts@.subrange(0, i as int)),
        decreases codes@.len() - i,
    {
        match parse_locale_file(texts[i].as_str()) {
            Ok(messages) => {
                assert(codes@.subrange(0, i + 1).drop_last() =~= codes@.subrange(0, i as int));
                assert(texts@.subrange(0, i + 1).drop_last() =~= texts@.subrange(0, i as int));
                map.insert(codes[i].clone(), messages);
            },
            Err(_) => {
                return Err(i);
            },
        }
        i = i + 1;
    }
    assert(codes@.subrange(0, i as int) =~= codes@);
    assert(texts@.subrange(0, i as int) =~= texts@);
    Ok(map)
}

impl LocaleStore {
    /// A store over `locales` whose locale in use comes from what the system
    /// reported.
    pub fn new(locales: LocaleMap, system: Option<String>) -> (r: LocaleStore)
        ensures
            r.locales@ == locales@,
            r.current@ == initial_locale(text_view(system)),
    {
        LocaleStore { locales, current: normalize_locale(system) }
    }

    /// A store over `locales` whose locale in use comes from the system's
    /// preferred locale, as `normalize_locale` turns it (the system's answer
    /// is not known in advance).
    pub fn from_system(locales: LocaleMap) -> (r: LocaleStore)
        ensures
            r.locales@ == locales@,
    {
        let system = system_locale();
        LocaleStore::new(locales, system)
    }
}

/// The locale in use.
pub fn get_locale(store: &LocaleStore) -> (r: String)
    ensures
        r@ == store.current@,
{
    store.current.clone()
}

/// Makes `locale` the locale in use where it is loaded; otherwise fails and
/// leaves the store as it was.
pub fn set_locale(store: &mut LocaleStore, locale: &str) -> (r: Result<(), LocaleError>)
    ensures
        r is Ok <==> old(store).locales@.contains_key(locale@),
        final(store).locales@ == old(store).locales@,
        r is Ok ==> final(store).current@ == locale@,
        r is Err ==> final(store).current@ == old(store).current@,
        r is Err ==> r->Err_0 is Unsupported && r->Err_0->Unsupported_0@ == locale@,
{
    if !store.locales.contains(locale) {
        return Err(LocaleError::Unsupported(locale.to_owned()));
    }
    store.current = locale.to_owned();
    Ok(())
}

/// The text of `key` in the locale in use, or the key itself where that
/// locale has no text for it.
pub fn t(store: &LocaleStore, key: &str) -> (r: String)
    ensures
        r@ == translation(store.locales@, store.current@, key@),
{
    match store.locales.find(store.current.as_str()) {
        None => key.to_owned(),
        Some(i) => match store.locales.entries[i].messages.get(key) {
            Some(Some(text)) => text,
            _ => key.to_owned(),
        },
    }
}

/// A key that the locale in use does not hold translates to itself.
pub proof fn lemma_missing_key_translates_to_itself(
    locales: Map<Seq<char>, Map<Seq<char>, Option<Seq<char>>>>,
    locale: Seq<char>,
    key: Seq<char>,
)
    requires
        !(locales.contains_key(locale) && locales[locale].contains_key(key)),
    ensures
        translation(locales, locale, key) == key,
{
}

} // verus!
