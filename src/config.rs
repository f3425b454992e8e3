//! The settings store: values by section and key, kept in an INI document
//! that the application writes back to disk after each change.
use vstd::prelude::*;
use crate::ini_file::{
    ini_get, ini_parsed, ini_set, ini_values, new_ini, parse_ini, strip_bom, without_bom, IniValues,
};

verus! {

/// The settings, by section and key.
pub struct ConfigStore {
    pub document: ini::Ini,
}

impl View for ConfigStore {
    type V = IniValues;

    open spec fn view(&self) -> IniValues {
        ini_values(self.document)
    }
}

impl ConfigStore {
    /// An empty store.
    pub fn new() -> (r: ConfigStore)
        ensures
            r@ == IniValues::empty(),
    {
        ConfigStore { document: new_ini() }
    }

    /// The store read from the text of the settings file (less a leading
    /// byte-order mark), or an empty store where there is no file or its text
    /// is not a well-formed INI document.
    pub fn load(text: Option<&str>) -> (r: ConfigStore)
        ensures
            text is None ==> r@ == IniValues::empty(),
            text is Some && ini_parsed(without_bom(text->0@)) is None ==> r@ == IniValues::empty(),
            text is Some && ini_parsed(without_bom(text->0@)) is Some ==> r@ == (ini_parsed(
                without_bom(text->0@),
            )->0).0,
    {
        match text {
            None => ConfigStore::new(),
            Some(t) => match parse_ini(strip_bom(t)) {
                Ok(document) => ConfigStore { document },
                Err(_) => ConfigStore::new(),
            },
        }
    }

    /// The store over a parsed document.
    pub fn from_document(document: ini::Ini) -> (r: ConfigStore)
        ensures
            r@ == ini_values(document),
    {
        ConfigStore { document }
    }

    /// The document that holds the settings, for writing it back to disk.
    pub fn document(&self) -> (r: &ini::Ini)
        ensures
            ini_values(*r) == self@,
    {
        &self.document
    }
}

/// The value of `key` in section `section`, if the store holds one.
pub fn get_config(store: &ConfigStore, section: &str, key: &str) -> (r: Option<String>)
    ensures
        r is Some <==> store@.contains_key((Some(section@), key@)),
        r is Some ==> r->0@ == store@[(Some(section@), key@)],
{
    ini_get(&store.document, section, key)
}

/// Stores `value` under `key` in section `section`, replacing what was there.
pub fn set_config(store: &mut ConfigStore, section: &str, key: &str, value: &str)
    ensures
        final(store)@ == old(store)@.insert((Some(section@), key@), value@),
{
    ini_set(&mut store.document, section, key, value);
}

} // verus!
