//! Lookups in locale tables split into namespaces, where the messages of the
//! user interface sit under the `translation` namespace of each locale.
use vstd::prelude::*;
use crate::table::LocaleMap;

verus! {

/// One locale: its code and its namespaces, each a table of messages.
pub struct NamespacedLocale {
    pub code: String,
    pub namespaces: LocaleMap,
}

/// Locales by code, each split into namespaces; a later entry for a code
/// replaces an earlier one.
pub struct NamespacedLocales {
    pub entries: Vec<NamespacedLocale>,
}

/// The namespaces stored for `code` by the last entry that has it.
pub open spec fn namespaced_lookup(s: Seq<NamespacedLocale>, code: Seq<char>) -> Option<
    Map<Seq<char>, Map<Seq<char>, Option<Seq<char>>>>,
>
    decreases s.len(),
{
    if s.len() == 0 {
        None
    } else if s.last().code@ == code {
        Some(s.last().namespaces@)
    } else {
        namespaced_lookup(s.drop_last(), code)
    }
}

impl View for NamespacedLocales {
    type V = Map<Seq<char>, Map<Seq<char>, Map<Seq<char>, Option<Seq<char>>>>>;

    open spec fn view(&self) -> Map<Seq<char>, Map<Seq<char>, Map<Seq<char>, Option<Seq<char>>>>> {
        Map::new(
            |k: Seq<char>| namespaced_lookup(self.entries@, k) is Some,
            |k: Seq<char>| namespaced_lookup(self.entries@, k)->0,
        )
    }
}

/// The namespace that holds the messages of the user interface.
pub open spec fn translation_namespace() -> Seq<char> {
    "translation"@
}

/// What looking up `key` gives in locale `locale`: the text stored under the
/// locale's `translation` namespace where there is one, else the key itself.
pub open spec fn namespaced_translation(
    locales: Map<Seq<char>, Map<Seq<char>, Map<Seq<char>, Option<Seq<char>>>>>,
    locale: Seq<char>,
    key: Seq<char>,
) -> Seq<char> {
    let ns = translation_namespace();
    if locales.contains_key(locale) && locales[locale].contains_key(ns)
        && locales[locale][ns].contains_key(key) && locales[locale][ns][key] is Some {
        locales[locale][ns][key]->0
    } else {
        key
    }
}

impl NamespacedLocales {
    pub fn new() -> (r: NamespacedLocales)
        ensures
            r@ == Map::<Seq<char>, Map<Seq<char>, Map<Seq<char>, Option<Seq<char>>>>>::empty(),
    {
        let r = NamespacedLocales { entries: Vec::new() };
        assert(r@ =~= Map::<Seq<char>, Map<Seq<char>, Map<Seq<char>, Option<Seq<char>>>>>::empty());
        r
    }

    /// Stores the namespaces of locale `code`, replacing what the code held.
    pub fn insert(&mut self, code: String, namespaces: LocaleMap)
        ensures
            final(self)@ == old(self)@.insert(code@, namespaces@),
    {
        let ghost k = code@;
        let ghost m = namespaces@;
        self.entries.push(NamespacedLocale { code, namespaces });
        proof {
            assert(self.entries@.drop_last() =~= old(self).entries@);
            assert(self@ =~= old(self)@.insert(k, m));
        }
    }

    /// The index of the entry that holds locale `code`, if one does.
    pub fn find(&self, code: &str) -> (r: Option<usize>)
        ensures
            r is Some <==> self@.contains_key(code@),
            r is Some ==> r->0 < self.entries@.len() && self.entries@[r->0 as int].namespaces@
                == self@[code@],
    {
        let wanted: String = code.to_owned();
        let mut i: usize = self.entries.len();
        assert(self.entries@.subrange(0, i as int) =~= self.entries@);
        while i > 0
            invariant
                i <= self.entries@.len(),
                wanted@ == code@,
                namespaced_lookup(self.entries@, code@) == namespaced_lookup(
                    self.entries@.subrange(0, i as int),
                    code@,
                ),
            decreases i,
        {
            let ghost before = self.entries@.subrange(0, i as int);
            assert(before.drop_last() =~= self.entries@.subrange(0, i - 1));
            if self.entries[i - 1].code == wanted {
                return Some(i - 1);
            }
            i = i - 1;
        }
        None
    }
}

/// The text of `key` under the `translation` namespace of locale `locale`, or
/// the key itself where there is none.
pub fn t(locales: &NamespacedLocales, locale: &str, key: &str) -> (r: String)
    ensures
        r@ == namespaced_translation(locales@, locale@, key@),
{
    let found = locales.find(locale);
    match found {
        None => key.to_owned(),
        Some(i) => {
            let namespaces = &locales.entries[i].namespaces;
            let ns = "translation";
            match namespaces.find(ns) {
                None => key.to_owned(),
                Some(j) => match namespaces.entries[j].messages.get(key) {
                    Some(Some(text)) => text,
                    _ => key.to_owned(),
                },
            }
        },
    }
}

} // verus!
