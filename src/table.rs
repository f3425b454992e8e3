//! Keyed tables kept as lists of entries, where a later entry for a key
//! replaces an earlier one (the behaviour of a map that is filled by inserts).
use vstd::prelude::*;

verus! {

/// One translated message: the key and, where the locale file gives one, its text.
pub struct Message {
    pub key: String,
    pub text: Option<String>,
}

/// The messages of one locale.
pub struct MessageTable {
    pub entries: Vec<Message>,
}

/// One locale: its code and its messages.
pub struct LocaleEntry {
    pub code: String,
    pub messages: MessageTable,
}

/// All loaded locales, by code.
pub struct LocaleMap {
    pub entries: Vec<LocaleEntry>,
}

pub open spec fn text_view(t: Option<String>) -> Option<Seq<char>> {
    match t {
        Some(s) => Some(s@),
        None => None,
    }
}

/// The text stored for `key` by the last entry that has it.
pub open spec fn message_lookup(s: Seq<Message>, key: Seq<char>) -> Option<Option<Seq<char>>>
    decreases s.len(),
{
    if s.len() == 0 {
        None
    } else if s.last().key@ == key {
        Some(text_view(s.last().text))
    } else {
        message_lookup(s.drop_last(), key)
    }
}

/// The messages stored for `code` by the last entry that has it.
pub open spec fn locale_lookup(s: Seq<LocaleEntry>, code: Seq<char>) -> Option<
    Map<Seq<char>, Option<Seq<char>>>,
>
    decreases s.len(),
{
    if s.len() == 0 {
        None
    } else if s.last().code@ == code {
        Some(s.last().messages@)
    } else {
        locale_lookup(s.drop_last(), code)
    }
}

impl View for MessageTable {
    type V = Map<Seq<char>, Option<Seq<char>>>;

    open spec fn view(&self) -> Map<Seq<char>, Option<Seq<char>>> {
        Map::new(
            |k: Seq<char>| message_lookup(self.entries@, k) is Some,
            |k: Seq<char>| message_lookup(self.entries@, k)->0,
        )
    }
}

impl View for LocaleMap {
    type V = Map<Seq<char>, Map<Seq<char>, Option<Seq<char>>>>;

    open spec fn view(&self) -> Map<Seq<char>, Map<Seq<char>, Option<Seq<char>>>> {
        Map::new(
            |k: Seq<char>| locale_lookup(self.entries@, k) is Some,
            |k: Seq<char>| locale_lookup(self.entries@, k)->0,
        )
    }
}

fn clone_text(t: &Option<String>) -> (r: Option<String>)
    ensures
        text_view(r) == text_view(*t),
{
    match t {
        Some(s) => Some(s.clone()),
        None => None,
    }
}

impl MessageTable {
    pub fn new() -> (r: MessageTable)
        ensures
            r@ == Map::<Seq<char>, Option<Seq<char>>>::empty(),
    {
        let r = MessageTable { entries: Vec::new() };
        assert(r@ =~= Map::<Seq<char>, Option<Seq<char>>>::empty());
        r
    }

    /// Stores `text` under `key`, replacing what the key held.
    pub fn insert(&mut self, key: String, text: Option<String>)
        ensures
            final(self)@ == old(self)@.insert(key@, text_view(text)),
    {
        let ghost k = key@;
        let ghost t = text_view(text);
        self.entries.push(Message { key, text });
        proof {
            let s = self.entries@;
            assert(s.drop_last() =~= old(self).entries@);
            assert(self@ =~= old(self)@.insert(k, t));
        }
    }

    /// The entry for `key`: `None` where the table has none, else the stored text.
    pub fn get(&self, key: &str) -> (r: Option<Option<String>>)
        ensures
            r is Some <==> self@.contains_key(key@),
            r is Some ==> text_view(r->0) == self@[key@],
    {
        let wanted: String = key.to_owned();
        let mut i: usize = self.entries.len();
        assert(self.entries@.subrange(0, i as int) =~= self.entries@);
        while i > 0
            invariant
                i <= self.entries@.len(),
                wanted@ == key@,
                message_lookup(self.entries@, key@) == message_lookup(
                    self.entries@.subrange(0, i as int),
                    key@,
                ),
            decreases i,
        {
            let ghost before = self.entries@.subrange(0, i as int);
            assert(before.drop_last() =~= self.entries@.subrange(0, i - 1));
            let e = &self.entries[i - 1];
            if e.key == wanted {
                return Some(clone_text(&e.text));
            }
            i = i - 1;
        }
        None
    }
}

impl LocaleMap {
    pub fn new() -> (r: LocaleMap)
        ensures
            r@ == Map::<Seq<char>, Map<Seq<char>, Option<Seq<char>>>>::empty(),
    {
        let r = LocaleMap { entries: Vec::new() };
        assert(r@ =~= Map::<Seq<char>, Map<Seq<char>, Option<Seq<char>>>>::empty());
        r
    }

    /// Stores the messages of locale `code`, replacing what the code held.
    pub fn insert(&mut self, code: String, messages: MessageTable)
        ensures
            final(self)@ == old(self)@.insert(code@, messages@),
    {
        let ghost k = code@;
        let ghost m = messages@;
        self.entries.push(LocaleEntry { code, messages });
        proof {
            let s = self.entries@;
            assert(s.drop_last() =~= old(self).entries@);
            assert(self@ =~= old(self)@.insert(k, m));
        }
    }

    /// The index of the entry that holds locale `code`, if one does.
    pub fn find(&self, code: &str) -> (r: Option<usize>)
        ensures
            r is Some <==> self@.contains_key(code@),
            r is Some ==> r->0 < self.entries@.len() && self.entries@[r->0 as int].messages@
                == self@[code@],
    {
        let wanted: String = code.to_owned();
        let mut i: usize = self.entries.len();
        assert(self.entries@.subrange(0, i as int) =~= self.entries@);
        while i > 0
            invariant
                i <= self.entries@.len(),
                wanted@ == code@,
                locale_lookup(self.entries@, code@) == locale_lookup(
                    self.entries@.subrange(0, i as int),
                    code@,
                ),
            decreases i,
        {
            let ghost before = self.entries@.subrange(0, i as int);
            assert(before.drop_last() =~= self.entries@.subrange(0, i - 1));
            if self.entries[i - 1].code == wanted {
                return Some(i - 1);
            }
            i = i - 1;
        }
        None
    }

    /// Whether locale `code` is loaded.
    pub fn contains(&self, code: &str) -> (r: bool)
        ensures
            r == self@.contains_key(code@),
    {
        self.find(code).is_some()
    }
}

} // verus!
