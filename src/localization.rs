//! Translated interface strings: one table per locale, with English as the fallback.

use vstd::prelude::*;

use crate::search::{first_index, lemma_first_index_facts, lemma_first_index_is};

verus! {

/// One locale's table of translated strings.
#[derive(Debug)]
pub struct Translation {
    pub locale: String,
    pub entries: Vec<(String, String)>,
}

/// Whether an entry translates `key`.
pub open spec fn for_key(key: Seq<char>) -> spec_fn((String, String)) -> bool {
    |e: (String, String)| e.0@ == key
}

/// Whether a table is the one of `locale`.
pub open spec fn for_locale(locale: Seq<char>) -> spec_fn(Translation) -> bool {
    |t: Translation| t.locale@ == locale
}

/// The table used for `locale`: its own, else English, else none (`None`).
pub open spec fn table_for(translations: Seq<Translation>, locale: Seq<char>) -> Option<
    Translation,
> {
    let i = first_index(translations, for_locale(locale));
    let e = first_index(translations, for_locale(seq!['e', 'n']));
    if i < translations.len() {
        Some(translations[i])
    } else if e < translations.len() {
        Some(translations[e])
    } else {
        None
    }
}

/// The locales that have a table.
pub open spec fn locales_of(translations: Seq<Translation>) -> Seq<String> {
    translations.map_values(|t: Translation| t.locale)
}

fn find_locale(translations: &Vec<Translation>, locale: &String) -> (r: usize)
    ensures
        r == first_index(translations@, for_locale(locale@)),
{
    let mut i: usize = 0;
    while i < translations.len()
        invariant
            i <= translations@.len(),
            forall|j: int| 0 <= j < i ==> !for_locale(locale@)(#[trigger] translations@[j]),
        decreases translations@.len() - i,
    {
        if translations[i].locale == *locale {
            proof {
                lemma_first_index_is(translations@, for_locale(locale@), i as int);
            }
            return i;
        }
        i = i + 1;
    }
    proof {
        lemma_first_index_is(translations@, for_locale(locale@), i as int);
    }
    i
}

fn copy_entries(entries: &Vec<(String, String)>) -> (r: Vec<(String, String)>)
    ensures
        r@ == entries@,
{
    let mut r: Vec<(String, String)> = Vec::new();
    let mut i: usize = 0;
    while i < entries.len()
        invariant
            i <= entries@.len(),
            r@ == entries@.take(i as int),
        decreases entries@.len() - i,
    {
        r.push((entries[i].0.clone(), entries[i].1.clone()));
        assert(r@ =~= entries@.take(i + 1));
        i = i + 1;
    }
    assert(entries@.take(i as int) =~= entries@);
    r
}

/// The table for `locale`, as `table_for` chooses it, and the locales on offer.
fn load_table(translations: &Vec<Translation>, locale: &String) -> (r: (
    Vec<(String, String)>,
    Vec<String>,
))
    ensures
        match table_for(translations@, locale@) {
            Some(t) => r.0@ == t.entries@,
            None => r.0@.len() == 0,
        },
        r.1@ == locales_of(translations@),
{
    let i = find_locale(translations, locale);
    let en = String::from_str("en");
    proof {
        reveal_strlit("en");
        assert("en"@ =~= seq!['e', 'n']);
        lemma_first_index_facts(translations@, for_locale(locale@));
        lemma_first_index_facts(translations@, for_locale(seq!['e', 'n']));
    }
    let e = find_locale(translations, &en);
    let entries = if i < translations.len() {
        copy_entries(&translations[i].entries)
    } else if e < translations.len() {
        copy_entries(&translations[e].entries)
    } else {
        Vec::new()
    };
    let mut locales: Vec<String> = Vec::new();
    let mut k: usize = 0;
    while k < translations.len()
        invariant
            k <= translations@.len(),
            locales@ == locales_of(translations@).take(k as int),
        decreases translations@.len() - k,
    {
        locales.push(translations[k].locale.clone());
        assert(locales@ =~= locales_of(translations@).take(k + 1));
        k = k + 1;
    }
    assert(locales_of(translations@).take(k as int) =~= locales_of(translations@));
    (entries, locales)
}

/// The interface language and its table.
#[derive(Debug)]
pub struct Localization {
    map: Vec<(String, String)>,
    locale: String,
    available: Vec<String>,
}

impl Localization {
    pub closed spec fn entries(&self) -> Seq<(String, String)> {
        self.map@
    }

    pub closed spec fn locale_spec(&self) -> String {
        self.locale
    }

    pub closed spec fn available_spec(&self) -> Seq<String> {
        self.available@
    }

    /// The interface in `locale`, with the English table where that locale has none.
    pub fn new(locale: String, translations: &Vec<Translation>) -> (r: Self)
        ensures
            r.locale_spec() == locale,
            match table_for(translations@, locale@) {
                Some(t) => r.entries() == t.entries@,
                None => r.entries().len() == 0,
            },
            r.available_spec() == locales_of(translations@),
    {
        let (map, available) = load_table(translations, &locale);
        Localization { map, locale, available }
    }

    /// The translation of `s`, or "unknown key".
    pub fn get(&self, s: &str) -> (r: String)
        ensures
            ({
                let i = first_index(self.entries(), for_key(s@));
                if i < self.entries().len() {
                    r == self.entries()[i].1
                } else {
                    r@ == "unknown key"@
                }
            }),
    {
        let key = String::from_str(s);
        let mut i: usize = 0;
        while i < self.map.len()
            invariant
                key@ == s@,
                i <= self.map@.len(),
                forall|j: int| 0 <= j < i ==> !for_key(s@)(#[trigger] self.map@[j]),
            decreases self.map@.len() - i,
        {
            if self.map[i].0 == key {
                proof {
                    lemma_first_index_is(self.map@, for_key(s@), i as int);
                }
                return self.map[i].1.clone();
            }
            i = i + 1;
        }
        proof {
            lemma_first_index_is(self.map@, for_key(s@), i as int);
        }
        String::from_str("unknown key")
    }

    /// Switches the interface to `s`, with the English table where that locale has none.
    pub fn set(&mut self, s: &str, translations: &Vec<Translation>)
        ensures
            final(self).locale_spec()@ == s@,
            match table_for(translations@, s@) {
                Some(t) => final(self).entries() == t.entries@,
                None => final(self).entries().len() == 0,
            },
            final(self).available_spec() == locales_of(translations@),
    {
        let locale = String::from_str(s);
        let (map, available) = load_table(translations, &locale);
        self.locale = locale;
        self.map = map;
        self.available = available;
    }

    /// The interface's locale.
    pub fn current_locale(&self) -> (r: String)
        ensures
            r == self.locale_spec(),
    {
        self.locale.clone()
    }

    /// The locales that have a table.
    pub fn locales(&self) -> (r: Vec<String>)
        ensures
            r@ == self.available_spec(),
    {
        let mut r: Vec<String> = Vec::new();
        let mut k: usize = 0;
        while k < self.available.len()
            invariant
                k <= self.available@.len(),
                r@ == self.available@.take(k as int),
            decreases self.available@.len() - k,
        {
            r.push(self.available[k].clone());
            assert(r@ =~= self.available@.take(k + 1));
            k = k + 1;
        }
        assert(self.available@.take(k as int) =~= self.available@);
        r
    }
}

} // verus!
