//! The dictionary group's manifest catalog and the entry selected for the chosen language.

use vstd::prelude::*;

use crate::search::{first_index, lemma_first_index_facts, lemma_first_index_is};

verus! {

/// One published version of the dictionary bundle, for one language.
#[derive(Debug)]
pub struct Manifest {
    pub language: String,
    /// The fingerprint the installed dictionary files have once this entry is applied.
    pub checksum: u32,
    pub csv: String,
    pub font: String,
    pub encoding: String,
    /// The locale code of the language, where the catalog gives one.
    pub code: Option<String>,
}

/// An optional string as an optional sequence of characters.
pub open spec fn opt_view(s: Option<String>) -> Option<Seq<char>> {
    match s {
        Some(v) => Some(v@),
        None => None,
    }
}

/// Compares two optional strings by their characters.
pub fn opt_eq(a: &Option<String>, b: &Option<String>) -> (r: bool)
    ensures
        r == (opt_view(*a) == opt_view(*b)),
{
    match (a, b) {
        (Some(x), Some(y)) => *x == *y,
        (None, None) => true,
        _ => false,
    }
}

/// Copies an optional string.
pub fn opt_copy(s: &Option<String>) -> (r: Option<String>)
    ensures
        r == *s,
{
    match s {
        Some(v) => Some(v.clone()),
        None => None,
    }
}

impl Manifest {
    /// The zero entry: no language selected.
    pub open spec fn is_sentinel(&self) -> bool {
        &&& self.language@ == seq!['-']
        &&& self.checksum == 0
        &&& self.csv@.len() == 0
        &&& self.font@.len() == 0
        &&& self.encoding@.len() == 0
        &&& self.code is None
    }

    /// The zero entry.
    pub fn sentinel() -> (r: Self)
        ensures
            r.is_sentinel(),
    {
        let language = String::from_str("-");
        proof {
            reveal_strlit("-");
            assert("-"@ =~= seq!['-']);
        }
        Manifest {
            language,
            checksum: 0,
            csv: String::new(),
            font: String::new(),
            encoding: String::new(),
            code: None,
        }
    }

    /// A field-by-field copy.
    pub fn copy(&self) -> (r: Self)
        ensures
            r == *self,
    {
        Manifest {
            language: self.language.clone(),
            checksum: self.checksum,
            csv: self.csv.clone(),
            font: self.font.clone(),
            encoding: self.encoding.clone(),
            code: opt_copy(&self.code),
        }
    }
}

impl Clone for Manifest {
    fn clone(&self) -> (r: Self)
        ensures
            r == *self,
    {
        self.copy()
    }
}

/// Whether a catalog entry is the one for the language named `name`.
pub open spec fn for_language(name: Seq<char>) -> spec_fn(Manifest) -> bool {
    |m: Manifest| m.language@ == name
}

/// Whether a catalog entry carries the locale code `code`.
pub open spec fn for_code(code: Option<Seq<char>>) -> spec_fn(Manifest) -> bool {
    |m: Manifest| opt_view(m.code) == code
}

/// The first entry of a catalog that satisfies `p`, or `None`.
pub open spec fn select_by(catalog: Seq<Manifest>, p: spec_fn(Manifest) -> bool) -> Option<
    Manifest,
> {
    let i = first_index(catalog, p);
    if i < catalog.len() {
        Some(catalog[i])
    } else {
        None
    }
}

/// Copies a catalog entry by entry.
pub fn copy_catalog(catalog: &Vec<Manifest>) -> (r: Vec<Manifest>)
    ensures
        r@ == catalog@,
{
    let mut r: Vec<Manifest> = Vec::new();
    let mut i: usize = 0;
    while i < catalog.len()
        invariant
            i <= catalog@.len(),
            r@ == catalog@.take(i as int),
        decreases catalog@.len() - i,
    {
        r.push(catalog[i].copy());
        assert(r@ =~= catalog@.take(i + 1));
        i = i + 1;
    }
    assert(catalog@.take(i as int) =~= catalog@);
    r
}

/// The position of the first entry for the language named `name`.
fn find_language(catalog: &Vec<Manifest>, name: &String) -> (r: usize)
    ensures
        r == first_index(catalog@, for_language(name@)),
{
    let mut i: usize = 0;
    while i < catalog.len()
        invariant
            i <= catalog@.len(),
            forall|j: int| 0 <= j < i ==> !for_language(name@)(#[trigger] catalog@[j]),
        decreases catalog@.len() - i,
    {
        if catalog[i].language == *name {
            proof {
                lemma_first_index_is(catalog@, for_language(name@), i as int);
            }
            return i;
        }
        i = i + 1;
    }
    proof {
        lemma_first_index_is(catalog@, for_language(name@), i as int);
    }
    i
}

/// The position of the first entry with locale code `code`.
fn find_code(catalog: &Vec<Manifest>, code: &Option<String>) -> (r: usize)
    ensures
        r == first_index(catalog@, for_code(opt_view(*code))),
{
    let mut i: usize = 0;
    while i < catalog.len()
        invariant
            i <= catalog@.len(),
            forall|j: int| 0 <= j < i ==> !for_code(opt_view(*code))(#[trigger] catalog@[j]),
        decreases catalog@.len() - i,
    {
        if opt_eq(&catalog[i].code, code) {
            proof {
                lemma_first_index_is(catalog@, for_code(opt_view(*code)), i as int);
            }
            return i;
        }
        i = i + 1;
    }
    proof {
        lemma_first_index_is(catalog@, for_code(opt_view(*code)), i as int);
    }
    i
}

/// The dictionary catalog and the entry selected from it.
#[derive(Debug)]
pub struct DictMetadata {
    pub manifest: Manifest,
    pub vec_manifests: Vec<Manifest>,
}

impl DictMetadata {
    /// The selected entry is one of the catalog's, or the zero entry.
    pub open spec fn wf(&self) -> bool {
        self.manifest.is_sentinel() || self.vec_manifests@.contains(self.manifest)
    }

    /// An empty catalog with nothing selected.
    pub fn new() -> (r: Self)
        ensures
            r.manifest.is_sentinel(),
            r.vec_manifests@.len() == 0,
            r.wf(),
    {
        DictMetadata { manifest: Manifest::sentinel(), vec_manifests: Vec::new() }
    }

    /// A catalog as fetched, with the entry for `pick_language` selected
    /// (nothing selected when that is `None` or names no entry).
    pub fn from_manifests(manifests: Vec<Manifest>, pick_language: Option<String>) -> (r: Self)
        ensures
            r.vec_manifests@ == manifests@,
            r.wf(),
            match pick_language {
                Some(name) => match select_by(manifests@, for_language(name@)) {
                    Some(m) => r.manifest == m,
                    None => r.manifest.is_sentinel(),
                },
                None => r.manifest.is_sentinel(),
            },
    {
        let mut r = DictMetadata { manifest: Manifest::sentinel(), vec_manifests: manifests };
        if let Some(name) = pick_language {
            r.pick_language_by_name(name);
        }
        r
    }

    /// Selects the first entry for the language named `language`, or the zero
    /// entry if there is none.
    pub fn select_language(&mut self, language: &String)
        ensures
            final(self).vec_manifests@ == old(self).vec_manifests@,
            match select_by(old(self).vec_manifests@, for_language(language@)) {
                Some(m) => final(self).manifest == m,
                None => final(self).manifest.is_sentinel(),
            },
            final(self).wf(),
    {
        let i = find_language(&self.vec_manifests, language);
        proof {
            lemma_first_index_facts(self.vec_manifests@, for_language(language@));
        }
        if i < self.vec_manifests.len() {
            self.manifest = self.vec_manifests[i].copy();
            assert(self.vec_manifests@[i as int] == self.manifest);
        } else {
            self.manifest = Manifest::sentinel();
        }
    }

    /// Selects the first entry for the language named `language`; the
    /// selection stays as it was if there is none.
    pub fn pick_language_by_name(&mut self, language: String)
        requires
            old(self).wf(),
        ensures
            final(self).vec_manifests@ == old(self).vec_manifests@,
            final(self).manifest == match select_by(
                old(self).vec_manifests@,
                for_language(language@),
            ) {
                Some(m) => m,
                None => old(self).manifest,
            },
            final(self).wf(),
    {
        let i = find_language(&self.vec_manifests, &language);
        proof {
            lemma_first_index_facts(self.vec_manifests@, for_language(language@));
        }
        if i < self.vec_manifests.len() {
            self.manifest = self.vec_manifests[i].copy();
            assert(self.vec_manifests@[i as int] == self.manifest);
        }
    }

    /// Selects the first entry with locale code `code` and returns its
    /// language; the selection stays as it was, and `None` comes back, if
    /// there is none.
    pub fn pick_language_by_code(&mut self, code: Option<String>) -> (r: Option<String>)
        requires
            old(self).wf(),
        ensures
            final(self).vec_manifests@ == old(self).vec_manifests@,
            final(self).wf(),
            match select_by(old(self).vec_manifests@, for_code(opt_view(code))) {
                Some(m) => final(self).manifest == m && r == Some(m.language),
                None => final(self).manifest == old(self).manifest && r is None,
            },
    {
        let i = find_code(&self.vec_manifests, &code);
        proof {
            lemma_first_index_facts(self.vec_manifests@, for_code(opt_view(code)));
        }
        if i < self.vec_manifests.len() {
            self.manifest = self.vec_manifests[i].copy();
            assert(self.vec_manifests@[i as int] == self.manifest);
            Some(self.manifest.language.clone())
        } else {
            None
        }
    }
}

} // verus!
