//! The hook group's manifest catalog and the entry selected for the target binary.

use vstd::prelude::*;

use crate::search::{first_index, lemma_first_index_facts, lemma_first_index_is};

verus! {

/// One published version of the hook bundle, for one build of the game binary.
#[derive(Debug)]
pub struct Manifest {
    /// The fingerprint of the game binary this entry is for.
    pub df: u32,
    /// The fingerprint the installed hook files have once this entry is applied.
    pub checksum: u32,
    pub lib: String,
    pub config: String,
    pub offsets: String,
    pub dfhooks: String,
}

impl Manifest {
    /// The zero entry: no manifest selected.
    pub open spec fn is_sentinel(&self) -> bool {
        &&& self.df == 0
        &&& self.checksum == 0
        &&& self.lib@.len() == 0
        &&& self.config@.len() == 0
        &&& self.offsets@.len() == 0
        &&& self.dfhooks@.len() == 0
    }

    /// The zero entry.
    pub fn sentinel() -> (r: Self)
        ensures
            r.is_sentinel(),
    {
        Manifest {
            df: 0,
            checksum: 0,
            lib: String::new(),
            config: String::new(),
            offsets: String::new(),
            dfhooks: String::new(),
        }
    }

    /// A field-by-field copy.
    pub fn copy(&self) -> (r: Self)
        ensures
            r == *self,
    {
        Manifest {
            df: self.df,
            checksum: self.checksum,
            lib: self.lib.clone(),
            config: self.config.clone(),
            offsets: self.offsets.clone(),
            dfhooks: self.dfhooks.clone(),
        }
    }
}

impl Clone for Manifest {
    fn clone(&self) -> (r: Self)
        ensures
            r == *self,
    {
        self.copy()
    }
}

/// Whether a catalog entry is the one for the binary fingerprint `df`.
pub open spec fn for_binary(df: u32) -> spec_fn(Manifest) -> bool {
    |m: Manifest| m.df == df
}

/// The entry a catalog selects for binary fingerprint `df`: the first one
/// with that key, or `None`.
pub open spec fn select_for_binary(catalog: Seq<Manifest>, df: u32) -> Option<Manifest> {
    let i = first_index(catalog, for_binary(df));
    if i < catalog.len() {
        Some(catalog[i])
    } else {
        None
    }
}

/// Copies a catalog entry by entry.
pub fn copy_catalog(catalog: &Vec<Manifest>) -> (r: Vec<Manifest>)
    ensures
        r@ == catalog@,
{
    let mut r: Vec<Manifest> = Vec::new();
    let mut i: usize = 0;
    while i < catalog.len()
        invariant
            i <= catalog@.len(),
            r@ == catalog@.take(i as int),
        decreases catalog@.len() - i,
    {
        r.push(catalog[i].copy());
        assert(r@ =~= catalog@.take(i + 1));
        i = i + 1;
    }
    assert(catalog@.take(i as int) =~= catalog@);
    r
}

/// The position of the first entry for binary fingerprint `df`.
fn find_binary(catalog: &Vec<Manifest>, df: u32) -> (r: usize)
    ensures
        r == first_index(catalog@, for_binary(df)),
{
    let mut i: usize = 0;
    while i < catalog.len()
        invariant
            i <= catalog@.len(),
            forall|j: int| 0 <= j < i ==> !for_binary(df)(#[trigger] catalog@[j]),
        decreases catalog@.len() - i,
    {
        if catalog[i].df == df {
            proof {
                lemma_first_index_is(catalog@, for_binary(df), i as int);
            }
            return i;
        }
        i = i + 1;
    }
    proof {
        lemma_first_index_is(catalog@, for_binary(df), i as int);
    }
    i
}

/// The hook catalog and the entry selected from it.
#[derive(Debug)]
pub struct HookMetadata {
    pub manifest: Manifest,
    pub vec_manifests: Vec<Manifest>,
}

impl HookMetadata {
    /// The selected entry is one of the catalog's, or the zero entry.
    pub open spec fn wf(&self) -> bool {
        self.manifest.is_sentinel() || self.vec_manifests@.contains(self.manifest)
    }

    /// The selection that the catalog gives for binary fingerprint `df`.
    pub open spec fn selects_for(&self, df: u32) -> bool {
        match select_for_binary(self.vec_manifests@, df) {
            Some(m) => self.manifest == m,
            None => self.manifest.is_sentinel(),
        }
    }

    /// An empty catalog with nothing selected.
    pub fn new() -> (r: Self)
        ensures
            r.manifest.is_sentinel(),
            r.vec_manifests@.len() == 0,
            r.wf(),
    {
        HookMetadata { manifest: Manifest::sentinel(), vec_manifests: Vec::new() }
    }

    /// A catalog as fetched, with the entry selected for `pick_df_checksum`
    /// (nothing selected when that is `None` or matches no entry).
    pub fn from_manifests(manifests: Vec<Manifest>, pick_df_checksum: Option<u32>) -> (r: Self)
        ensures
            r.vec_manifests@ == manifests@,
            r.wf(),
            match pick_df_checksum {
                Some(df) => r.selects_for(df),
                None => r.manifest.is_sentinel(),
            },
    {
        let mut r = HookMetadata { manifest: Manifest::sentinel(), vec_manifests: manifests };
        if let Some(df) = pick_df_checksum {
            r.pick_df_checksum(df);
        }
        r
    }

    /// Selects the first catalog entry for binary fingerprint `checksum`, or
    /// the zero entry if there is none.
    pub fn pick_df_checksum(&mut self, checksum: u32)
        ensures
            final(self).vec_manifests@ == old(self).vec_manifests@,
            final(self).selects_for(checksum),
            final(self).wf(),
    {
        let i = find_binary(&self.vec_manifests, checksum);
        proof {
            lemma_first_index_facts(self.vec_manifests@, for_binary(checksum));
        }
        if i < self.vec_manifests.len() {
            self.manifest = self.vec_manifests[i].copy();
            assert(self.vec_manifests@[i as int] == self.manifest);
        } else {
            self.manifest = Manifest::sentinel();
        }
    }
}

} // verus!
