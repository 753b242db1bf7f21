//! The snapshot kept between runs: the binary, the chosen language, and both
//! groups' selections and catalogs.

use vstd::prelude::*;

use crate::dict_metadata::{self, DictMetadata, Manifest as DictManifest};
use crate::hook_metadata::{self, HookMetadata, Manifest as HookManifest};
use crate::logic::{no_language, Reconciler};

verus! {

/// What a snapshot holds.
#[derive(Debug)]
pub struct Store {
    pub bin: String,
    pub hook_manifest: HookManifest,
    pub vec_hook_manifests: Vec<HookManifest>,
    pub dict_manifest: DictManifest,
    pub vec_dict_manifests: Vec<DictManifest>,
    pub selected_language: String,
}

impl Store {
    /// The state to start from: the snapshot's, with `fallback_bin` in place
    /// of a binary that no longer exists; without a snapshot, `fallback_bin`,
    /// no language, and empty catalogs.
    pub fn new(loaded: Option<Store>, bin_exists: bool, fallback_bin: String) -> (r: (
        String,
        String,
        HookMetadata,
        DictMetadata,
    ))
        ensures
            match loaded {
                Some(store) => {
                    &&& r.0 == if bin_exists {
                        store.bin
                    } else {
                        fallback_bin
                    }
                    &&& r.1 == store.selected_language
                    &&& r.2.manifest == store.hook_manifest
                    &&& r.2.vec_manifests == store.vec_hook_manifests
                    &&& r.3.manifest == store.dict_manifest
                    &&& r.3.vec_manifests == store.vec_dict_manifests
                },
                None => {
                    &&& r.0 == fallback_bin
                    &&& r.1@ == no_language()
                    &&& r.2.manifest.is_sentinel()
                    &&& r.2.vec_manifests@.len() == 0
                    &&& r.3.manifest.is_sentinel()
                    &&& r.3.vec_manifests@.len() == 0
                },
            },
    {
        match loaded {
            Some(store) => {
                let bin = if bin_exists {
                    store.bin
                } else {
                    fallback_bin
                };
                (
                    bin,
                    store.selected_language,
                    HookMetadata { manifest: store.hook_manifest, vec_manifests: store.vec_hook_manifests },
                    DictMetadata { manifest: store.dict_manifest, vec_manifests: store.vec_dict_manifests },
                )
            },
            None => {
                let none = String::from_str("None");
                proof {
                    reveal_strlit("None");
                    assert("None"@ =~= no_language());
                }
                (fallback_bin, none, HookMetadata::new(), DictMetadata::new())
            },
        }
    }
}

impl Reconciler {
    /// The snapshot to write on shutdown; only a usable binary is worth one.
    pub fn snapshot(&self) -> (r: Option<Store>)
        ensures
            match r {
                Some(store) => {
                    &&& self.bin.valid
                    &&& store.bin == self.bin.path
                    &&& store.hook_manifest == self.hook_metadata.manifest
                    &&& store.vec_hook_manifests@ == self.hook_metadata.vec_manifests@
                    &&& store.dict_manifest == self.dict_metadata.manifest
                    &&& store.vec_dict_manifests@ == self.dict_metadata.vec_manifests@
                    &&& store.selected_language == self.selected_language
                },
                None => !self.bin.valid,
            },
    {
        if !self.bin.valid {
            return None;
        }
        Some(
            Store {
                bin: self.bin.path.clone(),
                hook_manifest: self.hook_metadata.manifest.copy(),
                vec_hook_manifests: hook_metadata::copy_catalog(&self.hook_metadata.vec_manifests),
                dict_manifest: self.dict_metadata.manifest.copy(),
                vec_dict_manifests: dict_metadata::copy_catalog(&self.dict_metadata.vec_manifests),
                selected_language: self.selected_language.clone(),
            },
        )
    }
}

} // verus!
