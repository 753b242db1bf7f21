//! The reconciler: compares local fingerprints with the selected manifests,
//! derives each group's status, and turns completed background work into
//! state changes and follow-up effects.

use vstd::prelude::*;

use crate::constants::{PATH_CONFIG, PATH_DATA, PATH_DICT, PATH_ENCODING, PATH_FONT, PATH_OFFSETS};
use crate::df_binary::{join_path, joined, DfBinary};
use crate::dict_metadata::{
    for_code, for_language, opt_view, select_by, DictMetadata, Manifest as DictManifest,
};
use crate::hook_metadata::{HookMetadata, Manifest as HookManifest};

verus! {

/// The life cycle of the reconciler.
#[derive(Debug, Clone, Copy, PartialEq, Eq, Structural)]
pub enum State {
    Startup,
    Loading,
    Idle,
}

/// One of the two artifact groups.
#[derive(Debug, Clone, Copy, PartialEq, Eq, Structural)]
pub enum Group {
    Hook,
    Dictionary,
}

/// What a group's local files amount to against its selected manifest.
#[derive(Debug, Clone, Copy, PartialEq, Eq, Structural)]
pub enum Status {
    /// No catalog, or no data for the selection.
    NotLoaded,
    /// The catalog has no entry for the target binary.
    UnsupportedVersion,
    /// No language is chosen.
    ChooseLanguage,
    UpToDate,
    UpdateAvailable,
}

/// The word that stands for "no language chosen".
pub open spec fn no_language() -> Seq<char> {
    seq!['N', 'o', 'n', 'e']
}

/// The hook group's status, by precedence: an empty catalog, a selected
/// entry for another binary, a zero remote fingerprint, then the comparison
/// of the local fingerprint with the remote one.
pub open spec fn hook_status_of(
    catalog_len: nat,
    selected: HookManifest,
    binary_fingerprint: u32,
    local: u32,
) -> Status {
    if catalog_len == 0 {
        Status::NotLoaded
    } else if selected.df != binary_fingerprint {
        Status::UnsupportedVersion
    } else if selected.checksum == 0 {
        Status::NotLoaded
    } else if selected.checksum == local {
        Status::UpToDate
    } else {
        Status::UpdateAvailable
    }
}

/// Whether the dictionary selection is the chosen language's entry.
pub open spec fn language_matches(selected: DictManifest, language: Seq<char>) -> bool {
    language != no_language() && selected.language@ == language
}

/// The dictionary group's status, by the same precedence as the hook group's,
/// with "no language chosen" in place of an unsupported binary.
pub open spec fn dict_status_of(
    catalog_len: nat,
    selected: DictManifest,
    language: Seq<char>,
    local: u32,
) -> Status {
    if catalog_len == 0 {
        Status::NotLoaded
    } else if !language_matches(selected, language) {
        Status::ChooseLanguage
    } else if selected.checksum == 0 {
        Status::NotLoaded
    } else if selected.checksum == local {
        Status::UpToDate
    } else {
        Status::UpdateAvailable
    }
}

/// Why a batch download failed.
#[derive(Debug)]
pub enum DownloadError {
    /// A file could not be written for want of permission.
    PermissionDenied(String),
    /// Any other failure, such as every mirror failing.
    Failed(String),
}

/// The completion of a background operation.
#[derive(Debug)]
pub enum Message {
    HookMetadataLoaded(Result<HookMetadata, String>),
    DictMetadataLoaded(Result<DictMetadata, String>),
    HookUpdated(Result<(), DownloadError>),
    DictUpdated(Result<(), DownloadError>),
    /// The snapshot (or the scan) gave a binary, a chosen language and the two catalogs.
    StoreLoaded((DfBinary, String, HookMetadata, DictMetadata)),
    DfRunning(bool),
}

/// A notification for the user.
#[derive(Debug, PartialEq, Eq)]
pub enum Notice {
    /// The binary's fingerprint has no hook manifest.
    UnsupportedTarget,
    HookFetchFailed(String),
    DictFetchFailed(String),
    HookUpdated,
    DictUpdated,
    UpdateFailed(Group, String),
    PermissionDenied(Group, String),
}

/// Work the reconciler asks of its surroundings.
#[derive(Debug, PartialEq, Eq)]
pub enum Effect {
    Notify(Notice),
    /// Start the task that tells whether the game is running.
    DetectRunning,
    /// Start the task that loads the snapshot.
    LoadStore,
    FetchHookMetadata,
    FetchDictMetadata,
    /// Fingerprint the hook files again and hand the value to `set_hook_checksum`.
    RecomputeHookChecksum,
    /// Fingerprint the dictionary files again and hand the value to `set_dict_checksum`.
    RecomputeDictChecksum,
    /// Look for files of an older installer and hand the answer to `set_old_data_present`.
    CheckOldData,
}

/// Downloads for one group: (URL, destination path) pairs.
#[derive(Debug)]
pub struct Batch {
    pub group: Group,
    pub items: Vec<(String, String)>,
}

/// The paths as character sequences.
pub open spec fn paths_view(paths: Seq<String>) -> Seq<Seq<char>> {
    paths.map_values(|p: String| p@)
}

/// A batch's items as (URL, destination) character sequences.
pub open spec fn items_view(items: Seq<(String, String)>) -> Seq<(Seq<char>, Seq<char>)> {
    items.map_values(|it: (String, String)| (it.0@, it.1@))
}

/// The hook group's files, in the order they are fingerprinted.
pub open spec fn hook_files_of(bin: DfBinary) -> Seq<Seq<char>> {
    seq![
        bin.lib_path@,
        joined(bin.dir@, PATH_CONFIG@),
        joined(bin.dir@, PATH_OFFSETS@),
        bin.dfhooks_path@,
    ]
}

/// The dictionary group's files, in the order they are fingerprinted.
pub open spec fn dict_files_of(bin: DfBinary) -> Seq<Seq<char>> {
    seq![joined(bin.dir@, PATH_DICT@), joined(bin.dir@, PATH_FONT@), joined(bin.dir@, PATH_ENCODING@)]
}

/// The hook downloads that manifest `m` lists: each URL paired with the file it replaces.
pub open spec fn hook_items_of(m: HookManifest, bin: DfBinary) -> Seq<(Seq<char>, Seq<char>)> {
    let files = hook_files_of(bin);
    seq![(m.lib@, files[0]), (m.config@, files[1]), (m.offsets@, files[2]), (m.dfhooks@, files[3])]
}

/// The dictionary downloads that manifest `m` lists.
pub open spec fn dict_items_of(m: DictManifest, bin: DfBinary) -> Seq<(Seq<char>, Seq<char>)> {
    let files = dict_files_of(bin);
    seq![(m.csv@, files[0]), (m.font@, files[1]), (m.encoding@, files[2])]
}

/// The state owned by the control loop.
#[derive(Debug)]
pub struct Reconciler {
    pub state: State,
    /// Download batches in flight.
    pub loading: u8,
    pub df_running: bool,
    pub selected_language: String,
    /// The language code of the system locale.
    pub system_language: String,
    pub hook_checksum: u32,
    pub dict_checksum: u32,
    pub hook_metadata: HookMetadata,
    pub dict_metadata: DictMetadata,
    pub bin: DfBinary,
    pub delete_old_data_show: bool,
    pub delete_hook_show: bool,
}

impl Reconciler {
    /// Each selection is one of its catalog's entries or the zero entry.
    pub open spec fn wf(&self) -> bool {
        self.hook_metadata.wf() && self.dict_metadata.wf()
    }

    pub open spec fn hook_status_spec(&self) -> Status {
        hook_status_of(
            self.hook_metadata.vec_manifests@.len(),
            self.hook_metadata.manifest,
            self.bin.checksum,
            self.hook_checksum,
        )
    }

    pub open spec fn dict_status_spec(&self) -> Status {
        dict_status_of(
            self.dict_metadata.vec_manifests@.len(),
            self.dict_metadata.manifest,
            self.selected_language@,
            self.dict_checksum,
        )
    }

    /// The hook group's status.
    pub fn hook_status(&self) -> (r: Status)
        ensures
            r == self.hook_status_spec(),
    {
        let m = &self.hook_metadata.manifest;
        if self.hook_metadata.vec_manifests.len() == 0 {
            Status::NotLoaded
        } else if m.df != self.bin.checksum {
            Status::UnsupportedVersion
        } else if m.checksum == 0 {
            Status::NotLoaded
        } else if m.checksum == self.hook_checksum {
            Status::UpToDate
        } else {
            Status::UpdateAvailable
        }
    }

    /// Whether no language is chosen.
    pub fn no_language_chosen(&self) -> (r: bool)
        ensures
            r == (self.selected_language@ == no_language()),
    {
        let none = String::from_str("None");
        proof {
            reveal_strlit("None");
            assert("None"@ =~= no_language());
        }
        self.selected_language == none
    }

    /// The dictionary group's status.
    pub fn dict_status(&self) -> (r: Status)
        ensures
            r == self.dict_status_spec(),
    {
        let m = &self.dict_metadata.manifest;
        if self.dict_metadata.vec_manifests.len() == 0 {
            Status::NotLoaded
        } else if self.no_language_chosen() || m.language != self.selected_language {
            Status::ChooseLanguage
        } else if m.checksum == 0 {
            Status::NotLoaded
        } else if m.checksum == self.dict_checksum {
            Status::UpToDate
        } else {
            Status::UpdateAvailable
        }
    }
}

/// A one-less count of batches in flight, held at zero.
pub open spec fn one_less(n: u8) -> u8 {
    if n > 0 {
        (n - 1) as u8
    } else {
        0
    }
}

/// The hook metadata once catalog `catalog` has arrived for binary fingerprint `df`.
pub open spec fn hook_reselected(next: HookMetadata, catalog: Seq<HookManifest>, df: u32) -> bool {
    next.vec_manifests@ == catalog && next.selects_for(df)
}

/// The dictionary metadata and the chosen language once catalog `catalog` has
/// arrived while `language` was chosen: the entry for that language (the zero
/// entry if there is none), unless no language was chosen and an entry
/// carries the system's language code, which is then selected and chosen.
pub open spec fn dict_reselected(
    next: DictMetadata,
    chosen: String,
    catalog: Seq<DictManifest>,
    language: String,
    system_code: Seq<char>,
) -> bool {
    &&& next.vec_manifests@ == catalog
    &&& if language@ == no_language() && select_by(catalog, for_code(Some(system_code))) is Some {
        &&& next.manifest == select_by(catalog, for_code(Some(system_code))).unwrap()
        &&& chosen == next.manifest.language
    } else {
        &&& chosen == language
        &&& match select_by(catalog, for_language(language@)) {
            Some(m) => next.manifest == m,
            None => next.manifest.is_sentinel(),
        }
    }
}

/// The fields that only dictionary messages change are the same.
pub open spec fn same_dict_side(a: Reconciler, b: Reconciler) -> bool {
    &&& a.dict_metadata == b.dict_metadata
    &&& a.selected_language == b.selected_language
    &&& a.dict_checksum == b.dict_checksum
}

/// The fields that only hook messages change are the same.
pub open spec fn same_hook_side(a: Reconciler, b: Reconciler) -> bool {
    &&& a.hook_metadata == b.hook_metadata
    &&& a.hook_checksum == b.hook_checksum
}

/// The fields that neither group's messages change are the same.
pub open spec fn same_shared(a: Reconciler, b: Reconciler) -> bool {
    &&& a.state == b.state
    &&& a.df_running == b.df_running
    &&& a.system_language == b.system_language
    &&& a.bin == b.bin
    &&& a.delete_old_data_show == b.delete_old_data_show
    &&& a.delete_hook_show == b.delete_hook_show
}

/// How handling `msg` takes the reconciler from `cur` to `next`.
pub open spec fn handles(cur: Reconciler, msg: Message, next: Reconciler) -> bool {
    match msg {
        Message::HookMetadataLoaded(Ok(meta)) => {
            &&& hook_reselected(next.hook_metadata, meta.vec_manifests@, cur.bin.checksum)
            &&& next.hook_checksum == cur.hook_checksum
            &&& next.loading == cur.loading
            &&& same_dict_side(cur, next)
            &&& same_shared(cur, next)
        },
        Message::DictMetadataLoaded(Ok(meta)) => {
            &&& dict_reselected(
                next.dict_metadata,
                next.selected_language,
                meta.vec_manifests@,
                cur.selected_language,
                cur.system_language@,
            )
            &&& next.dict_checksum == cur.dict_checksum
            &&& next.loading == cur.loading
            &&& same_hook_side(cur, next)
            &&& same_shared(cur, next)
        },
        Message::HookUpdated(_) | Message::DictUpdated(_) => {
            &&& next.loading == one_less(cur.loading)
            &&& same_hook_side(cur, next)
            &&& same_dict_side(cur, next)
            &&& same_shared(cur, next)
        },
        Message::StoreLoaded((bin, language, hook, dict)) => {
            &&& next.bin == bin
            &&& hook_reselected(next.hook_metadata, hook.vec_manifests@, bin.checksum)
            &&& dict_reselected(
                next.dict_metadata,
                next.selected_language,
                dict.vec_manifests@,
                language,
                cur.system_language@,
            )
            &&& next.state == State::Idle
            &&& next.hook_checksum == cur.hook_checksum
            &&& next.dict_checksum == cur.dict_checksum
            &&& next.loading == cur.loading
            &&& next.df_running == cur.df_running
            &&& next.system_language == cur.system_language
            &&& next.delete_old_data_show == cur.delete_old_data_show
            &&& next.delete_hook_show == cur.delete_hook_show
        },
        Message::DfRunning(running) => next == Reconciler { df_running: running, ..cur },
        _ => next == cur,
    }
}

/// The effect that reports a finished batch of `group`, before it is fingerprinted again.
pub open spec fn update_notice(group: Group, result: Result<(), DownloadError>) -> Effect {
    match result {
        Ok(_) => match group {
            Group::Hook => Effect::Notify(Notice::HookUpdated),
            Group::Dictionary => Effect::Notify(Notice::DictUpdated),
        },
        Err(DownloadError::PermissionDenied(e)) => Effect::Notify(Notice::PermissionDenied(group, e)),
        Err(DownloadError::Failed(e)) => Effect::Notify(Notice::UpdateFailed(group, e)),
    }
}

/// The effects of handling `msg` in state `cur`, which led to `next`.
pub open spec fn effects_of(cur: Reconciler, msg: Message, next: Reconciler) -> Seq<Effect> {
    match msg {
        Message::HookMetadataLoaded(Ok(_)) => if next.hook_metadata.manifest.checksum == 0
            && cur.bin.valid {
            seq![Effect::Notify(Notice::UnsupportedTarget)]
        } else {
            seq![]
        },
        Message::HookMetadataLoaded(Err(e)) => seq![Effect::Notify(Notice::HookFetchFailed(e))],
        Message::DictMetadataLoaded(Ok(_)) => seq![],
        Message::DictMetadataLoaded(Err(e)) => seq![Effect::Notify(Notice::DictFetchFailed(e))],
        Message::HookUpdated(result) => seq![
            update_notice(Group::Hook, result),
            Effect::RecomputeHookChecksum,
        ],
        Message::DictUpdated(result) => seq![
            update_notice(Group::Dictionary, result),
            Effect::RecomputeDictChecksum,
        ],
        Message::StoreLoaded(_) => seq![
            Effect::RecomputeHookChecksum,
            Effect::FetchHookMetadata,
            Effect::RecomputeDictChecksum,
            Effect::FetchDictMetadata,
            Effect::CheckOldData,
        ],
        Message::DfRunning(_) => seq![],
    }
}

/// A run of `msgs` from `start`: `states[i]` is the state before message
/// `i`, `states[i + 1]` the one after it, and `outs[i]` its effects.
pub open spec fn is_run(
    start: Reconciler,
    msgs: Seq<Message>,
    states: Seq<Reconciler>,
    outs: Seq<Seq<Effect>>,
) -> bool {
    &&& states.len() == msgs.len() + 1
    &&& outs.len() == msgs.len()
    &&& states[0] == start
    &&& forall|i: int|
        #![trigger msgs[i]]
        0 <= i < msgs.len() ==> handles(states[i], msgs[i], states[i + 1]) && outs[i]
            == effects_of(states[i], msgs[i], states[i + 1])
}

/// How handling `msgs` in order takes the reconciler from `start` to `end`,
/// with `effects` the effects of each message in turn.
pub open spec fn handles_all(
    start: Reconciler,
    msgs: Seq<Message>,
    end: Reconciler,
    effects: Seq<Effect>,
) -> bool {
    exists|states: Seq<Reconciler>, outs: Seq<Seq<Effect>>|
        #![trigger is_run(start, msgs, states, outs)]
        is_run(start, msgs, states, outs) && states.last() == end && effects == outs.flatten()
}

impl Reconciler {
    /// Applies every message drained in one tick, in the order given, and
    /// returns the effects they call for, in that order.
    pub fn update_state(&mut self, msgs: Vec<Message>) -> (effects: Vec<Effect>)
        requires
            old(self).wf(),
        ensures
            final(self).wf(),
            handles_all(*old(self), msgs@, *final(self), effects@),
    {
        let ghost all = msgs@;
        let ghost start = *self;
        let ghost mut states: Seq<Reconciler> = seq![*self];
        let ghost mut outs: Seq<Seq<Effect>> = seq![];
        let n = msgs.len();
        let mut rest = msgs;
        let mut effects: Vec<Effect> = Vec::new();
        let mut i: usize = 0;
        while rest.len() > 0
            invariant
                self.wf(),
                n == all.len(),
                i <= all.len(),
                rest@ == all.skip(i as int),
                is_run(start, all.take(i as int), states, outs),
                states.last() == *self,
                effects@ == outs.flatten(),
            decreases rest@.len(),
        {
            let ghost before_state = *self;
            let msg = rest.remove(0);
            assert(msg == all[i as int]);
            let ghost m = msg;
            let mut more = self.handle(msg);
            proof {
                outs.lemma_flatten_push(more@);
            }
            effects.append(&mut more);
            proof {
                let prev_states = states;
                let prev_outs = outs;
                states = states.push(*self);
                outs = outs.push(effects_of(before_state, m, *self));
                let taken = all.take(i + 1);
                assert forall|k: int| #![trigger taken[k]] 0 <= k < taken.len() implies handles(
                    states[k],
                    taken[k],
                    states[k + 1],
                ) && outs[k] == effects_of(states[k], taken[k], states[k + 1]) by {
                    if k < i {
                        assert(taken[k] == all.take(i as int)[k]);
                        assert(states[k] == prev_states[k]);
                        assert(states[k + 1] == prev_states[k + 1]);
                        assert(outs[k] == prev_outs[k]);
                    } else {
                        assert(taken[k] == m);
                    }
                }
                assert(is_run(start, taken, states, outs));
            }
            assert(rest@ =~= all.skip(i + 1));
            i = i + 1;
        }
        assert(all.take(i as int) =~= all);
        effects
    }
}

impl Reconciler {
    /// A reconciler before start-up: the given binary, no language chosen,
    /// empty catalogs, fingerprints 0.
    pub fn new(bin: DfBinary, system_language: String) -> (r: Self)
        ensures
            r.wf(),
            r.state == State::Startup,
            r.loading == 0,
            !r.df_running,
            r.selected_language@ == no_language(),
            r.system_language == system_language,
            r.hook_checksum == 0,
            r.dict_checksum == 0,
            r.hook_metadata.manifest.is_sentinel(),
            r.hook_metadata.vec_manifests@.len() == 0,
            r.dict_metadata.manifest.is_sentinel(),
            r.dict_metadata.vec_manifests@.len() == 0,
            r.bin == bin,
            !r.delete_old_data_show,
            !r.delete_hook_show,
    {
        let none = String::from_str("None");
        proof {
            reveal_strlit("None");
            assert("None"@ =~= no_language());
        }
        Reconciler {
            state: State::Startup,
            loading: 0,
            df_running: false,
            selected_language: none,
            system_language,
            hook_checksum: 0,
            dict_checksum: 0,
            hook_metadata: HookMetadata::new(),
            dict_metadata: DictMetadata::new(),
            bin,
            delete_old_data_show: false,
            delete_hook_show: false,
        }
    }

    /// Enters loading: asks for the running-game check and the snapshot.
    pub fn on_start(&mut self) -> (effects: Vec<Effect>)
        ensures
            *final(self) == (Reconciler { state: State::Loading, ..*old(self) }),
            effects@ == seq![Effect::DetectRunning, Effect::LoadStore],
    {
        self.state = State::Loading;
        vec![Effect::DetectRunning, Effect::LoadStore]
    }

    /// Records the hook files' fresh fingerprint.
    pub fn set_hook_checksum(&mut self, checksum: u32)
        ensures
            *final(self) == (Reconciler { hook_checksum: checksum, ..*old(self) }),
    {
        self.hook_checksum = checksum;
    }

    /// Records the dictionary files' fresh fingerprint.
    pub fn set_dict_checksum(&mut self, checksum: u32)
        ensures
            *final(self) == (Reconciler { dict_checksum: checksum, ..*old(self) }),
    {
        self.dict_checksum = checksum;
    }

    /// Records whether files of an older installer lie next to the binary;
    /// they are offered for deletion only for a usable binary.
    pub fn set_old_data_present(&mut self, present: bool)
        ensures
            *final(self) == (Reconciler {
                delete_old_data_show: old(self).bin.valid && present,
                ..*old(self)
            }),
    {
        self.delete_old_data_show = self.bin.valid && present;
    }

    /// Chooses another binary: the hook entry is selected anew from the
    /// catalog at hand, and both groups are to be fingerprinted again.
    pub fn select_binary(&mut self, bin: DfBinary) -> (effects: Vec<Effect>)
        requires
            old(self).wf(),
        ensures
            final(self).wf(),
            final(self).bin == bin,
            final(self).hook_metadata.vec_manifests@ == old(self).hook_metadata.vec_manifests@,
            final(self).hook_metadata.selects_for(bin.checksum),
            final(self).dict_metadata == old(self).dict_metadata,
            final(self).selected_language == old(self).selected_language,
            final(self).hook_checksum == old(self).hook_checksum,
            final(self).dict_checksum == old(self).dict_checksum,
            final(self).loading == old(self).loading,
            final(self).state == old(self).state,
            effects@ == seq![
                Effect::RecomputeHookChecksum,
                Effect::RecomputeDictChecksum,
                Effect::CheckOldData,
            ] + if bin.valid && final(self).hook_metadata.vec_manifests@.len() > 0
                && final(self).hook_metadata.manifest.checksum == 0 {
                seq![Effect::Notify(Notice::UnsupportedTarget)]
            } else {
                seq![]
            },
    {
        self.bin = bin;
        self.hook_metadata.pick_df_checksum(self.bin.checksum);
        let mut effects = vec![
            Effect::RecomputeHookChecksum,
            Effect::RecomputeDictChecksum,
            Effect::CheckOldData,
        ];
        if self.bin.valid && self.hook_metadata.vec_manifests.len() > 0
            && self.hook_metadata.manifest.checksum == 0 {
            effects.push(Effect::Notify(Notice::UnsupportedTarget));
        }
        effects
    }

    /// Chooses a language; a real one selects its dictionary entry from the
    /// catalog at hand, where there is one.
    pub fn select_language(&mut self, language: String)
        requires
            old(self).wf(),
        ensures
            final(self).wf(),
            final(self).selected_language == language,
            final(self).dict_metadata.vec_manifests@ == old(self).dict_metadata.vec_manifests@,
            final(self).dict_metadata.manifest == if language@ == no_language() {
                old(self).dict_metadata.manifest
            } else {
                match select_by(old(self).dict_metadata.vec_manifests@, for_language(language@)) {
                    Some(m) => m,
                    None => old(self).dict_metadata.manifest,
                }
            },
            final(self).hook_metadata == old(self).hook_metadata,
            final(self).hook_checksum == old(self).hook_checksum,
            final(self).dict_checksum == old(self).dict_checksum,
            final(self).loading == old(self).loading,
            same_shared(*old(self), *final(self)),
    {
        self.selected_language = language;
        if !self.no_language_chosen() {
            let name = self.selected_language.clone();
            self.dict_metadata.pick_language_by_name(name);
        }
    }

    /// The hook group's files, in the order they are fingerprinted.
    pub fn local_hook_files(&self) -> (r: Vec<String>)
        ensures
            r@.len() == 4,
            paths_view(r@) == hook_files_of(self.bin),
    {
        let r = vec![
            self.bin.lib_path.clone(),
            join_path(&self.bin.dir, PATH_CONFIG),
            join_path(&self.bin.dir, PATH_OFFSETS),
            self.bin.dfhooks_path.clone(),
        ];
        assert(paths_view(r@) =~= hook_files_of(self.bin));
        r
    }

    /// The dictionary group's files, in the order they are fingerprinted.
    pub fn local_dict_files(&self) -> (r: Vec<String>)
        ensures
            r@.len() == 3,
            paths_view(r@) == dict_files_of(self.bin),
    {
        let r = vec![
            join_path(&self.bin.dir, PATH_DICT),
            join_path(&self.bin.dir, PATH_FONT),
            join_path(&self.bin.dir, PATH_ENCODING),
        ];
        assert(paths_view(r@) =~= dict_files_of(self.bin));
        r
    }

    /// The directory the downloads write into.
    pub fn data_dir(&self) -> (r: String)
        ensures
            r@ == joined(self.bin.dir@, PATH_DATA@),
    {
        join_path(&self.bin.dir, PATH_DATA)
    }

    /// Whether either group has an update to apply.
    pub fn update_available(&self) -> (r: bool)
        ensures
            r == (self.hook_status_spec() == Status::UpdateAvailable || self.dict_status_spec()
                == Status::UpdateAvailable),
    {
        let hook = self.hook_status();
        let dict = self.dict_status();
        hook == Status::UpdateAvailable || dict == Status::UpdateAvailable
    }

    /// Starts the update: one batch for each group whose status is
    /// `UpdateAvailable`, each counted in `loading` until its completion
    /// arrives. Nothing starts while batches are in flight.
    pub fn update_data(&mut self) -> (batches: Vec<Batch>)
        ensures
            old(self).loading > 0 ==> batches@.len() == 0 && *final(self) == *old(self),
            old(self).loading == 0 ==> {
                let hook = old(self).hook_status_spec() == Status::UpdateAvailable;
                let dict = old(self).dict_status_spec() == Status::UpdateAvailable;
                &&& *final(self) == (Reconciler {
                    loading: ((if hook { 1int } else { 0 }) + (if dict { 1int } else { 0 })) as u8,
                    ..*old(self)
                })
                &&& batches@.len() == (if hook { 1int } else { 0 }) + (if dict { 1int } else { 0 })
                &&& hook ==> batches@[0].group == Group::Hook && items_view(batches@[0].items@)
                    == hook_items_of(old(self).hook_metadata.manifest, old(self).bin)
                &&& dict ==> batches@[batches@.len() - 1].group == Group::Dictionary && items_view(
                    batches@[batches@.len() - 1].items@,
                ) == dict_items_of(old(self).dict_metadata.manifest, old(self).bin)
            },
    {
        let mut batches: Vec<Batch> = Vec::new();
        if self.loading > 0 {
            return batches;
        }
        if self.hook_status() == Status::UpdateAvailable {
            let m = &self.hook_metadata.manifest;
            let files = self.local_hook_files();
            let items = vec![
                (m.lib.clone(), files[0].clone()),
                (m.config.clone(), files[1].clone()),
                (m.offsets.clone(), files[2].clone()),
                (m.dfhooks.clone(), files[3].clone()),
            ];
            assert(items_view(items@) =~= hook_items_of(self.hook_metadata.manifest, self.bin)) by {
                assert(paths_view(files@)[0] == files@[0]@);
                assert(paths_view(files@)[1] == files@[1]@);
                assert(paths_view(files@)[2] == files@[2]@);
                assert(paths_view(files@)[3] == files@[3]@);
            }
            self.loading = self.loading + 1;
            batches.push(Batch { group: Group::Hook, items });
        }
        if self.dict_status() == Status::UpdateAvailable {
            let m = &self.dict_metadata.manifest;
            let files = self.local_dict_files();
            let items = vec![
                (m.csv.clone(), files[0].clone()),
                (m.font.clone(), files[1].clone()),
                (m.encoding.clone(), files[2].clone()),
            ];
            assert(items_view(items@) =~= dict_items_of(self.dict_metadata.manifest, self.bin)) by {
                assert(paths_view(files@)[0] == files@[0]@);
                assert(paths_view(files@)[1] == files@[1]@);
                assert(paths_view(files@)[2] == files@[2]@);
            }
            self.loading = self.loading + 1;
            batches.push(Batch { group: Group::Dictionary, items });
        }
        batches
    }

    /// Selects the dictionary entry for the chosen language, or, when none is
    /// chosen, the entry carrying the system's language code, whose language
    /// is then chosen.
    fn reselect_dict(&mut self)
        ensures
            dict_reselected(
                final(self).dict_metadata,
                final(self).selected_language,
                old(self).dict_metadata.vec_manifests@,
                old(self).selected_language,
                old(self).system_language@,
            ),
            final(self).dict_metadata.wf(),
            final(self).hook_metadata == old(self).hook_metadata,
            final(self).hook_checksum == old(self).hook_checksum,
            final(self).dict_checksum == old(self).dict_checksum,
            final(self).loading == old(self).loading,
            same_shared(*old(self), *final(self)),
    {
        self.dict_metadata.select_language(&self.selected_language);
        if self.no_language_chosen() {
            let code = Some(self.system_language.clone());
            match self.dict_metadata.pick_language_by_code(code) {
                Some(language) => {
                    self.selected_language = language;
                },
                None => {},
            }
        }
    }

    /// The effect that reports a finished batch.
    fn update_effect(group: Group, result: Result<(), DownloadError>) -> (r: Effect)
        ensures
            r == update_notice(group, result),
    {
        match result {
            Ok(_) => match group {
                Group::Hook => Effect::Notify(Notice::HookUpdated),
                Group::Dictionary => Effect::Notify(Notice::DictUpdated),
            },
            Err(DownloadError::PermissionDenied(e)) => Effect::Notify(
                Notice::PermissionDenied(group, e),
            ),
            Err(DownloadError::Failed(e)) => Effect::Notify(Notice::UpdateFailed(group, e)),
        }
    }

    /// Applies one completion message and returns the effects it calls for.
    pub fn handle(&mut self, msg: Message) -> (effects: Vec<Effect>)
        requires
            old(self).wf(),
        ensures
            final(self).wf(),
            handles(*old(self), msg, *final(self)),
            effects@ == effects_of(*old(self), msg, *final(self)),
    {
        match msg {
            Message::HookMetadataLoaded(Ok(meta)) => {
                self.hook_metadata = meta;
                self.hook_metadata.pick_df_checksum(self.bin.checksum);
                if self.hook_metadata.manifest.checksum == 0 && self.bin.valid {
                    vec![Effect::Notify(Notice::UnsupportedTarget)]
                } else {
                    vec![]
                }
            },
            Message::HookMetadataLoaded(Err(e)) => vec![Effect::Notify(Notice::HookFetchFailed(e))],
            Message::DictMetadataLoaded(Ok(meta)) => {
                self.dict_metadata = meta;
                self.reselect_dict();
                vec![]
            },
            Message::DictMetadataLoaded(Err(e)) => vec![Effect::Notify(Notice::DictFetchFailed(e))],
            Message::HookUpdated(result) => {
                if self.loading > 0 {
                    self.loading = self.loading - 1;
                }
                vec![Self::update_effect(Group::Hook, result), Effect::RecomputeHookChecksum]
            },
            Message::DictUpdated(result) => {
                if self.loading > 0 {
                    self.loading = self.loading - 1;
                }
                vec![Self::update_effect(Group::Dictionary, result), Effect::RecomputeDictChecksum]
            },
            Message::StoreLoaded((bin, language, hook, dict)) => {
                self.bin = bin;
                self.selected_language = language;
                self.hook_metadata = hook;
                self.hook_metadata.pick_df_checksum(self.bin.checksum);
                self.dict_metadata = dict;
                self.reselect_dict();
                self.state = State::Idle;
                vec![
                    Effect::RecomputeHookChecksum,
                    Effect::FetchHookMetadata,
                    Effect::RecomputeDictChecksum,
                    Effect::FetchDictMetadata,
                    Effect::CheckOldData,
                ]
            },
            Message::DfRunning(running) => {
                self.df_running = running;
                vec![]
            },
        }
    }
}

/// Two selections that are the same entry, or both the zero entry.
pub open spec fn same_hook_selection(a: HookManifest, b: HookManifest) -> bool {
    a == b || (a.is_sentinel() && b.is_sentinel())
}

/// Two selections that are the same entry, or both the zero entry.
pub open spec fn same_dict_selection(a: DictManifest, b: DictManifest) -> bool {
    a == b || (a.is_sentinel() && b.is_sentinel())
}

/// Two reconciler states that no status, selection or count tells apart.
pub open spec fn equivalent(a: Reconciler, b: Reconciler) -> bool {
    &&& a.hook_metadata.vec_manifests@ == b.hook_metadata.vec_manifests@
    &&& same_hook_selection(a.hook_metadata.manifest, b.hook_metadata.manifest)
    &&& a.dict_metadata.vec_manifests@ == b.dict_metadata.vec_manifests@
    &&& same_dict_selection(a.dict_metadata.manifest, b.dict_metadata.manifest)
    &&& a.selected_language == b.selected_language
    &&& a.hook_checksum == b.hook_checksum
    &&& a.dict_checksum == b.dict_checksum
    &&& a.loading == b.loading
    &&& same_shared(a, b)
}

/// A completion of the hook group's work.
pub open spec fn is_hook_message(m: Message) -> bool {
    m is HookMetadataLoaded || m is HookUpdated
}

/// A completion of the dictionary group's work.
pub open spec fn is_dict_message(m: Message) -> bool {
    m is DictMetadataLoaded || m is DictUpdated
}

proof fn lemma_hook_reselected_unique(a: HookMetadata, b: HookMetadata, catalog: Seq<HookManifest>, df: u32)
    requires
        hook_reselected(a, catalog, df),
        hook_reselected(b, catalog, df),
    ensures
        same_hook_selection(a.manifest, b.manifest),
{
}

proof fn lemma_dict_reselected_unique(
    a: DictMetadata,
    la: String,
    b: DictMetadata,
    lb: String,
    catalog: Seq<DictManifest>,
    language: String,
    code: Seq<char>,
)
    requires
        dict_reselected(a, la, catalog, language, code),
        dict_reselected(b, lb, catalog, language, code),
    ensures
        same_dict_selection(a.manifest, b.manifest),
        la == lb,
{
}

/// Completions of the two groups' work may be drained in either order: a
/// hook message and a dictionary message, handled one after the other from
/// the same state, leave equivalent states whichever comes first.
pub proof fn lemma_independent_messages_commute(
    s: Reconciler,
    a: Message,
    b: Message,
    s1: Reconciler,
    s2: Reconciler,
    t1: Reconciler,
    t2: Reconciler,
)
    requires
        is_hook_message(a),
        is_dict_message(b),
        handles(s, a, s1),
        handles(s1, b, s2),
        handles(s, b, t1),
        handles(t1, a, t2),
    ensures
        equivalent(s2, t2),
{
    match a {
        Message::HookMetadataLoaded(Ok(meta)) => {
            lemma_hook_reselected_unique(
                s2.hook_metadata,
                t2.hook_metadata,
                meta.vec_manifests@,
                s.bin.checksum,
            );
        },
        _ => {},
    }
    match b {
        Message::DictMetadataLoaded(Ok(meta)) => {
            lemma_dict_reselected_unique(
                s2.dict_metadata,
                s2.selected_language,
                t2.dict_metadata,
                t2.selected_language,
                meta.vec_manifests@,
                s.selected_language,
                s.system_language@,
            );
        },
        _ => {},
    }
}

/// Download, then verify: when the hook group has an update available, its
/// batch completes successfully, and fingerprinting its files again gives the
/// selected entry's remote fingerprint, the group is up to date.
pub proof fn lemma_hook_download_then_verify(s: Reconciler, s1: Reconciler, s2: Reconciler)
    requires
        s.wf(),
        s.hook_status_spec() == Status::UpdateAvailable,
        handles(s, Message::HookUpdated(Ok(())), s1),
        s2 == (Reconciler { hook_checksum: s.hook_metadata.manifest.checksum, ..s1 }),
    ensures
        s2.hook_status_spec() == Status::UpToDate,
{
}

/// Download, then verify: when the dictionary group has an update available,
/// its batch completes successfully, and fingerprinting its files again gives
/// the selected entry's remote fingerprint, the group is up to date.
pub proof fn lemma_dict_download_then_verify(s: Reconciler, s1: Reconciler, s2: Reconciler)
    requires
        s.wf(),
        s.dict_status_spec() == Status::UpdateAvailable,
        handles(s, Message::DictUpdated(Ok(())), s1),
        s2 == (Reconciler { dict_checksum: s.dict_metadata.manifest.checksum, ..s1 }),
    ensures
        s2.dict_status_spec() == Status::UpToDate,
{
}

/// The hook group is up to date exactly when its local fingerprint equals the
/// selected entry's nonzero remote fingerprint and that entry is the target
/// binary's.
pub proof fn lemma_hook_up_to_date_iff(r: Reconciler)
    requires
        r.wf(),
    ensures
        (r.hook_status_spec() == Status::UpToDate) <==> (r.hook_checksum
            == r.hook_metadata.manifest.checksum && r.hook_metadata.manifest.checksum != 0
            && r.hook_metadata.manifest.df == r.bin.checksum),
{
    if r.hook_metadata.vec_manifests@.len() == 0 {
        assert(!r.hook_metadata.vec_manifests@.contains(r.hook_metadata.manifest));
    }
}

/// The dictionary group is up to date exactly when its local fingerprint
/// equals the selected entry's nonzero remote fingerprint and that entry is
/// the chosen language's.
pub proof fn lemma_dict_up_to_date_iff(r: Reconciler)
    requires
        r.wf(),
    ensures
        (r.dict_status_spec() == Status::UpToDate) <==> (r.dict_checksum
            == r.dict_metadata.manifest.checksum && r.dict_metadata.manifest.checksum != 0
            && language_matches(r.dict_metadata.manifest, r.selected_language@)),
{
    if r.dict_metadata.vec_manifests@.len() == 0 {
        assert(!r.dict_metadata.vec_manifests@.contains(r.dict_metadata.manifest));
    }
}

/// With an empty catalog a group is not loaded, whatever its local fingerprint.
pub proof fn lemma_empty_catalog_not_loaded(r: Reconciler)
    ensures
        r.hook_metadata.vec_manifests@.len() == 0 ==> r.hook_status_spec() == Status::NotLoaded,
        r.dict_metadata.vec_manifests@.len() == 0 ==> r.dict_status_spec() == Status::NotLoaded,
{
}

} // verus!
