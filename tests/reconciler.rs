use dfint_installer::df_binary::{DfBinary, OS};
use dfint_installer::dict_metadata::{DictMetadata, Manifest as DictManifest};
use dfint_installer::hook_metadata::{HookMetadata, Manifest as HookManifest};
use dfint_installer::logic::{DownloadError, Effect, Group, Message, Notice, Reconciler, State, Status};

fn binary(checksum: u32) -> DfBinary {
    DfBinary {
        path: String::from("/games/df/dwarfort"),
        dir: String::from("/games/df"),
        checksum,
        os: OS::Linux,
        version: String::from("50.11"),
        steam: false,
        valid: true,
        lib_path: String::from("/games/df/libdfhooks_dfint.so"),
        dfhooks_path: String::from("/games/df/libdfhooks.so"),
    }
}

fn hook_entry(df: u32, checksum: u32) -> HookManifest {
    HookManifest {
        df,
        checksum,
        lib: format!("/hook/{df}/lib"),
        config: format!("/hook/{df}/config"),
        offsets: format!("/hook/{df}/offsets"),
        dfhooks: format!("/hook/{df}/dfhooks"),
    }
}

fn dict_entry(language: &str, checksum: u32, code: Option<&str>) -> DictManifest {
    DictManifest {
        language: language.to_string(),
        checksum,
        csv: format!("/dict/{language}/csv"),
        font: format!("/dict/{language}/font"),
        encoding: format!("/dict/{language}/encoding"),
        code: code.map(|c| c.to_string()),
    }
}

fn reconciler(bin_fp: u32) -> Reconciler {
    Reconciler::new(binary(bin_fp), String::from("de"))
}

#[test]
fn scenario_update_available_then_up_to_date() {
    let mut r = reconciler(0xAAAA);
    r.handle(Message::HookMetadataLoaded(Ok(HookMetadata::from_manifests(vec![hook_entry(0xAAAA, 100)], None))));
    r.set_hook_checksum(50);
    assert_eq!(r.hook_status(), Status::UpdateAvailable);
    let batches = r.update_data();
    assert_eq!(batches.len(), 1);
    assert_eq!(batches[0].group, Group::Hook);
    assert_eq!(r.loading, 1);
    let effects = r.handle(Message::HookUpdated(Ok(())));
    assert_eq!(effects, vec![Effect::Notify(Notice::HookUpdated), Effect::RecomputeHookChecksum]);
    assert_eq!(r.loading, 0);
    r.set_hook_checksum(100);
    assert_eq!(r.hook_status(), Status::UpToDate);
}

#[test]
fn scenario_empty_catalog_not_loaded() {
    for local in [0u32, 1, 100, u32::MAX] {
        let mut r = reconciler(0xAAAA);
        r.handle(Message::HookMetadataLoaded(Err(String::from("all mirrors failed"))));
        r.handle(Message::DictMetadataLoaded(Err(String::from("all mirrors failed"))));
        r.set_hook_checksum(local);
        r.set_dict_checksum(local);
        assert_eq!(r.hook_status(), Status::NotLoaded);
        assert_eq!(r.dict_status(), Status::NotLoaded);
    }
}

#[test]
fn scenario_unknown_binary_unsupported() {
    let mut r = reconciler(0xBEEF);
    let effects = r.handle(Message::HookMetadataLoaded(Ok(HookMetadata::from_manifests(
        vec![hook_entry(0xAAAA, 100), hook_entry(0xCCCC, 7)],
        None,
    ))));
    assert_eq!(r.hook_status(), Status::UnsupportedVersion);
    assert_eq!(effects, vec![Effect::Notify(Notice::UnsupportedTarget)]);
}

fn state_after(order_hook_first: bool) -> String {
    let mut r = reconciler(0xAAAA);
    r.hook_checksum = 5;
    r.dict_checksum = 6;
    r.loading = 2;
    let hook = || Message::HookMetadataLoaded(Ok(HookMetadata::from_manifests(vec![hook_entry(0xAAAA, 100)], None)));
    let dict = || {
        Message::DictMetadataLoaded(Ok(DictMetadata::from_manifests(
            vec![dict_entry("English", 1, Some("en")), dict_entry("Deutsch", 2, Some("de"))],
            None,
        )))
    };
    if order_hook_first {
        r.update_state(vec![hook(), dict(), Message::HookUpdated(Ok(())), Message::DictUpdated(Ok(()))]);
    } else {
        r.update_state(vec![Message::DictUpdated(Ok(())), dict(), Message::HookUpdated(Ok(())), hook()]);
    }
    format!("{:?}", r)
}

#[test]
fn scenario_completion_order_does_not_matter() {
    assert_eq!(state_after(true), state_after(false));
}

#[test]
fn dictionary_language_chosen_from_system_code() {
    let mut r = reconciler(0xAAAA);
    r.handle(Message::DictMetadataLoaded(Ok(DictMetadata::from_manifests(
        vec![dict_entry("English", 1, Some("en")), dict_entry("Deutsch", 2, Some("de"))],
        None,
    ))));
    assert_eq!(r.selected_language, "Deutsch");
    assert_eq!(r.dict_metadata.manifest.checksum, 2);
    r.set_dict_checksum(2);
    assert_eq!(r.dict_status(), Status::UpToDate);
    r.set_dict_checksum(3);
    assert_eq!(r.dict_status(), Status::UpdateAvailable);
}

#[test]
fn dictionary_without_language_asks_for_one() {
    let mut r = Reconciler::new(binary(1), String::from("xx"));
    r.handle(Message::DictMetadataLoaded(Ok(DictMetadata::from_manifests(vec![dict_entry("English", 1, Some("en"))], None))));
    assert_eq!(r.selected_language, "None");
    assert_eq!(r.dict_status(), Status::ChooseLanguage);
    r.select_language(String::from("English"));
    assert_eq!(r.dict_metadata.manifest.language, "English");
    r.set_dict_checksum(1);
    assert_eq!(r.dict_status(), Status::UpToDate);
}

#[test]
fn zero_remote_fingerprint_not_loaded() {
    let mut r = reconciler(0xAAAA);
    r.handle(Message::HookMetadataLoaded(Ok(HookMetadata::from_manifests(vec![hook_entry(0xAAAA, 0)], None))));
    assert_eq!(r.hook_status(), Status::NotLoaded);
}

#[test]
fn update_data_batches_and_busy() {
    let mut r = reconciler(0xAAAA);
    r.update_state(vec![
        Message::HookMetadataLoaded(Ok(HookMetadata::from_manifests(vec![hook_entry(0xAAAA, 100)], None))),
        Message::DictMetadataLoaded(Ok(DictMetadata::from_manifests(vec![dict_entry("Deutsch", 2, Some("de"))], None))),
    ]);
    assert!(r.update_available());
    let batches = r.update_data();
    assert_eq!(batches.len(), 2);
    assert_eq!(batches[0].group, Group::Hook);
    assert_eq!(
        batches[0].items,
        vec![
            (String::from("/hook/43690/lib"), String::from("/games/df/libdfhooks_dfint.so")),
            (String::from("/hook/43690/config"), String::from("/games/df/dfint-data/config.toml")),
            (String::from("/hook/43690/offsets"), String::from("/games/df/dfint-data/offsets.toml")),
            (String::from("/hook/43690/dfhooks"), String::from("/games/df/libdfhooks.so")),
        ]
    );
    assert_eq!(batches[1].group, Group::Dictionary);
    assert_eq!(
        batches[1].items,
        vec![
            (String::from("/dict/Deutsch/csv"), String::from("/games/df/dfint-data/dictionary.csv")),
            (String::from("/dict/Deutsch/font"), String::from("/games/df/data/art/curses_640x300.png")),
            (String::from("/dict/Deutsch/encoding"), String::from("/games/df/dfint-data/encoding.toml")),
        ]
    );
    assert_eq!(r.loading, 2);
    assert!(r.update_data().is_empty());
    assert_eq!(r.loading, 2);
}

#[test]
fn download_files_are_the_fingerprinted_files() {
    let r = reconciler(1);
    assert_eq!(
        r.local_hook_files(),
        vec![
            "/games/df/libdfhooks_dfint.so",
            "/games/df/dfint-data/config.toml",
            "/games/df/dfint-data/offsets.toml",
            "/games/df/libdfhooks.so"
        ]
    );
    assert_eq!(
        r.local_dict_files(),
        vec![
            "/games/df/dfint-data/dictionary.csv",
            "/games/df/data/art/curses_640x300.png",
            "/games/df/dfint-data/encoding.toml"
        ]
    );
    assert_eq!(r.data_dir(), "/games/df/dfint-data");
}

#[test]
fn failed_downloads_are_classified() {
    let mut r = reconciler(1);
    r.loading = 2;
    let e = r.handle(Message::DictUpdated(Err(DownloadError::PermissionDenied(String::from("denied")))));
    assert_eq!(
        e,
        vec![Effect::Notify(Notice::PermissionDenied(Group::Dictionary, String::from("denied"))), Effect::RecomputeDictChecksum]
    );
    let e = r.handle(Message::HookUpdated(Err(DownloadError::Failed(String::from("timeout")))));
    assert_eq!(
        e,
        vec![Effect::Notify(Notice::UpdateFailed(Group::Hook, String::from("timeout"))), Effect::RecomputeHookChecksum]
    );
    assert_eq!(r.loading, 0);
    r.handle(Message::HookUpdated(Ok(())));
    assert_eq!(r.loading, 0);
}

#[test]
fn start_and_store_loaded() {
    let mut r = Reconciler::new(DfBinary::unselected(String::from("/tmp")), String::from("en"));
    assert_eq!(r.on_start(), vec![Effect::DetectRunning, Effect::LoadStore]);
    assert_eq!(r.state, State::Loading);
    let hook = HookMetadata::from_manifests(vec![hook_entry(0xAAAA, 100)], None);
    let dict = DictMetadata::from_manifests(vec![dict_entry("English", 1, Some("en"))], None);
    let effects = r.handle(Message::StoreLoaded((binary(0xAAAA), String::from("English"), hook, dict)));
    assert_eq!(
        effects,
        vec![
            Effect::RecomputeHookChecksum,
            Effect::FetchHookMetadata,
            Effect::RecomputeDictChecksum,
            Effect::FetchDictMetadata,
            Effect::CheckOldData
        ]
    );
    assert_eq!(r.state, State::Idle);
    assert_eq!(r.hook_metadata.manifest.checksum, 100);
    assert_eq!(r.dict_metadata.manifest.language, "English");
    r.handle(Message::DfRunning(true));
    assert!(r.df_running);
}

#[test]
fn selecting_binary_reselects_hook_entry() {
    let mut r = reconciler(0xAAAA);
    r.handle(Message::HookMetadataLoaded(Ok(HookMetadata::from_manifests(
        vec![hook_entry(0xAAAA, 100), hook_entry(0xBBBB, 200)],
        Some(0xAAAA),
    ))));
    assert_eq!(r.hook_metadata.manifest.checksum, 100);
    let effects = r.select_binary(binary(0xBBBB));
    assert_eq!(effects, vec![Effect::RecomputeHookChecksum, Effect::RecomputeDictChecksum, Effect::CheckOldData]);
    assert_eq!(r.hook_metadata.manifest.checksum, 200);
    let effects = r.select_binary(binary(0xDDDD));
    assert_eq!(effects.last(), Some(&Effect::Notify(Notice::UnsupportedTarget)));
    assert_eq!(r.hook_status(), Status::UnsupportedVersion);
}

#[test]
fn old_data_offered_only_for_usable_binary() {
    let mut r = reconciler(1);
    r.set_old_data_present(true);
    assert!(r.delete_old_data_show);
    let mut r = Reconciler::new(DfBinary::unselected(String::from("/x")), String::from("en"));
    r.set_old_data_present(true);
    assert!(!r.delete_old_data_show);
}

#[test]
fn snapshot_only_for_usable_binary() {
    let mut r = reconciler(0xAAAA);
    r.handle(Message::HookMetadataLoaded(Ok(HookMetadata::from_manifests(vec![hook_entry(0xAAAA, 100)], None))));
    let store = r.snapshot().expect("usable binary");
    assert_eq!(store.bin, "/games/df/dwarfort");
    assert_eq!(store.hook_manifest.checksum, 100);
    assert_eq!(store.vec_hook_manifests.len(), 1);
    assert_eq!(store.selected_language, "None");
    let r = Reconciler::new(DfBinary::unselected(String::from("/x")), String::from("en"));
    assert!(r.snapshot().is_none());
}
