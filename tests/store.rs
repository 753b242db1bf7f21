use dfint_installer::dict_metadata::Manifest as DictManifest;
use dfint_installer::hook_metadata::Manifest as HookManifest;
use dfint_installer::localization::{Localization, Translation};
use dfint_installer::persistent::Store;
use dfint_installer::thread_pool::ThreadPool;

fn stored() -> Store {
    Store {
        bin: String::from("/games/df/dwarfort"),
        hook_manifest: HookManifest::sentinel(),
        vec_hook_manifests: vec![],
        dict_manifest: DictManifest::sentinel(),
        vec_dict_manifests: vec![],
        selected_language: String::from("English"),
    }
}

#[test]
fn store_restores_snapshot() {
    let (bin, language, hook, dict) = Store::new(Some(stored()), true, String::from("/fallback"));
    assert_eq!(bin, "/games/df/dwarfort");
    assert_eq!(language, "English");
    assert!(hook.vec_manifests.is_empty());
    assert!(dict.vec_manifests.is_empty());
    let (bin, _, _, _) = Store::new(Some(stored()), false, String::from("/fallback"));
    assert_eq!(bin, "/fallback");
}

#[test]
fn store_without_snapshot_starts_empty() {
    let (bin, language, hook, dict) = Store::new(None, true, String::from("/fallback"));
    assert_eq!(bin, "/fallback");
    assert_eq!(language, "None");
    assert_eq!(hook.manifest.checksum, 0);
    assert_eq!(dict.manifest.language, "-");
}

fn tables() -> Vec<Translation> {
    vec![
        Translation {
            locale: String::from("en"),
            entries: vec![(String::from("Hook"), String::from("Hook")), (String::from("Update"), String::from("Update"))],
        },
        Translation { locale: String::from("de"), entries: vec![(String::from("Update"), String::from("Aktualisieren"))] },
    ]
}

#[test]
fn localization_lookup_and_fallback() {
    let mut l = Localization::new(String::from("de"), &tables());
    assert_eq!(l.get("Update"), "Aktualisieren");
    assert_eq!(l.get("Hook"), "unknown key");
    assert_eq!(l.current_locale(), "de");
    assert_eq!(l.locales(), vec!["en", "de"]);
    l.set("fr", &tables());
    assert_eq!(l.current_locale(), "fr");
    assert_eq!(l.get("Hook"), "Hook");
    let l = Localization::new(String::from("fr"), &vec![]);
    assert_eq!(l.get("Hook"), "unknown key");
}

#[test]
fn mailbox_delivers_each_message_once_in_arrival_order() {
    let pool: ThreadPool<u32> = ThreadPool::new();
    let tx = pool.sender();
    tx.send(2).unwrap();
    tx.send(1).unwrap();
    assert_eq!(pool.poll(), vec![2, 1]);
    assert!(pool.poll().is_empty());
    drop(tx);
    let late = pool.sender();
    late.send(7).unwrap();
    assert_eq!(pool.poll(), vec![7]);
}
