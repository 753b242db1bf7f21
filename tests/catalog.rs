use dfint_installer::dict_metadata::{DictMetadata, Manifest as DictManifest};
use dfint_installer::hook_metadata::{HookMetadata, Manifest as HookManifest};

fn hook(df: u32, checksum: u32, lib: &str) -> HookManifest {
    HookManifest {
        df,
        checksum,
        lib: lib.to_string(),
        config: String::new(),
        offsets: String::new(),
        dfhooks: String::new(),
    }
}

fn dict(language: &str, checksum: u32, code: Option<&str>) -> DictManifest {
    DictManifest {
        language: language.to_string(),
        checksum,
        csv: String::new(),
        font: String::new(),
        encoding: String::new(),
        code: code.map(|c| c.to_string()),
    }
}

#[test]
fn pick_df_checksum_first_match_or_zero() {
    let mut m = HookMetadata::from_manifests(vec![hook(1, 10, "a"), hook(2, 20, "b"), hook(2, 30, "c")], None);
    assert_eq!(m.manifest.df, 0);
    m.pick_df_checksum(2);
    assert_eq!(m.manifest.checksum, 20);
    assert_eq!(m.manifest.lib, "b");
    m.pick_df_checksum(9);
    assert_eq!(m.manifest.df, 0);
    assert_eq!(m.manifest.checksum, 0);
    assert_eq!(m.manifest.lib, "");
    assert_eq!(m.vec_manifests.len(), 3);
}

#[test]
fn hook_from_manifests_picks() {
    let m = HookMetadata::from_manifests(vec![hook(1, 10, "a")], Some(1));
    assert_eq!(m.manifest.checksum, 10);
    let m = HookMetadata::new();
    assert!(m.vec_manifests.is_empty());
}

#[test]
fn pick_language_by_name_keeps_selection_when_absent() {
    let mut m = DictMetadata::from_manifests(vec![dict("English", 1, Some("en")), dict("Deutsch", 2, Some("de"))], Some("Deutsch".to_string()));
    assert_eq!(m.manifest.checksum, 2);
    m.pick_language_by_name("English".to_string());
    assert_eq!(m.manifest.checksum, 1);
    m.pick_language_by_name("Klingon".to_string());
    assert_eq!(m.manifest.language, "English");
}

#[test]
fn pick_language_by_code_returns_language() {
    let mut m = DictMetadata::from_manifests(vec![dict("English", 1, Some("en")), dict("Esperanto", 3, None)], None);
    assert_eq!(m.manifest.language, "-");
    assert_eq!(m.pick_language_by_code(Some("en".to_string())), Some("English".to_string()));
    assert_eq!(m.manifest.checksum, 1);
    assert_eq!(m.pick_language_by_code(None), Some("Esperanto".to_string()));
    assert_eq!(m.pick_language_by_code(Some("fr".to_string())), None);
    assert_eq!(m.manifest.language, "Esperanto");
}

#[test]
fn dict_from_manifests_unknown_language_is_zero_entry() {
    let m = DictMetadata::from_manifests(vec![dict("English", 1, Some("en"))], Some("None".to_string()));
    assert_eq!(m.manifest.language, "-");
    assert_eq!(m.manifest.checksum, 0);
    assert_eq!(m.manifest.code, None);
}
