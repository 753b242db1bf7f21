use dfint_installer::df_binary::{game_process_name, parse_digits, pick_version, scan_candidates, split_path, DfBinary, OS};

#[test]
fn bin() {
    let bin = DfBinary::new(String::from("D:\\Downloads\\Dwarf Fortress.exe"), None);
    println!("steam: {:?}, version: {:?}", bin.steam, bin.version);
    assert!(!bin.valid);
    assert_eq!(bin.checksum, 0);
}

#[test]
fn lib_path_per_platform() {
    let dir = String::from("/games/df");
    assert_eq!(DfBinary::get_lib_path(&dir, OS::Windows, "dfhooks"), "/games/df/dfhooks.dll");
    assert_eq!(DfBinary::get_lib_path(&dir, OS::Linux, "dfhooks_dfint"), "/games/df/libdfhooks_dfint.so");
}

#[test]
fn split_path_parts() {
    let (dir, name) = split_path(&String::from("C:\\Games\\DF\\Dwarf Fortress.exe"));
    assert_eq!(dir, "C:\\Games\\DF");
    assert_eq!(name, "Dwarf Fortress.exe");
    let (dir, name) = split_path(&String::from("dwarfort"));
    assert_eq!(dir, "");
    assert_eq!(name, "dwarfort");
}

#[test]
fn os_from_file_name() {
    assert_eq!(DfBinary::os(&String::from("Dwarf Fortress.exe")), Some(OS::Windows));
    assert_eq!(DfBinary::os(&String::from("dwarfort")), Some(OS::Linux));
    assert_eq!(DfBinary::os(&String::from("game.exe")), None);
}

#[test]
fn linux_binary_fingerprint_is_crc32() {
    assert_eq!(DfBinary::checksum(b"123456789", OS::Linux), Some(0xCBF4_3926));
}

#[test]
fn windows_binary_without_pe_header_fails() {
    assert_eq!(DfBinary::checksum(b"not an executable", OS::Windows), None);
}

#[test]
fn windows_binary_timestamp_from_header() {
    let mut data = vec![0u8; 0x200];
    data[0] = b'M';
    data[1] = b'Z';
    data[0x3c] = 0x80;
    data[0x80..0x84].copy_from_slice(b"PE\0\0");
    data[0x84..0x86].copy_from_slice(&0x8664u16.to_le_bytes());
    data[0x88..0x8c].copy_from_slice(&0x6543_2100u32.to_le_bytes());
    data[0x98..0x9a].copy_from_slice(&0x20bu16.to_le_bytes());
    assert_eq!(DfBinary::checksum(&data, OS::Windows), Some(0x6543_2100));
}

#[test]
fn steam_marker_detection() {
    assert!(DfBinary::detect_steam_api(b"xx\0SteamAPI_Init\0yy"));
    assert!(!DfBinary::detect_steam_api(b"SteamAPI_Ini"));
    assert!(!DfBinary::detect_steam_api(b""));
}

#[test]
fn version_detection_picks_greatest() {
    let data = b"junk\x0050.13\x00more\x0051.01-beta2\x00tail\x0050.14\x00";
    assert_eq!(DfBinary::detect_df_version(data), Some(String::from("51.01-beta2")));
    assert_eq!(DfBinary::detect_df_version(b"no version here"), None);
}

#[test]
fn version_release_sorts_after_beta() {
    let data = b"\x0051.01-beta7\x00\x00\x0051.01\x00";
    assert_eq!(DfBinary::detect_df_version(data), Some(String::from("51.01")));
}

fn capture(major: &str, minor: &str, beta: Option<&str>) -> Vec<Option<Vec<u8>>> {
    let mut c = vec![None; 7];
    c[1] = Some(format!("{}.{}", major, minor).into_bytes());
    c[2] = Some(major.as_bytes().to_vec());
    c[3] = Some(minor.as_bytes().to_vec());
    c[6] = beta.map(|b| b.as_bytes().to_vec());
    c
}

#[test]
fn pick_version_last_of_equal_keys() {
    let caps = vec![capture("50", "1", None), capture("50", "1", None), capture("49", "9", None)];
    assert_eq!(pick_version(&caps), Some(1));
}

#[test]
fn pick_version_skips_unreadable_numbers() {
    let caps = vec![capture("50", "1", Some("3")), capture("99", "1", Some(""))];
    assert_eq!(pick_version(&caps), Some(0));
    assert_eq!(pick_version(&vec![]), None);
}

#[test]
fn parse_digits_bounds() {
    assert_eq!(parse_digits(b"4294967295"), Some(u32::MAX));
    assert_eq!(parse_digits(b"4294967296"), None);
    assert_eq!(parse_digits(b""), None);
    assert_eq!(parse_digits(b"12a"), None);
    assert_eq!(parse_digits(b"007"), Some(7));
}

#[test]
fn new_linux_binary() {
    let data = b"head\x0050.11\x00SteamAPI_Init".to_vec();
    let bin = DfBinary::new(String::from("/games/df/dwarfort"), Some(data.clone()));
    assert!(bin.valid);
    assert_eq!(bin.os, OS::Linux);
    assert_eq!(bin.checksum, crc32fast::hash(&data));
    assert_eq!(bin.dir, "/games/df");
    assert_eq!(bin.lib_path, "/games/df/libdfhooks_dfint.so");
    assert_eq!(bin.dfhooks_path, "/games/df/libdfhooks.so");
    assert!(bin.steam);
    assert_eq!(bin.version, "50.11");
}

#[test]
fn new_rejects_other_file_names() {
    let bin = DfBinary::new(String::from("/games/df/other"), Some(b"abc".to_vec()));
    assert!(!bin.valid);
    assert_eq!(bin.checksum, 0);
    assert_eq!(bin.path, "/games/df/other");
}

#[test]
fn new_windows_binary_with_bad_header_is_unselected() {
    let bin = DfBinary::new(String::from("C:\\DF\\Dwarf Fortress.exe"), Some(b"MZ".to_vec()));
    assert!(!bin.valid);
    assert_eq!(bin.checksum, 0);
}

#[test]
fn game_process_names() {
    assert!(game_process_name(&String::from("Dwarf Fortress.exe")));
    assert!(game_process_name(&String::from("dwarfort")));
    assert!(game_process_name(&String::from("Dwarf Fortress.")));
    assert!(!game_process_name(&String::from("dwarf")));
}

#[test]
fn scan_candidates_in_order() {
    let c = scan_candidates(&String::from("/home/u"));
    assert_eq!(c[0], "/home/u/Dwarf Fortress.exe");
    assert_eq!(c[1], "/home/u/dwarfort");
    assert_eq!(c[2], "C:\\Program Files (x86)\\Steam\\steamapps\\common\\Dwarf Fortress\\Dwarf Fortress.exe");
    assert_eq!(c[3], "~/.local/share/Steam/steamapps/common/Dwarf Fortress/dwarfort");
}
