//! Fixed locations: mirrors, manifest paths, and the files of each group.

use vstd::prelude::*;

verus! {

/// The primary mirror.
pub const BASE_URL_PRIMARY: &'static str = "https://dfint.github.io";

/// The fallback mirror.
pub const BASE_URL_FALLBACK: &'static str =
    "https://gitverse.ru/api/repos/dfint/data-mirror/raw/branch/master";

pub const URL_HOOK_MANIFEST: &'static str = "/update-data/metadata/hook_v3.json";

pub const URL_DICT_MANIFEST: &'static str = "/update-data/metadata/dict_v3.json";

/// The snapshot file, relative to the working directory.
pub const PATH_CACHE_FILE: &'static str = "./dfint-installer.cache";

pub const PATH_DATA: &'static str = "dfint-data";

pub const PATH_CONFIG: &'static str = "dfint-data/config.toml";

pub const PATH_OFFSETS: &'static str = "dfint-data/offsets.toml";

pub const PATH_DICT: &'static str = "dfint-data/dictionary.csv";

pub const PATH_FONT: &'static str = "data/art/curses_640x300.png";

pub const PATH_ENCODING: &'static str = "dfint-data/encoding.toml";

/// The mirrors in order of preference.
pub fn base_urls() -> (r: Vec<String>)
    ensures
        r@.len() == 2,
        r@[0]@ == BASE_URL_PRIMARY@,
        r@[1]@ == BASE_URL_FALLBACK@,
{
    vec![BASE_URL_PRIMARY.to_string(), BASE_URL_FALLBACK.to_string()]
}

} // verus!
