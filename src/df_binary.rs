//! The game binary: where it is, which platform it is built for, and its fingerprint.

use vstd::prelude::*;

use crate::dict_metadata::opt_view;
use crate::fingerprint::{crc32, crc32_of};
use exe::PE;

verus! {

/// The platform a game binary is built for.
#[derive(Debug, Clone, Copy, PartialEq, Eq, Structural, PartialOrd, Ord)]
pub enum OS {
    Linux,
    Windows,
}

/// The file header timestamp of a 64-bit PE image, or `None` when its headers cannot be read.
pub uninterp spec fn pe_timestamp_of(data: Seq<u8>) -> Option<u32>;

/// Relies on exe's `VecPE::from_disk_data` and `PE::get_nt_headers_64`: the
/// `time_date_stamp` of the NT file header read from the image bytes, or the
/// error those report when the DOS signature is wrong or a header lies
/// outside the data.
#[verifier::external_body]
fn pe_time_date_stamp(data: &[u8]) -> (r: Option<u32>)
    ensures
        r == pe_timestamp_of(data@),
{
    match exe::VecPE::from_disk_data(data).get_nt_headers_64() {
        Ok(headers) => Some(headers.file_header.time_date_stamp),
        Err(_) => None,
    }
}

/// The pattern of a version string embedded in a binary: NUL, major, dot,
/// minor, an optional dash with a tag and a beta number, NUL.
pub const VERSION_PATTERN: &'static str = "\\x00((\\d+)\\.(\\d+)(-([^\\d]+)(\\d*))?)\\x00";

/// The beta number of a release version, which sorts after every beta.
pub const MAX_BETA: u32 = 10000;

/// The capture groups of each successive non-overlapping match of a regular
/// expression in `data` (`None` for a group that took no part), or `None`
/// when the pattern does not compile.
pub uninterp spec fn regex_captures_of(pattern: Seq<char>, data: Seq<u8>) -> Option<
    Seq<Seq<Option<Seq<u8>>>>,
>;

/// An optional byte buffer as an optional sequence.
pub open spec fn group_view(g: Option<Vec<u8>>) -> Option<Seq<u8>> {
    match g {
        Some(v) => Some(v@),
        None => None,
    }
}

/// The groups of one match as sequences.
pub open spec fn capture_view(c: Vec<Option<Vec<u8>>>) -> Seq<Option<Seq<u8>>> {
    c@.map_values(|g: Option<Vec<u8>>| group_view(g))
}

/// The groups of all matches as sequences.
pub open spec fn captures_view(cs: Seq<Vec<Option<Vec<u8>>>>) -> Seq<Seq<Option<Seq<u8>>>> {
    cs.map_values(|c: Vec<Option<Vec<u8>>>| capture_view(c))
}

/// Relies on regex's `bytes::Regex::new` and `Regex::captures_iter`: the
/// groups of each match in turn, or `None` when the pattern is refused.
#[verifier::external_body]
fn regex_captures(pattern: &str, data: &[u8]) -> (r: Option<Vec<Vec<Option<Vec<u8>>>>>)
    ensures
        match r {
            Some(cs) => regex_captures_of(pattern@, data@) == Some(captures_view(cs@)),
            None => regex_captures_of(pattern@, data@) is None,
        },
{
    match regex::bytes::Regex::new(pattern) {
        Ok(re) => Some(
            re.captures_iter(data).map(
                |caps| caps.iter().map(|g| g.map(|m| m.as_bytes().to_vec())).collect(),
            ).collect(),
        ),
        Err(_) => None,
    }
}

/// The text that UTF-8 bytes encode, or `None` when they are not UTF-8.
pub uninterp spec fn utf8_decode(bytes: Seq<u8>) -> Option<Seq<char>>;

/// Relies on `String::from_utf8`: the decoded text, or an error for bytes that are not UTF-8.
#[verifier::external_body]
fn utf8_string(bytes: &Vec<u8>) -> (r: Option<String>)
    ensures
        opt_view(r) == utf8_decode(bytes@),
{
    String::from_utf8(bytes.clone()).ok()
}

/// The value of a sequence of ASCII decimal digits.
pub open spec fn decimal_value(s: Seq<u8>) -> nat
    decreases s.len(),
{
    if s.len() == 0 {
        0
    } else {
        decimal_value(s.drop_last()) * 10 + (s.last() - 48) as nat
    }
}

/// A non-empty run of ASCII digits whose value fits in 32 bits, read as a number.
pub open spec fn parse_decimal(s: Seq<u8>) -> Option<u32> {
    if s.len() > 0 && (forall|i: int| 0 <= i < s.len() ==> 48 <= #[trigger] s[i] <= 57)
        && decimal_value(s) <= u32::MAX {
        Some(decimal_value(s) as u32)
    } else {
        None
    }
}

/// The sort key of one match of `VERSION_PATTERN`: major, minor, and beta
/// number (`MAX_BETA` for a release), or `None` where a number does not read.
pub open spec fn version_key(c: Seq<Option<Seq<u8>>>) -> Option<(u32, u32, u32)> {
    if c.len() < 7 || c[2] is None || c[3] is None {
        None
    } else {
        match (parse_decimal(c[2].unwrap()), parse_decimal(c[3].unwrap())) {
            (Some(major), Some(minor)) => match c[6] {
                None => Some((major, minor, MAX_BETA)),
                Some(digits) => match parse_decimal(digits) {
                    Some(beta) => Some((major, minor, beta)),
                    None => None,
                },
            },
            _ => None,
        }
    }
}

/// Lexicographic order of version keys.
pub open spec fn key_lt(a: (u32, u32, u32), b: (u32, u32, u32)) -> bool {
    a.0 < b.0 || (a.0 == b.0 && (a.1 < b.1 || (a.1 == b.1 && a.2 < b.2)))
}

/// The match with the greatest version key, the last of equal ones; matches
/// whose key does not read are passed over.
pub open spec fn best_capture(cs: Seq<Seq<Option<Seq<u8>>>>) -> Option<int>
    decreases cs.len(),
{
    if cs.len() == 0 {
        None
    } else {
        let prev = best_capture(cs.drop_last());
        match version_key(cs.last()) {
            None => prev,
            Some(k) => match prev {
                Some(j) => if version_key(cs[j]) is Some && key_lt(k, version_key(cs[j]).unwrap()) {
                    prev
                } else {
                    Some(cs.len() - 1)
                },
                None => Some(cs.len() - 1),
            },
        }
    }
}

/// The version string found in a binary's content.
pub open spec fn detected_version(data: Seq<u8>) -> Option<Seq<char>> {
    match regex_captures_of(VERSION_PATTERN@, data) {
        None => None,
        Some(cs) => match best_capture(cs) {
            Some(i) => if 0 <= i < cs.len() && cs[i].len() > 1 && cs[i][1] is Some {
                utf8_decode(cs[i][1].unwrap())
            } else {
                None
            },
            None => None,
        },
    }
}

/// Reads a run of ASCII digits as a 32-bit number.
pub fn parse_digits(s: &[u8]) -> (r: Option<u32>)
    ensures
        r == parse_decimal(s@),
{
    let n = s.len();
    if n == 0 {
        return None;
    }
    let mut value: u64 = 0;
    let mut i: usize = 0;
    while i < n
        invariant
            n == s@.len(),
            i <= n,
            value == decimal_value(s@.take(i as int)),
            value <= u32::MAX,
            forall|k: int| 0 <= k < i ==> 48 <= #[trigger] s@[k] <= 57,
        decreases n - i,
    {
        let b = s[i];
        assert(s@.take(i + 1).drop_last() =~= s@.take(i as int));
        if b < 48 || b > 57 {
            return None;
        }
        let next = value * 10 + (b - 48) as u64;
        if next > 4294967295 {
            proof {
                assert(decimal_value(s@.take(i + 1)) == next);
                if forall|k: int| 0 <= k < s@.len() ==> 48 <= #[trigger] s@[k] <= 57 {
                    lemma_decimal_value_grows(s@, i as int + 1);
                }
            }
            return None;
        }
        value = next;
        i = i + 1;
    }
    assert(s@.take(n as int) =~= s@);
    Some(value as u32)
}

/// A longer run of digits has a value no smaller than its prefix.
proof fn lemma_decimal_value_grows(s: Seq<u8>, k: int)
    requires
        0 <= k <= s.len(),
        forall|i: int| 0 <= i < s.len() ==> 48 <= #[trigger] s[i] <= 57,
    ensures
        decimal_value(s.take(k)) <= decimal_value(s),
    decreases s.len() - k,
{
    if k < s.len() {
        lemma_decimal_value_grows(s, k + 1);
        assert(s.take(k + 1).drop_last() =~= s.take(k));
    } else {
        assert(s.take(k) =~= s);
    }
}

/// The version key of one match.
pub fn capture_key(c: &Vec<Option<Vec<u8>>>) -> (r: Option<(u32, u32, u32)>)
    ensures
        r == version_key(capture_view(*c)),
{
    if c.len() < 7 {
        return None;
    }
    let major = match &c[2] {
        Some(g) => parse_digits(g.as_slice()),
        None => None,
    };
    let minor = match &c[3] {
        Some(g) => parse_digits(g.as_slice()),
        None => None,
    };
    match (major, minor) {
        (Some(major), Some(minor)) => match &c[6] {
            None => Some((major, minor, MAX_BETA)),
            Some(digits) => match parse_digits(digits.as_slice()) {
                Some(beta) => Some((major, minor, beta)),
                None => None,
            },
        },
        _ => None,
    }
}

/// Picks, among the matches of `VERSION_PATTERN`, the one with the greatest
/// version key (the last of equal ones).
pub fn pick_version(captures: &Vec<Vec<Option<Vec<u8>>>>) -> (r: Option<usize>)
    ensures
        match r {
            Some(i) => i < captures@.len() && best_capture(captures_view(captures@)) == Some(
                i as int,
            ),
            None => best_capture(captures_view(captures@)) is None,
        },
{
    let n = captures.len();
    let mut best: Option<usize> = None;
    let mut best_key: (u32, u32, u32) = (0, 0, 0);
    let mut i: usize = 0;
    while i < n
        invariant
            n == captures@.len(),
            i <= n,
            match best {
                Some(j) => best_capture(captures_view(captures@).take(i as int)) == Some(j as int)
                    && j < i && version_key(captures_view(captures@)[j as int]) == Some(best_key),
                None => best_capture(captures_view(captures@).take(i as int)) is None,
            },
        decreases n - i,
    {
        let ghost cs = captures_view(captures@);
        assert(cs.take(i + 1).drop_last() =~= cs.take(i as int));
        assert(cs.take(i + 1).last() == cs[i as int]);
        let key = capture_key(&captures[i]);
        if let Some(k) = key {
            let keep = match best {
                Some(_) => k.0 < best_key.0 || (k.0 == best_key.0 && (k.1 < best_key.1 || (k.1
                    == best_key.1 && k.2 < best_key.2))),
                None => false,
            };
            if !keep {
                best = Some(i);
                best_key = k;
            }
        }
        i = i + 1;
    }
    assert(captures_view(captures@).take(n as int) =~= captures_view(captures@));
    best
}

/// Whether a character separates the components of a path.
pub open spec fn is_separator(c: char) -> bool {
    c == '/' || c == '\\'
}

/// The position of the last separator in a path, or -1.
pub open spec fn last_separator(path: Seq<char>) -> int
    decreases path.len(),
{
    if path.len() == 0 {
        -1
    } else if is_separator(path.last()) {
        path.len() - 1
    } else {
        last_separator(path.drop_last())
    }
}

/// The directory part of a path: everything before its last separator.
pub open spec fn parent_of(path: Seq<char>) -> Seq<char> {
    if last_separator(path) < 0 {
        Seq::empty()
    } else {
        path.take(last_separator(path))
    }
}

/// The file name part of a path: everything after its last separator.
pub open spec fn file_name_of(path: Seq<char>) -> Seq<char> {
    path.skip(last_separator(path) + 1)
}

/// `dir` and `name` joined by a separator.
pub open spec fn joined(dir: Seq<char>, name: Seq<char>) -> Seq<char> {
    dir + seq!['/'] + name
}

/// The platform that a binary's file name tells.
pub open spec fn os_of_file_name(name: Seq<char>) -> Option<OS> {
    if name == "Dwarf Fortress.exe"@ {
        Some(OS::Windows)
    } else if name == "dwarfort"@ {
        Some(OS::Linux)
    } else {
        None
    }
}

/// The fingerprint of a game binary: the build timestamp of a Windows image,
/// the CRC-32 of a Linux one.
pub open spec fn binary_fingerprint(data: Seq<u8>, os: OS) -> Option<u32> {
    match os {
        OS::Windows => pe_timestamp_of(data),
        OS::Linux => Some(crc32_of(data)),
    }
}

/// The path of a native library named `name` in `dir` on platform `os`.
pub open spec fn lib_path_of(dir: Seq<char>, os: OS, name: Seq<char>) -> Seq<char> {
    match os {
        OS::Windows => joined(dir, name + ".dll"@),
        OS::Linux => joined(dir, "lib"@ + name + ".so"@),
    }
}

/// Whether `needle` occurs in `data` at position `i`.
pub open spec fn occurs_at(data: Seq<u8>, needle: Seq<u8>, i: int) -> bool {
    0 <= i && i + needle.len() <= data.len() && data.subrange(i, i + needle.len()) == needle
}

/// Whether `needle` occurs anywhere in `data`.
pub open spec fn occurs_in(data: Seq<u8>, needle: Seq<u8>) -> bool {
    exists|i: int| occurs_at(data, needle, i)
}

/// The ASCII bytes of `SteamAPI_Init`, the store's initialisation symbol.
pub open spec fn steam_marker() -> Seq<u8> {
    seq![83u8, 116, 101, 97, 109, 65, 80, 73, 95, 73, 110, 105, 116]
}

/// Whether a process name is one the game runs under.
pub open spec fn is_game_process_name(name: Seq<char>) -> bool {
    name == "Dwarf Fortress.exe"@ || name == "dwarfort"@ || name == "Dwarf Fortress."@
}

/// Tells whether a process name is one the game runs under.
pub fn game_process_name(name: &String) -> (r: bool)
    ensures
        r == is_game_process_name(name@),
{
    *name == String::from_str("Dwarf Fortress.exe") || *name == String::from_str("dwarfort")
        || *name == String::from_str("Dwarf Fortress.")
}

/// The places looked at, in order, for the game when none is known: the
/// working directory's binaries, then the store's default install locations.
pub fn scan_candidates(current_dir: &String) -> (r: Vec<String>)
    ensures
        r@.len() == 4,
        r@[0]@ == joined(current_dir@, "Dwarf Fortress.exe"@),
        r@[1]@ == joined(current_dir@, "dwarfort"@),
        r@[2]@ == "C:\\Program Files (x86)\\Steam\\steamapps\\common\\Dwarf Fortress\\Dwarf Fortress.exe"@,
        r@[3]@ == "~/.local/share/Steam/steamapps/common/Dwarf Fortress/dwarfort"@,
{
    vec![
        join_path(current_dir, "Dwarf Fortress.exe"),
        join_path(current_dir, "dwarfort"),
        String::from_str(
            "C:\\Program Files (x86)\\Steam\\steamapps\\common\\Dwarf Fortress\\Dwarf Fortress.exe",
        ),
        String::from_str("~/.local/share/Steam/steamapps/common/Dwarf Fortress/dwarfort"),
    ]
}

/// Joins a directory and a file name.
pub fn join_path(dir: &String, name: &str) -> (r: String)
    ensures
        r@ == joined(dir@, name@),
{
    proof {
        reveal_strlit("/");
    }
    let with_sep = dir.clone().concat("/");
    with_sep.concat(name)
}

/// Splits a path into its directory and its file name.
pub fn split_path(path: &String) -> (r: (String, String))
    ensures
        r.0@ == parent_of(path@),
        r.1@ == file_name_of(path@),
{
    let s = path.as_str();
    let n = s.unicode_len();
    let mut i: usize = 0;
    let mut last: usize = 0;
    let mut found = false;
    while i < n
        invariant
            n == path@.len(),
            s@ == path@,
            i <= n,
            found ==> last < i && last_separator(path@.take(i as int)) == last,
            !found ==> last_separator(path@.take(i as int)) == -1,
        decreases n - i,
    {
        let c = s.get_char(i);
        assert(path@.take(i + 1).drop_last() =~= path@.take(i as int));
        if c == '/' || c == '\\' {
            last = i;
            found = true;
        }
        i = i + 1;
    }
    assert(path@.take(n as int) =~= path@);
    if found {
        let dir = s.substring_char(0, last).to_string();
        let name = s.substring_char(last + 1, n).to_string();
        assert(path@.subrange(0, last as int) =~= path@.take(last as int));
        assert(path@.subrange(last + 1, n as int) =~= path@.skip(last + 1));
        (dir, name)
    } else {
        assert(path@.skip(0) =~= path@);
        (String::new(), path.clone())
    }
}

/// Whether `needle` occurs in `data`.
pub fn contains_bytes(data: &[u8], needle: &[u8]) -> (r: bool)
    ensures
        r == occurs_in(data@, needle@),
{
    let n = data.len();
    let m = needle.len();
    if m == 0 {
        assert(data@.subrange(0, 0) =~= needle@);
        assert(occurs_at(data@, needle@, 0));
        return true;
    }
    if m > n {
        assert forall|i: int| !occurs_at(data@, needle@, i) by {}
        return false;
    }
    let mut i: usize = 0;
    while i <= n - m
        invariant
            n == data@.len(),
            m == needle@.len(),
            0 < m <= n,
            i <= n - m + 1,
            forall|k: int| 0 <= k < i ==> !occurs_at(data@, needle@, k),
        decreases n - m + 1 - i,
    {
        let mut j: usize = 0;
        let mut same = true;
        while j < m && same
            invariant
                n == data@.len(),
                m == needle@.len(),
                i + m <= n,
                j <= m,
                same ==> forall|t: int| 0 <= t < j ==> data@[i + t] == needle@[t],
                !same ==> !occurs_at(data@, needle@, i as int),
            decreases m - j + (if same { 1int } else { 0 }),
        {
            if data[i + j] != needle[j] {
                same = false;
                assert(data@.subrange(i as int, i + m)[j as int] != needle@[j as int]);
            } else {
                j = j + 1;
            }
        }
        if same {
            assert(data@.subrange(i as int, i + m) =~= needle@);
            assert(occurs_at(data@, needle@, i as int));
            return true;
        }
        i = i + 1;
    }
    false
}

/// The game binary chosen for patching.
#[derive(Debug)]
pub struct DfBinary {
    pub path: String,
    pub dir: String,
    /// The binary's fingerprint; 0 when it could not be computed.
    pub checksum: u32,
    pub os: OS,
    pub version: String,
    /// Whether the binary is the one of the third-party store distribution.
    pub steam: bool,
    pub valid: bool,
    pub lib_path: String,
    pub dfhooks_path: String,
}

impl DfBinary {
    /// What a binary read from `path` amounts to: `data` is its content, or
    /// `None` when it could not be read. A file name other than the game's,
    /// missing content, or a header that does not parse gives an unselected
    /// binary with fingerprint 0.
    pub fn new(path: String, data: Option<Vec<u8>>) -> (r: Self)
        ensures
            r.path == path,
            match (os_of_file_name(file_name_of(path@)), data) {
                (Some(os), Some(d)) => match binary_fingerprint(d@, os) {
                    Some(fp) => {
                        &&& r.valid
                        &&& r.checksum == fp
                        &&& r.os == os
                        &&& r.dir@ == parent_of(path@)
                        &&& r.lib_path@ == lib_path_of(parent_of(path@), os, "dfhooks_dfint"@)
                        &&& r.dfhooks_path@ == lib_path_of(parent_of(path@), os, "dfhooks"@)
                        &&& r.steam == occurs_in(d@, steam_marker())
                        &&& r.version@ == match detected_version(d@) {
                            Some(v) => v,
                            None => Seq::empty(),
                        }
                    },
                    None => r.is_unselected(),
                },
                _ => r.is_unselected(),
            },
    {
        let (dir, name) = split_path(&path);
        let os = match Self::os(&name) {
            Some(os) => os,
            None => return Self::unselected(path),
        };
        let data = match data {
            Some(d) => d,
            None => return Self::unselected(path),
        };
        let checksum = match Self::checksum(data.as_slice(), os) {
            Some(c) => c,
            None => return Self::unselected(path),
        };
        let version = match Self::detect_df_version(data.as_slice()) {
            Some(v) => v,
            None => String::new(),
        };
        let steam = Self::detect_steam_api(data.as_slice());
        let lib_path = Self::get_lib_path(&dir, os, "dfhooks_dfint");
        let dfhooks_path = Self::get_lib_path(&dir, os, "dfhooks");
        DfBinary {
            path,
            dir,
            checksum,
            os,
            version,
            steam,
            valid: true,
            lib_path,
            dfhooks_path,
        }
    }

    /// The version string embedded in a binary's content, if one is found.
    pub fn detect_df_version(data: &[u8]) -> (r: Option<String>)
        ensures
            opt_view(r) == detected_version(data@),
    {
        let captures = match regex_captures(VERSION_PATTERN, data) {
            Some(cs) => cs,
            None => return None,
        };
        let best = match pick_version(&captures) {
            Some(i) => i,
            None => return None,
        };
        let ghost cs = captures_view(captures@);
        assert(cs[best as int] == capture_view(captures@[best as int]));
        let groups = &captures[best];
        if groups.len() > 1 {
            match &groups[1] {
                Some(bytes) => utf8_string(bytes),
                None => None,
            }
        } else {
            None
        }
    }

    /// No usable binary: fingerprint 0.
    pub open spec fn is_unselected(&self) -> bool {
        !self.valid && self.checksum == 0
    }

    /// A binary that is not one: the path as given, nothing read from it.
    pub fn unselected(path: String) -> (r: Self)
        ensures
            r.is_unselected(),
            r.path == path,
    {
        let (dir, _) = split_path(&path);
        DfBinary {
            path,
            dir: dir.clone(),
            checksum: 0,
            os: OS::Windows,
            version: String::new(),
            steam: false,
            valid: false,
            lib_path: dir.clone(),
            dfhooks_path: dir,
        }
    }

    /// The platform named by a binary's file name, if it names the game's binary at all.
    pub fn os(file_name: &String) -> (r: Option<OS>)
        ensures
            r == os_of_file_name(file_name@),
    {
        let windows = String::from_str("Dwarf Fortress.exe");
        let linux = String::from_str("dwarfort");
        if *file_name == windows {
            Some(OS::Windows)
        } else if *file_name == linux {
            Some(OS::Linux)
        } else {
            None
        }
    }

    /// The fingerprint of a binary's content on platform `os`, or `None`
    /// when its header cannot be parsed.
    pub fn checksum(data: &[u8], os: OS) -> (r: Option<u32>)
        ensures
            r == binary_fingerprint(data@, os),
    {
        match os {
            OS::Windows => pe_time_date_stamp(data),
            OS::Linux => Some(crc32(data)),
        }
    }

    /// The path of the native library `name` next to the binary.
    pub fn get_lib_path(dir: &String, os: OS, name: &str) -> (r: String)
        ensures
            r@ == lib_path_of(dir@, os, name@),
    {
        match os {
            OS::Windows => {
                proof {
                    reveal_strlit(".dll");
                }
                let file = name.to_string().concat(".dll");
                join_path(dir, file.as_str())
            },
            OS::Linux => {
                proof {
                    reveal_strlit("lib");
                    reveal_strlit(".so");
                }
                let file = String::from_str("lib").concat(name).concat(".so");
                join_path(dir, file.as_str())
            },
        }
    }

    /// Whether the binary carries the third-party store's initialisation symbol.
    pub fn detect_steam_api(data: &[u8]) -> (r: bool)
        ensures
            r == occurs_in(data@, steam_marker()),
    {
        let bytes: Vec<u8> = vec![83, 116, 101, 97, 109, 65, 80, 73, 95, 73, 110, 105, 116];
        assert(bytes@ =~= steam_marker());
        contains_bytes(data, bytes.as_slice())
    }
}

} // verus!
