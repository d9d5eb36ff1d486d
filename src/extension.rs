//! The extension filter and the configuration it reads.
use vstd::prelude::*;
use crate::text::{chars_of, path_extension, path_extension_chars, string_of};

verus! {

/// The settings shared by the components: the extensions accepted as raw images
/// (in lower case) and the directory that holds cached thumbnails.
pub struct ImportConfig {
    pub allowed_extensions: Vec<String>,
    pub cache_dir: String,
}

/// The lower-case form of a string, as `str::to_lowercase` computes it.
pub uninterp spec fn lower_of(s: Seq<char>) -> Seq<char>;

/// Relies on `str::to_lowercase`: the result depends on the characters alone,
/// and an empty string stays empty.
#[verifier::external_body]
fn lowercase(s: &str) -> (r: String)
    ensures
        r@ == lower_of(s@),
        s@.len() == 0 ==> r@.len() == 0,
{
    s.to_lowercase()
}

/// Whether `ext`, already in lower case, is the lower-case form of one of `allowed`.
pub open spec fn listed(allowed: Seq<String>, ext: Seq<char>) -> bool {
    exists|i: int| 0 <= i < allowed.len() && lower_of(allowed[i]@) == ext
}

/// A path names an accepted raw image when it has an extension and the
/// lower-case form of that extension is that of a listed one.
pub open spec fn is_allowed_path(allowed: Seq<String>, path: Seq<char>) -> bool {
    path_extension(path).len() > 0 && listed(allowed, lower_of(path_extension(path)))
}

/// Whether an extension already in lower case matches a listed one, in any case
/// of letters.
pub fn extension_in_set(lowered: &str, allowed: &Vec<String>) -> (r: bool)
    ensures
        r == listed(allowed@, lowered@),
{
    let wanted = String::from_str(lowered);
    let mut i: usize = 0;
    while i < allowed.len()
        invariant
            i <= allowed.len(),
            wanted@ == lowered@,
            forall|j: int| 0 <= j < i ==> lower_of(allowed@[j]@) != lowered@,
        decreases allowed.len() - i,
    {
        let entry = lowercase(allowed[i].as_str());
        if entry == wanted {
            return true;
        }
        i += 1;
    }
    false
}

/// Whether the path names an accepted raw image, its extension matched against
/// the list without regard to case; a path without an extension is not accepted.
pub fn is_allowed_extension(file_path: &str, allowed: &Vec<String>) -> (r: bool)
    ensures
        r == is_allowed_path(allowed@, file_path@),
{
    let path = chars_of(file_path);
    let ext = path_extension_chars(&path);
    if ext.len() == 0 {
        return false;
    }
    let ext_text = string_of(ext.as_slice());
    let lowered = lowercase(ext_text.as_str());
    extension_in_set(lowered.as_str(), allowed)
}

pub open spec fn raw_extension_list() -> Seq<Seq<char>> {
    seq![
        "3fr"@, "ari"@, "arw"@, "srf"@, "sr2"@, "bay"@, "braw"@, "cri"@, "crw"@, "cr2"@,
        "cr3"@, "cap"@, "iiq"@, "eip"@, "dcs"@, "dcr"@, "drf"@, "k25"@, "kdc"@, "dng"@,
        "erf"@, "fff"@, "gpr"@, "jxs"@, "mef"@, "mdc"@, "mos"@, "mrw"@, "nef"@, "nrw"@,
        "orf"@, "pef"@, "ptx"@, "pxn"@, "r3d"@, "raf"@, "raw"@, "rw2"@, "rwl"@, "rwz"@,
        "srw"@, "tco"@, "x3f"@
    ]
}

impl ImportConfig {
    /// A configuration with the usual raw-image extensions and the given cache directory.
    pub fn new(cache_dir: String) -> (r: ImportConfig)
        ensures
            r.cache_dir@ == cache_dir@,
            r.allowed_extensions@.len() == raw_extension_list().len(),
            forall|i: int|
                0 <= i < raw_extension_list().len() ==> #[trigger] r.allowed_extensions@[i]@
                    == raw_extension_list()[i],
    {
        let names: [&str; 43] = [
            "3fr", "ari", "arw", "srf", "sr2", "bay", "braw", "cri", "crw", "cr2",
            "cr3", "cap", "iiq", "eip", "dcs", "dcr", "drf", "k25", "kdc", "dng",
            "erf", "fff", "gpr", "jxs", "mef", "mdc", "mos", "mrw", "nef", "nrw",
            "orf", "pef", "ptx", "pxn", "r3d", "raf", "raw", "rw2", "rwl", "rwz",
            "srw", "tco", "x3f",
        ];
        assert(names@.map_values(|s: &str| s@) =~= raw_extension_list());
        let mut allowed: Vec<String> = Vec::new();
        let mut i: usize = 0;
        while i < 43
            invariant
                i <= 43,
                names@.map_values(|s: &str| s@) == raw_extension_list(),
                allowed@.len() == i,
                forall|j: int| 0 <= j < i ==> #[trigger] allowed@[j]@ == raw_extension_list()[j],
            decreases 43 - i,
        {
            assert(names@.map_values(|s: &str| s@)[i as int] == names@[i as int]@);
            allowed.push(String::from_str(names[i]));
            i += 1;
        }
        ImportConfig { allowed_extensions: allowed, cache_dir }
    }
}

} // verus!
