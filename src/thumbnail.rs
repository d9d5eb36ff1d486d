//! The thumbnail cache: where the thumbnail of a file's content lives, and
//! whether the metadata tool has to extract it.
use vstd::prelude::*;
use crate::error::{ImportError, ToolOutcome};
use crate::fingerprint::{decimal, decimal_chars, hash_content, xxh3_of};
use crate::text::{chars_of, file_name, file_name_of, push_all, push_str, stem, stem_of, string_of};

verus! {

/// A thumbnail of a file, found in the cache or to be put there.
#[derive(Debug, PartialEq, Eq)]
pub struct ThumbnailEntry {
    pub fingerprint: u64,
    pub original_stem: String,
    pub original_path: String,
    pub cache_file_path: String,
}

/// What to do for a thumbnail request once its cache path is known.
#[derive(Debug, PartialEq, Eq)]
pub enum ThumbnailAction {
    /// The thumbnail is in the cache: no tool is run.
    UseCached,
    /// Run the metadata tool with `args`; it writes the preview to `temp_path`,
    /// which is renamed to the cache path once the tool has succeeded.
    Extract { args: Vec<String>, temp_path: String },
}

/// The cache file of a stem and a fingerprint: `{dir}{stem}_{fingerprint}.jpg`.
pub open spec fn cache_path_of(dir: Seq<char>, stem: Seq<char>, fp: u64) -> Seq<char> {
    dir + stem + seq!['_'] + decimal(fp as nat) + ".jpg"@
}

/// Where the preview is written before it is published under its cache path.
pub open spec fn temp_path_of(dir: Seq<char>, stem: Seq<char>, fp: u64) -> Seq<char> {
    dir + ".tmp_"@ + stem + seq!['_'] + decimal(fp as nat) + ".jpg"@
}

/// The output pattern handed to the metadata tool, which puts the file's stem for `%f`.
pub open spec fn output_pattern_of(dir: Seq<char>, fp: u64) -> Seq<char> {
    dir + ".tmp_%f_"@ + decimal(fp as nat) + ".jpg"@
}

/// The stem of the file name of a path that has one.
pub open spec fn path_stem(path: Seq<char>) -> Seq<char> {
    stem_of(file_name_of(path)->Some_0)
}

/// The cache path of the thumbnail of the file at `path` whose bytes are `content`.
pub open spec fn thumbnail_path_for(dir: Seq<char>, path: Seq<char>, content: Seq<u8>) -> Seq<char> {
    cache_path_of(dir, path_stem(path), xxh3_of(content))
}

/// The cache entry of a file whose fingerprint is `fp`; a path without a file
/// name gives `InvalidFileName`.
pub fn thumbnail_entry_for(path: &str, cache_dir: &str, fp: u64) -> (r: Result<ThumbnailEntry, ImportError>)
    ensures
        file_name_of(path@) is None ==> r == Err::<ThumbnailEntry, ImportError>(ImportError::InvalidFileName),
        file_name_of(path@) is Some ==> (r matches Ok(e) && e.fingerprint == fp
            && e.original_stem@ == path_stem(path@) && e.original_path@ == path@
            && e.cache_file_path@ == cache_path_of(cache_dir@, path_stem(path@), fp)),
{
    let p = chars_of(path);
    let name = match file_name(&p) {
        Some(n) => n,
        None => {
            return Err(ImportError::InvalidFileName);
        },
    };
    let s = stem(&name);
    let mut out: Vec<char> = Vec::new();
    push_str(&mut out, cache_dir);
    push_all(&mut out, &s);
    out.push('_');
    let digits = decimal_chars(fp);
    push_all(&mut out, &digits);
    push_str(&mut out, ".jpg");
    assert(out@ =~= cache_path_of(cache_dir@, path_stem(path@), fp));
    Ok(ThumbnailEntry {
        fingerprint: fp,
        original_stem: string_of(s.as_slice()),
        original_path: String::from_str(path),
        cache_file_path: string_of(out.as_slice()),
    })
}

/// The cache entry of the file at `path` whose bytes are `content`: its
/// fingerprint is the hash of the content.
pub fn thumbnail_entry(path: &str, cache_dir: &str, content: &[u8]) -> (r: Result<ThumbnailEntry, ImportError>)
    ensures
        file_name_of(path@) is None ==> r == Err::<ThumbnailEntry, ImportError>(ImportError::InvalidFileName),
        file_name_of(path@) is Some ==> (r matches Ok(e) && e.fingerprint == xxh3_of(content@)
            && e.original_stem@ == path_stem(path@) && e.original_path@ == path@
            && e.cache_file_path@ == thumbnail_path_for(cache_dir@, path@, content@)),
{
    let fp = hash_content(content);
    thumbnail_entry_for(path, cache_dir, fp)
}

/// Decides a request: a thumbnail already in the cache is used as it is;
/// otherwise the metadata tool extracts the embedded preview to a temporary file.
pub fn plan_thumbnail(entry: &ThumbnailEntry, cache_dir: &str, cached: bool) -> (r: ThumbnailAction)
    ensures
        cached ==> r == ThumbnailAction::UseCached,
        !cached ==> (r matches ThumbnailAction::Extract { args, temp_path } && args@.len() == 5
            && args@[0]@ == "-thumbnailimage"@ && args@[1]@ == "-b"@ && args@[2]@ == "-w"@
            && args@[3]@ == output_pattern_of(cache_dir@, entry.fingerprint)
            && args@[4]@ == entry.original_path@
            && temp_path@ == temp_path_of(cache_dir@, entry.original_stem@, entry.fingerprint)),
{
    if cached {
        return ThumbnailAction::UseCached;
    }
    let digits = decimal_chars(entry.fingerprint);
    let mut pattern: Vec<char> = Vec::new();
    push_str(&mut pattern, cache_dir);
    push_str(&mut pattern, ".tmp_%f_");
    push_all(&mut pattern, &digits);
    push_str(&mut pattern, ".jpg");
    assert(pattern@ =~= output_pattern_of(cache_dir@, entry.fingerprint));
    let s = chars_of(entry.original_stem.as_str());
    let mut temp: Vec<char> = Vec::new();
    push_str(&mut temp, cache_dir);
    push_str(&mut temp, ".tmp_");
    push_all(&mut temp, &s);
    temp.push('_');
    push_all(&mut temp, &digits);
    push_str(&mut temp, ".jpg");
    assert(temp@ =~= temp_path_of(cache_dir@, entry.original_stem@, entry.fingerprint));
    let mut args: Vec<String> = Vec::new();
    args.push(String::from_str("-thumbnailimage"));
    args.push(String::from_str("-b"));
    args.push(String::from_str("-w"));
    args.push(string_of(pattern.as_slice()));
    args.push(entry.original_path.clone());
    ThumbnailAction::Extract { args, temp_path: string_of(temp.as_slice()) }
}

/// The result of an extraction: the entry where the tool succeeded, else
/// `ExtractionFailed` with the tool's diagnostic text.
pub fn finish_extraction(entry: ThumbnailEntry, outcome: &ToolOutcome) -> (r: Result<ThumbnailEntry, ImportError>)
    ensures
        match *outcome {
            ToolOutcome::NotStarted(m) => r matches Err(ImportError::ExtractionFailed(e)) && e@ == m@,
            ToolOutcome::Exited { success, stdout, stderr } => if success {
                r == Ok::<ThumbnailEntry, ImportError>(entry)
            } else {
                r matches Err(ImportError::ExtractionFailed(e)) && e@ == stderr@
            },
        },
{
    match outcome {
        ToolOutcome::NotStarted(m) => Err(ImportError::ExtractionFailed(m.clone())),
        ToolOutcome::Exited { success, stdout: _, stderr } => {
            if *success {
                Ok(entry)
            } else {
                Err(ImportError::ExtractionFailed(stderr.clone()))
            }
        },
    }
}

/// Byte-identical files with the same stem share one cache path, whatever
/// their paths: once the first request has put the thumbnail there, the second
/// finds it and runs no tool.
pub proof fn lemma_identical_content_shares_cache_path(dir: Seq<char>, p1: Seq<char>, p2: Seq<char>, c1: Seq<u8>, c2: Seq<u8>)
    requires
        c1 == c2,
        file_name_of(p1) is Some,
        file_name_of(p2) is Some,
        path_stem(p1) == path_stem(p2),
    ensures
        thumbnail_path_for(dir, p1, c1) == thumbnail_path_for(dir, p2, c2),
{
}

} // verus!
