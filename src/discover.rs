//! Discovery: which entries of a walked directory tree are raw images to import.
use vstd::prelude::*;
use crate::error::ImportError;
use crate::extension::{is_allowed_extension, is_allowed_path};
use crate::text::{chars_of, file_name_of, is_hidden_path, lemma_file_name_under_prefix, path_extension, path_is_hidden, push_str, string_of};

verus! {

/// What the file system said of an entry.
#[derive(Debug, Clone, Copy, PartialEq, Eq)]
pub struct EntryMetadata {
    pub is_file: bool,
    pub len: u64,
}

/// One entry met while walking the tree, in traversal order; `metadata` holds
/// the error text where reading its metadata failed.
#[derive(Debug)]
pub struct WalkEntry {
    pub path: String,
    pub is_dir: bool,
    pub metadata: Result<EntryMetadata, String>,
}

/// A discovered file.
#[derive(Debug, PartialEq, Eq)]
pub struct FileRecord {
    pub path: String,
    pub is_file: bool,
    pub size: Option<u64>,
}

/// An entry is kept when its name is not hidden, it is no directory, and its
/// extension is accepted.
pub open spec fn is_selected(allowed: Seq<String>, e: WalkEntry) -> bool {
    !is_hidden_path(e.path@) && !e.is_dir && is_allowed_path(allowed, e.path@)
}

/// A path made absolute against the working directory `cwd`: one that starts
/// with `/` stands as it is, any other is joined to `cwd`.
pub open spec fn absolute_of(cwd: Seq<char>, p: Seq<char>) -> Seq<char> {
    if p.len() > 0 && p[0] == '/' {
        p
    } else {
        cwd + seq!['/'] + p
    }
}

/// The record of a kept entry: its absolute path, and a size only for a
/// regular file.
pub open spec fn record_matches(r: FileRecord, e: WalkEntry, cwd: Seq<char>) -> bool {
    &&& e.metadata is Ok
    &&& r.path@ == absolute_of(cwd, e.path@)
    &&& r.is_file == e.metadata->Ok_0.is_file
    &&& r.size == (if e.metadata->Ok_0.is_file {
        Some(e.metadata->Ok_0.len)
    } else {
        None::<u64>
    })
}

/// The text of the first failure among the first `n` items of a walk: an item
/// that the walk could not read, or a kept entry whose metadata could not be read.
pub open spec fn first_failure(allowed: Seq<String>, es: Seq<Result<WalkEntry, String>>, n: nat) -> Option<Seq<char>>
    decreases n,
{
    if n == 0 {
        None
    } else {
        match first_failure(allowed, es, (n - 1) as nat) {
            Some(m) => Some(m),
            None => match es[n - 1] {
                Err(m) => Some(m@),
                Ok(e) => if is_selected(allowed, e) && e.metadata is Err {
                    Some(e.metadata->Err_0@)
                } else {
                    None
                },
            },
        }
    }
}

/// The kept entries among the first `n` items of a walk, in order.
pub open spec fn kept(allowed: Seq<String>, es: Seq<Result<WalkEntry, String>>, n: nat) -> Seq<WalkEntry>
    decreases n,
{
    if n == 0 {
        Seq::empty()
    } else {
        match es[n - 1] {
            Ok(e) => if is_selected(allowed, e) {
                kept(allowed, es, (n - 1) as nat).push(e)
            } else {
                kept(allowed, es, (n - 1) as nat)
            },
            Err(_) => kept(allowed, es, (n - 1) as nat),
        }
    }
}

/// Whether the file name of a path starts with a dot; a path without a file
/// name (the root, or one ending in `..`) is not hidden.
pub fn is_hidden(path: &str) -> (r: bool)
    ensures
        r == is_hidden_path(path@),
{
    path_is_hidden(path)
}

/// Whether an entry is kept.
pub fn select_entry(entry: &WalkEntry, allowed: &Vec<String>) -> (r: bool)
    ensures
        r == is_selected(allowed@, *entry),
{
    !is_hidden(entry.path.as_str()) && !entry.is_dir && is_allowed_extension(entry.path.as_str(), allowed)
}

/// A path made absolute against the working directory.
pub fn absolute_path(cwd: &str, path: &str) -> (r: String)
    ensures
        r@ == absolute_of(cwd@, path@),
{
    let p = chars_of(path);
    if p.len() > 0 && p[0] == '/' {
        return String::from_str(path);
    }
    let mut out: Vec<char> = chars_of(cwd);
    out.push('/');
    push_str(&mut out, path);
    string_of(out.as_slice())
}

/// Discovery over the items of a walk from `root`, with relative paths taken
/// against the working directory `cwd`. A root that does not exist gives
/// `PathNotFound` and nothing else. Otherwise the first failure of the walk,
/// an item it could not read or a kept entry whose metadata could not be read,
/// fails the whole call with `MetadataError`; without one, the result lists
/// the kept entries in traversal order, with absolute paths.
pub fn discover(
    root: &str,
    root_exists: bool,
    cwd: &str,
    entries: &Vec<Result<WalkEntry, String>>,
    allowed: &Vec<String>,
) -> (r: Result<Vec<FileRecord>, ImportError>)
    ensures
        !root_exists ==> (r matches Err(ImportError::PathNotFound(p)) && p@ == root@),
        root_exists ==> match first_failure(allowed@, entries@, entries@.len()) {
            Some(m) => r matches Err(ImportError::MetadataError(e)) && e@ == m,
            None => r matches Ok(v) && v@.len() == kept(allowed@, entries@, entries@.len()).len()
                && forall|i: int| 0 <= i < v@.len()
                    ==> record_matches(#[trigger] v@[i], kept(allowed@, entries@, entries@.len())[i], cwd@),
        },
{
    if !root_exists {
        return Err(ImportError::PathNotFound(String::from_str(root)));
    }
    let mut files: Vec<FileRecord> = Vec::new();
    let mut i: usize = 0;
    while i < entries.len()
        invariant
            i <= entries.len(),
            root_exists,
            first_failure(allowed@, entries@, i as nat) is None,
            files@.len() == kept(allowed@, entries@, i as nat).len(),
            forall|j: int| 0 <= j < files@.len()
                ==> record_matches(#[trigger] files@[j], kept(allowed@, entries@, i as nat)[j], cwd@),
        decreases entries.len() - i,
    {
        match &entries[i] {
            Err(m) => {
                proof {
                    lemma_failure_stays(allowed@, entries@, (i + 1) as nat, entries@.len());
                }
                return Err(ImportError::MetadataError(m.clone()));
            },
            Ok(entry) => {
                if select_entry(entry, allowed) {
                    match &entry.metadata {
                        Err(m) => {
                            proof {
                                lemma_failure_stays(allowed@, entries@, (i + 1) as nat, entries@.len());
                            }
                            return Err(ImportError::MetadataError(m.clone()));
                        },
                        Ok(md) => {
                            let size = if md.is_file {
                                Some(md.len)
                            } else {
                                None
                            };
                            let path = absolute_path(cwd, entry.path.as_str());
                            files.push(FileRecord { path, is_file: md.is_file, size });
                        },
                    }
                }
            },
        }
        i += 1;
    }
    Ok(files)
}

/// Discovery lists no hidden entry, no directory and no file whose extension
/// is not accepted: every kept entry is visible, a file, and has an accepted
/// extension in any case of letters.
pub proof fn lemma_kept_entries_are_visible_raw_files(allowed: Seq<String>, es: Seq<Result<WalkEntry, String>>, n: nat)
    requires
        n <= es.len(),
    ensures
        forall|i: int| 0 <= i < kept(allowed, es, n).len() ==> {
            let e = #[trigger] kept(allowed, es, n)[i];
            &&& !is_hidden_path(e.path@)
            &&& !e.is_dir
            &&& is_allowed_path(allowed, e.path@)
        },
    decreases n,
{
    if n > 0 {
        lemma_kept_entries_are_visible_raw_files(allowed, es, (n - 1) as nat);
    }
}

/// With an absolute working directory, every record that discovery lists has
/// an absolute path that is not hidden and whose extension is accepted, in any
/// case of letters.
pub proof fn lemma_records_are_absolute_visible_raw_files(
    allowed: Seq<String>,
    cwd: Seq<char>,
    es: Seq<Result<WalkEntry, String>>,
    v: Seq<FileRecord>,
)
    requires
        cwd.len() > 0 && cwd[0] == '/',
        v.len() == kept(allowed, es, es.len()).len(),
        forall|i: int| 0 <= i < v.len() ==> record_matches(#[trigger] v[i], kept(allowed, es, es.len())[i], cwd),
    ensures
        forall|i: int| 0 <= i < v.len() ==> {
            let p = (#[trigger] v[i]).path@;
            &&& p.len() > 0 && p[0] == '/'
            &&& !is_hidden_path(p)
            &&& is_allowed_path(allowed, p)
        },
{
    lemma_kept_entries_are_visible_raw_files(allowed, es, es.len());
    assert forall|i: int| 0 <= i < v.len() implies {
        let p = (#[trigger] v[i]).path@;
        &&& p.len() > 0 && p[0] == '/'
        &&& !is_hidden_path(p)
        &&& is_allowed_path(allowed, p)
    } by {
        let e = kept(allowed, es, es.len())[i];
        let q = e.path@;
        assert(record_matches(v[i], e, cwd));
        assert(path_extension(q).len() > 0);
        assert(file_name_of(q) is Some);
        if !(q.len() > 0 && q[0] == '/') {
            lemma_file_name_under_prefix(cwd, q);
            assert((cwd + seq!['/'] + q)[0] == cwd[0]);
        }
    }
}

proof fn lemma_failure_stays(allowed: Seq<String>, es: Seq<Result<WalkEntry, String>>, n: nat, m: nat)
    requires
        n <= m,
        first_failure(allowed, es, n) is Some,
    ensures
        first_failure(allowed, es, m) == first_failure(allowed, es, n),
    decreases m - n,
{
    if n < m {
        lemma_failure_stays(allowed, es, n, (m - 1) as nat);
    }
}

} // verus!
