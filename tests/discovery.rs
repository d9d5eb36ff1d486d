use raw_import::discover::{discover, is_hidden, EntryMetadata, FileRecord, WalkEntry};
use raw_import::error::ImportError;
use raw_import::extension::{extension_in_set, is_allowed_extension, ImportConfig};

fn config() -> ImportConfig {
    ImportConfig::new(String::from("/tmp/thumbs/"))
}

fn file(path: &str, len: u64) -> Result<WalkEntry, String> {
    Ok(WalkEntry { path: String::from(path), is_dir: false, metadata: Ok(EntryMetadata { is_file: true, len }) })
}

fn dir(path: &str) -> Result<WalkEntry, String> {
    Ok(WalkEntry { path: String::from(path), is_dir: true, metadata: Ok(EntryMetadata { is_file: false, len: 0 }) })
}

#[test]
fn extension_match_ignores_case() {
    let c = config();
    assert!(is_allowed_extension("/photos/photo.CR2", &c.allowed_extensions));
    assert!(is_allowed_extension("/photos/photo.cr2", &c.allowed_extensions));
    assert!(is_allowed_extension("IMG_0001.Nef", &c.allowed_extensions));
    assert!(is_allowed_extension("clip.R3D", &c.allowed_extensions));
}

#[test]
fn extension_outside_the_set_is_refused() {
    let c = config();
    assert!(!is_allowed_extension("/photos/photo.txt", &c.allowed_extensions));
    assert!(!is_allowed_extension("/photos/photo.jpg", &c.allowed_extensions));
    assert!(!is_allowed_extension("/photos/photo.cr2.bak", &c.allowed_extensions));
}

#[test]
fn no_extension_is_refused() {
    let c = config();
    assert!(!is_allowed_extension("/photos/cr2", &c.allowed_extensions));
    assert!(!is_allowed_extension("/photos/photo.", &c.allowed_extensions));
    assert!(!is_allowed_extension("/photos/.cr2", &c.allowed_extensions));
    assert!(!is_allowed_extension("/photos.cr2/readme", &c.allowed_extensions));
    assert!(!is_allowed_extension("", &c.allowed_extensions));
}

#[test]
fn empty_list_entry_admits_no_extensionless_file() {
    let allowed = vec![String::new(), String::from("dng")];
    assert!(!is_allowed_extension("/r/photo", &allowed));
    assert!(!is_allowed_extension("/r/photo.", &allowed));
    assert!(!is_allowed_extension("/r/.profile", &allowed));
    assert!(is_allowed_extension("/r/photo.DNG", &allowed));
}

#[test]
fn extension_set_membership_is_exact() {
    let c = config();
    assert!(extension_in_set("dng", &c.allowed_extensions));
    assert!(!extension_in_set("DNG", &c.allowed_extensions));
    assert!(!extension_in_set("", &c.allowed_extensions));
    assert_eq!(c.allowed_extensions.len(), 43);
    assert_eq!(c.cache_dir, "/tmp/thumbs/");
}

#[test]
fn hidden_names() {
    assert!(is_hidden("/a/.hidden.cr2"));
    assert!(is_hidden(".git"));
    assert!(!is_hidden("/a/.b/photo.cr2"));
    assert!(!is_hidden("/a/photo.cr2"));
}

#[test]
fn hidden_follows_the_file_name_of_the_path() {
    assert!(is_hidden("/r/.hidden/"));
    assert!(is_hidden("/r/.hidden/."));
    assert!(is_hidden("/r/.hidden//"));
    assert!(!is_hidden(".."));
    assert!(!is_hidden("/r/.hidden/.."));
    assert!(!is_hidden("/"));
    assert!(!is_hidden("."));
    assert!(!is_hidden(""));
}

#[test]
fn listed_extensions_match_in_any_case() {
    let allowed = vec![String::from("R3D"), String::from("Cr2")];
    assert!(is_allowed_extension("/clips/a.r3d", &allowed));
    assert!(is_allowed_extension("/clips/a.R3d", &allowed));
    assert!(is_allowed_extension("/photos/b.CR2", &allowed));
    assert!(extension_in_set("r3d", &allowed));
    assert!(!is_allowed_extension("/photos/b.nef", &allowed));
}

#[test]
fn extension_is_that_of_the_file_name() {
    let c = config();
    assert!(is_allowed_extension("/photos/photo.cr2/", &c.allowed_extensions));
    assert!(is_allowed_extension("/photos/photo.cr2/.", &c.allowed_extensions));
    assert!(!is_allowed_extension("/photos/photo.cr2/..", &c.allowed_extensions));
    assert!(!is_allowed_extension("/", &c.allowed_extensions));
}

#[test]
fn relative_paths_are_made_absolute() {
    let c = config();
    let entries = vec![dir("card"), file("card/a.dng", 5), file("/mnt/b.dng", 6)];
    let r = discover("card", true, "/home/me", &entries, &c.allowed_extensions).unwrap();
    assert_eq!(
        r,
        vec![
            FileRecord { path: String::from("/home/me/card/a.dng"), is_file: true, size: Some(5) },
            FileRecord { path: String::from("/mnt/b.dng"), is_file: true, size: Some(6) },
        ]
    );
}

#[test]
fn walk_error_fails_discovery() {
    let c = config();
    let entries = vec![file("/card/a.dng", 5), Err(String::from("cannot read /card/locked")), file("/card/c.dng", 6)];
    let r = discover("/card", true, "/home/me", &entries, &c.allowed_extensions);
    assert_eq!(r, Err(ImportError::MetadataError(String::from("cannot read /card/locked"))));
}

#[test]
fn first_failure_decides() {
    let c = config();
    let entries = vec![
        Ok(WalkEntry { path: String::from("/card/b.arw"), is_dir: false, metadata: Err(String::from("first")) }),
        Err(String::from("second")),
    ];
    let r = discover("/card", true, "/home/me", &entries, &c.allowed_extensions);
    assert_eq!(r, Err(ImportError::MetadataError(String::from("first"))));
}

#[test]
fn discovery_keeps_visible_raw_files_only() {
    let c = config();
    let entries = vec![
        dir("/card"),
        file("/card/.hidden.cr2", 10),
        file("/card/photo.CR2", 20),
        file("/card/photo.txt", 30),
        file("/card/photo.cr2", 40),
        dir("/card/sub.cr2"),
    ];
    let r = discover("/card", true, "/home/me", &entries, &c.allowed_extensions).unwrap();
    assert_eq!(
        r,
        vec![
            FileRecord { path: String::from("/card/photo.CR2"), is_file: true, size: Some(20) },
            FileRecord { path: String::from("/card/photo.cr2"), is_file: true, size: Some(40) },
        ]
    );
}

#[test]
fn discovery_of_missing_root_fails() {
    let c = config();
    let entries = vec![file("/nowhere/photo.cr2", 1)];
    let r = discover("/nowhere", false, "/home/me", &entries, &c.allowed_extensions);
    assert_eq!(r, Err(ImportError::PathNotFound(String::from("/nowhere"))));
}

#[test]
fn discovery_fails_whole_on_metadata_error() {
    let c = config();
    let entries = vec![
        file("/card/a.arw", 1),
        Ok(WalkEntry { path: String::from("/card/b.arw"), is_dir: false, metadata: Err(String::from("denied")) }),
        file("/card/c.arw", 3),
    ];
    let r = discover("/card", true, "/home/me", &entries, &c.allowed_extensions);
    assert_eq!(r, Err(ImportError::MetadataError(String::from("denied"))));
}

#[test]
fn metadata_error_of_skipped_entry_is_ignored() {
    let c = config();
    let entries = vec![
        Ok(WalkEntry { path: String::from("/card/notes.txt"), is_dir: false, metadata: Err(String::from("denied")) }),
        file("/card/c.arw", 3),
    ];
    let r = discover("/card", true, "/home/me", &entries, &c.allowed_extensions).unwrap();
    assert_eq!(r, vec![FileRecord { path: String::from("/card/c.arw"), is_file: true, size: Some(3) }]);
}

#[test]
fn non_regular_file_has_no_size() {
    let c = config();
    let entries = vec![Ok(WalkEntry {
        path: String::from("/card/link.dng"),
        is_dir: false,
        metadata: Ok(EntryMetadata { is_file: false, len: 7 }),
    })];
    let r = discover("/card", true, "/home/me", &entries, &c.allowed_extensions).unwrap();
    assert_eq!(r, vec![FileRecord { path: String::from("/card/link.dng"), is_file: false, size: None }]);
}

#[test]
fn empty_tree_discovers_nothing() {
    let c = config();
    let r = discover("/card", true, "/home/me", &Vec::new(), &c.allowed_extensions).unwrap();
    assert!(r.is_empty());
}
