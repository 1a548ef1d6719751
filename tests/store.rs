use house_keeper::error::AppError;
use house_keeper::file_storage::{
    house_detail_path, parse_error, read_error, FileStorage, WriteAction,
};
use house_keeper::house::{HouseArea, HouseDetail};
use house_keeper::paths::{extension, file_name_of, join_path, parent_dir, safe_relative};
use house_keeper::versioned::{replace_items, update_house_detail, update_versioned};

fn detail(version: &str, name: &str, items: Vec<HouseArea>) -> HouseDetail {
    HouseDetail { version: version.to_string(), name: name.to_string(), items }
}

fn area(id: &str, name: &str) -> HouseArea {
    HouseArea {
        id: id.to_string(),
        name: name.to_string(),
        content: String::new(),
        images: vec![],
        items: vec![],
    }
}

#[test]
fn status_codes_and_messages() {
    assert_eq!(AppError::VersionMismatch.status_code(), 409);
    assert_eq!(AppError::NotFound.status_code(), 404);
    assert_eq!(AppError::AuthenticationRequired.status_code(), 401);
    assert_eq!(AppError::PermissionDenied.status_code(), 403);
    assert_eq!(AppError::ParseError("x".to_string()).status_code(), 400);
    assert_eq!(AppError::BackupError.status_code(), 500);
    assert_eq!(
        AppError::FileSystemError("disk full".to_string()).message(),
        "File system error: disk full"
    );
    assert_eq!(AppError::ParseError("bad".to_string()).message(), "Parse error: bad");
    assert_eq!(AppError::VersionMismatch.message(), "Version Mismatch");
}

#[test]
fn safe_relative_paths() {
    assert!(safe_relative("user.json"));
    assert!(safe_relative("house/h1.json"));
    assert!(safe_relative("a/.b/c..d"));
    assert!(!safe_relative(""));
    assert!(!safe_relative("/etc/passwd"));
    assert!(!safe_relative("../secret.json"));
    assert!(!safe_relative("house/../../x"));
    assert!(!safe_relative("house/.."));
    assert!(!safe_relative("a//b"));
    assert!(!safe_relative("a/./b"));
    assert!(!safe_relative("house/"));
    assert!(!safe_relative("."));
}

#[test]
fn joining_and_splitting_paths() {
    assert_eq!(join_path("data", "user.json"), "data/user.json");
    assert_eq!(join_path("data/", "user.json"), "data/user.json");
    assert_eq!(join_path("", "user.json"), "user.json");
    assert_eq!(file_name_of("house/h1.json"), "h1.json");
    assert_eq!(file_name_of("user.json"), "user.json");
    assert_eq!(parent_dir("data", "house/h1.json"), "data/house");
    assert_eq!(parent_dir("data", "user.json"), "data");
    assert_eq!(parent_dir("data", "a/b/c.json"), "data/a/b");
}

#[test]
fn extensions() {
    assert_eq!(extension("photo.png"), Some("png".to_string()));
    assert_eq!(extension("archive.tar.gz"), Some("gz".to_string()));
    assert_eq!(extension("dir/h1.json"), Some("json".to_string()));
    assert_eq!(extension("a."), Some(String::new()));
    assert_eq!(extension(".json"), None);
    assert_eq!(extension("noext"), None);
    assert_eq!(extension(".."), None);
}

#[test]
fn resolve_stays_under_base() {
    let s = FileStorage::new("data");
    assert_eq!(s.resolve("house/h1.json"), Ok("data/house/h1.json".to_string()));
    assert_eq!(
        s.resolve("../outside.json"),
        Err(AppError::FileSystemError("Invalid file path".to_string()))
    );
    assert_eq!(
        s.resolve("/abs.json"),
        Err(AppError::FileSystemError("Invalid file path".to_string()))
    );
}

#[test]
fn read_errors_are_classified() {
    assert_eq!(read_error(true, "gone".to_string()), AppError::NotFound);
    assert_eq!(
        read_error(false, "denied".to_string()),
        AppError::FileSystemError("denied".to_string())
    );
    assert_eq!(parse_error("eof".to_string()), AppError::ParseError("eof".to_string()));
}

#[test]
fn house_detail_paths() {
    assert_eq!(house_detail_path("h1"), "house/h1.json");
}

#[test]
fn verify_password_is_equality() {
    let s = FileStorage::new("data");
    assert_eq!(s.verify_password("secret", "secret"), Ok(true));
    assert_eq!(s.verify_password("secret", "Secret"), Ok(false));
}

#[test]
fn atomic_write_runs_its_stages_in_order() {
    let s = FileStorage::new("data");
    let mut w = s.begin_write("house/h1.json").unwrap();
    assert_eq!(w.next_action(), WriteAction::CreateDir("data/house".to_string()));
    assert_eq!(w.advance(Ok(())), Ok(()));
    assert_eq!(w.next_action(), WriteAction::CreateTemp("data/house".to_string()));
    assert_eq!(w.advance(Ok(())), Ok(()));
    assert_eq!(w.next_action(), WriteAction::Serialize);
    assert_eq!(w.advance(Ok(())), Ok(()));
    assert_eq!(w.next_action(), WriteAction::WriteTemp);
    assert_eq!(w.advance(Ok(())), Ok(()));
    assert!(!w.is_done());
    assert_eq!(w.next_action(), WriteAction::Persist("data/house/h1.json".to_string()));
    assert_eq!(w.advance(Ok(())), Ok(()));
    assert!(w.is_done());
    assert_eq!(w.next_action(), WriteAction::Finished);
}

#[test]
fn atomic_write_interrupted_before_rename_never_persists() {
    let s = FileStorage::new("data");
    let mut w = s.begin_write("user.json").unwrap();
    assert_eq!(w.next_action(), WriteAction::CreateDir("data".to_string()));
    w.advance(Ok(())).unwrap();
    w.advance(Ok(())).unwrap();
    w.advance(Ok(())).unwrap();
    assert_eq!(
        w.advance(Err("interrupted".to_string())),
        Err(AppError::FileSystemError("interrupted".to_string()))
    );
    assert_eq!(w.next_action(), WriteAction::Finished);
    assert!(!w.is_done());
    assert_eq!(w.advance(Ok(())), Ok(()));
    assert!(!w.is_done());
}

#[test]
fn atomic_write_serialisation_failure_is_a_parse_error() {
    let s = FileStorage::new("data");
    let mut w = s.begin_write("user.json").unwrap();
    w.advance(Ok(())).unwrap();
    w.advance(Ok(())).unwrap();
    assert_eq!(
        w.advance(Err("not serialisable".to_string())),
        Err(AppError::ParseError("not serialisable".to_string()))
    );
    assert!(!w.is_done());
}

#[test]
fn atomic_write_rejects_escaping_paths() {
    let s = FileStorage::new("data");
    assert!(matches!(s.begin_write("../x.json"), Err(AppError::FileSystemError(_))));
}

#[test]
fn update_versioned_compare_and_swap() {
    let current = detail("v1", "Home", vec![]);
    let first = update_versioned(&current, "v1", detail("", "New", vec![area("a1", "Kitchen")]), "v2".to_string()).unwrap();
    assert_eq!(first.version, "v2");
    assert_eq!(first.name, "New");
    assert_eq!(first.items.len(), 1);
    let second = update_versioned(&first, "v1", detail("", "Other", vec![]), "v3".to_string());
    assert!(matches!(second, Err(AppError::VersionMismatch)));
    assert_eq!(first.name, "New");
}

#[test]
fn replace_items_keeps_the_name() {
    let current = detail("v1", "Home", vec![]);
    let submitted = detail("v1", "Ignored", vec![area("a1", "Garage")]);
    let d = replace_items(current, submitted, "v2".to_string()).unwrap();
    assert_eq!(d.version, "v2");
    assert_eq!(d.name, "Home");
    assert_eq!(d.items[0].name, "Garage");
    let stale = replace_items(d, detail("v1", "Home", vec![]), "v3".to_string());
    assert!(matches!(stale, Err(AppError::VersionMismatch)));
}

#[test]
fn concrete_versioned_scenario() {
    let stored = detail("v1", "Home", vec![]);
    let submitted = detail("v1", "Home", vec![area("a1", "Living room")]);
    let updated = update_house_detail(stored, submitted).unwrap();
    assert_ne!(updated.version, "v1");
    assert!(!updated.version.is_empty());
    assert_eq!(updated.name, "Home");
    assert_eq!(updated.items.len(), 1);
    assert_eq!(updated.items[0].id, "a1");
    let version_after_first = updated.version.clone();
    let stale = detail("v1", "Home", vec![area("a2", "Attic")]);
    let copy = detail(&updated.version, &updated.name, vec![area("a1", "Living room")]);
    assert!(matches!(update_house_detail(copy, stale), Err(AppError::VersionMismatch)));
    assert_eq!(updated.version, version_after_first);
    assert_eq!(updated.items[0].name, "Living room");
}

#[test]
fn write_house_detail_checks_the_version() {
    let s = FileStorage::new("data");
    let current = detail("v1", "Home", vec![]);
    let ok = s.write_house_detail(&current, detail("ignored", "Home 2", vec![]), "v1").unwrap();
    assert_ne!(ok.version, "v1");
    assert_ne!(ok.version, "ignored");
    assert_eq!(ok.name, "Home 2");
    let refused = s.write_house_detail(&current, detail("x", "Home 3", vec![]), "v0");
    assert!(matches!(refused, Err(AppError::VersionMismatch)));
}

#[test]
fn new_house_detail_is_empty_with_a_version() {
    let a = HouseDetail::new();
    let b = HouseDetail::new();
    assert!(a.name.is_empty());
    assert!(a.items.is_empty());
    assert_eq!(a.version.len(), 36);
    assert_ne!(a.version, b.version);
}
