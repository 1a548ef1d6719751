use house_keeper::backup_manager::{
    backup_of, backup_sources, date_stamp, first_failure, BackupCopy, BackupEntry, BackupManager,
};
use house_keeper::error::AppError;

fn entry(name: &str, modified: i128) -> BackupEntry {
    BackupEntry { name: name.to_string(), modified }
}

fn manager() -> BackupManager {
    BackupManager::new("backup", "data")
}

#[test]
fn backup_names() {
    assert!(backup_of("user.json.20240131", "user.json"));
    assert!(!backup_of("user.json.2024013", "user.json"));
    assert!(!backup_of("user.json.2024013x", "user.json"));
    assert!(!backup_of("user.json-20240131", "user.json"));
    assert!(!backup_of("house.json.20240131", "user.json"));
    assert!(date_stamp("20240131"));
    assert!(!date_stamp("2024-1-31"));
}

#[test]
fn latest_backup_is_the_greatest_date() {
    let m = manager();
    let entries = vec![
        entry("user.json.20240105", 5),
        entry("house.json.20240301", 9),
        entry("user.json.20240210", 7),
        entry("user.json.20231231", 3),
        entry("notes.txt", 1),
    ];
    assert_eq!(m.latest_backup_file("user.json", &entries), Ok(Some(2)));
    assert_eq!(m.latest_backup_file("house/h1.json", &entries), Ok(None));
    assert_eq!(m.latest_backup_file("house.json", &entries), Ok(Some(1)));
    assert_eq!(
        m.latest_backup_file("../user.json", &entries),
        Err(AppError::FileSystemError("Invalid file path".to_string()))
    );
}

#[test]
fn needs_backup_decisions() {
    let m = manager();
    let entries = vec![entry("user.json.20240105", 100)];
    assert_eq!(m.needs_backup("user.json", Some(150), &entries), Ok(true));
    assert_eq!(m.needs_backup("user.json", Some(100), &entries), Ok(false));
    assert_eq!(m.needs_backup("user.json", Some(50), &entries), Ok(false));
    assert_eq!(m.needs_backup("user.json", None, &entries), Ok(false));
    assert_eq!(m.needs_backup("house.json", Some(1), &entries), Ok(true));
}

#[test]
fn plan_backup_names_the_dated_copy() {
    let m = manager();
    let plan = m.plan_backup("house/h1.json", Some(10), &vec![], "20240131").unwrap().unwrap();
    assert_eq!(plan.source, "data/house/h1.json");
    assert_eq!(plan.target, "backup/h1.json.20240131");
    assert!(matches!(
        m.plan_backup("user.json", Some(10), &vec![], "2024"),
        Err(AppError::BackupError)
    ));
}

#[test]
fn backup_twice_makes_one_copy() {
    let m = manager();
    let mut dir: Vec<BackupEntry> = vec![entry("user.json.20240101", 10)];
    let first = m.plan_backup("user.json", Some(50), &dir, "20240131").unwrap();
    let BackupCopy { source: _, target } = first.unwrap();
    assert_eq!(target, "backup/user.json.20240131");
    dir.push(entry("user.json.20240131", 60));
    let second = m.plan_backup("user.json", Some(50), &dir, "20240131").unwrap();
    assert!(second.is_none());
}

#[test]
fn modified_source_is_backed_up_again_same_day() {
    let m = manager();
    let dir = vec![entry("user.json.20240131", 60)];
    let again = m.plan_backup("user.json", Some(70), &dir, "20240131").unwrap().unwrap();
    assert_eq!(again.target, "backup/user.json.20240131");
}

#[test]
fn missing_source_is_a_no_op() {
    let m = manager();
    assert_eq!(m.plan_backup("user.json", None, &vec![], "20240131").unwrap().is_none(), true);
    assert!(m.plan_backup_today("user.json", None, &vec![]).unwrap().is_none());
}

#[test]
fn plan_backup_today_uses_a_dated_name() {
    let m = manager();
    let plan = m.plan_backup_today("user.json", Some(1), &vec![]).unwrap().unwrap();
    assert_eq!(plan.source, "data/user.json");
    let stamp = plan.target.strip_prefix("backup/user.json.").unwrap();
    assert_eq!(stamp.len(), 8);
    assert!(stamp.chars().all(|c| c.is_ascii_digit()));
}

#[test]
fn backup_sources_cover_collections_and_house_documents() {
    let files = vec![
        "h1.json".to_string(),
        "notes.txt".to_string(),
        ".json".to_string(),
        "h2.json".to_string(),
    ];
    let got = backup_sources(&files);
    assert_eq!(got, vec!["user.json", "house.json", "house/h1.json", "house/h2.json"]);
    assert_eq!(backup_sources(&vec![]), vec!["user.json", "house.json"]);
}

#[test]
fn first_failure_of_a_batch() {
    assert_eq!(first_failure(vec![Ok(()), Ok(())]), Ok(()));
    assert_eq!(first_failure(vec![]), Ok(()));
    assert_eq!(
        first_failure(vec![Ok(()), Err(AppError::BackupError), Err(AppError::NotFound)]),
        Err(AppError::BackupError)
    );
}
