//! Dated, deduplicated backups of the store's files.

use vstd::prelude::*;
use vstd::string::StringExecFns;
use crate::error::AppError;
use crate::paths::{
    base_name,
    extension,
    extension_of,
    file_name_of,
    is_safe_relative,
    join,
    join_path,
    safe_relative,
};
use crate::text::{
    chars_of,
    lemma_text_lt_irreflexive,
    lemma_text_lt_total,
    lemma_text_lt_transitive,
    text_eq,
    text_less,
    text_lt,
};

verus! {

/// An entry of the backup directory with its last-modified time, in
/// nanoseconds from the Unix epoch.
#[derive(Debug, Clone)]
pub struct BackupEntry {
    pub name: String,
    pub modified: i128,
}

/// A copy to make: the full path of the source and of the backup file.
#[derive(Debug, Clone)]
pub struct BackupCopy {
    pub source: String,
    pub target: String,
}

/// Dated backups of the files of a store, kept in one directory.
#[derive(Debug, Clone)]
pub struct BackupManager {
    backup_path: String,
    storage_base_path: String,
}

/// A date written `YYYYMMDD`: eight decimal digits, so that text order is
/// date order.
pub open spec fn is_date_stamp(s: Seq<char>) -> bool {
    s.len() == 8 && forall|i: int| 0 <= i < 8 ==> '0' <= #[trigger] s[i] && s[i] <= '9'
}

/// The name of the backup of a file named `base` made on day `stamp`.
pub open spec fn backup_name(base: Seq<char>, stamp: Seq<char>) -> Seq<char> {
    base + seq!['.'] + stamp
}

/// Whether `name` is the name of a dated backup of a file named `base`.
pub open spec fn is_backup_of(name: Seq<char>, base: Seq<char>) -> bool {
    &&& name.len() == base.len() + 9
    &&& name.subrange(0, base.len() as int) == base
    &&& name[base.len() as int] == '.'
    &&& is_date_stamp(name.subrange(base.len() as int + 1, name.len() as int))
}

/// `i` is the most recent backup of `base` among `entries`: its name is the
/// greatest in text order, and no earlier entry has that name.
pub open spec fn is_latest(entries: Seq<BackupEntry>, base: Seq<char>, i: int) -> bool {
    &&& 0 <= i < entries.len()
    &&& is_backup_of(entries[i].name@, base)
    &&& forall|j: int|
        0 <= j < entries.len() && #[trigger] is_backup_of(entries[j].name@, base) ==> !text_lt(
            entries[i].name@,
            entries[j].name@,
        )
    &&& forall|j: int|
        0 <= j < i && #[trigger] is_backup_of(entries[j].name@, base) ==> text_lt(
            entries[j].name@,
            entries[i].name@,
        )
}

pub open spec fn has_backup(entries: Seq<BackupEntry>, base: Seq<char>) -> bool {
    exists|j: int| 0 <= j < entries.len() && #[trigger] is_backup_of(entries[j].name@, base)
}

/// The modification time of the most recent backup of `base`, if any.
pub open spec fn latest_modified(entries: Seq<BackupEntry>, base: Seq<char>) -> Option<i128> {
    if exists|i: int| is_latest(entries, base, i) {
        Some(entries[choose|i: int| is_latest(entries, base, i)].modified)
    } else {
        None
    }
}

/// Whether a source is due for a backup: it exists, and either it has no
/// backup or it was modified after its most recent one.
pub open spec fn backup_due(source: Option<i128>, latest: Option<i128>) -> bool {
    match source {
        None => false,
        Some(s) => match latest {
            None => true,
            Some(b) => s > b,
        },
    }
}

pub proof fn lemma_latest_unique(entries: Seq<BackupEntry>, base: Seq<char>, i: int, k: int)
    requires
        is_latest(entries, base, i),
        is_latest(entries, base, k),
    ensures
        i == k,
{
    if i < k {
        assert(is_backup_of(entries[i].name@, base));
    } else if k < i {
        assert(is_backup_of(entries[k].name@, base));
    }
}

pub proof fn lemma_backup_name_is_backup(base: Seq<char>, stamp: Seq<char>)
    requires
        is_date_stamp(stamp),
    ensures
        is_backup_of(backup_name(base, stamp), base),
{
    let n = backup_name(base, stamp);
    assert(n.subrange(0, base.len() as int) =~= base);
    assert(n.subrange(base.len() as int + 1, n.len() as int) =~= stamp);
}

/// Whether `s` is a date written `YYYYMMDD`.
pub fn date_stamp(s: &str) -> (r: bool)
    ensures
        r == is_date_stamp(s@),
{
    let x = chars_of(s);
    if x.len() != 8 {
        return false;
    }
    let mut i: usize = 0;
    while i < 8
        invariant
            x@ == s@,
            x.len() == 8,
            i <= 8,
            forall|k: int| 0 <= k < i ==> '0' <= #[trigger] s@[k] && s@[k] <= '9',
        decreases 8 - i,
    {
        if x[i] < '0' || x[i] > '9' {
            return false;
        }
        i = i + 1;
    }
    true
}

/// Whether `name` is the name of a dated backup of a file named `base`.
pub fn backup_of(name: &str, base: &str) -> (r: bool)
    ensures
        r == is_backup_of(name@, base@),
{
    let x = chars_of(name);
    let y = chars_of(base);
    let xl = x.len();
    let yl = y.len();
    if yl > usize::MAX - 9 || xl != yl + 9 {
        return false;
    }
    let mut i: usize = 0;
    while i < y.len()
        invariant
            x@ == name@,
            y@ == base@,
            x.len() == y.len() + 9,
            i <= y.len(),
            x@.subrange(0, i as int) == y@.subrange(0, i as int),
        decreases y.len() - i,
    {
        if x[i] != y[i] {
            assert(x@.subrange(0, y.len() as int)[i as int] != y@[i as int]);
            return false;
        }
        i = i + 1;
        assert(x@.subrange(0, i as int) =~= x@.subrange(0, i as int - 1).push(x@[i - 1]));
        assert(y@.subrange(0, i as int) =~= y@.subrange(0, i as int - 1).push(y@[i - 1]));
    }
    assert(y@ =~= y@.subrange(0, i as int));
    if x[i] != '.' {
        return false;
    }
    let ghost stamp = x@.subrange(i + 1, x.len() as int);
    let mut k: usize = i + 1;
    while k < x.len()
        invariant
            x@ == name@,
            i + 9 == x.len(),
            i + 1 <= k <= x.len(),
            stamp == x@.subrange(i + 1, x.len() as int),
            forall|j: int| 0 <= j < k - (i + 1) ==> '0' <= #[trigger] stamp[j] && stamp[j] <= '9',
        decreases x.len() - k,
    {
        if x[k] < '0' || x[k] > '9' {
            assert(stamp[k - (i + 1)] == x@[k as int]);
            return false;
        }
        assert(stamp[k - (i + 1)] == x@[k as int]);
        k = k + 1;
    }
    true
}

/// Relies on `chrono::Local::now` and its `%Y%m%d` format: today's date
/// in the machine's time zone. Nothing is promised of its value.
#[verifier::external_body]
fn today_stamp() -> (r: String) {
    chrono::Local::now().format("%Y%m%d").to_string()
}

/// The entries of `entries` that do not have the name `name`, followed by
/// `copy`: the backup directory once `copy` has been written there.
pub open spec fn with_copy(entries: Seq<BackupEntry>, copy: BackupEntry) -> Seq<BackupEntry> {
    entries.filter(|e: BackupEntry| e.name@ != copy.name@).push(copy)
}

/// The files that a full backup of the store covers: the user and house
/// collections, then each house document among `house_files` (the names of
/// the files of the store's `house` directory) whose extension is `json`.
pub open spec fn backup_sources_of(house_files: Seq<String>) -> Seq<Seq<char>> {
    seq!["user.json"@, "house.json"@] + house_files.filter_map(|n: String| house_source(n))
}

/// The store's path of the house document named `n`, where `n` names one.
pub open spec fn house_source(n: String) -> Option<Seq<char>> {
    if extension_of(n@) == Some("json"@) && is_safe_relative(n@) {
        Some("house/"@ + n@)
    } else {
        None
    }
}

/// The invalid-path failure.
fn invalid_path() -> (r: AppError)
    ensures
        r matches AppError::FileSystemError(m) && m@ == "Invalid file path"@,
{
    AppError::FileSystemError(String::from_str("Invalid file path"))
}

impl BackupManager {
    /// The directory that holds the backups.
    pub closed spec fn backup_dir(&self) -> Seq<char> {
        self.backup_path@
    }

    /// The base directory of the store whose files are backed up.
    pub closed spec fn source_dir(&self) -> Seq<char> {
        self.storage_base_path@
    }

    /// A manager that keeps backups of the files under `storage_base_path`
    /// in `backup_path`.
    pub fn new(backup_path: &str, storage_base_path: &str) -> (r: BackupManager)
        ensures
            r.backup_dir() == backup_path@,
            r.source_dir() == storage_base_path@,
    {
        BackupManager {
            backup_path: String::from_str(backup_path),
            storage_base_path: String::from_str(storage_base_path),
        }
    }

    /// The directory that holds the backups.
    pub fn backup_directory(&self) -> (r: String)
        ensures
            r@ == self.backup_dir(),
    {
        self.backup_path.clone()
    }

    /// The full path of the store's file `file_path`. Fails with a
    /// `FileSystemError` where `file_path` is not a path inside the store.
    pub fn source_path(&self, file_path: &str) -> (r: Result<String, AppError>)
        ensures
            is_safe_relative(file_path@) ==> (r matches Ok(p) && p@ == join(
                self.source_dir(),
                file_path@,
            )),
            !is_safe_relative(file_path@) ==> (r matches Err(AppError::FileSystemError(m)) && m@
                == "Invalid file path"@),
    {
        if !safe_relative(file_path) {
            return Err(invalid_path());
        }
        Ok(join_path(self.storage_base_path.as_str(), file_path))
    }

    /// The most recent backup, among `entries` (the backup directory), of
    /// the store's file `file_path`. Fails with a `FileSystemError` where
    /// `file_path` is not a path inside the store.
    pub fn latest_backup_file(&self, file_path: &str, entries: &Vec<BackupEntry>) -> (r: Result<
        Option<usize>,
        AppError,
    >)
        ensures
            !is_safe_relative(file_path@) ==> (r matches Err(AppError::FileSystemError(m)) && m@
                == "Invalid file path"@),
            is_safe_relative(file_path@) ==> (r matches Ok(o) && match o {
                Some(i) => is_latest(entries@, base_name(file_path@), i as int),
                None => !has_backup(entries@, base_name(file_path@)),
            }),
    {
        if !safe_relative(file_path) {
            return Err(invalid_path());
        }
        let base = file_name_of(file_path);
        let ghost b = base@;
        let mut best: Option<usize> = None;
        let mut i: usize = 0;
        while i < entries.len()
            invariant
                b == base_name(file_path@),
                base@ == b,
                i <= entries.len(),
                match best {
                    None => forall|j: int|
                        0 <= j < i ==> !#[trigger] is_backup_of(entries@[j].name@, b),
                    Some(k) => {
                        &&& k < i
                        &&& is_backup_of(entries@[k as int].name@, b)
                        &&& forall|j: int|
                            0 <= j < i && #[trigger] is_backup_of(entries@[j].name@, b) ==> !text_lt(
                                entries@[k as int].name@,
                                entries@[j].name@,
                            )
                        &&& forall|j: int|
                            0 <= j < k && #[trigger] is_backup_of(entries@[j].name@, b) ==> text_lt(
                                entries@[j].name@,
                                entries@[k as int].name@,
                            )
                    },
                },
            decreases entries.len() - i,
        {
            if backup_of(entries[i].name.as_str(), base.as_str()) {
                match best {
                    None => {
                        proof {
                            lemma_text_lt_irreflexive(entries@[i as int].name@);
                        }
                        best = Some(i);
                    },
                    Some(k) => {
                        if text_less(entries[k].name.as_str(), entries[i].name.as_str()) {
                            proof {
                                let ni = entries@[i as int].name@;
                                let nk = entries@[k as int].name@;
                                lemma_text_lt_irreflexive(ni);
                                assert forall|j: int|
                                    0 <= j <= i && #[trigger] is_backup_of(
                                        entries@[j].name@,
                                        b,
                                    ) implies !text_lt(ni, entries@[j].name@) by {
                                    if j < i && text_lt(ni, entries@[j].name@) {
                                        lemma_text_lt_transitive(nk, ni, entries@[j].name@);
                                    }
                                }
                                assert forall|j: int|
                                    0 <= j < i && #[trigger] is_backup_of(
                                        entries@[j].name@,
                                        b,
                                    ) implies text_lt(entries@[j].name@, ni) by {
                                    let nj = entries@[j].name@;
                                    if nj != nk {
                                        lemma_text_lt_total(nj, nk);
                                        lemma_text_lt_transitive(nj, nk, ni);
                                    }
                                }
                            }
                            best = Some(i);
                        }
                    },
                }
            }
            i = i + 1;
        }
        Ok(best)
    }

    /// Whether the store's file `file_path` is due for a backup, given its
    /// modification time (`None` where it does not exist) and the entries
    /// of the backup directory. Fails with a `FileSystemError` where
    /// `file_path` is not a path inside the store.
    pub fn needs_backup(
        &self,
        file_path: &str,
        source_modified: Option<i128>,
        entries: &Vec<BackupEntry>,
    ) -> (r: Result<bool, AppError>)
        ensures
            !is_safe_relative(file_path@) ==> (r matches Err(AppError::FileSystemError(m)) && m@
                == "Invalid file path"@),
            is_safe_relative(file_path@) ==> r == Ok::<bool, AppError>(
                backup_due(source_modified, latest_modified(entries@, base_name(file_path@))),
            ),
    {
        let latest = match self.latest_backup_file(file_path, entries) {
            Err(e) => { return Err(e) },
            Ok(l) => l,
        };
        let ghost b = base_name(file_path@);
        match source_modified {
            None => Ok(false),
            Some(s) => match latest {
                None => Ok(true),
                Some(k) => {
                    proof {
                        let c = choose|c: int| is_latest(entries@, b, c);
                        lemma_latest_unique(entries@, b, c, k as int);
                    }
                    Ok(s > entries[k].modified)
                },
            },
        }
    }

    /// The copy that backs the store's file `file_path` up on day `stamp`,
    /// where it is due (see `needs_backup`): from the file to
    /// `<backup directory>/<file name>.<stamp>`, so that a later copy on the
    /// same day replaces the earlier one. Fails as `needs_backup` does, and
    /// with `BackupError` where a copy is due and `stamp` is not a date
    /// written `YYYYMMDD`.
    pub fn plan_backup(
        &self,
        file_path: &str,
        source_modified: Option<i128>,
        entries: &Vec<BackupEntry>,
        stamp: &str,
    ) -> (r: Result<Option<BackupCopy>, AppError>)
        ensures
            !is_safe_relative(file_path@) ==> (r matches Err(AppError::FileSystemError(m)) && m@
                == "Invalid file path"@),
            is_safe_relative(file_path@) ==> {
                let due = backup_due(
                    source_modified,
                    latest_modified(entries@, base_name(file_path@)),
                );
                &&& !due ==> r == Ok::<Option<BackupCopy>, AppError>(None)
                &&& due && !is_date_stamp(stamp@) ==> r == Err::<Option<BackupCopy>, AppError>(
                    AppError::BackupError,
                )
                &&& due && is_date_stamp(stamp@) ==> (r matches Ok(Some(c)) && c.source@ == join(
                    self.source_dir(),
                    file_path@,
                ) && c.target@ == join(
                    self.backup_dir(),
                    backup_name(base_name(file_path@), stamp@),
                ))
            },
    {
        match self.needs_backup(file_path, source_modified, entries) {
            Err(e) => Err(e),
            Ok(false) => Ok(None),
            Ok(true) => {
                if !date_stamp(stamp) {
                    return Err(AppError::BackupError);
                }
                proof {
                    reveal_strlit(".");
                }
                let name = file_name_of(file_path).concat(".").concat(stamp);
                assert(name@ =~= backup_name(base_name(file_path@), stamp@));
                let source = join_path(self.storage_base_path.as_str(), file_path);
                let target = join_path(self.backup_path.as_str(), name.as_str());
                Ok(Some(BackupCopy { source, target }))
            },
        }
    }

    /// The copy that backs the store's file `file_path` up today, where it
    /// is due. Fails as `plan_backup` does.
    pub fn plan_backup_today(
        &self,
        file_path: &str,
        source_modified: Option<i128>,
        entries: &Vec<BackupEntry>,
    ) -> (r: Result<Option<BackupCopy>, AppError>)
        ensures
            !is_safe_relative(file_path@) ==> (r matches Err(AppError::FileSystemError(m)) && m@
                == "Invalid file path"@),
            is_safe_relative(file_path@) ==> {
                let due = backup_due(
                    source_modified,
                    latest_modified(entries@, base_name(file_path@)),
                );
                &&& !due ==> r == Ok::<Option<BackupCopy>, AppError>(None)
                &&& due ==> (r == Err::<Option<BackupCopy>, AppError>(AppError::BackupError) || (
                r matches Ok(Some(c)) && c.source@ == join(self.source_dir(), file_path@) && exists|
                    stamp: Seq<char>,
                |
                    is_date_stamp(stamp) && c.target@ == join(
                        self.backup_dir(),
                        backup_name(base_name(file_path@), stamp),
                    )))
            },
    {
        let stamp = today_stamp();
        self.plan_backup(file_path, source_modified, entries, stamp.as_str())
    }
}

/// The store's paths that a full backup covers: the user and house
/// collections, then `house/<name>` for each name of `house_files` (the
/// files of the store's `house` directory) whose extension is `json`.
pub fn backup_sources(house_files: &Vec<String>) -> (r: Vec<String>)
    ensures
        r@.map_values(|s: String| s@) == backup_sources_of(house_files@),
{
    proof {
        reveal_strlit("user.json");
        reveal_strlit("house.json");
        reveal_strlit("json");
        reveal_strlit("house/");
    }
    let mut r: Vec<String> = Vec::new();
    r.push(String::from_str("user.json"));
    r.push(String::from_str("house.json"));
    assert(r@.map_values(|s: String| s@) =~= seq!["user.json"@, "house.json"@]);
    let mut i: usize = 0;
    while i < house_files.len()
        invariant
            i <= house_files.len(),
            r@.map_values(|s: String| s@) == seq!["user.json"@, "house.json"@]
                + house_files@.subrange(0, i as int).filter_map(|n: String| house_source(n)),
        decreases house_files.len() - i,
    {
        let ghost prefix = house_files@.subrange(0, i as int + 1);
        assert(prefix.drop_last() =~= house_files@.subrange(0, i as int));
        let name = house_files[i].as_str();
        let is_json = match extension(name) {
            Some(e) => text_eq(e.as_str(), "json"),
            None => false,
        };
        let ghost before = r@;
        assert(is_json == (extension_of(name@) == Some("json"@)));
        if is_json && safe_relative(name) {
            let p = String::from_str("house/").concat(name);
            r.push(p);
            assert(house_source(prefix.last()) == Some(p@));
            assert(prefix.filter_map(|n: String| house_source(n)) == prefix.drop_last().filter_map(|n: String| house_source(n)) + seq![p@]);
            assert(r@.map_values(|s: String| s@) =~= before.map_values(|s: String| s@).push(p@));
        } else {
            assert(house_source(prefix.last()) is None);
            assert(prefix.filter_map(|n: String| house_source(n)) == prefix.drop_last().filter_map(|n: String| house_source(n)));
        }
        i = i + 1;
        assert(r@.map_values(|s: String| s@) =~= seq!["user.json"@, "house.json"@]
            + prefix.filter_map(|n: String| house_source(n)));
    }
    assert(house_files@.subrange(0, i as int) =~= house_files@);
    r
}

/// The outcome of a batch whose steps were all attempted: the first
/// failure, or success where every step succeeded.
pub fn first_failure(results: Vec<Result<(), AppError>>) -> (r: Result<(), AppError>)
    ensures
        (forall|i: int| 0 <= i < results@.len() ==> (#[trigger] results@[i]) is Ok) ==> r is Ok,
        forall|i: int|
            0 <= i < results@.len() && (#[trigger] results@[i]) is Err && (forall|j: int|
                0 <= j < i ==> (#[trigger] results@[j]) is Ok) ==> r == results@[i],
{
    let mut k: usize = 0;
    while k < results.len()
        invariant
            k <= results.len(),
            forall|j: int| 0 <= j < k ==> (#[trigger] results@[j]) is Ok,
        decreases results.len() - k,
    {
        if results[k].is_err() {
            let ghost all = results@;
            proof {
                assert forall|i: int|
                    0 <= i < all.len() && (#[trigger] all[i]) is Err && (forall|j: int|
                        0 <= j < i ==> (#[trigger] all[j]) is Ok) implies i == k by {
                    if i < k {
                        assert(all[i] is Ok);
                    } else if k < i {
                        assert(all[k as int] is Ok);
                    }
                }
            }
            let mut v = results;
            return v.remove(k);
        }
        k = k + 1;
    }
    Ok(())
}

/// Backing a file up twice, with nothing changed in between, makes one
/// copy. Once the copy that a first backup made on day `stamp` is in the
/// backup directory, with a modification time no earlier than the
/// source's, a second backup finds nothing due, provided no backup of the
/// file is dated after `stamp`.
pub proof fn lemma_backup_idempotent(
    file_path: Seq<char>,
    source: i128,
    entries: Seq<BackupEntry>,
    stamp: Seq<char>,
    copy: BackupEntry,
)
    requires
        is_safe_relative(file_path),
        is_date_stamp(stamp),
        copy.name@ == backup_name(base_name(file_path), stamp),
        copy.modified >= source,
        forall|j: int|
            0 <= j < entries.len() && #[trigger] is_backup_of(entries[j].name@, base_name(file_path))
                ==> !text_lt(copy.name@, entries[j].name@),
    ensures
        latest_modified(with_copy(entries, copy), base_name(file_path)) == Some(copy.modified),
        !backup_due(Some(source), latest_modified(with_copy(entries, copy), base_name(file_path))),
{
    lemma_copy_is_latest(file_path, entries, stamp, copy);
}

/// A backup made after the source changed again copies it anew. Once the
/// copy that a first backup made on day `stamp` is in the backup directory,
/// a source modified later than that copy is due again, and a backup on the
/// same day replaces the same file.
pub proof fn lemma_backup_stale(
    file_path: Seq<char>,
    source: i128,
    entries: Seq<BackupEntry>,
    stamp: Seq<char>,
    copy: BackupEntry,
)
    requires
        is_safe_relative(file_path),
        is_date_stamp(stamp),
        copy.name@ == backup_name(base_name(file_path), stamp),
        source > copy.modified,
        forall|j: int|
            0 <= j < entries.len() && #[trigger] is_backup_of(entries[j].name@, base_name(file_path))
                ==> !text_lt(copy.name@, entries[j].name@),
    ensures
        backup_due(Some(source), latest_modified(with_copy(entries, copy), base_name(file_path))),
{
    lemma_copy_is_latest(file_path, entries, stamp, copy);
}

/// A source that does not exist is never due for a backup, whatever the
/// backup directory holds.
pub proof fn lemma_missing_source_not_due(entries: Seq<BackupEntry>, base: Seq<char>)
    ensures
        !backup_due(None, latest_modified(entries, base)),
{
}

proof fn lemma_copy_is_latest(
    file_path: Seq<char>,
    entries: Seq<BackupEntry>,
    stamp: Seq<char>,
    copy: BackupEntry,
)
    requires
        is_safe_relative(file_path),
        is_date_stamp(stamp),
        copy.name@ == backup_name(base_name(file_path), stamp),
        forall|j: int|
            0 <= j < entries.len() && #[trigger] is_backup_of(entries[j].name@, base_name(file_path))
                ==> !text_lt(copy.name@, entries[j].name@),
    ensures
        latest_modified(with_copy(entries, copy), base_name(file_path)) == Some(copy.modified),
{
    let b = base_name(file_path);
    let pred = |e: BackupEntry| e.name@ != copy.name@;
    let kept = entries.filter(pred);
    let after = with_copy(entries, copy);
    let last = after.len() - 1;
    assert(after == kept.push(copy));
    lemma_backup_name_is_backup(b, stamp);
    lemma_text_lt_irreflexive(copy.name@);
    assert(after[last] == copy);
    assert forall|j: int|
        0 <= j < after.len() && #[trigger] is_backup_of(after[j].name@, b) implies !text_lt(
        copy.name@,
        after[j].name@,
    ) by {
        if j < last {
            assert(after[j] == kept[j]);
            assert(kept.contains(kept[j]));
            entries.lemma_filter_contains_rev(pred, kept[j]);
            let k = choose|k: int| 0 <= k < entries.len() && entries[k] == kept[j];
            assert(is_backup_of(entries[k].name@, b));
        }
    }
    assert forall|j: int|
        0 <= j < last && #[trigger] is_backup_of(after[j].name@, b) implies text_lt(
        after[j].name@,
        copy.name@,
    ) by {
        assert(after[j] == kept[j]);
        assert(kept.contains(kept[j]));
        entries.lemma_filter_contains_rev(pred, kept[j]);
        entries.lemma_filter_pred(pred, j);
        let k = choose|k: int| 0 <= k < entries.len() && entries[k] == kept[j];
        assert(is_backup_of(entries[k].name@, b));
        assert(kept[j].name@ != copy.name@);
        lemma_text_lt_total(after[j].name@, copy.name@);
    }
    assert(is_latest(after, b, last));
    let c = choose|c: int| is_latest(after, b, c);
    lemma_latest_unique(after, b, c, last);
}

} // verus!
