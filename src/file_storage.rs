//! The document store: paths under its base directory, how failures are
//! reported, version-checked replacement, and the atomic write protocol.

use vstd::prelude::*;
use vstd::string::StringExecFns;
use crate::error::AppError;
use crate::house::HouseDetail;
use crate::paths::{dir_of, is_safe_relative, join, join_path, parent_dir, safe_relative};
use crate::text::text_eq;
use crate::token::new_token;
use crate::versioned::update_versioned;

verus! {

/// JSON documents stored as files under one base directory.
#[derive(Debug, Clone)]
pub struct FileStorage {
    base_path: String,
}

/// The stages of an atomic write: the target's directory is created, a
/// temporary file is created in it, the value is serialised, written to the
/// temporary file, and the temporary file is renamed onto the target.
#[derive(Debug, Clone, Copy, PartialEq, Eq)]
pub enum WriteStage {
    CreateDir,
    CreateTemp,
    Serialize,
    WriteTemp,
    Persist,
    Done,
    Failed,
}

/// What the caller performs next for an atomic write.
#[derive(Debug, Clone, PartialEq, Eq)]
pub enum WriteAction {
    /// Create this directory and its missing parents.
    CreateDir(String),
    /// Create a temporary file in this directory.
    CreateTemp(String),
    /// Serialise the value as pretty JSON.
    Serialize,
    /// Write the whole serialised value to the temporary file.
    WriteTemp,
    /// Rename the temporary file onto this path, in one step.
    Persist(String),
    /// Nothing is left to do.
    Finished,
}

/// An atomic write in progress: the target path, the directory that holds
/// it (where the temporary file goes), and the stage reached.
#[derive(Debug, Clone)]
pub struct AtomicWrite {
    target: String,
    dir: String,
    stage: WriteStage,
}

/// The stage after `s`, where its action succeeded (`ok`) or failed.
pub open spec fn next_stage(s: WriteStage, ok: bool) -> WriteStage {
    match s {
        WriteStage::Done => WriteStage::Done,
        WriteStage::Failed => WriteStage::Failed,
        _ => if !ok {
            WriteStage::Failed
        } else {
            match s {
                WriteStage::CreateDir => WriteStage::CreateTemp,
                WriteStage::CreateTemp => WriteStage::Serialize,
                WriteStage::Serialize => WriteStage::WriteTemp,
                WriteStage::WriteTemp => WriteStage::Persist,
                _ => WriteStage::Done,
            }
        },
    }
}

/// What the files hold: the target, and the temporary file where it exists.
pub struct FileModel {
    pub target: Option<Seq<u8>>,
    pub temp: Option<Seq<u8>>,
}

/// The files after the action of stage `s` succeeded (`ok`) or failed.
/// `data` is the serialised value; `written` is what an interrupted write
/// left in the temporary file. A rename is one step: it happens whole or
/// not at all.
pub open spec fn apply_stage(
    fs: FileModel,
    s: WriteStage,
    ok: bool,
    data: Seq<u8>,
    written: Seq<u8>,
) -> FileModel {
    match s {
        WriteStage::CreateTemp => if ok {
            FileModel { target: fs.target, temp: Some(Seq::empty()) }
        } else {
            fs
        },
        WriteStage::WriteTemp => FileModel {
            target: fs.target,
            temp: Some(if ok { data } else { written }),
        },
        WriteStage::Persist => if ok {
            FileModel { target: fs.temp, temp: None }
        } else {
            fs
        },
        _ => fs,
    }
}

/// The stage and files after the actions whose outcomes are `steps` (each
/// with what an interrupted write left), from stage `s` and files `fs`.
pub open spec fn run(s: WriteStage, fs: FileModel, steps: Seq<(bool, Seq<u8>)>, data: Seq<u8>) -> (
    WriteStage,
    FileModel,
)
    decreases steps.len(),
{
    if steps.len() == 0 {
        (s, fs)
    } else {
        run(
            next_stage(s, steps[0].0),
            apply_stage(fs, s, steps[0].0, data, steps[0].1),
            steps.drop_first(),
            data,
        )
    }
}

/// The failure that a failed action of stage `s` reports.
pub open spec fn stage_error(s: WriteStage, detail: String) -> AppError {
    match s {
        WriteStage::Serialize => AppError::ParseError(detail),
        _ => AppError::FileSystemError(detail),
    }
}

/// How a failed read is reported: `NotFound` where the file is absent,
/// `FileSystemError` otherwise.
pub open spec fn read_error_of(missing: bool, detail: String) -> AppError {
    if missing {
        AppError::NotFound
    } else {
        AppError::FileSystemError(detail)
    }
}

/// The failure that a read whose file was absent (`missing`) or could not
/// be read otherwise reports.
pub fn read_error(missing: bool, detail: String) -> (r: AppError)
    ensures
        r == read_error_of(missing, detail),
{
    if missing {
        AppError::NotFound
    } else {
        AppError::FileSystemError(detail)
    }
}

/// The failure of a document whose content is not the JSON of the type
/// that was read.
pub fn parse_error(detail: String) -> (r: AppError)
    ensures
        r == AppError::ParseError(detail),
{
    AppError::ParseError(detail)
}

/// The store's path of the document of house `house_id`.
pub fn house_detail_path(house_id: &str) -> (r: String)
    ensures
        r@ == "house/"@ + house_id@ + ".json"@,
{
    String::from_str("house/").concat(house_id).concat(".json")
}

impl FileStorage {
    /// The directory that holds the documents.
    pub closed spec fn base(&self) -> Seq<char> {
        self.base_path@
    }

    /// A store rooted at `base_path`.
    pub fn new(base_path: &str) -> (r: FileStorage)
        ensures
            r.base() == base_path@,
    {
        FileStorage { base_path: String::from_str(base_path) }
    }

    /// The full path of the store's document `path`. Fails with a
    /// `FileSystemError` where `path` would leave the base directory or names
    /// no file (it is empty, absolute, or has an empty, `.` or `..` segment).
    pub fn resolve(&self, path: &str) -> (r: Result<String, AppError>)
        ensures
            is_safe_relative(path@) ==> (r matches Ok(p) && p@ == join(self.base(), path@)),
            !is_safe_relative(path@) ==> (r matches Err(AppError::FileSystemError(m)) && m@
                == "Invalid file path"@),
    {
        if !safe_relative(path) {
            return Err(AppError::FileSystemError(String::from_str("Invalid file path")));
        }
        Ok(join_path(self.base_path.as_str(), path))
    }

    /// Starts an atomic write of the store's document `path`. Fails as
    /// `resolve` does.
    pub fn begin_write(&self, path: &str) -> (r: Result<AtomicWrite, AppError>)
        ensures
            is_safe_relative(path@) ==> (r matches Ok(w) && w.stage() == WriteStage::CreateDir
                && w.target() == join(self.base(), path@) && w.dir() == dir_of(self.base(), path@)),
            !is_safe_relative(path@) ==> (r matches Err(AppError::FileSystemError(m)) && m@
                == "Invalid file path"@),
    {
        match self.resolve(path) {
            Err(e) => Err(e),
            Ok(target) => {
                let dir = parent_dir(self.base_path.as_str(), path);
                Ok(AtomicWrite { target, dir, stage: WriteStage::CreateDir })
            },
        }
    }

    /// Whether a login's password is the stored one.
    pub fn verify_password(&self, password: &str, stored_password: &str) -> (r: Result<
        bool,
        AppError,
    >)
        ensures
            r == Ok::<bool, AppError>(password@ == stored_password@),
    {
        Ok(text_eq(password, stored_password))
    }

    /// The version-checked replacement of a house document: where the
    /// stored document `current` is at version `expected_version`, the
    /// document to store is `new_data` at a fresh version; otherwise the
    /// write is refused with `VersionMismatch`.
    pub fn write_house_detail(
        &self,
        current: &HouseDetail,
        new_data: HouseDetail,
        expected_version: &str,
    ) -> (r: Result<HouseDetail, AppError>)
        ensures
            current.version@ != expected_version@ ==> r == Err::<HouseDetail, AppError>(
                AppError::VersionMismatch,
            ),
            current.version@ == expected_version@ ==> (r matches Ok(d) && d.name == new_data.name
                && d.items == new_data.items),
    {
        let v = new_token();
        update_versioned(current, expected_version, new_data, v)
    }
}

impl AtomicWrite {
    pub closed spec fn stage(&self) -> WriteStage {
        self.stage
    }

    pub closed spec fn target(&self) -> Seq<char> {
        self.target@
    }

    pub closed spec fn dir(&self) -> Seq<char> {
        self.dir@
    }

    /// What the caller performs next.
    pub fn next_action(&self) -> (r: WriteAction)
        ensures
            match self.stage() {
                WriteStage::CreateDir => r matches WriteAction::CreateDir(d) && d@ == self.dir(),
                WriteStage::CreateTemp => r matches WriteAction::CreateTemp(d) && d@ == self.dir(),
                WriteStage::Serialize => r == WriteAction::Serialize,
                WriteStage::WriteTemp => r == WriteAction::WriteTemp,
                WriteStage::Persist => r matches WriteAction::Persist(t) && t@ == self.target(),
                _ => r == WriteAction::Finished,
            },
    {
        match self.stage {
            WriteStage::CreateDir => WriteAction::CreateDir(self.dir.clone()),
            WriteStage::CreateTemp => WriteAction::CreateTemp(self.dir.clone()),
            WriteStage::Serialize => WriteAction::Serialize,
            WriteStage::WriteTemp => WriteAction::WriteTemp,
            WriteStage::Persist => WriteAction::Persist(self.target.clone()),
            _ => WriteAction::Finished,
        }
    }

    /// Records the outcome of the last action: on success the write moves
    /// to its next stage; on failure it stops and the failure is returned
    /// (a `ParseError` where serialisation failed, a `FileSystemError`
    /// otherwise). A finished write ignores further outcomes.
    pub fn advance(&mut self, outcome: Result<(), String>) -> (r: Result<(), AppError>)
        ensures
            final(self).stage() == next_stage(old(self).stage(), outcome is Ok),
            final(self).target() == old(self).target(),
            final(self).dir() == old(self).dir(),
            old(self).stage() == WriteStage::Done || old(self).stage() == WriteStage::Failed
                ==> r == Ok::<(), AppError>(()),
            !(old(self).stage() == WriteStage::Done || old(self).stage() == WriteStage::Failed)
                ==> match outcome {
                Ok(_) => r == Ok::<(), AppError>(()),
                Err(d) => r == Err::<(), AppError>(stage_error(old(self).stage(), d)),
            },
    {
        match self.stage {
            WriteStage::Done => { return Ok(()) },
            WriteStage::Failed => { return Ok(()) },
            _ => {},
        }
        match outcome {
            Err(d) => {
                let e = match self.stage {
                    WriteStage::Serialize => AppError::ParseError(d),
                    _ => AppError::FileSystemError(d),
                };
                self.stage = WriteStage::Failed;
                Err(e)
            },
            Ok(()) => {
                self.stage =
                match self.stage {
                    WriteStage::CreateDir => WriteStage::CreateTemp,
                    WriteStage::CreateTemp => WriteStage::Serialize,
                    WriteStage::Serialize => WriteStage::WriteTemp,
                    WriteStage::WriteTemp => WriteStage::Persist,
                    _ => WriteStage::Done,
                };
                Ok(())
            },
        }
    }

    /// Whether the write has completed.
    pub fn is_done(&self) -> (r: bool)
        ensures
            r == (self.stage() == WriteStage::Done),
    {
        matches!(self.stage, WriteStage::Done)
    }
}

/// Atomicity of a write: whatever actions succeed or fail, and wherever the
/// write stops or is interrupted, the target holds its previous content
/// until the write is done, and the whole new content once it is. A reader
/// never sees a partly written target.
pub proof fn lemma_write_atomic(
    old_content: Option<Seq<u8>>,
    data: Seq<u8>,
    steps: Seq<(bool, Seq<u8>)>,
)
    ensures
        ({
            let (s, fs) = run(
                WriteStage::CreateDir,
                FileModel { target: old_content, temp: None },
                steps,
                data,
            );
            &&& s == WriteStage::Done ==> fs.target == Some(data)
            &&& s != WriteStage::Done ==> fs.target == old_content
        }),
{
    lemma_run_keeps(WriteStage::CreateDir, FileModel { target: old_content, temp: None }, steps, old_content, data);
}

/// What holds at every stage of a write: the target is replaced only by a
/// successful rename, and only a completely written temporary file is
/// renamed.
pub open spec fn write_invariant(
    s: WriteStage,
    fs: FileModel,
    old_content: Option<Seq<u8>>,
    data: Seq<u8>,
) -> bool {
    &&& s == WriteStage::Done ==> fs.target == Some(data)
    &&& s != WriteStage::Done ==> fs.target == old_content
    &&& s == WriteStage::Persist ==> fs.temp == Some(data)
}

proof fn lemma_run_keeps(
    s: WriteStage,
    fs: FileModel,
    steps: Seq<(bool, Seq<u8>)>,
    old_content: Option<Seq<u8>>,
    data: Seq<u8>,
)
    requires
        write_invariant(s, fs, old_content, data),
    ensures
        ({
            let (s2, fs2) = run(s, fs, steps, data);
            write_invariant(s2, fs2, old_content, data)
        }),
    decreases steps.len(),
{
    if steps.len() > 0 {
        let ok = steps[0].0;
        lemma_run_keeps(
            next_stage(s, ok),
            apply_stage(fs, s, ok, data, steps[0].1),
            steps.drop_first(),
            old_content,
            data,
        );
    }
}

} // verus!
