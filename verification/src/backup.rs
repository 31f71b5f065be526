//! Copies taken before an artifact is overwritten or removed: where the copy
//! goes and what it holds.

use crate::paths::{copy_names, ArtifactPath, PathModel};
use vstd::prelude::*;

verus! {

/// A copy to be written: where, and with what content.
pub struct BackupModel {
    pub path: PathModel,
    pub content: Seq<char>,
}

/// A copy of an artifact's content, to be written beside the artifact.
#[derive(Debug, Clone, PartialEq, Eq)]
pub struct Backup {
    pub path: ArtifactPath,
    pub content: String,
}

impl View for Backup {
    type V = BackupModel;

    open spec fn view(&self) -> BackupModel {
        BackupModel { path: self.path@, content: self.content@ }
    }
}

/// The text of an optional string.
pub open spec fn text_of(s: Option<&str>) -> Option<Seq<char>> {
    match s {
        Some(s) => Some(s@),
        None => None,
    }
}

/// The model of an optional copy.
pub open spec fn backup_view(b: Option<Backup>) -> Option<BackupModel> {
    match b {
        Some(b) => Some(b@),
        None => None,
    }
}

/// The name of a copy: the artifact's name, `_backup_`, and the time stamp.
pub open spec fn backup_name(name: Seq<char>, stamp: Seq<char>) -> Seq<char> {
    name + "_backup_"@ + stamp
}

/// Where the copy goes: the artifact's directory, under the copy's name.
pub open spec fn backup_location(path: PathModel, stamp: Seq<char>) -> PathModel {
    PathModel {
        base: path.base,
        folders: path.folders,
        file_name: backup_name(path.file_name, stamp),
    }
}

/// The copy that is due: none for an artifact that does not exist, else the
/// unchanged content under the copy's name.
pub open spec fn planned_backup(
    path: PathModel,
    existing: Option<Seq<char>>,
    stamp: Seq<char>,
) -> Option<BackupModel> {
    match existing {
        None => None,
        Some(content) => Some(BackupModel { path: backup_location(path, stamp), content }),
    }
}

/// The current local time from `chrono::Local::now`, printed by chrono with
/// the format `%Y%m%d_%H%M%S`: year, month, day, an underscore, hour, minute
/// and second. It depends on the clock and the time zone, so nothing is
/// claimed of it.
#[verifier::external_body]
fn local_timestamp() -> String {
    chrono::Local::now().format("%Y%m%d_%H%M%S").to_string()
}

/// The file name of a copy taken at `stamp`.
pub fn backup_file_name(name: &str, stamp: &str) -> (out: String)
    ensures
        out@ == backup_name(name@, stamp@),
{
    let mut out = name.to_owned();
    out.append("_backup_");
    out.append(stamp);
    out
}

/// Where the copy of the artifact at `path` taken at `stamp` goes.
pub fn backup_path(path: &ArtifactPath, stamp: &str) -> (out: ArtifactPath)
    ensures
        out@ == backup_location(path@, stamp@),
{
    ArtifactPath {
        base: path.base.clone(),
        folders: copy_names(&path.folders),
        file_name: backup_file_name(path.file_name.as_str(), stamp),
    }
}

/// Plans the copy of an artifact with the given time stamp. `existing` is
/// the artifact's present content, absent where the artifact does not exist.
pub fn plan_backup(path: &ArtifactPath, existing: Option<&str>, stamp: &str) -> (res: Option<
    Backup,
>)
    ensures
        backup_view(res) == planned_backup(path@, text_of(existing), stamp@),
{
    match existing {
        None => None,
        Some(content) => Some(
            Backup { path: backup_path(path, stamp), content: content.to_owned() },
        ),
    }
}

/// Plans the copy of an artifact, stamped with the current local time.
/// `existing` is the artifact's present content, absent where the artifact
/// does not exist; then nothing is to be copied.
pub fn create_backup(path: &ArtifactPath, existing: Option<&str>) -> (res: Option<Backup>)
    ensures
        exists|stamp: Seq<char>|
            backup_view(res) == #[trigger] planned_backup(path@, text_of(existing), stamp),
{
    match existing {
        None => {
            assert(backup_view(None) == planned_backup(path@, text_of(existing), Seq::empty()));
            None
        },
        Some(_) => {
            let stamp = local_timestamp();
            plan_backup(path, existing, stamp.as_str())
        },
    }
}

/// Nothing is copied of an artifact that does not exist. Of one that exists
/// the copy holds the content unchanged and goes to the same directory under
/// another name, so that writing it leaves the artifact as it was.
pub proof fn lemma_backup_is_a_separate_copy(
    path: PathModel,
    existing: Option<Seq<char>>,
    stamp: Seq<char>,
)
    ensures
        existing is None ==> planned_backup(path, existing, stamp) is None,
        existing matches Some(content) ==> {
            let copy = planned_backup(path, existing, stamp);
            &&& copy is Some
            &&& copy->0.content == content
            &&& copy->0.path.base == path.base
            &&& copy->0.path.folders == path.folders
            &&& copy->0.path.file_name != path.file_name
            &&& copy->0.path != path
        },
{
    reveal_strlit("_backup_");
    assert(backup_name(path.file_name, stamp).len() == path.file_name.len() + 8 + stamp.len());
}

} // verus!
