//! Rewriting and removing artifacts: the steps to carry out, in order, with
//! the copy of the present content always first.

use crate::backup::{
    backup_location, backup_view, create_backup, lemma_backup_is_a_separate_copy, planned_backup,
    text_of, Backup, BackupModel,
};
use crate::error::Error;
use crate::identity::{generate_random_ids, IdentityModel, IdentitySet};
use crate::paths::{ArtifactPath, PathModel};
use crate::record::{
    no_fields, pretty_text, starting_fields, updated_storage_text, with_identity,
};
use vstd::prelude::*;

verus! {

/// What was found at an artifact's location, as text.
pub enum SnapshotModel {
    Absent,
    Present(Seq<char>),
    Unreadable,
}

/// What was found at an artifact's location.
#[derive(Debug, Clone, PartialEq, Eq)]
pub enum Snapshot {
    /// No file is there.
    Absent,
    /// A file is there, with this content.
    Present(String),
    /// A file is there, but its content could not be read.
    Unreadable,
}

impl View for Snapshot {
    type V = SnapshotModel;

    open spec fn view(&self) -> SnapshotModel {
        match self {
            Snapshot::Absent => SnapshotModel::Absent,
            Snapshot::Present(content) => SnapshotModel::Present(content@),
            Snapshot::Unreadable => SnapshotModel::Unreadable,
        }
    }
}

/// One file operation, as text.
pub enum StepModel {
    WriteBackup(BackupModel),
    CreateFolders(PathModel),
    Write { path: PathModel, content: Seq<char> },
    Remove(PathModel),
}

/// One file operation for the caller to carry out.
#[derive(Debug, Clone, PartialEq, Eq)]
pub enum Step {
    /// Write the copy of the artifact's present content.
    WriteBackup(Backup),
    /// Create the folders that lead to the artifact, as far as they are
    /// missing.
    CreateFolders(ArtifactPath),
    /// Replace the artifact's whole content.
    Write { path: ArtifactPath, content: String },
    /// Remove the artifact.
    Remove(ArtifactPath),
}

impl View for Step {
    type V = StepModel;

    open spec fn view(&self) -> StepModel {
        match self {
            Step::WriteBackup(backup) => StepModel::WriteBackup(backup@),
            Step::CreateFolders(path) => StepModel::CreateFolders(path@),
            Step::Write { path, content } => StepModel::Write { path: path@, content: content@ },
            Step::Remove(path) => StepModel::Remove(path@),
        }
    }
}

/// The steps of a list, as text.
pub open spec fn steps_view(steps: Seq<Step>) -> Seq<StepModel> {
    Seq::new(steps.len(), |i: int| steps[i]@)
}

/// The outcome of planning, as text.
pub open spec fn plan_view(plan: Result<Vec<Step>, Error>) -> Result<Seq<StepModel>, Error> {
    match plan {
        Ok(steps) => Ok(steps_view(steps@)),
        Err(e) => Err(e),
    }
}

/// The present content, where there is a file whose content was read.
pub open spec fn existing_text(snapshot: SnapshotModel) -> Option<Seq<char>> {
    match snapshot {
        SnapshotModel::Present(content) => Some(content),
        _ => None,
    }
}

/// The step that writes the copy, where one is due.
pub open spec fn backup_steps(backup: Option<BackupModel>) -> Seq<StepModel> {
    match backup {
        Some(backup) => seq![StepModel::WriteBackup(backup)],
        None => Seq::empty(),
    }
}

/// The steps that replace an artifact's content: the copy where one is due,
/// then the folders, then the new content.
pub open spec fn replacement_steps(
    path: PathModel,
    backup: Option<BackupModel>,
    content: Seq<char>,
) -> Seq<StepModel> {
    backup_steps(backup) + seq![StepModel::CreateFolders(path), StepModel::Write { path, content }]
}

/// The steps that remove an artifact: the copy where one is due, then the
/// removal.
pub open spec fn removal_steps(path: PathModel, backup: Option<BackupModel>) -> Seq<StepModel> {
    backup_steps(backup) + seq![StepModel::Remove(path)]
}

/// The plan that replaces an artifact's content with `content`, the copy
/// stamped `stamp`. An artifact that cannot be read is not touched.
pub open spec fn replacement_plan(
    path: PathModel,
    snapshot: SnapshotModel,
    content: Seq<char>,
    stamp: Seq<char>,
) -> Result<Seq<StepModel>, Error> {
    match snapshot {
        SnapshotModel::Unreadable => Err(Error::BackupFailed),
        _ => Ok(
            replacement_steps(path, planned_backup(path, existing_text(snapshot), stamp), content),
        ),
    }
}

/// The plan that rewrites the plain-text identifier file: its whole content
/// becomes the primary identifier.
pub open spec fn machine_id_plan(
    path: PathModel,
    snapshot: SnapshotModel,
    ids: IdentityModel,
    stamp: Seq<char>,
) -> Result<Seq<StepModel>, Error> {
    replacement_plan(path, snapshot, ids.primary, stamp)
}

/// The plan that rewrites the structured record: its present fields, where
/// it has any, with the three identifiers written over them.
pub open spec fn storage_plan(
    path: PathModel,
    snapshot: SnapshotModel,
    ids: IdentityModel,
    stamp: Seq<char>,
) -> Result<Seq<StepModel>, Error> {
    replacement_plan(
        path,
        snapshot,
        pretty_text(with_identity(starting_fields(existing_text(snapshot)), ids)),
        stamp,
    )
}

/// The plan that removes the plain-text identifier file.
pub open spec fn delete_plan(path: PathModel, snapshot: SnapshotModel, stamp: Seq<char>) -> Result<
    Seq<StepModel>,
    Error,
> {
    match snapshot {
        SnapshotModel::Unreadable => Err(Error::BackupFailed),
        _ => Ok(removal_steps(path, planned_backup(path, existing_text(snapshot), stamp))),
    }
}

/// What the failure of a step means: the error that ends the operation, or
/// nothing where the operation goes on.
pub open spec fn failure(step: StepModel) -> Option<Error> {
    match step {
        StepModel::WriteBackup(_) => Some(Error::BackupFailed),
        StepModel::CreateFolders(_) => None,
        StepModel::Write { .. } => Some(Error::WriteFailed),
        StepModel::Remove(_) => Some(Error::RemoveFailed),
    }
}

/// Whether the step changes or removes the file at `path`.
pub open spec fn destroys(step: StepModel, path: PathModel) -> bool {
    match step {
        StepModel::Write { path: target, .. } => target == path,
        StepModel::Remove(target) => target == path,
        StepModel::WriteBackup(backup) => backup.path == path,
        StepModel::CreateFolders(_) => false,
    }
}

impl Snapshot {
    /// The present content, where there is a file whose content was read.
    pub fn content(&self) -> (res: Option<&str>)
        ensures
            text_of(res) == existing_text(self@),
    {
        match self {
            Snapshot::Present(content) => Some(content.as_str()),
            _ => None,
        }
    }
}

/// What the failure of `step` means: the error that ends the operation, or
/// nothing where the operation goes on. Only a failure to create folders is
/// passed over.
pub fn failure_of(step: &Step) -> (res: Option<Error>)
    ensures
        res == failure(step@),
{
    match step {
        Step::WriteBackup(_) => Some(Error::BackupFailed),
        Step::CreateFolders(_) => None,
        Step::Write { .. } => Some(Error::WriteFailed),
        Step::Remove(_) => Some(Error::RemoveFailed),
    }
}

/// The steps that replace the content of the artifact at `path`.
pub fn replace_steps(path: &ArtifactPath, backup: Option<Backup>, content: String) -> (steps: Vec<
    Step,
>)
    ensures
        steps_view(steps@) == replacement_steps(path@, backup_view(backup), content@),
{
    let mut steps: Vec<Step> = Vec::new();
    if let Some(backup) = backup {
        steps.push(Step::WriteBackup(backup));
    }
    steps.push(Step::CreateFolders(path.duplicate()));
    steps.push(Step::Write { path: path.duplicate(), content });
    assert(steps_view(steps@) =~= replacement_steps(path@, backup_view(backup), content@));
    steps
}

/// The steps that remove the artifact at `path`.
pub fn remove_steps(path: &ArtifactPath, backup: Option<Backup>) -> (steps: Vec<Step>)
    ensures
        steps_view(steps@) == removal_steps(path@, backup_view(backup)),
{
    let mut steps: Vec<Step> = Vec::new();
    if let Some(backup) = backup {
        steps.push(Step::WriteBackup(backup));
    }
    steps.push(Step::Remove(path.duplicate()));
    assert(steps_view(steps@) =~= removal_steps(path@, backup_view(backup)));
    steps
}

/// Plans the replacement of an artifact's content. The copy of the present
/// content, where there is any, is stamped with the current local time. An
/// artifact that exists but could not be read is not touched.
pub fn replace_content(path: &ArtifactPath, snapshot: &Snapshot, content: String) -> (plan: Result<
    Vec<Step>,
    Error,
>)
    ensures
        exists|stamp: Seq<char>|
            plan_view(plan) == #[trigger] replacement_plan(path@, snapshot@, content@, stamp),
{
    match snapshot {
        Snapshot::Unreadable => {
            assert(plan_view(Err(Error::BackupFailed)) == replacement_plan(
                path@,
                snapshot@,
                content@,
                Seq::empty(),
            ));
            Err(Error::BackupFailed)
        },
        _ => {
            let backup = create_backup(path, snapshot.content());
            let ghost stamp = choose|stamp: Seq<char>|
                backup_view(backup) == #[trigger] planned_backup(
                    path@,
                    existing_text(snapshot@),
                    stamp,
                );
            let steps = replace_steps(path, backup, content);
            assert(plan_view(Ok(steps)) == replacement_plan(path@, snapshot@, content@, stamp));
            Ok(steps)
        },
    }
}

/// Plans the rewriting of the plain-text identifier file: its whole content
/// becomes the primary identifier.
pub fn update_machine_id(path: &ArtifactPath, snapshot: &Snapshot, ids: &IdentitySet) -> (plan:
    Result<Vec<Step>, Error>)
    ensures
        exists|stamp: Seq<char>|
            plan_view(plan) == #[trigger] machine_id_plan(path@, snapshot@, ids@, stamp),
{
    let plan = replace_content(path, snapshot, ids.primary_id().to_owned());
    proof {
        let stamp = choose|stamp: Seq<char>|
            plan_view(plan) == #[trigger] replacement_plan(path@, snapshot@, ids@.primary, stamp);
        assert(plan_view(plan) == machine_id_plan(path@, snapshot@, ids@, stamp));
    }
    plan
}

/// Plans the rewriting of the structured record: the present fields, where
/// the content is a JSON object, with the three identifiers written over
/// them; the three identifiers alone where the record is missing or holds
/// anything else.
pub fn update_storage(path: &ArtifactPath, snapshot: &Snapshot, ids: &IdentitySet) -> (plan: Result<
    Vec<Step>,
    Error,
>)
    ensures
        exists|stamp: Seq<char>|
            plan_view(plan) == #[trigger] storage_plan(path@, snapshot@, ids@, stamp),
{
    let content = updated_storage_text(snapshot.content(), ids);
    let plan = replace_content(path, snapshot, content);
    proof {
        let stamp = choose|stamp: Seq<char>|
            plan_view(plan) == #[trigger] replacement_plan(path@, snapshot@, content@, stamp);
        assert(plan_view(plan) == storage_plan(path@, snapshot@, ids@, stamp));
    }
    plan
}

/// Plans the removal of the plain-text identifier file, its copy first. The
/// caller asks the user before it carries the plan out.
pub fn delete_machine_id(path: &ArtifactPath, snapshot: &Snapshot) -> (plan: Result<
    Vec<Step>,
    Error,
>)
    ensures
        exists|stamp: Seq<char>| plan_view(plan) == #[trigger] delete_plan(path@, snapshot@, stamp),
{
    match snapshot {
        Snapshot::Unreadable => {
            assert(plan_view(Err(Error::BackupFailed)) == delete_plan(
                path@,
                snapshot@,
                Seq::empty(),
            ));
            Err(Error::BackupFailed)
        },
        _ => {
            let backup = create_backup(path, snapshot.content());
            let ghost stamp = choose|stamp: Seq<char>|
                backup_view(backup) == #[trigger] planned_backup(
                    path@,
                    existing_text(snapshot@),
                    stamp,
                );
            let steps = remove_steps(path, backup);
            assert(plan_view(Ok(steps)) == delete_plan(path@, snapshot@, stamp));
            Ok(steps)
        },
    }
}

/// A new identity with the plans that write it to the two artifacts. The
/// storage plan is to be carried out after the machine-id plan, and only if
/// that one did not fail.
pub struct Regeneration {
    pub ids: IdentitySet,
    pub machine_id: Result<Vec<Step>, Error>,
    pub storage: Result<Vec<Step>, Error>,
}

/// Makes a new identity and plans its writing to both artifacts: the primary
/// identifier to the plain-text file, all three identifiers to the
/// structured record. Each artifact is given by its resolved location and by
/// what was found there.
pub fn generate_random_id(
    machine_id_path: &ArtifactPath,
    machine_id: &Snapshot,
    storage_path: &ArtifactPath,
    storage: &Snapshot,
) -> (out: Regeneration)
    ensures
        out.ids@.consistent(),
        exists|stamp: Seq<char>|
            plan_view(out.machine_id) == #[trigger] machine_id_plan(
                machine_id_path@,
                machine_id@,
                out.ids@,
                stamp,
            ),
        exists|stamp: Seq<char>|
            plan_view(out.storage) == #[trigger] storage_plan(
                storage_path@,
                storage@,
                out.ids@,
                stamp,
            ),
{
    let ids = generate_random_ids();
    let machine_id = update_machine_id(machine_id_path, machine_id, &ids);
    let storage = update_storage(storage_path, storage, &ids);
    Regeneration { ids, machine_id, storage }
}

/// Where an artifact exists, every plan for it starts by writing the copy of
/// its present content, unchanged and under another name; the failure of
/// that step ends the operation; and no later step touches the copy. So the
/// artifact is never overwritten or removed without a copy of it on disk.
pub proof fn lemma_copy_comes_first(
    path: PathModel,
    content: Seq<char>,
    ids: IdentityModel,
    stamp: Seq<char>,
)
    ensures
        ({
            let copy = BackupModel { path: backup_location(path, stamp), content };
            let present = SnapshotModel::Present(content);
            let plans = seq![
                machine_id_plan(path, present, ids, stamp),
                storage_plan(path, present, ids, stamp),
                delete_plan(path, present, stamp),
            ];
            forall|k: int|
                0 <= k < 3 ==> {
                    let plan = #[trigger] plans[k];
                    &&& plan is Ok
                    &&& plan->Ok_0.len() >= 2
                    &&& plan->Ok_0[0] == StepModel::WriteBackup(copy)
                    &&& !destroys(plan->Ok_0[0], path)
                    &&& failure(plan->Ok_0[0]) == Some(Error::BackupFailed)
                    &&& forall|i: int|
                        1 <= i < plan->Ok_0.len() ==> !destroys(
                            #[trigger] plan->Ok_0[i],
                            copy.path,
                        )
                }
        }),
{
    lemma_backup_is_a_separate_copy(path, Some(content), stamp);
}

/// An artifact that exists but cannot be read is left alone: every plan for
/// it fails before any step.
pub proof fn lemma_unreadable_is_untouched(path: PathModel, ids: IdentityModel, stamp: Seq<char>)
    ensures
        machine_id_plan(path, SnapshotModel::Unreadable, ids, stamp) == Err::<
            Seq<StepModel>,
            Error,
        >(Error::BackupFailed),
        storage_plan(path, SnapshotModel::Unreadable, ids, stamp) == Err::<Seq<StepModel>, Error>(
            Error::BackupFailed,
        ),
        delete_plan(path, SnapshotModel::Unreadable, stamp) == Err::<Seq<StepModel>, Error>(
            Error::BackupFailed,
        ),
{
}

/// Where no artifact exists, an update creates it: the folders first, then
/// the content, and no copy is taken.
pub proof fn lemma_absent_is_created(path: PathModel, ids: IdentityModel, stamp: Seq<char>)
    ensures
        machine_id_plan(path, SnapshotModel::Absent, ids, stamp) == Ok::<Seq<StepModel>, Error>(
            seq![
                StepModel::CreateFolders(path),
                StepModel::Write { path, content: ids.primary },
            ],
        ),
        storage_plan(path, SnapshotModel::Absent, ids, stamp) == Ok::<Seq<StepModel>, Error>(
            seq![
                StepModel::CreateFolders(path),
                StepModel::Write {
                    path,
                    content: pretty_text(with_identity(no_fields(), ids)),
                },
            ],
        ),
{
    assert(replacement_steps(path, None, ids.primary) =~= seq![
        StepModel::CreateFolders(path),
        StepModel::Write { path, content: ids.primary },
    ]);
    let text = pretty_text(with_identity(no_fields(), ids));
    assert(replacement_steps(path, None, text) =~= seq![
        StepModel::CreateFolders(path),
        StepModel::Write { path, content: text },
    ]);
}

/// What a step does to the files on disk when it succeeds. The files are
/// given as a map from each existing file's location to its content.
pub open spec fn after_step(files: Map<PathModel, Seq<char>>, step: StepModel) -> Map<
    PathModel,
    Seq<char>,
> {
    match step {
        StepModel::WriteBackup(backup) => files.insert(backup.path, backup.content),
        StepModel::CreateFolders(_) => files,
        StepModel::Write { path, content } => files.insert(path, content),
        StepModel::Remove(path) => files.remove(path),
    }
}

/// What a list of steps does to the files on disk when each succeeds.
pub open spec fn after_steps(files: Map<PathModel, Seq<char>>, steps: Seq<StepModel>) -> Map<
    PathModel,
    Seq<char>,
>
    decreases steps.len(),
{
    if steps.len() == 0 {
        files
    } else {
        after_steps(after_step(files, steps.first()), steps.drop_first())
    }
}

/// What is found at `path` among the files.
pub open spec fn snapshot_at(files: Map<PathModel, Seq<char>>, path: PathModel) -> SnapshotModel {
    if files.contains_key(path) {
        SnapshotModel::Present(files[path])
    } else {
        SnapshotModel::Absent
    }
}

/// Carrying out a replacement leaves the new content at the artifact's
/// location, the former content, where there was any, at the copy's
/// location, and every other file as it was.
pub proof fn lemma_replacement_effect(
    files: Map<PathModel, Seq<char>>,
    path: PathModel,
    content: Seq<char>,
    stamp: Seq<char>,
)
    ensures
        ({
            let plan = replacement_plan(path, snapshot_at(files, path), content, stamp);
            let copy = backup_location(path, stamp);
            &&& plan is Ok
            &&& ({
                let after = after_steps(files, plan->Ok_0);
                &&& after.contains_key(path) && after[path] == content
                &&& files.contains_key(path) ==> after.contains_key(copy) && after[copy]
                    == files[path]
                &&& forall|other: PathModel|
                    other != path && other != copy ==> (#[trigger] after.contains_key(other)
                        == files.contains_key(other)) && (files.contains_key(other) ==> after[other]
                        == files[other])
            })
        }),
{
    reveal_with_fuel(after_steps, 4);
    lemma_backup_is_a_separate_copy(path, Some(files[path]), stamp);
    let plan = replacement_plan(path, snapshot_at(files, path), content, stamp);
    let steps = plan->Ok_0;
    if files.contains_key(path) {
        assert(steps.drop_first().drop_first().drop_first().len() == 0);
    } else {
        assert(steps.drop_first().drop_first().len() == 0);
    }
}

/// Carrying out a removal of an existing artifact leaves no file at its
/// location, its former content at the copy's location, and every other
/// file as it was.
pub proof fn lemma_removal_effect(
    files: Map<PathModel, Seq<char>>,
    path: PathModel,
    stamp: Seq<char>,
)
    requires
        files.contains_key(path),
    ensures
        ({
            let plan = delete_plan(path, snapshot_at(files, path), stamp);
            let copy = backup_location(path, stamp);
            &&& plan is Ok
            &&& ({
                let after = after_steps(files, plan->Ok_0);
                &&& !after.contains_key(path)
                &&& after.contains_key(copy) && after[copy] == files[path]
                &&& forall|other: PathModel|
                    other != path && other != copy ==> (#[trigger] after.contains_key(other)
                        == files.contains_key(other)) && (files.contains_key(other) ==> after[other]
                        == files[other])
            })
        }),
{
    reveal_with_fuel(after_steps, 3);
    lemma_backup_is_a_separate_copy(path, Some(files[path]), stamp);
    let plan = delete_plan(path, snapshot_at(files, path), stamp);
    assert(plan->Ok_0.drop_first().drop_first().len() == 0);
}

} // verus!
