//! Where the identity artifacts live: the candidate locations under the
//! user's base directory, in probing order, and the choice among them.

use crate::error::Error;
use crate::text::owned_text;
use vstd::prelude::*;

verus! {

/// The family of operating system the program runs on.
#[derive(Debug, Clone, Copy, PartialEq, Eq, Structural)]
pub enum Platform {
    Windows,
    /// Linux, macOS and every other system.
    Other,
}

/// The two identity artifacts.
#[derive(Debug, Clone, Copy, PartialEq, Eq, Structural)]
pub enum ArtifactKind {
    /// The JSON object that holds the three managed keys among others.
    StructuredRecord,
    /// The file whose whole content is the primary identifier.
    PlainId,
}

/// The install layouts, in probing order.
#[derive(Debug, Clone, Copy, PartialEq, Eq, Structural)]
pub enum Layout {
    /// The current layout; also the default when nothing is found.
    Canonical,
    /// The layout of other installations.
    Alternate,
}

/// A path as text: a base directory, the folders below it, and a file name.
pub struct PathModel {
    pub base: Seq<char>,
    pub folders: Seq<Seq<char>>,
    pub file_name: Seq<char>,
}

/// The location of an artifact: a base directory, the folders below it in
/// order, and the file's name.
#[derive(Debug, Clone, PartialEq, Eq)]
pub struct ArtifactPath {
    pub base: String,
    pub folders: Vec<String>,
    pub file_name: String,
}

/// The texts of a list of strings.
pub open spec fn texts(names: Seq<String>) -> Seq<Seq<char>> {
    Seq::new(names.len(), |i: int| names[i]@)
}

impl View for ArtifactPath {
    type V = PathModel;

    open spec fn view(&self) -> PathModel {
        PathModel { base: self.base@, folders: texts(self.folders@), file_name: self.file_name@ }
    }
}

/// The application's own folders below the base directory.
pub open spec fn install_folders(platform: Platform, layout: Layout) -> Seq<Seq<char>> {
    match (platform, layout) {
        (Platform::Windows, Layout::Canonical) => seq!["Programs"@, "cursor"@],
        (Platform::Windows, Layout::Alternate) => seq!["cursor"@],
        (_, Layout::Canonical) => seq!["Cursor"@],
        (_, Layout::Alternate) => seq![".cursor"@],
    }
}

/// The folders that lead from the application's folder to the artifact.
pub open spec fn artifact_folders(kind: ArtifactKind) -> Seq<Seq<char>> {
    match kind {
        ArtifactKind::StructuredRecord => seq!["User"@, "globalStorage"@],
        ArtifactKind::PlainId => Seq::empty(),
    }
}

/// The artifact's file name.
pub open spec fn artifact_file_name(kind: ArtifactKind) -> Seq<char> {
    match kind {
        ArtifactKind::StructuredRecord => "storage.json"@,
        ArtifactKind::PlainId => "machineid"@,
    }
}

/// Where an artifact lies under `base` in the given layout.
pub open spec fn candidate(
    base: Seq<char>,
    kind: ArtifactKind,
    platform: Platform,
    layout: Layout,
) -> PathModel {
    PathModel {
        base,
        folders: install_folders(platform, layout) + artifact_folders(kind),
        file_name: artifact_file_name(kind),
    }
}

/// The candidates in probing order.
pub open spec fn candidate_list(base: Seq<char>, kind: ArtifactKind, platform: Platform) -> Seq<
    PathModel,
> {
    seq![
        candidate(base, kind, platform, Layout::Canonical),
        candidate(base, kind, platform, Layout::Alternate),
    ]
}

/// Whether candidate `i` was found on disk. A candidate without a probe
/// result counts as absent.
pub open spec fn found(present: Seq<bool>, i: int) -> bool {
    0 <= i < present.len() && present[i]
}

/// The layout to use: the first one found, the canonical one when none is.
pub open spec fn chosen_layout(present: Seq<bool>) -> Layout {
    if found(present, 0) {
        Layout::Canonical
    } else if found(present, 1) {
        Layout::Alternate
    } else {
        Layout::Canonical
    }
}

/// The layout's place in the probing order.
pub open spec fn rank(layout: Layout) -> int {
    match layout {
        Layout::Canonical => 0,
        Layout::Alternate => 1,
    }
}

/// The resolved location under `base`.
pub open spec fn resolved(
    base: Seq<char>,
    kind: ArtifactKind,
    platform: Platform,
    present: Seq<bool>,
) -> PathModel {
    candidate(base, kind, platform, chosen_layout(present))
}

/// The user's directories as `directories::BaseDirs::new` finds them in the
/// environment: what `config_dir()` and `data_local_dir()` give, each as text
/// and absent where its name is not valid Unicode. Nothing comes back where
/// no home directory can be determined. Nothing is known of what comes back.
#[verifier::external_body]
fn user_directories() -> Option<UserDirectories> {
    match directories::BaseDirs::new() {
        Some(dirs) => Some(
            UserDirectories {
                config: dirs.config_dir().to_str().map(String::from),
                local_data: dirs.data_local_dir().to_str().map(String::from),
            },
        ),
        None => None,
    }
}

/// The directory under which the application keeps its files, looked up in
/// the environment: the local data directory on Windows, the configuration
/// directory elsewhere. It is absent where no home directory can be
/// determined or where the directory's name is not valid Unicode. Which
/// directory is taken from what the environment gives is `select_base`'s
/// to say; of the directories themselves nothing is known, so nothing is
/// claimed here of the result.
pub fn base_directory(platform: Platform) -> Option<String> {
    select_base(user_directories(), platform)
}

/// The user's directories that the application may live under, as text. One
/// whose name is no text is absent.
#[derive(Debug, Clone, PartialEq, Eq)]
pub struct UserDirectories {
    /// The directory for configuration files.
    pub config: Option<String>,
    /// The directory for local data.
    pub local_data: Option<String>,
}

/// The base directory among the user's directories: the local data directory
/// on Windows, the configuration directory elsewhere; none where the user's
/// directories could not be determined.
pub open spec fn selected_base(dirs: Option<UserDirectories>, platform: Platform) -> Option<
    Seq<char>,
> {
    match dirs {
        None => None,
        Some(dirs) => match platform {
            Platform::Windows => owned_text(dirs.local_data),
            Platform::Other => owned_text(dirs.config),
        },
    }
}

/// Picks the base directory for `platform` among the user's directories,
/// which are absent where they could not be determined.
pub fn select_base(dirs: Option<UserDirectories>, platform: Platform) -> (res: Option<String>)
    ensures
        owned_text(res) == selected_base(dirs, platform),
{
    match dirs {
        None => None,
        Some(dirs) => match platform {
            Platform::Windows => dirs.local_data,
            Platform::Other => dirs.config,
        },
    }
}

/// A copy of a list of names.
pub fn copy_names(names: &Vec<String>) -> (copy: Vec<String>)
    ensures
        texts(copy@) == texts(names@),
{
    let mut copy: Vec<String> = Vec::new();
    let mut i: usize = 0;
    while i < names.len()
        invariant
            i <= names.len(),
            copy@.len() == i,
            forall|j: int| 0 <= j < i ==> (#[trigger] copy@[j])@ == names@[j]@,
        decreases names.len() - i,
    {
        copy.push(names[i].clone());
        i += 1;
    }
    assert(texts(copy@) =~= texts(names@));
    copy
}

impl ArtifactPath {
    /// A copy of this location.
    pub fn duplicate(&self) -> (copy: ArtifactPath)
        ensures
            copy@ == self@,
    {
        ArtifactPath {
            base: self.base.clone(),
            folders: copy_names(&self.folders),
            file_name: self.file_name.clone(),
        }
    }
}

/// Builds the location of an artifact under `base` in one layout.
pub fn candidate_path(base: &str, kind: ArtifactKind, platform: Platform, layout: Layout) -> (path:
    ArtifactPath)
    ensures
        path@ == candidate(base@, kind, platform, layout),
{
    let mut folders: Vec<String> = Vec::new();
    match (platform, layout) {
        (Platform::Windows, Layout::Canonical) => {
            folders.push("Programs".to_owned());
            folders.push("cursor".to_owned());
        },
        (Platform::Windows, Layout::Alternate) => {
            folders.push("cursor".to_owned());
        },
        (_, Layout::Canonical) => {
            folders.push("Cursor".to_owned());
        },
        (_, Layout::Alternate) => {
            folders.push(".cursor".to_owned());
        },
    }
    assert(texts(folders@) =~= install_folders(platform, layout));
    let file_name = match kind {
        ArtifactKind::StructuredRecord => {
            folders.push("User".to_owned());
            folders.push("globalStorage".to_owned());
            "storage.json".to_owned()
        },
        ArtifactKind::PlainId => "machineid".to_owned(),
    };
    assert(texts(folders@) =~= install_folders(platform, layout) + artifact_folders(kind));
    ArtifactPath { base: base.to_owned(), folders, file_name }
}

/// The candidate locations of an artifact under `base`, in probing order.
pub fn candidates(base: &str, kind: ArtifactKind, platform: Platform) -> (list: Vec<ArtifactPath>)
    ensures
        list@.len() == 2,
        forall|i: int| 0 <= i < 2 ==> (#[trigger] list@[i])@ == candidate_list(base@, kind, platform)[i],
{
    let mut list: Vec<ArtifactPath> = Vec::new();
    list.push(candidate_path(base, kind, platform, Layout::Canonical));
    list.push(candidate_path(base, kind, platform, Layout::Alternate));
    list
}

/// Picks the layout from the probe results, which are given in probing
/// order: the first candidate found, or the canonical one when none is.
pub fn choose_layout(present: &[bool]) -> (layout: Layout)
    ensures
        layout == chosen_layout(present@),
{
    if present.len() > 0 && present[0] {
        Layout::Canonical
    } else if present.len() > 1 && present[1] {
        Layout::Alternate
    } else {
        Layout::Canonical
    }
}

/// Resolves an artifact's location. `base` is the user's base directory,
/// absent where it could not be determined; `present` says for each
/// candidate, in probing order, whether a file exists there.
pub fn resolve(base: Option<&str>, kind: ArtifactKind, platform: Platform, present: &[bool]) -> (res:
    Result<ArtifactPath, Error>)
    ensures
        match base {
            None => res == Err::<ArtifactPath, Error>(Error::NoBaseDirectory),
            Some(b) => res is Ok && res->Ok_0@ == resolved(b@, kind, platform, present@),
        },
{
    match base {
        None => Err(Error::NoBaseDirectory),
        Some(b) => Ok(candidate_path(b, kind, platform, choose_layout(present))),
    }
}

/// Resolves the location of the structured record.
pub fn get_storage_path(base: Option<&str>, platform: Platform, present: &[bool]) -> (res: Result<
    ArtifactPath,
    Error,
>)
    ensures
        match base {
            None => res == Err::<ArtifactPath, Error>(Error::NoBaseDirectory),
            Some(b) => res is Ok && res->Ok_0@ == resolved(
                b@,
                ArtifactKind::StructuredRecord,
                platform,
                present@,
            ),
        },
{
    resolve(base, ArtifactKind::StructuredRecord, platform, present)
}

/// Resolves the location of the plain-text identifier file.
pub fn get_machine_id_path(base: Option<&str>, platform: Platform, present: &[bool]) -> (res:
    Result<ArtifactPath, Error>)
    ensures
        match base {
            None => res == Err::<ArtifactPath, Error>(Error::NoBaseDirectory),
            Some(b) => res is Ok && res->Ok_0@ == resolved(
                b@,
                ArtifactKind::PlainId,
                platform,
                present@,
            ),
        },
{
    resolve(base, ArtifactKind::PlainId, platform, present)
}

/// The chosen candidate is the first one found; when none is found it is the
/// canonical one.
pub proof fn lemma_first_found_is_chosen(present: Seq<bool>)
    ensures
        forall|j: int| 0 <= j < rank(chosen_layout(present)) ==> !found(present, j),
        (exists|i: int| 0 <= i < 2 && found(present, i)) ==> found(
            present,
            rank(chosen_layout(present)),
        ),
        (forall|i: int| 0 <= i < 2 ==> !found(present, i)) ==> chosen_layout(present)
            == Layout::Canonical,
{
}

} // verus!
