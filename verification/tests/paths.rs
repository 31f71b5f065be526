use machine_identity::error::Error;
use machine_identity::paths::{
    base_directory, candidate_path, candidates, choose_layout, copy_names, get_machine_id_path,
    get_storage_path, resolve, select_base, ArtifactKind, ArtifactPath, Layout, Platform,
    UserDirectories,
};

fn path(base: &str, folders: &[&str], file_name: &str) -> ArtifactPath {
    ArtifactPath {
        base: base.to_string(),
        folders: folders.iter().map(|s| s.to_string()).collect(),
        file_name: file_name.to_string(),
    }
}

#[test]
fn storage_candidates_on_linux() {
    let list = candidates("/home/alice/.config", ArtifactKind::StructuredRecord, Platform::Other);
    assert_eq!(
        list,
        vec![
            path("/home/alice/.config", &["Cursor", "User", "globalStorage"], "storage.json"),
            path("/home/alice/.config", &[".cursor", "User", "globalStorage"], "storage.json"),
        ]
    );
}

#[test]
fn storage_candidates_on_windows() {
    let base = "C:\\Users\\Alice\\AppData\\Local";
    let list = candidates(base, ArtifactKind::StructuredRecord, Platform::Windows);
    assert_eq!(
        list,
        vec![
            path(base, &["Programs", "cursor", "User", "globalStorage"], "storage.json"),
            path(base, &["cursor", "User", "globalStorage"], "storage.json"),
        ]
    );
}

#[test]
fn machine_id_candidates() {
    assert_eq!(
        candidates("/cfg", ArtifactKind::PlainId, Platform::Other),
        vec![path("/cfg", &["Cursor"], "machineid"), path("/cfg", &[".cursor"], "machineid")]
    );
    assert_eq!(
        candidates("D:\\L", ArtifactKind::PlainId, Platform::Windows),
        vec![
            path("D:\\L", &["Programs", "cursor"], "machineid"),
            path("D:\\L", &["cursor"], "machineid"),
        ]
    );
}

#[test]
fn candidate_path_agrees_with_the_list() {
    for platform in [Platform::Windows, Platform::Other] {
        for kind in [ArtifactKind::StructuredRecord, ArtifactKind::PlainId] {
            let list = candidates("/b", kind, platform);
            assert_eq!(list.len(), 2);
            assert_eq!(list[0], candidate_path("/b", kind, platform, Layout::Canonical));
            assert_eq!(list[1], candidate_path("/b", kind, platform, Layout::Alternate));
            assert_ne!(list[0], list[1]);
        }
    }
}

#[test]
fn the_first_candidate_found_is_chosen() {
    assert_eq!(choose_layout(&[true, true]), Layout::Canonical);
    assert_eq!(choose_layout(&[true, false]), Layout::Canonical);
    assert_eq!(choose_layout(&[false, true]), Layout::Alternate);
}

#[test]
fn the_canonical_candidate_is_the_default() {
    assert_eq!(choose_layout(&[false, false]), Layout::Canonical);
    assert_eq!(choose_layout(&[]), Layout::Canonical);
    assert_eq!(choose_layout(&[false]), Layout::Canonical);
}

#[test]
fn probe_results_beyond_the_candidates_are_ignored() {
    assert_eq!(choose_layout(&[false, false, true]), Layout::Canonical);
    assert_eq!(choose_layout(&[false, true, true]), Layout::Alternate);
}

#[test]
fn resolve_returns_first_existing_candidate() {
    let both = resolve(Some("/cfg"), ArtifactKind::PlainId, Platform::Other, &[true, true]);
    assert_eq!(both, Ok(path("/cfg", &["Cursor"], "machineid")));
    let second = resolve(Some("/cfg"), ArtifactKind::PlainId, Platform::Other, &[false, true]);
    assert_eq!(second, Ok(path("/cfg", &[".cursor"], "machineid")));
}

#[test]
fn resolve_returns_default_when_nothing_exists() {
    let none = resolve(Some("/cfg"), ArtifactKind::StructuredRecord, Platform::Other, &[false, false]);
    assert_eq!(none, Ok(path("/cfg", &["Cursor", "User", "globalStorage"], "storage.json")));
}

#[test]
fn resolve_fails_without_a_base_directory() {
    for kind in [ArtifactKind::StructuredRecord, ArtifactKind::PlainId] {
        assert_eq!(resolve(None, kind, Platform::Other, &[true, true]), Err(Error::NoBaseDirectory));
        assert_eq!(resolve(None, kind, Platform::Windows, &[]), Err(Error::NoBaseDirectory));
    }
}

#[test]
fn named_resolvers_pick_their_artifact() {
    assert_eq!(
        get_storage_path(Some("/c"), Platform::Other, &[false, true]),
        Ok(path("/c", &[".cursor", "User", "globalStorage"], "storage.json"))
    );
    assert_eq!(
        get_machine_id_path(Some("/c"), Platform::Windows, &[false, false]),
        Ok(path("/c", &["Programs", "cursor"], "machineid"))
    );
    assert_eq!(get_storage_path(None, Platform::Other, &[true]), Err(Error::NoBaseDirectory));
    assert_eq!(get_machine_id_path(None, Platform::Other, &[true]), Err(Error::NoBaseDirectory));
}

#[test]
fn base_directory_is_a_usable_base_when_known() {
    for platform in [Platform::Windows, Platform::Other] {
        if let Some(base) = base_directory(platform) {
            assert!(!base.is_empty());
            let resolved = get_machine_id_path(Some(&base), platform, &[]).unwrap();
            assert_eq!(resolved.base, base);
        }
    }
}

#[test]
fn copies_are_equal_to_their_source() {
    let names = vec!["a".to_string(), "".to_string(), "żółw".to_string()];
    assert_eq!(copy_names(&names), names);
    let p = path("/b", &["x", "y"], "f");
    assert_eq!(p.duplicate(), p);
}

fn directories(config: Option<&str>, local_data: Option<&str>) -> Option<UserDirectories> {
    Some(UserDirectories {
        config: config.map(String::from),
        local_data: local_data.map(String::from),
    })
}

#[test]
fn the_base_is_the_local_data_directory_on_windows() {
    let both = directories(Some("C:\\Roaming"), Some("C:\\Local"));
    assert_eq!(select_base(both, Platform::Windows), Some("C:\\Local".to_string()));
    assert_eq!(select_base(directories(Some("/c"), None), Platform::Windows), None);
    assert_eq!(
        select_base(directories(None, Some("/l")), Platform::Windows),
        Some("/l".to_string())
    );
}

#[test]
fn the_base_is_the_configuration_directory_elsewhere() {
    let both = directories(Some("/home/alice/.config"), Some("/home/alice/.local/share"));
    assert_eq!(select_base(both, Platform::Other), Some("/home/alice/.config".to_string()));
    assert_eq!(select_base(directories(None, Some("/l")), Platform::Other), None);
    assert_eq!(select_base(directories(Some(""), None), Platform::Other), Some(String::new()));
}

#[test]
fn there_is_no_base_without_user_directories() {
    assert_eq!(select_base(None, Platform::Windows), None);
    assert_eq!(select_base(None, Platform::Other), None);
    assert_eq!(select_base(directories(None, None), Platform::Windows), None);
    assert_eq!(select_base(directories(None, None), Platform::Other), None);
}

#[test]
fn base_directory_follows_the_environment() {
    let found = directories::BaseDirs::new();
    let config = found.as_ref().and_then(|d| d.config_dir().to_str().map(String::from));
    let local = found.as_ref().and_then(|d| d.data_local_dir().to_str().map(String::from));
    assert_eq!(base_directory(Platform::Other), config);
    assert_eq!(base_directory(Platform::Windows), local);
}
