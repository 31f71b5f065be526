use machine_identity::backup::{backup_file_name, backup_path, create_backup, plan_backup, Backup};
use machine_identity::paths::ArtifactPath;

fn machine_id_path() -> ArtifactPath {
    ArtifactPath {
        base: "/home/alice/.config".to_string(),
        folders: vec!["Cursor".to_string()],
        file_name: "machineid".to_string(),
    }
}

fn is_timestamp(s: &str) -> bool {
    let chars: Vec<char> = s.chars().collect();
    chars.len() == 15
        && chars.iter().enumerate().all(|(i, c)| if i == 8 { *c == '_' } else { c.is_ascii_digit() })
}

#[test]
fn backup_file_name_appends_the_stamp() {
    assert_eq!(backup_file_name("machineid", "20240102_030405"), "machineid_backup_20240102_030405");
    assert_eq!(backup_file_name("storage.json", "19991231_235959"), "storage.json_backup_19991231_235959");
    assert_eq!(backup_file_name("", ""), "_backup_");
}

#[test]
fn backup_path_stays_in_the_directory() {
    let artifact = machine_id_path();
    let copy = backup_path(&artifact, "20240102_030405");
    assert_eq!(copy.base, artifact.base);
    assert_eq!(copy.folders, artifact.folders);
    assert_eq!(copy.file_name, "machineid_backup_20240102_030405");
    assert_ne!(copy, artifact);
}

#[test]
fn backing_up_a_missing_artifact_is_a_no_op() {
    assert_eq!(plan_backup(&machine_id_path(), None, "20240102_030405"), None);
    assert_eq!(create_backup(&machine_id_path(), None), None);
}

#[test]
fn backing_up_an_existing_artifact_copies_its_content() {
    let artifact = machine_id_path();
    let content = "  some id \n\twith\u{a0}odd bytes ż\n";
    let copy = plan_backup(&artifact, Some(content), "20240102_030405");
    assert_eq!(
        copy,
        Some(Backup {
            path: ArtifactPath {
                base: "/home/alice/.config".to_string(),
                folders: vec!["Cursor".to_string()],
                file_name: "machineid_backup_20240102_030405".to_string(),
            },
            content: content.to_string(),
        })
    );
    assert_eq!(artifact, machine_id_path());
}

#[test]
fn an_empty_artifact_is_backed_up_too() {
    let copy = plan_backup(&machine_id_path(), Some(""), "20240102_030405").unwrap();
    assert_eq!(copy.content, "");
}

#[test]
fn create_backup_stamps_with_the_local_time() {
    let artifact = machine_id_path();
    let copy = create_backup(&artifact, Some("abc")).unwrap();
    assert_eq!(copy.content, "abc");
    assert_eq!(copy.path.base, artifact.base);
    assert_eq!(copy.path.folders, artifact.folders);
    let stamp = copy.path.file_name.strip_prefix("machineid_backup_").unwrap();
    assert!(is_timestamp(stamp), "{}", stamp);
    let now = chrono::Local::now().format("%Y%m%d_%H%M%S").to_string();
    assert!(stamp <= now.as_str());
}
