use avatar_cli::config::{
    Entry, OCIContainerRunConfig, ShellConfig,
    BinaryEntry, ImageBinaryConfig, ImageEntry, OCIImageConfig, OCIImageTagConfig, ProjectConfig, TagEntry,
};
use avatar_cli::error::ErrorKind;
use avatar_cli::inspect::{trim, after_inspect, after_pull, get_hash_from_repo_digests_str, path_from_image_env, ResolveStep};
use avatar_cli::lock::{generate_config_lock, ResolvedTag};
use avatar_cli::reconcile::{
    check_regular_file, must_regenerate, recreate_volatile_subdir, settle_project_state, update_project_state,
    verify_hash_chain, workspace_changed, SubdirAction,
};
use avatar_cli::session::select_binary;

const MANIFEST_SHA: [u8; 32] = [
    233, 109, 27, 159, 249, 81, 134, 160, 121, 27, 18, 180, 242, 100, 120, 141, 69, 71, 22, 159, 244, 35, 113, 245,
    55, 27, 3, 196, 161, 246, 87, 102,
];
const LOCK_SHA: [u8; 32] = [
    95, 236, 236, 104, 150, 35, 131, 81, 233, 205, 188, 41, 242, 63, 121, 159, 222, 229, 57, 200, 136, 207, 102, 96,
    81, 220, 63, 66, 171, 217, 131, 100,
];

fn manifest(images: Option<Vec<ImageEntry>>) -> ProjectConfig {
    ProjectConfig {
        avatar_version: "0.1.0".to_string(),
        project_internal_id: "P1".to_string(),
        run_config: None,
        shell_config: None,
        images,
    }
}

fn alpine_with(binaries: Vec<(&str, Option<&str>)>) -> ImageEntry {
    ImageEntry {
        name: "alpine".to_string(),
        config: OCIImageConfig {
            tags: vec![TagEntry {
                tag: "3.18".to_string(),
                config: OCIImageTagConfig {
                    binaries: Some(
                        binaries
                            .into_iter()
                            .map(|(n, p)| BinaryEntry {
                                name: n.to_string(),
                                config: ImageBinaryConfig { path: p.map(|x| x.to_string()), run_config: None },
                            })
                            .collect(),
                    ),
                    run_config: None,
                },
            }],
            run_config: None,
        },
    }
}

fn resolved_alpine(hash: &str) -> Vec<ResolvedTag> {
    vec![ResolvedTag {
        image_name: "alpine".to_string(),
        tag: "3.18".to_string(),
        hash: hash.to_string(),
        image_path: Some("/usr/bin:/bin".to_string()),
    }]
}

#[test]
fn resolve_scenario_builds_lock() {
    let out = "alpine@sha256:abcdef\n";
    let hash = get_hash_from_repo_digests_str(out, "alpine").unwrap();
    assert_eq!(hash, "abcdef");
    let m = manifest(Some(vec![alpine_with(vec![("sh", Some("/bin/sh"))])]));
    let lock = generate_config_lock(&m, b"manifest: 1", &resolved_alpine(&hash)).unwrap();
    let sh = lock.get_binary_configuration("sh").unwrap();
    assert_eq!(sh.get_oci_image_name(), "alpine");
    assert_eq!(sh.get_oci_image_hash(), "abcdef");
    assert_eq!(sh.get_path(), "/bin/sh");
    assert_eq!(lock.get_project_config_hash(), &MANIFEST_SHA.to_vec());
    assert_eq!(lock.get_images()[0].tags[0].config.get_hash(), "abcdef");
}

#[test]
fn binary_path_defaults_to_name() {
    let m = manifest(Some(vec![alpine_with(vec![("ls", None)])]));
    let lock = generate_config_lock(&m, b"x", &resolved_alpine("h")).unwrap();
    assert_eq!(lock.get_binary_configuration("ls").unwrap().get_path(), "ls");
}

#[test]
fn lock_binaries_point_at_locked_digests() {
    let m = manifest(Some(vec![alpine_with(vec![("sh", None), ("ls", None)])]));
    let lock = generate_config_lock(&m, b"x", &resolved_alpine("h1")).unwrap();
    for b in lock.get_binaries_configs() {
        let img = lock.get_images().iter().find(|i| &i.name == b.config.get_oci_image_name()).unwrap();
        assert!(img.tags.iter().any(|t| t.config.get_hash() == b.config.get_oci_image_hash()));
    }
    assert_eq!(lock.get_binary_names(), vec!["sh".to_string(), "ls".to_string()]);
}

#[test]
fn empty_images_give_no_binaries_and_shims_fail() {
    let lock = generate_config_lock(&manifest(None), b"x", &vec![]).unwrap();
    assert!(lock.get_binaries_configs().is_empty());
    let err = select_binary(&lock, "sh", "/p/state.yml").unwrap_err();
    assert_eq!(err.get_kind(), ErrorKind::Usage);
    assert!(err.get_message().contains("not properly configured"));
}

#[test]
fn duplicated_binary_is_a_data_error() {
    let mut second = alpine_with(vec![("sh", None)]);
    second.name = "busybox".to_string();
    let m = manifest(Some(vec![alpine_with(vec![("sh", None)]), second]));
    let mut resolved = resolved_alpine("h1");
    resolved.push(ResolvedTag {
        image_name: "busybox".to_string(),
        tag: "3.18".to_string(),
        hash: "h2".to_string(),
        image_path: None,
    });
    let err = generate_config_lock(&m, b"x", &resolved).unwrap_err();
    assert_eq!(err.get_kind(), ErrorKind::Data);
    assert!(err.get_message().contains("Duplicated binary definition for 'sh'"));
}

#[test]
fn image_without_tags_is_a_data_error() {
    let mut img = alpine_with(vec![]);
    img.config.tags.clear();
    let err = generate_config_lock(&manifest(Some(vec![img])), b"x", &vec![]).unwrap_err();
    assert_eq!(err.get_kind(), ErrorKind::Data);
}

#[test]
fn same_manifest_same_lock() {
    let m = manifest(Some(vec![alpine_with(vec![("sh", Some("/bin/sh"))])]));
    let a = generate_config_lock(&m, b"manifest: 1", &resolved_alpine("abc")).unwrap();
    let b = generate_config_lock(&m, b"manifest: 1", &resolved_alpine("abc")).unwrap();
    assert_eq!(a, b);
}

#[test]
fn state_is_stamped_with_lock_bytes() {
    let m = manifest(None);
    let lock = generate_config_lock(&m, b"manifest: 1", &vec![]).unwrap();
    let state = update_project_state(lock.clone(), b"lock bytes");
    assert_eq!(state.get_project_config_hash(), &LOCK_SHA.to_vec());
    assert_eq!(state.get_project_internal_id(), lock.get_project_internal_id());
}

#[test]
fn second_install_is_a_no_op() {
    let m = manifest(None);
    let lock = generate_config_lock(&m, b"manifest: 1", &vec![]).unwrap();
    let state = update_project_state(lock.clone(), b"lock bytes");
    assert!(!must_regenerate(b"manifest: 1", &Some(lock)));
    assert!(!must_regenerate(b"lock bytes", &Some(state)));
    assert!(must_regenerate(b"lock bytes", &None));
    assert!(!workspace_changed(false, false));
    assert_eq!(recreate_volatile_subdir(true, true, false, "/p/bin").unwrap(), SubdirAction::Keep);
}

#[test]
fn deleted_subdir_is_recreated() {
    assert_eq!(recreate_volatile_subdir(false, false, false, "/p/bin").unwrap(), SubdirAction::Create);
    assert_eq!(recreate_volatile_subdir(true, true, true, "/p/bin").unwrap(), SubdirAction::Recreate);
    let err = recreate_volatile_subdir(true, false, false, "/p/bin").unwrap_err();
    assert_eq!(err.get_kind(), ErrorKind::Usage);
}

#[test]
fn drift_is_detected() {
    let m = manifest(None);
    let lock = generate_config_lock(&m, b"manifest: 1", &vec![]).unwrap();
    let state = update_project_state(lock.clone(), b"lock bytes");
    assert!(verify_hash_chain(b"manifest: 1", &lock, b"lock bytes", &state, "a", "b", "c").is_ok());
    let err = verify_hash_chain(b"manifest: 2", &lock, b"lock bytes", &state, "a", "b", "c").unwrap_err();
    assert_eq!(err.get_kind(), ErrorKind::Data);
    assert!(err.get_message().contains("does not match"));
    assert!(must_regenerate(b"manifest: 2", &Some(lock)));
}

#[test]
fn regular_file_check() {
    assert_eq!(check_regular_file(false, false, "x").unwrap(), false);
    assert_eq!(check_regular_file(true, true, "x").unwrap(), true);
    assert_eq!(check_regular_file(true, false, "x").unwrap_err().get_kind(), ErrorKind::Data);
}

#[test]
fn repo_digest_parsing() {
    let out = "  other@sha256:111\nalpine@sha256:222\n";
    assert_eq!(get_hash_from_repo_digests_str(out, "alpine").unwrap(), "222");
    let err = get_hash_from_repo_digests_str(out, "busybox").unwrap_err();
    assert_eq!(err.get_kind(), ErrorKind::Protocol);
    let err = get_hash_from_repo_digests_str("alpine@nodigest", "alpine").unwrap_err();
    assert_eq!(err.get_kind(), ErrorKind::Protocol);
}

#[test]
fn image_path_parsing() {
    let out = "HOME=/root\nPATH=/usr/local/bin:/usr/bin\nX=a=b\n";
    assert_eq!(path_from_image_env(out), Some("/usr/local/bin:/usr/bin".to_string()));
    assert_eq!(path_from_image_env("A=b=c\nPATH=x=y"), Some("x=y".to_string()));
    assert_eq!(path_from_image_env("HOME=/root"), None);
}

#[test]
fn one_pull_then_unavailable() {
    assert_eq!(after_inspect(false, &None, "alpine"), ResolveStep::Pull);
    match after_inspect(true, &None, "alpine") {
        ResolveStep::Failed(e) => assert_eq!(e.get_kind(), ErrorKind::Unavailable),
        other => panic!("unexpected step {:?}", other),
    }
    assert_eq!(
        after_inspect(true, &Some("alpine@sha256:abc".to_string()), "alpine"),
        ResolveStep::Resolved("abc".to_string())
    );
    assert!(after_pull(true, "alpine:3.18").is_ok());
    assert_eq!(after_pull(false, "alpine:3.18").unwrap_err().get_kind(), ErrorKind::Unavailable);
}

#[test]
fn state_is_kept_or_restamped() {
    let lock = generate_config_lock(&manifest(None), b"manifest: 1", &vec![]).unwrap();
    let (fresh, changed) = settle_project_state(lock.clone(), b"lock bytes", None);
    assert!(changed);
    assert_eq!(fresh.get_project_config_hash(), &LOCK_SHA.to_vec());
    let (kept, changed) = settle_project_state(lock.clone(), b"lock bytes", Some(fresh.clone()));
    assert!(!changed);
    assert_eq!(kept, fresh);
    let (_, changed) = settle_project_state(lock, b"other lock bytes", Some(fresh));
    assert!(changed);
}

#[test]
fn trimming_white_space() {
    assert_eq!(trim("  a b \t\n"), "a b");
    assert_eq!(trim("\u{3000}x\u{a0}"), "x");
    assert_eq!(trim(" \r\n "), "");
    assert_eq!(trim(""), "");
}

#[test]
fn lock_binary_uses_its_own_tag_and_layers() {
    let mut img = alpine_with(vec![("sh", None)]);
    let mut second = img.config.tags[0].clone();
    second.tag = "3.19".to_string();
    second.config.binaries = Some(vec![BinaryEntry {
        name: "ls".to_string(),
        config: ImageBinaryConfig {
            path: None,
            run_config: Some(OCIContainerRunConfig {
                env: Some(vec![Entry::new("B".to_string(), "bin".to_string())]),
                env_from_host: None,
                extra_paths: None,
                volumes: None,
                bindings: None,
            }),
        },
    }]);
    second.config.run_config = Some(OCIContainerRunConfig {
        env: Some(vec![Entry::new("T".to_string(), "tag".to_string())]),
        env_from_host: None,
        extra_paths: None,
        volumes: None,
        bindings: None,
    });
    img.config.tags.push(second);
    let mut m = manifest(Some(vec![img]));
    m.shell_config = Some(ShellConfig { env: Some(vec![Entry::new("S".to_string(), "sh".to_string())]), extra_paths: None });
    let mut resolved = resolved_alpine("h18");
    resolved.push(ResolvedTag {
        image_name: "alpine".to_string(),
        tag: "3.19".to_string(),
        hash: "h19".to_string(),
        image_path: None,
    });
    let lock = generate_config_lock(&m, b"x", &resolved).unwrap();
    let ls = lock.get_binary_configuration("ls").unwrap();
    assert_eq!(ls.get_oci_image_hash(), "h19");
    let env = ls.get_run_config().as_ref().unwrap().get_env().clone().unwrap();
    assert_eq!(
        env,
        vec![
            Entry::new("S".to_string(), "sh".to_string()),
            Entry::new("T".to_string(), "tag".to_string()),
            Entry::new("B".to_string(), "bin".to_string()),
        ]
    );
    let sh = lock.get_binary_configuration("sh").unwrap();
    assert_eq!(sh.get_oci_image_hash(), "h18");
    assert_eq!(
        sh.get_run_config().as_ref().unwrap().get_env(),
        &Some(vec![Entry::new("S".to_string(), "sh".to_string())])
    );
}
