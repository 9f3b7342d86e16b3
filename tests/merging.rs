use avatar_cli::config::{Entry, OCIContainerRunConfig, ShellConfig, VolumeConfig, VolumeEntry, VolumeScope};
use avatar_cli::error::ErrorKind;
use avatar_cli::merge::{merge_bindings, merge_envs, merge_envs_from_host, merge_extra_paths};
use avatar_cli::config::OCIContainerRunConfigLock;
use avatar_cli::runconfig::{
    check_against_forbidden_path_var, customize_oci_image_path_env_var, merge_run_and_shell_configs, merge_run_configs,
    shell_wants_image_path,
};
use avatar_cli::volumes::{generate_volume_name, merge_volumes};

fn e(k: &str, v: &str) -> Entry {
    Entry::new(k.to_string(), v.to_string())
}

fn s(v: &[&str]) -> Vec<String> {
    v.iter().map(|x| x.to_string()).collect()
}

fn run_config(env: Option<Vec<Entry>>, hosts: Option<Vec<String>>) -> OCIContainerRunConfig {
    OCIContainerRunConfig { env, env_from_host: hosts, extra_paths: None, volumes: None, bindings: None }
}

const DATA_HASH: &str = "bd47413b5c03dfc6e4b5b8143fe205ea";

#[test]
fn merge_envs_overlay_wins() {
    let base = Some(vec![e("A", "1"), e("B", "2")]);
    let over = Some(vec![e("B", "3"), e("C", "4")]);
    let m = merge_envs(&base, &over).unwrap();
    assert_eq!(m, vec![e("A", "1"), e("B", "3"), e("C", "4")]);
    assert_eq!(merge_envs(&base, &None), base);
    assert_eq!(merge_envs(&None, &over), over);
    assert_eq!(merge_envs(&None, &None), None);
}

#[test]
fn merge_bindings_by_container_path() {
    let base = Some(vec![e("/c", "/h1")]);
    let over = Some(vec![e("/c", "/h2")]);
    assert_eq!(merge_bindings(&base, &over), Some(vec![e("/c", "/h2")]));
}

#[test]
fn merge_sets_unite() {
    let a = Some(s(&["HOME", "TERM"]));
    let b = Some(s(&["TERM", "LANG"]));
    assert_eq!(merge_envs_from_host(&a, &b), Some(s(&["HOME", "TERM", "LANG"])));
    assert_eq!(merge_extra_paths(&None, &b), b);
}

#[test]
fn volume_name_project_scope() {
    let c = VolumeConfig { name: None, scope: VolumeScope::Project };
    let n = generate_volume_name("P1", "foo/bar:1", "bar", &c, "/data");
    assert_eq!(n, format!("prj_P1_{}", DATA_HASH));
}

#[test]
fn volume_name_image_scope_dots_slashes() {
    let c = VolumeConfig { name: None, scope: VolumeScope::OCIImage };
    let n = generate_volume_name("P1", "foo/bar:1", "bar", &c, "/data");
    assert_eq!(n, format!("img_P1_foo.bar:1_{}", DATA_HASH));
}

#[test]
fn volume_name_binary_scope() {
    let c = VolumeConfig { name: None, scope: VolumeScope::Binary };
    let n = generate_volume_name("P1", "foo/bar:1", "bar", &c, "/data");
    assert_eq!(n, format!("bin_P1_foo.bar:1_bar_{}", DATA_HASH));
}

#[test]
fn volume_name_explicit_override() {
    let c = VolumeConfig { name: Some("mine".to_string()), scope: VolumeScope::Binary };
    assert_eq!(generate_volume_name("P1", "foo/bar:1", "bar", &c, "/data"), "mine");
}

#[test]
fn volume_name_is_pure() {
    let c = VolumeConfig { name: None, scope: VolumeScope::OCIImage };
    let a = generate_volume_name("P1", "x/y:2", "b", &c, "/v");
    let b = generate_volume_name("P1", "x/y:2", "b", &c.clone(), "/v");
    assert_eq!(a, b);
    let other = generate_volume_name("P1", "x/y:2", "b", &c, "/w");
    assert_ne!(a, other);
}

#[test]
fn merged_volumes_overlay_by_path() {
    let base = Some(vec![VolumeEntry {
        container_path: "/data".to_string(),
        config: VolumeConfig { name: Some("old".to_string()), scope: VolumeScope::Project },
    }]);
    let over = Some(vec![VolumeEntry {
        container_path: "/data".to_string(),
        config: VolumeConfig { name: Some("new".to_string()), scope: VolumeScope::Project },
    }]);
    let m = merge_volumes(&base, &over, "P1", "foo:1", "b").unwrap();
    assert_eq!(m.len(), 1);
    assert_eq!(m[0].get_name(), "new");
    assert_eq!(m[0].get_container_path(), "/data");
}

#[test]
fn customized_path_keeps_relative_only() {
    let extra = s(&["tools/bin", "/opt/x", "node_modules/.bin"]);
    let p = customize_oci_image_path_env_var("/usr/bin:/bin", &extra);
    assert_eq!(p, "/playground/tools/bin:/playground/node_modules/.bin:/usr/bin:/bin");
}

#[test]
fn merge_run_configs_absent_when_both_absent() {
    assert_eq!(merge_run_configs(&None, &None, "P1", "alpine", "3.18", "sh"), None);
    let base = Some(run_config(Some(vec![e("A", "1")]), None));
    let r = merge_run_configs(&base, &None, "P1", "alpine", "3.18", "sh").unwrap();
    assert_eq!(r.get_env(), &Some(vec![e("A", "1")]));
}

#[test]
fn forbidden_path_in_shell_env() {
    let shell = Some(ShellConfig { env: Some(vec![e("PATH", "/x")]), extra_paths: None });
    let r = merge_run_and_shell_configs(&None, &None, &shell, "P1", "alpine", "3.18", "sh", &None);
    let err = r.unwrap_err();
    assert_eq!(err.get_kind(), ErrorKind::Usage);
    assert_eq!(err.get_message(), "Passing a custom PATH environment variable is forbidden");
}

#[test]
fn forbidden_path_in_binary_env_and_hosts() {
    let base = Some(run_config(Some(vec![e("PATH", "/x")]), None));
    let r = merge_run_and_shell_configs(&base, &None, &None, "P1", "alpine", "3.18", "sh", &None);
    assert_eq!(r.unwrap_err().get_kind(), ErrorKind::Usage);
    let base = Some(run_config(None, Some(s(&["PATH"]))));
    let r = merge_run_and_shell_configs(&None, &base, &None, "P1", "alpine", "3.18", "sh", &None);
    assert_eq!(r.unwrap_err().get_kind(), ErrorKind::Usage);
}

#[test]
fn shell_overlay_synthesizes_path() {
    let shell = Some(ShellConfig { env: Some(vec![e("A", "shell"), e("S", "1")]), extra_paths: Some(s(&["bin", "/abs"])) });
    let bin = Some(run_config(Some(vec![e("A", "bin")]), None));
    let image_path = Some("/usr/bin".to_string());
    let r = merge_run_and_shell_configs(&None, &bin, &shell, "P1", "alpine", "3.18", "sh", &image_path)
        .unwrap()
        .unwrap();
    assert_eq!(
        r.get_env(),
        &Some(vec![e("S", "1"), e("A", "bin"), e("PATH", "/playground/bin:/usr/bin")])
    );
}

#[test]
fn shell_overlay_without_image_path_sets_no_path() {
    let shell = Some(ShellConfig { env: None, extra_paths: Some(s(&["bin"])) });
    let r = merge_run_and_shell_configs(&None, &None, &shell, "P1", "alpine", "3.18", "sh", &None)
        .unwrap()
        .unwrap();
    assert_eq!(r.get_env(), &None);
}

#[test]
fn forbidden_path_check_of_frozen_config() {
    let shell = ShellConfig { env: Some(vec![e("A", "1")]), extra_paths: None };
    let clean = OCIContainerRunConfigLock {
        env: Some(vec![e("B", "2")]),
        env_from_host: Some(s(&["HOME"])),
        extra_paths: None,
        volumes: None,
        bindings: None,
    };
    assert!(check_against_forbidden_path_var(&shell, &clean).is_ok());
    let mut passing = clean.clone();
    passing.env_from_host = Some(s(&["PATH"]));
    assert_eq!(check_against_forbidden_path_var(&shell, &passing).unwrap_err().get_kind(), ErrorKind::Usage);
    let bad_shell = ShellConfig { env: Some(vec![e("PATH", "/x")]), extra_paths: None };
    assert_eq!(check_against_forbidden_path_var(&bad_shell, &clean).unwrap_err().get_kind(), ErrorKind::Usage);
}

#[test]
fn image_path_is_wanted_only_with_shell_extra_paths() {
    assert!(!shell_wants_image_path(&None));
    assert!(!shell_wants_image_path(&Some(ShellConfig { env: None, extra_paths: Some(vec![]) })));
    assert!(shell_wants_image_path(&Some(ShellConfig { env: None, extra_paths: Some(s(&["bin"])) })));
}
